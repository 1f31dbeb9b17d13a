use awww::config::WidgetConfiguration;
use awww::control::InstructionQueue;
use awww::control::parse_command;
use awww::registry::apply_instruction;
use awww::registry::build_widgets;
use awww::widget::WidgetInstanceInstruction;

fn config(layer: &str, app: &str) -> WidgetConfiguration {
    WidgetConfiguration::new(app.to_string(), layer.to_string())
}

#[test]
fn list_reports_every_instance_and_mutates_nothing() {
    let configs = vec![config("top", "clock"), config("bottom", "bar")];
    let mut registry = build_widgets(&configs, 2);
    assert_eq!(registry.len(), 4);

    let first = apply_instruction(&mut registry, WidgetInstanceInstruction::List);
    assert_eq!(first.listed.len(), 4);
    assert!(first.shown.is_empty());
    assert_eq!(registry.len(), 4);

    let second = apply_instruction(&mut registry, WidgetInstanceInstruction::List);
    assert_eq!(second.listed.len(), 4);
    assert_eq!(first.listed, second.listed);
}

#[test]
fn list_pairs_names_with_ids() {
    let configs = vec![config("top", "clock")];
    let mut registry = build_widgets(&configs, 1);
    let effects = apply_instruction(&mut registry, WidgetInstanceInstruction::List);
    assert_eq!(effects.listed.len(), 1);
    assert_eq!(effects.listed[0].0, "clock");
    assert_eq!(effects.listed[0].1, 1);
}

#[test]
fn show_reports_the_matching_instance_then_clears() {
    let configs = vec![config("top", "clock"), config("bottom", "bar")];
    let mut registry = build_widgets(&configs, 1);
    let snapshot = registry.snapshot();
    let clock_id = snapshot
        .iter()
        .find(|i| i.application_name == "clock")
        .expect("clock instance")
        .id;

    let effects = apply_instruction(
        &mut registry,
        WidgetInstanceInstruction::Show("top".to_string(), "clock".to_string()),
    );
    assert_eq!(effects.shown, vec![clock_id]);
    assert!(effects.listed.is_empty());

    let after = apply_instruction(&mut registry, WidgetInstanceInstruction::List);
    assert_eq!(after.listed.len(), 0);
}

#[test]
fn show_without_match_shows_nothing() {
    let configs = vec![config("top", "clock")];
    let mut registry = build_widgets(&configs, 1);
    let effects = apply_instruction(
        &mut registry,
        WidgetInstanceInstruction::Show("top".to_string(), "unknown".to_string()),
    );
    assert!(effects.shown.is_empty());
}

#[test]
fn hide_and_reload_are_accepted_without_effect() {
    let configs = vec![config("top", "clock")];
    let mut registry = build_widgets(&configs, 1);
    let hide = apply_instruction(
        &mut registry,
        WidgetInstanceInstruction::Hide("top".to_string(), "clock".to_string()),
    );
    assert!(hide.listed.is_empty());
    assert!(hide.shown.is_empty());
    assert_eq!(registry.len(), 1);
    let reload = apply_instruction(
        &mut registry,
        WidgetInstanceInstruction::Reload("top".to_string(), "clock".to_string()),
    );
    assert!(reload.listed.is_empty());
    assert!(reload.shown.is_empty());
    assert_eq!(registry.len(), 1);
}

#[test]
fn queue_holds_at_most_one_instruction() {
    let mut queue = InstructionQueue::new();
    assert!(!queue.is_pending());
    assert!(queue.push(WidgetInstanceInstruction::List).is_ok());
    assert!(queue.is_pending());
    let refused = queue.push(WidgetInstanceInstruction::Hide(
        "top".to_string(),
        "clock".to_string(),
    ));
    assert!(matches!(
        refused,
        Err(WidgetInstanceInstruction::Hide(_, _))
    ));
    assert!(matches!(queue.pop(), Some(WidgetInstanceInstruction::List)));
    assert!(!queue.is_pending());
    assert!(queue.push(WidgetInstanceInstruction::List).is_ok());
}

#[test]
fn channel_backpressure_caps_in_flight_instructions() {
    let (tx, rx) = async_channel::bounded::<i32>(1);
    tx.send_blocking(1).expect("first send fits");
    assert!(matches!(
        tx.try_send(2),
        Err(async_channel::TrySendError::Full(2))
    ));
    assert_eq!(rx.recv_blocking().expect("receive"), 1);
    tx.send_blocking(3).expect("slot is free again");
}

#[test]
fn only_list_is_recognized() {
    assert!(matches!(
        parse_command(&"list".to_string()),
        Some(WidgetInstanceInstruction::List)
    ));
    assert!(parse_command(&"".to_string()).is_none());
    assert!(parse_command(&"List".to_string()).is_none());
    assert!(parse_command(&"list ".to_string()).is_none());
    assert!(parse_command(&"show top clock".to_string()).is_none());
}

#[test]
fn interleaved_connection_lines_parse_independently() {
    let connection_a = ["list", "garbage"];
    let connection_b = ["noise", "list"];
    let mut recognized = 0;
    for (a, b) in connection_a.iter().zip(connection_b.iter()) {
        if parse_command(&a.to_string()).is_some() {
            recognized += 1;
        }
        if parse_command(&b.to_string()).is_some() {
            recognized += 1;
        }
    }
    assert_eq!(recognized, 2);
}
