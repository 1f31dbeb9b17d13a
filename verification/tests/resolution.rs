use awww::config::CandidateOutcome;
use awww::config::WidgetCandidate;
use awww::config::WidgetConfiguration;
use awww::config::WindowAnchorConfiguration;
use awww::config::default_config_json;
use awww::config::get_widget_configurations;
use awww::config::resolve_candidate;

fn blank_config() -> WidgetConfiguration {
    WidgetConfiguration {
        application_name: String::new(),
        layer: String::new(),
        monitors: None,
        exclusive: None,
        anchors: None,
        margins: None,
        default_size: None,
        keyboard_interactivity: None,
        keyboard_mode: None,
        click_through: None,
        default_visible: None,
    }
}

fn anchored_config() -> WidgetConfiguration {
    let mut c = blank_config();
    c.anchors = Some(WindowAnchorConfiguration {
        top: Some(true),
        right: None,
        bottom: None,
        left: None,
    });
    c
}

fn candidate(
    layer: &str,
    app: &str,
    has_entry_point: bool,
    config: Option<WidgetConfiguration>,
) -> WidgetCandidate {
    WidgetCandidate {
        layer: layer.to_string(),
        application_name: app.to_string(),
        has_entry_point,
        config,
    }
}

#[test]
fn default_configuration_fields() {
    let c = WidgetConfiguration::new("clock".to_string(), "top".to_string());
    assert_eq!(c.application_name, "clock");
    assert_eq!(c.layer, "top");
    assert!(c.monitors.is_none());
    assert_eq!(c.exclusive, Some(false));
    let a = c.anchors.expect("anchors");
    assert_eq!(a.top, Some(true));
    assert_eq!(a.right, Some(true));
    assert_eq!(a.bottom, Some(true));
    assert_eq!(a.left, Some(true));
    let m = c.margins.expect("margins");
    assert_eq!(m.top, Some(0));
    assert_eq!(m.right, Some(0));
    assert_eq!(m.bottom, Some(0));
    assert_eq!(m.left, Some(0));
    assert!(c.default_size.is_none());
    assert_eq!(c.keyboard_interactivity, Some(true));
    assert_eq!(c.keyboard_mode, Some("on_demand".to_string()));
    assert_eq!(c.click_through, Some(true));
    assert_eq!(c.default_visible, Some(true));
}

#[test]
fn webview_root_concatenates_layer_and_name() {
    let c = WidgetConfiguration::new("clock".to_string(), "top".to_string());
    assert_eq!(c.get_webview_root(), "/top/clock");
}

#[test]
fn missing_entry_point_is_excluded() {
    let with_config = candidate("top", "clock", false, Some(anchored_config()));
    assert!(matches!(resolve_candidate(with_config), CandidateOutcome::NotAWidget));
    let without_config = candidate("top", "clock", false, None);
    assert!(matches!(resolve_candidate(without_config), CandidateOutcome::NotAWidget));
    let both = vec![
        candidate("top", "clock", false, Some(anchored_config())),
        candidate("top", "bar", false, None),
    ];
    assert!(get_widget_configurations(both).is_empty());
}

#[test]
fn absent_anchors_are_excluded() {
    let c = candidate("top", "clock", true, Some(blank_config()));
    assert!(matches!(resolve_candidate(c), CandidateOutcome::RejectedNoAnchors));
}

#[test]
fn unset_anchor_sides_are_excluded() {
    let mut cfg = blank_config();
    cfg.anchors = Some(WindowAnchorConfiguration {
        top: None,
        right: None,
        bottom: None,
        left: None,
    });
    let c = candidate("top", "clock", true, Some(cfg));
    assert!(matches!(resolve_candidate(c), CandidateOutcome::RejectedNoAnchors));
}

#[test]
fn all_false_anchor_sides_are_excluded() {
    let mut cfg = blank_config();
    cfg.anchors = Some(WindowAnchorConfiguration {
        top: Some(false),
        right: Some(false),
        bottom: Some(false),
        left: Some(false),
    });
    let c = candidate("top", "clock", true, Some(cfg));
    assert!(matches!(resolve_candidate(c), CandidateOutcome::RejectedNoAnchors));
}

#[test]
fn one_true_anchor_side_is_kept() {
    let c = candidate("top", "clock", true, Some(anchored_config()));
    match resolve_candidate(c) {
        CandidateOutcome::Accepted(a) => {
            assert_eq!(a.application_name, "clock");
            assert_eq!(a.layer, "top");
        }
        other => panic!("expected acceptance, got {:?}", other),
    }
}

#[test]
fn identity_pair_is_never_trusted_from_the_file() {
    let mut cfg = anchored_config();
    cfg.application_name = "impostor".to_string();
    cfg.layer = "nowhere".to_string();
    let c = candidate("background", "clock", true, Some(cfg));
    match resolve_candidate(c) {
        CandidateOutcome::Accepted(a) => {
            assert_eq!(a.application_name, "clock");
            assert_eq!(a.layer, "background");
        }
        other => panic!("expected acceptance, got {:?}", other),
    }
}

#[test]
fn missing_config_synthesizes_the_default() {
    let c = candidate("overlay", "clock", true, None);
    match resolve_candidate(c) {
        CandidateOutcome::Synthesized(d) => {
            assert_eq!(d.application_name, "clock");
            assert_eq!(d.layer, "overlay");
            assert_eq!(d.exclusive, Some(false));
            assert_eq!(d.click_through, Some(true));
            assert_eq!(d.keyboard_mode, Some("on_demand".to_string()));
            let a = d.anchors.expect("anchors");
            assert_eq!(a.top, Some(true));
            assert_eq!(a.left, Some(true));
        }
        other => panic!("expected a synthesized default, got {:?}", other),
    }
    let configs = get_widget_configurations(vec![candidate("overlay", "clock", true, None)]);
    assert_eq!(configs.len(), 1);
    assert_eq!(configs[0].application_name, "clock");
}

#[test]
fn persisted_default_text_parses_to_the_default() {
    let text = default_config_json();
    let v: serde_json::Value = serde_json::from_str(&text).expect("default text must parse");
    assert!(v["monitors"].is_null());
    assert_eq!(v["exclusive"].as_bool(), Some(false));
    assert_eq!(v["anchors"]["top"].as_bool(), Some(true));
    assert_eq!(v["anchors"]["right"].as_bool(), Some(true));
    assert_eq!(v["anchors"]["bottom"].as_bool(), Some(true));
    assert_eq!(v["anchors"]["left"].as_bool(), Some(true));
    assert_eq!(v["margins"]["top"].as_i64(), Some(0));
    assert_eq!(v["margins"]["right"].as_i64(), Some(0));
    assert_eq!(v["margins"]["bottom"].as_i64(), Some(0));
    assert_eq!(v["margins"]["left"].as_i64(), Some(0));
    assert!(v["default_size"].is_null());
    assert_eq!(v["keyboard_interactivity"].as_bool(), Some(true));
    assert_eq!(v["keyboard_mode"].as_str(), Some("on_demand"));
    assert_eq!(v["click_through"].as_bool(), Some(true));
    assert_eq!(v["default_visible"].as_bool(), Some(true));
}

#[test]
fn mixed_candidates_keep_only_the_valid_ones() {
    let cands = vec![
        candidate("top", "kept", true, Some(anchored_config())),
        candidate("top", "noentry", false, Some(anchored_config())),
        candidate("bottom", "noanchor", true, Some(blank_config())),
        candidate("overlay", "synth", true, None),
    ];
    let configs = get_widget_configurations(cands);
    assert_eq!(configs.len(), 2);
    assert_eq!(configs[0].application_name, "kept");
    assert_eq!(configs[1].application_name, "synth");
}
