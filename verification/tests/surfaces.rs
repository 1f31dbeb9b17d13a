use awww::config::WidgetConfiguration;
use awww::config::WindowAnchorConfiguration;
use awww::config::WindowMarginConfiguration;
use awww::config::WindowSizeConfiguration;
use awww::layer::Layer;
use awww::layer::all_layers;
use awww::layer::layer_name;
use awww::layer::string_to_layer;
use awww::surface::Edge;
use awww::surface::SurfaceOp;
use awww::surface::apply_layer_shell;
use awww::surface::set_layer_shell;
use awww::surface::show_window;
use awww::surface::webview_uri;

#[test]
fn layer_names_round_trip() {
    for layer in all_layers() {
        let name = layer_name(layer);
        assert_eq!(string_to_layer(name.to_string()), Ok(layer));
    }
    assert_eq!(string_to_layer("attic".to_string()), Err(()));
    assert_eq!(string_to_layer("Top".to_string()), Err(()));
}

#[test]
fn layer_scan_order_is_fixed() {
    let layers = all_layers();
    assert_eq!(
        layers,
        vec![Layer::Background, Layer::Bottom, Layer::Overlay, Layer::Top]
    );
    assert_eq!(layer_name(Layer::Background), "background");
    assert_eq!(layer_name(Layer::Top), "top");
}

#[test]
fn default_config_layer_shell_directives() {
    let c = WidgetConfiguration::new("clock".to_string(), "overlay".to_string());
    let ops = set_layer_shell(&c).expect("overlay is a layer");
    assert_eq!(
        ops,
        vec![
            SurfaceOp::SetLayer(Layer::Overlay),
            SurfaceOp::SetAnchor(Edge::Top, true),
            SurfaceOp::SetAnchor(Edge::Right, true),
            SurfaceOp::SetAnchor(Edge::Bottom, true),
            SurfaceOp::SetAnchor(Edge::Left, true),
            SurfaceOp::SetMargin(Edge::Top, 0),
            SurfaceOp::SetMargin(Edge::Right, 0),
            SurfaceOp::SetMargin(Edge::Bottom, 0),
            SurfaceOp::SetMargin(Edge::Left, 0),
            SurfaceOp::SetKeyboardInteractivity(true),
        ]
    );
}

#[test]
fn each_margin_lands_on_its_own_edge() {
    let mut c = WidgetConfiguration::new("clock".to_string(), "top".to_string());
    c.margins = Some(WindowMarginConfiguration {
        top: None,
        right: None,
        bottom: None,
        left: Some(12),
    });
    c.anchors = Some(WindowAnchorConfiguration {
        top: None,
        right: None,
        bottom: None,
        left: Some(true),
    });
    c.keyboard_interactivity = None;
    let ops = set_layer_shell(&c).expect("top is a layer");
    assert_eq!(
        ops,
        vec![
            SurfaceOp::SetLayer(Layer::Top),
            SurfaceOp::SetAnchor(Edge::Left, true),
            SurfaceOp::SetMargin(Edge::Left, 12),
        ]
    );
}

#[test]
fn exclusive_zone_is_only_requested_when_configured() {
    let mut c = WidgetConfiguration::new("clock".to_string(), "top".to_string());
    c.exclusive = Some(true);
    let ops = set_layer_shell(&c).expect("top is a layer");
    assert!(ops.contains(&SurfaceOp::EnableExclusiveZone));
    c.exclusive = Some(false);
    let ops = set_layer_shell(&c).expect("top is a layer");
    assert!(!ops.contains(&SurfaceOp::EnableExclusiveZone));
}

#[test]
fn unknown_layer_is_refused() {
    let c = WidgetConfiguration::new("clock".to_string(), "attic".to_string());
    assert!(set_layer_shell(&c).is_err());
    assert!(apply_layer_shell(&c).is_err());
}

#[test]
fn apply_prefixes_initialization() {
    let c = WidgetConfiguration::new("clock".to_string(), "background".to_string());
    let ops = apply_layer_shell(&c).expect("background is a layer");
    assert_eq!(ops[0], SurfaceOp::InitLayerShell);
    assert_eq!(ops[1], SurfaceOp::SetLayer(Layer::Background));
}

#[test]
fn presentation_directives_follow_the_configuration() {
    let mut c = WidgetConfiguration::new("clock".to_string(), "top".to_string());
    c.default_size = Some(WindowSizeConfiguration {
        width: Some(300),
        height: Some(60),
    });
    let ops = show_window(&c);
    assert_eq!(
        ops,
        vec![
            SurfaceOp::ShowAll,
            SurfaceOp::SetTitle("clock".to_string()),
            SurfaceOp::SetWidthRequest(300),
            SurfaceOp::SetHeightRequest(60),
            SurfaceOp::InstallClickThroughRegion,
        ]
    );
    c.click_through = Some(false);
    c.default_size = None;
    let ops = show_window(&c);
    assert_eq!(
        ops,
        vec![SurfaceOp::ShowAll, SurfaceOp::SetTitle("clock".to_string())]
    );
}

#[test]
fn webview_address_points_at_the_content_server() {
    let c = WidgetConfiguration::new("clock".to_string(), "top".to_string());
    let root = c.get_webview_root();
    assert_eq!(webview_uri(&root), "http://127.0.0.1:8082/top/clock");
}
