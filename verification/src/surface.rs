//! The surface directives derived from a configuration: the layer-shell
//! setup applied before a window is first realized, and the presentation
//! steps applied when it is shown. The embedder executes each directive
//! against the real windowing toolkit, in order.

use vstd::prelude::*;
use crate::config::WidgetConfiguration;
use crate::config::WindowAnchorConfiguration;
use crate::config::WindowMarginConfiguration;
use crate::config::WindowSizeConfiguration;
use crate::layer::Layer;
use crate::layer::layer_of_name;
use crate::layer::string_to_layer;

verus! {

/// A screen edge of a surface.
#[derive(Clone, Copy, Debug, PartialEq, Eq, Structural)]
pub enum Edge {
    Top,
    Right,
    Bottom,
    Left,
}

/// One step the embedder performs against the windowing toolkit for a
/// surface.
#[derive(Clone, Debug, PartialEq)]
pub enum SurfaceOp {
    /// Turn the window into a layer surface, before it is first realized.
    InitLayerShell,
    /// Assign the surface's stacking layer.
    SetLayer(Layer),
    /// Pin (or unpin) the surface to a screen edge.
    SetAnchor(Edge, bool),
    /// Set the margin, in pixels, toward one anchored edge.
    SetMargin(Edge, i32),
    /// Reserve exclusive screen space for the surface.
    EnableExclusiveZone,
    /// Let the surface take (or refuse) keyboard focus.
    SetKeyboardInteractivity(bool),
    /// Present the window and everything inside it.
    ShowAll,
    /// Set the window title.
    SetTitle(String),
    /// Request an initial width.
    SetWidthRequest(i32),
    /// Request an initial height.
    SetHeightRequest(i32),
    /// Install an empty input region so pointer events pass through.
    InstallClickThroughRegion,
}

/// The anchor directive for one side, if that side is configured.
pub open spec fn opt_anchor_op(edge: Edge, side: Option<bool>) -> Seq<SurfaceOp> {
    match side {
        Some(b) => seq![SurfaceOp::SetAnchor(edge, b)],
        None => Seq::empty(),
    }
}

/// The anchor directives: one per configured side, top, right, bottom,
/// left.
pub open spec fn anchor_ops(anchors: Option<WindowAnchorConfiguration>) -> Seq<SurfaceOp> {
    match anchors {
        Some(a) => opt_anchor_op(Edge::Top, a.top) + opt_anchor_op(Edge::Right, a.right)
            + opt_anchor_op(Edge::Bottom, a.bottom) + opt_anchor_op(Edge::Left, a.left),
        None => Seq::empty(),
    }
}

/// The margin directive for one side, if that side is configured. Each
/// configured margin is applied to its own edge only.
pub open spec fn opt_margin_op(edge: Edge, side: Option<i32>) -> Seq<SurfaceOp> {
    match side {
        Some(m) => seq![SurfaceOp::SetMargin(edge, m)],
        None => Seq::empty(),
    }
}

/// The margin directives: one per configured side, top, right, bottom,
/// left.
pub open spec fn margin_ops(margins: Option<WindowMarginConfiguration>) -> Seq<SurfaceOp> {
    match margins {
        Some(m) => opt_margin_op(Edge::Top, m.top) + opt_margin_op(Edge::Right, m.right)
            + opt_margin_op(Edge::Bottom, m.bottom) + opt_margin_op(Edge::Left, m.left),
        None => Seq::empty(),
    }
}

/// The exclusive-zone directive, present only when reservation was
/// requested.
pub open spec fn exclusive_ops(exclusive: Option<bool>) -> Seq<SurfaceOp> {
    if exclusive == Some(true) {
        seq![SurfaceOp::EnableExclusiveZone]
    } else {
        Seq::empty()
    }
}

/// The keyboard-interactivity directive, if configured.
pub open spec fn keyboard_ops(keyboard_interactivity: Option<bool>) -> Seq<SurfaceOp> {
    match keyboard_interactivity {
        Some(b) => seq![SurfaceOp::SetKeyboardInteractivity(b)],
        None => Seq::empty(),
    }
}

/// Everything `set_layer_shell` directs for a configuration, given its
/// parsed layer: stacking layer, anchors, margins, exclusive zone,
/// keyboard interactivity, in that order.
pub open spec fn layer_shell_ops(config: WidgetConfiguration, layer: Layer) -> Seq<SurfaceOp> {
    seq![SurfaceOp::SetLayer(layer)] + anchor_ops(config.anchors) + margin_ops(config.margins)
        + exclusive_ops(config.exclusive) + keyboard_ops(config.keyboard_interactivity)
}

/// The size-request directives, if an initial size is configured.
pub open spec fn size_ops(size: Option<WindowSizeConfiguration>) -> Seq<SurfaceOp> {
    match size {
        Some(s) => (match s.width {
            Some(w) => seq![SurfaceOp::SetWidthRequest(w)],
            None => Seq::empty(),
        }) + (match s.height {
            Some(h) => seq![SurfaceOp::SetHeightRequest(h)],
            None => Seq::empty(),
        }),
        None => Seq::empty(),
    }
}

/// The click-through directive, present only when requested.
pub open spec fn click_through_ops(click_through: Option<bool>) -> Seq<SurfaceOp> {
    if click_through == Some(true) {
        seq![SurfaceOp::InstallClickThroughRegion]
    } else {
        Seq::empty()
    }
}

/// Everything `show_window` directs for a configuration: present, title,
/// requested size, click-through, in that order.
pub open spec fn presentation_ops(config: WidgetConfiguration) -> Seq<SurfaceOp> {
    seq![SurfaceOp::ShowAll, SurfaceOp::SetTitle(config.application_name)] + size_ops(
        config.default_size,
    ) + click_through_ops(config.click_through)
}

fn anchor_ops_vec(anchors: &Option<WindowAnchorConfiguration>) -> (r: Vec<SurfaceOp>)
    ensures
        r@ == anchor_ops(*anchors),
{
    let mut r: Vec<SurfaceOp> = Vec::new();
    match anchors {
        Some(a) => {
            if let Some(b) = a.top {
                r.push(SurfaceOp::SetAnchor(Edge::Top, b));
            }
            if let Some(b) = a.right {
                r.push(SurfaceOp::SetAnchor(Edge::Right, b));
            }
            if let Some(b) = a.bottom {
                r.push(SurfaceOp::SetAnchor(Edge::Bottom, b));
            }
            if let Some(b) = a.left {
                r.push(SurfaceOp::SetAnchor(Edge::Left, b));
            }
        },
        None => {
        },
    }
    proof {
        assert(r@ =~= anchor_ops(*anchors));
    }
    r
}

fn margin_ops_vec(margins: &Option<WindowMarginConfiguration>) -> (r: Vec<SurfaceOp>)
    ensures
        r@ == margin_ops(*margins),
{
    let mut r: Vec<SurfaceOp> = Vec::new();
    match margins {
        Some(m) => {
            if let Some(v) = m.top {
                r.push(SurfaceOp::SetMargin(Edge::Top, v));
            }
            if let Some(v) = m.right {
                r.push(SurfaceOp::SetMargin(Edge::Right, v));
            }
            if let Some(v) = m.bottom {
                r.push(SurfaceOp::SetMargin(Edge::Bottom, v));
            }
            if let Some(v) = m.left {
                r.push(SurfaceOp::SetMargin(Edge::Left, v));
            }
        },
        None => {
        },
    }
    proof {
        assert(r@ =~= margin_ops(*margins));
    }
    r
}

/// Derives the layer-shell directives for a configuration. Fails exactly
/// when the configuration's layer string names no layer, which resolution
/// never produces.
pub fn set_layer_shell(config: &WidgetConfiguration) -> (r: Result<Vec<SurfaceOp>, ()>)
    ensures
        layer_of_name(config.layer@) matches Some(l) ==> (r matches Ok(ops) && ops@
            == layer_shell_ops(*config, l)),
        layer_of_name(config.layer@) is None ==> r is Err,
{
    let layer = match string_to_layer(config.layer.clone()) {
        Ok(l) => l,
        Err(()) => {
            return Err(());
        },
    };
    let mut ops: Vec<SurfaceOp> = Vec::new();
    ops.push(SurfaceOp::SetLayer(layer));
    let mut anchors = anchor_ops_vec(&config.anchors);
    ops.append(&mut anchors);
    let mut margins = margin_ops_vec(&config.margins);
    ops.append(&mut margins);
    if let Some(e) = config.exclusive {
        if e {
            ops.push(SurfaceOp::EnableExclusiveZone);
        }
    }
    if let Some(ki) = config.keyboard_interactivity {
        ops.push(SurfaceOp::SetKeyboardInteractivity(ki));
    }
    proof {
        assert(ops@ =~= layer_shell_ops(*config, layer));
    }
    Ok(ops)
}

/// Derives the full pre-presentation setup: make the window a layer
/// surface, then apply the layer-shell directives.
pub fn apply_layer_shell(config: &WidgetConfiguration) -> (r: Result<Vec<SurfaceOp>, ()>)
    ensures
        layer_of_name(config.layer@) matches Some(l) ==> (r matches Ok(ops) && ops@ == seq![
            SurfaceOp::InitLayerShell,
        ] + layer_shell_ops(*config, l)),
        layer_of_name(config.layer@) is None ==> r is Err,
{
    match set_layer_shell(config) {
        Ok(mut shell) => {
            let mut ops: Vec<SurfaceOp> = Vec::new();
            ops.push(SurfaceOp::InitLayerShell);
            ops.append(&mut shell);
            proof {
                if layer_of_name(config.layer@) is Some {
                    let l = layer_of_name(config.layer@)->Some_0;
                    assert(ops@ =~= seq![SurfaceOp::InitLayerShell] + layer_shell_ops(*config, l));
                }
            }
            Ok(ops)
        },
        Err(()) => Err(()),
    }
}

/// Derives the presentation directives applied when a window is shown.
pub fn show_window(config: &WidgetConfiguration) -> (r: Vec<SurfaceOp>)
    ensures
        r@ == presentation_ops(*config),
{
    let mut ops: Vec<SurfaceOp> = Vec::new();
    ops.push(SurfaceOp::ShowAll);
    ops.push(SurfaceOp::SetTitle(config.application_name.clone()));
    if let Some(s) = config.default_size {
        if let Some(w) = s.width {
            ops.push(SurfaceOp::SetWidthRequest(w));
        }
        if let Some(h) = s.height {
            ops.push(SurfaceOp::SetHeightRequest(h));
        }
    }
    if let Some(c) = config.click_through {
        if c {
            ops.push(SurfaceOp::InstallClickThroughRegion);
        }
    }
    proof {
        assert(ops@ =~= presentation_ops(*config));
    }
    ops
}

/// The address under which the content server serves a widget's content
/// tree, for a given webview root path.
pub fn webview_uri(root: &String) -> (r: String)
    ensures
        r@ == "http://127.0.0.1:8082"@ + root@,
{
    let mut r = String::from_str("http://127.0.0.1:8082");
    r.append(root.as_str());
    r
}

} // verus!
