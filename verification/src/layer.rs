//! The compositor stacking layers a widget surface can live on, and the
//! conversions between layer values and the directory / configuration names
//! that denote them.

use vstd::prelude::*;

verus! {

/// A compositor-level stacking category: where a widget surface sits
/// relative to normal application windows.
#[derive(Clone, Copy, Debug, PartialEq, Eq, Structural)]
pub enum Layer {
    Background,
    Bottom,
    Overlay,
    Top,
}

/// The name under which a layer appears both in configuration and as a
/// directory name under the widget root.
pub open spec fn layer_name_spec(layer: Layer) -> Seq<char> {
    match layer {
        Layer::Background => "background"@,
        Layer::Bottom => "bottom"@,
        Layer::Overlay => "overlay"@,
        Layer::Top => "top"@,
    }
}

/// Maps a layer to its configuration / directory name.
pub fn layer_name(layer: Layer) -> (r: &'static str)
    ensures
        r@ == layer_name_spec(layer),
{
    match layer {
        Layer::Background => "background",
        Layer::Bottom => "bottom",
        Layer::Overlay => "overlay",
        Layer::Top => "top",
    }
}

/// The layer a name denotes, if any.
pub open spec fn layer_of_name(s: Seq<char>) -> Option<Layer> {
    if s == "background"@ {
        Some(Layer::Background)
    } else if s == "bottom"@ {
        Some(Layer::Bottom)
    } else if s == "overlay"@ {
        Some(Layer::Overlay)
    } else if s == "top"@ {
        Some(Layer::Top)
    } else {
        None
    }
}

/// Parses a layer name; every string other than the four layer names is
/// rejected.
pub fn string_to_layer(layer: String) -> (r: Result<Layer, ()>)
    ensures
        r matches Ok(l) ==> layer_of_name(layer@) == Some(l),
        r is Err ==> layer_of_name(layer@) is None,
        layer@ == "background"@ ==> r == Ok::<Layer, ()>(Layer::Background),
        layer@ == "bottom"@ ==> r == Ok::<Layer, ()>(Layer::Bottom),
        layer@ == "overlay"@ ==> r == Ok::<Layer, ()>(Layer::Overlay),
        layer@ == "top"@ ==> r == Ok::<Layer, ()>(Layer::Top),
        (layer@ != "background"@ && layer@ != "bottom"@ && layer@ != "overlay"@
            && layer@ != "top"@) ==> r == Err::<Layer, ()>(()),
        r is Ok ==> layer@ == layer_name_spec(r->Ok_0),
{
    proof {
        reveal_strlit("background");
        reveal_strlit("bottom");
        reveal_strlit("overlay");
        reveal_strlit("top");
        assert("background"@.len() == 10);
        assert("bottom"@.len() == 6);
        assert("overlay"@.len() == 7);
        assert("top"@.len() == 3);
    }
    let background = String::from_str("background");
    let bottom = String::from_str("bottom");
    let overlay = String::from_str("overlay");
    let top = String::from_str("top");
    if layer == bottom {
        Ok(Layer::Bottom)
    } else if layer == background {
        Ok(Layer::Background)
    } else if layer == overlay {
        Ok(Layer::Overlay)
    } else if layer == top {
        Ok(Layer::Top)
    } else {
        Err(())
    }
}

/// The four layers in the order their directories are scanned.
pub fn all_layers() -> (r: Vec<Layer>)
    ensures
        r@ == seq![Layer::Background, Layer::Bottom, Layer::Overlay, Layer::Top],
{
    let mut r: Vec<Layer> = Vec::new();
    r.push(Layer::Background);
    r.push(Layer::Bottom);
    r.push(Layer::Overlay);
    r.push(Layer::Top);
    proof {
        assert(r@ =~= seq![Layer::Background, Layer::Bottom, Layer::Overlay, Layer::Top]);
    }
    r
}

} // verus!
