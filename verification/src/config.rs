//! Widget configuration records and the resolution pass that decides, for
//! each candidate directory found under the widget root, whether it yields a
//! configuration, a synthesized default, or a diagnostic skip.

use vstd::prelude::*;

verus! {

/// Which screen edges a surface is pinned to; a side left `None` is not
/// touched.
#[derive(Clone, Copy, Debug, PartialEq, Eq)]
pub struct WindowAnchorConfiguration {
    pub top: Option<bool>,
    pub right: Option<bool>,
    pub bottom: Option<bool>,
    pub left: Option<bool>,
}

/// Margins, in pixels, between a surface and the edges it is anchored to.
#[derive(Clone, Copy, Debug, PartialEq, Eq)]
pub struct WindowMarginConfiguration {
    pub top: Option<i32>,
    pub right: Option<i32>,
    pub bottom: Option<i32>,
    pub left: Option<i32>,
}

/// A requested initial surface size.
#[derive(Clone, Copy, Debug, PartialEq, Eq)]
pub struct WindowSizeConfiguration {
    pub width: Option<i32>,
    pub height: Option<i32>,
}

/// One widget's configuration. `application_name` and `layer` are always
/// derived from the directory the configuration was found in, never from the
/// file's contents.
#[derive(Clone, Debug)]
pub struct WidgetConfiguration {
    pub application_name: String,
    pub layer: String,
    pub monitors: Option<Vec<i32>>,
    pub exclusive: Option<bool>,
    pub anchors: Option<WindowAnchorConfiguration>,
    pub margins: Option<WindowMarginConfiguration>,
    pub default_size: Option<WindowSizeConfiguration>,
    pub keyboard_interactivity: Option<bool>,
    pub keyboard_mode: Option<String>,
    pub click_through: Option<bool>,
    pub default_visible: Option<bool>,
}

/// The anchor sides a synthesized configuration starts with: all four set.
pub open spec fn default_anchor_configuration() -> WindowAnchorConfiguration {
    WindowAnchorConfiguration {
        top: Some(true),
        right: Some(true),
        bottom: Some(true),
        left: Some(true),
    }
}

/// The margins a synthesized configuration starts with: zero on every side.
pub open spec fn default_margin_configuration() -> WindowMarginConfiguration {
    WindowMarginConfiguration { top: Some(0i32), right: Some(0i32), bottom: Some(0i32), left: Some(
        0i32,
    ) }
}

/// What a synthesized configuration looks like: the identity pair as given,
/// every other field at its default.
pub open spec fn is_default_configuration(
    r: WidgetConfiguration,
    application_name: Seq<char>,
    layer: Seq<char>,
) -> bool {
    &&& r.application_name@ == application_name
    &&& r.layer@ == layer
    &&& r.monitors is None
    &&& r.exclusive == Some(false)
    &&& r.anchors == Some(default_anchor_configuration())
    &&& r.margins == Some(default_margin_configuration())
    &&& r.default_size is None
    &&& r.keyboard_interactivity == Some(true)
    &&& r.keyboard_mode matches Some(k) && k@ == "on_demand"@
    &&& r.click_through == Some(true)
    &&& r.default_visible == Some(true)
}

impl WidgetConfiguration {
    /// The default configuration synthesized for a widget directory that has
    /// an entry point but no configuration file.
    pub fn new(application_name: String, layer: String) -> (r: WidgetConfiguration)
        ensures
            is_default_configuration(r, application_name@, layer@),
    {
        WidgetConfiguration {
            application_name,
            layer,
            anchors: Some(
                WindowAnchorConfiguration {
                    top: Some(true),
                    right: Some(true),
                    bottom: Some(true),
                    left: Some(true),
                },
            ),
            margins: Some(
                WindowMarginConfiguration {
                    top: Some(0),
                    right: Some(0),
                    bottom: Some(0),
                    left: Some(0),
                },
            ),
            click_through: Some(true),
            exclusive: Some(false),
            monitors: None,
            default_size: None,
            keyboard_interactivity: Some(true),
            keyboard_mode: Some(String::from_str("on_demand")),
            default_visible: Some(true),
        }
    }

    /// The path under which the content server exposes this widget's
    /// content tree.
    pub fn get_webview_root(&self) -> (r: String)
        ensures
            r@ == "/"@ + self.layer@ + "/"@ + self.application_name@,
    {
        let mut r = String::from_str("/");
        r.append(self.layer.as_str());
        r.append("/");
        r.append(self.application_name.as_str());
        proof {
            assert(r@ =~= "/"@ + self.layer@ + "/"@ + self.application_name@);
        }
        r
    }
}

/// A configuration can be anchored somewhere: `anchors` is present and at
/// least one side is set to `true`.
pub open spec fn anchors_valid(anchors: Option<WindowAnchorConfiguration>) -> bool {
    match anchors {
        Some(a) => a.top == Some(true) || a.right == Some(true) || a.bottom == Some(true)
            || a.left == Some(true),
        None => false,
    }
}

/// Decides whether a configuration's anchors can pin it to any screen edge.
pub fn anchors_usable(anchors: &Option<WindowAnchorConfiguration>) -> (r: bool)
    ensures
        r == anchors_valid(*anchors),
{
    match anchors {
        Some(a) => {
            let top = match a.top {
                Some(b) => b,
                None => false,
            };
            let right = match a.right {
                Some(b) => b,
                None => false,
            };
            let bottom = match a.bottom {
                Some(b) => b,
                None => false,
            };
            let left = match a.left {
                Some(b) => b,
                None => false,
            };
            top || right || bottom || left
        },
        None => false,
    }
}

/// What a scan of one application directory under a layer directory found:
/// the identity pair derived from the path, whether the content entry point
/// exists, and the parsed configuration file if one was present.
#[derive(Clone, Debug)]
pub struct WidgetCandidate {
    pub layer: String,
    pub application_name: String,
    pub has_entry_point: bool,
    pub config: Option<WidgetConfiguration>,
}

/// How resolution decided one candidate.
#[derive(Clone, Debug)]
pub enum CandidateOutcome {
    /// No content entry point: the directory is not a widget at all.
    NotAWidget,
    /// The configuration file has no usable anchors; the candidate is
    /// skipped with a diagnostic.
    RejectedNoAnchors,
    /// The configuration file was taken, with its identity pair overwritten
    /// from the directory path.
    Accepted(WidgetConfiguration),
    /// No configuration file: a default was synthesized, and the caller must
    /// persist [`default_config_json`] into the candidate's directory.
    Synthesized(WidgetConfiguration),
}

/// A file configuration with its identity pair replaced by the one derived
/// from the directory path.
pub open spec fn with_identity(
    c: WidgetConfiguration,
    application_name: String,
    layer: String,
) -> WidgetConfiguration {
    WidgetConfiguration {
        application_name: application_name,
        layer: layer,
        monitors: c.monitors,
        exclusive: c.exclusive,
        anchors: c.anchors,
        margins: c.margins,
        default_size: c.default_size,
        keyboard_interactivity: c.keyboard_interactivity,
        keyboard_mode: c.keyboard_mode,
        click_through: c.click_through,
        default_visible: c.default_visible,
    }
}

/// A candidate that resolution keeps: it has an entry point and, if it came
/// with a configuration file, that file has usable anchors.
pub open spec fn accepted_candidate(c: WidgetCandidate) -> bool {
    c.has_entry_point && match c.config {
        Some(f) => anchors_valid(f.anchors),
        None => true,
    }
}

/// Relates a kept candidate to the configuration it resolves to.
pub open spec fn config_resolves(c: WidgetCandidate, out: WidgetConfiguration) -> bool {
    match c.config {
        Some(f) => out == with_identity(f, c.application_name, c.layer),
        None => is_default_configuration(out, c.application_name@, c.layer@),
    }
}

/// Decides one candidate: skips directories without an entry point, rejects
/// configurations that cannot be anchored, overwrites the identity pair of a
/// file configuration, and synthesizes a default when no file exists.
pub fn resolve_candidate(candidate: WidgetCandidate) -> (r: CandidateOutcome)
    ensures
        !candidate.has_entry_point ==> r is NotAWidget,
        candidate.has_entry_point ==> match candidate.config {
            Some(f) => if anchors_valid(f.anchors) {
                r == CandidateOutcome::Accepted(
                    with_identity(f, candidate.application_name, candidate.layer),
                )
            } else {
                r is RejectedNoAnchors
            },
            None => r matches CandidateOutcome::Synthesized(d) && is_default_configuration(
                d,
                candidate.application_name@,
                candidate.layer@,
            ),
        },
        r matches CandidateOutcome::Accepted(a) ==> (accepted_candidate(candidate)
            && config_resolves(candidate, a)),
        r matches CandidateOutcome::Synthesized(d) ==> (accepted_candidate(candidate)
            && config_resolves(candidate, d)),
        r is NotAWidget ==> !accepted_candidate(candidate),
        r is RejectedNoAnchors ==> !accepted_candidate(candidate),
{
    let WidgetCandidate { layer, application_name, has_entry_point, config } = candidate;
    if !has_entry_point {
        return CandidateOutcome::NotAWidget;
    }
    match config {
        Some(mut file_config) => {
            if anchors_usable(&file_config.anchors) {
                file_config.application_name = application_name;
                file_config.layer = layer;
                CandidateOutcome::Accepted(file_config)
            } else {
                CandidateOutcome::RejectedNoAnchors
            }
        },
        None => CandidateOutcome::Synthesized(WidgetConfiguration::new(application_name, layer)),
    }
}

/// Relates a whole candidate list to the configuration list it resolves to:
/// kept candidates contribute exactly one configuration each, in order, and
/// skipped candidates contribute nothing.
pub open spec fn resolution_matches(
    candidates: Seq<WidgetCandidate>,
    configs: Seq<WidgetConfiguration>,
) -> bool
    decreases candidates.len(),
{
    if candidates.len() == 0 {
        configs.len() == 0
    } else {
        if accepted_candidate(candidates.last()) {
            configs.len() > 0 && config_resolves(candidates.last(), configs.last())
                && resolution_matches(candidates.drop_last(), configs.drop_last())
        } else {
            resolution_matches(candidates.drop_last(), configs)
        }
    }
}

/// Resolves every candidate in order, keeping the configurations of the
/// candidates that survive and dropping the rest.
pub fn get_widget_configurations(candidates: Vec<WidgetCandidate>) -> (r: Vec<WidgetConfiguration>)
    ensures
        resolution_matches(candidates@, r@),
{
    let ghost orig: Seq<WidgetCandidate> = candidates@;
    let mut rest = candidates;
    let mut configs: Vec<WidgetConfiguration> = Vec::new();
    proof {
        assert(orig.subrange(0, 0) =~= Seq::<WidgetCandidate>::empty());
    }
    while rest.len() > 0
        invariant
            rest@.len() <= orig.len(),
            rest@ =~= orig.subrange(orig.len() - rest@.len(), orig.len() as int),
            resolution_matches(orig.subrange(0, orig.len() - rest@.len()), configs@),
        decreases rest@.len(),
    {
        let ghost done: int = orig.len() - rest@.len();
        let candidate = rest.remove(0);
        proof {
            assert(candidate == orig[done]);
            assert(rest@ =~= orig.subrange(done + 1, orig.len() as int));
            assert(orig.subrange(0, done + 1).drop_last() =~= orig.subrange(0, done));
            assert(orig.subrange(0, done + 1).last() == orig[done]);
        }
        let ghost prev: Seq<WidgetConfiguration> = configs@;
        match resolve_candidate(candidate) {
            CandidateOutcome::Accepted(accepted) => {
                configs.push(accepted);
                proof {
                    assert(configs@.drop_last() =~= prev);
                }
            },
            CandidateOutcome::Synthesized(synthesized) => {
                configs.push(synthesized);
                proof {
                    assert(configs@.drop_last() =~= prev);
                }
            },
            CandidateOutcome::NotAWidget => {
            },
            CandidateOutcome::RejectedNoAnchors => {
            },
        }
    }
    proof {
        assert(orig.subrange(0, orig.len() as int) =~= orig);
    }
    configs
}

/// How many candidates of a list resolution keeps.
pub open spec fn count_accepted(candidates: Seq<WidgetCandidate>) -> int
    decreases candidates.len(),
{
    if candidates.len() == 0 {
        0
    } else {
        count_accepted(candidates.drop_last()) + if accepted_candidate(candidates.last()) {
            1int
        } else {
            0int
        }
    }
}

/// Law: resolution yields exactly one configuration per kept candidate, so
/// candidates without an entry point or without usable anchors never appear
/// in the result.
pub proof fn lemma_resolution_count(
    candidates: Seq<WidgetCandidate>,
    configs: Seq<WidgetConfiguration>,
)
    requires
        resolution_matches(candidates, configs),
    ensures
        configs.len() == count_accepted(candidates),
    decreases candidates.len(),
{
    if candidates.len() > 0 {
        if accepted_candidate(candidates.last()) {
            lemma_resolution_count(candidates.drop_last(), configs.drop_last());
        } else {
            lemma_resolution_count(candidates.drop_last(), configs);
        }
    }
}

/// Law: a candidate list in which every member lacks an entry point or
/// usable anchors resolves to an empty configuration list.
pub proof fn lemma_unaccepted_excluded(
    candidates: Seq<WidgetCandidate>,
    configs: Seq<WidgetConfiguration>,
)
    requires
        resolution_matches(candidates, configs),
        forall|i: int| 0 <= i < candidates.len() ==> !accepted_candidate(#[trigger] candidates[i]),
    ensures
        configs.len() == 0,
    decreases candidates.len(),
{
    if candidates.len() > 0 {
        assert(candidates.last() == candidates[candidates.len() - 1]);
        assert(forall|i: int|
            0 <= i < candidates.drop_last().len() ==> candidates.drop_last()[i] == candidates[i]);
        lemma_unaccepted_excluded(candidates.drop_last(), configs);
    }
}

/// Law: a synthesized default configuration always has usable anchors, so
/// resolution never rejects what it just synthesized.
pub proof fn lemma_default_configuration_anchored(
    r: WidgetConfiguration,
    application_name: Seq<char>,
    layer: Seq<char>,
)
    requires
        is_default_configuration(r, application_name, layer),
    ensures
        anchors_valid(r.anchors),
{
}

/// The exact text persisted as `config.json` when a default configuration is
/// synthesized for a widget directory.
pub open spec fn default_configuration_text() -> Seq<char> {
    "{\n  \"monitors\": null,\n  \"exclusive\": false,\n  \"anchors\": {\n    \"top\": true,\n    \"right\": true,\n    \"bottom\": true,\n    \"left\": true\n  },\n  \"margins\": {\n    \"top\": 0,\n    \"right\": 0,\n    \"bottom\": 0,\n    \"left\": 0\n  },\n  \"default_size\": null,\n  \"keyboard_interactivity\": true,\n  \"keyboard_mode\": \"on_demand\",\n  \"click_through\": true,\n  \"default_visible\": true\n}"@
}

/// Renders the file contents persisted beside a widget whose configuration
/// was synthesized: the default configuration, pretty-printed.
pub fn default_config_json() -> (r: String)
    ensures
        r@ == default_configuration_text(),
{
    String::from_str(
        "{\n  \"monitors\": null,\n  \"exclusive\": false,\n  \"anchors\": {\n    \"top\": true,\n    \"right\": true,\n    \"bottom\": true,\n    \"left\": true\n  },\n  \"margins\": {\n    \"top\": 0,\n    \"right\": 0,\n    \"bottom\": 0,\n    \"left\": 0\n  },\n  \"default_size\": null,\n  \"keyboard_interactivity\": true,\n  \"keyboard_mode\": \"on_demand\",\n  \"click_through\": true,\n  \"default_visible\": true\n}",
    )
}

} // verus!
