//! Widget instances and the builder that materializes one instance per
//! target monitor for each configuration, allocating monotonically unique
//! ids from an explicit counter.

use vstd::prelude::*;
use crate::config::WidgetConfiguration;

verus! {

/// One rendering-surface instance. The toolkit handles that present the
/// surface live with the embedder; the instance records the plain identity
/// the orchestrator works with: which configuration it came from, which
/// monitor it is bound to, and whether it has been made visible.
#[derive(Clone, Debug)]
pub struct WidgetInstance {
    pub id: i32,
    pub layer: String,
    pub application_name: String,
    pub monitor: i32,
    pub visible: bool,
}

/// An instruction received from the control channel and applied to the
/// instance registry.
#[derive(Clone, Debug)]
pub enum WidgetInstanceInstruction {
    /// Make every instance of `(layer, application_name)` visible.
    Show(String, String),
    /// Accepted but currently without effect.
    Hide(String, String),
    /// Accepted but currently without effect.
    Reload(String, String),
    /// Report the `(application_name, id)` pair of every instance.
    List,
}

/// Whether a configured monitor list (or its absence, which targets every
/// monitor) selects monitor `m`.
pub open spec fn monitor_chosen(monitors: Option<Vec<i32>>, m: i32) -> bool {
    match monitors {
        Some(v) => v@.contains(m),
        None => true,
    }
}

/// The target monitor set in ascending order: every index in
/// `[0, count)` that the configuration selects, each at most once.
pub open spec fn target_monitor_seq(monitors: Option<Vec<i32>>, count: int) -> Seq<i32>
    decreases count,
{
    if count <= 0 {
        Seq::empty()
    } else {
        target_monitor_seq(monitors, count - 1) + if monitor_chosen(monitors, (count - 1) as i32) {
            seq![(count - 1) as i32]
        } else {
            Seq::empty()
        }
    }
}

/// Law: the target monitor set contains exactly the in-range selected
/// indices, in strictly ascending order, so it never exceeds the monitor
/// count; with no monitor list it is exactly `0, 1, ..., count - 1`.
pub proof fn lemma_target_monitor_seq_props(monitors: Option<Vec<i32>>, count: int)
    requires
        0 <= count <= i32::MAX,
    ensures
        target_monitor_seq(monitors, count).len() <= count,
        forall|k: int|
            0 <= k < target_monitor_seq(monitors, count).len() ==> {
                let m = #[trigger] target_monitor_seq(monitors, count)[k];
                0 <= m < count && monitor_chosen(monitors, m)
            },
        forall|m: i32|
            0 <= m < count && monitor_chosen(monitors, m) ==> target_monitor_seq(
                monitors,
                count,
            ).contains(m),
        forall|j: int, k: int|
            0 <= j < k < target_monitor_seq(monitors, count).len() ==> target_monitor_seq(
                monitors,
                count,
            )[j] < target_monitor_seq(monitors, count)[k],
        monitors is None ==> target_monitor_seq(monitors, count).len() == count,
        monitors is None ==> forall|k: int|
            0 <= k < count ==> target_monitor_seq(monitors, count)[k] == k as i32,
    decreases count,
{
    if count > 0 {
        lemma_target_monitor_seq_props(monitors, count - 1);
        let prev = target_monitor_seq(monitors, count - 1);
        let cur = target_monitor_seq(monitors, count);
        if monitor_chosen(monitors, (count - 1) as i32) {
            assert(cur =~= prev.push((count - 1) as i32));
            assert(forall|m: i32|
                0 <= m < count - 1 && monitor_chosen(monitors, m) ==> prev.contains(m));
            assert(forall|m: i32|
                0 <= m < count && monitor_chosen(monitors, m) ==> cur.contains(m)) by {
                assert(forall|m: i32| prev.contains(m) ==> cur.contains(m)) by {
                    assert(forall|k: int| 0 <= k < prev.len() ==> cur[k] == prev[k]);
                }
                assert(cur[cur.len() - 1] == (count - 1) as i32);
            }
        } else {
            assert(cur =~= prev);
        }
    }
}

/// Computes the target monitor set for a configuration's monitor list.
pub fn target_monitors(monitors: &Option<Vec<i32>>, monitor_count: i32) -> (r: Vec<i32>)
    requires
        monitor_count >= 0,
    ensures
        r@ == target_monitor_seq(*monitors, monitor_count as int),
{
    let mut r: Vec<i32> = Vec::new();
    let mut m: i32 = 0;
    proof {
        assert(r@ =~= target_monitor_seq(*monitors, 0));
    }
    while m < monitor_count
        invariant
            0 <= m <= monitor_count,
            r@ == target_monitor_seq(*monitors, m as int),
        decreases monitor_count - m,
    {
        let chosen = match monitors {
            Some(v) => contains_monitor(v, m),
            None => true,
        };
        if chosen {
            r.push(m);
        }
        proof {
            if monitor_chosen(*monitors, m) {
                assert(r@ =~= target_monitor_seq(*monitors, m as int + 1));
            } else {
                assert(r@ =~= target_monitor_seq(*monitors, m as int + 1));
            }
        }
        m = m + 1;
    }
    r
}

/// Linear membership scan over a configured monitor list.
fn contains_monitor(v: &Vec<i32>, x: i32) -> (r: bool)
    ensures
        r == v@.contains(x),
{
    let mut k: usize = 0;
    while k < v.len()
        invariant
            0 <= k <= v@.len(),
            forall|j: int| 0 <= j < k ==> v@[j] != x,
        decreases v@.len() - k,
    {
        if v[k] == x {
            proof {
                assert(v@.contains(x)) by {
                    assert(v@[k as int] == x);
                }
            }
            return true;
        }
        k = k + 1;
    }
    false
}

/// The instances built for one configuration: one per target monitor, in
/// ascending monitor order, with consecutive ids starting right above the
/// counter value handed in.
pub open spec fn built_instances(
    config: WidgetConfiguration,
    monitor_count: int,
    next_id: int,
    instances: Seq<WidgetInstance>,
) -> bool {
    let targets = target_monitor_seq(config.monitors, monitor_count);
    &&& instances.len() == targets.len()
    &&& forall|k: int|
        0 <= k < instances.len() ==> {
            let i = #[trigger] instances[k];
            &&& i.id == next_id + 1 + k
            &&& i.layer == config.layer
            &&& i.application_name == config.application_name
            &&& i.monitor == targets[k]
            &&& i.visible
        }
}

/// The exact instances one build step yields: one per target monitor, with
/// consecutive ids counted from just above `next_id`.
pub open spec fn instances_for(
    config: WidgetConfiguration,
    monitor_count: int,
    next_id: int,
) -> Seq<WidgetInstance> {
    let targets = target_monitor_seq(config.monitors, monitor_count);
    Seq::new(
        targets.len(),
        |k: int|
            WidgetInstance {
                id: (next_id + 1 + k) as i32,
                layer: config.layer,
                application_name: config.application_name,
                monitor: targets[k],
                visible: true,
            },
    )
}

/// Law: a build yields exactly `instances_for`, provided the ids it hands
/// out fit the id type.
pub proof fn lemma_built_instances_exact(
    config: WidgetConfiguration,
    monitor_count: int,
    next_id: int,
    instances: Seq<WidgetInstance>,
)
    requires
        built_instances(config, monitor_count, next_id, instances),
        0 <= next_id,
        next_id + instances.len() <= i32::MAX,
    ensures
        instances == instances_for(config, monitor_count, next_id),
{
    assert(instances =~= instances_for(config, monitor_count, next_id));
}

/// Law: a configuration without a monitor list is built onto every
/// available monitor: exactly one instance per index in
/// `[0, monitor_count)`, in order.
pub proof fn lemma_build_covers_every_monitor(
    config: WidgetConfiguration,
    monitor_count: int,
    next_id: int,
    instances: Seq<WidgetInstance>,
)
    requires
        config.monitors is None,
        0 <= monitor_count <= i32::MAX,
        built_instances(config, monitor_count, next_id, instances),
    ensures
        instances.len() == monitor_count,
        forall|k: int| 0 <= k < instances.len() ==> (#[trigger] instances[k]).monitor == k as i32,
{
    lemma_target_monitor_seq_props(config.monitors, monitor_count);
}

/// Law: every id a build hands out is strictly greater than the counter
/// value it started from, so ids already allocated are never reused.
pub proof fn lemma_build_ids_fresh(
    config: WidgetConfiguration,
    monitor_count: int,
    next_id: int,
    instances: Seq<WidgetInstance>,
)
    requires
        built_instances(config, monitor_count, next_id, instances),
    ensures
        forall|k: int| 0 <= k < instances.len() ==> (#[trigger] instances[k]).id > next_id,
{
}

/// Builds one visible instance per target monitor for `config`, giving each
/// the next id from the counter; returns the instances and the advanced
/// counter.
pub fn build_widget(config: &WidgetConfiguration, monitor_count: i32, next_id: i32) -> (r: (
    Vec<WidgetInstance>,
    i32,
))
    requires
        monitor_count >= 0,
        0 <= next_id,
        next_id + monitor_count <= i32::MAX,
    ensures
        built_instances(*config, monitor_count as int, next_id as int, r.0@),
        r.1 == next_id + r.0@.len(),
{
    proof {
        lemma_target_monitor_seq_props(config.monitors, monitor_count as int);
    }
    let targets = target_monitors(&config.monitors, monitor_count);
    let mut instances: Vec<WidgetInstance> = Vec::new();
    let mut id: i32 = next_id;
    let mut k: usize = 0;
    while k < targets.len()
        invariant
            0 <= k <= targets@.len(),
            targets@ == target_monitor_seq(config.monitors, monitor_count as int),
            targets@.len() <= monitor_count,
            next_id + monitor_count <= i32::MAX,
            0 <= next_id,
            id == next_id + k,
            instances@.len() == k,
            forall|j: int|
                0 <= j < k ==> {
                    let i = #[trigger] instances@[j];
                    &&& i.id == next_id + 1 + j
                    &&& i.layer == config.layer
                    &&& i.application_name == config.application_name
                    &&& i.monitor == targets@[j]
                    &&& i.visible
                },
        decreases targets@.len() - k,
    {
        id = id + 1;
        let instance = WidgetInstance {
            id,
            layer: config.layer.clone(),
            application_name: config.application_name.clone(),
            monitor: targets[k],
            visible: true,
        };
        instances.push(instance);
        k = k + 1;
    }
    (instances, id)
}

} // verus!
