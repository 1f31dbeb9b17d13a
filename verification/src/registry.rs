//! The live instance registry and the orchestrator step that applies one
//! control-plane instruction to it. The registry is owned by a single
//! execution context; its id counter advances monotonically and ids are
//! never reused.

use vstd::prelude::*;
use crate::config::WidgetConfiguration;
use crate::widget::WidgetInstance;
use crate::widget::WidgetInstanceInstruction;
use crate::widget::build_widget;
use crate::widget::built_instances;
use crate::widget::lemma_target_monitor_seq_props;
use crate::widget::target_monitor_seq;

verus! {

/// The ordered collection of live widget instances together with the
/// process-wide id counter they were allocated from.
pub struct InstanceRegistry {
    instances: Vec<WidgetInstance>,
    next_id: i32,
}

impl InstanceRegistry {
    /// The instances, in insertion order.
    pub closed spec fn instances_seq(&self) -> Seq<WidgetInstance> {
        self.instances@
    }

    /// The id counter: every id handed out so far is at most this value.
    pub closed spec fn id_counter(&self) -> int {
        self.next_id as int
    }

    /// Registry well-formedness: the counter never ran backwards, ids are
    /// positive, strictly increasing in registry order, and all at most the
    /// counter.
    pub open spec fn wf(&self) -> bool {
        &&& 0 <= self.id_counter() <= i32::MAX
        &&& forall|k: int|
            0 <= k < self.instances_seq().len() ==> 0 < #[trigger] self.instances_seq()[k].id
                <= self.id_counter()
        &&& forall|j: int, k: int|
            0 <= j < k < self.instances_seq().len() ==> self.instances_seq()[j].id
                < self.instances_seq()[k].id
    }

    /// An empty registry with the counter at zero.
    pub fn new() -> (r: InstanceRegistry)
        ensures
            r.wf(),
            r.instances_seq() == Seq::<WidgetInstance>::empty(),
            r.id_counter() == 0,
    {
        let r = InstanceRegistry { instances: Vec::new(), next_id: 0 };
        proof {
            assert(r.instances_seq() =~= Seq::<WidgetInstance>::empty());
        }
        r
    }

    /// How many instances are live.
    pub fn len(&self) -> (r: usize)
        ensures
            r == self.instances_seq().len(),
    {
        self.instances.len()
    }

    /// A point-in-time copy of the instances, for read-only reporting.
    pub fn snapshot(&self) -> (r: Vec<WidgetInstance>)
        ensures
            r@ =~= self.instances_seq(),
    {
        let mut r: Vec<WidgetInstance> = Vec::new();
        let mut k: usize = 0;
        while k < self.instances.len()
            invariant
                0 <= k <= self.instances@.len(),
                r@.len() == k,
                forall|j: int| 0 <= j < k ==> r@[j] == self.instances@[j],
            decreases self.instances@.len() - k,
        {
            let i = &self.instances[k];
            r.push(
                WidgetInstance {
                    id: i.id,
                    layer: i.layer.clone(),
                    application_name: i.application_name.clone(),
                    monitor: i.monitor,
                    visible: i.visible,
                },
            );
            k = k + 1;
        }
        r
    }

    /// Builds and appends the instances of one configuration, advancing the
    /// id counter; every new id is strictly above every id already present.
    pub fn insert_for_configuration(&mut self, config: &WidgetConfiguration, monitor_count: i32)
        requires
            old(self).wf(),
            monitor_count >= 0,
            old(self).id_counter() + monitor_count <= i32::MAX,
        ensures
            final(self).wf(),
            final(self).instances_seq().len() == old(self).instances_seq().len()
                + target_monitor_seq(config.monitors, monitor_count as int).len(),
            forall|k: int|
                0 <= k < old(self).instances_seq().len() ==> final(self).instances_seq()[k] == old(
                    self,
                ).instances_seq()[k],
            built_instances(
                *config,
                monitor_count as int,
                old(self).id_counter(),
                final(self).instances_seq().skip(old(self).instances_seq().len() as int),
            ),
            final(self).id_counter() == old(self).id_counter() + target_monitor_seq(
                config.monitors,
                monitor_count as int,
            ).len(),
    {
        proof {
            lemma_target_monitor_seq_props(config.monitors, monitor_count as int);
        }
        let (mut fresh, new_next) = build_widget(config, monitor_count, self.next_id);
        let ghost before: Seq<WidgetInstance> = self.instances@;
        self.instances.append(&mut fresh);
        self.next_id = new_next;
        proof {
            assert(self.instances_seq().skip(before.len() as int) =~= self.instances@.subrange(
                before.len() as int,
                self.instances@.len() as int,
            ));
        }
    }
}

/// The exact registry contents after building a configuration list in
/// order with the id counter starting at zero: each configuration's
/// instances in turn, ids numbered consecutively from one.
pub open spec fn built_registry_seq(
    configs: Seq<WidgetConfiguration>,
    monitor_count: int,
) -> Seq<WidgetInstance>
    decreases configs.len(),
{
    if configs.len() == 0 {
        Seq::empty()
    } else {
        let front = built_registry_seq(configs.drop_last(), monitor_count);
        front + crate::widget::instances_for(configs.last(), monitor_count, front.len() as int)
    }
}

/// Builds the instances of every configuration in order into a fresh
/// registry, threading one id counter through the whole pass so that ids
/// are strictly increasing across configurations.
pub fn build_widgets(configs: &Vec<WidgetConfiguration>, monitor_count: i32) -> (r:
    InstanceRegistry)
    requires
        monitor_count >= 0,
        configs@.len() * monitor_count <= i32::MAX,
    ensures
        r.wf(),
        r.instances_seq() == built_registry_seq(configs@, monitor_count as int),
        r.id_counter() == r.instances_seq().len(),
        forall|j: int, k: int|
            0 <= j < k < r.instances_seq().len() ==> r.instances_seq()[j].id
                < r.instances_seq()[k].id,
{
    let mut registry = InstanceRegistry::new();
    let mut k: usize = 0;
    proof {
        assert(configs@.subrange(0, 0) =~= Seq::<WidgetConfiguration>::empty());
    }
    while k < configs.len()
        invariant
            0 <= k <= configs@.len(),
            monitor_count >= 0,
            configs@.len() * monitor_count <= i32::MAX,
            registry.wf(),
            registry.id_counter() <= k * monitor_count,
            registry.id_counter() == registry.instances_seq().len(),
            registry.instances_seq() == built_registry_seq(
                configs@.subrange(0, k as int),
                monitor_count as int,
            ),
        decreases configs@.len() - k,
    {
        proof {
            assert((k + 1) * monitor_count <= configs@.len() * monitor_count) by (nonlinear_arith)
                requires
                    monitor_count >= 0,
                    k + 1 <= configs@.len(),
            ;
            assert(k * monitor_count + monitor_count == (k + 1) * monitor_count) by (
            nonlinear_arith);
            lemma_target_monitor_seq_props(configs@[k as int].monitors, monitor_count as int);
        }
        let ghost prev_instances = registry.instances_seq();
        let ghost prev_counter = registry.id_counter();
        registry.insert_for_configuration(&configs[k], monitor_count);
        proof {
            let appended = registry.instances_seq().skip(prev_instances.len() as int);
            crate::widget::lemma_built_instances_exact(
                configs@[k as int],
                monitor_count as int,
                prev_counter,
                appended,
            );
            assert(registry.instances_seq() =~= prev_instances + appended);
            assert(configs@.subrange(0, k as int + 1).drop_last() =~= configs@.subrange(
                0,
                k as int,
            ));
            assert(configs@.subrange(0, k as int + 1).last() == configs@[k as int]);
            assert(registry.instances_seq() == built_registry_seq(
                configs@.subrange(0, k as int + 1),
                monitor_count as int,
            ));
        }
        k = k + 1;
    }
    proof {
        assert(configs@.subrange(0, configs@.len() as int) =~= configs@);
    }
    registry
}

/// Whether an instance carries the given identity pair.
pub open spec fn instance_matches(
    i: WidgetInstance,
    layer: Seq<char>,
    application_name: Seq<char>,
) -> bool {
    i.layer@ == layer && i.application_name@ == application_name
}

/// The ids of the instances matching an identity pair, in registry order.
pub open spec fn matching_ids(
    instances: Seq<WidgetInstance>,
    layer: Seq<char>,
    application_name: Seq<char>,
) -> Seq<i32>
    decreases instances.len(),
{
    if instances.len() == 0 {
        Seq::empty()
    } else {
        matching_ids(instances.drop_last(), layer, application_name) + if instance_matches(
            instances.last(),
            layer,
            application_name,
        ) {
            seq![instances.last().id]
        } else {
            Seq::empty()
        }
    }
}

/// The registry contents after one instruction: `Show` empties the whole
/// registry once it has made its matches visible; every other instruction
/// leaves the contents untouched.
pub open spec fn instances_after(
    instances: Seq<WidgetInstance>,
    instruction: WidgetInstanceInstruction,
) -> Seq<WidgetInstance> {
    match instruction {
        WidgetInstanceInstruction::Show(_, _) => Seq::empty(),
        _ => instances,
    }
}

/// What one instruction asked the embedder to do: the `(application_name,
/// id)` pairs to report for `List`, and the ids of the surfaces to make
/// visible for `Show`.
#[derive(Debug)]
pub struct InstructionEffects {
    pub listed: Vec<(String, i32)>,
    pub shown: Vec<i32>,
}

/// Applies one control-plane instruction to the registry. `List` reports
/// every instance without mutating anything; `Show` reports the matching
/// ids as surfaces to make visible and then empties the registry; `Hide`
/// and `Reload` are accepted without effect.
pub fn apply_instruction(
    registry: &mut InstanceRegistry,
    instruction: WidgetInstanceInstruction,
) -> (r: InstructionEffects)
    requires
        old(registry).wf(),
    ensures
        final(registry).wf(),
        final(registry).id_counter() == old(registry).id_counter(),
        final(registry).instances_seq() == instances_after(
            old(registry).instances_seq(),
            instruction,
        ),
        instruction is List ==> {
            let instances = old(registry).instances_seq();
            &&& r.listed@.len() == instances.len()
            &&& forall|k: int|
                0 <= k < instances.len() ==> (#[trigger] r.listed@[k]).0
                    == instances[k].application_name && r.listed@[k].1 == instances[k].id
        },
        instruction matches WidgetInstanceInstruction::Show(layer, application_name) ==> r.shown@
            == matching_ids(
            old(registry).instances_seq(),
            layer@,
            application_name@,
        ),
        !(instruction is List) ==> r.listed@.len() == 0,
        !(instruction is Show) ==> r.shown@.len() == 0,
{
    let mut listed: Vec<(String, i32)> = Vec::new();
    let mut shown: Vec<i32> = Vec::new();
    match &instruction {
        WidgetInstanceInstruction::List => {
            let mut k: usize = 0;
            while k < registry.instances.len()
                invariant
                    0 <= k <= registry.instances@.len(),
                    listed@.len() == k,
                    forall|j: int|
                        0 <= j < k ==> (#[trigger] listed@[j]).0
                            == registry.instances@[j].application_name && listed@[j].1
                            == registry.instances@[j].id,
                decreases registry.instances@.len() - k,
            {
                let i = &registry.instances[k];
                listed.push((i.application_name.clone(), i.id));
                k = k + 1;
            }
        },
        WidgetInstanceInstruction::Show(layer, application_name) => {
            let ghost before: Seq<WidgetInstance> = registry.instances@;
            let mut k: usize = 0;
            proof {
                assert(before.subrange(0, 0) =~= Seq::<WidgetInstance>::empty());
            }
            while k < registry.instances.len()
                invariant
                    0 <= k <= registry.instances@.len(),
                    registry.instances@ == before,
                    shown@ == matching_ids(
                        before.subrange(0, k as int),
                        layer@,
                        application_name@,
                    ),
                decreases registry.instances@.len() - k,
            {
                let i = &registry.instances[k];
                proof {
                    assert(before.subrange(0, k as int + 1).drop_last() =~= before.subrange(
                        0,
                        k as int,
                    ));
                    assert(before.subrange(0, k as int + 1).last() == before[k as int]);
                }
                if i.layer == *layer && i.application_name == *application_name {
                    shown.push(i.id);
                    proof {
                        assert(shown@ =~= matching_ids(
                            before.subrange(0, k as int + 1),
                            layer@,
                            application_name@,
                        ));
                    }
                } else {
                    proof {
                        assert(shown@ =~= matching_ids(
                            before.subrange(0, k as int + 1),
                            layer@,
                            application_name@,
                        ));
                    }
                }
                k = k + 1;
            }
            proof {
                assert(before.subrange(0, before.len() as int) =~= before);
            }
            registry.instances.clear();
        },
        WidgetInstanceInstruction::Hide(_, _) => {
        },
        WidgetInstanceInstruction::Reload(_, _) => {
        },
    }
    InstructionEffects { listed, shown }
}

/// Law: `List` never mutates the registry, so a second immediate `List`
/// reports exactly the same instances as the first.
pub proof fn lemma_list_is_stable(instances: Seq<WidgetInstance>)
    ensures
        instances_after(instances, WidgetInstanceInstruction::List) == instances,
        instances_after(
            instances_after(instances, WidgetInstanceInstruction::List),
            WidgetInstanceInstruction::List,
        ) == instances,
{
}

/// Law: a `Show` empties the registry, so any later `List` reports zero
/// entries.
pub proof fn lemma_show_clears_registry(
    instances: Seq<WidgetInstance>,
    show: WidgetInstanceInstruction,
)
    requires
        show is Show,
    ensures
        instances_after(instances, show).len() == 0,
        instances_after(
            instances_after(instances, show),
            WidgetInstanceInstruction::List,
        ).len() == 0,
{
}

/// Law: an instance matching the identity pair of a `Show` has its id among
/// the ids made visible.
pub proof fn lemma_show_targets_matching(
    instances: Seq<WidgetInstance>,
    layer: Seq<char>,
    application_name: Seq<char>,
    k: int,
)
    requires
        0 <= k < instances.len(),
        instance_matches(instances[k], layer, application_name),
    ensures
        matching_ids(instances, layer, application_name).contains(instances[k].id),
    decreases instances.len(),
{
    let whole = matching_ids(instances, layer, application_name);
    let front = matching_ids(instances.drop_last(), layer, application_name);
    if k == instances.len() - 1 {
        assert(whole[whole.len() - 1] == instances[k].id);
    } else {
        assert(instances.drop_last()[k] == instances[k]);
        lemma_show_targets_matching(instances.drop_last(), layer, application_name, k);
        let i = choose|i: int| 0 <= i < front.len() && front[i] == instances[k].id;
        assert(whole[i] == instances[k].id);
    }
}

/// Law: in a well-formed registry no two instances share an id.
pub proof fn lemma_ids_unique(registry: &InstanceRegistry)
    requires
        registry.wf(),
    ensures
        forall|j: int, k: int|
            0 <= j < registry.instances_seq().len() && 0 <= k < registry.instances_seq().len() && j
                != k ==> registry.instances_seq()[j].id != registry.instances_seq()[k].id,
{
}

} // verus!
