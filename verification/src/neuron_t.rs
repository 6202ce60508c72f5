//! A clock-driven test neuron exercising the whole framework: it counts
//! generations, accepts from two fan-in collections, and fires — pushing
//! a payload to every outgoing edge — whenever its counter reaches a
//! multiple of its event period.

use vstd::prelude::*;
use crate::components::MultiInComponent;
use crate::components::MultiOutComponent;
use crate::components::ins_accepted;
use crate::components::ins_touch;
use crate::components::lemma_ins_accepted_congruence;
use crate::components::outs_touch;
use crate::fifo::Frame;
use crate::hub::Hub;
use crate::operation::Fired;
use crate::operation::OpError;
use crate::operation::RunMode;
use crate::operation::RunningSet;
use crate::post_syn_component::NeuronPostSynComponent;
use crate::post_syn_component::backs_accepted;
use crate::post_syn_component::backs_touch;
use crate::signals::FwdPreS1;
use crate::signals::s1_frame;

verus! {

/// One accepted message together with the value of the processing
/// counter at the generation it was accepted in.
#[derive(Clone, Copy, Debug, PartialEq, Eq, Structural)]
pub struct FwdEndProduct {
    pub msg: i64,
    pub proc: i32,
}

/// The products a drained batch turns into, in arrival order.
pub open spec fn products_of(frames: Seq<Frame>, proc: i32) -> Seq<FwdEndProduct> {
    frames.map_values(|f: Frame| FwdEndProduct { msg: f.0, proc })
}

/// Whether a neuron with the given event period fires at the given value
/// of its processing counter.
pub open spec fn fires(event_cond: Option<i32>, proc: i32) -> bool {
    event_cond matches Some(n) && (proc as int) % (n as int) == 0
}

/// Clock-driven test neuron: one simple fan-out, one two-way fan-in, one
/// simple fan-in, two counters, an optional event period, and the stock
/// of everything accepted so far.
pub struct NeuronT {
    pub id: usize,
    pub out_s0: MultiOutComponent,
    pub post_syn_s1: NeuronPostSynComponent,
    pub device_in_s1: MultiInComponent,
    pub gen_value: i32,
    pub proc_value: i32,
    pub event_cond: Option<i32>,
    pub stock: Vec<FwdEndProduct>,
}

impl NeuronT {
    /// Whether this neuron's fan collections reach linker `l`.
    pub open spec fn owns_linker(self, l: int) -> bool {
        ||| outs_touch(self.out_s0.targets@, l)
        ||| backs_touch(self.post_syn_s1.entries@, l)
        ||| ins_touch(self.device_in_s1.entries@, l)
    }

    /// The three fan collections are well-formed, no linker is shared
    /// between two collections, counters are non-negative, and an event
    /// period, if any, is positive.
    pub open spec fn wf(self, hub: Hub) -> bool {
        &&& self.out_s0.wf(hub)
        &&& self.post_syn_s1.wf(hub)
        &&& self.device_in_s1.wf(hub)
        &&& (forall|l: int| !(outs_touch(self.out_s0.targets@, l)
                && backs_touch(self.post_syn_s1.entries@, l)))
        &&& (forall|l: int| !(outs_touch(self.out_s0.targets@, l)
                && ins_touch(self.device_in_s1.entries@, l)))
        &&& (forall|l: int| !(backs_touch(self.post_syn_s1.entries@, l)
                && ins_touch(self.device_in_s1.entries@, l)))
        &&& (self.event_cond matches Some(n) ==> n > 0)
        &&& self.gen_value >= 0
        &&& self.proc_value >= 0
    }

    /// Registers a fresh neuron with the hub: no edges, empty stock.
    pub fn new(hub: &mut Hub, gen_value: i32, proc_value: i32, event_cond: Option<i32>) -> (n: NeuronT)
        requires
            gen_value >= 0,
            proc_value >= 0,
            event_cond matches Some(k) ==> k > 0,
        ensures
            n.id == old(hub).n_agents(),
            n.gen_value == gen_value,
            n.proc_value == proc_value,
            n.event_cond == event_cond,
            n.out_s0.mode is Idle,
            n.out_s0.targets@.len() == 0,
            n.post_syn_s1.mode is Idle,
            n.post_syn_s1.entries@.len() == 0,
            n.device_in_s1.mode is Idle,
            n.device_in_s1.entries@.len() == 0,
            n.stock@.len() == 0,
            final(hub).n_agents() == old(hub).n_agents() + 1,
            final(hub).agent_live(n.id as int),
            final(hub).confirm_q(n.id as int).len() == 0,
            final(hub).report_q(n.id as int).len() == 0,
            forall|j: int| 0 <= j < old(hub).n_agents()
                ==> final(hub).slots@[j] == old(hub).slots@[j],
            final(hub).linkers == old(hub).linkers,
            n.wf(*final(hub)),
    {
        let id = hub.register_agent();
        NeuronT {
            id,
            out_s0: MultiOutComponent::new(),
            post_syn_s1: NeuronPostSynComponent::new(),
            device_in_s1: MultiInComponent::new(),
            gen_value,
            proc_value,
            event_cond,
            stock: Vec::new(),
        }
    }

    /// Registers one incoming one-way edge. The edge must bring a linker
    /// this neuron does not already use.
    pub fn add(&mut self, target: usize, linker: usize)
        requires
            !old(self).owns_linker(linker as int),
        ensures
            *final(self) == (NeuronT {
                device_in_s1: MultiInComponent {
                    mode: old(self).device_in_s1.mode,
                    entries: final(self).device_in_s1.entries,
                },
                ..*old(self)
            }),
            final(self).device_in_s1.entries@ == old(self).device_in_s1.entries@.push(
                crate::simple_joint::InSet {
                    target,
                    linker,
                    channels: crate::operation::DeviceMode::Idle,
                }),
    {
        self.device_in_s1.add(target, linker);
    }

    /// Registers one incoming two-way edge from an active generator.
    pub fn add_active(&mut self, target: usize, linker: usize)
        requires
            !old(self).owns_linker(linker as int),
        ensures
            *final(self) == (NeuronT {
                post_syn_s1: NeuronPostSynComponent {
                    mode: old(self).post_syn_s1.mode,
                    entries: final(self).post_syn_s1.entries,
                },
                ..*old(self)
            }),
            final(self).post_syn_s1.entries@ == old(self).post_syn_s1.entries@.push(
                crate::post_syn_joint::PostSynBackJoint {
                    target,
                    target_kind: crate::operation::TargetKind::Active,
                    linker,
                    channels: crate::operation::DeviceMode::Idle,
                }),
    {
        self.post_syn_s1.add_active(target, linker);
    }

    /// Registers one incoming two-way edge from a passive generator.
    pub fn add_passive(&mut self, target: usize, linker: usize)
        requires
            !old(self).owns_linker(linker as int),
        ensures
            *final(self) == (NeuronT {
                post_syn_s1: NeuronPostSynComponent {
                    mode: old(self).post_syn_s1.mode,
                    entries: final(self).post_syn_s1.entries,
                },
                ..*old(self)
            }),
            final(self).post_syn_s1.entries@ == old(self).post_syn_s1.entries@.push(
                crate::post_syn_joint::PostSynBackJoint {
                    target,
                    target_kind: crate::operation::TargetKind::Passive,
                    linker,
                    channels: crate::operation::DeviceMode::Idle,
                }),
    {
        self.post_syn_s1.add_passive(target, linker);
    }

    /// Registers one outgoing edge towards an active acceptor.
    pub fn add_active_target(&mut self, target: usize, linker: usize)
        requires
            !old(self).owns_linker(linker as int),
        ensures
            *final(self) == (NeuronT {
                out_s0: MultiOutComponent {
                    mode: old(self).out_s0.mode,
                    targets: final(self).out_s0.targets,
                },
                ..*old(self)
            }),
            final(self).out_s0.targets@ == old(self).out_s0.targets@.push(
                crate::simple_joint::OutSet {
                    target,
                    target_kind: crate::operation::TargetKind::Active,
                    linker,
                    channels: crate::operation::DeviceMode::Idle,
                }),
    {
        self.out_s0.add_active_target(target, linker);
    }

    /// Registers one outgoing edge towards a passive acceptor.
    pub fn add_passive_target(&mut self, target: usize, linker: usize)
        requires
            !old(self).owns_linker(linker as int),
        ensures
            *final(self) == (NeuronT {
                out_s0: MultiOutComponent {
                    mode: old(self).out_s0.mode,
                    targets: final(self).out_s0.targets,
                },
                ..*old(self)
            }),
            final(self).out_s0.targets@ == old(self).out_s0.targets@.push(
                crate::simple_joint::OutSet {
                    target,
                    target_kind: crate::operation::TargetKind::Passive,
                    linker,
                    channels: crate::operation::DeviceMode::Idle,
                }),
    {
        self.out_s0.add_passive_target(target, linker);
    }

    /// First configuration phase: propagates the requested mode to every
    /// owned fan collection. `Idle` tears down every materialized channel
    /// at once; a running mode only records the wish on each edge's
    /// linker.
    #[verifier::rlimit(50)]
    pub fn config_mode(&mut self, hub: &mut Hub, mode: RunMode)
        requires
            old(self).wf(*old(hub)),
        ensures
            final(self).id == old(self).id,
            final(self).gen_value == old(self).gen_value,
            final(self).proc_value == old(self).proc_value,
            final(self).event_cond == old(self).event_cond,
            final(self).stock == old(self).stock,
            final(self).out_s0.mode == mode,
            final(self).post_syn_s1.mode == mode,
            final(self).device_in_s1.mode == mode,
            final(self).out_s0.targets@.len() == old(self).out_s0.targets@.len(),
            final(self).post_syn_s1.entries@.len() == old(self).post_syn_s1.entries@.len(),
            final(self).device_in_s1.entries@.len() == old(self).device_in_s1.entries@.len(),
            forall|j: int| 0 <= j < old(self).out_s0.targets@.len()
                ==> (#[trigger] final(self).out_s0.targets@[j]).target == old(self).out_s0.targets@[j].target
                    && final(self).out_s0.targets@[j].target_kind == old(self).out_s0.targets@[j].target_kind
                    && final(self).out_s0.targets@[j].linker == old(self).out_s0.targets@[j].linker,
            forall|j: int| 0 <= j < old(self).post_syn_s1.entries@.len()
                ==> (#[trigger] final(self).post_syn_s1.entries@[j]).target == old(self).post_syn_s1.entries@[j].target
                    && final(self).post_syn_s1.entries@[j].target_kind == old(self).post_syn_s1.entries@[j].target_kind
                    && final(self).post_syn_s1.entries@[j].linker == old(self).post_syn_s1.entries@[j].linker,
            forall|j: int| 0 <= j < old(self).device_in_s1.entries@.len()
                ==> (#[trigger] final(self).device_in_s1.entries@[j]).target == old(self).device_in_s1.entries@[j].target
                    && final(self).device_in_s1.entries@[j].linker == old(self).device_in_s1.entries@[j].linker,
            final(hub).slots == old(hub).slots,
            final(hub).n_linkers() == old(hub).n_linkers(),
            final(hub).n_agents() == old(hub).n_agents(),
            forall|l: int| 0 <= l < old(hub).n_linkers() && !old(self).owns_linker(l)
                ==> final(hub).lnk(l) == old(hub).lnk(l),
            mode is Idle ==> (forall|j: int| 0 <= j < old(self).out_s0.targets@.len()
                ==> !(#[trigger] final(self).out_s0.targets@[j]).is_live()),
            mode is Idle ==> (forall|j: int| 0 <= j < old(self).post_syn_s1.entries@.len()
                ==> !(#[trigger] final(self).post_syn_s1.entries@[j]).is_live()),
            mode is Idle ==> (forall|j: int| 0 <= j < old(self).device_in_s1.entries@.len()
                ==> !(#[trigger] final(self).device_in_s1.entries@[j]).is_live()),
            mode.is_running() ==> (forall|j: int| 0 <= j < old(self).out_s0.targets@.len()
                ==> (#[trigger] final(hub).lnk(old(self).out_s0.targets@[j].linker as int))
                    == (crate::linker::Linker {
                        pre_mode: mode,
                        ..old(hub).lnk(old(self).out_s0.targets@[j].linker as int)
                    })),
            mode.is_running() ==> (forall|j: int| 0 <= j < old(self).post_syn_s1.entries@.len()
                ==> (#[trigger] final(hub).lnk(old(self).post_syn_s1.entries@[j].linker as int))
                    == (crate::linker::Linker {
                        post_mode: mode,
                        ..old(hub).lnk(old(self).post_syn_s1.entries@[j].linker as int)
                    })),
            mode.is_running() ==> (forall|j: int| 0 <= j < old(self).device_in_s1.entries@.len()
                ==> (#[trigger] final(hub).lnk(old(self).device_in_s1.entries@[j].linker as int))
                    == (crate::linker::Linker {
                        post_mode: mode,
                        ..old(hub).lnk(old(self).device_in_s1.entries@[j].linker as int)
                    })),
            final(self).wf(*final(hub)),
    {
        let ghost hub0 = *hub;
        self.post_syn_s1.config_mode(hub, mode);
        let ghost hub1 = *hub;
        proof {
            assert forall|j: int| 0 <= j < self.device_in_s1.entries@.len()
                implies hub.lnk((#[trigger] self.device_in_s1.entries@[j]).linker as int)
                    == hub0.lnk(self.device_in_s1.entries@[j].linker as int) by {
                assert(ins_touch(self.device_in_s1.entries@, self.device_in_s1.entries@[j].linker as int));
                assert(!backs_touch(old(self).post_syn_s1.entries@, self.device_in_s1.entries@[j].linker as int));
            }
            assert forall|j: int| 0 <= j < self.out_s0.targets@.len()
                implies hub.lnk((#[trigger] self.out_s0.targets@[j]).linker as int)
                    == hub0.lnk(self.out_s0.targets@[j].linker as int) by {
                assert(outs_touch(self.out_s0.targets@, self.out_s0.targets@[j].linker as int));
                assert(!backs_touch(old(self).post_syn_s1.entries@, self.out_s0.targets@[j].linker as int));
            }
        }
        self.device_in_s1.config_mode(hub, mode);
        let ghost hub2 = *hub;
        proof {
            assert forall|j: int| 0 <= j < self.out_s0.targets@.len()
                implies hub.lnk((#[trigger] self.out_s0.targets@[j]).linker as int)
                    == hub1.lnk(self.out_s0.targets@[j].linker as int) by {
                assert(outs_touch(self.out_s0.targets@, self.out_s0.targets@[j].linker as int));
                assert(!ins_touch(old(self).device_in_s1.entries@, self.out_s0.targets@[j].linker as int));
            }
        }
        self.out_s0.config_mode(hub, mode);
        proof {
            assert forall|j: int| 0 <= j < old(self).post_syn_s1.entries@.len()
                implies hub.lnk((#[trigger] old(self).post_syn_s1.entries@[j]).linker as int)
                    == hub1.lnk(old(self).post_syn_s1.entries@[j].linker as int) by {
                assert(backs_touch(old(self).post_syn_s1.entries@, old(self).post_syn_s1.entries@[j].linker as int));
                assert(!ins_touch(old(self).device_in_s1.entries@, old(self).post_syn_s1.entries@[j].linker as int));
                assert(!outs_touch(old(self).out_s0.targets@, old(self).post_syn_s1.entries@[j].linker as int));
            }
            assert forall|j: int| 0 <= j < old(self).device_in_s1.entries@.len()
                implies hub.lnk((#[trigger] old(self).device_in_s1.entries@[j]).linker as int)
                    == hub2.lnk(old(self).device_in_s1.entries@[j].linker as int) by {
                assert(ins_touch(old(self).device_in_s1.entries@, old(self).device_in_s1.entries@[j].linker as int));
                assert(!outs_touch(old(self).out_s0.targets@, old(self).device_in_s1.entries@[j].linker as int));
            }
            assert forall|l: int| #[trigger] outs_touch(self.out_s0.targets@, l)
                implies outs_touch(old(self).out_s0.targets@, l) by {
                let j = choose|j: int| 0 <= j < self.out_s0.targets@.len()
                    && (#[trigger] self.out_s0.targets@[j]).linker == l;
                assert(old(self).out_s0.targets@[j].linker == l);
            }
            assert forall|l: int| #[trigger] backs_touch(self.post_syn_s1.entries@, l)
                implies backs_touch(old(self).post_syn_s1.entries@, l) by {
                let j = choose|j: int| 0 <= j < self.post_syn_s1.entries@.len()
                    && (#[trigger] self.post_syn_s1.entries@[j]).linker == l;
                assert(old(self).post_syn_s1.entries@[j].linker == l);
            }
            assert forall|l: int| #[trigger] ins_touch(self.device_in_s1.entries@, l)
                implies ins_touch(old(self).device_in_s1.entries@, l) by {
                let j = choose|j: int| 0 <= j < self.device_in_s1.entries@.len()
                    && (#[trigger] self.device_in_s1.entries@[j]).linker == l;
                assert(old(self).device_in_s1.entries@[j].linker == l);
            }
        }
    }

    /// Second configuration phase: asks every owned edge's linker to
    /// materialize its channels. `Ok` exactly when `config_mode` had run
    /// on every edge first; `NotConfigured` otherwise, with every
    /// already-configured edge still materialized.
    #[verifier::rlimit(50)]
    pub fn config_channels(&mut self, hub: &mut Hub) -> (r: Result<(), OpError>)
        requires
            old(self).wf(*old(hub)),
        ensures
            final(self).id == old(self).id,
            final(self).gen_value == old(self).gen_value,
            final(self).proc_value == old(self).proc_value,
            final(self).event_cond == old(self).event_cond,
            final(self).stock == old(self).stock,
            final(self).out_s0.mode == old(self).out_s0.mode,
            final(self).post_syn_s1.mode == old(self).post_syn_s1.mode,
            final(self).device_in_s1.mode == old(self).device_in_s1.mode,
            final(self).out_s0.targets@.len() == old(self).out_s0.targets@.len(),
            final(self).post_syn_s1.entries@.len() == old(self).post_syn_s1.entries@.len(),
            final(self).device_in_s1.entries@.len() == old(self).device_in_s1.entries@.len(),
            forall|j: int| 0 <= j < old(self).out_s0.targets@.len()
                ==> (#[trigger] final(self).out_s0.targets@[j]).target == old(self).out_s0.targets@[j].target
                    && final(self).out_s0.targets@[j].target_kind == old(self).out_s0.targets@[j].target_kind
                    && final(self).out_s0.targets@[j].linker == old(self).out_s0.targets@[j].linker,
            forall|j: int| 0 <= j < old(self).post_syn_s1.entries@.len()
                ==> (#[trigger] final(self).post_syn_s1.entries@[j]).target == old(self).post_syn_s1.entries@[j].target
                    && final(self).post_syn_s1.entries@[j].target_kind == old(self).post_syn_s1.entries@[j].target_kind
                    && final(self).post_syn_s1.entries@[j].linker == old(self).post_syn_s1.entries@[j].linker,
            forall|j: int| 0 <= j < old(self).device_in_s1.entries@.len()
                ==> (#[trigger] final(self).device_in_s1.entries@[j]).target == old(self).device_in_s1.entries@[j].target
                    && final(self).device_in_s1.entries@[j].linker == old(self).device_in_s1.entries@[j].linker,
            final(hub).slots == old(hub).slots,
            final(hub).n_linkers() == old(hub).n_linkers(),
            final(hub).n_agents() == old(hub).n_agents(),
            forall|l: int| 0 <= l < old(hub).n_linkers() && !old(self).owns_linker(l)
                ==> final(hub).lnk(l) == old(hub).lnk(l),
            (r is Ok <==> (forall|j: int| 0 <= j < old(self).out_s0.targets@.len()
                    ==> (#[trigger] old(hub).lnk(old(self).out_s0.targets@[j].linker as int))
                        .pre_mode.is_running())
                && (forall|j: int| 0 <= j < old(self).post_syn_s1.entries@.len()
                    ==> (#[trigger] old(hub).lnk(old(self).post_syn_s1.entries@[j].linker as int))
                        .post_mode.is_running())
                && (forall|j: int| 0 <= j < old(self).device_in_s1.entries@.len()
                    ==> (#[trigger] old(hub).lnk(old(self).device_in_s1.entries@[j].linker as int))
                        .post_mode.is_running())),
            r is Err ==> r == Err::<(), OpError>(OpError::NotConfigured),
            r is Ok ==> (forall|j: int| 0 <= j < old(self).out_s0.targets@.len()
                ==> (#[trigger] final(self).out_s0.targets@[j]).is_live()),
            r is Ok ==> (forall|j: int| 0 <= j < old(self).out_s0.targets@.len()
                ==> (#[trigger] final(hub).lnk(old(self).out_s0.targets@[j].linker as int))
                    .materialized_from(old(hub).lnk(old(self).out_s0.targets@[j].linker as int))),
            r is Ok ==> (forall|j: int| 0 <= j < old(self).post_syn_s1.entries@.len()
                ==> (#[trigger] final(self).post_syn_s1.entries@[j]).is_live()),
            r is Ok ==> (forall|j: int| 0 <= j < old(self).post_syn_s1.entries@.len()
                ==> (#[trigger] final(hub).lnk(old(self).post_syn_s1.entries@[j].linker as int))
                    .materialized_from(old(hub).lnk(old(self).post_syn_s1.entries@[j].linker as int))),
            r is Ok ==> (forall|j: int| 0 <= j < old(self).device_in_s1.entries@.len()
                ==> (#[trigger] final(self).device_in_s1.entries@[j]).is_live()),
            r is Ok ==> (forall|j: int| 0 <= j < old(self).device_in_s1.entries@.len()
                ==> (#[trigger] final(hub).lnk(old(self).device_in_s1.entries@[j].linker as int))
                    .materialized_from(old(hub).lnk(old(self).device_in_s1.entries@[j].linker as int))),
            final(self).wf(*final(hub)),
    {
        let ghost hub0 = *hub;
        let r1 = self.post_syn_s1.config_channels(hub);
        let ghost hub1 = *hub;
        proof {
            assert forall|j: int| 0 <= j < self.device_in_s1.entries@.len()
                implies hub.lnk((#[trigger] self.device_in_s1.entries@[j]).linker as int)
                    == hub0.lnk(self.device_in_s1.entries@[j].linker as int) by {
                assert(ins_touch(self.device_in_s1.entries@, self.device_in_s1.entries@[j].linker as int));
                assert(!backs_touch(old(self).post_syn_s1.entries@, self.device_in_s1.entries@[j].linker as int));
            }
            assert forall|j: int| 0 <= j < self.out_s0.targets@.len()
                implies hub.lnk((#[trigger] self.out_s0.targets@[j]).linker as int)
                    == hub0.lnk(self.out_s0.targets@[j].linker as int) by {
                assert(outs_touch(self.out_s0.targets@, self.out_s0.targets@[j].linker as int));
                assert(!backs_touch(old(self).post_syn_s1.entries@, self.out_s0.targets@[j].linker as int));
            }
        }
        let r2 = self.device_in_s1.config_channels(hub);
        let ghost hub2 = *hub;
        proof {
            assert forall|j: int| 0 <= j < self.out_s0.targets@.len()
                implies hub.lnk((#[trigger] self.out_s0.targets@[j]).linker as int)
                    == hub1.lnk(self.out_s0.targets@[j].linker as int) by {
                assert(outs_touch(self.out_s0.targets@, self.out_s0.targets@[j].linker as int));
                assert(!ins_touch(old(self).device_in_s1.entries@, self.out_s0.targets@[j].linker as int));
            }
        }
        let r3 = self.out_s0.config_channels(hub);
        proof {
            assert forall|j: int| 0 <= j < old(self).post_syn_s1.entries@.len()
                implies hub.lnk((#[trigger] old(self).post_syn_s1.entries@[j]).linker as int)
                    == hub1.lnk(old(self).post_syn_s1.entries@[j].linker as int) by {
                assert(backs_touch(old(self).post_syn_s1.entries@, old(self).post_syn_s1.entries@[j].linker as int));
                assert(!ins_touch(old(self).device_in_s1.entries@, old(self).post_syn_s1.entries@[j].linker as int));
                assert(!outs_touch(old(self).out_s0.targets@, old(self).post_syn_s1.entries@[j].linker as int));
            }
            assert forall|j: int| 0 <= j < old(self).device_in_s1.entries@.len()
                implies hub.lnk((#[trigger] old(self).device_in_s1.entries@[j]).linker as int)
                    == hub2.lnk(old(self).device_in_s1.entries@[j].linker as int) by {
                assert(ins_touch(old(self).device_in_s1.entries@, old(self).device_in_s1.entries@[j].linker as int));
                assert(!outs_touch(old(self).out_s0.targets@, old(self).device_in_s1.entries@[j].linker as int));
            }
            assert forall|l: int| #[trigger] outs_touch(self.out_s0.targets@, l)
                implies outs_touch(old(self).out_s0.targets@, l) by {
                let j = choose|j: int| 0 <= j < self.out_s0.targets@.len()
                    && (#[trigger] self.out_s0.targets@[j]).linker == l;
                assert(old(self).out_s0.targets@[j].linker == l);
            }
            assert forall|l: int| #[trigger] backs_touch(self.post_syn_s1.entries@, l)
                implies backs_touch(old(self).post_syn_s1.entries@, l) by {
                let j = choose|j: int| 0 <= j < self.post_syn_s1.entries@.len()
                    && (#[trigger] self.post_syn_s1.entries@[j]).linker == l;
                assert(old(self).post_syn_s1.entries@[j].linker == l);
            }
            assert forall|l: int| #[trigger] ins_touch(self.device_in_s1.entries@, l)
                implies ins_touch(old(self).device_in_s1.entries@, l) by {
                let j = choose|j: int| 0 <= j < self.device_in_s1.entries@.len()
                    && (#[trigger] self.device_in_s1.entries@[j]).linker == l;
                assert(old(self).device_in_s1.entries@[j].linker == l);
            }
        }
        if r1.is_err() || r2.is_err() || r3.is_err() {
            Err(OpError::NotConfigured)
        } else {
            Ok(())
        }
    }

    /// Drains both fan-in collections — the two-way post-synaptic edges
    /// first, then the simple fan-in — and stocks every accepted message
    /// tagged with the current processing counter, in arrival order.
    #[verifier::rlimit(50)]
    pub fn accept(&mut self, hub: &mut Hub)
        requires
            old(self).wf(*old(hub)),
        ensures
            final(self).id == old(self).id,
            final(self).gen_value == old(self).gen_value,
            final(self).proc_value == old(self).proc_value,
            final(self).event_cond == old(self).event_cond,
            final(self).out_s0 == old(self).out_s0,
            final(self).post_syn_s1 == old(self).post_syn_s1,
            final(self).device_in_s1 == old(self).device_in_s1,
            final(self).stock@ == old(self).stock@ + products_of(
                backs_accepted(old(self).post_syn_s1.entries@, *old(hub))
                    + ins_accepted(old(self).device_in_s1.entries@, *old(hub)),
                old(self).proc_value),
            final(hub).slots == old(hub).slots,
            final(hub).n_linkers() == old(hub).n_linkers(),
            forall|l: int| 0 <= l < old(hub).n_linkers() && !old(self).owns_linker(l)
                ==> final(hub).lnk(l) == old(hub).lnk(l),
            forall|l: int| 0 <= l < old(hub).n_linkers() && outs_touch(old(self).out_s0.targets@, l)
                ==> final(hub).lnk(l) == old(hub).lnk(l),
            forall|j: int| 0 <= j < old(self).post_syn_s1.entries@.len()
                && (#[trigger] old(self).post_syn_s1.entries@[j]).is_live()
                ==> final(hub).lnk(old(self).post_syn_s1.entries@[j].linker as int).fwd_q()
                        == Seq::<Frame>::empty()
                    && final(hub).lnk(old(self).post_syn_s1.entries@[j].linker as int).bwd
                        == old(hub).lnk(old(self).post_syn_s1.entries@[j].linker as int).bwd
                    && final(hub).lnk(old(self).post_syn_s1.entries@[j].linker as int).kind
                        == old(hub).lnk(old(self).post_syn_s1.entries@[j].linker as int).kind,
            forall|j: int| 0 <= j < old(self).post_syn_s1.entries@.len()
                && !(#[trigger] old(self).post_syn_s1.entries@[j]).is_live()
                ==> final(hub).lnk(old(self).post_syn_s1.entries@[j].linker as int)
                    == old(hub).lnk(old(self).post_syn_s1.entries@[j].linker as int),
            forall|j: int| 0 <= j < old(self).device_in_s1.entries@.len()
                && (#[trigger] old(self).device_in_s1.entries@[j]).is_live()
                ==> final(hub).lnk(old(self).device_in_s1.entries@[j].linker as int).fwd_q()
                    == Seq::<Frame>::empty(),
            forall|j: int| 0 <= j < old(self).device_in_s1.entries@.len()
                && !(#[trigger] old(self).device_in_s1.entries@[j]).is_live()
                ==> final(hub).lnk(old(self).device_in_s1.entries@[j].linker as int)
                    == old(hub).lnk(old(self).device_in_s1.entries@[j].linker as int),
            final(self).wf(*final(hub)),
    {
        let ghost hub0 = *hub;
        let mut acc = self.post_syn_s1.ffw_accepted(hub);
        let ghost hub1 = *hub;
        proof {
            assert forall|j: int| 0 <= j < self.device_in_s1.entries@.len()
                implies hub.lnk((#[trigger] self.device_in_s1.entries@[j]).linker as int)
                    == hub0.lnk(self.device_in_s1.entries@[j].linker as int) by {
                assert(ins_touch(self.device_in_s1.entries@, self.device_in_s1.entries@[j].linker as int));
                assert(!backs_touch(old(self).post_syn_s1.entries@, self.device_in_s1.entries@[j].linker as int));
            }
            lemma_ins_accepted_congruence(
                self.device_in_s1.entries@,
                *hub,
                hub0,
                self.device_in_s1.entries@.len() as int,
            );
            assert forall|j: int| 0 <= j < self.out_s0.targets@.len()
                implies hub.lnk((#[trigger] self.out_s0.targets@[j]).linker as int)
                    == hub0.lnk(self.out_s0.targets@[j].linker as int) by {
                assert(outs_touch(self.out_s0.targets@, self.out_s0.targets@[j].linker as int));
                assert(!backs_touch(old(self).post_syn_s1.entries@, self.out_s0.targets@[j].linker as int));
            }
        }
        let mut acc2 = self.device_in_s1.ffw_accepted(hub);
        acc.append(&mut acc2);
        proof {
            assert forall|j: int| 0 <= j < old(self).post_syn_s1.entries@.len()
                implies hub.lnk((#[trigger] old(self).post_syn_s1.entries@[j]).linker as int)
                    == hub1.lnk(old(self).post_syn_s1.entries@[j].linker as int) by {
                assert(backs_touch(old(self).post_syn_s1.entries@, old(self).post_syn_s1.entries@[j].linker as int));
                assert(!ins_touch(old(self).device_in_s1.entries@, old(self).post_syn_s1.entries@[j].linker as int));
            }
            assert forall|j: int| 0 <= j < self.out_s0.targets@.len()
                implies hub.lnk((#[trigger] self.out_s0.targets@[j]).linker as int)
                    == hub1.lnk(self.out_s0.targets@[j].linker as int) by {
                assert(outs_touch(self.out_s0.targets@, self.out_s0.targets@[j].linker as int));
                assert(!ins_touch(old(self).device_in_s1.entries@, self.out_s0.targets@[j].linker as int));
            }
            assert(acc@ == backs_accepted(old(self).post_syn_s1.entries@, *old(hub))
                + ins_accepted(old(self).device_in_s1.entries@, *old(hub)));
        }
        let ghost total = acc@;
        let mut i: usize = 0;
        while i < acc.len()
            invariant
                i <= acc@.len(),
                acc@ == total,
                self.stock@ == old(self).stock@ + products_of(total.take(i as int), self.proc_value),
                self.id == old(self).id,
                self.gen_value == old(self).gen_value,
                self.proc_value == old(self).proc_value,
                self.event_cond == old(self).event_cond,
                self.out_s0 == old(self).out_s0,
                self.post_syn_s1 == old(self).post_syn_s1,
                self.device_in_s1 == old(self).device_in_s1,
            decreases acc@.len() - i,
        {
            let f = acc[i];
            self.stock.push(FwdEndProduct { msg: f.0, proc: self.proc_value });
            proof {
                assert(total.take(i as int + 1) =~= total.take(i as int).push(total[i as int]));
                assert(products_of(total.take(i as int + 1), self.proc_value)
                    =~= products_of(total.take(i as int), self.proc_value)
                        .push(FwdEndProduct { msg: total[i as int].0, proc: self.proc_value }));
            }
            i = i + 1;
        }
        proof {
            assert(total.take(total.len() as int) =~= total);
        }
    }

    /// Pushes the freshly generated value to every outgoing edge and a
    /// plasticity signal backward on every two-way fan-in edge,
    /// best-effort and independent per edge.
    #[verifier::rlimit(50)]
    pub fn generate(&self, hub: &mut Hub) -> (outcomes: (Vec<Result<(), OpError>>, Vec<Result<(), OpError>>))
        requires
            self.wf(*old(hub)),
        ensures
            outcomes.0@.len() == self.out_s0.targets@.len(),
            forall|j: int| 0 <= j < self.out_s0.targets@.len()
                ==> outcomes.0@[j] == (#[trigger] self.out_s0.targets@[j]).feed_outcome(*old(hub)),
            outcomes.1@.len() == self.post_syn_s1.entries@.len(),
            forall|j: int| 0 <= j < self.post_syn_s1.entries@.len()
                ==> outcomes.1@[j] == (#[trigger] self.post_syn_s1.entries@[j]).feedback_outcome(*old(hub)),
            final(hub).slots == old(hub).slots,
            final(hub).n_linkers() == old(hub).n_linkers(),
            forall|l: int| 0 <= l < old(hub).n_linkers() && !self.owns_linker(l)
                ==> final(hub).lnk(l) == old(hub).lnk(l),
            forall|l: int| 0 <= l < old(hub).n_linkers() && ins_touch(self.device_in_s1.entries@, l)
                ==> final(hub).lnk(l) == old(hub).lnk(l),
            forall|j: int| 0 <= j < self.out_s0.targets@.len()
                && (#[trigger] self.out_s0.targets@[j]).delivers(*old(hub))
                ==> final(hub).lnk(self.out_s0.targets@[j].linker as int).fwd_q()
                        == old(hub).lnk(self.out_s0.targets@[j].linker as int).fwd_q()
                            .push(s1_frame(FwdPreS1 { msg_gen: self.gen_value }))
                    && final(hub).lnk(self.out_s0.targets@[j].linker as int).bwd
                        == old(hub).lnk(self.out_s0.targets@[j].linker as int).bwd,
            forall|j: int| 0 <= j < self.out_s0.targets@.len()
                && !(#[trigger] self.out_s0.targets@[j]).delivers(*old(hub))
                ==> final(hub).lnk(self.out_s0.targets@[j].linker as int)
                    == old(hub).lnk(self.out_s0.targets@[j].linker as int),
            forall|j: int| 0 <= j < self.post_syn_s1.entries@.len()
                && (#[trigger] self.post_syn_s1.entries@[j]).delivers_back(*old(hub))
                ==> final(hub).lnk(self.post_syn_s1.entries@[j].linker as int).bwd_q()
                        == old(hub).lnk(self.post_syn_s1.entries@[j].linker as int).bwd_q()
                            .push((self.gen_value as i64, 0, 0))
                    && final(hub).lnk(self.post_syn_s1.entries@[j].linker as int).fwd
                        == old(hub).lnk(self.post_syn_s1.entries@[j].linker as int).fwd
                    && final(hub).lnk(self.post_syn_s1.entries@[j].linker as int).kind
                        == old(hub).lnk(self.post_syn_s1.entries@[j].linker as int).kind,
            forall|j: int| 0 <= j < self.post_syn_s1.entries@.len()
                && !(#[trigger] self.post_syn_s1.entries@[j]).delivers_back(*old(hub))
                ==> final(hub).lnk(self.post_syn_s1.entries@[j].linker as int)
                    == old(hub).lnk(self.post_syn_s1.entries@[j].linker as int),
    {
        let msg = FwdPreS1 { msg_gen: self.gen_value };
        let r1 = self.out_s0.feedforward(hub, msg.to_frame());
        let ghost hub1 = *hub;
        proof {
            assert forall|j: int| 0 <= j < self.post_syn_s1.entries@.len()
                implies hub.lnk((#[trigger] self.post_syn_s1.entries@[j]).linker as int)
                    == old(hub).lnk(self.post_syn_s1.entries@[j].linker as int) by {
                assert(backs_touch(self.post_syn_s1.entries@, self.post_syn_s1.entries@[j].linker as int));
                assert(!outs_touch(self.out_s0.targets@, self.post_syn_s1.entries@[j].linker as int));
            }
        }
        let r2 = self.post_syn_s1.feedbackward(hub, (self.gen_value as i64, 0, 0));
        proof {
            assert forall|j: int| 0 <= j < self.out_s0.targets@.len()
                implies hub.lnk((#[trigger] self.out_s0.targets@[j]).linker as int)
                    == hub1.lnk(self.out_s0.targets@[j].linker as int) by {
                assert(outs_touch(self.out_s0.targets@, self.out_s0.targets@[j].linker as int));
                assert(!backs_touch(self.post_syn_s1.entries@, self.out_s0.targets@[j].linker as int));
            }
        }
        (r1, r2)
    }

    /// One clock-driven generation: advances both counters, accepts
    /// everything queued on the fan-ins, and — exactly when the
    /// processing counter reaches a multiple of the event period — fires,
    /// pushing the generated value to every outgoing edge.
    #[verifier::rlimit(50)]
    pub fn evolve(&mut self, hub: &mut Hub) -> (f: Fired)
        requires
            old(self).wf(*old(hub)),
            old(self).gen_value < i32::MAX,
            old(self).proc_value < i32::MAX,
        ensures
            final(self).id == old(self).id,
            final(self).event_cond == old(self).event_cond,
            final(self).gen_value == old(self).gen_value + 1,
            final(self).proc_value == old(self).proc_value + 1,
            final(self).out_s0 == old(self).out_s0,
            final(self).post_syn_s1 == old(self).post_syn_s1,
            final(self).device_in_s1 == old(self).device_in_s1,
            f == (if fires(old(self).event_cond, (old(self).proc_value + 1) as i32) {
                Fired::Y
            } else {
                Fired::N
            }),
            final(self).stock@ == old(self).stock@ + products_of(
                backs_accepted(old(self).post_syn_s1.entries@, *old(hub))
                    + ins_accepted(old(self).device_in_s1.entries@, *old(hub)),
                (old(self).proc_value + 1) as i32),
            final(hub).slots == old(hub).slots,
            final(hub).n_linkers() == old(hub).n_linkers(),
            forall|l: int| 0 <= l < old(hub).n_linkers() && !old(self).owns_linker(l)
                ==> final(hub).lnk(l) == old(hub).lnk(l),
            forall|j: int| 0 <= j < old(self).device_in_s1.entries@.len()
                && (#[trigger] old(self).device_in_s1.entries@[j]).is_live()
                ==> final(hub).lnk(old(self).device_in_s1.entries@[j].linker as int).fwd_q()
                    == Seq::<Frame>::empty(),
            f is N ==> forall|j: int| 0 <= j < old(self).out_s0.targets@.len()
                ==> final(hub).lnk((#[trigger] old(self).out_s0.targets@[j]).linker as int)
                    == old(hub).lnk(old(self).out_s0.targets@[j].linker as int),
            f is Y ==> forall|j: int| 0 <= j < old(self).out_s0.targets@.len()
                && (#[trigger] old(self).out_s0.targets@[j]).delivers(*old(hub))
                ==> final(hub).lnk(old(self).out_s0.targets@[j].linker as int).fwd_q()
                    == old(hub).lnk(old(self).out_s0.targets@[j].linker as int).fwd_q()
                        .push(s1_frame(FwdPreS1 { msg_gen: (old(self).gen_value + 1) as i32 })),
            f is Y ==> forall|j: int| 0 <= j < old(self).out_s0.targets@.len()
                && !(#[trigger] old(self).out_s0.targets@[j]).delivers(*old(hub))
                ==> final(hub).lnk(old(self).out_s0.targets@[j].linker as int)
                    == old(hub).lnk(old(self).out_s0.targets@[j].linker as int),
            final(self).wf(*final(hub)),
    {
        self.proc_value = self.proc_value + 1;
        self.gen_value = self.gen_value + 1;
        let ghost self_pre = *self;
        self.accept(hub);
        let ghost hub_acc = *hub;
        let f = match self.event_cond {
            None => Fired::N,
            Some(n) => {
                if self.proc_value % n == 0 {
                    let _ = self.generate(hub);
                    Fired::Y
                } else {
                    Fired::N
                }
            },
        };
        proof {
            assert(self_pre.out_s0 == old(self).out_s0);
            assert(self_pre.post_syn_s1 == old(self).post_syn_s1);
            assert(self_pre.device_in_s1 == old(self).device_in_s1);
            assert forall|l: int| 0 <= l < old(hub).n_linkers() && !old(self).owns_linker(l)
                implies hub.lnk(l) == old(hub).lnk(l) by {
                assert(!self_pre.owns_linker(l));
                assert(hub_acc.lnk(l) == old(hub).lnk(l));
                assert(!self.owns_linker(l));
            }
            assert forall|j: int| 0 <= j < old(self).post_syn_s1.entries@.len()
                implies (#[trigger] hub.lnk(old(self).post_syn_s1.entries@[j].linker as int)).kind
                    == old(hub).lnk(old(self).post_syn_s1.entries@[j].linker as int).kind by {
                assert(self_pre.post_syn_s1.entries@[j] == old(self).post_syn_s1.entries@[j]);
                assert(hub_acc.lnk(self_pre.post_syn_s1.entries@[j].linker as int).kind
                    == old(hub).lnk(self_pre.post_syn_s1.entries@[j].linker as int).kind);
                assert(hub.lnk(self_pre.post_syn_s1.entries@[j].linker as int).kind
                    == hub_acc.lnk(self_pre.post_syn_s1.entries@[j].linker as int).kind);
            }
            if f is Y {
                assert forall|j: int| 0 <= j < old(self).out_s0.targets@.len()
                    && (#[trigger] old(self).out_s0.targets@[j]).delivers(*old(hub))
                    implies hub.lnk(old(self).out_s0.targets@[j].linker as int).fwd_q()
                        == old(hub).lnk(old(self).out_s0.targets@[j].linker as int).fwd_q()
                            .push(s1_frame(FwdPreS1 { msg_gen: (old(self).gen_value + 1) as i32 })) by {
                    assert(hub_acc.lnk(old(self).out_s0.targets@[j].linker as int)
                        == old(hub).lnk(old(self).out_s0.targets@[j].linker as int));
                    assert(old(self).out_s0.targets@[j].delivers(hub_acc));
                }
                assert forall|j: int| 0 <= j < old(self).out_s0.targets@.len()
                    && !(#[trigger] old(self).out_s0.targets@[j]).delivers(*old(hub))
                    implies hub.lnk(old(self).out_s0.targets@[j].linker as int)
                        == old(hub).lnk(old(self).out_s0.targets@[j].linker as int) by {
                    assert(hub_acc.lnk(old(self).out_s0.targets@[j].linker as int)
                        == old(hub).lnk(old(self).out_s0.targets@[j].linker as int));
                    assert(!old(self).out_s0.targets@[j].delivers(hub_acc));
                }
                assert forall|j: int| 0 <= j < old(self).device_in_s1.entries@.len()
                    && (#[trigger] old(self).device_in_s1.entries@[j]).is_live()
                    implies hub.lnk(old(self).device_in_s1.entries@[j].linker as int).fwd_q()
                        == Seq::<Frame>::empty() by {
                    assert(ins_touch(self.device_in_s1.entries@, old(self).device_in_s1.entries@[j].linker as int));
                    assert(hub.lnk(old(self).device_in_s1.entries@[j].linker as int)
                        == hub_acc.lnk(old(self).device_in_s1.entries@[j].linker as int));
                }
            }
        }
        f
    }


    /// The scheduler handles of every edge towards a passive peer, from
    /// the fan-out first and the two-way fan-in second, one outcome per
    /// edge in registration order.
    pub fn passive_sync_chs_sets(&self, hub: &Hub) -> (outcomes: Vec<Result<Option<RunningSet>, OpError>>)
        ensures
            outcomes@.len() == self.out_s0.targets@.len() + self.post_syn_s1.entries@.len(),
            forall|j: int| 0 <= j < self.out_s0.targets@.len()
                ==> outcomes@[j] == (#[trigger] self.out_s0.targets@[j]).running_outcome(*hub),
            forall|j: int| 0 <= j < self.post_syn_s1.entries@.len()
                ==> outcomes@[self.out_s0.targets@.len() + j]
                    == (#[trigger] self.post_syn_s1.entries@[j]).running_outcome(*hub),
    {
        let mut v1 = self.out_s0.running_targets(hub);
        let mut v2 = self.post_syn_s1.running_targets(hub);
        v1.append(&mut v2);
        v1
    }

    /// The mode this composite agent is in: all three fan collections
    /// must agree, and a disagreement is surfaced as an explicit
    /// `InconsistentMode` error, never silently resolved.
    pub fn mode(&self) -> (r: Result<RunMode, OpError>)
        ensures
            self.out_s0.mode == self.post_syn_s1.mode && self.out_s0.mode == self.device_in_s1.mode
                ==> r == Ok::<RunMode, OpError>(self.out_s0.mode),
            !(self.out_s0.mode == self.post_syn_s1.mode && self.out_s0.mode == self.device_in_s1.mode)
                ==> r == Err::<RunMode, OpError>(OpError::InconsistentMode),
    {
        let a = self.out_s0.mode();
        let b = self.post_syn_s1.mode();
        let c = self.device_in_s1.mode();
        if a == b && a == c {
            Ok(a)
        } else {
            Err(OpError::InconsistentMode)
        }
    }
}

} // verus!
