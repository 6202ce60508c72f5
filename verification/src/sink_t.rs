//! A passive sink agent: woken by a confirm signal, it drains its fan-in,
//! stocks what arrived, and answers with a report before the driver
//! treats the generation as complete.

use vstd::prelude::*;
use crate::components::MultiInComponent;
use crate::components::ins_accepted;
use crate::components::ins_touch;
use crate::components::lemma_ins_accepted_congruence;
use crate::fifo::Frame;
use crate::hub::Hub;
use crate::hub::fired_frame;
use crate::operation::Fired;
use crate::operation::OpError;
use crate::operation::RunMode;

verus! {

/// The message values a drained batch carries, in arrival order.
pub open spec fn msgs_of(frames: Seq<Frame>) -> Seq<i64> {
    frames.map_values(|f: Frame| f.0)
}

/// Event-driven sink agent: one fan-in collection and a stock of every
/// message value it has accepted.
pub struct SinkT {
    pub id: usize,
    pub device_in: MultiInComponent,
    pub stock: Vec<i64>,
}

impl SinkT {
    /// The fan-in is well-formed against the hub.
    pub open spec fn wf(self, hub: Hub) -> bool {
        self.device_in.wf(hub)
    }

    /// Registers a fresh sink with the hub: no edges, nothing stocked.
    pub fn new(hub: &mut Hub) -> (s: SinkT)
        ensures
            s.id == old(hub).n_agents(),
            s.device_in.mode is Idle,
            s.device_in.entries@.len() == 0,
            s.stock@.len() == 0,
            final(hub).n_agents() == old(hub).n_agents() + 1,
            final(hub).agent_live(s.id as int),
            final(hub).confirm_q(s.id as int).len() == 0,
            final(hub).report_q(s.id as int).len() == 0,
            forall|j: int| 0 <= j < old(hub).n_agents()
                ==> final(hub).slots@[j] == old(hub).slots@[j],
            final(hub).linkers == old(hub).linkers,
            s.wf(*final(hub)),
    {
        let id = hub.register_agent();
        SinkT { id, device_in: MultiInComponent::new(), stock: Vec::new() }
    }

    /// Registers one incoming edge. The edge must bring a linker of its
    /// own.
    pub fn add(&mut self, target: usize, linker: usize)
        requires
            !ins_touch(old(self).device_in.entries@, linker as int),
        ensures
            final(self).id == old(self).id,
            final(self).stock == old(self).stock,
            final(self).device_in.mode == old(self).device_in.mode,
            final(self).device_in.entries@ == old(self).device_in.entries@.push(
                crate::simple_joint::InSet {
                    target,
                    linker,
                    channels: crate::operation::DeviceMode::Idle,
                }),
    {
        self.device_in.add(target, linker);
    }

    /// First configuration phase, propagated to the fan-in.
    pub fn config_mode(&mut self, hub: &mut Hub, mode: RunMode)
        requires
            old(self).wf(*old(hub)),
        ensures
            final(self).id == old(self).id,
            final(self).stock == old(self).stock,
            final(self).device_in.mode == mode,
            final(self).device_in.entries@.len() == old(self).device_in.entries@.len(),
            forall|j: int| 0 <= j < old(self).device_in.entries@.len()
                ==> (#[trigger] final(self).device_in.entries@[j]).target == old(self).device_in.entries@[j].target
                    && final(self).device_in.entries@[j].linker == old(self).device_in.entries@[j].linker,
            final(hub).slots == old(hub).slots,
            final(hub).n_linkers() == old(hub).n_linkers(),
            final(hub).n_agents() == old(hub).n_agents(),
            forall|l: int| 0 <= l < old(hub).n_linkers() && !ins_touch(old(self).device_in.entries@, l)
                ==> final(hub).lnk(l) == old(hub).lnk(l),
            mode is Idle ==> forall|j: int| 0 <= j < old(self).device_in.entries@.len()
                ==> !(#[trigger] final(self).device_in.entries@[j]).is_live(),
            mode.is_running() ==> forall|j: int| 0 <= j < old(self).device_in.entries@.len()
                ==> (#[trigger] final(hub).lnk(old(self).device_in.entries@[j].linker as int))
                    == (crate::linker::Linker {
                        post_mode: mode,
                        ..old(hub).lnk(old(self).device_in.entries@[j].linker as int)
                    }),
            final(self).wf(*final(hub)),
    {
        self.device_in.config_mode(hub, mode);
    }

    /// Second configuration phase, propagated to the fan-in; `Ok` exactly
    /// when every edge had been mode-configured first.
    pub fn config_channels(&mut self, hub: &mut Hub) -> (r: Result<(), OpError>)
        requires
            old(self).wf(*old(hub)),
        ensures
            final(self).id == old(self).id,
            final(self).stock == old(self).stock,
            final(self).device_in.mode == old(self).device_in.mode,
            final(self).device_in.entries@.len() == old(self).device_in.entries@.len(),
            forall|j: int| 0 <= j < old(self).device_in.entries@.len()
                ==> (#[trigger] final(self).device_in.entries@[j]).target == old(self).device_in.entries@[j].target
                    && final(self).device_in.entries@[j].linker == old(self).device_in.entries@[j].linker,
            final(hub).slots == old(hub).slots,
            final(hub).n_linkers() == old(hub).n_linkers(),
            forall|l: int| 0 <= l < old(hub).n_linkers() && !ins_touch(old(self).device_in.entries@, l)
                ==> final(hub).lnk(l) == old(hub).lnk(l),
            (r is Ok <==> forall|j: int| 0 <= j < old(self).device_in.entries@.len()
                ==> (#[trigger] old(hub).lnk(old(self).device_in.entries@[j].linker as int))
                    .post_mode.is_running()),
            r is Err ==> r == Err::<(), OpError>(OpError::NotConfigured),
            r is Ok ==> forall|j: int| 0 <= j < old(self).device_in.entries@.len()
                ==> (#[trigger] final(self).device_in.entries@[j]).is_live(),
            final(self).wf(*final(hub)),
    {
        self.device_in.config_channels(hub)
    }

    /// The run mode the sink was last configured to.
    pub fn mode(&self) -> (m: RunMode)
        ensures
            m == self.device_in.mode,
    {
        self.device_in.mode()
    }

    /// Drains the fan-in and stocks the message value of every accepted
    /// payload, in arrival order.
    pub fn respond(&mut self, hub: &mut Hub)
        requires
            old(self).wf(*old(hub)),
        ensures
            final(self).id == old(self).id,
            final(self).device_in.mode == old(self).device_in.mode,
            final(self).device_in.entries@ == old(self).device_in.entries@,
            final(self).stock@ == old(self).stock@
                + msgs_of(ins_accepted(old(self).device_in.entries@, *old(hub))),
            final(hub).slots == old(hub).slots,
            final(hub).n_linkers() == old(hub).n_linkers(),
            forall|l: int| 0 <= l < old(hub).n_linkers() && !ins_touch(old(self).device_in.entries@, l)
                ==> final(hub).lnk(l) == old(hub).lnk(l),
            forall|j: int| 0 <= j < old(self).device_in.entries@.len()
                && (#[trigger] old(self).device_in.entries@[j]).is_live()
                ==> final(hub).lnk(old(self).device_in.entries@[j].linker as int).fwd_q()
                        == Seq::<Frame>::empty()
                    && (final(hub).lnk(old(self).device_in.entries@[j].linker as int).fwd_live()
                        <==> old(hub).lnk(old(self).device_in.entries@[j].linker as int).fwd_live()),
            forall|l: int| 0 <= l < old(hub).n_linkers()
                ==> (#[trigger] final(hub).lnk(l)).kind == old(hub).lnk(l).kind
                    && final(hub).lnk(l).pre_mode == old(hub).lnk(l).pre_mode
                    && final(hub).lnk(l).post_mode == old(hub).lnk(l).post_mode,
            final(self).wf(*final(hub)),
    {
        let acc = self.device_in.ffw_accepted(hub);
        let mut i: usize = 0;
        while i < acc.len()
            invariant
                i <= acc@.len(),
                self.stock@ == old(self).stock@ + msgs_of(acc@.take(i as int)),
                self.id == old(self).id,
                self.device_in.mode == old(self).device_in.mode,
                self.device_in.entries@ == old(self).device_in.entries@,
            decreases acc@.len() - i,
        {
            let f = acc[i];
            self.stock.push(f.0);
            proof {
                assert(acc@.take(i as int + 1) =~= acc@.take(i as int).push(acc@[i as int]));
                assert(msgs_of(acc@.take(i as int + 1))
                    =~= msgs_of(acc@.take(i as int)).push(acc@[i as int].0));
            }
            i = i + 1;
        }
        proof {
            assert(acc@.take(acc@.len() as int) =~= acc@);
        }
    }

    /// One passive generation: pops a pending confirm, and only then
    /// drains the fan-in and queues the report the driver is awaiting.
    /// `Ok(false)` means no confirm was pending and nothing was touched;
    /// a retired agent resolves to `PeerGone`.
    pub fn run(&mut self, hub: &mut Hub) -> (r: Result<bool, OpError>)
        requires
            old(self).wf(*old(hub)),
        ensures
            final(self).id == old(self).id,
            final(self).device_in.mode == old(self).device_in.mode,
            final(self).device_in.entries@ == old(self).device_in.entries@,
            final(self).wf(*final(hub)),
            final(hub).n_agents() == old(hub).n_agents(),
            final(hub).n_linkers() == old(hub).n_linkers(),
            forall|l: int| 0 <= l < old(hub).n_linkers()
                ==> (#[trigger] final(hub).lnk(l)).kind == old(hub).lnk(l).kind
                    && final(hub).lnk(l).pre_mode == old(hub).lnk(l).pre_mode
                    && final(hub).lnk(l).post_mode == old(hub).lnk(l).post_mode,
            !old(hub).agent_live(old(self).id as int)
                ==> r == Err::<bool, OpError>(OpError::PeerGone)
                && *final(hub) == *old(hub)
                && final(self).stock == old(self).stock,
            old(hub).agent_live(old(self).id as int)
                ==> final(hub).agent_live(old(self).id as int),
            old(hub).agent_live(old(self).id as int)
                && old(hub).confirm_q(old(self).id as int).len() == 0
                ==> r == Ok::<bool, OpError>(false)
                && final(self).stock == old(self).stock
                && final(hub).linkers == old(hub).linkers
                && final(hub).report_q(old(self).id as int) == old(hub).report_q(old(self).id as int),
            old(hub).agent_live(old(self).id as int)
                && old(hub).confirm_q(old(self).id as int).len() > 0
                ==> r == Ok::<bool, OpError>(true)
                && final(self).stock@ == old(self).stock@
                    + msgs_of(ins_accepted(old(self).device_in.entries@, *old(hub)))
                && final(hub).confirm_q(old(self).id as int)
                    == old(hub).confirm_q(old(self).id as int).drop_first()
                && final(hub).report_q(old(self).id as int)
                    == old(hub).report_q(old(self).id as int).push(fired_frame(Fired::N))
                && (forall|l: int| 0 <= l < old(hub).n_linkers()
                    && !ins_touch(old(self).device_in.entries@, l)
                    ==> final(hub).lnk(l) == old(hub).lnk(l))
                && (forall|j: int| 0 <= j < old(self).device_in.entries@.len()
                    && (#[trigger] old(self).device_in.entries@[j]).is_live()
                    ==> final(hub).lnk(old(self).device_in.entries@[j].linker as int).fwd_q()
                            == Seq::<Frame>::empty()
                        && (final(hub).lnk(old(self).device_in.entries@[j].linker as int).fwd_live()
                            <==> old(hub).lnk(old(self).device_in.entries@[j].linker as int).fwd_live())),
    {
        let ghost hub0 = *hub;
        match hub.take_confirm(self.id) {
            Err(e) => Err(e),
            Ok(false) => Ok(false),
            Ok(true) => {
                proof {
                    lemma_ins_accepted_congruence(
                        self.device_in.entries@,
                        *hub,
                        hub0,
                        self.device_in.entries@.len() as int,
                    );
                }
                let ghost hub1 = *hub;
                self.respond(hub);
                let ghost hub2 = *hub;
                let r = hub.send_report(self.id, Fired::N);
                proof {
                    assert(r is Ok);
                    assert forall|l: int| 0 <= l < old(hub).n_linkers()
                        && !ins_touch(old(self).device_in.entries@, l)
                        implies hub.lnk(l) == old(hub).lnk(l) by {
                        assert(hub1.lnk(l) == hub0.lnk(l));
                        assert(hub2.lnk(l) == hub1.lnk(l));
                        assert(hub.lnk(l) == hub2.lnk(l));
                    }
                    assert forall|j: int| 0 <= j < old(self).device_in.entries@.len()
                        && (#[trigger] old(self).device_in.entries@[j]).is_live()
                        implies hub.lnk(old(self).device_in.entries@[j].linker as int).fwd_q()
                            == Seq::<Frame>::empty() by {
                        assert(hub2.lnk(old(self).device_in.entries@[j].linker as int).fwd_q()
                            == Seq::<Frame>::empty());
                        assert(hub.lnk(old(self).device_in.entries@[j].linker as int)
                            == hub2.lnk(old(self).device_in.entries@[j].linker as int));
                    }
                }
                Ok(true)
            },
        }
    }
}

} // verus!
