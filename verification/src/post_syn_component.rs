//! Two-way fan-in: every post-synaptic edge attached to one neuron.
//!
//! The collection drains the forward payloads of all its edges in
//! registration order and broadcasts plasticity signals backward to all
//! of them, best-effort and independent per edge. Registration records
//! whether each pre-synaptic generator is active or passive, because the
//! two are driven by different parts of the barrier protocol.

use vstd::prelude::*;
use crate::fifo::Frame;
use crate::hub::Hub;
use crate::operation::DeviceMode;
use crate::operation::OpError;
use crate::operation::RunMode;
use crate::operation::RunningSet;
use crate::operation::TargetKind;
use crate::post_syn_joint::PostSynBackJoint;

verus! {

/// Every back joint of the collection is well-formed against the hub.
pub open spec fn backs_all_wf(entries: Seq<PostSynBackJoint>, hub: Hub) -> bool {
    forall|j: int| 0 <= j < entries.len() ==> (#[trigger] entries[j]).wf(hub)
}

/// No two back joints of the collection share a linker.
pub open spec fn backs_distinct(entries: Seq<PostSynBackJoint>) -> bool {
    forall|i: int, j: int| 0 <= i < j < entries.len()
        ==> (#[trigger] entries[i]).linker != (#[trigger] entries[j]).linker
}

/// Whether one of the first `i` back joints reaches linker `l`.
pub open spec fn backs_touch_upto(entries: Seq<PostSynBackJoint>, l: int, i: int) -> bool {
    exists|j: int| 0 <= j < i && (#[trigger] entries[j]).linker == l
}

/// Whether any back joint of the collection reaches linker `l`.
pub open spec fn backs_touch(entries: Seq<PostSynBackJoint>, l: int) -> bool {
    backs_touch_upto(entries, l, entries.len() as int)
}

/// What draining the first `i` back joints yields: the concatenation, in
/// registration order, of the forward queue of every live joint among
/// them.
pub open spec fn backs_accepted_upto(entries: Seq<PostSynBackJoint>, hub: Hub, i: int) -> Seq<Frame>
    decreases i,
{
    if i <= 0 {
        Seq::<Frame>::empty()
    } else {
        backs_accepted_upto(entries, hub, i - 1)
            + if entries[i - 1].is_live() {
                hub.lnk(entries[i - 1].linker as int).fwd_q()
            } else {
                Seq::<Frame>::empty()
            }
    }
}

/// What draining the whole collection yields.
pub open spec fn backs_accepted(entries: Seq<PostSynBackJoint>, hub: Hub) -> Seq<Frame> {
    backs_accepted_upto(entries, hub, entries.len() as int)
}

/// What a drain yields depends only on the linkers the collection
/// reaches: two graph states that agree on them agree on the drain.
pub proof fn lemma_backs_accepted_congruence(entries: Seq<PostSynBackJoint>, h1: Hub, h2: Hub, i: int)
    requires
        i <= entries.len(),
        forall|j: int| 0 <= j < entries.len()
            ==> h1.lnk((#[trigger] entries[j]).linker as int) == h2.lnk(entries[j].linker as int),
    ensures
        backs_accepted_upto(entries, h1, i) == backs_accepted_upto(entries, h2, i),
    decreases i,
{
    if i > 0 {
        lemma_backs_accepted_congruence(entries, h1, h2, i - 1);
    }
}

/// Two-way fan-in collection of one agent, with the run mode it was last
/// configured to.
pub struct NeuronPostSynComponent {
    pub mode: RunMode,
    pub entries: Vec<PostSynBackJoint>,
}

impl NeuronPostSynComponent {
    /// Every edge is well-formed and has a linker of its own.
    pub open spec fn wf(self, hub: Hub) -> bool {
        &&& backs_all_wf(self.entries@, hub)
        &&& backs_distinct(self.entries@)
    }

    /// An empty collection, idle, with no edges yet.
    pub fn new() -> (m: NeuronPostSynComponent)
        ensures
            m.mode is Idle,
            m.entries@.len() == 0,
    {
        NeuronPostSynComponent { mode: RunMode::Idle, entries: Vec::new() }
    }

    /// The run mode the collection was last configured to.
    pub fn mode(&self) -> (m: RunMode)
        ensures
            m == self.mode,
    {
        self.mode
    }

    /// Registers one edge accepting from an active generator. The edge
    /// must bring a linker of its own.
    pub fn add_active(&mut self, target: usize, linker: usize)
        requires
            !backs_touch(old(self).entries@, linker as int),
        ensures
            final(self).mode == old(self).mode,
            final(self).entries@ == old(self).entries@.push(
                PostSynBackJoint { target, target_kind: TargetKind::Active, linker, channels: DeviceMode::Idle }),
    {
        self.entries.push(PostSynBackJoint::new(target, TargetKind::Active, linker));
    }

    /// Registers one edge accepting from a passive generator. The edge
    /// must bring a linker of its own.
    pub fn add_passive(&mut self, target: usize, linker: usize)
        requires
            !backs_touch(old(self).entries@, linker as int),
        ensures
            final(self).mode == old(self).mode,
            final(self).entries@ == old(self).entries@.push(
                PostSynBackJoint { target, target_kind: TargetKind::Passive, linker, channels: DeviceMode::Idle }),
    {
        self.entries.push(PostSynBackJoint::new(target, TargetKind::Passive, linker));
    }

    /// First configuration phase, broadcast to every edge; the requested
    /// mode is recorded on the collection itself.
    #[verifier::rlimit(50)]
    pub fn config_mode(&mut self, hub: &mut Hub, mode: RunMode)
        requires
            old(self).wf(*old(hub)),
        ensures
            final(self).mode == mode,
            final(self).entries@.len() == old(self).entries@.len(),
            forall|j: int| 0 <= j < old(self).entries@.len()
                ==> (#[trigger] final(self).entries@[j]).target == old(self).entries@[j].target
                    && final(self).entries@[j].target_kind == old(self).entries@[j].target_kind
                    && final(self).entries@[j].linker == old(self).entries@[j].linker,
            final(hub).slots == old(hub).slots,
            final(hub).n_linkers() == old(hub).n_linkers(),
            final(hub).n_agents() == old(hub).n_agents(),
            forall|l: int| 0 <= l < old(hub).n_linkers() && !backs_touch(old(self).entries@, l)
                ==> final(hub).lnk(l) == old(hub).lnk(l),
            mode is Idle ==> forall|j: int| 0 <= j < old(self).entries@.len()
                ==> !(#[trigger] final(self).entries@[j]).is_live(),
            mode is Idle ==> forall|j: int| 0 <= j < old(self).entries@.len()
                ==> (#[trigger] final(hub).lnk(old(self).entries@[j].linker as int)).pre_mode is Idle
                    && final(hub).lnk(old(self).entries@[j].linker as int).post_mode is Idle,
            mode is Idle ==> forall|j: int| 0 <= j < old(self).entries@.len()
                ==> !(#[trigger] final(hub).lnk(old(self).entries@[j].linker as int)).fwd_live()
                    && !final(hub).lnk(old(self).entries@[j].linker as int).bwd_live(),
            mode.is_running() ==> forall|j: int| 0 <= j < old(self).entries@.len()
                ==> (#[trigger] final(self).entries@[j]).channels == old(self).entries@[j].channels,
            mode.is_running() ==> forall|j: int| 0 <= j < old(self).entries@.len()
                ==> (#[trigger] final(hub).lnk(old(self).entries@[j].linker as int))
                    == (crate::linker::Linker { post_mode: mode, ..old(hub).lnk(old(self).entries@[j].linker as int) }),
            final(self).wf(*final(hub)),
    {
        self.mode = mode;
        let mut i: usize = 0;
        while i < self.entries.len()
            invariant
                i <= old(self).entries@.len(),
                self.entries@.len() == old(self).entries@.len(),
                self.mode == mode,
                backs_all_wf(old(self).entries@, *old(hub)),
                backs_distinct(old(self).entries@),
                hub.slots == old(hub).slots,
                hub.n_linkers() == old(hub).n_linkers(),
                hub.n_agents() == old(hub).n_agents(),
                forall|j: int| 0 <= j < old(self).entries@.len()
                    ==> (#[trigger] self.entries@[j]).target == old(self).entries@[j].target
                        && self.entries@[j].target_kind == old(self).entries@[j].target_kind
                        && self.entries@[j].linker == old(self).entries@[j].linker,
                forall|j: int| i <= j < old(self).entries@.len()
                    ==> (#[trigger] self.entries@[j]).channels == old(self).entries@[j].channels,
                backs_all_wf(self.entries@, *hub),
                forall|l: int| 0 <= l < old(hub).n_linkers()
                    && !backs_touch_upto(old(self).entries@, l, i as int)
                    ==> hub.lnk(l) == old(hub).lnk(l),
                mode is Idle ==> forall|j: int| 0 <= j < i
                    ==> !(#[trigger] self.entries@[j]).is_live(),
                mode is Idle ==> forall|j: int| 0 <= j < i
                    ==> (#[trigger] hub.lnk(old(self).entries@[j].linker as int)).pre_mode is Idle
                        && hub.lnk(old(self).entries@[j].linker as int).post_mode is Idle,
                mode is Idle ==> forall|j: int| 0 <= j < i
                    ==> !(#[trigger] hub.lnk(old(self).entries@[j].linker as int)).fwd_live()
                        && !hub.lnk(old(self).entries@[j].linker as int).bwd_live(),
                mode.is_running() ==> forall|j: int| 0 <= j < i
                    ==> (#[trigger] self.entries@[j]).channels == old(self).entries@[j].channels,
                mode.is_running() ==> forall|j: int| 0 <= j < i
                    ==> (#[trigger] hub.lnk(old(self).entries@[j].linker as int))
                        == (crate::linker::Linker { post_mode: mode, ..old(hub).lnk(old(self).entries@[j].linker as int) }),
            decreases old(self).entries@.len() - i,
        {
            proof {
                assert(!backs_touch_upto(old(self).entries@, old(self).entries@[i as int].linker as int, i as int));
                assert(hub.lnk(old(self).entries@[i as int].linker as int)
                    == old(hub).lnk(old(self).entries@[i as int].linker as int));
            }
            let ghost hub0 = *hub;
            let ghost i0 = i as int;
            let entry = &mut self.entries[i];
            entry.config_mode(hub, mode);
            proof {
                assert forall|j: int| 0 <= j < i0
                    implies hub.lnk(old(self).entries@[j].linker as int)
                        == hub0.lnk(old(self).entries@[j].linker as int) by {
                    assert(old(self).entries@[j].linker != old(self).entries@[i0].linker);
                }
                assert forall|l: int| 0 <= l < old(hub).n_linkers()
                    && !backs_touch_upto(old(self).entries@, l, i0 + 1)
                    implies hub.lnk(l) == old(hub).lnk(l) by {
                    assert(!backs_touch_upto(old(self).entries@, l, i0));
                    assert(l != old(self).entries@[i0].linker);
                }
            }
            i = i + 1;
        }
    }

    /// Second configuration phase, broadcast to every edge; `Ok` exactly
    /// when every edge had been mode-configured first.
    #[verifier::rlimit(50)]
    pub fn config_channels(&mut self, hub: &mut Hub) -> (r: Result<(), OpError>)
        requires
            old(self).wf(*old(hub)),
        ensures
            final(self).mode == old(self).mode,
            final(self).entries@.len() == old(self).entries@.len(),
            forall|j: int| 0 <= j < old(self).entries@.len()
                ==> (#[trigger] final(self).entries@[j]).target == old(self).entries@[j].target
                    && final(self).entries@[j].target_kind == old(self).entries@[j].target_kind
                    && final(self).entries@[j].linker == old(self).entries@[j].linker,
            final(hub).slots == old(hub).slots,
            final(hub).n_linkers() == old(hub).n_linkers(),
            forall|l: int| 0 <= l < old(hub).n_linkers() && !backs_touch(old(self).entries@, l)
                ==> final(hub).lnk(l) == old(hub).lnk(l),
            forall|j: int| 0 <= j < old(self).entries@.len()
                && old(hub).lnk(old(self).entries@[j].linker as int).post_mode is Idle
                ==> !(#[trigger] final(self).entries@[j]).is_live(),
            forall|j: int| 0 <= j < old(self).entries@.len()
                && old(hub).lnk(old(self).entries@[j].linker as int).post_mode is Idle
                ==> (#[trigger] final(hub).lnk(old(self).entries@[j].linker as int))
                    == old(hub).lnk(old(self).entries@[j].linker as int),
            forall|j: int| 0 <= j < old(self).entries@.len()
                && old(hub).lnk(old(self).entries@[j].linker as int).post_mode.is_running()
                ==> (#[trigger] final(self).entries@[j]).is_live(),
            forall|j: int| 0 <= j < old(self).entries@.len()
                && old(hub).lnk(old(self).entries@[j].linker as int).post_mode.is_running()
                ==> (#[trigger] final(hub).lnk(old(self).entries@[j].linker as int))
                    .materialized_from(old(hub).lnk(old(self).entries@[j].linker as int)),
            (r is Ok <==> forall|j: int| 0 <= j < old(self).entries@.len()
                ==> (#[trigger] old(hub).lnk(old(self).entries@[j].linker as int)).post_mode.is_running()),
            r is Err ==> r == Err::<(), OpError>(OpError::NotConfigured),
            final(self).wf(*final(hub)),
    {
        let mut i: usize = 0;
        let mut failed = false;
        while i < self.entries.len()
            invariant
                i <= old(self).entries@.len(),
                self.entries@.len() == old(self).entries@.len(),
                self.mode == old(self).mode,
                backs_all_wf(old(self).entries@, *old(hub)),
                backs_distinct(old(self).entries@),
                hub.slots == old(hub).slots,
                hub.n_linkers() == old(hub).n_linkers(),
                forall|j: int| 0 <= j < old(self).entries@.len()
                    ==> (#[trigger] self.entries@[j]).target == old(self).entries@[j].target
                        && self.entries@[j].target_kind == old(self).entries@[j].target_kind
                        && self.entries@[j].linker == old(self).entries@[j].linker,
                forall|j: int| i <= j < old(self).entries@.len()
                    ==> (#[trigger] self.entries@[j]).channels == old(self).entries@[j].channels,
                backs_all_wf(self.entries@, *hub),
                forall|l: int| 0 <= l < old(hub).n_linkers()
                    && !backs_touch_upto(old(self).entries@, l, i as int)
                    ==> hub.lnk(l) == old(hub).lnk(l),
                forall|j: int| 0 <= j < i
                    && old(hub).lnk(old(self).entries@[j].linker as int).post_mode is Idle
                    ==> !(#[trigger] self.entries@[j]).is_live(),
                forall|j: int| 0 <= j < i
                    && old(hub).lnk(old(self).entries@[j].linker as int).post_mode is Idle
                    ==> (#[trigger] hub.lnk(old(self).entries@[j].linker as int))
                        == old(hub).lnk(old(self).entries@[j].linker as int),
                forall|j: int| 0 <= j < i
                    && old(hub).lnk(old(self).entries@[j].linker as int).post_mode.is_running()
                    ==> (#[trigger] self.entries@[j]).is_live(),
                forall|j: int| 0 <= j < i
                    && old(hub).lnk(old(self).entries@[j].linker as int).post_mode.is_running()
                    ==> (#[trigger] hub.lnk(old(self).entries@[j].linker as int))
                        .materialized_from(old(hub).lnk(old(self).entries@[j].linker as int)),
                failed <==> exists|j: int| 0 <= j < i
                    && (#[trigger] old(hub).lnk(old(self).entries@[j].linker as int)).post_mode is Idle,
            decreases old(self).entries@.len() - i,
        {
            proof {
                assert(!backs_touch_upto(old(self).entries@, old(self).entries@[i as int].linker as int, i as int));
                assert(hub.lnk(old(self).entries@[i as int].linker as int)
                    == old(hub).lnk(old(self).entries@[i as int].linker as int));
            }
            let ghost hub0 = *hub;
            let ghost i0 = i as int;
            let entry = &mut self.entries[i];
            let r = entry.config_channels(hub);
            if r.is_err() {
                failed = true;
            }
            proof {
                assert forall|j: int| 0 <= j < i0
                    implies hub.lnk(old(self).entries@[j].linker as int)
                        == hub0.lnk(old(self).entries@[j].linker as int) by {
                    assert(old(self).entries@[j].linker != old(self).entries@[i0].linker);
                }
                assert forall|l: int| 0 <= l < old(hub).n_linkers()
                    && !backs_touch_upto(old(self).entries@, l, i0 + 1)
                    implies hub.lnk(l) == old(hub).lnk(l) by {
                    assert(!backs_touch_upto(old(self).entries@, l, i0));
                    assert(l != old(self).entries@[i0].linker);
                }
            }
            i = i + 1;
        }
        if failed {
            Err(OpError::NotConfigured)
        } else {
            Ok(())
        }
    }

    /// Drains the forward payloads of every edge and concatenates the
    /// batches in registration order.
    pub fn ffw_accepted(&self, hub: &mut Hub) -> (acc: Vec<Frame>)
        requires
            self.wf(*old(hub)),
        ensures
            acc@ == backs_accepted(self.entries@, *old(hub)),
            final(hub).slots == old(hub).slots,
            final(hub).n_linkers() == old(hub).n_linkers(),
            forall|l: int| 0 <= l < old(hub).n_linkers() && !backs_touch(self.entries@, l)
                ==> final(hub).lnk(l) == old(hub).lnk(l),
            forall|j: int| 0 <= j < self.entries@.len() && !(#[trigger] self.entries@[j]).is_live()
                ==> final(hub).lnk(self.entries@[j].linker as int)
                    == old(hub).lnk(self.entries@[j].linker as int),
            forall|j: int| 0 <= j < self.entries@.len() && (#[trigger] self.entries@[j]).is_live()
                ==> final(hub).lnk(self.entries@[j].linker as int).fwd_q() == Seq::<Frame>::empty()
                    && final(hub).lnk(self.entries@[j].linker as int).kind
                        == old(hub).lnk(self.entries@[j].linker as int).kind
                    && final(hub).lnk(self.entries@[j].linker as int).pre_mode
                        == old(hub).lnk(self.entries@[j].linker as int).pre_mode
                    && final(hub).lnk(self.entries@[j].linker as int).post_mode
                        == old(hub).lnk(self.entries@[j].linker as int).post_mode
                    && final(hub).lnk(self.entries@[j].linker as int).bwd
                        == old(hub).lnk(self.entries@[j].linker as int).bwd,
    {
        let mut acc: Vec<Frame> = Vec::new();
        let mut i: usize = 0;
        while i < self.entries.len()
            invariant
                i <= self.entries@.len(),
                acc@ == backs_accepted_upto(self.entries@, *old(hub), i as int),
                backs_all_wf(self.entries@, *old(hub)),
                backs_distinct(self.entries@),
                hub.slots == old(hub).slots,
                hub.n_linkers() == old(hub).n_linkers(),
                forall|l: int| 0 <= l < old(hub).n_linkers()
                    && !backs_touch_upto(self.entries@, l, i as int)
                    ==> hub.lnk(l) == old(hub).lnk(l),
                forall|j: int| 0 <= j < i && !(#[trigger] self.entries@[j]).is_live()
                    ==> hub.lnk(self.entries@[j].linker as int)
                        == old(hub).lnk(self.entries@[j].linker as int),
                forall|j: int| 0 <= j < i && (#[trigger] self.entries@[j]).is_live()
                    ==> hub.lnk(self.entries@[j].linker as int).fwd_q() == Seq::<Frame>::empty()
                        && hub.lnk(self.entries@[j].linker as int).kind
                            == old(hub).lnk(self.entries@[j].linker as int).kind
                        && hub.lnk(self.entries@[j].linker as int).pre_mode
                            == old(hub).lnk(self.entries@[j].linker as int).pre_mode
                        && hub.lnk(self.entries@[j].linker as int).post_mode
                            == old(hub).lnk(self.entries@[j].linker as int).post_mode
                        && hub.lnk(self.entries@[j].linker as int).bwd
                            == old(hub).lnk(self.entries@[j].linker as int).bwd,
            decreases self.entries@.len() - i,
        {
            proof {
                assert(!backs_touch_upto(self.entries@, self.entries@[i as int].linker as int, i as int));
                assert(hub.lnk(self.entries@[i as int].linker as int)
                    == old(hub).lnk(self.entries@[i as int].linker as int));
            }
            let entry = &self.entries[i];
            match entry.ffw_accepted_iter(hub) {
                Some(mut batch) => {
                    acc.append(&mut batch);
                },
                None => {},
            }
            i = i + 1;
        }
        acc
    }

    /// Broadcast-send of one plasticity signal backward on every edge,
    /// best-effort and independent per edge, outcomes in registration
    /// order.
    pub fn feedbackward(&self, hub: &mut Hub, v: Frame) -> (outcomes: Vec<Result<(), OpError>>)
        requires
            self.wf(*old(hub)),
        ensures
            outcomes@.len() == self.entries@.len(),
            forall|j: int| 0 <= j < self.entries@.len()
                ==> outcomes@[j] == (#[trigger] self.entries@[j]).feedback_outcome(*old(hub)),
            final(hub).slots == old(hub).slots,
            final(hub).n_linkers() == old(hub).n_linkers(),
            forall|l: int| 0 <= l < old(hub).n_linkers() && !backs_touch(self.entries@, l)
                ==> final(hub).lnk(l) == old(hub).lnk(l),
            forall|j: int| 0 <= j < self.entries@.len()
                && !(#[trigger] self.entries@[j]).delivers_back(*old(hub))
                ==> final(hub).lnk(self.entries@[j].linker as int)
                    == old(hub).lnk(self.entries@[j].linker as int),
            forall|j: int| 0 <= j < self.entries@.len()
                && (#[trigger] self.entries@[j]).delivers_back(*old(hub))
                ==> final(hub).lnk(self.entries@[j].linker as int).bwd_q()
                        == old(hub).lnk(self.entries@[j].linker as int).bwd_q().push(v)
                    && final(hub).lnk(self.entries@[j].linker as int).bwd_live()
                    && final(hub).lnk(self.entries@[j].linker as int).kind
                        == old(hub).lnk(self.entries@[j].linker as int).kind
                    && final(hub).lnk(self.entries@[j].linker as int).pre_mode
                        == old(hub).lnk(self.entries@[j].linker as int).pre_mode
                    && final(hub).lnk(self.entries@[j].linker as int).post_mode
                        == old(hub).lnk(self.entries@[j].linker as int).post_mode
                    && final(hub).lnk(self.entries@[j].linker as int).fwd
                        == old(hub).lnk(self.entries@[j].linker as int).fwd,
    {
        let mut outcomes: Vec<Result<(), OpError>> = Vec::new();
        let mut i: usize = 0;
        while i < self.entries.len()
            invariant
                i <= self.entries@.len(),
                outcomes@.len() == i,
                backs_all_wf(self.entries@, *old(hub)),
                backs_distinct(self.entries@),
                hub.slots == old(hub).slots,
                hub.n_linkers() == old(hub).n_linkers(),
                forall|j: int| 0 <= j < i
                    ==> outcomes@[j] == (#[trigger] self.entries@[j]).feedback_outcome(*old(hub)),
                forall|l: int| 0 <= l < old(hub).n_linkers()
                    && !backs_touch_upto(self.entries@, l, i as int)
                    ==> hub.lnk(l) == old(hub).lnk(l),
                forall|j: int| 0 <= j < i && !(#[trigger] self.entries@[j]).delivers_back(*old(hub))
                    ==> hub.lnk(self.entries@[j].linker as int)
                        == old(hub).lnk(self.entries@[j].linker as int),
                forall|j: int| 0 <= j < i && (#[trigger] self.entries@[j]).delivers_back(*old(hub))
                    ==> hub.lnk(self.entries@[j].linker as int).bwd_q()
                            == old(hub).lnk(self.entries@[j].linker as int).bwd_q().push(v)
                        && hub.lnk(self.entries@[j].linker as int).bwd_live()
                        && hub.lnk(self.entries@[j].linker as int).kind
                            == old(hub).lnk(self.entries@[j].linker as int).kind
                        && hub.lnk(self.entries@[j].linker as int).pre_mode
                            == old(hub).lnk(self.entries@[j].linker as int).pre_mode
                        && hub.lnk(self.entries@[j].linker as int).post_mode
                            == old(hub).lnk(self.entries@[j].linker as int).post_mode
                        && hub.lnk(self.entries@[j].linker as int).fwd
                            == old(hub).lnk(self.entries@[j].linker as int).fwd,
            decreases self.entries@.len() - i,
        {
            proof {
                assert(!backs_touch_upto(self.entries@, self.entries@[i as int].linker as int, i as int));
                assert(hub.lnk(self.entries@[i as int].linker as int)
                    == old(hub).lnk(self.entries@[i as int].linker as int));
            }
            let entry = &self.entries[i];
            let r = entry.feedbackward(hub, v);
            outcomes.push(r);
            i = i + 1;
        }
        outcomes
    }

    /// The scheduler handles of every edge towards a passive generator,
    /// one outcome per edge in registration order.
    pub fn running_targets(&self, hub: &Hub) -> (outcomes: Vec<Result<Option<RunningSet>, OpError>>)
        ensures
            outcomes@.len() == self.entries@.len(),
            forall|j: int| 0 <= j < self.entries@.len()
                ==> outcomes@[j] == (#[trigger] self.entries@[j]).running_outcome(*hub),
    {
        let mut outcomes: Vec<Result<Option<RunningSet>, OpError>> = Vec::new();
        let mut i: usize = 0;
        while i < self.entries.len()
            invariant
                i <= self.entries@.len(),
                outcomes@.len() == i,
                forall|j: int| 0 <= j < i
                    ==> outcomes@[j] == (#[trigger] self.entries@[j]).running_outcome(*hub),
            decreases self.entries@.len() - i,
        {
            let r = self.entries[i].running_target(hub);
            outcomes.push(r);
            i = i + 1;
        }
        outcomes
    }
}

} // verus!
