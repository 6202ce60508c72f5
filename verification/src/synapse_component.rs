//! The connectivity component of one synapse: one incoming one-way edge
//! from its pre-synaptic generator and one outgoing two-way edge to its
//! post-synaptic acceptor, together with the synapse's plasticity flag.

use vstd::prelude::*;
use crate::fifo::Frame;
use crate::hub::Hub;
use crate::operation::OpError;
use crate::operation::RunMode;
use crate::operation::RunningSet;
use crate::operation::TargetKind;
use crate::post_syn_joint::PostSynForeJoint;
use crate::simple_joint::InSet;

verus! {

/// Whether a synapse is static or adapts its weight by spike-timing
/// dependent plasticity.
#[derive(Clone, Copy, Debug, PartialEq, Eq, Structural)]
pub enum SynapseFlag {
    Static,
    Stdp,
}

/// Connectivity of one synapse: the pre-synaptic fan-in edge, the
/// post-synaptic two-way edge, the run mode the component was last
/// configured to, and the plasticity flag.
pub struct SynapseComponent {
    pub mode: RunMode,
    pub flag: SynapseFlag,
    pub pre: InSet,
    pub post: PostSynForeJoint,
}

impl SynapseComponent {
    /// Both edges are well-formed and do not share a linker.
    pub open spec fn wf(self, hub: Hub) -> bool {
        &&& self.pre.wf(hub)
        &&& self.post.wf(hub)
        &&& self.pre.linker != self.post.linker
    }

    /// A fresh, idle component wired between a pre-synaptic generator
    /// and an active post-synaptic acceptor.
    pub fn new_on_active(pre_target: usize, pre_linker: usize, post_target: usize, post_linker: usize)
        -> (c: SynapseComponent)
        requires
            pre_linker != post_linker,
        ensures
            c.mode is Idle,
            c.flag is Static,
            c.pre.target == pre_target,
            c.pre.linker == pre_linker,
            !c.pre.is_live(),
            c.post.target == post_target,
            c.post.target_kind is Active,
            c.post.linker == post_linker,
            !c.post.is_live(),
    {
        SynapseComponent {
            mode: RunMode::Idle,
            flag: SynapseFlag::Static,
            pre: InSet::new(pre_target, pre_linker),
            post: PostSynForeJoint::new(post_target, TargetKind::Active, post_linker),
        }
    }

    /// A fresh, idle component wired between a pre-synaptic generator
    /// and a passive post-synaptic acceptor.
    pub fn new_on_passive(pre_target: usize, pre_linker: usize, post_target: usize, post_linker: usize)
        -> (c: SynapseComponent)
        requires
            pre_linker != post_linker,
        ensures
            c.mode is Idle,
            c.flag is Static,
            c.pre.target == pre_target,
            c.pre.linker == pre_linker,
            !c.pre.is_live(),
            c.post.target == post_target,
            c.post.target_kind is Passive,
            c.post.linker == post_linker,
            !c.post.is_live(),
    {
        SynapseComponent {
            mode: RunMode::Idle,
            flag: SynapseFlag::Static,
            pre: InSet::new(pre_target, pre_linker),
            post: PostSynForeJoint::new(post_target, TargetKind::Passive, post_linker),
        }
    }

    /// The run mode the component was last configured to.
    pub fn mode(&self) -> (m: RunMode)
        ensures
            m == self.mode,
    {
        self.mode
    }

    /// Switches the synapse between static and plastic behaviour.
    pub fn config_syn_flag(&mut self, flag: SynapseFlag)
        ensures
            *final(self) == (SynapseComponent { flag, ..*old(self) }),
    {
        self.flag = flag;
    }

    /// First configuration phase: records the mode on the component and
    /// propagates it to both edges.
    pub fn config_mode(&mut self, hub: &mut Hub, mode: RunMode)
        requires
            old(self).wf(*old(hub)),
        ensures
            final(self).mode == mode,
            final(self).flag == old(self).flag,
            final(self).pre.target == old(self).pre.target,
            final(self).pre.linker == old(self).pre.linker,
            final(self).post.target == old(self).post.target,
            final(self).post.target_kind == old(self).post.target_kind,
            final(self).post.linker == old(self).post.linker,
            final(hub).slots == old(hub).slots,
            final(hub).n_linkers() == old(hub).n_linkers(),
            final(hub).n_agents() == old(hub).n_agents(),
            forall|l: int| 0 <= l < old(hub).n_linkers()
                && l != old(self).pre.linker && l != old(self).post.linker
                ==> final(hub).lnk(l) == old(hub).lnk(l),
            mode is Idle ==> !final(self).pre.is_live() && !final(self).post.is_live()
                && final(hub).lnk(old(self).pre.linker as int).kind
                    == old(hub).lnk(old(self).pre.linker as int).kind
                && final(hub).lnk(old(self).post.linker as int).kind
                    == old(hub).lnk(old(self).post.linker as int).kind
                && final(hub).lnk(old(self).pre.linker as int).pre_mode is Idle
                && final(hub).lnk(old(self).pre.linker as int).post_mode is Idle
                && !final(hub).lnk(old(self).pre.linker as int).fwd_live()
                && !final(hub).lnk(old(self).pre.linker as int).bwd_live()
                && final(hub).lnk(old(self).post.linker as int).pre_mode is Idle
                && final(hub).lnk(old(self).post.linker as int).post_mode is Idle
                && !final(hub).lnk(old(self).post.linker as int).fwd_live()
                && !final(hub).lnk(old(self).post.linker as int).bwd_live(),
            mode.is_running() ==> final(self).pre.channels == old(self).pre.channels
                && final(self).post.channels == old(self).post.channels
                && final(hub).lnk(old(self).pre.linker as int)
                    == (crate::linker::Linker { post_mode: mode, ..old(hub).lnk(old(self).pre.linker as int) })
                && final(hub).lnk(old(self).post.linker as int)
                    == (crate::linker::Linker { pre_mode: mode, ..old(hub).lnk(old(self).post.linker as int) }),
            final(self).wf(*final(hub)),
    {
        self.mode = mode;
        self.pre.config_mode(hub, mode);
        self.post.config_mode(hub, mode);
    }

    /// Second configuration phase: materializes the channels of both
    /// edges; `Ok` exactly when both edges had been mode-configured
    /// first.
    pub fn config_channels(&mut self, hub: &mut Hub) -> (r: Result<(), OpError>)
        requires
            old(self).wf(*old(hub)),
        ensures
            final(self).mode == old(self).mode,
            final(self).flag == old(self).flag,
            final(self).pre.target == old(self).pre.target,
            final(self).pre.linker == old(self).pre.linker,
            final(self).post.target == old(self).post.target,
            final(self).post.target_kind == old(self).post.target_kind,
            final(self).post.linker == old(self).post.linker,
            final(hub).slots == old(hub).slots,
            final(hub).n_linkers() == old(hub).n_linkers(),
            forall|l: int| 0 <= l < old(hub).n_linkers()
                && l != old(self).pre.linker && l != old(self).post.linker
                ==> final(hub).lnk(l) == old(hub).lnk(l),
            old(hub).lnk(old(self).pre.linker as int).post_mode is Idle
                ==> !final(self).pre.is_live()
                && final(hub).lnk(old(self).pre.linker as int) == old(hub).lnk(old(self).pre.linker as int),
            old(hub).lnk(old(self).pre.linker as int).post_mode.is_running()
                ==> final(self).pre.is_live()
                && final(hub).lnk(old(self).pre.linker as int)
                    .materialized_from(old(hub).lnk(old(self).pre.linker as int)),
            old(hub).lnk(old(self).post.linker as int).pre_mode is Idle
                ==> !final(self).post.is_live()
                && final(hub).lnk(old(self).post.linker as int) == old(hub).lnk(old(self).post.linker as int),
            old(hub).lnk(old(self).post.linker as int).pre_mode.is_running()
                ==> final(self).post.is_live()
                && final(hub).lnk(old(self).post.linker as int)
                    .materialized_from(old(hub).lnk(old(self).post.linker as int)),
            (r is Ok <==> old(hub).lnk(old(self).pre.linker as int).post_mode.is_running()
                && old(hub).lnk(old(self).post.linker as int).pre_mode.is_running()),
            r is Err ==> r == Err::<(), OpError>(OpError::NotConfigured),
            final(self).wf(*final(hub)),
    {
        let r1 = self.pre.config_channels(hub);
        let r2 = self.post.config_channels(hub);
        if r1.is_err() || r2.is_err() {
            Err(OpError::NotConfigured)
        } else {
            Ok(())
        }
    }

    /// Drains everything the pre-synaptic generator has queued, in send
    /// order; `None` while the pre edge is idle.
    pub fn ffw_accepted(&self, hub: &mut Hub) -> (r: Option<Vec<Frame>>)
        requires
            self.wf(*old(hub)),
        ensures
            !self.pre.is_live() ==> r is None && *final(hub) == *old(hub),
            self.pre.is_live() ==> (r matches Some(v)
                && v@ == old(hub).lnk(self.pre.linker as int).fwd_q())
                && final(hub).slots == old(hub).slots
                && final(hub).n_linkers() == old(hub).n_linkers()
                && (forall|j: int| 0 <= j < old(hub).n_linkers() && j != self.pre.linker
                    ==> final(hub).lnk(j) == old(hub).lnk(j))
                && final(hub).lnk(self.pre.linker as int).fwd_q() == Seq::<Frame>::empty()
                && final(hub).lnk(self.pre.linker as int).kind == old(hub).lnk(self.pre.linker as int).kind
                && final(hub).lnk(self.pre.linker as int).pre_mode == old(hub).lnk(self.pre.linker as int).pre_mode
                && final(hub).lnk(self.pre.linker as int).post_mode == old(hub).lnk(self.pre.linker as int).post_mode
                && final(hub).lnk(self.pre.linker as int).bwd == old(hub).lnk(self.pre.linker as int).bwd,
    {
        self.pre.ffw_accepted_iter(hub)
    }

    /// Best-effort send of one payload frame to the post-synaptic
    /// acceptor.
    pub fn feedforward(&self, hub: &mut Hub, s: Frame) -> (r: Result<(), OpError>)
        requires
            self.wf(*old(hub)),
        ensures
            r == self.post.feed_outcome(*old(hub)),
            !self.post.delivers(*old(hub)) ==> *final(hub) == *old(hub),
            self.post.delivers(*old(hub)) ==> final(hub).slots == old(hub).slots
                && final(hub).n_linkers() == old(hub).n_linkers()
                && (forall|j: int| 0 <= j < old(hub).n_linkers() && j != self.post.linker
                    ==> final(hub).lnk(j) == old(hub).lnk(j))
                && final(hub).lnk(self.post.linker as int).fwd_q()
                    == old(hub).lnk(self.post.linker as int).fwd_q().push(s)
                && final(hub).lnk(self.post.linker as int).fwd_live()
                && final(hub).lnk(self.post.linker as int).kind == old(hub).lnk(self.post.linker as int).kind
                && final(hub).lnk(self.post.linker as int).pre_mode == old(hub).lnk(self.post.linker as int).pre_mode
                && final(hub).lnk(self.post.linker as int).post_mode == old(hub).lnk(self.post.linker as int).post_mode
                && final(hub).lnk(self.post.linker as int).bwd == old(hub).lnk(self.post.linker as int).bwd,
    {
        self.post.feedforward(hub, s)
    }

    /// Drains the plasticity signals the post-synaptic agent has sent
    /// backward; `None` while the post edge is idle.
    pub fn fbw_accepted(&self, hub: &mut Hub) -> (r: Option<Vec<Frame>>)
        requires
            self.wf(*old(hub)),
        ensures
            !self.post.is_live() ==> r is None && *final(hub) == *old(hub),
            self.post.is_live() ==> (r matches Some(v)
                && v@ == old(hub).lnk(self.post.linker as int).bwd_q())
                && final(hub).slots == old(hub).slots
                && final(hub).n_linkers() == old(hub).n_linkers()
                && (forall|j: int| 0 <= j < old(hub).n_linkers() && j != self.post.linker
                    ==> final(hub).lnk(j) == old(hub).lnk(j))
                && final(hub).lnk(self.post.linker as int).bwd_q() == Seq::<Frame>::empty()
                && final(hub).lnk(self.post.linker as int).kind == old(hub).lnk(self.post.linker as int).kind
                && final(hub).lnk(self.post.linker as int).pre_mode == old(hub).lnk(self.post.linker as int).pre_mode
                && final(hub).lnk(self.post.linker as int).post_mode == old(hub).lnk(self.post.linker as int).post_mode
                && final(hub).lnk(self.post.linker as int).fwd == old(hub).lnk(self.post.linker as int).fwd,
    {
        self.post.fbw_accepted_iter(hub)
    }

    /// The scheduler handle of the post edge when its acceptor is
    /// passive.
    pub fn passive_sync_chs_sets(&self, hub: &Hub) -> (r: Result<Option<RunningSet>, OpError>)
        ensures
            r == self.post.running_outcome(*hub),
    {
        self.post.running_target(hub)
    }
}

} // verus!
