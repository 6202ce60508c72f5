//! Two-way edge endpoints, used between a synapse and its post-synaptic
//! agent.
//!
//! The fore joint is the synapse's side: it sends payloads forward and
//! drains the plasticity signals flowing backward. The back joint is the
//! post-synaptic agent's side: it drains the forward payloads and sends
//! the backward signals. Both ends share one two-way linker.

use vstd::prelude::*;
use crate::fifo::Frame;
use crate::hub::Hub;
use crate::operation::DeviceMode;
use crate::operation::OpError;
use crate::operation::RunMode;
use crate::operation::RunningSet;
use crate::operation::TargetKind;

verus! {

/// The materialized handle pair of a two-way edge: the linker whose
/// channels carry the forward payload and the backward signal.
pub struct ChsTwoWay {
    pub ch_ffw: usize,
}

/// The synapse-side endpoint of one two-way edge.
pub struct PostSynForeJoint {
    pub target: usize,
    pub target_kind: TargetKind,
    pub linker: usize,
    pub channels: DeviceMode<ChsTwoWay>,
}

impl PostSynForeJoint {
    /// The endpoint refers to a linker the hub owns, the linker is
    /// two-way, and a materialized handle names that same linker.
    pub open spec fn wf(self, hub: Hub) -> bool {
        &&& self.linker < hub.n_linkers()
        &&& hub.lnk(self.linker as int).kind is TwoWay
        &&& (self.channels matches DeviceMode::Feedforward(c) ==> c.ch_ffw == self.linker)
    }

    /// Whether this endpoint holds a materialized handle pair.
    pub open spec fn is_live(self) -> bool {
        self.channels is Feedforward
    }

    /// Whether a `feedforward` call would deliver.
    pub open spec fn delivers(self, hub: Hub) -> bool {
        &&& self.is_live()
        &&& hub.agent_live(self.target as int)
        &&& hub.lnk(self.linker as int).fwd_live()
    }

    /// What one `feedforward` call answers, given the state of the graph.
    pub open spec fn feed_outcome(self, hub: Hub) -> Result<(), OpError> {
        if !self.is_live() {
            Ok(())
        } else if !hub.agent_live(self.target as int) {
            Err(OpError::PeerGone)
        } else if !hub.lnk(self.linker as int).fwd_live() {
            Err(OpError::SendFailed)
        } else {
            Ok(())
        }
    }

    /// A fresh, idle fore endpoint towards `target` over `linker`.
    pub fn new(target: usize, target_kind: TargetKind, linker: usize) -> (s: PostSynForeJoint)
        ensures
            s.target == target,
            s.target_kind == target_kind,
            s.linker == linker,
            !s.is_live(),
    {
        PostSynForeJoint { target, target_kind, linker, channels: DeviceMode::Idle }
    }

    /// First phase of configuration; `Idle` resets the shared linker at
    /// once, a running mode only records the wish on its producer side.
    pub fn config_mode(&mut self, hub: &mut Hub, mode: RunMode)
        requires
            old(self).wf(*old(hub)),
        ensures
            final(self).target == old(self).target,
            final(self).target_kind == old(self).target_kind,
            final(self).linker == old(self).linker,
            final(hub).n_linkers() == old(hub).n_linkers(),
            final(hub).n_agents() == old(hub).n_agents(),
            final(hub).slots == old(hub).slots,
            forall|j: int| 0 <= j < old(hub).n_linkers() && j != old(self).linker
                ==> final(hub).lnk(j) == old(hub).lnk(j),
            mode is Idle ==> !final(self).is_live()
                && final(hub).lnk(old(self).linker as int).pre_mode is Idle
                && final(hub).lnk(old(self).linker as int).post_mode is Idle
                && !final(hub).lnk(old(self).linker as int).fwd_live()
                && !final(hub).lnk(old(self).linker as int).bwd_live()
                && final(hub).lnk(old(self).linker as int).kind == old(hub).lnk(old(self).linker as int).kind,
            mode.is_running() ==> final(self).channels == old(self).channels
                && final(hub).lnk(old(self).linker as int)
                    == (crate::linker::Linker { pre_mode: mode, ..old(hub).lnk(old(self).linker as int) }),
            final(self).wf(*final(hub)),
    {
        match mode {
            RunMode::Idle => {
                self.channels = DeviceMode::Idle;
                let lk = &mut hub.linkers[self.linker];
                lk.config_idle();
            },
            _ => {
                let lk = &mut hub.linkers[self.linker];
                lk.config_pre(mode);
            },
        }
    }

    /// Second phase of configuration: materializes the channel pair of
    /// the edge and stores the handle, or fails with `NotConfigured`,
    /// touching nothing, when `config_mode` has not run first.
    pub fn config_channels(&mut self, hub: &mut Hub) -> (r: Result<(), OpError>)
        requires
            old(self).wf(*old(hub)),
        ensures
            final(self).target == old(self).target,
            final(self).target_kind == old(self).target_kind,
            final(self).linker == old(self).linker,
            final(hub).n_linkers() == old(hub).n_linkers(),
            final(hub).slots == old(hub).slots,
            forall|j: int| 0 <= j < old(hub).n_linkers() && j != old(self).linker
                ==> final(hub).lnk(j) == old(hub).lnk(j),
            old(hub).lnk(old(self).linker as int).pre_mode is Idle
                ==> r == Err::<(), OpError>(OpError::NotConfigured)
                && !final(self).is_live()
                && *final(hub) == *old(hub),
            old(hub).lnk(old(self).linker as int).pre_mode.is_running()
                ==> r is Ok
                && final(self).is_live()
                && final(hub).lnk(old(self).linker as int).materialized_from(old(hub).lnk(old(self).linker as int)),
            final(self).wf(*final(hub)),
    {
        if matches!(hub.linkers[self.linker].pre_mode, RunMode::Idle) {
            self.channels = DeviceMode::Idle;
            return Err(OpError::NotConfigured);
        }
        let lk = &mut hub.linkers[self.linker];
        let r = lk.make_pre();
        self.channels = DeviceMode::Feedforward(ChsTwoWay { ch_ffw: self.linker });
        r
    }

    /// Best-effort, non-blocking send of one payload frame towards the
    /// post-synaptic agent; the counterpart of `OutSet::feedforward`.
    pub fn feedforward(&self, hub: &mut Hub, s: Frame) -> (r: Result<(), OpError>)
        requires
            self.wf(*old(hub)),
        ensures
            r == self.feed_outcome(*old(hub)),
            !self.delivers(*old(hub)) ==> *final(hub) == *old(hub),
            self.delivers(*old(hub)) ==> final(hub).slots == old(hub).slots
                && final(hub).n_linkers() == old(hub).n_linkers()
                && (forall|j: int| 0 <= j < old(hub).n_linkers() && j != self.linker
                    ==> final(hub).lnk(j) == old(hub).lnk(j))
                && final(hub).lnk(self.linker as int).fwd_q()
                    == old(hub).lnk(self.linker as int).fwd_q().push(s)
                && final(hub).lnk(self.linker as int).fwd_live()
                && final(hub).lnk(self.linker as int).kind == old(hub).lnk(self.linker as int).kind
                && final(hub).lnk(self.linker as int).pre_mode == old(hub).lnk(self.linker as int).pre_mode
                && final(hub).lnk(self.linker as int).post_mode == old(hub).lnk(self.linker as int).post_mode
                && final(hub).lnk(self.linker as int).bwd == old(hub).lnk(self.linker as int).bwd,
    {
        match &self.channels {
            DeviceMode::Idle => Ok(()),
            DeviceMode::Feedforward(chs) => {
                if !hub.is_alive(self.target) {
                    return Err(OpError::PeerGone);
                }
                if matches!(hub.linkers[chs.ch_ffw].fwd, DeviceMode::Idle) {
                    return Err(OpError::SendFailed);
                }
                let lk = &mut hub.linkers[chs.ch_ffw];
                lk.fwd_push(s)
            },
        }
    }

    /// Drains the plasticity signals the post-synaptic agent has sent
    /// backward, in send order; `None` while idle.
    pub fn fbw_accepted_iter(&self, hub: &mut Hub) -> (r: Option<Vec<Frame>>)
        requires
            self.wf(*old(hub)),
        ensures
            !self.is_live() ==> r is None && *final(hub) == *old(hub),
            self.is_live() ==> (r matches Some(v)
                && v@ == old(hub).lnk(self.linker as int).bwd_q())
                && final(hub).slots == old(hub).slots
                && final(hub).n_linkers() == old(hub).n_linkers()
                && (forall|j: int| 0 <= j < old(hub).n_linkers() && j != self.linker
                    ==> final(hub).lnk(j) == old(hub).lnk(j))
                && final(hub).lnk(self.linker as int).bwd_q() == Seq::<Frame>::empty()
                && final(hub).lnk(self.linker as int).kind == old(hub).lnk(self.linker as int).kind
                && final(hub).lnk(self.linker as int).pre_mode == old(hub).lnk(self.linker as int).pre_mode
                && final(hub).lnk(self.linker as int).post_mode == old(hub).lnk(self.linker as int).post_mode
                && final(hub).lnk(self.linker as int).fwd == old(hub).lnk(self.linker as int).fwd,
    {
        match &self.channels {
            DeviceMode::Idle => None,
            DeviceMode::Feedforward(chs) => {
                let lk = &mut hub.linkers[chs.ch_ffw];
                Some(lk.bwd_take())
            },
        }
    }

    /// What `running_target` answers, given the state of the graph.
    pub open spec fn running_outcome(self, hub: Hub) -> Result<Option<RunningSet>, OpError> {
        if !self.is_live() || self.target_kind is Active {
            Ok(None)
        } else if hub.agent_live(self.target as int) {
            Ok(Some(RunningSet { target: self.target }))
        } else {
            Err(OpError::PeerGone)
        }
    }

    /// The scheduler handle for this edge when its target is passive:
    /// `None` while idle or when the target is active, the target's
    /// handle while configured and reachable, and an explicit `PeerGone`
    /// when the edge is configured towards a passive target that was torn
    /// down.
    pub fn running_target(&self, hub: &Hub) -> (r: Result<Option<RunningSet>, OpError>)
        ensures
            r == self.running_outcome(*hub),
    {
        if matches!(self.target_kind, TargetKind::Active) {
            return Ok(None);
        }
        match &self.channels {
            DeviceMode::Idle => Ok(None),
            DeviceMode::Feedforward(_) => {
                if hub.is_alive(self.target) {
                    Ok(Some(RunningSet { target: self.target }))
                } else {
                    Err(OpError::PeerGone)
                }
            },
        }
    }
}

/// The post-synaptic agent's endpoint of one two-way edge; it records
/// whether the pre-synaptic generator it accepts from is an active or a
/// passive agent, because the two are driven by different parts of the
/// barrier protocol.
pub struct PostSynBackJoint {
    pub target: usize,
    pub target_kind: TargetKind,
    pub linker: usize,
    pub channels: DeviceMode<ChsTwoWay>,
}

impl PostSynBackJoint {
    /// The endpoint refers to a linker the hub owns, the linker is
    /// two-way, and a materialized handle names that same linker.
    pub open spec fn wf(self, hub: Hub) -> bool {
        &&& self.linker < hub.n_linkers()
        &&& hub.lnk(self.linker as int).kind is TwoWay
        &&& (self.channels matches DeviceMode::Feedforward(c) ==> c.ch_ffw == self.linker)
    }

    /// Whether this endpoint holds a materialized handle pair.
    pub open spec fn is_live(self) -> bool {
        self.channels is Feedforward
    }

    /// Whether a `feedbackward` call would deliver.
    pub open spec fn delivers_back(self, hub: Hub) -> bool {
        &&& self.is_live()
        &&& hub.agent_live(self.target as int)
        &&& hub.lnk(self.linker as int).bwd_live()
    }

    /// What one `feedbackward` call answers, given the state of the
    /// graph.
    pub open spec fn feedback_outcome(self, hub: Hub) -> Result<(), OpError> {
        if !self.is_live() {
            Ok(())
        } else if !hub.agent_live(self.target as int) {
            Err(OpError::PeerGone)
        } else if !hub.lnk(self.linker as int).bwd_live() {
            Err(OpError::SendFailed)
        } else {
            Ok(())
        }
    }

    /// A fresh, idle back endpoint accepting from `target` over `linker`.
    pub fn new(target: usize, target_kind: TargetKind, linker: usize) -> (s: PostSynBackJoint)
        ensures
            s.target == target,
            s.target_kind == target_kind,
            s.linker == linker,
            !s.is_live(),
    {
        PostSynBackJoint { target, target_kind, linker, channels: DeviceMode::Idle }
    }

    /// First phase of configuration for the consumer side of the edge.
    pub fn config_mode(&mut self, hub: &mut Hub, mode: RunMode)
        requires
            old(self).wf(*old(hub)),
        ensures
            final(self).target == old(self).target,
            final(self).target_kind == old(self).target_kind,
            final(self).linker == old(self).linker,
            final(hub).n_linkers() == old(hub).n_linkers(),
            final(hub).n_agents() == old(hub).n_agents(),
            final(hub).slots == old(hub).slots,
            forall|j: int| 0 <= j < old(hub).n_linkers() && j != old(self).linker
                ==> final(hub).lnk(j) == old(hub).lnk(j),
            mode is Idle ==> !final(self).is_live()
                && final(hub).lnk(old(self).linker as int).pre_mode is Idle
                && final(hub).lnk(old(self).linker as int).post_mode is Idle
                && !final(hub).lnk(old(self).linker as int).fwd_live()
                && !final(hub).lnk(old(self).linker as int).bwd_live()
                && final(hub).lnk(old(self).linker as int).kind == old(hub).lnk(old(self).linker as int).kind,
            mode.is_running() ==> final(self).channels == old(self).channels
                && final(hub).lnk(old(self).linker as int)
                    == (crate::linker::Linker { post_mode: mode, ..old(hub).lnk(old(self).linker as int) }),
            final(self).wf(*final(hub)),
    {
        match mode {
            RunMode::Idle => {
                self.channels = DeviceMode::Idle;
                let lk = &mut hub.linkers[self.linker];
                lk.config_idle();
            },
            _ => {
                let lk = &mut hub.linkers[self.linker];
                lk.config_post(mode);
            },
        }
    }

    /// Second phase of configuration for the consumer side of the edge.
    pub fn config_channels(&mut self, hub: &mut Hub) -> (r: Result<(), OpError>)
        requires
            old(self).wf(*old(hub)),
        ensures
            final(self).target == old(self).target,
            final(self).target_kind == old(self).target_kind,
            final(self).linker == old(self).linker,
            final(hub).n_linkers() == old(hub).n_linkers(),
            final(hub).slots == old(hub).slots,
            forall|j: int| 0 <= j < old(hub).n_linkers() && j != old(self).linker
                ==> final(hub).lnk(j) == old(hub).lnk(j),
            old(hub).lnk(old(self).linker as int).post_mode is Idle
                ==> r == Err::<(), OpError>(OpError::NotConfigured)
                && !final(self).is_live()
                && *final(hub) == *old(hub),
            old(hub).lnk(old(self).linker as int).post_mode.is_running()
                ==> r is Ok
                && final(self).is_live()
                && final(hub).lnk(old(self).linker as int).materialized_from(old(hub).lnk(old(self).linker as int)),
            final(self).wf(*final(hub)),
    {
        if matches!(hub.linkers[self.linker].post_mode, RunMode::Idle) {
            self.channels = DeviceMode::Idle;
            return Err(OpError::NotConfigured);
        }
        let lk = &mut hub.linkers[self.linker];
        let r = lk.make_post();
        self.channels = DeviceMode::Feedforward(ChsTwoWay { ch_ffw: self.linker });
        r
    }

    /// Drains every payload the pre-synaptic side has queued on this
    /// edge, in send order; `None` while idle.
    pub fn ffw_accepted_iter(&self, hub: &mut Hub) -> (r: Option<Vec<Frame>>)
        requires
            self.wf(*old(hub)),
        ensures
            !self.is_live() ==> r is None && *final(hub) == *old(hub),
            self.is_live() ==> (r matches Some(v)
                && v@ == old(hub).lnk(self.linker as int).fwd_q())
                && final(hub).slots == old(hub).slots
                && final(hub).n_linkers() == old(hub).n_linkers()
                && (forall|j: int| 0 <= j < old(hub).n_linkers() && j != self.linker
                    ==> final(hub).lnk(j) == old(hub).lnk(j))
                && final(hub).lnk(self.linker as int).fwd_q() == Seq::<Frame>::empty()
                && final(hub).lnk(self.linker as int).kind == old(hub).lnk(self.linker as int).kind
                && final(hub).lnk(self.linker as int).pre_mode == old(hub).lnk(self.linker as int).pre_mode
                && final(hub).lnk(self.linker as int).post_mode == old(hub).lnk(self.linker as int).post_mode
                && final(hub).lnk(self.linker as int).bwd == old(hub).lnk(self.linker as int).bwd,
    {
        match &self.channels {
            DeviceMode::Idle => None,
            DeviceMode::Feedforward(chs) => {
                let lk = &mut hub.linkers[chs.ch_ffw];
                Some(lk.fwd_take())
            },
        }
    }

    /// What `running_target` answers, given the state of the graph.
    pub open spec fn running_outcome(self, hub: Hub) -> Result<Option<RunningSet>, OpError> {
        if !self.is_live() || self.target_kind is Active {
            Ok(None)
        } else if hub.agent_live(self.target as int) {
            Ok(Some(RunningSet { target: self.target }))
        } else {
            Err(OpError::PeerGone)
        }
    }

    /// The scheduler handle for this edge when its pre-synaptic generator
    /// is passive: that generator must be confirmed and awaited this
    /// generation; an explicit `PeerGone` when it was torn down.
    pub fn running_target(&self, hub: &Hub) -> (r: Result<Option<RunningSet>, OpError>)
        ensures
            r == self.running_outcome(*hub),
    {
        if matches!(self.target_kind, TargetKind::Active) {
            return Ok(None);
        }
        match &self.channels {
            DeviceMode::Idle => Ok(None),
            DeviceMode::Feedforward(_) => {
                if hub.is_alive(self.target) {
                    Ok(Some(RunningSet { target: self.target }))
                } else {
                    Err(OpError::PeerGone)
                }
            },
        }
    }

    /// Best-effort, non-blocking send of one plasticity signal backward
    /// to the pre-synaptic side of the edge.
    pub fn feedbackward(&self, hub: &mut Hub, s: Frame) -> (r: Result<(), OpError>)
        requires
            self.wf(*old(hub)),
        ensures
            r == self.feedback_outcome(*old(hub)),
            !self.delivers_back(*old(hub)) ==> *final(hub) == *old(hub),
            self.delivers_back(*old(hub)) ==> final(hub).slots == old(hub).slots
                && final(hub).n_linkers() == old(hub).n_linkers()
                && (forall|j: int| 0 <= j < old(hub).n_linkers() && j != self.linker
                    ==> final(hub).lnk(j) == old(hub).lnk(j))
                && final(hub).lnk(self.linker as int).bwd_q()
                    == old(hub).lnk(self.linker as int).bwd_q().push(s)
                && final(hub).lnk(self.linker as int).bwd_live()
                && final(hub).lnk(self.linker as int).kind == old(hub).lnk(self.linker as int).kind
                && final(hub).lnk(self.linker as int).pre_mode == old(hub).lnk(self.linker as int).pre_mode
                && final(hub).lnk(self.linker as int).post_mode == old(hub).lnk(self.linker as int).post_mode
                && final(hub).lnk(self.linker as int).fwd == old(hub).lnk(self.linker as int).fwd,
    {
        match &self.channels {
            DeviceMode::Idle => Ok(()),
            DeviceMode::Feedforward(chs) => {
                if !hub.is_alive(self.target) {
                    return Err(OpError::PeerGone);
                }
                if matches!(hub.linkers[chs.ch_ffw].bwd, DeviceMode::Idle) {
                    return Err(OpError::SendFailed);
                }
                let lk = &mut hub.linkers[chs.ch_ffw];
                lk.bwd_push(s)
            },
        }
    }
}

} // verus!
