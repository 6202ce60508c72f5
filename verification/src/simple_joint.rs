//! One-way edge endpoints.
//!
//! An `OutSet` is the producer side of one edge: the handle of the remote
//! agent, the handle of the shared linker, and the per-endpoint channel
//! state. An `InSet` is the consumer side. Neither owns the remote agent;
//! an edge whose remote agent is gone fails explicitly instead of
//! panicking.

use vstd::prelude::*;
use crate::fifo::Frame;
use crate::hub::Hub;
use crate::operation::DeviceMode;
use crate::operation::OpError;
use crate::operation::RunMode;
use crate::operation::RunningSet;
use crate::operation::TargetKind;

verus! {

/// The materialized send handle of a one-way edge: the linker whose
/// feedforward channel carries the payload.
pub struct ChsOutFWD {
    pub ch_ffw: usize,
}

/// The materialized receive handle of a one-way edge.
pub struct ChsInFWD {
    pub ch_ffw: usize,
}

/// Producer endpoint of one one-way edge.
pub struct OutSet {
    pub target: usize,
    pub target_kind: TargetKind,
    pub linker: usize,
    pub channels: DeviceMode<ChsOutFWD>,
}

impl OutSet {
    /// The endpoint refers to a linker the hub owns, and a materialized
    /// handle names that same linker.
    pub open spec fn wf(self, hub: Hub) -> bool {
        &&& self.linker < hub.n_linkers()
        &&& (self.channels matches DeviceMode::Feedforward(c) ==> c.ch_ffw == self.linker)
    }

    /// Whether this endpoint holds a materialized send handle.
    pub open spec fn is_live(self) -> bool {
        self.channels is Feedforward
    }

    /// Whether a `feedforward` call would deliver: the endpoint is
    /// configured, the remote agent is reachable, and the shared channel
    /// is still up.
    pub open spec fn delivers(self, hub: Hub) -> bool {
        &&& self.is_live()
        &&& hub.agent_live(self.target as int)
        &&& hub.lnk(self.linker as int).fwd_live()
    }

    /// What one `feedforward` call answers, given the state of the graph.
    pub open spec fn feed_outcome(self, hub: Hub) -> Result<(), OpError> {
        if !self.is_live() {
            Ok(())
        } else if !hub.agent_live(self.target as int) {
            Err(OpError::PeerGone)
        } else if !hub.lnk(self.linker as int).fwd_live() {
            Err(OpError::SendFailed)
        } else {
            Ok(())
        }
    }

    /// A fresh, idle endpoint for a declared edge towards `target` over
    /// `linker`.
    pub fn new(target: usize, target_kind: TargetKind, linker: usize) -> (s: OutSet)
        ensures
            s.target == target,
            s.target_kind == target_kind,
            s.linker == linker,
            !s.is_live(),
    {
        OutSet { target, target_kind, linker, channels: DeviceMode::Idle }
    }

    /// First phase of configuration. `Idle` tears down this endpoint's
    /// handle and resets the shared linker at once; a running mode only
    /// records the wish on the linker, creating no channel yet.
    pub fn config_mode(&mut self, hub: &mut Hub, mode: RunMode)
        requires
            old(self).wf(*old(hub)),
        ensures
            final(self).target == old(self).target,
            final(self).target_kind == old(self).target_kind,
            final(self).linker == old(self).linker,
            final(hub).n_linkers() == old(hub).n_linkers(),
            final(hub).n_agents() == old(hub).n_agents(),
            final(hub).slots == old(hub).slots,
            forall|j: int| 0 <= j < old(hub).n_linkers() && j != old(self).linker
                ==> final(hub).lnk(j) == old(hub).lnk(j),
            mode is Idle ==> !final(self).is_live()
                && final(hub).lnk(old(self).linker as int).pre_mode is Idle
                && final(hub).lnk(old(self).linker as int).post_mode is Idle
                && !final(hub).lnk(old(self).linker as int).fwd_live()
                && !final(hub).lnk(old(self).linker as int).bwd_live()
                && final(hub).lnk(old(self).linker as int).kind == old(hub).lnk(old(self).linker as int).kind,
            mode.is_running() ==> final(self).channels == old(self).channels
                && final(hub).lnk(old(self).linker as int)
                    == (crate::linker::Linker { pre_mode: mode, ..old(hub).lnk(old(self).linker as int) }),
            final(self).wf(*final(hub)),
    {
        match mode {
            RunMode::Idle => {
                self.channels = DeviceMode::Idle;
                let lk = &mut hub.linkers[self.linker];
                lk.config_idle();
            },
            _ => {
                let lk = &mut hub.linkers[self.linker];
                lk.config_pre(mode);
            },
        }
    }

    /// Second phase of configuration: asks the shared linker to
    /// materialize the channel pair and stores the resulting send handle.
    /// Fails with `NotConfigured`, materializing nothing, when
    /// `config_mode` has not run on this edge first.
    pub fn config_channels(&mut self, hub: &mut Hub) -> (r: Result<(), OpError>)
        requires
            old(self).wf(*old(hub)),
        ensures
            final(self).target == old(self).target,
            final(self).target_kind == old(self).target_kind,
            final(self).linker == old(self).linker,
            final(hub).n_linkers() == old(hub).n_linkers(),
            final(hub).slots == old(hub).slots,
            forall|j: int| 0 <= j < old(hub).n_linkers() && j != old(self).linker
                ==> final(hub).lnk(j) == old(hub).lnk(j),
            old(hub).lnk(old(self).linker as int).pre_mode is Idle
                ==> r == Err::<(), OpError>(OpError::NotConfigured)
                && !final(self).is_live()
                && final(hub).lnk(old(self).linker as int) == old(hub).lnk(old(self).linker as int),
            old(hub).lnk(old(self).linker as int).pre_mode.is_running()
                ==> r is Ok
                && final(self).is_live()
                && final(hub).lnk(old(self).linker as int).materialized_from(old(hub).lnk(old(self).linker as int)),
            final(self).wf(*final(hub)),
    {
        if matches!(hub.linkers[self.linker].pre_mode, RunMode::Idle) {
            self.channels = DeviceMode::Idle;
            return Err(OpError::NotConfigured);
        }
        let lk = &mut hub.linkers[self.linker];
        let r = lk.make_pre();
        self.channels = DeviceMode::Feedforward(ChsOutFWD { ch_ffw: self.linker });
        r
    }

    /// Best-effort, non-blocking send of one payload frame down this
    /// edge. On an idle endpoint this is a no-op that touches nothing and
    /// succeeds; a gone peer answers `PeerGone` and a torn-down channel
    /// `SendFailed`, in both cases leaving the graph unchanged; otherwise
    /// the frame is appended, in send order, to the edge's queue.
    pub fn feedforward(&self, hub: &mut Hub, s: Frame) -> (r: Result<(), OpError>)
        requires
            self.wf(*old(hub)),
        ensures
            r == self.feed_outcome(*old(hub)),
            !self.delivers(*old(hub)) ==> *final(hub) == *old(hub),
            self.delivers(*old(hub)) ==> final(hub).slots == old(hub).slots
                && final(hub).n_linkers() == old(hub).n_linkers()
                && (forall|j: int| 0 <= j < old(hub).n_linkers() && j != self.linker
                    ==> final(hub).lnk(j) == old(hub).lnk(j))
                && final(hub).lnk(self.linker as int).fwd_q()
                    == old(hub).lnk(self.linker as int).fwd_q().push(s)
                && final(hub).lnk(self.linker as int).fwd_live()
                && final(hub).lnk(self.linker as int).kind == old(hub).lnk(self.linker as int).kind
                && final(hub).lnk(self.linker as int).pre_mode == old(hub).lnk(self.linker as int).pre_mode
                && final(hub).lnk(self.linker as int).post_mode == old(hub).lnk(self.linker as int).post_mode
                && final(hub).lnk(self.linker as int).bwd == old(hub).lnk(self.linker as int).bwd,
    {
        match &self.channels {
            DeviceMode::Idle => Ok(()),
            DeviceMode::Feedforward(chs) => {
                if !hub.is_alive(self.target) {
                    return Err(OpError::PeerGone);
                }
                if matches!(hub.linkers[chs.ch_ffw].fwd, DeviceMode::Idle) {
                    return Err(OpError::SendFailed);
                }
                let lk = &mut hub.linkers[chs.ch_ffw];
                lk.fwd_push(s)
            },
        }
    }

    /// What `running_target` answers, given the state of the graph.
    pub open spec fn running_outcome(self, hub: Hub) -> Result<Option<RunningSet>, OpError> {
        if !self.is_live() || self.target_kind is Active {
            Ok(None)
        } else if hub.agent_live(self.target as int) {
            Ok(Some(RunningSet { target: self.target }))
        } else {
            Err(OpError::PeerGone)
        }
    }

    /// The scheduler handle for this edge when it leads to a passive
    /// target: `None` while idle (nothing to confirm) or towards an
    /// active target (polled directly by the driver), the target's handle
    /// while configured and reachable, and an explicit `PeerGone` when
    /// the edge is configured towards a passive target that was torn
    /// down.
    pub fn running_target(&self, hub: &Hub) -> (r: Result<Option<RunningSet>, OpError>)
        ensures
            r == self.running_outcome(*hub),
    {
        if matches!(self.target_kind, TargetKind::Active) {
            return Ok(None);
        }
        match &self.channels {
            DeviceMode::Idle => Ok(None),
            DeviceMode::Feedforward(_) => {
                if hub.is_alive(self.target) {
                    Ok(Some(RunningSet { target: self.target }))
                } else {
                    Err(OpError::PeerGone)
                }
            },
        }
    }
}

/// Idle no-op: an edge in idle mode never delivers and its send outcome
/// is success, whatever the state of the graph; since such a send leaves
/// the graph untouched, repeating it any number of times is a no-op.
pub proof fn lemma_idle_edge_noop(os: OutSet, hub: Hub)
    requires
        !os.is_live(),
    ensures
        os.feed_outcome(hub) == Ok::<(), OpError>(()),
        !os.delivers(hub),
{
}

/// Consumer endpoint of one one-way edge.
pub struct InSet {
    pub target: usize,
    pub linker: usize,
    pub channels: DeviceMode<ChsInFWD>,
}

impl InSet {
    /// The endpoint refers to a linker the hub owns, and a materialized
    /// handle names that same linker.
    pub open spec fn wf(self, hub: Hub) -> bool {
        &&& self.linker < hub.n_linkers()
        &&& (self.channels matches DeviceMode::Feedforward(c) ==> c.ch_ffw == self.linker)
    }

    /// Whether this endpoint holds a materialized receive handle.
    pub open spec fn is_live(self) -> bool {
        self.channels is Feedforward
    }

    /// A fresh, idle endpoint accepting from `target` over `linker`.
    pub fn new(target: usize, linker: usize) -> (s: InSet)
        ensures
            s.target == target,
            s.linker == linker,
            !s.is_live(),
    {
        InSet { target, linker, channels: DeviceMode::Idle }
    }

    /// First phase of configuration for the consumer side; the mirror of
    /// `OutSet::config_mode`.
    pub fn config_mode(&mut self, hub: &mut Hub, mode: RunMode)
        requires
            old(self).wf(*old(hub)),
        ensures
            final(self).target == old(self).target,
            final(self).linker == old(self).linker,
            final(hub).n_linkers() == old(hub).n_linkers(),
            final(hub).n_agents() == old(hub).n_agents(),
            final(hub).slots == old(hub).slots,
            forall|j: int| 0 <= j < old(hub).n_linkers() && j != old(self).linker
                ==> final(hub).lnk(j) == old(hub).lnk(j),
            mode is Idle ==> !final(self).is_live()
                && final(hub).lnk(old(self).linker as int).pre_mode is Idle
                && final(hub).lnk(old(self).linker as int).post_mode is Idle
                && !final(hub).lnk(old(self).linker as int).fwd_live()
                && !final(hub).lnk(old(self).linker as int).bwd_live()
                && final(hub).lnk(old(self).linker as int).kind == old(hub).lnk(old(self).linker as int).kind,
            mode.is_running() ==> final(self).channels == old(self).channels
                && final(hub).lnk(old(self).linker as int)
                    == (crate::linker::Linker { post_mode: mode, ..old(hub).lnk(old(self).linker as int) }),
            final(self).wf(*final(hub)),
    {
        match mode {
            RunMode::Idle => {
                self.channels = DeviceMode::Idle;
                let lk = &mut hub.linkers[self.linker];
                lk.config_idle();
            },
            _ => {
                let lk = &mut hub.linkers[self.linker];
                lk.config_post(mode);
            },
        }
    }

    /// Second phase of configuration for the consumer side: materializes
    /// the channel pair and stores the receive handle, or fails with
    /// `NotConfigured` when this edge was never mode-configured.
    pub fn config_channels(&mut self, hub: &mut Hub) -> (r: Result<(), OpError>)
        requires
            old(self).wf(*old(hub)),
        ensures
            final(self).target == old(self).target,
            final(self).linker == old(self).linker,
            final(hub).n_linkers() == old(hub).n_linkers(),
            final(hub).slots == old(hub).slots,
            forall|j: int| 0 <= j < old(hub).n_linkers() && j != old(self).linker
                ==> final(hub).lnk(j) == old(hub).lnk(j),
            old(hub).lnk(old(self).linker as int).post_mode is Idle
                ==> r == Err::<(), OpError>(OpError::NotConfigured)
                && !final(self).is_live()
                && final(hub).lnk(old(self).linker as int) == old(hub).lnk(old(self).linker as int),
            old(hub).lnk(old(self).linker as int).post_mode.is_running()
                ==> r is Ok
                && final(self).is_live()
                && final(hub).lnk(old(self).linker as int).materialized_from(old(hub).lnk(old(self).linker as int)),
            final(self).wf(*final(hub)),
    {
        if matches!(hub.linkers[self.linker].post_mode, RunMode::Idle) {
            self.channels = DeviceMode::Idle;
            return Err(OpError::NotConfigured);
        }
        let lk = &mut hub.linkers[self.linker];
        let r = lk.make_post();
        self.channels = DeviceMode::Feedforward(ChsInFWD { ch_ffw: self.linker });
        r
    }

    /// Non-blocking, exhausting drain of everything currently queued on
    /// this edge, in send order; an empty batch only means nothing
    /// arrived since the last drain. Yields `None`, touching nothing,
    /// while the endpoint is idle.
    pub fn ffw_accepted_iter(&self, hub: &mut Hub) -> (r: Option<Vec<Frame>>)
        requires
            self.wf(*old(hub)),
        ensures
            !self.is_live() ==> r is None && *final(hub) == *old(hub),
            self.is_live() ==> (r matches Some(v)
                && v@ == old(hub).lnk(self.linker as int).fwd_q())
                && final(hub).slots == old(hub).slots
                && final(hub).n_linkers() == old(hub).n_linkers()
                && (forall|j: int| 0 <= j < old(hub).n_linkers() && j != self.linker
                    ==> final(hub).lnk(j) == old(hub).lnk(j))
                && final(hub).lnk(self.linker as int).fwd_q() == Seq::<Frame>::empty()
                && (final(hub).lnk(self.linker as int).fwd_live()
                    <==> old(hub).lnk(self.linker as int).fwd_live())
                && final(hub).lnk(self.linker as int).kind == old(hub).lnk(self.linker as int).kind
                && final(hub).lnk(self.linker as int).pre_mode == old(hub).lnk(self.linker as int).pre_mode
                && final(hub).lnk(self.linker as int).post_mode == old(hub).lnk(self.linker as int).post_mode
                && final(hub).lnk(self.linker as int).bwd == old(hub).lnk(self.linker as int).bwd,
    {
        match &self.channels {
            DeviceMode::Idle => None,
            DeviceMode::Feedforward(chs) => {
                let lk = &mut hub.linkers[chs.ch_ffw];
                Some(lk.fwd_take())
            },
        }
    }
}

} // verus!
