//! A linker owns the channel state of exactly one logical edge between a
//! generator and an acceptor.
//!
//! Edge cardinality is one-to-one: one producer, one consumer. Fan-out and
//! fan-in across many edges is achieved by a fan collection owning many
//! linkers, never by a linker with many ends. A one-way edge carries only
//! the feedforward channel; a two-way edge adds a feedback channel used by
//! plasticity signals flowing backward from the post- to the pre-synaptic
//! agent.

use vstd::prelude::*;
use crate::fifo::FifoCell;
use crate::fifo::Frame;
use crate::fifo::fifo_drain;
use crate::fifo::fifo_new;
use crate::fifo::fifo_queue;
use crate::fifo::fifo_send;
use crate::operation::DeviceMode;
use crate::operation::OpError;
use crate::operation::RunMode;

verus! {

/// The topology kind of an edge: feedforward only, or with an added
/// feedback channel. A linker is exactly one of the two.
#[derive(Clone, Copy, Debug, PartialEq, Eq, Structural)]
pub enum EdgeKind {
    OneWay,
    TwoWay,
}

/// Channel state of one edge. The recorded modes of the two endpoints
/// decide whether `make_pre`/`make_post` may materialize the channels;
/// idling the linker drops the channels, and with them every undelivered
/// message, immediately.
pub struct Linker {
    pub kind: EdgeKind,
    pub pre_mode: RunMode,
    pub post_mode: RunMode,
    pub fwd: DeviceMode<FifoCell>,
    pub bwd: DeviceMode<FifoCell>,
}

impl Linker {
    /// Whether the feedforward channel is materialized.
    pub open spec fn fwd_live(self) -> bool {
        self.fwd is Feedforward
    }

    /// Whether the feedback channel is materialized.
    pub open spec fn bwd_live(self) -> bool {
        self.bwd is Feedforward
    }

    /// The frames queued on the feedforward channel, oldest first; empty
    /// when no channel is materialized.
    pub open spec fn fwd_q(self) -> Seq<Frame> {
        match self.fwd {
            DeviceMode::Feedforward(c) => fifo_queue(c),
            DeviceMode::Idle => Seq::<Frame>::empty(),
        }
    }

    /// The frames queued on the feedback channel, oldest first.
    pub open spec fn bwd_q(self) -> Seq<Frame> {
        match self.bwd {
            DeviceMode::Feedforward(c) => fifo_queue(c),
            DeviceMode::Idle => Seq::<Frame>::empty(),
        }
    }

    /// A fresh, fully idle linker for one declared edge.
    pub fn new(kind: EdgeKind) -> (l: Linker)
        ensures
            l.kind == kind,
            l.pre_mode is Idle,
            l.post_mode is Idle,
            !l.fwd_live(),
            !l.bwd_live(),
    {
        Linker {
            kind,
            pre_mode: RunMode::Idle,
            post_mode: RunMode::Idle,
            fwd: DeviceMode::Idle,
            bwd: DeviceMode::Idle,
        }
    }

    /// Records the requested running mode for the producer endpoint; no
    /// channel is created yet.
    pub fn config_pre(&mut self, mode: RunMode)
        requires
            mode.is_running(),
        ensures
            *final(self) == (Linker { pre_mode: mode, ..*old(self) }),
    {
        self.pre_mode = mode;
    }

    /// Records the requested running mode for the consumer endpoint; no
    /// channel is created yet.
    pub fn config_post(&mut self, mode: RunMode)
        requires
            mode.is_running(),
        ensures
            *final(self) == (Linker { post_mode: mode, ..*old(self) }),
    {
        self.post_mode = mode;
    }

    /// Hard reset of the edge: both recorded modes go idle and any
    /// materialized channel is dropped at once, discarding every
    /// sent-but-undelivered message. Idling an edge is a reset, not a
    /// drain.
    pub fn config_idle(&mut self)
        ensures
            final(self).kind == old(self).kind,
            final(self).pre_mode is Idle,
            final(self).post_mode is Idle,
            !final(self).fwd_live(),
            !final(self).bwd_live(),
    {
        self.pre_mode = RunMode::Idle;
        self.post_mode = RunMode::Idle;
        self.fwd = DeviceMode::Idle;
        self.bwd = DeviceMode::Idle;
    }

    /// Materializes the channels this edge needs, if the producer endpoint
    /// has been mode-configured; already materialized channels, and the
    /// messages queued on them, are kept. Calling this on an edge whose
    /// mode was never configured fails with `NotConfigured` and changes
    /// nothing.
    pub fn make_pre(&mut self) -> (r: Result<(), OpError>)
        ensures
            old(self).pre_mode is Idle ==> r == Err::<(), OpError>(OpError::NotConfigured)
                && *final(self) == *old(self),
            old(self).pre_mode.is_running() ==> r is Ok && final(self).materialized_from(*old(self)),
    {
        if matches!(self.pre_mode, RunMode::Idle) {
            return Err(OpError::NotConfigured);
        }
        self.materialize();
        Ok(())
    }

    /// Materializes the channels this edge needs, if the consumer endpoint
    /// has been mode-configured; the counterpart of `make_pre`.
    pub fn make_post(&mut self) -> (r: Result<(), OpError>)
        ensures
            old(self).post_mode is Idle ==> r == Err::<(), OpError>(OpError::NotConfigured)
                && *final(self) == *old(self),
            old(self).post_mode.is_running() ==> r is Ok && final(self).materialized_from(*old(self)),
    {
        if matches!(self.post_mode, RunMode::Idle) {
            return Err(OpError::NotConfigured);
        }
        self.materialize();
        Ok(())
    }

    /// How a linker after materialization relates to the linker before:
    /// kind and recorded modes are kept, the feedforward channel is live,
    /// the feedback channel is live exactly on a two-way edge, and any
    /// channel that was already live keeps its queue, while a channel
    /// created now starts empty.
    pub open spec fn materialized_from(self, pre: Linker) -> bool {
        &&& self.kind == pre.kind
        &&& self.pre_mode == pre.pre_mode
        &&& self.post_mode == pre.post_mode
        &&& self.fwd_live()
        &&& (self.bwd_live() <==> pre.kind is TwoWay)
        &&& if pre.fwd_live() {
                self.fwd == pre.fwd
            } else {
                self.fwd_q() == Seq::<Frame>::empty()
            }
        &&& if pre.kind is TwoWay && pre.bwd_live() {
                self.bwd == pre.bwd
            } else {
                self.bwd_q() == Seq::<Frame>::empty()
            }
    }

    /// Creates whatever channels the edge kind asks for and are not yet
    /// there.
    fn materialize(&mut self)
        ensures
            final(self).materialized_from(*old(self)),
    {
        if matches!(self.fwd, DeviceMode::Idle) {
            self.fwd = DeviceMode::Feedforward(fifo_new());
        }
        if matches!(self.kind, EdgeKind::TwoWay) {
            if matches!(self.bwd, DeviceMode::Idle) {
                self.bwd = DeviceMode::Feedforward(fifo_new());
            }
        } else {
            self.bwd = DeviceMode::Idle;
        }
    }

    /// Best-effort send on the feedforward channel: appends the frame at
    /// the tail, or reports `SendFailed` when the channel is not (or no
    /// longer) materialized.
    pub fn fwd_push(&mut self, v: Frame) -> (r: Result<(), OpError>)
        ensures
            !old(self).fwd_live() ==> r == Err::<(), OpError>(OpError::SendFailed)
                && *final(self) == *old(self),
            old(self).fwd_live() ==> r == Ok::<(), OpError>(())
                && final(self).fwd_q() == old(self).fwd_q().push(v)
                && final(self).fwd_live()
                && final(self).kind == old(self).kind
                && final(self).pre_mode == old(self).pre_mode
                && final(self).post_mode == old(self).post_mode
                && final(self).bwd == old(self).bwd,
    {
        match &mut self.fwd {
            DeviceMode::Feedforward(cell) => {
                fifo_send(cell, v);
                Ok(())
            },
            DeviceMode::Idle => Err(OpError::SendFailed),
        }
    }

    /// Best-effort send on the feedback channel.
    pub fn bwd_push(&mut self, v: Frame) -> (r: Result<(), OpError>)
        ensures
            !old(self).bwd_live() ==> r == Err::<(), OpError>(OpError::SendFailed)
                && *final(self) == *old(self),
            old(self).bwd_live() ==> r == Ok::<(), OpError>(())
                && final(self).bwd_q() == old(self).bwd_q().push(v)
                && final(self).bwd_live()
                && final(self).kind == old(self).kind
                && final(self).pre_mode == old(self).pre_mode
                && final(self).post_mode == old(self).post_mode
                && final(self).fwd == old(self).fwd,
    {
        match &mut self.bwd {
            DeviceMode::Feedforward(cell) => {
                fifo_send(cell, v);
                Ok(())
            },
            DeviceMode::Idle => Err(OpError::SendFailed),
        }
    }

    /// Drains the feedforward channel: every queued frame, oldest first;
    /// an unmaterialized channel yields nothing.
    pub fn fwd_take(&mut self) -> (v: Vec<Frame>)
        ensures
            v@ == old(self).fwd_q(),
            final(self).fwd_q() == Seq::<Frame>::empty(),
            final(self).fwd is Feedforward <==> old(self).fwd is Feedforward,
            final(self).kind == old(self).kind,
            final(self).pre_mode == old(self).pre_mode,
            final(self).post_mode == old(self).post_mode,
            final(self).bwd == old(self).bwd,
    {
        match &mut self.fwd {
            DeviceMode::Feedforward(cell) => fifo_drain(cell),
            DeviceMode::Idle => Vec::new(),
        }
    }

    /// Drains the feedback channel.
    pub fn bwd_take(&mut self) -> (v: Vec<Frame>)
        ensures
            v@ == old(self).bwd_q(),
            final(self).bwd_q() == Seq::<Frame>::empty(),
            final(self).bwd is Feedforward <==> old(self).bwd is Feedforward,
            final(self).kind == old(self).kind,
            final(self).pre_mode == old(self).pre_mode,
            final(self).post_mode == old(self).post_mode,
            final(self).fwd == old(self).fwd,
    {
        match &mut self.bwd {
            DeviceMode::Feedforward(cell) => fifo_drain(cell),
            DeviceMode::Idle => Vec::new(),
        }
    }
}

} // verus!
