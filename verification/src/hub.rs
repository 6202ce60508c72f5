//! Ownership and identity of the agent graph.
//!
//! Agents and linkers are kept in one arena and referred to by integer
//! handles, never by pointers, so the mutually-referencing graph of
//! agents and edges cannot form an ownership cycle, and "peer gone" is a
//! plain liveness check against the arena. The hub also owns each agent's
//! control-plane channels: the content-free confirm channel that wakes a
//! passive agent, and the report channel on which an agent answers before
//! the driver treats a generation as complete.

use vstd::prelude::*;
use crate::fifo::FifoCell;
use crate::fifo::Frame;
use crate::fifo::fifo_new;
use crate::fifo::fifo_queue;
use crate::fifo::fifo_send;
use crate::fifo::fifo_try_recv;
use crate::linker::EdgeKind;
use crate::linker::Linker;
use crate::operation::Fired;
use crate::operation::OpError;

verus! {

/// The control-plane state of one registered agent: whether it is still
/// reachable, and its confirm/report channel pair.
pub struct AgentSlot {
    pub alive: bool,
    pub confirm: FifoCell,
    pub report: FifoCell,
}

/// The frame that carries a content-free confirm signal.
pub open spec fn broadcast_frame() -> Frame {
    (0, 0, 0)
}

/// The frame that carries a report.
pub open spec fn fired_frame(f: Fired) -> Frame {
    match f {
        Fired::Y => (1, 0, 0),
        Fired::N => (0, 0, 0),
    }
}

/// The report a frame decodes to.
pub open spec fn frame_fired(fr: Frame) -> Fired {
    if fr.0 == 1 {
        Fired::Y
    } else {
        Fired::N
    }
}

/// The arena owning every agent slot and every linker of one wired graph.
pub struct Hub {
    pub slots: Vec<AgentSlot>,
    pub linkers: Vec<Linker>,
}

impl Hub {
    /// Number of agent handles ever issued.
    pub open spec fn n_agents(self) -> int {
        self.slots@.len() as int
    }

    /// Number of linker handles ever issued.
    pub open spec fn n_linkers(self) -> int {
        self.linkers@.len() as int
    }

    /// Whether an agent handle refers to a still-reachable agent.
    pub open spec fn agent_live(self, id: int) -> bool {
        0 <= id < self.n_agents() && self.slots@[id].alive
    }

    /// The linker behind a handle.
    pub open spec fn lnk(self, lid: int) -> Linker {
        self.linkers@[lid]
    }

    /// Confirm signals queued for an agent, oldest first.
    pub open spec fn confirm_q(self, id: int) -> Seq<Frame> {
        fifo_queue(self.slots@[id].confirm)
    }

    /// Reports queued by an agent, oldest first.
    pub open spec fn report_q(self, id: int) -> Seq<Frame> {
        fifo_queue(self.slots@[id].report)
    }

    /// An empty arena: no agents, no linkers.
    pub fn new() -> (hub: Hub)
        ensures
            hub.n_agents() == 0,
            hub.n_linkers() == 0,
    {
        Hub { slots: Vec::new(), linkers: Vec::new() }
    }

    /// Issues a fresh agent handle with empty control channels.
    pub fn register_agent(&mut self) -> (id: usize)
        ensures
            id == old(self).n_agents(),
            final(self).n_agents() == old(self).n_agents() + 1,
            final(self).agent_live(id as int),
            final(self).confirm_q(id as int).len() == 0,
            final(self).report_q(id as int).len() == 0,
            forall|j: int| 0 <= j < old(self).n_agents()
                ==> final(self).slots@[j] == old(self).slots@[j],
            final(self).linkers == old(self).linkers,
    {
        let id = self.slots.len();
        let slot = AgentSlot { alive: true, confirm: fifo_new(), report: fifo_new() };
        self.slots.push(slot);
        id
    }

    /// Marks an agent as gone. Operations that later try to reach it
    /// resolve to `PeerGone` instead of panicking.
    pub fn retire(&mut self, id: usize)
        ensures
            final(self).n_agents() == old(self).n_agents(),
            id < old(self).n_agents() ==> !final(self).agent_live(id as int)
                && final(self).slots@[id as int].confirm == old(self).slots@[id as int].confirm
                && final(self).slots@[id as int].report == old(self).slots@[id as int].report,
            id >= old(self).n_agents() ==> *final(self) == *old(self),
            forall|j: int| 0 <= j < old(self).n_agents() && j != id
                ==> final(self).slots@[j] == old(self).slots@[j],
            final(self).linkers == old(self).linkers,
    {
        if id < self.slots.len() {
            let slot = &mut self.slots[id];
            slot.alive = false;
        }
    }

    /// Whether an agent handle still resolves to a reachable agent.
    pub fn is_alive(&self, id: usize) -> (r: bool)
        ensures
            r == self.agent_live(id as int),
    {
        id < self.slots.len() && self.slots[id].alive
    }

    /// Sends the content-free confirm signal that wakes a passive agent,
    /// or reports the peer gone without touching anything.
    pub fn send_confirm(&mut self, id: usize) -> (r: Result<(), OpError>)
        ensures
            !old(self).agent_live(id as int) ==> r == Err::<(), OpError>(OpError::PeerGone)
                && *final(self) == *old(self),
            old(self).agent_live(id as int) ==> r is Ok
                && final(self).confirm_q(id as int) == old(self).confirm_q(id as int).push(broadcast_frame())
                && final(self).slots@[id as int].alive
                && final(self).slots@[id as int].report == old(self).slots@[id as int].report,
            final(self).n_agents() == old(self).n_agents(),
            forall|j: int| 0 <= j < old(self).n_agents() && j != id
                ==> final(self).slots@[j] == old(self).slots@[j],
            final(self).linkers == old(self).linkers,
    {
        if !(id < self.slots.len() && self.slots[id].alive) {
            return Err(OpError::PeerGone);
        }
        let slot = &mut self.slots[id];
        fifo_send(&mut slot.confirm, (0, 0, 0));
        Ok(())
    }

    /// Pops one pending confirm signal for an agent, telling it that data
    /// it cares about may now be available; `Ok(false)` means no confirm
    /// was pending.
    pub fn take_confirm(&mut self, id: usize) -> (r: Result<bool, OpError>)
        ensures
            !old(self).agent_live(id as int) ==> r == Err::<bool, OpError>(OpError::PeerGone)
                && *final(self) == *old(self),
            old(self).agent_live(id as int) && old(self).confirm_q(id as int).len() == 0
                ==> r == Ok::<bool, OpError>(false)
                && final(self).confirm_q(id as int) == old(self).confirm_q(id as int)
                && final(self).slots@[id as int].alive
                && final(self).slots@[id as int].report == old(self).slots@[id as int].report,
            old(self).agent_live(id as int) && old(self).confirm_q(id as int).len() > 0
                ==> r == Ok::<bool, OpError>(true)
                && final(self).confirm_q(id as int) == old(self).confirm_q(id as int).drop_first()
                && final(self).slots@[id as int].alive
                && final(self).slots@[id as int].report == old(self).slots@[id as int].report,
            final(self).n_agents() == old(self).n_agents(),
            forall|j: int| 0 <= j < old(self).n_agents() && j != id
                ==> final(self).slots@[j] == old(self).slots@[j],
            final(self).linkers == old(self).linkers,
    {
        if !(id < self.slots.len() && self.slots[id].alive) {
            return Err(OpError::PeerGone);
        }
        let slot = &mut self.slots[id];
        match fifo_try_recv(&mut slot.confirm) {
            Some(_) => Ok(true),
            None => Ok(false),
        }
    }

    /// Queues an agent's report for the driver awaiting it, or reports
    /// the peer gone.
    pub fn send_report(&mut self, id: usize, f: Fired) -> (r: Result<(), OpError>)
        ensures
            !old(self).agent_live(id as int) ==> r == Err::<(), OpError>(OpError::PeerGone)
                && *final(self) == *old(self),
            old(self).agent_live(id as int) ==> r is Ok
                && final(self).report_q(id as int) == old(self).report_q(id as int).push(fired_frame(f))
                && final(self).slots@[id as int].alive
                && final(self).slots@[id as int].confirm == old(self).slots@[id as int].confirm,
            final(self).n_agents() == old(self).n_agents(),
            forall|j: int| 0 <= j < old(self).n_agents() && j != id
                ==> final(self).slots@[j] == old(self).slots@[j],
            final(self).linkers == old(self).linkers,
    {
        if !(id < self.slots.len() && self.slots[id].alive) {
            return Err(OpError::PeerGone);
        }
        let frame: Frame = match f {
            Fired::Y => (1, 0, 0),
            Fired::N => (0, 0, 0),
        };
        let slot = &mut self.slots[id];
        fifo_send(&mut slot.report, frame);
        Ok(())
    }

    /// Pops the oldest report an agent has queued; `Ok(None)` means no
    /// report has arrived yet. A disconnected peer resolves to an explicit
    /// `PeerGone`, never to an endless wait.
    pub fn take_report(&mut self, id: usize) -> (r: Result<Option<Fired>, OpError>)
        ensures
            !old(self).agent_live(id as int) ==> r == Err::<Option<Fired>, OpError>(OpError::PeerGone)
                && *final(self) == *old(self),
            old(self).agent_live(id as int) && old(self).report_q(id as int).len() == 0
                ==> r == Ok::<Option<Fired>, OpError>(None)
                && final(self).report_q(id as int) == old(self).report_q(id as int)
                && final(self).slots@[id as int].alive
                && final(self).slots@[id as int].confirm == old(self).slots@[id as int].confirm,
            old(self).agent_live(id as int) && old(self).report_q(id as int).len() > 0
                ==> r == Ok::<Option<Fired>, OpError>(Some(frame_fired(old(self).report_q(id as int)[0])))
                && final(self).report_q(id as int) == old(self).report_q(id as int).drop_first()
                && final(self).slots@[id as int].alive
                && final(self).slots@[id as int].confirm == old(self).slots@[id as int].confirm,
            final(self).n_agents() == old(self).n_agents(),
            forall|j: int| 0 <= j < old(self).n_agents() && j != id
                ==> final(self).slots@[j] == old(self).slots@[j],
            final(self).linkers == old(self).linkers,
    {
        if !(id < self.slots.len() && self.slots[id].alive) {
            return Err(OpError::PeerGone);
        }
        let slot = &mut self.slots[id];
        match fifo_try_recv(&mut slot.report) {
            Some(fr) => {
                if fr.0 == 1 {
                    Ok(Some(Fired::Y))
                } else {
                    Ok(Some(Fired::N))
                }
            },
            None => Ok(None),
        }
    }

    /// Issues a fresh linker handle for one declared edge.
    pub fn new_linker(&mut self, kind: EdgeKind) -> (lid: usize)
        ensures
            lid == old(self).n_linkers(),
            final(self).n_linkers() == old(self).n_linkers() + 1,
            final(self).lnk(lid as int).kind == kind,
            final(self).lnk(lid as int).pre_mode is Idle,
            final(self).lnk(lid as int).post_mode is Idle,
            !final(self).lnk(lid as int).fwd_live(),
            !final(self).lnk(lid as int).bwd_live(),
            forall|j: int| 0 <= j < old(self).n_linkers()
                ==> final(self).lnk(j) == old(self).lnk(j),
            final(self).slots == old(self).slots,
    {
        let lid = self.linkers.len();
        self.linkers.push(Linker::new(kind));
        lid
    }
}

} // verus!
