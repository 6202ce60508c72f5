//! Run modes, per-endpoint channel state, control payloads and the error
//! taxonomy shared by every wireable endpoint of the kernel.

use vstd::prelude::*;

verus! {

/// The lifecycle state shared by every wireable endpoint: either idle
/// (unconfigured; channel operations are no-ops) or one of the running
/// variants.
#[derive(Clone, Copy, Debug, PartialEq, Eq, Structural)]
pub enum RunMode {
    Idle,
    ForwardStepping,
    ForwardRealTime,
}

impl RunMode {
    /// A mode under which channels may be materialized.
    pub open spec fn is_running(self) -> bool {
        self !is Idle
    }
}

/// Per-endpoint channel state: `Idle` (no channel; sends are no-ops and
/// receives yield nothing) or `Feedforward` holding the materialized
/// channel handle.
pub enum DeviceMode<T> {
    Idle,
    Feedforward(T),
}

impl<T> DeviceMode<T> {
    /// Whether a channel handle has been materialized.
    pub open spec fn is_live(self) -> bool {
        self is Feedforward
    }
}

/// Content-free wake-up signal used to confirm a passive agent.
#[derive(Clone, Copy, Debug, PartialEq, Eq, Structural)]
pub struct Broadcast;

/// Two-valued report signaling whether a spiking agent crossed its
/// threshold this generation.
#[derive(Clone, Copy, Debug, PartialEq, Eq, Structural)]
pub enum Fired {
    Y,
    N,
}

/// Handle handed to a scheduler for a configured edge towards a passive
/// target: the named agent must be confirmed and awaited this generation.
#[derive(Clone, Copy, Debug, PartialEq, Eq, Structural)]
pub struct RunningSet {
    pub target: usize,
}

/// Whether the remote agent of an edge is driven by an external clock
/// (active) or woken by a confirm signal (passive). The scheduler polls
/// an active target directly; a passive target must be confirmed and
/// awaited.
#[derive(Clone, Copy, Debug, PartialEq, Eq, Structural)]
pub enum TargetKind {
    Active,
    Passive,
}

/// Error taxonomy of the kernel.
///
/// `InconsistentMode` and `NotConfigured` are fatal to the operation that
/// raises them and are surfaced to the caller; `PeerGone` and `SendFailed`
/// concern a single severed edge and are absorbed locally by fan
/// collections so the rest of the graph keeps functioning.
#[derive(Clone, Copy, Debug, PartialEq, Eq, Structural)]
pub enum OpError {
    /// Sub-components of a composite agent report different run modes.
    InconsistentMode,
    /// A channel operation was attempted before the two-phase
    /// configuration protocol (`config_mode`, then `config_channels`)
    /// completed.
    NotConfigured,
    /// The remote agent of an edge is no longer reachable.
    PeerGone,
    /// A best-effort send on one edge failed because its channel was
    /// already torn down.
    SendFailed,
}

} // verus!
