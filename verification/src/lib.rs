//! Agent-synchronization and connectivity kernel for discrete-time networks
//! of interacting computational agents.
//!
//! Heterogeneous agents (clock-driven "active" agents and event-driven
//! "passive" agents) are wired together over explicit channels, switched
//! between an idle and a running state by a two-phase configuration
//! protocol, and kept in lockstep across simulation generations by a
//! confirm/respond/report barrier.

pub mod all_to_all;
pub mod components;
pub mod fifo;
pub mod hub;
pub mod lif;
pub mod linear;
pub mod linker;
pub mod neuron_t;
pub mod operation;
pub mod post_syn_component;
pub mod post_syn_joint;
pub mod protocol;
pub mod signals;
pub mod simple_joint;
pub mod simple_passive_population;
pub mod sink_t;
pub mod supervisor;
pub mod synapse_component;
pub mod synapse_dirac_v;
