//! A sidecar process supervisor: the decision core of a desktop shell that
//! launches, monitors and tears down a long-lived local backend process.
//!
//! The library holds everything that can be stated and proved: the process
//! registry with its at-most-one-live-instance invariant, the lifecycle
//! coordinator's launch/probe/retry state machine, the shutdown negotiation
//! protocol, port scanning, probe budgeting, and the text the supervisor
//! reports (ready URLs, log lines). The surrounding shell performs the actual
//! spawning, TCP probing and killing, and feeds the outcomes back in as
//! events.

pub mod coordinator;
pub mod diag;
pub mod launcher;
pub mod ports;
pub mod probe;
pub mod registry;
pub mod shutdown;
pub mod state;
pub mod text;
