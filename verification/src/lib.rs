//! Coordination core of an endpoint-protection scan daemon.
//!
//! A single background daemon owns a set of configured plugin locations,
//! runs fingerprint scans over them, and publishes immutable snapshots of
//! the outcome.  A response collector gives synchronous callers
//! non-blocking access to the latest published snapshot and lets them
//! trigger a fresh scan without waiting for it.  The modules here hold the
//! protocol types, the daemon and collector state machines, and a
//! single-process model of the two channels that connect them.

pub mod collector;
pub mod daemon;
pub mod protocol;
pub mod system;
