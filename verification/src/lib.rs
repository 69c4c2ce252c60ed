//! Supervisor for a locally run backend server process.
//!
//! The library holds the decision logic of the supervisor: whether a process
//! must be started, which launch strategy to use, how long to poll for
//! readiness, and when a shutdown may terminate the process. The host
//! application performs the probes, spawns and sleeps that the supervisor
//! requests, and reports each result back as an event.

use vstd::prelude::*;

pub mod dirs;
pub mod health;
pub mod laws;
pub mod strategy;
pub mod supervisor;

verus! {

} // verus!
