//! Supervision of one long-running backend service: the process record,
//! health-probe bookkeeping, and the start / stop / restart decisions.
//!
//! Everything here is pure state and decision logic. Spawning processes,
//! sending signals, issuing HTTP requests and sleeping belong to the
//! program that embeds this library; it performs the action a decision
//! names and hands the outcome back.

mod text;
pub mod probe;
pub mod record;
pub mod error;
pub mod launch;
pub mod supervisor;
pub mod laws;
pub mod report;
pub mod webhook;
pub mod tray;
