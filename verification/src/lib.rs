//! Supervised execution of external commands.
//!
//! The library covers the logic of running one long-lived external tool
//! without losing its output: building an immutable command
//! specification, modelling the shared line log that two concurrent
//! stream tees append to, driving a polling timeout supervisor as a
//! state machine, classifying the terminal state into a single
//! structured outcome, and planning idempotent setup steps
//! (clone-or-update, build-if-absent, batched configuration toggles).
//!
//! All I/O — spawning the process, reading its pipes, writing the log
//! files, running git or a build — lives outside this crate. Callers
//! feed the events they observe (lines read, liveness polls, spawn
//! results) into the verified functions here and perform the actions
//! those functions decide on.

pub mod command;
pub mod outcome;
pub mod sink;
pub mod setup;
pub mod supervisor;
