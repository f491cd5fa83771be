//! Verified property-law helpers and a resumable mutation-test run
//! orchestrator.
//!
//! The heart of the crate is the `mutation` module: an event-sourced state
//! machine that records mutation-testing progress as an append-only event
//! log, replays that log into a run snapshot, and decides how to start,
//! resume, or re-test a run.  Around it stand small law modules with
//! reusable assertions for algebraic, collection and state-machine
//! properties; each assertion's precondition states exactly when the check
//! succeeds, so a verified caller cannot make one fail.

pub mod arithmetic;
pub mod chaos;
pub mod collections;
pub mod law;
pub mod mutation;
pub mod numeric;
pub mod stateful;
pub mod temporal;
