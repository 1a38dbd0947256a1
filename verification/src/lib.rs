//! The execution core of a job-processing service.
//!
//! Requests arrive from an upstream store, each is routed to the runner that
//! its variant names, and one response per request travels back. This crate
//! holds the decisions of that dispatch loop as a verified state machine:
//! the host performs each [`dispatch::Action`] on its channels, clock and
//! threads, and hands the outcome back as an [`dispatch::Event`].

pub mod protocol;
pub mod runner;
pub mod pace;
pub mod dispatch;
pub mod ledger;
