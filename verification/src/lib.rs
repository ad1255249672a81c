//! Verified core of a structured concurrent task orchestrator.
//!
//! The orchestration rules — how racing branches are selected, how a
//! single-use signal channel hands one value from a producer to a consumer,
//! how a bounded timeout budget limits retry signalling, and in which order
//! the coordinator sequences its steps — are modelled and proved here as
//! state machines over plain values. The asynchronous runtime that drives
//! them lives outside the library and feeds events into these machines.

pub mod channel;
pub mod coordinator;
pub mod leaf;
pub mod race;
pub mod retry;
pub mod runner;
