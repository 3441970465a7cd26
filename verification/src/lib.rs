//! Sharded dependency updates for a fleet of repositories.
//!
//! The crate holds the decisions of one fleet sweep: which page of the
//! hosting service's listing to ask for next and when the listing is
//! complete, in which order the repositories are handed out, when the work
//! queue is closed, and what a worker does with each thing that happens to
//! it. Network calls, the queue itself, the job runner and the clock are the
//! caller's: every type here is driven by handing it what happened and doing
//! what it answers.
//!
//! `sweep` composes the parts with a bounded queue into a model of the whole
//! run and proves that every repository is handed to the job runner exactly
//! once and that every schedule ends with all workers done.

pub mod distributor;
pub mod fetch;
pub mod job;
pub mod listing;
pub mod repo;
pub mod settings;
pub mod sweep;
pub mod sweep_proofs;
pub mod worker;

