//! Orchestration core of a multi-chain event scraper.
//!
//! For every configured chain the agent keeps three event streams (message
//! dispatch, message delivery, gas payment) and one metrics reporter running.
//! This crate holds the decisions of that agent as verified code over plain
//! values: where a stream resumes after a restart, which tasks exist for
//! which chain and how they are labelled, in which order the start-up
//! proceeds, and what the exit of one task means for the whole group.
//! Everything that touches a chain, a database or a scheduler is left to the
//! caller, which performs one [`model::Action`] at a time and reports what
//! happened as an [`model::Event`].

pub mod cursor;
pub mod settings;
pub mod task;
pub mod group;
pub mod model;
pub mod laws;
pub mod agent;
