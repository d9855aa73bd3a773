//! Session, quota and dispatch core of a repository-automation agent.
//!
//! Sessions are time-boxed and tiered; each tier caps the number of
//! operations and of distinct repositories.  Operations are queued in a
//! bounded FIFO, outcomes are kept in a bounded metric log.

pub mod agent;
pub mod clock;
pub mod config;
pub mod error;
pub mod github;
pub mod metrics;
pub mod performance;
pub mod policy;
pub mod queue;
pub mod security;
pub mod session;
pub mod store;
