//! Policy-decision service core.
//!
//! The library owns the configuration lifecycle of a policy-decision
//! service: an immutable configuration snapshot (service addresses, broker
//! topics, the policy and its query), a store that publishes one snapshot
//! at a time, a debounced reload state machine, and the per-request
//! evaluation pipeline that turns engine output into a decision.

pub mod config;
pub mod engine;
pub mod error;
pub mod identity;
pub mod json;
pub mod loader;
pub mod logging;
pub mod pipeline;
pub mod report;
pub mod secret;
pub mod store;
pub mod types;
pub mod watcher;

pub use json::int_str;
