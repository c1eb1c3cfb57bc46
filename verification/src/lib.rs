//! Edge-resident policy enforcement library.
//!
//! Evaluates access decisions by running untrusted, hot-swappable bytecode
//! policy modules inside a fuel-bounded sandbox, and keeps an atomically
//! replaceable registry of the active module.

pub mod error;
pub mod guest_policy;
pub mod metrics;
pub mod pattern;
pub mod policy_runtime;
pub mod registry;
pub mod service;
pub mod shared;
pub mod version;
pub mod watcher;
