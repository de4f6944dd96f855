//! Core runtime of a self-healing, redundantly replicated node: functional
//! domains run as several replicas, and decisions that affect them are taken
//! by a vote among those replicas.
use vstd::prelude::*;

pub mod communication;
pub mod config;
pub mod consensus;
pub mod metrics;
pub mod nano_cores;
pub mod security;
pub mod text;

verus! {

/// Version of the library.
pub const VERSION: &'static str = "0.1.0";

/// Name, version and package of the library.
pub const BUILD_INFO: &'static str = "SAAI Core v0.1.0 (saai-core)";

} // verus!
