//! Log-lifecycle utilities: a path resolver for the log directory, a model of
//! a dual-sink logger with a live severity threshold, a retention cleaner that
//! removes files older than a configured age, and the decision logic of a
//! cron-driven cleanup schedule — paired with string-encryption helpers and
//! contract-checked unwrap helpers.

use vstd::prelude::*;

pub mod cleaner;
pub mod config;
pub mod crypto;
pub mod errors;
pub mod logger;
pub mod prelude;

verus! {

/// Matches any log target.
pub const ANY: &'static str = "any";

} // verus!
