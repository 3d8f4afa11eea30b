//! The error of the start-up routine.

use vstd::prelude::*;
use vstd::string::StringExecFns;

verus! {

/// Why start-up could not go on: what failed, and what the failing part
/// said about it, if it said anything.
#[derive(Debug, Clone, PartialEq, Eq)]
pub struct ConfigError {
    pub cause: String,
    pub source: Option<String>,
}

impl ConfigError {
    /// An error with the given cause and source.
    pub fn new(cause: &str, source: Option<String>) -> (error: Self)
        ensures
            error.cause@ == cause@,
            error.source == source,
    {
        ConfigError { cause: String::from_str(cause), source }
    }
}

} // verus!
