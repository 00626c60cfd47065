//! Errors raised when a configuration is built.

use vstd::prelude::*;

verus! {

/// The one way in which a configuration can be refused. It is raised when a
/// configuration is built, never while frames run.
#[derive(Clone, Copy, Debug, PartialEq, Eq)]
pub enum ConfigError {
    /// A value lies outside the range in which it has a meaning.
    InvalidConfig,
}

} // verus!
