//! Configuration errors, reported to the caller of the offending command.
use vstd::prelude::*;

verus! {

/// A configuration that the simulation refuses.
#[derive(Debug, Clone, Copy, PartialEq, Eq, Structural)]
pub enum ConfigError {
    /// A standard deviation of zero: the target density is undefined.
    NonPositiveStdDev,
    /// An ensemble without particles.
    EmptyEnsemble,
}

} // verus!
