//! Errors of the shim builder.
use vstd::prelude::*;
use widestring::error::ContainsNul;

verus! {

/// Error of the shim builder's own logic.
pub enum BuildError {
    /// A path or argument string held a nul before its end.
    ContainsNul(ContainsNul<u16>),
    /// A Scoop shim file could not be parsed.
    ShimParsing(scoop_shim::Error),
}

} // verus!
