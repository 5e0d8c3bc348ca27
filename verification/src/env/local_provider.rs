//! The marker type for the local process environment.

use vstd::prelude::*;

verus! {

/// Provides access to the local environment (what the corresponding
/// platform facilities would report); the calls themselves stand outside
/// this library.
pub struct Local;

impl Local {
    /// Creates a new local environment provider.
    pub fn new() -> Local {
        Local
    }
}

} // verus!
