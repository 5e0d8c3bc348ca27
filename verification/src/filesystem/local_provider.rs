//! The marker type for a local filesystem.

use vstd::prelude::*;

verus! {

/// Represents a local filesystem; the native calls themselves stand outside
/// this library.
pub struct Local;

} // verus!
