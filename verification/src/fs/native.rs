//! The marker type for native file I/O.
//!
//! Native filesystem calls happen outside this library; `NativeFs` is the
//! handle that the surrounding program attaches them to.

use vstd::prelude::*;

verus! {

/// Provides access to native file I/O.
#[derive(Debug, Default)]
pub struct NativeFs;

} // verus!
