//! The marker type for the native process environment.

use vstd::prelude::*;

verus! {

/// Provides inspection and manipulation of the process's environment; the
/// platform calls themselves stand outside this library.
#[derive(Default)]
pub struct NativeEnv;

} // verus!
