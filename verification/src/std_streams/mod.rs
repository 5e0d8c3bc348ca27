//! Providers of input/output/error streams (stdin, stdout and stderr).
//!
//! The simulated provider here keeps all three streams in memory with
//! verified contracts; handles onto the real console live outside this
//! library.

mod simulated;

pub use self::simulated::ChunkPipe;
pub use self::simulated::SimulatedStdStreams;

use vstd::prelude::*;

verus! {

/// Provides access to input, output and error streams.
pub trait StdStreams {
    /// The concrete reader behind standard input.
    type In;

    /// The concrete writer behind standard output.
    type Out;

    /// The concrete writer behind standard error.
    type Err;

    /// Gets the input stream.
    fn input(&mut self) -> &mut Self::In;

    /// Gets the output stream.
    fn output(&mut self) -> &mut Self::Out;

    /// Gets the error stream.
    fn error(&mut self) -> &mut Self::Err;
}

} // verus!
