//! Streams which log outputs and play back pre-specified input.

use vstd::prelude::*;

use crate::error::IoError;
use crate::utils::{entries_view, ReplayReader};

verus! {

/// Provides streams which log outputs and play back pre-specified input.
pub struct Logger {
    input: ReplayReader,
    output: Vec<u8>,
    error: Vec<u8>,
}

impl Logger {
    /// The replay entries that remain to be served as input.
    pub closed spec fn spec_inputs(&self) -> Seq<Result<Seq<u8>, IoError>> {
        self.input@
    }

    /// Everything written to the output stream so far.
    pub closed spec fn spec_output(&self) -> Seq<u8> {
        self.output@
    }

    /// Everything written to the error stream so far.
    pub closed spec fn spec_error(&self) -> Seq<u8> {
        self.error@
    }

    /// Constructs a new logging stream provider.
    ///
    /// `inputs` specifies the values which should be returned for each read
    /// from input, in order.
    pub fn new(inputs: Vec<Result<Vec<u8>, IoError>>) -> (r: Logger)
        ensures
            r.spec_inputs() == entries_view(inputs@),
            r.spec_output() == Seq::<u8>::empty(),
            r.spec_error() == Seq::<u8>::empty(),
    {
        let r = Logger { input: ReplayReader::new(inputs), output: Vec::new(), error: Vec::new() };
        proof {
            assert(r.spec_output() =~= Seq::<u8>::empty());
            assert(r.spec_error() =~= Seq::<u8>::empty());
        }
        r
    }

    /// Gets the data which has been written to the output stream.
    pub fn get_output(&self) -> (r: &[u8])
        ensures
            r@ == self.spec_output(),
    {
        self.output.as_slice()
    }

    /// Gets the data which has been written to the error stream.
    pub fn get_error(&self) -> (r: &[u8])
        ensures
            r@ == self.spec_error(),
    {
        self.error.as_slice()
    }

    /// Gets the input stream.
    pub fn input(&mut self) -> (r: &mut ReplayReader)
        ensures
            r@ == old(self).spec_inputs(),
            final(self).spec_inputs() == final(r)@,
            final(self).spec_output() == old(self).spec_output(),
            final(self).spec_error() == old(self).spec_error(),
    {
        &mut self.input
    }

    /// Gets the output stream, as the byte buffer it collects into.
    pub fn output(&mut self) -> (r: &mut Vec<u8>)
        ensures
            r@ == old(self).spec_output(),
            final(self).spec_output() == final(r)@,
            final(self).spec_inputs() == old(self).spec_inputs(),
            final(self).spec_error() == old(self).spec_error(),
    {
        &mut self.output
    }

    /// Gets the error stream, as the byte buffer it collects into.
    pub fn error(&mut self) -> (r: &mut Vec<u8>)
        ensures
            r@ == old(self).spec_error(),
            final(self).spec_error() == final(r)@,
            final(self).spec_inputs() == old(self).spec_inputs(),
            final(self).spec_output() == old(self).spec_output(),
    {
        &mut self.error
    }
}

} // verus!
