//! Virtual input/output/error streams.

use vstd::prelude::*;

use crate::error::IoError;
use crate::utils::{copy_len, fill_prefix, filled};

verus! {

/// A pipe where data is written in chunks and each read consumes a single
/// chunk.
pub struct ChunkPipe {
    items: std::collections::VecDeque<Vec<u8>>,
}

impl View for ChunkPipe {
    type V = Seq<Seq<u8>>;

    closed spec fn view(&self) -> Seq<Seq<u8>> {
        self.items.deep_view()
    }
}

impl ChunkPipe {
    /// Creates a new, empty `ChunkPipe`.
    pub fn new() -> (r: ChunkPipe)
        ensures
            r@ == Seq::<Seq<u8>>::empty(),
    {
        let r = ChunkPipe { items: std::collections::VecDeque::new() };
        proof {
            assert(r@ =~= Seq::<Seq<u8>>::empty());
        }
        r
    }

    /// Serves the front chunk as one cursor read into `buf`; an empty pipe
    /// reports a zero-length read.
    pub fn read(&mut self, buf: &mut Vec<u8>) -> (r: Result<usize, IoError>)
        ensures
            old(self)@.len() == 0 ==> r == Ok::<usize, IoError>(0) && final(self)@ == old(self)@
                && final(buf)@ == old(buf)@,
            old(self)@.len() > 0 ==> final(self)@ == old(self)@.skip(1) && (r matches Ok(n) && n
                == copy_len(old(self)@[0], old(buf)@)) && final(buf)@ == filled(
                old(buf)@,
                old(self)@[0],
            ),
    {
        let ghost deep0 = self@;
        match self.items.pop_front() {
            None => Ok(0),
            Some(item) => {
                proof {
                    assert(self@ =~= deep0.skip(1));
                    assert(item@ == deep0[0]);
                }
                let n = fill_prefix(buf, item.as_slice());
                Ok(n)
            },
        }
    }

    /// Appends one chunk holding a copy of `buf` and reports its full length
    /// as written.
    pub fn write(&mut self, buf: &[u8]) -> (r: Result<usize, IoError>)
        ensures
            final(self)@ == old(self)@.push(buf@),
            r matches Ok(n) && n == buf@.len(),
    {
        let ghost deep0 = self@;
        let ghost items0 = self.items@;
        let chunk = vstd::slice::slice_to_vec(buf);
        let n = buf.len();
        self.items.push_back(chunk);
        proof {
            assert forall|k: int| 0 <= k < self@.len() implies self@[k] == deep0.push(buf@)[k] by {
                if k < items0.len() {
                    assert(self.items@[k] == items0[k]);
                    assert(deep0.push(buf@)[k] == deep0[k]);
                } else {
                    assert(self.items@[k] == chunk);
                }
            }
            assert(self@ =~= deep0.push(buf@));
        }
        Ok(n)
    }

    /// Flushing a pipe held in memory has nothing to do.
    pub fn flush(&mut self) -> (r: Result<(), IoError>)
        ensures
            final(self)@ == old(self)@,
            r == Ok::<(), IoError>(()),
    {
        Ok(())
    }
}

/// Provides virtual input/output/error streams: input can be provided using
/// [`Virtual::write_input`], and output can be observed using
/// [`Virtual::read_output`] and [`Virtual::read_error`].
pub struct Virtual {
    inputs: ChunkPipe,
    output: Vec<u8>,
    error: Vec<u8>,
}

impl Virtual {
    /// The queued input chunks.
    pub closed spec fn spec_inputs(&self) -> Seq<Seq<u8>> {
        self.inputs@
    }

    /// Everything written to the output stream so far.
    pub closed spec fn spec_output(&self) -> Seq<u8> {
        self.output@
    }

    /// Everything written to the error stream so far.
    pub closed spec fn spec_error(&self) -> Seq<u8> {
        self.error@
    }

    /// Creates a new, empty virtual stream provider.
    pub fn new() -> (r: Virtual)
        ensures
            r.spec_inputs() == Seq::<Seq<u8>>::empty(),
            r.spec_output() == Seq::<u8>::empty(),
            r.spec_error() == Seq::<u8>::empty(),
    {
        let r = Virtual { inputs: ChunkPipe::new(), output: Vec::new(), error: Vec::new() };
        proof {
            assert(r.spec_output() =~= Seq::<u8>::empty());
            assert(r.spec_error() =~= Seq::<u8>::empty());
        }
        r
    }

    /// Queues the provided buffer to be used for a single read from the
    /// input stream.
    ///
    /// This method does NOT append data to a continuous buffer which input
    /// reads consume; it enqueues a buffer which will be used for a SINGLE
    /// read, and the buffer is then discarded, however much of it was (or
    /// was not) read.  This enables precise control over the length of data
    /// returned from each read.
    pub fn write_input(&mut self, input: &[u8])
        ensures
            final(self).spec_inputs() == old(self).spec_inputs().push(input@),
            final(self).spec_output() == old(self).spec_output(),
            final(self).spec_error() == old(self).spec_error(),
    {
        let _ = self.inputs.write(input);
    }

    /// Gets the data which has been written to the output stream.
    pub fn read_output(&self) -> (r: &[u8])
        ensures
            r@ == self.spec_output(),
    {
        self.output.as_slice()
    }

    /// Gets the data which has been written to the error stream.
    pub fn read_error(&self) -> (r: &[u8])
        ensures
            r@ == self.spec_error(),
    {
        self.error.as_slice()
    }

    /// Gets the input stream.
    pub fn input(&mut self) -> (r: &mut ChunkPipe)
        ensures
            r@ == old(self).spec_inputs(),
            final(self).spec_inputs() == final(r)@,
            final(self).spec_output() == old(self).spec_output(),
            final(self).spec_error() == old(self).spec_error(),
    {
        &mut self.inputs
    }

    /// Gets the output stream, as the byte buffer it collects into.
    pub fn output(&mut self) -> (r: &mut Vec<u8>)
        ensures
            r@ == old(self).spec_output(),
            final(self).spec_output() == final(r)@,
            final(self).spec_inputs() == old(self).spec_inputs(),
            final(self).spec_error() == old(self).spec_error(),
    {
        &mut self.output
    }

    /// Gets the error stream, as the byte buffer it collects into.
    pub fn error(&mut self) -> (r: &mut Vec<u8>)
        ensures
            r@ == old(self).spec_error(),
            final(self).spec_error() == final(r)@,
            final(self).spec_inputs() == old(self).spec_inputs(),
            final(self).spec_output() == old(self).spec_output(),
    {
        &mut self.error
    }
}

} // verus!
