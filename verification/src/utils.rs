//! A replaying reader, and the cursor-read helper the stream providers share.

use vstd::prelude::*;

use crate::error::IoError;

verus! {

/// Number of bytes a cursor-style read copies: the shorter of source and
/// destination.
pub open spec fn copy_len(src: Seq<u8>, dst: Seq<u8>) -> int {
    if src.len() <= dst.len() {
        src.len() as int
    } else {
        dst.len() as int
    }
}

/// A buffer after a cursor-style read: the source's bytes over the front,
/// the rest untouched.
pub open spec fn filled(dst: Seq<u8>, src: Seq<u8>) -> Seq<u8> {
    Seq::new(dst.len(), |i: int| if i < copy_len(src, dst) { src[i] } else { dst[i] })
}

/// Copies as much of `src` as fits into the front of `buf` and returns how
/// many bytes were copied — one read from a cursor positioned over `src`.
pub fn fill_prefix(buf: &mut Vec<u8>, src: &[u8]) -> (n: usize)
    ensures
        n == copy_len(src@, old(buf)@),
        final(buf)@ == filled(old(buf)@, src@),
{
    let ghost dst0 = buf@;
    let n = if src.len() <= buf.len() {
        src.len()
    } else {
        buf.len()
    };
    let mut i: usize = 0;
    while i < n
        invariant
            i <= n,
            n == copy_len(src@, dst0),
            buf@.len() == dst0.len(),
            n <= src@.len() && n <= dst0.len(),
            forall|j: int| 0 <= j < i ==> buf@[j] == src@[j],
            forall|j: int| i <= j < dst0.len() ==> buf@[j] == dst0[j],
        decreases n - i,
    {
        let b = src[i];
        buf.set(i, b);
        i = i + 1;
    }
    proof {
        assert(buf@ =~= filled(dst0, src@));
    }
    n
}

/// The mathematical value of a list of replay entries.
pub open spec fn entries_view(entries: Seq<Result<Vec<u8>, IoError>>) -> Seq<
    Result<Seq<u8>, IoError>,
> {
    Seq::new(
        entries.len(),
        |i: int|
            match entries[i] {
                Ok(data) => Ok(data@),
                Err(e) => Err(e),
            },
    )
}

/// A reader which regurgitates data specified at the time of its creation.
///
/// Each read consumes one entry: a chunk of bytes is served like a single
/// cursor read over it, and an error entry is returned as it stands.  Once
/// the entries run out, every further read returns a length of zero.
pub struct ReplayReader {
    /// The remaining entries, in the order they will be served.
    inputs: Vec<Result<Vec<u8>, IoError>>,
}

impl View for ReplayReader {
    type V = Seq<Result<Seq<u8>, IoError>>;

    closed spec fn view(&self) -> Seq<Result<Seq<u8>, IoError>> {
        entries_view(self.inputs@)
    }
}

impl ReplayReader {
    /// Constructs a new `ReplayReader` that will serve `inputs` in order,
    /// one entry per read.
    pub fn new(inputs: Vec<Result<Vec<u8>, IoError>>) -> (r: ReplayReader)
        ensures
            r@ == entries_view(inputs@),
    {
        ReplayReader { inputs }
    }

    /// Serves the next entry: a chunk is copied into the front of `buf` as a
    /// cursor read, an error entry is returned unchanged, and an exhausted
    /// reader reports a zero-length read.
    pub fn read(&mut self, buf: &mut Vec<u8>) -> (r: Result<usize, IoError>)
        ensures
            old(self)@.len() == 0 ==> r == Ok::<usize, IoError>(0) && final(self)@ == old(self)@
                && final(buf)@ == old(buf)@,
            old(self)@.len() > 0 ==> final(self)@ == old(self)@.skip(1) && (match old(self)@[0] {
                Ok(data) => r matches Ok(n) && n == copy_len(data, old(buf)@) && final(buf)@
                    == filled(old(buf)@, data),
                Err(e) => r == Err::<usize, IoError>(e) && final(buf)@ == old(buf)@,
            }),
    {
        let ghost inputs0 = self.inputs@;
        if self.inputs.len() == 0 {
            return Ok(0);
        }
        let entry = self.inputs.remove(0);
        proof {
            assert(entries_view(self.inputs@) =~= entries_view(inputs0).skip(1));
        }
        match entry {
            Ok(data) => {
                let n = fill_prefix(buf, data.as_slice());
                Ok(n)
            },
            Err(e) => Err(e),
        }
    }
}

} // verus!
