use super::error::{IoError, PerfError};
use vstd::prelude::*;

verus! {

/// A sequence of bytes with a cursor in it: what the decoders read from.
///
/// The decoders look at the bytes behind the cursor without moving it, and
/// move it once, when a value has been decoded whole. A decoder that fails
/// leaves the cursor where it was.
pub trait ByteSource {
    /// All the bytes, from the first one.
    spec fn source(&self) -> Seq<u8>;

    /// The index in `source` of the next byte to be read.
    spec fn cursor(&self) -> int;

    fn bytes(&self) -> (r: &[u8])
        ensures
            r@ == self.source(),
            r@.len() <= usize::MAX,
    ;

    fn offset(&self) -> (r: usize)
        ensures
            r == self.cursor(),
            r <= self.source().len(),
    ;

    /// Moves the cursor to `offset`, counted from the first byte. The
    /// position behind the last byte is the last one that can be sought.
    fn seek(&mut self, offset: u64) -> (r: Result<(), PerfError>)
        ensures
            final(self).source() == old(self).source(),
            offset <= old(self).source().len() ==> r is Ok && final(self).cursor() == offset,
            offset > old(self).source().len() ==> r == Err::<(), PerfError>(
                PerfError::Io(IoError::SeekPastEnd),
            ) && final(self).cursor() == old(self).cursor(),
    ;
}

/// A trace held in memory.
pub struct ByteReader {
    data: Vec<u8>,
    position: usize,
}

impl ByteReader {
    #[verifier::type_invariant]
    spec fn cursor_in_bounds(self) -> bool {
        self.position <= self.data.len() <= usize::MAX
    }

    /// A reader of `data` with the cursor on the first byte.
    pub fn new(data: Vec<u8>) -> (r: Self)
        ensures
            r.source() == data@,
            r.cursor() == 0,
    {
        ByteReader { data, position: 0 }
    }
}

impl ByteSource for ByteReader {
    closed spec fn source(&self) -> Seq<u8> {
        self.data@
    }

    closed spec fn cursor(&self) -> int {
        self.position as int
    }

    fn bytes(&self) -> (r: &[u8]) {
        proof {
            use_type_invariant(self);
        }
        self.data.as_slice()
    }

    fn offset(&self) -> (r: usize) {
        proof {
            use_type_invariant(self);
        }
        self.position
    }

    fn seek(&mut self, offset: u64) -> (r: Result<(), PerfError>) {
        if offset <= self.data.len() as u64 {
            self.position = offset as usize;
            Ok(())
        } else {
            Err(PerfError::Io(IoError::SeekPastEnd))
        }
    }
}

} // verus!
