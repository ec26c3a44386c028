//! Size limits of the attachment pipeline.

use vstd::prelude::*;
use crate::encoding::encodable;

verus! {

/// The two sizes that bound an attachment: the largest file accepted for
/// publishing, and the largest number of file bytes stored in one chunk.
#[derive(Clone, Copy, Debug)]
pub struct Limits {
    file_max_size: usize,
    chunk_max_size: usize,
}

impl Limits {
    /// A chunk must be able to hold at least one byte, and the text form of
    /// a full chunk must have a length that fits in `usize`.
    #[verifier::type_invariant]
    pub open spec fn wf(&self) -> bool {
        self.chunk_max() >= 1 && encodable(self.chunk_max())
    }

    /// Largest file size, in bytes, that is accepted for publishing.
    pub closed spec fn file_max(&self) -> nat {
        self.file_max_size as nat
    }

    /// Largest number of file bytes per chunk.
    pub closed spec fn chunk_max(&self) -> nat {
        self.chunk_max_size as nat
    }

    /// Builds the limits. A chunk size of zero is refused, and so is one
    /// so large that the text of a full chunk would not fit in memory.
    pub fn new(file_max_size: usize, chunk_max_size: usize) -> (r: Option<Limits>)
        ensures
            r is Some <==> chunk_max_size >= 1 && encodable(chunk_max_size as nat),
            r matches Some(l) ==> l.wf() && l.file_max() == file_max_size && l.chunk_max()
                == chunk_max_size,
    {
        if chunk_max_size == 0 || chunk_max_size > usize::MAX / 4 * 3 {
            None
        } else {
            Some(Limits { file_max_size, chunk_max_size })
        }
    }

    /// Largest file size, in bytes, that is accepted for publishing.
    pub fn file_max_size(&self) -> (r: usize)
        ensures
            r == self.file_max(),
    {
        self.file_max_size
    }

    /// Largest number of file bytes per chunk; at least one.
    pub fn chunk_max_size(&self) -> (r: usize)
        ensures
            r == self.chunk_max(),
            r >= 1,
    {
        proof {
            use_type_invariant(self);
        }
        self.chunk_max_size
    }
}

} // verus!
