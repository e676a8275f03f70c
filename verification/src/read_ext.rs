//! Wrappers for testing readers, as methods on every reader.
use vstd::prelude::*;
use crate::interleave_pending::InterleavePending;
use crate::io::AsyncRead;
use crate::limited::Limited;

verus! {

/// Additional combinators for testing readers.
pub trait AsyncReadTestExt: AsyncRead {
    /// Puts a not-ready answer in front of each read of the reader. The
    /// first poll of what comes back is not ready.
    fn interleave_pending(self) -> (r: InterleavePending<Self>)
        ensures
            r.inner == self,
            !r.pended,
    {
        InterleavePending::new(self)
    }

    /// Caps the number of bytes that a single read may ask of the reader.
    fn limited(self, limit: usize) -> (r: Limited<Self>)
        ensures
            r.io == self,
            r.limit == limit,
    {
        Limited::new(self, limit)
    }
}

impl<R: AsyncRead> AsyncReadTestExt for R {
}

} // verus!
