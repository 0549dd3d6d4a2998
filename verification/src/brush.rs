//! The fill-style wrapper: exclusive owner of one native solid-brush handle.

use vstd::prelude::*;

use crate::types::spec_error_of;
use crate::types::check_status;
use crate::types::Error;

verus! {

/// Exclusive owner of a native solid-brush (fill-style) handle. A value of
/// this type exists only for a brush the native library reported as
/// successfully created, and its handle stays non-null for the value's
/// whole lifetime.
pub struct SolidBrush {
    brush: usize,
}

impl SolidBrush {
    /// The native handle this brush owns.
    pub closed spec fn spec_handle(&self) -> usize {
        self.brush
    }

    #[verifier::type_invariant]
    spec fn inv(&self) -> bool {
        self.brush != 0
    }

    /// Takes ownership of the outcome of the native create-solid-brush
    /// call: on status `0` the freshly created handle becomes an owned
    /// `SolidBrush`, on any other status nothing is constructed and the
    /// translated error comes back. A successful native create hands over a
    /// non-null handle.
    pub fn new(status: u32, handle: usize) -> (r: Result<SolidBrush, Error>)
        requires
            status == 0 ==> handle != 0,
        ensures
            status == 0 ==> (r matches Ok(b) && b.spec_handle() == handle),
            status != 0 ==> (r matches Err(e) && e == spec_error_of(status)),
    {
        match check_status(status) {
            Ok(()) => Ok(SolidBrush { brush: handle }),
            Err(e) => Err(e),
        }
    }

    /// The raw native handle, for issuing the native calls that act on this brush.
    pub fn brush(&self) -> (h: usize)
        ensures
            h == self.spec_handle(),
            h != 0,
    {
        proof {
            use_type_invariant(self);
        }
        self.brush
    }
}

} // verus!
