//! The stroke-style wrapper: exclusive owner of one native pen handle.

use vstd::prelude::*;

use crate::types::spec_error_of;
use crate::types::check_status;
use crate::types::Error;

verus! {

/// Exclusive owner of a native pen (stroke-style) handle. A value of this
/// type exists only for a pen the native library reported as successfully
/// created, and its handle stays non-null for the value's whole lifetime.
pub struct Pen {
    pen: usize,
}

impl Pen {
    /// The native handle this pen owns.
    pub closed spec fn spec_handle(&self) -> usize {
        self.pen
    }

    #[verifier::type_invariant]
    spec fn inv(&self) -> bool {
        self.pen != 0
    }

    /// Takes ownership of the outcome of the native create-pen call: on
    /// status `0` the freshly created handle becomes an owned `Pen`, on any
    /// other status nothing is constructed and the translated error comes
    /// back. A successful native create hands over a non-null handle.
    pub fn new(status: u32, handle: usize) -> (r: Result<Pen, Error>)
        requires
            status == 0 ==> handle != 0,
        ensures
            status == 0 ==> (r matches Ok(p) && p.spec_handle() == handle),
            status != 0 ==> (r matches Err(e) && e == spec_error_of(status)),
    {
        match check_status(status) {
            Ok(()) => Ok(Pen { pen: handle }),
            Err(e) => Err(e),
        }
    }

    /// The raw native handle, for issuing the native calls that act on this pen.
    pub fn pen(&self) -> (h: usize)
        ensures
            h == self.spec_handle(),
            h != 0,
    {
        proof {
            use_type_invariant(self);
        }
        self.pen
    }
}

} // verus!
