//! The error type of the wrapper, value types for coordinates, and the
//! uniform translation of native status codes into typed errors.
//!
//! Coordinates cross the native boundary as 32-bit reals. This layer never
//! computes with them — it only stores and forwards them — so it carries each
//! coordinate as the raw bit pattern of the native real, exactly as the
//! caller hands it over and exactly as it reaches the native call.

use vstd::prelude::*;

use crate::enums::spec_decode_status;
use crate::enums::Status;

verus! {

/// A failure reported by the wrapper: a raw native status code that decodes
/// to no known status, a free-form message, or a decoded named status.
#[derive(Debug)]
pub enum Error {
    Code(u32),
    Message(String),
    Status(Status),
}

/// The typed error a non-zero native status code translates to: the named
/// status when the code is a known one, else the raw code unchanged.
pub open spec fn spec_error_of(code: u32) -> Error {
    match spec_decode_status(code) {
        Some(s) => Error::Status(s),
        None => Error::Code(code),
    }
}

impl Error {
    /// Translates a raw native status code into a typed error.
    pub fn from(code: u32) -> (e: Error)
        ensures
            e == spec_error_of(code),
    {
        match Status::try_from(code) {
            Ok(status) => Error::Status(status),
            Err(err) => err,
        }
    }
}

/// A known non-zero code translates to exactly its named status, never to the raw code.
pub proof fn lemma_known_code_carries_named_status(code: u32)
    requires
        code != 0,
        spec_decode_status(code) is Some,
    ensures
        spec_error_of(code) == Error::Status(spec_decode_status(code)->Some_0),
{
}

/// A non-zero code with no known mapping translates to the raw number unchanged.
pub proof fn lemma_unknown_code_carries_raw_code(code: u32)
    requires
        code != 0,
        spec_decode_status(code) is None,
    ensures
        spec_error_of(code) == Error::Code(code),
{
}

/// The uniform guard on a fallible native call: success on status `0`,
/// the translated typed error on anything else.
pub fn check_status(code: u32) -> (r: Result<(), Error>)
    ensures
        code == 0 <==> r is Ok,
        code != 0 ==> r == Result::<(), Error>::Err(spec_error_of(code)),
{
    if code == 0 {
        Ok(())
    } else {
        Err(Error::from(code))
    }
}

/// A pair of coordinates `(x, y)`, each held as the bit pattern of the
/// native 32-bit real it stands for.
pub type Point = (u32, u32);

/// An axis-aligned rectangle, each field held as the bit pattern of the
/// native 32-bit real it stands for.
#[derive(Clone, Copy, Debug, PartialEq, Eq, Structural)]
pub struct RectF {
    pub x: u32,
    pub y: u32,
    pub width: u32,
    pub height: u32,
}

} // verus!
