//! The closed sets of native status codes and rendering-quality modes.
//!
//! Every native call reports an integer status; `0` is success and each
//! non-zero value names one failure condition of the native library. The
//! decoding from raw codes to named variants is total: codes outside the
//! known set are left to the caller to carry as raw numbers.

use vstd::prelude::*;

verus! {

/// The named status conditions the native library can report.
#[derive(Clone, Copy, Debug, PartialEq, Eq, Structural)]
pub enum Status {
    Okay,
    GenericError,
    InvalidParameter,
    OutOfMemory,
    ObjectBusy,
    InsufficientBuffer,
    NotImplemented,
    Win32Error,
    WrongState,
    Aborted,
    FileNotFound,
    ValueOverflow,
    AccessDenied,
    UnknownImageFormat,
    FontFamilyNotFound,
    FontStyleNotFound,
    NotTrueTypeFont,
    UnsupportedGdiplusVersion,
    GdiplusNotInitialized,
    PropertyNotFound,
    PropertyNotSupported,
    ProfileNotFound,
}

/// The raw integer code of each named status, as the native library defines them.
pub open spec fn spec_status_code(s: Status) -> u32 {
    match s {
        Status::Okay => 0,
        Status::GenericError => 1,
        Status::InvalidParameter => 2,
        Status::OutOfMemory => 3,
        Status::ObjectBusy => 4,
        Status::InsufficientBuffer => 5,
        Status::NotImplemented => 6,
        Status::Win32Error => 7,
        Status::WrongState => 8,
        Status::Aborted => 9,
        Status::FileNotFound => 10,
        Status::ValueOverflow => 11,
        Status::AccessDenied => 12,
        Status::UnknownImageFormat => 13,
        Status::FontFamilyNotFound => 14,
        Status::FontStyleNotFound => 15,
        Status::NotTrueTypeFont => 16,
        Status::UnsupportedGdiplusVersion => 17,
        Status::GdiplusNotInitialized => 18,
        Status::PropertyNotFound => 19,
        Status::PropertyNotSupported => 20,
        Status::ProfileNotFound => 21,
    }
}

/// The named status a raw code decodes to, if the code is a known one.
pub open spec fn spec_decode_status(code: u32) -> Option<Status> {
    if code == 0 {
        Some(Status::Okay)
    } else if code == 1 {
        Some(Status::GenericError)
    } else if code == 2 {
        Some(Status::InvalidParameter)
    } else if code == 3 {
        Some(Status::OutOfMemory)
    } else if code == 4 {
        Some(Status::ObjectBusy)
    } else if code == 5 {
        Some(Status::InsufficientBuffer)
    } else if code == 6 {
        Some(Status::NotImplemented)
    } else if code == 7 {
        Some(Status::Win32Error)
    } else if code == 8 {
        Some(Status::WrongState)
    } else if code == 9 {
        Some(Status::Aborted)
    } else if code == 10 {
        Some(Status::FileNotFound)
    } else if code == 11 {
        Some(Status::ValueOverflow)
    } else if code == 12 {
        Some(Status::AccessDenied)
    } else if code == 13 {
        Some(Status::UnknownImageFormat)
    } else if code == 14 {
        Some(Status::FontFamilyNotFound)
    } else if code == 15 {
        Some(Status::FontStyleNotFound)
    } else if code == 16 {
        Some(Status::NotTrueTypeFont)
    } else if code == 17 {
        Some(Status::UnsupportedGdiplusVersion)
    } else if code == 18 {
        Some(Status::GdiplusNotInitialized)
    } else if code == 19 {
        Some(Status::PropertyNotFound)
    } else if code == 20 {
        Some(Status::PropertyNotSupported)
    } else if code == 21 {
        Some(Status::ProfileNotFound)
    } else {
        None
    }
}

/// Every named status decodes back from its own raw code: the closed set of
/// codes and the closed set of names are in exact one-to-one correspondence.
pub proof fn lemma_status_code_decode_round_trip(s: Status)
    ensures
        spec_decode_status(spec_status_code(s)) == Some(s),
{
}

impl Status {
    /// The raw integer code of this status, as passed over the native boundary.
    pub fn code(&self) -> (c: u32)
        ensures
            c == spec_status_code(*self),
    {
        match self {
            Status::Okay => 0,
            Status::GenericError => 1,
            Status::InvalidParameter => 2,
            Status::OutOfMemory => 3,
            Status::ObjectBusy => 4,
            Status::InsufficientBuffer => 5,
            Status::NotImplemented => 6,
            Status::Win32Error => 7,
            Status::WrongState => 8,
            Status::Aborted => 9,
            Status::FileNotFound => 10,
            Status::ValueOverflow => 11,
            Status::AccessDenied => 12,
            Status::UnknownImageFormat => 13,
            Status::FontFamilyNotFound => 14,
            Status::FontStyleNotFound => 15,
            Status::NotTrueTypeFont => 16,
            Status::UnsupportedGdiplusVersion => 17,
            Status::GdiplusNotInitialized => 18,
            Status::PropertyNotFound => 19,
            Status::PropertyNotSupported => 20,
            Status::ProfileNotFound => 21,
        }
    }

    /// Decodes a raw code into its named status; a code outside the known
    /// set comes back as `Err` carrying the raw number unchanged.
    pub fn try_from(code: u32) -> (r: Result<Status, crate::types::Error>)
        ensures
            spec_decode_status(code) matches Some(s) ==> r == Result::<
                Status,
                crate::types::Error,
            >::Ok(s),
            spec_decode_status(code) is None ==> r == Result::<Status, crate::types::Error>::Err(
                crate::types::Error::Code(code),
            ),
    {
        match code {
            0 => Ok(Status::Okay),
            1 => Ok(Status::GenericError),
            2 => Ok(Status::InvalidParameter),
            3 => Ok(Status::OutOfMemory),
            4 => Ok(Status::ObjectBusy),
            5 => Ok(Status::InsufficientBuffer),
            6 => Ok(Status::NotImplemented),
            7 => Ok(Status::Win32Error),
            8 => Ok(Status::WrongState),
            9 => Ok(Status::Aborted),
            10 => Ok(Status::FileNotFound),
            11 => Ok(Status::ValueOverflow),
            12 => Ok(Status::AccessDenied),
            13 => Ok(Status::UnknownImageFormat),
            14 => Ok(Status::FontFamilyNotFound),
            15 => Ok(Status::FontStyleNotFound),
            16 => Ok(Status::NotTrueTypeFont),
            17 => Ok(Status::UnsupportedGdiplusVersion),
            18 => Ok(Status::GdiplusNotInitialized),
            19 => Ok(Status::PropertyNotFound),
            20 => Ok(Status::PropertyNotSupported),
            21 => Ok(Status::ProfileNotFound),
            _ => Err(crate::types::Error::Code(code)),
        }
    }
}

/// The rendering-quality setting a drawing context can be switched to.
#[derive(Clone, Copy, Debug, PartialEq, Eq, Structural)]
pub enum SmoothingMode {
    DefaultQuality,
    HighSpeed,
    HighQuality,
    NoSmoothing,
    AntiAlias,
}

/// The raw integer value of each smoothing mode, as the native library defines them.
pub open spec fn spec_smoothing_code(m: SmoothingMode) -> u32 {
    match m {
        SmoothingMode::DefaultQuality => 0,
        SmoothingMode::HighSpeed => 1,
        SmoothingMode::HighQuality => 2,
        SmoothingMode::NoSmoothing => 3,
        SmoothingMode::AntiAlias => 4,
    }
}

impl SmoothingMode {
    /// The raw integer value of this mode, as passed over the native boundary.
    pub fn code(&self) -> (c: u32)
        ensures
            c == spec_smoothing_code(*self),
    {
        match self {
            SmoothingMode::DefaultQuality => 0,
            SmoothingMode::HighSpeed => 1,
            SmoothingMode::HighQuality => 2,
            SmoothingMode::NoSmoothing => 3,
            SmoothingMode::AntiAlias => 4,
        }
    }
}

} // verus!
