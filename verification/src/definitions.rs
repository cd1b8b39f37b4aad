//! Core definitions: error codes, rendering group identifiers and limits.

use vstd::prelude::*;

verus! {

/// Status code of a successful operation in the C interface.
pub const OAR_STATUS_OK: i32 = 0;

/// Maximum number of samples per channel supported by the renderer.
pub const MAX_SAMPLES_PER_CHANNEL: u32 = 16384;

/// Maximum output channel count.
pub const MAX_OUTPUT_CHANNEL_COUNT: usize = 25;

/// Default maximum number of dynamic audio objects supported by the renderer.
pub const DEF_MAX_NUMBER_OF_OBJECTS: usize = 2;

/// Capacity reserved for metadata update queues.
pub const METADATA_QUEUE_CAPACITY: usize = 4;

/// Errors returned by the renderer, each with a C status code (see [`OarError::code`]).
#[derive(Debug, Clone, Copy, PartialEq, Eq, Structural)]
pub enum OarError {
    /// Out of memory error.
    NoMem,
    /// Resource busy or unavailable, or a prerequisite function was not called.
    Busy,
    /// Invalid parameters error.
    InvalidParameter,
    /// Function not implemented error.
    NoSys,
    /// Operation not supported error.
    NotSupported,
}

/// The C status code of each error.
pub open spec fn spec_error_code(e: OarError) -> int {
    match e {
        OarError::NoMem => -12,
        OarError::Busy => -16,
        OarError::InvalidParameter => -22,
        OarError::NoSys => -38,
        OarError::NotSupported => -95,
    }
}

impl OarError {
    /// Returns the C-compatible status code of this error.
    pub fn code(&self) -> (c: i32)
        ensures
            c == spec_error_code(*self),
            c < 0,
    {
        match self {
            OarError::NoMem => -12,
            OarError::Busy => -16,
            OarError::InvalidParameter => -22,
            OarError::NoSys => -38,
            OarError::NotSupported => -95,
        }
    }

    /// Returns a human readable description of this error.
    pub fn message(&self) -> (s: &'static str)
        ensures
            s@ == spec_error_message(*self),
    {
        match self {
            OarError::NoMem => "Out of memory error",
            OarError::Busy => "Resource busy or unavailable error or pre-requisite function not called.",
            OarError::InvalidParameter => "Invalid parameters error",
            OarError::NoSys => "Function not implemented error",
            OarError::NotSupported => "Operation not supported error",
        }
    }
}

/// The description of each error.
pub open spec fn spec_error_message(e: OarError) -> Seq<char> {
    match e {
        OarError::NoMem => "Out of memory error"@,
        OarError::Busy => "Resource busy or unavailable error or pre-requisite function not called."@,
        OarError::InvalidParameter => "Invalid parameters error"@,
        OarError::NoSys => "Function not implemented error"@,
        OarError::NotSupported => "Operation not supported error"@,
    }
}

/// Identifier of a rendering group (restricted to 0 or 1).
#[derive(Debug, Clone, Copy, PartialEq, Eq, Structural, Hash)]
pub enum GroupId {
    Zero,
    One,
}

impl GroupId {
    /// The numeric value of this group identifier.
    pub open spec fn spec_value(self) -> u32 {
        match self {
            GroupId::Zero => 0,
            GroupId::One => 1,
        }
    }

    /// Converts a raw group number into a `GroupId`; only 0 and 1 are valid.
    pub fn try_from(value: u32) -> (r: Result<GroupId, OarError>)
        ensures
            value <= 1 ==> (r matches Ok(g) && g.spec_value() == value),
            value > 1 ==> r == Err::<GroupId, OarError>(OarError::InvalidParameter),
    {
        match value {
            0 => Ok(GroupId::Zero),
            1 => Ok(GroupId::One),
            _ => Err(OarError::InvalidParameter),
        }
    }

    /// Returns the numeric value of this group identifier as `u32`.
    pub fn to_u32(&self) -> (v: u32)
        ensures
            v == self.spec_value(),
    {
        match self {
            GroupId::Zero => 0,
            GroupId::One => 1,
        }
    }

    /// Returns the numeric value of this group identifier as `i32`.
    pub fn to_i32(&self) -> (v: i32)
        ensures
            v == self.spec_value(),
    {
        match self {
            GroupId::Zero => 0,
            GroupId::One => 1,
        }
    }
}

} // verus!
