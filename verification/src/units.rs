//! Sample counts.

use vstd::prelude::*;
use crate::definitions::OarError;

verus! {

/// A positive number of samples, at most `i32::MAX`.
#[derive(Debug, Clone, Copy, PartialEq, Eq, Structural, PartialOrd, Ord)]
pub struct Samples(pub u32);

impl Samples {
    /// Creates a sample count if it lies within `1..=i32::MAX`.
    pub fn new(val: u32) -> (r: Result<Samples, OarError>)
        ensures
            (0 < val <= i32::MAX) ==> r == Ok::<Samples, OarError>(Samples(val)),
            !(0 < val <= i32::MAX) ==> r == Err::<Samples, OarError>(OarError::InvalidParameter),
    {
        if val > 0 && val <= 0x7fff_ffff {
            Ok(Samples(val))
        } else {
            Err(OarError::InvalidParameter)
        }
    }

    /// Returns the number of samples.
    pub fn value(&self) -> (v: u32)
        ensures
            v == self.0,
    {
        self.0
    }

    /// Returns the number of samples as `usize`.
    pub fn to_usize(&self) -> (v: usize)
        ensures
            v == self.0,
    {
        self.0 as usize
    }
}

impl From<Samples> for u32 {
    fn from(s: Samples) -> (v: u32) {
        s.0
    }
}

impl vstd::std_specs::convert::FromSpecImpl<Samples> for u32 {
    open spec fn obeys_from_spec() -> bool {
        true
    }

    open spec fn from_spec(s: Samples) -> u32 {
        s.0
    }
}

impl From<Samples> for usize {
    fn from(s: Samples) -> (v: usize) {
        s.0 as usize
    }
}

impl vstd::std_specs::convert::FromSpecImpl<Samples> for usize {
    open spec fn obeys_from_spec() -> bool {
        true
    }

    open spec fn from_spec(s: Samples) -> usize {
        s.0 as usize
    }
}

} // verus!
