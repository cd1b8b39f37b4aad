//! IAMF downmix modes and weight indices.

use vstd::prelude::*;
use crate::definitions::OarError;

verus! {

/// IAMF demixing modes.
#[derive(Debug, Clone, Copy, PartialEq, Eq, Structural)]
pub enum DownmixMode {
    /// Mode 1 with negative index shift offset.
    Mode1NegOffset,
    /// Mode 2 with negative index shift offset.
    Mode2NegOffset,
    /// Mode 3 with negative index shift offset.
    Mode3NegOffset,
    /// Mode 1 with positive index shift offset.
    Mode1PosOffset,
    /// Mode 2 with positive index shift offset.
    Mode2PosOffset,
    /// Mode 3 with positive index shift offset.
    Mode3PosOffset,
}

/// Direction in which a dynamic metadata update moves the weight index.
#[derive(Debug, Clone, Copy, PartialEq, Eq, Structural)]
pub enum WeightIndexShift {
    /// Shift the index down (decrease the weight).
    Negative,
    /// Shift the index up (increase the weight).
    Positive,
}

/// The C code of each mode.
pub open spec fn spec_mode_value(m: DownmixMode) -> int {
    match m {
        DownmixMode::Mode1NegOffset => 0,
        DownmixMode::Mode2NegOffset => 1,
        DownmixMode::Mode3NegOffset => 2,
        DownmixMode::Mode1PosOffset => 4,
        DownmixMode::Mode2PosOffset => 5,
        DownmixMode::Mode3PosOffset => 6,
    }
}

/// The weight index shift of each mode.
pub open spec fn spec_mode_shift(m: DownmixMode) -> WeightIndexShift {
    match m {
        DownmixMode::Mode1NegOffset | DownmixMode::Mode2NegOffset | DownmixMode::Mode3NegOffset => WeightIndexShift::Negative,
        _ => WeightIndexShift::Positive,
    }
}

impl DownmixMode {
    /// Returns the C code of this mode.
    pub fn value(&self) -> (v: i32)
        ensures
            v == spec_mode_value(*self),
    {
        match self {
            DownmixMode::Mode1NegOffset => 0,
            DownmixMode::Mode2NegOffset => 1,
            DownmixMode::Mode3NegOffset => 2,
            DownmixMode::Mode1PosOffset => 4,
            DownmixMode::Mode2PosOffset => 5,
            DownmixMode::Mode3PosOffset => 6,
        }
    }

    /// Converts a C mode code into a mode.
    pub fn try_from(value: i32) -> (r: Result<DownmixMode, OarError>)
        ensures
            r matches Ok(m) ==> spec_mode_value(m) == value,
            r is Err ==> r == Err::<DownmixMode, OarError>(OarError::InvalidParameter)
                && forall|m: DownmixMode| spec_mode_value(m) != value,
    {
        match value {
            0 => Ok(DownmixMode::Mode1NegOffset),
            1 => Ok(DownmixMode::Mode2NegOffset),
            2 => Ok(DownmixMode::Mode3NegOffset),
            4 => Ok(DownmixMode::Mode1PosOffset),
            5 => Ok(DownmixMode::Mode2PosOffset),
            6 => Ok(DownmixMode::Mode3PosOffset),
            _ => Err(OarError::InvalidParameter),
        }
    }

    /// Returns the direction in which this mode moves the weight index.
    pub fn weight_index_shift(&self) -> (s: WeightIndexShift)
        ensures
            s == spec_mode_shift(*self),
    {
        match self {
            DownmixMode::Mode1NegOffset | DownmixMode::Mode2NegOffset | DownmixMode::Mode3NegOffset => WeightIndexShift::Negative,
            _ => WeightIndexShift::Positive,
        }
    }
}

/// A downmix weight index in `[0, 10]`.
#[derive(Debug, Clone, Copy, PartialEq, Eq, Structural, PartialOrd, Ord)]
pub struct WeightIndex(i32);

impl WeightIndex {
    /// The index value.
    pub closed spec fn spec_value(self) -> int {
        self.0 as int
    }

    /// A weight index is determined by its value.
    pub proof fn lemma_value_determines_index(a: WeightIndex, b: WeightIndex)
        ensures
            a.spec_value() == b.spec_value() ==> a == b,
    {
    }

    /// Every weight index lies in `[0, 10]`.
    #[verifier::type_invariant]
    spec fn in_range(self) -> bool {
        0 <= self.0 <= 10
    }

    /// The smallest weight index.
    pub fn min() -> (w: WeightIndex)
        ensures
            w.spec_value() == 0,
    {
        WeightIndex(0)
    }

    /// The largest weight index.
    pub fn max() -> (w: WeightIndex)
        ensures
            w.spec_value() == 10,
    {
        WeightIndex(10)
    }

    /// Creates a weight index if `val` lies within `[0, 10]`.
    pub fn new(val: i32) -> (r: Result<WeightIndex, OarError>)
        ensures
            0 <= val <= 10 ==> (r matches Ok(w) && w.spec_value() == val),
            !(0 <= val <= 10) ==> r == Err::<WeightIndex, OarError>(OarError::InvalidParameter),
    {
        if 0 <= val && val <= 10 {
            Ok(WeightIndex(val))
        } else {
            Err(OarError::InvalidParameter)
        }
    }

    /// Returns the index value.
    pub fn value(&self) -> (v: i32)
        ensures
            v == self.spec_value(),
            0 <= v <= 10,
    {
        proof {
            use_type_invariant(self);
        }
        self.0
    }

    /// Increments the weight index by 1, saturating at 10.
    pub fn increment(&self) -> (w: WeightIndex)
        ensures
            w.spec_value() == if self.spec_value() < 10 { self.spec_value() + 1 } else { 10 },
    {
        proof {
            use_type_invariant(self);
        }
        if self.0 < 10 {
            WeightIndex(self.0 + 1)
        } else {
            WeightIndex(10)
        }
    }

    /// Decrements the weight index by 1, saturating at 0.
    pub fn decrement(&self) -> (w: WeightIndex)
        ensures
            w.spec_value() == if self.spec_value() > 0 { self.spec_value() - 1 } else { 0 },
    {
        proof {
            use_type_invariant(self);
        }
        if self.0 > 0 {
            WeightIndex(self.0 - 1)
        } else {
            WeightIndex(0)
        }
    }
}

/// IAMF downmix information: a mode and an optional weight index.
#[derive(Debug, Clone, Copy, PartialEq, Eq, Structural)]
pub struct DownmixInfo {
    /// Demixing mode.
    pub mode: DownmixMode,
    /// Downmix weight index.
    pub weight_index: Option<WeightIndex>,
}

impl DownmixInfo {
    /// Creates downmix information.
    pub fn new(mode: DownmixMode, weight_index: Option<WeightIndex>) -> (d: Self)
        ensures
            d.mode == mode,
            d.weight_index == weight_index,
    {
        DownmixInfo { mode, weight_index }
    }

    /// Returns the demixing mode.
    pub fn mode(&self) -> (m: DownmixMode)
        ensures
            m == self.mode,
    {
        self.mode
    }

    /// Returns the weight index.
    pub fn weight_index(&self) -> (w: Option<WeightIndex>)
        ensures
            w == self.weight_index,
    {
        self.weight_index
    }
}

} // verus!
