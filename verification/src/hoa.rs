//! Higher order ambisonics orders.

use vstd::prelude::*;
use crate::definitions::OarError;

verus! {

/// Higher order ambisonics (HOA) orders, equivalent of the C API `oar_hoa_t`.
#[derive(Debug, Clone, Copy, PartialEq, Eq, Structural)]
pub enum HighOrderAmbisonics {
    /// Zeroth order ambisonics.
    Zoa,
    /// First order ambisonics.
    Order1,
    /// Second order ambisonics.
    Order2,
    /// Third order ambisonics.
    Order3,
    /// Fourth order ambisonics.
    Order4,
}

impl HighOrderAmbisonics {
    /// The order as a number.
    pub open spec fn spec_order(self) -> int {
        match self {
            HighOrderAmbisonics::Zoa => 0,
            HighOrderAmbisonics::Order1 => 1,
            HighOrderAmbisonics::Order2 => 2,
            HighOrderAmbisonics::Order3 => 3,
            HighOrderAmbisonics::Order4 => 4,
        }
    }

    /// Returns the order as a number (the C code of the order).
    pub fn value(&self) -> (v: i32)
        ensures
            v == self.spec_order(),
    {
        match self {
            HighOrderAmbisonics::Zoa => 0,
            HighOrderAmbisonics::Order1 => 1,
            HighOrderAmbisonics::Order2 => 2,
            HighOrderAmbisonics::Order3 => 3,
            HighOrderAmbisonics::Order4 => 4,
        }
    }

    /// Number of channels of this order.
    pub open spec fn spec_channels(self) -> int {
        (self.spec_order() + 1) * (self.spec_order() + 1)
    }

    /// Returns the number of channels of this order, `(order + 1)^2`.
    pub fn channels(&self) -> (n: usize)
        ensures
            n == self.spec_channels(),
    {
        assert(1 * 1 == 1 && 2 * 2 == 4 && 3 * 3 == 9 && 4 * 4 == 16 && 5 * 5 == 25) by (nonlinear_arith);
        match self {
            HighOrderAmbisonics::Zoa => 1,
            HighOrderAmbisonics::Order1 => 4,
            HighOrderAmbisonics::Order2 => 9,
            HighOrderAmbisonics::Order3 => 16,
            HighOrderAmbisonics::Order4 => 25,
        }
    }

    /// Converts a C order code (0 to 4) into an order.
    pub fn try_from(value: i32) -> (r: Result<HighOrderAmbisonics, OarError>)
        ensures
            0 <= value <= 4 ==> (r matches Ok(h) && h.spec_order() == value),
            !(0 <= value <= 4) ==> r == Err::<HighOrderAmbisonics, OarError>(OarError::InvalidParameter),
    {
        match value {
            0 => Ok(HighOrderAmbisonics::Zoa),
            1 => Ok(HighOrderAmbisonics::Order1),
            2 => Ok(HighOrderAmbisonics::Order2),
            3 => Ok(HighOrderAmbisonics::Order3),
            4 => Ok(HighOrderAmbisonics::Order4),
            _ => Err(OarError::InvalidParameter),
        }
    }
}

} // verus!
