//! Adjusting sizes to the DPI of the screen.

use vstd::prelude::*;
use crate::structs::SIZE;

verus! {

/// The DPI that sizes are given for.
pub const BASE_DPI: i32 = 96;

/// What is handed to the native function that multiplies two numbers and
/// divides the product by a third, rounding to the nearest integer.
#[derive(Clone, Copy, Debug, PartialEq, Eq, Structural)]
pub struct MulDiv {
    pub number: i32,
    pub numerator: i32,
    pub denominator: i32,
}

/// The DPI of the screen, horizontal and vertical, as it was read; both zero
/// while it was not read yet.
#[derive(Clone, Copy, Debug, PartialEq, Eq, Structural)]
pub struct Dpi {
    pub x: i32,
    pub y: i32,
}

impl Dpi {
    /// The DPI before it is read.
    pub fn unread() -> (r: Dpi)
        ensures
            r == (Dpi { x: 0, y: 0 }),
    {
        Dpi { x: 0, y: 0 }
    }

    /// Whether the DPI is still to be read from the screen.
    pub fn is_unread(&self) -> (r: bool)
        ensures
            r == (self.x == 0),
    {
        self.x == 0
    }
}

/// The two calls that multiply a size by the system DPI: each extent times
/// the DPI of its direction, over the DPI that sizes are given for. What the
/// calls return is the adjusted extent, horizontal and vertical.
pub fn multiply_dpi(sz: SIZE, dpi: Dpi) -> (r: (MulDiv, MulDiv))
    ensures
        r.0 == (MulDiv { number: sz.cx, numerator: dpi.x, denominator: BASE_DPI }),
        r.1 == (MulDiv { number: sz.cy, numerator: dpi.y, denominator: BASE_DPI }),
{
    (
        MulDiv { number: sz.cx, numerator: dpi.x, denominator: BASE_DPI },
        MulDiv { number: sz.cy, numerator: dpi.y, denominator: BASE_DPI },
    )
}

} // verus!
