//! From acceleration to tilt angles.
//!
//! Pitch is the angle whose tangent is `y / (x^2 + z^2)`, and roll the one whose
//! tangent is `x / (y^2 + z^2)`, with the acceleration in g. The divisor is the
//! sum of the squares of the other two axes as it stands, not its root. This
//! module fixes the two quantities that enter each arctangent; evaluating the
//! arctangent is left to the caller.

use crate::mpu6886::{AccData, COUNTS_PER_G};
use vstd::prelude::*;

verus! {

/// The angle of the point `(adjacent, opposite)`, counter-clockwise from the
/// positive `adjacent` axis: the two arguments of an arctangent.
#[derive(Debug, Clone, Copy, PartialEq, Eq, Structural)]
pub struct Slope {
    pub opposite: i64,
    pub adjacent: i64,
}

/// The slope of the pitch angle. Both sides are scaled by the square of
/// `COUNTS_PER_G`, which leaves the angle as it is.
pub open spec fn pitch_of(acc: AccData) -> Slope {
    Slope {
        opposite: (acc.y * COUNTS_PER_G) as i64,
        adjacent: (acc.x * acc.x + acc.z * acc.z) as i64,
    }
}

/// The slope of the roll angle, scaled as that of the pitch.
pub open spec fn roll_of(acc: AccData) -> Slope {
    Slope {
        opposite: (acc.x * COUNTS_PER_G) as i64,
        adjacent: (acc.y * acc.y + acc.z * acc.z) as i64,
    }
}

fn square(count: i16) -> (out: i64)
    ensures
        out == count * count,
        0 <= out <= 0x4000_0000,
{
    let wide: i64 = count as i64;
    assert(0 <= wide * wide <= 0x4000_0000) by (nonlinear_arith)
        requires
            -0x8000 <= wide <= 0x8000,
    ;
    wide * wide
}

impl AccData {
    /// What the arctangent of the pitch is taken of.
    pub fn pitch_slope(&self) -> (out: Slope)
        ensures
            out == pitch_of(*self),
            out.opposite == self.y * COUNTS_PER_G,
            out.adjacent == self.x * self.x + self.z * self.z,
    {
        Slope {
            opposite: self.y as i64 * COUNTS_PER_G as i64,
            adjacent: square(self.x) + square(self.z),
        }
    }

    /// What the arctangent of the roll is taken of.
    pub fn roll_slope(&self) -> (out: Slope)
        ensures
            out == roll_of(*self),
            out.opposite == self.x * COUNTS_PER_G,
            out.adjacent == self.y * self.y + self.z * self.z,
    {
        Slope {
            opposite: self.x as i64 * COUNTS_PER_G as i64,
            adjacent: square(self.y) + square(self.z),
        }
    }
}

} // verus!
