//! Single-precision numbers, held by their bits and compared as integers.

use vstd::prelude::*;

verus! {

/// A single-precision number (IEEE 754 binary32), as its 32 bits.
#[derive(Debug, Clone, Copy, PartialEq, Eq, Structural)]
pub struct F32Bits {
    pub bits: u32,
}

/// The sign bit.
pub const SIGN: u32 = 0x8000_0000;

/// The bits of positive infinity: the largest magnitude that is a number.
pub const INFINITY: u32 = 0x7F80_0000;

impl F32Bits {
    /// The bits without the sign.
    pub open spec fn magnitude(self) -> int {
        if self.bits >= SIGN {
            self.bits - SIGN
        } else {
            self.bits as int
        }
    }

    /// Whether the bits stand for no number.
    pub open spec fn is_nan(self) -> bool {
        self.magnitude() > INFINITY
    }

    /// The place of the number among all numbers: of two numbers, the greater has the greater
    /// rank, and both zeros have the same.
    pub open spec fn rank(self) -> int {
        if self.bits >= SIGN {
            -self.magnitude()
        } else {
            self.magnitude()
        }
    }

    /// Whether this number is greater than `other`. No comparison with what is no number holds.
    pub open spec fn greater_than(self, other: F32Bits) -> bool {
        !self.is_nan() && !other.is_nan() && self.rank() > other.rank()
    }

    /// Decides whether this number is greater than `other`.
    pub fn gt(self, other: F32Bits) -> (r: bool)
        ensures
            r == self.greater_than(other),
    {
        let a: u32 = if self.bits >= SIGN {
            self.bits - SIGN
        } else {
            self.bits
        };
        let b: u32 = if other.bits >= SIGN {
            other.bits - SIGN
        } else {
            other.bits
        };
        if a > INFINITY || b > INFINITY {
            return false;
        }
        if self.bits >= SIGN {
            other.bits >= SIGN && a < b
        } else if other.bits >= SIGN {
            a > 0 || b > 0
        } else {
            a > b
        }
    }
}

/// Numbers are compared as numbers: of two that are not negative the one with the greater bits is
/// the greater, of two negative ones the one with the lesser, anything but zero that is not
/// negative is greater than any negative one, the two zeros are the same, and what is no number is
/// neither greater nor less than anything.
pub proof fn law_comparison(a: F32Bits, b: F32Bits, r: bool)
    requires
        call_ensures(F32Bits::gt, (a, b), r),
    ensures
        ({
            let nan_a = a.bits % 0x8000_0000 > 0x7F80_0000;
            let nan_b = b.bits % 0x8000_0000 > 0x7F80_0000;
            let below_a = a.bits >= 0x8000_0000;
            let below_b = b.bits >= 0x8000_0000;
            &&& nan_a || nan_b ==> !r
            &&& !nan_a && !nan_b && !below_a && !below_b ==> (r <==> a.bits > b.bits)
            &&& !nan_a && !nan_b && below_a && below_b ==> (r <==> a.bits < b.bits)
            &&& !nan_a && !nan_b && !below_a && below_b ==> (r <==> !(a.bits == 0 && b.bits
                == 0x8000_0000))
            &&& below_a && !below_b ==> !r
        }),
{
}

} // verus!
