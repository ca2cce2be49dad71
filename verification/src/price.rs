use vstd::prelude::*;

verus! {

/// A monetary amount, held as the bit pattern of its IEEE 754 binary64 value.
#[derive(Debug, Clone, Copy, PartialEq, Eq, Structural)]
pub struct Price {
    pub bits: u64,
}

/// The bit pattern of the sign bit alone.
pub const SIGN_BIT: u64 = 0x8000_0000_0000_0000;

/// The bit pattern of positive infinity; larger magnitudes are not numbers.
pub const INFINITY: u64 = 0x7FF0_0000_0000_0000;

impl Price {
    /// The pattern without its sign.
    pub open spec fn spec_magnitude(self) -> int {
        if self.bits >= SIGN_BIT {
            self.bits - SIGN_BIT
        } else {
            self.bits as int
        }
    }

    /// Whether the pattern stands for a number (infinities included).
    pub open spec fn is_number(self) -> bool {
        self.spec_magnitude() <= INFINITY
    }

    /// The place of a number on the line of all binary64 numbers: the numbers
    /// are ordered as their ranks are, and both zeros have rank zero.
    pub open spec fn rank(self) -> int {
        if self.bits >= SIGN_BIT {
            -self.spec_magnitude()
        } else {
            self.spec_magnitude()
        }
    }

    /// The order `>` of binary64: false as soon as one side is not a number.
    pub open spec fn above(self, other: Price) -> bool {
        self.is_number() && other.is_number() && self.rank() > other.rank()
    }

    /// Zero.
    pub open spec fn spec_zero() -> Price {
        Price { bits: 0 }
    }

    /// Zero.
    pub fn zero() -> (r: Price)
        ensures
            r == Price::spec_zero(),
    {
        Price { bits: 0 }
    }

    fn magnitude(self) -> (r: u64)
        ensures
            r == self.spec_magnitude(),
    {
        if self.bits >= SIGN_BIT {
            self.bits - SIGN_BIT
        } else {
            self.bits
        }
    }

    /// `self > other`, as binary64 compares.
    pub fn is_above(self, other: Price) -> (r: bool)
        ensures
            r == self.above(other),
    {
        let a: u64 = self.magnitude();
        let b: u64 = other.magnitude();
        if a > INFINITY || b > INFINITY {
            return false;
        }
        if self.bits >= SIGN_BIT {
            other.bits >= SIGN_BIT && a < b
        } else if other.bits >= SIGN_BIT {
            a > 0 || b > 0
        } else {
            a > b
        }
    }
}

/// `above` is a strict order, total on the numbers up to the two zeros; what is
/// no number is above nothing and below nothing.
pub proof fn law_above_is_strict_order(a: Price, b: Price, c: Price)
    ensures
        !a.above(a),
        a.above(b) ==> !b.above(a),
        a.above(b) && b.above(c) ==> a.above(c),
        a.is_number() && b.is_number() && !a.above(b) && !b.above(a) ==> a.rank() == b.rank(),
        !a.is_number() ==> !a.above(b) && !b.above(a),
{
}

/// The order in terms of the bit patterns. Positive numbers compare as their
/// patterns do and negative ones the other way round; a positive number is
/// above a negative one, but for the two zeros, which are equal; and a pattern
/// beyond infinity compares with nothing.
pub proof fn law_order_by_bits(a: Price, b: Price)
    ensures
        a.bits <= 0x7FF0_0000_0000_0000 && b.bits <= 0x7FF0_0000_0000_0000 ==> (a.above(b)
            <==> a.bits > b.bits),
        0x8000_0000_0000_0000 <= a.bits <= 0xFFF0_0000_0000_0000 && 0x8000_0000_0000_0000 <= b.bits
            <= 0xFFF0_0000_0000_0000 ==> (a.above(b) <==> a.bits < b.bits),
        a.bits <= 0x7FF0_0000_0000_0000 && 0x8000_0000_0000_0000 <= b.bits
            <= 0xFFF0_0000_0000_0000 ==> (a.above(b) <==> a.bits != 0 || b.bits
            != 0x8000_0000_0000_0000) && !b.above(a),
        0x7FF0_0000_0000_0000 < a.bits < 0x8000_0000_0000_0000 || a.bits > 0xFFF0_0000_0000_0000
            ==> !a.above(b) && !b.above(a),
{
}

/// What is above zero: the patterns from the smallest positive number up to
/// infinity.
pub proof fn law_above_zero(a: Price)
    ensures
        Price::spec_zero().bits == 0,
        a.above(Price::spec_zero()) <==> 0 < a.bits <= 0x7FF0_0000_0000_0000,
{
}

} // verus!
