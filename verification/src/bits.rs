//! IEEE 754 numbers carried by their bit patterns.

use vstd::prelude::*;

verus! {

/// A single-precision number by its bits.
#[derive(Debug, Clone, Copy, PartialEq, Eq, Structural)]
pub struct F32Bits {
    pub bits: u32,
}

/// A double-precision number by its bits.
#[derive(Debug, Clone, Copy, PartialEq, Eq, Structural)]
pub struct F64Bits {
    pub bits: u64,
}

/// Bits of positive infinity; every larger magnitude is a NaN.
pub const F64_INFINITY: u64 = 0x7FF0_0000_0000_0000;

/// The sign bit.
pub const F64_SIGN: u64 = 0x8000_0000_0000_0000;

impl F64Bits {
    /// The number with these bits.
    #[verifier::allow_in_spec]
    pub fn of(bits: u64) -> (r: Self)
        returns
            (F64Bits { bits }),
    {
        F64Bits { bits }
    }

    /// Positive zero.
    pub open spec fn zero() -> Self {
        F64Bits { bits: 0 }
    }

    /// Not a number: a magnitude above infinity's.
    pub open spec fn is_nan(self) -> bool {
        self.bits as int % F64_SIGN as int > F64_INFINITY
    }

    /// The sign bit is set.
    pub open spec fn is_signed(self) -> bool {
        self.bits >= F64_SIGN
    }

    /// Place on the number line; both zeros stand at 0.
    pub open spec fn rank(self) -> int {
        if self.is_signed() {
            F64_SIGN - self.bits
        } else {
            self.bits as int
        }
    }

    /// IEEE 754 less-than: never with a NaN.
    pub open spec fn lt(self, other: Self) -> bool {
        !self.is_nan() && !other.is_nan() && self.rank() < other.rank()
    }

    /// The magnitude.
    pub open spec fn magnitude(self) -> Self {
        F64Bits { bits: (self.bits as int % F64_SIGN as int) as u64 }
    }

    /// The number with its sign turned.
    pub open spec fn negated(self) -> Self {
        if self.is_signed() {
            F64Bits { bits: (self.bits - F64_SIGN) as u64 }
        } else {
            F64Bits { bits: (self.bits + F64_SIGN) as u64 }
        }
    }

    /// The number held between two bounds; a NaN stays one.
    pub open spec fn clamped(self, low: Self, high: Self) -> Self {
        if self.lt(low) {
            low
        } else if high.lt(self) {
            high
        } else {
            self
        }
    }

    /// Tests for a NaN.
    pub fn nan(self) -> (r: bool)
        ensures
            r == self.is_nan(),
    {
        self.abs().bits > F64_INFINITY
    }

    pub fn abs(self) -> (r: Self)
        ensures
            r == self.magnitude(),
            !r.is_signed(),
            r.is_nan() == self.is_nan(),
    {
        if self.bits >= F64_SIGN {
            F64Bits { bits: self.bits - F64_SIGN }
        } else {
            self
        }
    }

    pub fn neg(self) -> (r: Self)
        ensures
            r == self.negated(),
            r.rank() == -self.rank(),
            r.is_nan() == self.is_nan(),
    {
        if self.bits >= F64_SIGN {
            F64Bits { bits: self.bits - F64_SIGN }
        } else {
            F64Bits { bits: self.bits + F64_SIGN }
        }
    }

    /// IEEE 754 `<`.
    pub fn less(self, other: Self) -> (r: bool)
        ensures
            r == self.lt(other),
    {
        if self.nan() || other.nan() {
            return false;
        }
        let a: u64 = self.abs().bits;
        let b: u64 = other.abs().bits;
        if self.bits >= F64_SIGN {
            if other.bits >= F64_SIGN {
                a > b
            } else {
                a > 0 || b > 0
            }
        } else {
            other.bits < F64_SIGN && a < b
        }
    }

    /// The number held between `low` and `high`.
    pub fn clamp(self, low: Self, high: Self) -> (r: Self)
        requires
            !low.is_nan(),
            !high.is_nan(),
            low.rank() <= high.rank(),
        ensures
            r == self.clamped(low, high),
            r.is_nan() == self.is_nan(),
            !self.is_nan() ==> low.rank() <= r.rank() <= high.rank(),
    {
        if self.less(low) {
            low
        } else if high.less(self) {
            high
        } else {
            self
        }
    }

    /// The number where it is not negative, else zero; a NaN becomes zero.
    pub open spec fn at_least_zero(self) -> Self {
        if self.is_nan() || self.is_signed() {
            F64Bits::zero()
        } else {
            self
        }
    }

    /// The larger of the number and zero.
    pub fn max_zero(self) -> (r: Self)
        ensures
            r == self.at_least_zero(),
            !r.is_nan(),
            !r.is_signed(),
    {
        if self.bits > F64_INFINITY {
            F64Bits { bits: 0 }
        } else {
            self
        }
    }
}

/// The order of numbers by their patterns: patterns of non-negative numbers order as
/// integers, those of negative numbers the other way round, every negative number but
/// minus zero lies below every non-negative one, and a NaN is in no order.
pub proof fn patterns_order_numbers(a: u64, b: u64)
    ensures
        ({
            let (x, y) = (F64Bits { bits: a }, F64Bits { bits: b });
            let inf = 0x7FF0_0000_0000_0000u64;
            let sign = 0x8000_0000_0000_0000u64;
            &&& a <= inf && b <= inf ==> (x.lt(y) <==> a < b)
            &&& sign <= a <= sign + inf && sign <= b <= sign + inf ==> (x.lt(y) <==> b < a)
            &&& sign <= a <= sign + inf && b <= inf ==> (x.lt(y) <==> a > sign || b > 0)
            &&& a <= inf && sign <= b <= sign + inf ==> !x.lt(y)
            &&& (inf < a < sign || a > sign + inf) ==> !x.lt(y) && !y.lt(x)
        }),
{
}

/// Less-than is a strict order, and numbers that are not equal compare one way or the
/// other.
pub proof fn less_than_is_an_order(x: F64Bits, y: F64Bits, z: F64Bits)
    ensures
        !x.lt(x),
        x.lt(y) ==> !y.lt(x),
        x.lt(y) && y.lt(z) ==> x.lt(z),
        !x.is_nan() && !y.is_nan() && x.bits != y.bits && !(x.magnitude().bits == 0
            && y.magnitude().bits == 0) ==> x.lt(y) || y.lt(x),
{
}

/// A NaN is a pattern whose magnitude lies above infinity's, and nothing else is.
pub proof fn nan_patterns(x: F64Bits)
    ensures
        x.is_nan() <==> 0x7FF0_0000_0000_0000 < x.bits < 0x8000_0000_0000_0000 || x.bits
            > 0xFFF0_0000_0000_0000,
{
}

/// Turning the sign changes the sign alone, twice is not at all, and the order is
/// reversed. The magnitude is the number or its negative, whichever has no sign.
pub proof fn sign_turns(x: F64Bits, y: F64Bits)
    ensures
        x.negated().is_signed() == !x.is_signed(),
        x.negated().negated() == x,
        x.negated().bits as int % 0x8000_0000_0000_0000 == x.bits as int % 0x8000_0000_0000_0000,
        x.lt(y) <==> y.negated().lt(x.negated()),
        x.is_signed() <==> x.bits >= 0x8000_0000_0000_0000,
        x.magnitude() == (if x.bits >= 0x8000_0000_0000_0000 {
            x.negated()
        } else {
            x
        }),
{
}

/// A number within the bounds is kept as it is, one below becomes the lower bound, one
/// above the upper; the order of two numbers is never turned round, and clamping again
/// changes nothing.
pub proof fn clamping(x: F64Bits, y: F64Bits, low: F64Bits, high: F64Bits)
    requires
        !low.is_nan(),
        !high.is_nan(),
        !high.lt(low),
    ensures
        !x.lt(low) && !high.lt(x) ==> x.clamped(low, high) == x,
        x.lt(low) ==> x.clamped(low, high) == low,
        high.lt(x) ==> x.clamped(low, high) == high,
        x.is_nan() ==> x.clamped(low, high) == x,
        !x.is_nan() && !y.is_nan() && !y.lt(x) ==> !y.clamped(low, high).lt(x.clamped(low, high)),
        x.clamped(low, high).clamped(low, high) == x.clamped(low, high),
{
}

/// The larger of a number and zero: a non-negative number is kept as it is, anything
/// else becomes plus zero.
pub proof fn negative_becomes_zero(x: F64Bits)
    ensures
        x.bits <= 0x7FF0_0000_0000_0000 ==> x.at_least_zero() == x,
        x.bits > 0x7FF0_0000_0000_0000 ==> x.at_least_zero().bits == 0,
        F64Bits::zero().bits == 0,
{
}

} // verus!
