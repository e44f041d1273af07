//! IEEE-754 binary interchange formats, held as bit patterns.
//!
//! A value is never converted or normalised here: it is the pattern of bits
//! that the hardware would hold, so a signalling NaN stays the NaN it was.

use vstd::prelude::*;

verus! {

/// A magnitude with its sign: below zero where the sign bit is set.
pub open spec fn signed(sign: bool, magnitude: nat) -> int {
    if sign {
        -(magnitude as int)
    } else {
        magnitude as int
    }
}

/// A value of an IEEE-754 binary format, seen through its three fields.
pub trait Ieee: Copy + Sized {
    /// The sign bit.
    spec fn sign(self) -> bool;

    /// The biased exponent field.
    spec fn exponent(self) -> nat;

    /// The fraction field.
    spec fn fraction(self) -> nat;

    /// The exponent field with every bit set.
    spec fn exponent_max() -> nat;

    /// The fraction's most significant bit, which tells a quiet NaN from a
    /// signalling one.
    spec fn quiet_bit() -> nat;

    /// The pattern without its sign bit, as a number: the exponent field
    /// above the fraction field. Among values that are no NaN, a larger
    /// magnitude is a value further from zero.
    spec fn magnitude(self) -> nat;

    /// Two patterns with the same three fields are the same pattern.
    proof fn fields_determine(self, other: Self)
        requires
            self.sign() == other.sign(),
            self.exponent() == other.exponent(),
            self.fraction() == other.fraction(),
        ensures
            self == other,
    ;

    /// Whether the value is a NaN: every exponent bit set, and a fraction
    /// that is not zero.
    fn is_nan(self) -> (r: bool)
        ensures
            r == (self.exponent() == Self::exponent_max() && self.fraction() != 0),
    ;

    /// Whether the value is an infinity: every exponent bit set, and a
    /// fraction of zero.
    fn is_infinite(self) -> (r: bool)
        ensures
            r == (self.exponent() == Self::exponent_max() && self.fraction() == 0),
    ;

    /// Whether the value is a zero of either sign.
    fn is_zero(self) -> (r: bool)
        ensures
            r == (self.exponent() == 0 && self.fraction() == 0),
    ;

    /// Whether the sign bit is set.
    fn is_sign_negative(self) -> (r: bool)
        ensures
            r == self.sign(),
    ;

    /// Whether two values are equal as numbers: neither is a NaN, and they
    /// are the same but for the sign of a zero.
    fn ieee_eq(self, other: Self) -> (r: bool)
        ensures
            r == (!(self.exponent() == Self::exponent_max() && self.fraction() != 0) && !(
            other.exponent() == Self::exponent_max() && other.fraction() != 0) && signed(
                self.sign(),
                self.magnitude(),
            ) == signed(other.sign(), other.magnitude())),
    ;

    /// Whether a value is less than another as a number: neither is a NaN,
    /// and the first lies below the second.
    fn ieee_lt(self, other: Self) -> (r: bool)
        ensures
            r == (!(self.exponent() == Self::exponent_max() && self.fraction() != 0) && !(
            other.exponent() == Self::exponent_max() && other.fraction() != 0) && signed(
                self.sign(),
                self.magnitude(),
            ) < signed(other.sign(), other.magnitude())),
    ;

    /// The value with its sign bit flipped and nothing else changed, which is
    /// what negation does to every value, a NaN included.
    fn negated(self) -> (r: Self)
        ensures
            r.sign() == !self.sign(),
            r.exponent() == self.exponent(),
            r.fraction() == self.fraction(),
    ;
}

/// The kinds of value that the fields tell apart. They are the same for
/// every format: the one impl below is for all of them.
pub trait Kind: Sized {
    /// A NaN: every exponent bit set, and a fraction that is not zero.
    spec fn nan(self) -> bool;

    /// An infinity: every exponent bit set, and a fraction of zero.
    spec fn infinite(self) -> bool;

    /// A zero of either sign.
    spec fn zero(self) -> bool;

    /// Where the value lies on the number line among the values of its
    /// format: its magnitude, below zero where the sign bit is set. The two
    /// zeros share the position 0. The position of a NaN means nothing.
    spec fn position(self) -> int;

    /// Equal as numbers. No NaN is equal to anything.
    spec fn same(self, other: Self) -> bool;

    /// Less as numbers. No NaN is less than anything, nor anything less than
    /// a NaN.
    spec fn below(self, other: Self) -> bool;
}

impl<F: Ieee> Kind for F {
    open spec fn nan(self) -> bool {
        self.exponent() == Self::exponent_max() && self.fraction() != 0
    }

    open spec fn infinite(self) -> bool {
        self.exponent() == Self::exponent_max() && self.fraction() == 0
    }

    open spec fn zero(self) -> bool {
        self.exponent() == 0 && self.fraction() == 0
    }

    open spec fn position(self) -> int {
        signed(self.sign(), self.magnitude())
    }

    open spec fn same(self, other: Self) -> bool {
        !self.nan() && !other.nan() && self.position() == other.position()
    }

    open spec fn below(self, other: Self) -> bool {
        !self.nan() && !other.nan() && self.position() < other.position()
    }
}

/// A binary32 value, held as its 32 bits.
#[derive(Clone, Copy, Debug, PartialEq, Eq, Structural)]
pub struct Binary32(pub u32);

/// A binary64 value, held as its 64 bits.
#[derive(Clone, Copy, Debug, PartialEq, Eq, Structural)]
pub struct Binary64(pub u64);

impl Ieee for Binary32 {
    open spec fn sign(self) -> bool {
        self.0 >= 0x8000_0000
    }

    open spec fn exponent(self) -> nat {
        ((self.0 / 0x80_0000) % 0x100) as nat
    }

    open spec fn fraction(self) -> nat {
        (self.0 % 0x80_0000) as nat
    }

    open spec fn exponent_max() -> nat {
        0xff
    }

    open spec fn quiet_bit() -> nat {
        0x40_0000
    }

    open spec fn magnitude(self) -> nat {
        (self.0 % 0x8000_0000) as nat
    }

    proof fn fields_determine(self, other: Self) {
        let a: u32 = self.0;
        let b: u32 = other.0;
        assert(a == b) by (bit_vector)
            requires
                (a >= 0x8000_0000u32) == (b >= 0x8000_0000u32),
                (a / 0x80_0000u32) % 0x100u32 == (b / 0x80_0000u32) % 0x100u32,
                a % 0x80_0000u32 == b % 0x80_0000u32,
        ;
    }

    fn is_nan(self) -> (r: bool) {
        let bits: u32 = self.0;
        assert((bits & 0x7fff_ffff) > 0x7f80_0000 <==> ((bits / 0x80_0000) % 0x100 == 0xff && bits
            % 0x80_0000 != 0)) by (bit_vector);
        (bits & 0x7fff_ffff) > 0x7f80_0000
    }

    fn is_infinite(self) -> (r: bool) {
        let bits: u32 = self.0;
        assert((bits & 0x7fff_ffff) == 0x7f80_0000 <==> ((bits / 0x80_0000) % 0x100 == 0xff && bits
            % 0x80_0000 == 0)) by (bit_vector);
        (bits & 0x7fff_ffff) == 0x7f80_0000
    }

    fn is_zero(self) -> (r: bool) {
        let bits: u32 = self.0;
        assert((bits & 0x7fff_ffff) == 0 <==> ((bits / 0x80_0000) % 0x100 == 0 && bits % 0x80_0000
            == 0)) by (bit_vector);
        (bits & 0x7fff_ffff) == 0
    }

    fn is_sign_negative(self) -> (r: bool) {
        let bits: u32 = self.0;
        assert((bits & 0x8000_0000) != 0 <==> bits >= 0x8000_0000) by (bit_vector);
        (bits & 0x8000_0000) != 0
    }

    fn ieee_eq(self, other: Self) -> (r: bool) {
        let a: u32 = self.0;
        let b: u32 = other.0;
        assert((a & 0x7fff_ffff) == a % 0x8000_0000 && (b & 0x7fff_ffff) == b % 0x8000_0000 && (a
            >= 0x8000_0000 ==> a % 0x8000_0000 == a - 0x8000_0000) && (a < 0x8000_0000 ==> a
            % 0x8000_0000 == a) && (b >= 0x8000_0000 ==> b % 0x8000_0000 == b - 0x8000_0000) && (b
            < 0x8000_0000 ==> b % 0x8000_0000 == b)) by (bit_vector);
        !self.is_nan() && !other.is_nan() && (a == b || ((a & 0x7fff_ffff) == 0 && (b & 0x7fff_ffff)
            == 0))
    }

    fn ieee_lt(self, other: Self) -> (r: bool) {
        let a: u32 = self.0;
        let b: u32 = other.0;
        assert((a & 0x7fff_ffff) == a % 0x8000_0000 && (b & 0x7fff_ffff) == b % 0x8000_0000 && (a
            >= 0x8000_0000 ==> a % 0x8000_0000 == a - 0x8000_0000) && (a < 0x8000_0000 ==> a
            % 0x8000_0000 == a) && (b >= 0x8000_0000 ==> b % 0x8000_0000 == b - 0x8000_0000) && (b
            < 0x8000_0000 ==> b % 0x8000_0000 == b)) by (bit_vector);
        if self.is_nan() || other.is_nan() {
            false
        } else if a >= 0x8000_0000 {
            if b >= 0x8000_0000 {
                a > b
            } else {
                (a & 0x7fff_ffff) != 0 || b != 0
            }
        } else {
            b < 0x8000_0000 && a < b
        }
    }

    fn negated(self) -> (r: Self) {
        let bits: u32 = self.0;
        let flipped: u32 = bits ^ 0x8000_0000;
        assert((flipped >= 0x8000_0000u32) == !(bits >= 0x8000_0000u32) && (flipped / 0x80_0000u32)
            % 0x100u32 == (bits / 0x80_0000u32) % 0x100u32 && flipped % 0x80_0000u32 == bits
            % 0x80_0000u32) by (bit_vector)
            requires
                flipped == bits ^ 0x8000_0000u32,
        ;
        Binary32(flipped)
    }
}

impl Ieee for Binary64 {
    open spec fn sign(self) -> bool {
        self.0 >= 0x8000_0000_0000_0000
    }

    open spec fn exponent(self) -> nat {
        ((self.0 / 0x10_0000_0000_0000) % 0x800) as nat
    }

    open spec fn fraction(self) -> nat {
        (self.0 % 0x10_0000_0000_0000) as nat
    }

    open spec fn exponent_max() -> nat {
        0x7ff
    }

    open spec fn quiet_bit() -> nat {
        0x8_0000_0000_0000
    }

    open spec fn magnitude(self) -> nat {
        (self.0 % 0x8000_0000_0000_0000) as nat
    }

    proof fn fields_determine(self, other: Self) {
        let a: u64 = self.0;
        let b: u64 = other.0;
        assert(a == b) by (bit_vector)
            requires
                (a >= 0x8000_0000_0000_0000u64) == (b >= 0x8000_0000_0000_0000u64),
                (a / 0x10_0000_0000_0000u64) % 0x800u64 == (b / 0x10_0000_0000_0000u64) % 0x800u64,
                a % 0x10_0000_0000_0000u64 == b % 0x10_0000_0000_0000u64,
        ;
    }

    fn is_nan(self) -> (r: bool) {
        let bits: u64 = self.0;
        assert((bits & 0x7fff_ffff_ffff_ffff) > 0x7ff0_0000_0000_0000 <==> ((bits
            / 0x10_0000_0000_0000) % 0x800 == 0x7ff && bits % 0x10_0000_0000_0000 != 0))
            by (bit_vector);
        (bits & 0x7fff_ffff_ffff_ffff) > 0x7ff0_0000_0000_0000
    }

    fn is_infinite(self) -> (r: bool) {
        let bits: u64 = self.0;
        assert((bits & 0x7fff_ffff_ffff_ffff) == 0x7ff0_0000_0000_0000 <==> ((bits
            / 0x10_0000_0000_0000) % 0x800 == 0x7ff && bits % 0x10_0000_0000_0000 == 0))
            by (bit_vector);
        (bits & 0x7fff_ffff_ffff_ffff) == 0x7ff0_0000_0000_0000
    }

    fn is_zero(self) -> (r: bool) {
        let bits: u64 = self.0;
        assert((bits & 0x7fff_ffff_ffff_ffff) == 0 <==> ((bits / 0x10_0000_0000_0000) % 0x800 == 0
            && bits % 0x10_0000_0000_0000 == 0)) by (bit_vector);
        (bits & 0x7fff_ffff_ffff_ffff) == 0
    }

    fn is_sign_negative(self) -> (r: bool) {
        let bits: u64 = self.0;
        assert((bits & 0x8000_0000_0000_0000) != 0 <==> bits >= 0x8000_0000_0000_0000)
            by (bit_vector);
        (bits & 0x8000_0000_0000_0000) != 0
    }

    fn ieee_eq(self, other: Self) -> (r: bool) {
        let a: u64 = self.0;
        let b: u64 = other.0;
        assert((a & 0x7fff_ffff_ffff_ffff) == a % 0x8000_0000_0000_0000 && (b & 0x7fff_ffff_ffff_ffff) == b % 0x8000_0000_0000_0000 && (a
            >= 0x8000_0000_0000_0000 ==> a % 0x8000_0000_0000_0000 == a - 0x8000_0000_0000_0000) && (a < 0x8000_0000_0000_0000 ==> a
            % 0x8000_0000_0000_0000 == a) && (b >= 0x8000_0000_0000_0000 ==> b % 0x8000_0000_0000_0000 == b - 0x8000_0000_0000_0000) && (b
            < 0x8000_0000_0000_0000 ==> b % 0x8000_0000_0000_0000 == b)) by (bit_vector);
        !self.is_nan() && !other.is_nan() && (a == b || ((a & 0x7fff_ffff_ffff_ffff) == 0 && (b & 0x7fff_ffff_ffff_ffff)
            == 0))
    }

    fn ieee_lt(self, other: Self) -> (r: bool) {
        let a: u64 = self.0;
        let b: u64 = other.0;
        assert((a & 0x7fff_ffff_ffff_ffff) == a % 0x8000_0000_0000_0000 && (b & 0x7fff_ffff_ffff_ffff) == b % 0x8000_0000_0000_0000 && (a
            >= 0x8000_0000_0000_0000 ==> a % 0x8000_0000_0000_0000 == a - 0x8000_0000_0000_0000) && (a < 0x8000_0000_0000_0000 ==> a
            % 0x8000_0000_0000_0000 == a) && (b >= 0x8000_0000_0000_0000 ==> b % 0x8000_0000_0000_0000 == b - 0x8000_0000_0000_0000) && (b
            < 0x8000_0000_0000_0000 ==> b % 0x8000_0000_0000_0000 == b)) by (bit_vector);
        if self.is_nan() || other.is_nan() {
            false
        } else if a >= 0x8000_0000_0000_0000 {
            if b >= 0x8000_0000_0000_0000 {
                a > b
            } else {
                (a & 0x7fff_ffff_ffff_ffff) != 0 || b != 0
            }
        } else {
            b < 0x8000_0000_0000_0000 && a < b
        }
    }

    fn negated(self) -> (r: Self) {
        let bits: u64 = self.0;
        let flipped: u64 = bits ^ 0x8000_0000_0000_0000;
        assert((flipped >= 0x8000_0000_0000_0000u64) == !(bits >= 0x8000_0000_0000_0000u64) && (
        flipped / 0x10_0000_0000_0000u64) % 0x800u64 == (bits / 0x10_0000_0000_0000u64) % 0x800u64
            && flipped % 0x10_0000_0000_0000u64 == bits % 0x10_0000_0000_0000u64) by (bit_vector)
            requires
                flipped == bits ^ 0x8000_0000_0000_0000u64,
        ;
        Binary64(flipped)
    }
}

} // verus!
