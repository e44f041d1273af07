//! A small index carried in the low fraction bits of a NaN.
//!
//! The field holds the index plus one, so that a field of zero is left to
//! mean a NaN that carries nothing: the NaN that hardware produces, or one
//! that came from outside.

use crate::ieee::{Binary32, Binary64, Ieee, Kind};
use vstd::prelude::*;

verus! {

/// The index is too large for the payload field.
#[derive(Clone, Copy, Debug, PartialEq, Eq, Structural)]
pub struct PayloadOverflow;

/// What a bit pattern holds, as far as payloads go.
#[derive(Debug, PartialEq, Eq, Structural)]
pub enum Decoded<T> {
    /// Not a NaN at all.
    NotNaN,
    /// A NaN whose payload field is zero.
    EmptyNaN,
    /// A NaN that carries this index.
    Payload(T),
}

/// A format whose NaNs can carry an index of type `T`.
pub trait NanPack<T>: Ieee {
    /// The number of values that the payload field can take. The field is
    /// the fraction modulo this.
    spec fn payload_modulus() -> nat;

    /// An index as a number.
    spec fn number_of(index: T) -> nat;

    /// The index that a number stands for.
    spec fn index_of(number: nat) -> T;

    /// The quiet NaN of positive sign whose payload field holds `index + 1`
    /// and whose other fraction bits below the quiet bit are zero.
    spec fn encoded(index: T) -> Self;

    /// The quiet NaN of positive sign with a fraction of the quiet bit alone.
    spec fn empty_nan() -> Self;

    /// What `encoded` is, field by field, for every index that fits.
    proof fn encoded_fields(index: T)
        requires
            Self::number_of(index) + 1 < Self::payload_modulus(),
        ensures
            !Self::encoded(index).sign(),
            Self::encoded(index).exponent() == Self::exponent_max(),
            Self::encoded(index).fraction() == Self::quiet_bit() + Self::number_of(index) + 1,
            Self::encoded(index).fraction() % Self::payload_modulus() == Self::number_of(index)
                + 1,
            Self::index_of(Self::number_of(index)) == index,
    ;

    /// What `empty_nan` is, field by field.
    proof fn empty_nan_fields()
        ensures
            !Self::empty_nan().sign(),
            Self::empty_nan().exponent() == Self::exponent_max(),
            Self::empty_nan().fraction() == Self::quiet_bit(),
            Self::quiet_bit() != 0,
            Self::quiet_bit() % Self::payload_modulus() == 0,
    ;

    /// The NaN that carries `val`, or `PayloadOverflow` where `val + 1` does
    /// not fit the payload field.
    fn set_payload(val: T) -> (r: Result<Self, PayloadOverflow>)
        ensures
            r == if Self::number_of(val) + 1 < Self::payload_modulus() {
                Ok::<Self, PayloadOverflow>(Self::encoded(val))
            } else {
                Err::<Self, PayloadOverflow>(PayloadOverflow)
            },
    ;

    /// Whether the value is a NaN whose payload field is not zero.
    fn is_payloaded(self) -> (r: bool)
        ensures
            r == (self.nan() && self.fraction() % Self::payload_modulus() != 0),
    ;

    /// The index that the value carries: its payload field less one, where
    /// the value is a NaN and the field is not zero.
    fn get_payload(self) -> (r: Option<T>)
        ensures
            r == if self.nan() && self.fraction() % Self::payload_modulus() != 0 {
                Some(Self::index_of((self.fraction() % Self::payload_modulus() - 1) as nat))
            } else {
                None
            },
    ;

    /// Tells apart a value that is no NaN, a NaN that carries nothing, and a
    /// NaN that carries an index.
    fn decode(self) -> (r: Decoded<T>)
        ensures
            r == if !self.nan() {
                Decoded::NotNaN
            } else if self.fraction() % Self::payload_modulus() == 0 {
                Decoded::EmptyNaN
            } else {
                Decoded::Payload(
                    Self::index_of((self.fraction() % Self::payload_modulus() - 1) as nat),
                )
            },
    ;

    fn empty() -> (r: Self)
        ensures
            r == Self::empty_nan(),
    ;
}

/// What a value carries, stated once for every format.
pub trait Payload<T>: Sized {
    /// The payload field.
    spec fn payload_bits(self) -> nat;

    /// Whether the payload field has room for `index + 1`.
    spec fn encodable(index: T) -> bool;

    /// A NaN whose payload field is not zero.
    spec fn payloaded(self) -> bool;

    /// The index carried, if any.
    spec fn payload(self) -> Option<T>;

    /// What `decode` gives.
    spec fn decoded(self) -> Decoded<T>;
}

impl<T, F: NanPack<T>> Payload<T> for F {
    open spec fn payload_bits(self) -> nat {
        self.fraction() % Self::payload_modulus()
    }

    open spec fn encodable(index: T) -> bool {
        Self::number_of(index) + 1 < Self::payload_modulus()
    }

    open spec fn payloaded(self) -> bool {
        self.nan() && self.payload_bits() != 0
    }

    open spec fn payload(self) -> Option<T> {
        if self.payloaded() {
            Some(Self::index_of((self.payload_bits() - 1) as nat))
        } else {
            None
        }
    }

    open spec fn decoded(self) -> Decoded<T> {
        if !self.nan() {
            Decoded::NotNaN
        } else if self.payload_bits() == 0 {
            Decoded::EmptyNaN
        } else {
            Decoded::Payload(Self::index_of((self.payload_bits() - 1) as nat))
        }
    }
}

pub const F32_PAYLOAD_MASK: u32 = 0x1F_FFFF;

pub const F32_EMPTY_NAN: u32 = 0x7fc0_0000;

pub const F64_PAYLOAD_MASK: u64 = 0x7_FFFF_FFFF_FFFF;

pub const F64_EMPTY_NAN: u64 = 0x7ff8_0000_0000_0000;

/// The payload field of a binary32 is its low 21 bits.
impl NanPack<usize> for Binary32 {
    open spec fn payload_modulus() -> nat {
        0x20_0000
    }

    open spec fn number_of(index: usize) -> nat {
        index as nat
    }

    open spec fn index_of(number: nat) -> usize {
        number as usize
    }

    open spec fn encoded(index: usize) -> Self {
        Binary32((F32_EMPTY_NAN + index + 1) as u32)
    }

    open spec fn empty_nan() -> Self {
        Binary32(F32_EMPTY_NAN)
    }

    proof fn encoded_fields(index: usize) {
        let p: u32 = (index + 1) as u32;
        let bits: u32 = (0x7fc0_0000 + p) as u32;
        assert(bits < 0x8000_0000u32 && (bits / 0x80_0000u32) % 0x100u32 == 0xffu32 && bits
            % 0x80_0000u32 == 0x40_0000u32 + p && (bits % 0x80_0000u32) % 0x20_0000u32 == p)
            by (bit_vector)
            requires
                0 < p < 0x20_0000u32,
                bits == 0x7fc0_0000u32 + p,
        ;
    }

    proof fn empty_nan_fields() {
    }

    fn set_payload(val: usize) -> (r: Result<Self, PayloadOverflow>) {
        if val < 0x1F_FFFF {
            let p: u32 = val as u32 + 1;
            assert(0x7fc0_0000u32 | p == 0x7fc0_0000u32 + p) by (bit_vector)
                requires
                    p < 0x20_0000u32,
            ;
            Ok(Binary32(F32_EMPTY_NAN | p))
        } else {
            Err(PayloadOverflow)
        }
    }

    fn is_payloaded(self) -> (r: bool) {
        let bits: u32 = self.0;
        assert((bits & 0x1F_FFFFu32) == (bits % 0x80_0000u32) % 0x20_0000u32) by (bit_vector);
        self.is_nan() && (bits & F32_PAYLOAD_MASK) > 0
    }

    fn get_payload(self) -> (r: Option<usize>) {
        if !self.is_payloaded() {
            return None;
        }
        let bits: u32 = self.0;
        assert((bits & 0x1F_FFFFu32) == (bits % 0x80_0000u32) % 0x20_0000u32) by (bit_vector);
        let p: u32 = bits & F32_PAYLOAD_MASK;
        Some((p - 1) as usize)
    }

    fn decode(self) -> (r: Decoded<usize>) {
        if !self.is_nan() {
            Decoded::NotNaN
        } else {
            match self.get_payload() {
                Some(index) => Decoded::Payload(index),
                None => Decoded::EmptyNaN,
            }
        }
    }

    fn empty() -> (r: Self) {
        Binary32(F32_EMPTY_NAN)
    }
}

/// The payload field of a binary64 is its low 51 bits: all of the fraction
/// below the quiet bit.
impl NanPack<usize> for Binary64 {
    open spec fn payload_modulus() -> nat {
        0x8_0000_0000_0000
    }

    open spec fn number_of(index: usize) -> nat {
        index as nat
    }

    open spec fn index_of(number: nat) -> usize {
        number as usize
    }

    open spec fn encoded(index: usize) -> Self {
        Binary64((F64_EMPTY_NAN + index + 1) as u64)
    }

    open spec fn empty_nan() -> Self {
        Binary64(F64_EMPTY_NAN)
    }

    proof fn encoded_fields(index: usize) {
        let p: u64 = (index + 1) as u64;
        let bits: u64 = (0x7ff8_0000_0000_0000 + p) as u64;
        assert(bits < 0x8000_0000_0000_0000u64 && (bits / 0x10_0000_0000_0000u64) % 0x800u64
            == 0x7ffu64 && bits % 0x10_0000_0000_0000u64 == 0x8_0000_0000_0000u64 + p && (bits
            % 0x10_0000_0000_0000u64) % 0x8_0000_0000_0000u64 == p) by (bit_vector)
            requires
                0 < p < 0x8_0000_0000_0000u64,
                bits == 0x7ff8_0000_0000_0000u64 + p,
        ;
    }

    proof fn empty_nan_fields() {
    }

    fn set_payload(val: usize) -> (r: Result<Self, PayloadOverflow>) {
        let wide: u64 = val as u64;
        if wide < 0x7_FFFF_FFFF_FFFF {
            let p: u64 = wide + 1;
            assert(0x7ff8_0000_0000_0000u64 | p == 0x7ff8_0000_0000_0000u64 + p) by (bit_vector)
                requires
                    p < 0x8_0000_0000_0000u64,
            ;
            Ok(Binary64(F64_EMPTY_NAN | p))
        } else {
            Err(PayloadOverflow)
        }
    }

    fn is_payloaded(self) -> (r: bool) {
        let bits: u64 = self.0;
        assert((bits & 0x7_FFFF_FFFF_FFFFu64) == (bits % 0x10_0000_0000_0000u64)
            % 0x8_0000_0000_0000u64) by (bit_vector);
        self.is_nan() && (bits & F64_PAYLOAD_MASK) > 0
    }

    fn get_payload(self) -> (r: Option<usize>) {
        if !self.is_payloaded() {
            return None;
        }
        let bits: u64 = self.0;
        assert((bits & 0x7_FFFF_FFFF_FFFFu64) == (bits % 0x10_0000_0000_0000u64)
            % 0x8_0000_0000_0000u64) by (bit_vector);
        let p: u64 = bits & F64_PAYLOAD_MASK;
        Some(#[verifier::truncate] ((p - 1) as usize))
    }

    fn decode(self) -> (r: Decoded<usize>) {
        if !self.is_nan() {
            Decoded::NotNaN
        } else {
            match self.get_payload() {
                Some(index) => Decoded::Payload(index),
                None => Decoded::EmptyNaN,
            }
        }
    }

    fn empty() -> (r: Self) {
        Binary64(F64_EMPTY_NAN)
    }
}

} // verus!
