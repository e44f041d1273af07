//! What a binary operation returns, and when it files a failure.
//!
//! The arithmetic itself is the hardware's. An operation is handed its two
//! operands and `native`, the hardware's result for them, and decides what the
//! caller gets:
//!
//! 1. An operand that already carries an index is returned as it is, so that
//!    the first failure is the one that sanitizing finds. Where both operands
//!    carry one, the left operand is returned.
//! 2. Else, where `native` is a NaN, a failure is filed in the buffer and the
//!    result is the NaN that carries its index. Where no index is left that
//!    the format can carry, the result is the empty NaN and nothing is filed.
//! 3. Else the result is `native`.
//!
//! An operation never fails: what went wrong is learnt when the result is
//! sanitized. A build that keeps no diagnostics wraps `native` with
//! `Dirty::new` and calls nothing here.

use crate::buffer::{BufferState, ErrorBuffer};
use crate::clean::{Clean, Dirty, UncheckedConv};
use crate::error::{class_of, FloatClass, FloatError, FloatErrorInner};
use crate::ieee::{Ieee, Kind};
use crate::nanpack::{NanPack, Payload};
use vstd::prelude::*;

verus! {

/// A binary operation.
#[derive(Clone, Copy, Debug, PartialEq, Eq, Structural)]
pub enum Operation {
    Add,
    Mul,
    Div,
}

impl Operation {
    /// The failure of this operation on operands of the given classes.
    pub open spec fn failure(self, a: FloatClass, b: FloatClass) -> FloatErrorInner {
        match self {
            Operation::Add => FloatErrorInner::Add { a, b },
            Operation::Mul => FloatErrorInner::Mul { a, b },
            Operation::Div => FloatErrorInner::Div { a, b },
        }
    }
}

/// What an operation decides before the buffer comes into it.
pub enum Verdict<F> {
    /// The result is this value.
    Keep(F),
    /// The operation newly gave a NaN: this failure is to be filed.
    Diagnose(FloatErrorInner),
}

/// The decision of `op` on operands `a` and `b` with the hardware's result
/// `native`.
pub open spec fn verdict<F: NanPack<usize>>(op: Operation, a: F, b: F, native: F) -> Verdict<F> {
    if a.payloaded() {
        Verdict::Keep(a)
    } else if b.payloaded() {
        Verdict::Keep(b)
    } else if native.nan() {
        Verdict::Diagnose(op.failure(class_of(a), class_of(b)))
    } else {
        Verdict::Keep(native)
    }
}

/// Whether the next index of the buffer can be handed out and carried by a
/// NaN of the format.
pub open spec fn can_carry<F: NanPack<usize>>(state: BufferState) -> bool {
    state.has_room() && F::encodable(state.next())
}

/// How filing a failure relates the buffer before and after to the value
/// returned.
pub open spec fn registered<F: NanPack<usize>>(
    error: FloatError,
    before: BufferState,
    after: BufferState,
    result: F,
) -> bool {
    if can_carry::<F>(before) {
        result == F::encoded(before.next()) && after == before.inserted(error)
    } else {
        result == F::empty_nan() && after == before
    }
}

/// How an operation relates the buffer before and after to the value
/// returned.
pub open spec fn combined<F: NanPack<usize>>(
    op: Operation,
    a: F,
    b: F,
    native: F,
    before: BufferState,
    after: BufferState,
    result: F,
) -> bool {
    match verdict(op, a, b, native) {
        Verdict::Keep(value) => result == value && after == before,
        Verdict::Diagnose(variant) => if can_carry::<F>(before) {
            &&& after.records.contains_key(before.next())
            &&& after.records[before.next()].variant == variant
            &&& registered(after.records[before.next()], before, after, result)
        } else {
            result == F::empty_nan() && after == before
        },
    }
}

/// What `inspect` hands back: a result that is settled, or the failure that
/// is to be filed.
pub enum Inspection<F: Ieee> {
    Settled(Dirty<F>),
    Invalid(FloatError),
}

/// The first half of an operation: everything that needs no buffer. A program
/// that shares one buffer among threads calls this without the lock, and
/// takes the lock only for `register`, where there is a failure to file.
pub fn inspect<F: Ieee + NanPack<usize>>(op: Operation, a: F, b: F, native: F) -> (r: Inspection<F>)
    ensures
        match verdict(op, a, b, native) {
            Verdict::Keep(value) => r matches Inspection::Settled(dirty) && dirty.raw() == value,
            Verdict::Diagnose(variant) => r matches Inspection::Invalid(error) && error.variant
                == variant,
        },
{
    if a.is_payloaded() {
        Inspection::Settled(Dirty::new(a))
    } else if b.is_payloaded() {
        Inspection::Settled(Dirty::new(b))
    } else if native.is_nan() {
        Inspection::Invalid(
            match op {
                Operation::Add => FloatError::add(a, b),
                Operation::Mul => FloatError::mul(a, b),
                Operation::Div => FloatError::div(a, b),
            },
        )
    } else {
        Inspection::Settled(Dirty::new(native))
    }
}

/// The second half of an operation: files a failure and returns the NaN that
/// carries its index. Where the buffer has handed out every index that the
/// format can carry, the failure is dropped and the empty NaN returned.
pub fn register<F: Ieee + NanPack<usize>>(error: FloatError, buffer: &mut ErrorBuffer) -> (dirty:
    Dirty<F>)
    ensures
        registered(error, old(buffer)@, final(buffer)@, dirty.raw()),
{
    let last = buffer.last_index();
    if last < usize::MAX {
        match F::set_payload(last + 1) {
            Ok(nan) => {
                let _ = buffer.insert(error);
                Dirty::new(nan)
            },
            Err(_) => Dirty::new(F::empty()),
        }
    } else {
        Dirty::new(F::empty())
    }
}

/// A whole operation: `inspect`, then `register` where a failure came of it.
pub fn combine<F: Ieee + NanPack<usize>>(
    op: Operation,
    a: F,
    b: F,
    native: F,
    buffer: &mut ErrorBuffer,
) -> (dirty: Dirty<F>)
    ensures
        combined(op, a, b, native, old(buffer)@, final(buffer)@, dirty.raw()),
{
    match inspect(op, a, b, native) {
        Inspection::Settled(dirty) => dirty,
        Inspection::Invalid(error) => register(error, buffer),
    }
}

impl<F: Ieee + NanPack<usize>> Clean<F> {
    /// The sum of this value and `other`, of which `native` is the raw sum.
    #[inline]
    pub fn add<B: UncheckedConv<F>>(self, other: B, native: F, buffer: &mut ErrorBuffer) -> (dirty:
        Dirty<F>)
        ensures
            combined(
                Operation::Add,
                self.raw(),
                other.raw(),
                native,
                old(buffer)@,
                final(buffer)@,
                dirty.raw(),
            ),
    {
        combine(Operation::Add, self.as_raw(), other.as_raw(), native, buffer)
    }

    /// The product of this value and `other`, of which `native` is the raw
    /// product.
    #[inline]
    pub fn mul<B: UncheckedConv<F>>(self, other: B, native: F, buffer: &mut ErrorBuffer) -> (dirty:
        Dirty<F>)
        ensures
            combined(
                Operation::Mul,
                self.raw(),
                other.raw(),
                native,
                old(buffer)@,
                final(buffer)@,
                dirty.raw(),
            ),
    {
        combine(Operation::Mul, self.as_raw(), other.as_raw(), native, buffer)
    }

    /// The quotient of this value by `other`, of which `native` is the raw
    /// quotient.
    #[inline]
    pub fn div<B: UncheckedConv<F>>(self, other: B, native: F, buffer: &mut ErrorBuffer) -> (dirty:
        Dirty<F>)
        ensures
            combined(
                Operation::Div,
                self.raw(),
                other.raw(),
                native,
                old(buffer)@,
                final(buffer)@,
                dirty.raw(),
            ),
    {
        combine(Operation::Div, self.as_raw(), other.as_raw(), native, buffer)
    }

    /// The value with its sign changed, which is clean as this one is.
    #[inline]
    pub fn neg(self) -> (r: Self)
        ensures
            r.raw().sign() == !self.raw().sign(),
            r.raw().exponent() == self.raw().exponent(),
            r.raw().fraction() == self.raw().fraction(),
    {
        Self::from_raw(self.as_raw().negated())
    }
}

impl<F: Ieee + NanPack<usize>> Dirty<F> {
    /// The sum of this value and `other`, of which `native` is the raw sum.
    #[inline]
    pub fn add<B: UncheckedConv<F>>(self, other: B, native: F, buffer: &mut ErrorBuffer) -> (dirty:
        Dirty<F>)
        ensures
            combined(
                Operation::Add,
                self.raw(),
                other.raw(),
                native,
                old(buffer)@,
                final(buffer)@,
                dirty.raw(),
            ),
    {
        combine(Operation::Add, self.as_raw(), other.as_raw(), native, buffer)
    }

    /// The product of this value and `other`, of which `native` is the raw
    /// product.
    #[inline]
    pub fn mul<B: UncheckedConv<F>>(self, other: B, native: F, buffer: &mut ErrorBuffer) -> (dirty:
        Dirty<F>)
        ensures
            combined(
                Operation::Mul,
                self.raw(),
                other.raw(),
                native,
                old(buffer)@,
                final(buffer)@,
                dirty.raw(),
            ),
    {
        combine(Operation::Mul, self.as_raw(), other.as_raw(), native, buffer)
    }

    /// The quotient of this value by `other`, of which `native` is the raw
    /// quotient.
    #[inline]
    pub fn div<B: UncheckedConv<F>>(self, other: B, native: F, buffer: &mut ErrorBuffer) -> (dirty:
        Dirty<F>)
        ensures
            combined(
                Operation::Div,
                self.raw(),
                other.raw(),
                native,
                old(buffer)@,
                final(buffer)@,
                dirty.raw(),
            ),
    {
        combine(Operation::Div, self.as_raw(), other.as_raw(), native, buffer)
    }

    /// The value with its sign changed. A NaN keeps what it carries.
    #[inline]
    pub fn neg(self) -> (r: Self)
        ensures
            r.raw().sign() == !self.raw().sign(),
            r.raw().exponent() == self.raw().exponent(),
            r.raw().fraction() == self.raw().fraction(),
    {
        Self::from_raw(self.as_raw().negated())
    }
}

} // verus!
