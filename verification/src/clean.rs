//! The two states of a value: `Clean`, known not to be a NaN, and `Dirty`,
//! just computed and not yet looked at.
//!
//! A clean value may be an infinity: only a NaN is kept out. The one way from
//! dirty to clean is `Dirty::sanitize`, which is `Clean::try_new` on the raw
//! value.

use crate::buffer::ErrorBuffer;
use crate::error::{FloatClass, FloatError, FloatErrorInner};
use crate::ieee::{Binary32, Binary64, Ieee, Kind};
use crate::nanpack::{NanPack, Payload};
use vstd::prelude::*;

verus! {

/// A type that holds one raw value and hands it out without a check.
pub trait UncheckedConv<F>: Sized {
    /// The raw value held.
    spec fn raw(self) -> F;

    /// The raw values that the type can hold.
    spec fn admits(f: F) -> bool;

    fn as_raw(self) -> (f: F)
        ensures
            f == self.raw(),
            Self::admits(f),
    ;

    /// Applies `c` to the raw value and wraps what comes back, which has to
    /// be a value that the type can hold.
    #[inline]
    fn map<C: Fn(F) -> F>(self, c: C) -> (r: Self)
        requires
            call_requires(c, (self.raw(),)),
            forall|out: F| call_ensures(c, (self.raw(),), out) ==> Self::admits(out),
        ensures
            call_ensures(c, (self.raw(),), r.raw()),
    {
        Self::from_raw(c(self.as_raw()))
    }

    fn from_raw(f: F) -> (r: Self)
        requires
            Self::admits(f),
        ensures
            r.raw() == f,
    ;
}

/// A value that is not a NaN.
#[derive(Debug)]
pub struct Clean<F: Ieee>(F);

/// A value of which nothing is known.
#[derive(Debug)]
pub struct Dirty<F: Ieee>(F);

impl<F: Ieee> Copy for Clean<F> {

}

impl<F: Ieee> Clone for Clean<F> {
    fn clone(&self) -> (r: Self)
        ensures
            r == *self,
    {
        *self
    }
}

impl<F: Ieee> Copy for Dirty<F> {

}

impl<F: Ieee> Clone for Dirty<F> {
    fn clone(&self) -> (r: Self)
        ensures
            r == *self,
    {
        *self
    }
}

pub type F64 = Clean<Binary64>;

pub type DirtyF64 = Dirty<Binary64>;

pub type F32 = Clean<Binary32>;

pub type DirtyF32 = Dirty<Binary32>;

impl<F: Ieee> Clean<F> {
    #[verifier::type_invariant]
    spec fn never_nan(self) -> bool {
        !self.0.nan()
    }
}

impl<F: Ieee> UncheckedConv<F> for Clean<F> {
    closed spec fn raw(self) -> F {
        self.0
    }

    open spec fn admits(f: F) -> bool {
        !f.nan()
    }

    #[inline]
    fn as_raw(self) -> (f: F) {
        proof {
            use_type_invariant(&self);
        }
        self.0
    }

    #[inline]
    fn from_raw(f: F) -> (r: Self) {
        Clean(f)
    }
}

impl<F: Ieee> UncheckedConv<F> for Dirty<F> {
    closed spec fn raw(self) -> F {
        self.0
    }

    open spec fn admits(f: F) -> bool {
        true
    }

    #[inline]
    fn as_raw(self) -> (f: F) {
        self.0
    }

    #[inline]
    fn from_raw(f: F) -> (r: Self) {
        Dirty(f)
    }
}

impl<F: Ieee> UncheckedConv<F> for F {
    open spec fn raw(self) -> F {
        self
    }

    open spec fn admits(f: F) -> bool {
        true
    }

    #[inline]
    fn as_raw(self) -> (f: F) {
        self
    }

    #[inline]
    fn from_raw(f: F) -> (r: Self) {
        f
    }
}

impl<F: Ieee> From<F> for Dirty<F> {
    fn from(f: F) -> (dirty: Dirty<F>) {
        Dirty(f)
    }
}

impl<F: Ieee> vstd::std_specs::convert::FromSpecImpl<F> for Dirty<F> {
    open spec fn obeys_from_spec() -> bool {
        true
    }

    closed spec fn from_spec(f: F) -> Dirty<F> {
        Dirty(f)
    }
}

impl<F: Ieee> From<Clean<F>> for Dirty<F> {
    fn from(clean: Clean<F>) -> (dirty: Dirty<F>) {
        Dirty(clean.as_raw())
    }
}

impl<F: Ieee> vstd::std_specs::convert::FromSpecImpl<Clean<F>> for Dirty<F> {
    open spec fn obeys_from_spec() -> bool {
        true
    }

    closed spec fn from_spec(clean: Clean<F>) -> Dirty<F> {
        Dirty(clean.0)
    }
}

/// What `Dirty::from` gives holds the raw value that went in.
pub proof fn dirty_from_keeps_raw<F: Ieee>(f: F, clean: Clean<F>)
    ensures
        <Dirty<F> as vstd::std_specs::convert::FromSpec<F>>::from_spec(f).raw() == f,
        <Dirty<F> as vstd::std_specs::convert::FromSpec<Clean<F>>>::from_spec(clean).raw()
            == clean.raw(),
{
}

/// The methods that wrapped values share.
pub trait CleanFloat<F: Ieee + NanPack<usize>>: Sized + UncheckedConv<F> {
    /// The value as one of which nothing is known.
    #[inline]
    fn taint(self) -> (dirty: Dirty<F>)
        ensures
            dirty.raw() == self.raw(),
    {
        Dirty::<F>::new(self.as_raw())
    }
}

impl<F: Ieee + NanPack<usize>> CleanFloat<F> for Clean<F> {

}

impl<F: Ieee + NanPack<usize>> CleanFloat<F> for Dirty<F> {

}

impl<F: Ieee + NanPack<usize>> Clean<F> {
    /// Trusts a raw value if it is not a NaN.
    ///
    /// A NaN that carries an index gives the failure that waits under that
    /// index, which leaves the buffer. A NaN that carries none gives a failure
    /// that says no more than that a NaN was met, and the buffer stays as it
    /// is. To hand in a NaN whose index is not in the buffer is a defect of the
    /// caller.
    #[inline]
    pub fn try_new(f: F, buffer: &mut ErrorBuffer) -> (r: Result<Clean<F>, FloatError>)
        requires
            f.payload() matches Some(index) ==> old(buffer)@.records.contains_key(index),
        ensures
            r is Ok <==> !f.nan(),
            r matches Ok(clean) ==> clean.raw() == f,
            r matches Err(error) ==> (f.payload() matches Some(index) ==> error == old(
                buffer,
            )@.records[index]),
            r matches Err(error) ==> (f.payload() is None ==> error.variant == (
            FloatErrorInner::Sanitization { a: FloatClass::NaN })),
            final(buffer)@ == match f.payload() {
                Some(index) => old(buffer)@.removed(index),
                None => old(buffer)@,
            },
    {
        if f.is_nan() {
            if let Some(errno) = f.get_payload() {
                return Err(buffer.remove(errno));
            }
            return Err(FloatError::sanitization(f));
        }
        Ok(Clean::from_raw(f))
    }

    /// Trusts a raw value if it is not a NaN, in a build that keeps no
    /// diagnostics: every NaN gives the same plain failure, and no buffer is
    /// looked at.
    #[inline]
    pub fn try_new_release(f: F) -> (r: Result<Clean<F>, FloatError>)
        ensures
            r is Ok <==> !f.nan(),
            r matches Ok(clean) ==> clean.raw() == f,
            r matches Err(error) ==> error.debug_info is None && error.variant == (
            FloatErrorInner::Sanitization { a: FloatClass::NaN }),
    {
        if f.is_nan() {
            return Err(
                FloatError {
                    debug_info: None,
                    variant: FloatErrorInner::Sanitization { a: FloatClass::from(f) },
                },
            );
        }
        Ok(Clean::from_raw(f))
    }
}

impl<F: Ieee + NanPack<usize>> Dirty<F> {
    #[inline]
    pub fn new(f: F) -> (dirty: Dirty<F>)
        ensures
            dirty.raw() == f,
    {
        Dirty(f)
    }

    /// The one way from dirty to clean: `Clean::try_new` on the raw value.
    #[inline]
    pub fn sanitize(self, buffer: &mut ErrorBuffer) -> (r: Result<Clean<F>, FloatError>)
        requires
            self.raw().payload() matches Some(index) ==> old(buffer)@.records.contains_key(index),
        ensures
            r is Ok <==> !self.raw().nan(),
            r matches Ok(clean) ==> clean.raw() == self.raw(),
            r matches Err(error) ==> (self.raw().payload() matches Some(index) ==> error == old(
                buffer,
            )@.records[index]),
            r matches Err(error) ==> (self.raw().payload() is None ==> error.variant == (
            FloatErrorInner::Sanitization { a: FloatClass::NaN })),
            final(buffer)@ == match self.raw().payload() {
                Some(index) => old(buffer)@.removed(index),
                None => old(buffer)@,
            },
    {
        Clean::try_new(self.as_raw(), buffer)
    }

    /// `Clean::try_new_release` on the raw value.
    #[inline]
    pub fn sanitize_release(self) -> (r: Result<Clean<F>, FloatError>)
        ensures
            r is Ok <==> !self.raw().nan(),
            r matches Ok(clean) ==> clean.raw() == self.raw(),
            r matches Err(error) ==> error.debug_info is None && error.variant == (
            FloatErrorInner::Sanitization { a: FloatClass::NaN }),
    {
        Clean::try_new_release(self.as_raw())
    }
}

} // verus!
