//! Equality and order of wrapped values, which are those of the raw values
//! as numbers: the two zeros are equal, and a NaN is neither equal to
//! anything nor ordered with it.

use crate::clean::{Clean, Dirty, UncheckedConv};
use crate::ieee::{Ieee, Kind};
use std::cmp::Ordering;
use vstd::prelude::*;
use vstd::std_specs::cmp::{PartialEqSpecImpl, PartialOrdSpecImpl};

verus! {

/// How two raw values are ordered as numbers, if they are.
pub open spec fn ordered<F: Ieee>(a: F, b: F) -> Option<Ordering> {
    if a.nan() || b.nan() {
        None
    } else if a.position() < b.position() {
        Some(Ordering::Less)
    } else if a.position() == b.position() {
        Some(Ordering::Equal)
    } else {
        Some(Ordering::Greater)
    }
}

/// Orders two raw values as numbers.
pub fn order<F: Ieee>(a: F, b: F) -> (r: Option<Ordering>)
    ensures
        r == ordered(a, b),
{
    if a.is_nan() || b.is_nan() {
        None
    } else if a.ieee_lt(b) {
        Some(Ordering::Less)
    } else if a.ieee_eq(b) {
        Some(Ordering::Equal)
    } else {
        Some(Ordering::Greater)
    }
}

impl<B: UncheckedConv<F> + Copy, F: Ieee> PartialEq<B> for Clean<F> {
    #[inline]
    fn eq(&self, other: &B) -> (r: bool) {
        (*self).as_raw().ieee_eq((*other).as_raw())
    }
}

impl<B: UncheckedConv<F> + Copy, F: Ieee> PartialEqSpecImpl<B> for Clean<F> {
    open spec fn obeys_eq_spec() -> bool {
        true
    }

    open spec fn eq_spec(&self, other: &B) -> bool {
        self.raw().same(other.raw())
    }
}

impl<B: UncheckedConv<F> + Copy, F: Ieee> PartialEq<B> for Dirty<F> {
    #[inline]
    fn eq(&self, other: &B) -> (r: bool) {
        (*self).as_raw().ieee_eq((*other).as_raw())
    }
}

impl<B: UncheckedConv<F> + Copy, F: Ieee> PartialEqSpecImpl<B> for Dirty<F> {
    open spec fn obeys_eq_spec() -> bool {
        true
    }

    open spec fn eq_spec(&self, other: &B) -> bool {
        self.raw().same(other.raw())
    }
}

impl<B: UncheckedConv<F> + Copy, F: Ieee> PartialOrd<B> for Clean<F> {
    #[inline]
    fn partial_cmp(&self, other: &B) -> (r: Option<Ordering>) {
        order((*self).as_raw(), (*other).as_raw())
    }
}

impl<B: UncheckedConv<F> + Copy, F: Ieee> PartialOrdSpecImpl<B> for Clean<F> {
    open spec fn obeys_partial_cmp_spec() -> bool {
        true
    }

    open spec fn partial_cmp_spec(&self, other: &B) -> Option<Ordering> {
        ordered(self.raw(), other.raw())
    }
}

impl<B: UncheckedConv<F> + Copy, F: Ieee> PartialOrd<B> for Dirty<F> {
    #[inline]
    fn partial_cmp(&self, other: &B) -> (r: Option<Ordering>) {
        order((*self).as_raw(), (*other).as_raw())
    }
}

impl<B: UncheckedConv<F> + Copy, F: Ieee> PartialOrdSpecImpl<B> for Dirty<F> {
    open spec fn obeys_partial_cmp_spec() -> bool {
        true
    }

    open spec fn partial_cmp_spec(&self, other: &B) -> Option<Ordering> {
        ordered(self.raw(), other.raw())
    }
}

impl<F: Ieee> Clean<F> {
    /// The order of two clean values, which is total: neither is a NaN.
    pub fn cmp(&self, other: &Clean<F>) -> (r: Ordering)
        ensures
            Some(r) == ordered(self.raw(), other.raw()),
            !self.raw().nan(),
            !other.raw().nan(),
    {
        let a = (*self).as_raw();
        let b = (*other).as_raw();

        if a.ieee_lt(b) {
            Ordering::Less
        } else if a.ieee_eq(b) {
            Ordering::Equal
        } else {
            Ordering::Greater
        }
    }
}

} // verus!
