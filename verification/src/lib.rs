//! Floating-point values that are known not to be NaN, values that are not yet
//! known to be, and diagnostics that travel inside the payload of a NaN.
//!
//! A value has one of two states. A [`Clean`] value is not a NaN; it may be an
//! infinity. A [`Dirty`] value was just computed and nothing is known of it.
//! Every operation returns a dirty value and none fails: what went wrong is
//! learnt when the result is sanitized, which is the one way back to clean.
//!
//! Values are held as the bit patterns of IEEE-754 ([`Binary32`] and
//! [`Binary64`]), and the arithmetic itself is left to the hardware: an
//! operation is handed the hardware's result and decides what becomes of it.
//! Where an operation newly gives a NaN, it stores a [`FloatError`] in an
//! [`ErrorBuffer`] and returns a NaN that carries the failure's index in its
//! low fraction bits. Sanitizing that NaN, or any NaN that came of it, takes
//! the failure out of the buffer again.

pub mod buffer;
pub mod clean;
pub mod compare;
pub mod error;
pub mod ieee;
pub mod laws;
pub mod location;
pub mod nanpack;
pub mod ops;

pub use crate::buffer::ErrorBuffer;
pub use crate::clean::{Clean, CleanFloat, Dirty, DirtyF32, DirtyF64, UncheckedConv, F32, F64};
pub use crate::error::{FloatClass, FloatError, FloatErrorInner};
pub use crate::ieee::{Binary32, Binary64, Ieee};
pub use crate::nanpack::{Decoded, NanPack, PayloadOverflow};
pub use crate::ops::Operation;
