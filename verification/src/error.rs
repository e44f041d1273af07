//! Why a value became invalid: the operation, what kind of operands it had,
//! and where it was asked for.

use crate::ieee::{Ieee, Kind};
use crate::location::{get_caller_debug_info, DebugInfo, STACKTRACE_DEPTH};
use vstd::prelude::*;
use vstd::std_specs::convert::{FromSpec, IntoSpec};
use vstd::string::StringExecFns;

verus! {

/// The category and sign of a value, as diagnostics name it.
#[derive(Clone, Copy, Debug, PartialEq, Eq, Structural)]
pub enum FloatClass {
    PlusZero,
    MinusZero,
    PlusInfinity,
    MinusInfinity,
    NaN,
    Other,
}

/// The class of a value: a NaN whatever its sign, else an infinity or a zero
/// with its sign, else any other value.
pub open spec fn class_of<F: Ieee>(f: F) -> FloatClass {
    if f.nan() {
        FloatClass::NaN
    } else if f.infinite() {
        if f.sign() {
            FloatClass::MinusInfinity
        } else {
            FloatClass::PlusInfinity
        }
    } else if f.zero() {
        if f.sign() {
            FloatClass::MinusZero
        } else {
            FloatClass::PlusZero
        }
    } else {
        FloatClass::Other
    }
}

impl<F: Ieee> From<F> for FloatClass {
    fn from(f: F) -> (class: FloatClass) {
        if f.is_nan() {
            FloatClass::NaN
        } else if f.is_infinite() {
            if f.is_sign_negative() {
                FloatClass::MinusInfinity
            } else {
                FloatClass::PlusInfinity
            }
        } else if f.is_zero() {
            if f.is_sign_negative() {
                FloatClass::MinusZero
            } else {
                FloatClass::PlusZero
            }
        } else {
            FloatClass::Other
        }
    }
}

impl<F: Ieee> vstd::std_specs::convert::FromSpecImpl<F> for FloatClass {
    open spec fn obeys_from_spec() -> bool {
        true
    }

    open spec fn from_spec(f: F) -> FloatClass {
        class_of(f)
    }
}

impl FloatClass {
    /// The words that a message uses for the class.
    pub open spec fn name(self) -> Seq<char> {
        match self {
            FloatClass::PlusZero => "zero"@,
            FloatClass::MinusZero => "negative zero"@,
            FloatClass::PlusInfinity => "infinity"@,
            FloatClass::MinusInfinity => "negative infinity"@,
            FloatClass::NaN => "NaN"@,
            FloatClass::Other => "value"@,
        }
    }

    /// The words that a message uses for the class.
    pub fn description(&self) -> (text: &'static str)
        ensures
            text@ == self.name(),
    {
        match self {
            FloatClass::PlusZero => "zero",
            FloatClass::MinusZero => "negative zero",
            FloatClass::PlusInfinity => "infinity",
            FloatClass::MinusInfinity => "negative infinity",
            FloatClass::NaN => "NaN",
            FloatClass::Other => "value",
        }
    }
}

/// The operation that failed and the classes of its operands.
#[derive(Clone, Copy, Debug, PartialEq, Eq, Structural)]
pub enum FloatErrorInner {
    Div { a: FloatClass, b: FloatClass },
    Mul { a: FloatClass, b: FloatClass },
    Add { a: FloatClass, b: FloatClass },
    Sanitization { a: FloatClass },
}

impl FloatErrorInner {
    /// The sentence that describes the failure.
    pub open spec fn sentence(self) -> Seq<char> {
        match self {
            FloatErrorInner::Div { a, b } => "Division of "@ + a.name() + " by "@ + b.name()
                + " resulted in NaN"@,
            FloatErrorInner::Mul { a, b } => "Multiplication of "@ + a.name() + " by "@ + b.name()
                + " resulted in NaN"@,
            FloatErrorInner::Add { a, b } => "Addition of "@ + a.name() + " by "@ + b.name()
                + " resulted in NaN"@,
            FloatErrorInner::Sanitization { a } => "Sanitization of "@ + a.name(),
        }
    }

    /// The sentence that describes the failure.
    pub fn describe(&self) -> (text: String)
        ensures
            text@ == self.sentence(),
    {
        match self {
            FloatErrorInner::Div { a, b } => {
                let text = String::from_str("Division of ");
                let text = text.concat(a.description());
                let text = text.concat(" by ");
                let text = text.concat(b.description());
                text.concat(" resulted in NaN")
            },
            FloatErrorInner::Mul { a, b } => {
                let text = String::from_str("Multiplication of ");
                let text = text.concat(a.description());
                let text = text.concat(" by ");
                let text = text.concat(b.description());
                text.concat(" resulted in NaN")
            },
            FloatErrorInner::Add { a, b } => {
                let text = String::from_str("Addition of ");
                let text = text.concat(a.description());
                let text = text.concat(" by ");
                let text = text.concat(b.description());
                text.concat(" resulted in NaN")
            },
            FloatErrorInner::Sanitization { a } => {
                let text = String::from_str("Sanitization of ");
                text.concat(a.description())
            },
        }
    }
}

/// One decimal digit.
pub open spec fn digit(d: nat) -> Seq<char> {
    if d == 0 {
        "0"@
    } else if d == 1 {
        "1"@
    } else if d == 2 {
        "2"@
    } else if d == 3 {
        "3"@
    } else if d == 4 {
        "4"@
    } else if d == 5 {
        "5"@
    } else if d == 6 {
        "6"@
    } else if d == 7 {
        "7"@
    } else if d == 8 {
        "8"@
    } else {
        "9"@
    }
}

/// A number in decimal, without leading zeros.
pub open spec fn decimal(n: nat) -> Seq<char>
    decreases n,
{
    if n < 10 {
        digit(n)
    } else {
        decimal(n / 10) + digit(n % 10)
    }
}

fn digit_text(d: u32) -> (text: &'static str)
    requires
        d < 10,
    ensures
        text@ == digit(d as nat),
{
    if d == 0 {
        "0"
    } else if d == 1 {
        "1"
    } else if d == 2 {
        "2"
    } else if d == 3 {
        "3"
    } else if d == 4 {
        "4"
    } else if d == 5 {
        "5"
    } else if d == 6 {
        "6"
    } else if d == 7 {
        "7"
    } else if d == 8 {
        "8"
    } else {
        "9"
    }
}

/// Appends a number in decimal to a text.
pub fn push_decimal(text: &mut String, n: u32)
    ensures
        final(text)@ == old(text)@ + decimal(n as nat),
    decreases n,
{
    if n >= 10 {
        push_decimal(text, n / 10);
    }
    text.append(digit_text(n % 10));
    assert(old(text)@ + decimal((n / 10) as nat) + digit((n % 10) as nat) == old(text)@ + (decimal(
        (n / 10) as nat,
    ) + digit((n % 10) as nat)));
}

impl DebugInfo {
    /// The file, a colon and the line.
    pub open spec fn place(self) -> Seq<char> {
        self.filename@ + ":"@ + decimal(self.lineno as nat)
    }

    /// The file, a colon and the line.
    pub fn describe(&self) -> (text: String)
        ensures
            text@ == self.place(),
    {
        let mut text = String::from_str(self.filename.as_str());
        text.append(":");
        push_decimal(&mut text, self.lineno);
        text
    }
}

/// The record of one failure: what happened, and where in the source it was
/// asked for, if that could be found.
#[derive(Debug)]
pub struct FloatError {
    pub debug_info: Option<DebugInfo>,
    pub variant: FloatErrorInner,
}

impl FloatError {
    /// The failure in words: the sentence, after the place and `": "` where a
    /// place is known.
    pub open spec fn text(self) -> Seq<char> {
        match self.debug_info {
            Some(info) => info.place() + ": "@ + self.variant.sentence(),
            None => self.variant.sentence(),
        }
    }

    /// The failure in words.
    pub fn message(&self) -> (text: String)
        ensures
            text@ == self.text(),
    {
        let sentence = self.variant.describe();
        match &self.debug_info {
            Some(info) => {
                let text = info.describe();
                let text = text.concat(": ");
                text.concat(sentence.as_str())
            },
            None => sentence,
        }
    }

    /// A division of `a` by `b` gave a NaN. The place is looked for on the
    /// call stack, as in the three functions below.
    pub fn div<F: Into<FloatClass>>(a: F, b: F) -> (error: Self)
        ensures
            F::obeys_into_spec() ==> error.variant == (FloatErrorInner::Div {
                a: a.into_spec(),
                b: b.into_spec(),
            }),
    {
        FloatError {
            debug_info: get_caller_debug_info(STACKTRACE_DEPTH),
            variant: FloatErrorInner::Div { a: a.into(), b: b.into() },
        }
    }

    /// A multiplication of `a` by `b` gave a NaN.
    pub fn mul<F: Into<FloatClass>>(a: F, b: F) -> (error: Self)
        ensures
            F::obeys_into_spec() ==> error.variant == (FloatErrorInner::Mul {
                a: a.into_spec(),
                b: b.into_spec(),
            }),
    {
        FloatError {
            debug_info: get_caller_debug_info(STACKTRACE_DEPTH),
            variant: FloatErrorInner::Mul { a: a.into(), b: b.into() },
        }
    }

    /// An addition of `a` and `b` gave a NaN.
    pub fn add<F: Into<FloatClass>>(a: F, b: F) -> (error: Self)
        ensures
            F::obeys_into_spec() ==> error.variant == (FloatErrorInner::Add {
                a: a.into_spec(),
                b: b.into_spec(),
            }),
    {
        FloatError {
            debug_info: get_caller_debug_info(STACKTRACE_DEPTH),
            variant: FloatErrorInner::Add { a: a.into(), b: b.into() },
        }
    }

    /// The value `a`, which was to be trusted, is not valid.
    pub fn sanitization<F: Into<FloatClass>>(a: F) -> (error: Self)
        ensures
            F::obeys_into_spec() ==> error.variant == (FloatErrorInner::Sanitization {
                a: a.into_spec(),
            }),
    {
        FloatError {
            debug_info: get_caller_debug_info(STACKTRACE_DEPTH),
            variant: FloatErrorInner::Sanitization { a: a.into() },
        }
    }
}

} // verus!
