//! Numbers of the exchange that travel as 64-bit binary floating point, carried by their bits.

use crate::text::outcome;
use vstd::prelude::*;
use vstd::string::StringExecFns;

verus! {

/// A number in the IEEE 754 format binary64, carried by its bit pattern: one sign bit in front,
/// the magnitude behind it. The magnitudes of larger numbers are larger.
#[derive(Clone, Copy, Debug, PartialEq, Eq, Structural)]
pub struct Binary64 {
    pub bits: u64,
}

impl DeepView for Binary64 {
    type V = Binary64;

    open spec fn deep_view(&self) -> Binary64 {
        *self
    }
}

/// The weight of the sign bit.
pub const SIGN: u64 = 0x8000_0000_0000_0000;

/// The magnitude of infinity. Larger magnitudes belong to no number.
pub const INFINITE: u64 = 0x7ff0_0000_0000_0000;

/// The bits of the distance from one to the next larger number.
pub const EPSILON: u64 = 0x3cb0_0000_0000_0000;

impl Binary64 {
    /// The sign bit is set.
    pub open spec fn signed(self) -> bool {
        self.bits >= SIGN
    }

    /// The bits behind the sign bit.
    pub open spec fn magnitude(self) -> int {
        if self.signed() {
            self.bits - SIGN
        } else {
            self.bits as int
        }
    }

    /// The bits belong to no number.
    pub open spec fn nan(self) -> bool {
        self.magnitude() > INFINITE
    }

    /// The place of a number among the others. Both zeros have the same place.
    pub open spec fn place(self) -> int {
        if self.signed() {
            -self.magnitude()
        } else {
            self.magnitude()
        }
    }

    /// `self` is a number that equals zero.
    pub open spec fn zero_valued(self) -> bool {
        self.magnitude() == 0
    }

    /// `self` is a number above zero.
    pub open spec fn positive(self) -> bool {
        !self.nan() && self.place() > 0
    }

    /// `self` and `other` are numbers, and `self` is not the larger one.
    pub open spec fn at_most(self, other: Binary64) -> bool {
        !self.nan() && !other.nan() && self.place() <= other.place()
    }

    /// The same magnitude under the other sign.
    pub open spec fn negative(self) -> Binary64 {
        if self.signed() {
            Binary64 { bits: (self.bits - SIGN) as u64 }
        } else {
            Binary64 { bits: (self.bits + SIGN) as u64 }
        }
    }

    /// Zero.
    pub fn zero() -> (r: Binary64)
        ensures
            r.bits == 0,
            r.zero_valued(),
    {
        Binary64 { bits: 0 }
    }

    /// Whether this is a number that equals zero.
    pub fn is_zero(&self) -> (r: bool)
        ensures
            r == self.zero_valued(),
    {
        self.bits == 0 || self.bits == SIGN
    }

    /// Whether this is a number above zero.
    pub fn is_positive(&self) -> (r: bool)
        ensures
            r == self.positive(),
    {
        0 < self.bits && self.bits <= INFINITE
    }

    /// Whether this is a number that is not above the smallest step from one.
    pub fn is_at_most_epsilon(&self) -> (r: bool)
        ensures
            r == self.at_most(Binary64 { bits: EPSILON }),
    {
        if self.bits >= SIGN {
            self.bits - SIGN <= INFINITE
        } else {
            self.bits <= EPSILON
        }
    }

    /// The same magnitude under the other sign.
    pub fn negated(&self) -> (r: Binary64)
        ensures
            r == self.negative(),
    {
        if self.bits >= SIGN {
            Binary64 { bits: self.bits - SIGN }
        } else {
            Binary64 { bits: self.bits + SIGN }
        }
    }
}

/// A sign that is changed twice is the first one again, and what was above zero is below it.
pub proof fn negation_turns_around(x: Binary64)
    ensures
        x.negative().negative() == x,
        x.negative().place() == -x.place(),
        x.negative().nan() == x.nan(),
{
}

/// The words for a field that writes no number.
pub open spec fn number_fault_words(field: Seq<char>, value: Seq<char>) -> Seq<char> {
    "invalid numeric field "@ + field + ": "@ + value
}

/// The words for a field that writes no number.
pub fn number_fault_message(field: &str, value: &str) -> (r: String)
    ensures
        r@ == number_fault_words(field@, value@),
{
    "invalid numeric field ".to_string().concat(field).concat(": ").concat(value)
}

/// A field of a message that should write a number: its characters, and the number that they
/// write, where they write one.
#[derive(Debug)]
pub struct NumericText {
    pub text: String,
    pub value: Option<Binary64>,
}

/// What a [`NumericText`] says.
pub struct NumericView {
    pub text: Seq<char>,
    pub value: Option<Binary64>,
}

impl View for NumericText {
    type V = NumericView;

    open spec fn view(&self) -> NumericView {
        NumericView { text: self.text@, value: self.value }
    }
}

impl DeepView for NumericText {
    type V = NumericView;

    open spec fn deep_view(&self) -> NumericView {
        self@
    }
}

/// A field that writes no number.
#[derive(Debug)]
pub struct NumberFault {
    pub field: &'static str,
    pub value: String,
}

/// What a [`NumberFault`] says.
pub struct NumberFaultView {
    pub field: Seq<char>,
    pub value: Seq<char>,
}

impl View for NumberFault {
    type V = NumberFaultView;

    open spec fn view(&self) -> NumberFaultView {
        NumberFaultView { field: self.field@, value: self.value@ }
    }
}

/// The number that a field writes.
pub open spec fn number_in(field: Seq<char>, number: NumericView) -> Result<
    Binary64,
    NumberFaultView,
> {
    match number.value {
        Some(value) => Ok(value),
        None => Err(NumberFaultView { field, value: number.text }),
    }
}

/// The number that a field writes.
pub fn read_number(field: &'static str, number: &NumericText) -> (r: Result<Binary64, NumberFault>)
    ensures
        outcome(r) == number_in(field@, number@),
{
    match number.value {
        Some(value) => Ok(value),
        None => Err(NumberFault { field, value: number.text.clone() }),
    }
}

} // verus!
