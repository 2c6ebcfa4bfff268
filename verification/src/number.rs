use vstd::prelude::*;
use vstd::string::*;

verus! {

/// The bit pattern of the double that a decimal text denotes, where it denotes
/// one.
pub uninterp spec fn real_bits(text: Seq<char>) -> Option<u64>;

/// The first bit pattern with the sign bit set.
pub const SIGN_BIT: u64 = 0x8000_0000_0000_0000u64;

/// Where a bit pattern stands in the total order of doubles: patterns with the
/// sign bit set come first, the larger magnitude the earlier, and then those
/// without it, by magnitude.
pub open spec fn order_key(bits: u64) -> int {
    if bits >= SIGN_BIT {
        u64::MAX - bits
    } else {
        bits + SIGN_BIT
    }
}

/// The bit pattern of the double one: the exponent's bias and no fraction.
pub const ONE_BITS: u64 = 0x3FF0_0000_0000_0000u64;

/// `str::parse` to a double, the result taken by its bit pattern; that the
/// parse is to a double follows from `Value::Real`, which holds one. The
/// contract names what the parse gives for a text and records two values of
/// it: the text `0` gives positive zero, whose pattern has no bit set, and the
/// text `1` gives one.
#[verifier::external_body]
fn parse_real(text: &str) -> (bits: Option<u64>)
    ensures
        bits == real_bits(text@),
        text@ == "0"@ ==> bits == Some(0u64),
        text@ == "1"@ ==> bits == Some(ONE_BITS),
{
    match text.parse().ok().map(rusqlite::types::Value::Real) {
        Some(rusqlite::types::Value::Real(v)) => Some(v.to_bits()),
        _ => None,
    }
}

/// A real number as it was read: the text it was written in and the bit pattern
/// of the double that the text denotes.
#[derive(Clone, Debug)]
pub struct Number {
    bits: u64,
    text: String,
}

/// What a `Number` stands for in contracts.
pub struct NumberView {
    pub bits: u64,
    pub text: Seq<char>,
}

impl View for Number {
    type V = NumberView;

    closed spec fn view(&self) -> NumberView {
        NumberView { bits: self.bits, text: self.text@ }
    }
}

impl Number {
    /// The text denotes the double whose bit pattern is held.
    pub open spec fn wf(&self) -> bool {
        real_bits(self@.text) == Some(self@.bits)
    }

    /// Positive zero.
    pub fn zero() -> (n: Number)
        ensures
            n.wf(),
            n@.bits == 0,
            n@.text == "0"@,
    {
        let text = String::from_str("0");
        match parse_real(text.as_str()) {
            Some(bits) => Number { bits, text },
            None => Number { bits: 0, text },
        }
    }

    /// One.
    pub fn one() -> (n: Number)
        ensures
            n.wf(),
            n@.bits == ONE_BITS,
            n@.text == "1"@,
    {
        let text = String::from_str("1");
        match parse_real(text.as_str()) {
            Some(bits) => Number { bits, text },
            None => Number { bits: ONE_BITS, text },
        }
    }

    /// Reads a number. `None` where the text denotes no double.
    pub fn parse(text: &str) -> (n: Option<Number>)
        ensures
            n is Some <==> real_bits(text@) is Some,
            n matches Some(v) ==> v.wf() && v@.text == text@ && Some(v@.bits)
                == real_bits(text@),
    {
        match parse_real(text) {
            Some(bits) => Some(Number { bits, text: String::from_str(text) }),
            None => None,
        }
    }

    pub fn bits(&self) -> (b: u64)
        ensures
            b == self@.bits,
    {
        self.bits
    }

    pub fn text(&self) -> (t: &str)
        ensures
            t@ == self@.text,
    {
        self.text.as_str()
    }

    /// Whether the sign bit is clear.
    pub fn is_non_negative(&self) -> (r: bool)
        ensures
            r == (self@.bits < SIGN_BIT),
    {
        self.bits < SIGN_BIT
    }

    /// Whether `self` stands at or before `other` in the total order of doubles.
    pub fn total_le(&self, other: &Number) -> (r: bool)
        ensures
            r == (order_key(self@.bits) <= order_key(other@.bits)),
    {
        key_of(self.bits) <= key_of(other.bits)
    }

    /// A copy with the same text and bit pattern.
    pub fn duplicate(&self) -> (n: Number)
        ensures
            n@ == self@,
    {
        Number { bits: self.bits, text: self.text.clone() }
    }
}

/// The order key as a machine integer, moved up by one half of the range.
pub fn key_of(bits: u64) -> (k: u64)
    ensures
        k == order_key(bits),
{
    if bits >= SIGN_BIT {
        u64::MAX - bits
    } else {
        bits + SIGN_BIT
    }
}

} // verus!
