//! The decimal round-trip property: for every short ASCII string that both
//! the parser under test and the standard library's `f64` parser accept, the
//! two must give the same value, bit for bit.

use vstd::prelude::*;
use vstd::string::{StringExecFns, StrSliceExecFns};
use vstd::utf8::is_ascii_chars;
use crate::ieee::{finite, nan, float_eq, is_finite, is_nan, floats_equal};
use crate::text::{padded_hex, debug_text, debug_string, push_padded_hex};

verus! {

/// The longest input, in bytes, that the property examines.
pub const MAX_INPUT_LEN: usize = 4096;

/// What one run of a property concluded.
#[derive(Debug, Clone, PartialEq, Eq)]
pub enum PropertyResult {
    Pass,
    Fail(String),
    Discard,
}

/// The mathematical value of a [`PropertyResult`].
pub enum Verdict {
    Pass,
    Fail(Seq<char>),
    Discard,
}

impl View for PropertyResult {
    type V = Verdict;

    open spec fn view(&self) -> Verdict {
        match self {
            PropertyResult::Pass => Verdict::Pass,
            PropertyResult::Fail(m) => Verdict::Fail(m@),
            PropertyResult::Discard => Verdict::Discard,
        }
    }
}

/// A value that a parser gave: its binary64 bit pattern, and its `Display`
/// rendering (what `format!("{}", x)` shows of it).
pub struct FloatReading {
    pub bits: u64,
    pub text: String,
}

/// The inputs the property examines: non-empty ASCII strings of at most
/// `MAX_INPUT_LEN` characters.
pub open spec fn in_domain(s: Seq<char>) -> bool {
    &&& 0 < s.len() <= MAX_INPUT_LEN
    &&& is_ascii_chars(s)
}

/// The report of two finite values that differ.
pub open spec fn bits_mismatch_message(a: u64, b: u64, s: Seq<char>) -> Seq<char> {
    "ff=0x"@ + padded_hex(a as nat, 16) + " std=0x"@ + padded_hex(b as nat, 16) + " input="@
        + debug_text(s)
}

/// The report of two values, not both finite, that are not equal.
pub open spec fn non_finite_mismatch_message(a: Seq<char>, b: Seq<char>, s: Seq<char>) -> Seq<
    char,
> {
    "non-finite mismatch ff="@ + a + " std="@ + b + " input="@ + debug_text(s)
}

/// The verdict on input `s` when the parser under test gave `a` and the
/// standard library gave `b`: finite values must have the same bit pattern;
/// otherwise two NaNs, or two equal values, agree.
pub open spec fn agreement_verdict(s: Seq<char>, a: FloatReading, b: FloatReading) -> Verdict {
    if finite(a.bits) && finite(b.bits) {
        if a.bits == b.bits {
            Verdict::Pass
        } else {
            Verdict::Fail(bits_mismatch_message(a.bits, b.bits, s))
        }
    } else if nan(a.bits) && nan(b.bits) {
        Verdict::Pass
    } else if float_eq(a.bits, b.bits) {
        Verdict::Pass
    } else {
        Verdict::Fail(non_finite_mismatch_message(a.text@, b.text@, s))
    }
}

/// The verdict of the round-trip property on input `s`, where `ff` and `std`
/// are what the parser under test and the standard library made of it
/// (`None`: the parser rejected it). Inputs outside the domain, and inputs
/// that either parser rejects, are discarded.
pub open spec fn roundtrip_verdict(s: Seq<char>, ff: Option<FloatReading>, std: Option<
    FloatReading,
>) -> Verdict {
    if !in_domain(s) {
        Verdict::Discard
    } else {
        match (ff, std) {
            (Some(a), Some(b)) => agreement_verdict(s, a, b),
            _ => Verdict::Discard,
        }
    }
}

fn bits_mismatch(a: u64, b: u64, input: &str) -> (m: String)
    ensures
        m@ == bits_mismatch_message(a, b, input@),
{
    let mut m = String::new();
    m.append("ff=0x");
    push_padded_hex(&mut m, a as u128, 16);
    m.append(" std=0x");
    push_padded_hex(&mut m, b as u128, 16);
    m.append(" input=");
    let shown = debug_string(input);
    m.append(shown.as_str());
    assert(m@ =~= bits_mismatch_message(a, b, input@));
    m
}

fn non_finite_mismatch(a: &str, b: &str, input: &str) -> (m: String)
    ensures
        m@ == non_finite_mismatch_message(a@, b@, input@),
{
    let mut m = String::new();
    m.append("non-finite mismatch ff=");
    m.append(a);
    m.append(" std=");
    m.append(b);
    m.append(" input=");
    let shown = debug_string(input);
    m.append(shown.as_str());
    assert(m@ =~= non_finite_mismatch_message(a@, b@, input@));
    m
}

/// Runs the decimal round-trip property on `input`. `ff` is what the parser
/// under test made of `input`, `std` what `str::parse::<f64>` made of it;
/// `None` where that parser rejected it.
pub fn property_decimal_roundtrip_f64(
    input: String,
    ff: Option<FloatReading>,
    std: Option<FloatReading>,
) -> (r: PropertyResult)
    ensures
        r@ == roundtrip_verdict(input@, ff, std),
{
    let s = input.as_str();
    // Every verdict below this point needs a non-empty ASCII input that is
    // short enough; for ASCII text, characters and bytes are counted alike.
    if s.is_empty() || !s.is_ascii() || s.unicode_len() > MAX_INPUT_LEN {
        return PropertyResult::Discard;
    }
    match (ff, std) {
        (Some(a), Some(b)) => {
            if is_finite(a.bits) && is_finite(b.bits) {
                if a.bits == b.bits {
                    PropertyResult::Pass
                } else {
                    PropertyResult::Fail(bits_mismatch(a.bits, b.bits, s))
                }
            } else if is_nan(a.bits) && is_nan(b.bits) {
                PropertyResult::Pass
            } else if floats_equal(a.bits, b.bits) {
                PropertyResult::Pass
            } else {
                PropertyResult::Fail(non_finite_mismatch(a.text.as_str(), b.text.as_str(), s))
            }
        },
        _ => PropertyResult::Discard,
    }
}

/// The outcome of one property run as an optional pass/fail flag:
/// `Some(true)` on a pass, `Some(false)` on a failure, `None` on a discard.
pub fn to_opt(r: PropertyResult) -> (o: Option<bool>)
    ensures
        o == match r@ {
            Verdict::Pass => Some(true),
            Verdict::Fail(_) => Some(false),
            Verdict::Discard => None::<bool>,
        },
{
    match r {
        PropertyResult::Pass => Some(true),
        PropertyResult::Fail(_) => Some(false),
        PropertyResult::Discard => None,
    }
}

/// The outcome of one property run as a test status: passes and discards
/// are `Ok`, a failure is its message.
pub fn to_err(r: PropertyResult) -> (o: Result<(), String>)
    ensures
        match r@ {
            Verdict::Fail(m) => o is Err && o->Err_0@ == m,
            _ => o is Ok,
        },
{
    match r {
        PropertyResult::Pass | PropertyResult::Discard => Ok(()),
        PropertyResult::Fail(m) => Err(m),
    }
}

/// Two parsers that give the same bit pattern never make the property fail:
/// on an input in the domain the property passes.
pub proof fn identical_readings_pass(s: Seq<char>, a: FloatReading, b: FloatReading)
    requires
        in_domain(s),
        a.bits == b.bits,
    ensures
        roundtrip_verdict(s, Some(a), Some(b)) == Verdict::Pass,
{
}

/// The property fails only on an input in the domain that both parsers
/// accept and to which they give different bit patterns.
pub proof fn failure_needs_disagreement(
    s: Seq<char>,
    ff: Option<FloatReading>,
    std: Option<FloatReading>,
)
    requires
        roundtrip_verdict(s, ff, std) is Fail,
    ensures
        in_domain(s),
        ff is Some,
        std is Some,
        ff->0.bits != std->0.bits,
{
}

/// Which parser is under test does not matter to the outcome: exchanging
/// the two readings passes, fails or discards exactly when the given
/// order does.
pub proof fn verdict_kind_symmetric(
    s: Seq<char>,
    ff: Option<FloatReading>,
    std: Option<FloatReading>,
)
    ensures
        roundtrip_verdict(s, ff, std) is Pass <==> roundtrip_verdict(s, std, ff) is Pass,
        roundtrip_verdict(s, ff, std) is Fail <==> roundtrip_verdict(s, std, ff) is Fail,
        roundtrip_verdict(s, ff, std) is Discard <==> roundtrip_verdict(s, std, ff) is Discard,
{
}

/// On an input in the domain that both parsers accept, the property decides,
/// in terms of the bit patterns alone: it passes exactly when the two
/// patterns are equal or both are NaNs (exponent field all ones, fraction
/// non-zero), and fails otherwise; two different finite patterns always
/// fail, with both patterns in the report.
pub proof fn agreement_decides(s: Seq<char>, a: FloatReading, b: FloatReading)
    requires
        in_domain(s),
    ensures
        roundtrip_verdict(s, Some(a), Some(b)) is Pass <==> (a.bits == b.bits || ((
        a.bits as nat / 0x10_0000_0000_0000) % 0x800 == 0x7ff && a.bits as nat
            % 0x10_0000_0000_0000 != 0 && (b.bits as nat / 0x10_0000_0000_0000) % 0x800 == 0x7ff
            && b.bits as nat % 0x10_0000_0000_0000 != 0)),
        roundtrip_verdict(s, Some(a), Some(b)) is Pass || roundtrip_verdict(
            s,
            Some(a),
            Some(b),
        ) is Fail,
        (a.bits as nat / 0x10_0000_0000_0000) % 0x800 != 0x7ff && (b.bits as nat
            / 0x10_0000_0000_0000) % 0x800 != 0x7ff && a.bits != b.bits ==> roundtrip_verdict(
            s,
            Some(a),
            Some(b),
        ) == Verdict::Fail(
            "ff=0x"@ + padded_hex(a.bits as nat, 16) + " std=0x"@ + padded_hex(b.bits as nat, 16)
                + " input="@ + debug_text(s),
        ),
{
    crate::ieee::float_eq_on_patterns(a.bits, b.bits);
}

} // verus!
