//! Witness inputs for the decimal round-trip property: decimal strings with
//! enough trailing zeros that the digit count exceeds the parser's 768-digit
//! buffer, at mantissas on the 2^53 rounding boundary. A correct parser
//! rounds them exactly as the standard library does.

use fast_float_etna::property::{property_decimal_roundtrip_f64, FloatReading, PropertyResult};

fn assert_pass(r: PropertyResult) {
    match r {
        PropertyResult::Pass => {}
        PropertyResult::Discard => panic!("witness discarded — inputs outside domain"),
        PropertyResult::Fail(msg) => panic!("property failed: {}", msg),
    }
}

fn trailing_dot_zeros(base: &str, n_zeros: usize) -> String {
    let mut s = String::from(base);
    s.push('.');
    for _ in 0..n_zeros {
        s.push('0');
    }
    s
}

fn reading(x: f64) -> FloatReading {
    FloatReading { bits: x.to_bits(), text: format!("{}", x) }
}

fn std_reading(input: &str) -> Option<FloatReading> {
    input.parse::<f64>().ok().map(reading)
}

/// The correctly rounded value a conforming parser gives for the input
/// (round half to even at the 2^53 boundary).
fn run(base: &str, n_zeros: usize, rounded: f64) -> PropertyResult {
    let input = trailing_dot_zeros(base, n_zeros);
    let std = std_reading(&input);
    property_decimal_roundtrip_f64(input, Some(reading(rounded)), std)
}

#[test]
fn witness_decimal_roundtrip_f64_case_9007199254740993_dot_800_zeros() {
    assert_pass(run("9007199254740993", 800, 9007199254740992.0));
}

#[test]
fn witness_decimal_roundtrip_f64_case_9007199254740993_dot_1000_zeros() {
    assert_pass(run("9007199254740993", 1000, 9007199254740992.0));
}

#[test]
fn witness_decimal_roundtrip_f64_case_9007199254740997_dot_1000_zeros() {
    assert_pass(run("9007199254740997", 1000, 9007199254740996.0));
}

#[test]
fn off_by_one_ulp_reading_fails_with_both_patterns() {
    let input = trailing_dot_zeros("9007199254740993", 1000);
    let std = std_reading(&input);
    let wrong = FloatReading { bits: 0x4340000000000001, text: String::from("9007199254740994") };
    let r = property_decimal_roundtrip_f64(input.clone(), Some(wrong), std);
    let expected = format!("ff=0x4340000000000001 std=0x4340000000000000 input={:?}", input);
    assert_eq!(r, PropertyResult::Fail(expected));
}
