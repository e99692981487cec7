use fast_float_etna::ieee::{floats_equal, is_finite, is_nan};
use fast_float_etna::property::{
    property_decimal_roundtrip_f64, to_err, to_opt, FloatReading, PropertyResult,
};
use fast_float_etna::report::{aborted_report, json_report, json_str, outcome_report};
use fast_float_etna::runner::{
    combine_outcomes, hegel_status, merge_outcome, select_property, select_tool, status_message, Metrics,
    Property, RunStatus, Selection, Tool,
};
use fast_float_etna::shape::{
    biased_shape, format_decimal, DecimalShape, MANTISSA_BAND_HIGH, MANTISSA_BAND_LOW, TZ_BAND_HIGH,
    TZ_BAND_LOW,
};
use fast_float_etna::text::{debug_string, join};

fn reading(x: f64) -> FloatReading {
    FloatReading { bits: x.to_bits(), text: format!("{}", x) }
}

fn both(input: &str, a: f64, b: f64) -> PropertyResult {
    property_decimal_roundtrip_f64(String::from(input), Some(reading(a)), Some(reading(b)))
}

#[test]
fn equal_values_pass() {
    assert_eq!(both("1.5", 1.5, 1.5), PropertyResult::Pass);
}

#[test]
fn identical_readings_pass_even_for_infinity() {
    assert_eq!(both("1e400", f64::INFINITY, f64::INFINITY), PropertyResult::Pass);
    assert_eq!(both("-1e400", f64::NEG_INFINITY, f64::NEG_INFINITY), PropertyResult::Pass);
}

#[test]
fn two_nans_pass() {
    let quiet = f64::from_bits(0x7ff8_0000_0000_0000);
    let other = f64::from_bits(0x7ff0_0000_0000_0001);
    assert_eq!(both("nan", quiet, other), PropertyResult::Pass);
}

#[test]
fn signed_zeros_differ_bit_for_bit() {
    let r = both("0", 0.0, -0.0);
    assert_eq!(
        r,
        PropertyResult::Fail(String::from(
            "ff=0x0000000000000000 std=0x8000000000000000 input=\"0\""
        ))
    );
}

#[test]
fn infinity_against_finite_fails_with_display_texts() {
    let r = both("1", f64::INFINITY, 1.0);
    assert_eq!(r, PropertyResult::Fail(String::from("non-finite mismatch ff=inf std=1 input=\"1\"")));
}

#[test]
fn nan_against_infinity_fails() {
    let r = both("x", f64::NAN, f64::INFINITY);
    assert_eq!(r, PropertyResult::Fail(String::from("non-finite mismatch ff=NaN std=inf input=\"x\"")));
}

#[test]
fn inputs_outside_the_domain_are_discarded() {
    assert_eq!(both("", 0.0, 1.0), PropertyResult::Discard);
    assert_eq!(both("1.5\u{e9}", 0.0, 1.0), PropertyResult::Discard);
    let long = "1".repeat(4097);
    assert_eq!(both(&long, 0.0, 1.0), PropertyResult::Discard);
    let longest = "1".repeat(4096);
    assert_eq!(both(&longest, 1.0, 1.0), PropertyResult::Pass);
}

#[test]
fn rejections_are_discarded() {
    let s = || String::from("abc");
    assert_eq!(property_decimal_roundtrip_f64(s(), None, None), PropertyResult::Discard);
    assert_eq!(
        property_decimal_roundtrip_f64(s(), Some(reading(1.0)), None),
        PropertyResult::Discard
    );
    assert_eq!(
        property_decimal_roundtrip_f64(s(), None, Some(reading(1.0))),
        PropertyResult::Discard
    );
}

#[test]
fn failure_message_quotes_the_input() {
    let r = both("1\"2\\3", 1.0, 2.0);
    assert_eq!(
        r,
        PropertyResult::Fail(String::from(
            "ff=0x3ff0000000000000 std=0x4000000000000000 input=\"1\\\"2\\\\3\""
        ))
    );
}

#[test]
fn results_map_to_options_and_statuses() {
    assert_eq!(to_opt(PropertyResult::Pass), Some(true));
    assert_eq!(to_opt(PropertyResult::Fail(String::from("m"))), Some(false));
    assert_eq!(to_opt(PropertyResult::Discard), None);
    assert_eq!(to_err(PropertyResult::Pass), Ok(()));
    assert_eq!(to_err(PropertyResult::Discard), Ok(()));
    assert_eq!(to_err(PropertyResult::Fail(String::from("m"))), Err(String::from("m")));
}

#[test]
fn bit_classification() {
    assert!(is_finite(1.0f64.to_bits()));
    assert!(is_finite(f64::MAX.to_bits()));
    assert!(!is_finite(f64::INFINITY.to_bits()));
    assert!(!is_finite(f64::NAN.to_bits()));
    assert!(is_nan(f64::NAN.to_bits()));
    assert!(!is_nan(f64::NEG_INFINITY.to_bits()));
    assert!(floats_equal(0.0f64.to_bits(), (-0.0f64).to_bits()));
    assert!(!floats_equal(f64::NAN.to_bits(), f64::NAN.to_bits()));
    assert!(floats_equal(f64::INFINITY.to_bits(), f64::INFINITY.to_bits()));
    assert!(!floats_equal(1.0f64.to_bits(), 2.0f64.to_bits()));
}

#[test]
fn decimal_inputs() {
    assert_eq!(format_decimal(12, 3), "12.000");
    assert_eq!(format_decimal(0, 0), "0.");
    let s = format_decimal(9007199254740993, 1000);
    assert_eq!(s.len(), 17 + 1000);
    assert!(s.starts_with("9007199254740993."));
    assert_eq!(format_decimal(u64::MAX, 1), "18446744073709551615.0");
    let d = DecimalShape { mantissa: 7, tz: 2 };
    assert_eq!(d.input(), "7.00");
    assert_eq!(d.counterexample(), "(7 2)");
}

#[test]
fn decimal_renderings() {
    let m = Metrics { inputs: u64::MAX, elapsed_us: u128::MAX };
    let line = json_report("t", "p", "s", m, None, None);
    let expected = format!(
        "{{\"status\":\"s\",\"tests\":{},\"discards\":0,\"time\":\"{}us\",\"counterexample\":null,\"error\":null,\"tool\":\"t\",\"property\":\"p\"}}",
        u64::MAX,
        u128::MAX
    );
    assert_eq!(line, expected);
}

#[test]
fn flipping_a_bit_twice_restores_the_shape() {
    let d = DecimalShape { mantissa: 9007199254740993, tz: 800 };
    let m = d.flip(true, 0);
    assert!(m == DecimalShape { mantissa: 9007199254740992, tz: 800 });
    assert!(m.flip(true, 0) == d);
    let t = d.flip(false, 15);
    assert!(t == DecimalShape { mantissa: 9007199254740993, tz: 800 ^ 0x8000 });
    assert!(t.flip(false, 15) == d);
    assert_eq!(d.flip(true, 63).mantissa, 9007199254740993 ^ (1u64 << 63));
}

#[test]
fn debug_rendering_quotes_and_escapes() {
    assert_eq!(debug_string("a\"b\n"), "\"a\\\"b\\n\"");
}

#[test]
fn joining() {
    let parts = vec![String::from("1"), String::from("22"), String::from("333")];
    assert_eq!(join(&parts, " "), "1 22 333");
    assert_eq!(join(&Vec::new(), " "), "");
    assert_eq!(join(&vec![String::from("x")], ", "), "x");
}

#[test]
fn json_strings_escape_specials() {
    assert_eq!(json_str("plain"), "\"plain\"");
    assert_eq!(json_str("a\"b\\c"), "\"a\\\"b\\\\c\"");
    assert_eq!(json_str("l1\nl2\r\t"), "\"l1\\nl2\\r\\t\"");
    assert_eq!(json_str("\u{1}\u{1f}\u{7f}é"), "\"\\u0001\\u001f\u{7f}é\"");
}

#[test]
fn report_lines() {
    let m = Metrics { inputs: 200, elapsed_us: 1234 };
    assert_eq!(
        json_report("proptest", "DecimalRoundtripF64", "passed", m, None, None),
        "{\"status\":\"passed\",\"tests\":200,\"discards\":0,\"time\":\"1234us\",\"counterexample\":null,\"error\":null,\"tool\":\"proptest\",\"property\":\"DecimalRoundtripF64\"}"
    );
    let failed = (Err(String::from("(1 2)")), m);
    assert_eq!(
        outcome_report("etna", "All", &failed),
        "{\"status\":\"failed\",\"tests\":200,\"discards\":0,\"time\":\"1234us\",\"counterexample\":\"(1 2)\",\"error\":null,\"tool\":\"etna\",\"property\":\"All\"}"
    );
    let passed = (Ok(()), Metrics { inputs: 1, elapsed_us: 0 });
    assert_eq!(
        outcome_report("etna", "All", &passed),
        "{\"status\":\"passed\",\"tests\":1,\"discards\":0,\"time\":\"0us\",\"counterexample\":null,\"error\":null,\"tool\":\"etna\",\"property\":\"All\"}"
    );
    let aborted = aborted_report("hegel", "x", "boom\n");
    assert_eq!(
        aborted,
        "{\"status\":\"aborted\",\"tests\":0,\"discards\":0,\"time\":\"0us\",\"counterexample\":null,\"error\":\"boom\\n\",\"tool\":\"hegel\",\"property\":\"x\"}"
    );
    assert!(!aborted.contains('\n'));
}

#[test]
fn tool_and_property_selection() {
    assert_eq!(select_tool("etna"), Ok(Tool::Etna));
    assert_eq!(select_tool("proptest"), Ok(Tool::Proptest));
    assert_eq!(select_tool("quickcheck"), Ok(Tool::Quickcheck));
    assert_eq!(select_tool("crabcheck"), Ok(Tool::Crabcheck));
    assert_eq!(select_tool("hegel"), Ok(Tool::Hegel));
    assert_eq!(select_tool("Etna"), Err(String::from("Unknown tool: Etna")));
    assert_eq!(select_property(Tool::Hegel, "All"), Ok(Selection::All));
    assert_eq!(
        select_property(Tool::Etna, "DecimalRoundtripF64"),
        Ok(Selection::One(Property::DecimalRoundtripF64))
    );
    assert_eq!(
        select_property(Tool::Quickcheck, "Other"),
        Err(String::from("Unknown property for quickcheck: Other"))
    );
    assert_eq!(Property::all(), vec![Property::DecimalRoundtripF64]);
    assert_eq!(Tool::Crabcheck.name(), "crabcheck");
}

#[test]
fn merging_keeps_the_first_failure_and_adds_measurements() {
    let a = (Ok(()), Metrics { inputs: 3, elapsed_us: 10 });
    let b = (Err(String::from("first")), Metrics { inputs: 4, elapsed_us: 20 });
    let c = (Err(String::from("second")), Metrics { inputs: 5, elapsed_us: 30 });
    let ab = merge_outcome(a, b);
    let abc = merge_outcome(ab, c);
    assert_eq!(abc.0, Err(String::from("first")));
    assert_eq!(abc.1.inputs, 12);
    assert_eq!(abc.1.elapsed_us, 60);
    let ok = merge_outcome((Ok(()), Metrics::default()), (Ok(()), Metrics::default()));
    assert_eq!(ok.0, Ok(()));
    let m = Metrics { inputs: 1, elapsed_us: 2 }.combine(Metrics { inputs: 3, elapsed_us: 4 });
    assert_eq!((m.inputs, m.elapsed_us), (4, 6));
}

#[test]
fn framework_statuses() {
    assert_eq!(status_message(RunStatus::Finished), Ok(()));
    assert_eq!(
        status_message(RunStatus::Failed { arguments: vec![String::from("1"), String::from("2")] }),
        Err(String::from("(1 2)"))
    );
    assert_eq!(
        status_message(RunStatus::Aborted { error: String::from("bad") }),
        Err(String::from("aborted: bad"))
    );
    assert_eq!(status_message(RunStatus::TimedOut), Err(String::from("timed out")));
    assert_eq!(
        status_message(RunStatus::GaveUp { passed: 7, discarded: 193 }),
        Err(String::from("gave up: passed=7, discarded=193"))
    );
}

#[test]
fn hegel_messages_lose_the_framework_lead_in() {
    assert_eq!(hegel_status(None), Ok(()));
    assert_eq!(
        hegel_status(Some("Property test failed: (1 2)")),
        Err(String::from("(1 2)"))
    );
    assert_eq!(hegel_status(Some("(1 2)")), Err(String::from("(1 2)")));
}

#[test]
fn combining_runs_sums_measurements_and_keeps_the_first_failure() {
    let runs = vec![
        (Ok(()), Metrics { inputs: 1, elapsed_us: 5 }),
        (Err(String::from("first")), Metrics { inputs: 2, elapsed_us: 6 }),
        (Ok(()), Metrics { inputs: 3, elapsed_us: 7 }),
        (Err(String::from("second")), Metrics { inputs: 4, elapsed_us: 8 }),
    ];
    let r = combine_outcomes(runs);
    assert_eq!(r.0, Err(String::from("first")));
    assert_eq!((r.1.inputs, r.1.elapsed_us), (10, 26));
    let none = combine_outcomes(Vec::new());
    assert_eq!(none.0, Ok(()));
    assert_eq!((none.1.inputs, none.1.elapsed_us), (0, 0));
    let all_pass = combine_outcomes(vec![(Ok(()), Metrics { inputs: 9, elapsed_us: 1 })]);
    assert_eq!(all_pass.0, Ok(()));
    assert_eq!(all_pass.1.inputs, 9);
}

#[test]
fn biased_shapes_land_in_the_band_three_rolls_in_four() {
    let band = DecimalShape { mantissa: u64::MAX, tz: u16::MAX };
    let uniform = DecimalShape { mantissa: 42, tz: 7 };
    assert!(biased_shape(0, band, uniform) == uniform);
    for roll in 1u8..4 {
        let d = biased_shape(roll, band, uniform);
        assert!(MANTISSA_BAND_LOW <= d.mantissa && d.mantissa <= MANTISSA_BAND_HIGH);
        assert!(TZ_BAND_LOW <= d.tz && d.tz <= TZ_BAND_HIGH);
        assert_eq!(d.mantissa, 9_007_199_254_740_992 + u64::MAX % 209);
        assert_eq!(d.tz, 800 + u16::MAX % 701);
    }
    let low = biased_shape(2, DecimalShape { mantissa: 0, tz: 0 }, uniform);
    assert_eq!((low.mantissa, low.tz), (MANTISSA_BAND_LOW, TZ_BAND_LOW));
}

#[test]
fn decimal_input_reads_back_as_its_mantissa() {
    for (m, tz) in [(0u64, 3u16), (9007199254740993, 800), (u64::MAX, 0)] {
        let s = format_decimal(m, tz);
        let point = s.find('.').unwrap();
        assert_eq!(s[..point].parse::<u64>(), Ok(m));
        assert!(s[point + 1..].chars().all(|c| c == '0'));
        assert_eq!(s.len(), point + 1 + tz as usize);
    }
}
