//! The one-line JSON report of a run: JSON string literals, and the line
//! itself.

use vstd::prelude::*;
use vstd::string::StringExecFns;
use crate::runner::{Metrics, Outcome};
use crate::text::{decimal, digit_char, padded_hex, push_char, push_decimal, push_padded_hex};

verus! {

/// How a character stands inside a JSON string literal: quote and backslash
/// escaped, the usual short escapes for newline, carriage return and tab,
/// other control characters as four hexadecimal digits, and anything else
/// as itself.
pub open spec fn json_escape_char(c: char) -> Seq<char> {
    if c == '"' {
        seq!['\\', '"']
    } else if c == '\\' {
        seq!['\\', '\\']
    } else if c == '\n' {
        seq!['\\', 'n']
    } else if c == '\r' {
        seq!['\\', 'r']
    } else if c == '\t' {
        seq!['\\', 't']
    } else if (c as u32) < 0x20 {
        seq!['\\', 'u'] + padded_hex(c as nat, 4)
    } else {
        seq![c]
    }
}

/// The characters of `s`, each escaped for a JSON string literal.
pub open spec fn json_escape(s: Seq<char>) -> Seq<char>
    decreases s.len(),
{
    if s.len() == 0 {
        Seq::empty()
    } else {
        json_escape(s.drop_last()) + json_escape_char(s.last())
    }
}

/// The JSON string literal that holds `s`.
pub open spec fn json_string(s: Seq<char>) -> Seq<char> {
    seq!['"'] + json_escape(s) + seq!['"']
}

fn push_json_char(out: &mut String, c: char)
    ensures
        final(out)@ == old(out)@ + json_escape_char(c),
{
    if c == '"' {
        push_char(out, '\\');
        push_char(out, '"');
    } else if c == '\\' {
        push_char(out, '\\');
        push_char(out, '\\');
    } else if c == '\n' {
        push_char(out, '\\');
        push_char(out, 'n');
    } else if c == '\r' {
        push_char(out, '\\');
        push_char(out, 'r');
    } else if c == '\t' {
        push_char(out, '\\');
        push_char(out, 't');
    } else if (c as u32) < 0x20 {
        push_char(out, '\\');
        push_char(out, 'u');
        push_padded_hex(out, c as u32 as u128, 4);
    } else {
        push_char(out, c);
    }
    assert(final(out)@ =~= old(out)@ + json_escape_char(c));
}

/// Appends the JSON string literal that holds `s` to `out`.
fn push_json_string(out: &mut String, s: &str)
    ensures
        final(out)@ == old(out)@ + json_string(s@),
{
    let ghost start = out@;
    push_char(out, '"');
    for c in it: s.chars()
        invariant
            it.seq() == s@,
            out@ == start + seq!['"'] + json_escape(it.seq().take(it.index())),
    {
        let ghost before = it.seq().take(it.index());
        proof {
            let after = it.seq().take(it.index() + 1);
            assert(after.drop_last() =~= before);
        }
        push_json_char(out, c);
    }
    assert(s@.take(s@.len() as int) =~= s@);
    push_char(out, '"');
    assert(out@ =~= start + json_string(s@));
}

/// The JSON string literal that holds `s`.
pub fn json_str(s: &str) -> (r: String)
    ensures
        r@ == json_string(s@),
{
    let mut r = String::new();
    push_json_string(&mut r, s);
    assert(r@ =~= json_string(s@));
    r
}

/// The characters of an optional string slice.
pub open spec fn text_of(t: Option<&str>) -> Option<Seq<char>> {
    match t {
        Some(t) => Some(t@),
        None => None,
    }
}

/// The value of a JSON hexadecimal digit, either case.
pub open spec fn hex_digit_value(c: char) -> Option<nat> {
    let u = c as u32;
    if 48 <= u <= 57 {
        Some((u - 48) as nat)
    } else if 97 <= u <= 102 {
        Some((u - 87) as nat)
    } else if 65 <= u <= 70 {
        Some((u - 55) as nat)
    } else {
        None
    }
}

/// The character that a JSON escape `\e` with a single letter `e` stands for.
pub open spec fn short_escape(e: char) -> Option<char> {
    if e == '"' {
        Some('"')
    } else if e == '\\' {
        Some('\\')
    } else if e == '/' {
        Some('/')
    } else if e == 'b' {
        Some('\u{8}')
    } else if e == 'f' {
        Some('\u{c}')
    } else if e == 'n' {
        Some('\n')
    } else if e == 'r' {
        Some('\r')
    } else if e == 't' {
        Some('\t')
    } else {
        None
    }
}

/// The code point that the four hexadecimal digits of a `\u` escape at the
/// front of `t` (after the `\u`) stand for.
pub open spec fn unicode_escape_value(t: Seq<char>) -> Option<nat> {
    if t.len() < 6 {
        None
    } else {
        match (
            hex_digit_value(t[2]),
            hex_digit_value(t[3]),
            hex_digit_value(t[4]),
            hex_digit_value(t[5]),
        ) {
            (Some(a), Some(b), Some(c), Some(d)) => Some(a * 4096 + b * 256 + c * 16 + d),
            _ => None,
        }
    }
}

/// Prepends `c` to a decoded rest, if there is one.
pub open spec fn cons_decoded(c: char, rest: Option<Seq<char>>) -> Option<Seq<char>> {
    match rest {
        Some(r) => Some(seq![c] + r),
        None => None,
    }
}

/// The characters that the body `t` of a JSON string literal (between its
/// quotes) stands for, or `None` where the body is malformed: a raw quote
/// or control character, or an unknown or incomplete escape. A `\u` escape
/// is decoded on its own; surrogate halves, which JSON writes in pairs for
/// characters beyond U+FFFF, are refused.
pub open spec fn json_unescape(t: Seq<char>) -> Option<Seq<char>>
    decreases t.len(),
{
    if t.len() == 0 {
        Some(Seq::empty())
    } else if t[0] == '\\' {
        if t.len() < 2 {
            None
        } else {
            match short_escape(t[1]) {
                Some(c) => cons_decoded(c, json_unescape(t.skip(2))),
                None => if t[1] == 'u' {
                    match unicode_escape_value(t) {
                        Some(v) => if v < 0xD800 || 0xE000 <= v {
                            cons_decoded((v as u32) as char, json_unescape(t.skip(6)))
                        } else {
                            None
                        },
                        None => None,
                    }
                } else {
                    None
                },
            }
        }
    } else if t[0] == '"' || (t[0] as u32) < 0x20 {
        None
    } else {
        cons_decoded(t[0], json_unescape(t.skip(1)))
    }
}

/// The characters that the JSON string literal `t` stands for, or `None` if
/// `t` is not one.
pub open spec fn json_string_value(t: Seq<char>) -> Option<Seq<char>> {
    if t.len() >= 2 && t[0] == '"' && t.last() == '"' {
        json_unescape(t.subrange(1, t.len() - 1))
    } else {
        None
    }
}

proof fn json_escape_front(s: Seq<char>)
    requires
        s.len() > 0,
    ensures
        json_escape(s) == json_escape_char(s[0]) + json_escape(s.drop_first()),
    decreases s.len(),
{
    if s.len() == 1 {
        assert(s.drop_last() =~= Seq::<char>::empty());
        assert(s.drop_first() =~= Seq::<char>::empty());
        assert(json_escape(s) =~= json_escape_char(s[0]) + json_escape(s.drop_first()));
    } else {
        let init = s.drop_last();
        json_escape_front(init);
        assert(init.drop_first() =~= s.drop_first().drop_last());
        assert(s.drop_first().last() == s.last());
        assert(json_escape(s) =~= json_escape_char(s[0]) + json_escape(s.drop_first()));
    }
}

proof fn unescape_escaped_char(c: char, t: Seq<char>)
    ensures
        json_unescape(json_escape_char(c) + t) == cons_decoded(c, json_unescape(t)),
{
    let e = json_escape_char(c);
    let w = e + t;
    if c == '"' || c == '\\' || c == '\n' || c == '\r' || c == '\t' {
        assert(w.skip(2) =~= t);
        assert(w[0] == '\\');
        assert(w[1] == e[1]);
    } else if (c as u32) < 0x20 {
        let n = c as nat;
        reveal_with_fuel(padded_hex, 5);
        let h = padded_hex(n, 4);
        assert(h =~= seq![
            digit_char(n / 16 / 16 / 16 % 16),
            digit_char(n / 16 / 16 % 16),
            digit_char(n / 16 % 16),
            digit_char(n % 16),
        ]);
        assert(n / 16 / 16 / 16 % 16 == 0);
        assert(n / 16 / 16 % 16 == 0);
        assert(n / 16 % 16 < 2);
        assert(w.skip(6) =~= t);
        assert(w[0] == '\\');
        assert(w[1] == 'u');
        assert(w[2] == '0' && w[3] == '0');
        assert(w[4] == digit_char(n / 16 % 16));
        assert(w[5] == digit_char(n % 16));
        assert(hex_digit_value(w[4]) == Some(n / 16 % 16));
        assert(hex_digit_value(w[5]) == Some(n % 16));
        assert(unicode_escape_value(w) == Some(n));
        assert(((n as u32) as char) == c);
    } else {
        assert(w.skip(1) =~= t);
        assert(w[0] == c);
    }
}

proof fn unescape_escaped(s: Seq<char>)
    ensures
        json_unescape(json_escape(s)) == Some(s),
    decreases s.len(),
{
    if s.len() == 0 {
        assert(json_escape(s) =~= Seq::<char>::empty());
    } else {
        json_escape_front(s);
        unescape_escaped(s.drop_first());
        unescape_escaped_char(s[0], json_escape(s.drop_first()));
        assert(seq![s[0]] + s.drop_first() =~= s);
    }
}

/// A JSON string literal that [`json_str`] writes reads back, under JSON's
/// rules, as exactly the text it was written from.
pub proof fn json_string_decodes(s: Seq<char>)
    ensures
        json_string_value(json_string(s)) == Some(s),
{
    let t = json_string(s);
    unescape_escaped(s);
    assert(t.subrange(1, t.len() - 1) =~= json_escape(s));
}

/// Different texts give different JSON string literals.
pub proof fn json_string_injective(a: Seq<char>, b: Seq<char>)
    requires
        json_string(a) == json_string(b),
    ensures
        a == b,
{
    json_string_decodes(a);
    json_string_decodes(b);
}

/// A JSON string literal holding the text, or `null` where there is none.
pub open spec fn json_or_null(t: Option<Seq<char>>) -> Seq<char> {
    match t {
        Some(t) => json_string(t),
        None => "null"@,
    }
}

/// The one-line JSON report of a run of `property` with `tool`: its status,
/// how many inputs it tried, how long it took (in microseconds, as a string
/// ending in "us"), the counterexample and the error, each a string or null.
pub open spec fn report_line(
    tool: Seq<char>,
    property: Seq<char>,
    status: Seq<char>,
    metrics: Metrics,
    counterexample: Option<Seq<char>>,
    error: Option<Seq<char>>,
) -> Seq<char> {
    "{\"status\":"@ + json_string(status) + ",\"tests\":"@ + decimal(metrics.inputs as nat)
        + ",\"discards\":0,\"time\":"@ + json_string(decimal(metrics.elapsed_us as nat) + "us"@)
        + ",\"counterexample\":"@ + json_or_null(counterexample) + ",\"error\":"@ + json_or_null(
        error,
    ) + ",\"tool\":"@ + json_string(tool) + ",\"property\":"@ + json_string(property) + "}"@
}

/// The part of a report before the counterexample's value: status, input
/// count and time, ending with the counterexample's key.
pub open spec fn report_head(status: Seq<char>, metrics: Metrics) -> Seq<char> {
    "{\"status\":"@ + json_string(status) + ",\"tests\":"@ + decimal(metrics.inputs as nat)
        + ",\"discards\":0,\"time\":"@ + json_string(decimal(metrics.elapsed_us as nat) + "us"@)
        + ",\"counterexample\":"@
}

/// The part of a report after the error's value: tool and property.
pub open spec fn report_end(tool: Seq<char>, property: Seq<char>) -> Seq<char> {
    ",\"tool\":"@ + json_string(tool) + ",\"property\":"@ + json_string(property) + "}"@
}

/// A report carries the counterexample and the error it is given, whole:
/// the counterexample's JSON literal (or null) follows a head that does not
/// depend on it, the error's follows its key, and each literal reads back as
/// exactly the text it holds.
pub proof fn report_carries_texts(
    tool: Seq<char>,
    property: Seq<char>,
    status: Seq<char>,
    metrics: Metrics,
    counterexample: Option<Seq<char>>,
    error: Option<Seq<char>>,
)
    ensures
        report_line(tool, property, status, metrics, counterexample, error) == report_head(
            status,
            metrics,
        ) + (match counterexample {
            Some(t) => json_string(t),
            None => "null"@,
        }) + ",\"error\":"@ + (match error {
            Some(t) => json_string(t),
            None => "null"@,
        }) + report_end(tool, property),
        counterexample matches Some(t) ==> json_string_value(json_string(t)) == Some(t),
        error matches Some(t) ==> json_string_value(json_string(t)) == Some(t),
{
    match counterexample {
        Some(t) => json_string_decodes(t),
        None => {},
    }
    match error {
        Some(t) => json_string_decodes(t),
        None => {},
    }
    assert(report_line(tool, property, status, metrics, counterexample, error) =~= report_head(
        status,
        metrics,
    ) + json_or_null(counterexample) + ",\"error\":"@ + json_or_null(error) + report_end(
        tool,
        property,
    ));
}

fn push_json_or_null(out: &mut String, t: Option<&str>)
    ensures
        final(out)@ == old(out)@ + json_or_null(text_of(t)),
{
    match t {
        Some(t) => push_json_string(out, t),
        None => out.append("null"),
    }
}

/// The one-line JSON report of a run (see [`report_line`]).
pub fn json_report(
    tool: &str,
    property: &str,
    status: &str,
    metrics: Metrics,
    counterexample: Option<&str>,
    error: Option<&str>,
) -> (r: String)
    ensures
        r@ == report_line(tool@, property@, status@, metrics, text_of(counterexample), text_of(error)),
{
    let mut r = String::new();
    r.append("{\"status\":");
    push_json_string(&mut r, status);
    r.append(",\"tests\":");
    push_decimal(&mut r, metrics.inputs as u128);
    r.append(",\"discards\":0,\"time\":");
    let mut time = String::new();
    push_decimal(&mut time, metrics.elapsed_us);
    time.append("us");
    push_json_string(&mut r, time.as_str());
    r.append(",\"counterexample\":");
    push_json_or_null(&mut r, counterexample);
    r.append(",\"error\":");
    push_json_or_null(&mut r, error);
    r.append(",\"tool\":");
    push_json_string(&mut r, tool);
    r.append(",\"property\":");
    push_json_string(&mut r, property);
    r.append("}");
    assert(r@ =~= report_line(tool@, property@, status@, metrics, text_of(counterexample), text_of(error)));
    r
}

/// The report of a run that ended with `outcome`: "passed" when its status
/// is `Ok`, and otherwise "failed" with the status's text as the
/// counterexample.
pub fn outcome_report(tool: &str, property: &str, outcome: &Outcome) -> (r: String)
    ensures
        r@ == match outcome.0 {
            Ok(()) => report_line(tool@, property@, "passed"@, outcome.1, None, None),
            Err(e) => report_line(tool@, property@, "failed"@, outcome.1, Some(e@), None),
        },
{
    match &outcome.0 {
        Ok(()) => json_report(tool, property, "passed", outcome.1, None, None),
        Err(e) => json_report(tool, property, "failed", outcome.1, Some(e.as_str()), None),
    }
}

/// The report of a run that stopped abnormally with `message`: "aborted",
/// no measurements, and the message as the error.
pub fn aborted_report(tool: &str, property: &str, message: &str) -> (r: String)
    ensures
        r@ == report_line(
            tool@,
            property@,
            "aborted"@,
            Metrics { inputs: 0, elapsed_us: 0 },
            None,
            Some(message@),
        ),
{
    json_report(tool, property, "aborted", Metrics { inputs: 0, elapsed_us: 0 }, None, Some(message))
}

/// No character of `s` is a line break.
pub open spec fn single_line(s: Seq<char>) -> bool {
    forall|i: int| 0 <= i < s.len() ==> s[i] != '\n'
}

proof fn single_line_concat(a: Seq<char>, b: Seq<char>)
    requires
        single_line(a),
        single_line(b),
    ensures
        single_line(a + b),
{
    assert forall|i: int| 0 <= i < (a + b).len() implies (a + b)[i] != '\n' by {
        if i < a.len() {
            assert((a + b)[i] == a[i]);
        } else {
            assert((a + b)[i] == b[i - a.len()]);
        }
    }
}

proof fn padded_hex_single_line(n: nat, width: nat)
    ensures
        single_line(padded_hex(n, width)),
    decreases width,
{
    if width > 0 {
        padded_hex_single_line(n / 16, (width - 1) as nat);
        single_line_concat(padded_hex(n / 16, (width - 1) as nat), seq![crate::text::digit_char(n % 16)]);
        assert(padded_hex(n, width) =~= padded_hex(n / 16, (width - 1) as nat) + seq![crate::text::digit_char(n % 16)]);
    }
}

proof fn decimal_single_line(n: nat)
    ensures
        single_line(decimal(n)),
    decreases n,
{
    if n >= 10 {
        decimal_single_line(n / 10);
        single_line_concat(decimal(n / 10), seq![crate::text::digit_char(n % 10)]);
        assert(decimal(n) =~= decimal(n / 10) + seq![crate::text::digit_char(n % 10)]);
    }
}

proof fn json_escape_single_line(s: Seq<char>)
    ensures
        single_line(json_escape(s)),
    decreases s.len(),
{
    if s.len() > 0 {
        json_escape_single_line(s.drop_last());
        let c = s.last();
        if (c as u32) < 0x20 && c != '"' && c != '\\' && c != '\n' && c != '\r' && c != '\t' {
            padded_hex_single_line(c as nat, 4);
            single_line_concat(seq!['\\', 'u'], padded_hex(c as nat, 4));
        }
        single_line_concat(json_escape(s.drop_last()), json_escape_char(c));
    }
}

proof fn json_string_single_line(s: Seq<char>)
    ensures
        single_line(json_string(s)),
{
    json_escape_single_line(s);
    single_line_concat(seq!['"'], json_escape(s));
    single_line_concat(seq!['"'] + json_escape(s), seq!['"']);
}

/// A report is a single line, whatever the texts it holds: every line break
/// in them is escaped.
pub proof fn report_is_one_line(
    tool: Seq<char>,
    property: Seq<char>,
    status: Seq<char>,
    metrics: Metrics,
    counterexample: Option<Seq<char>>,
    error: Option<Seq<char>>,
)
    ensures
        single_line(report_line(tool, property, status, metrics, counterexample, error)),
{
    reveal_strlit("{\"status\":");
    reveal_strlit(",\"tests\":");
    reveal_strlit(",\"discards\":0,\"time\":");
    reveal_strlit("us");
    reveal_strlit(",\"counterexample\":");
    reveal_strlit(",\"error\":");
    reveal_strlit(",\"tool\":");
    reveal_strlit(",\"property\":");
    reveal_strlit("}");
    reveal_strlit("null");
    json_string_single_line(status);
    json_string_single_line(tool);
    json_string_single_line(property);
    decimal_single_line(metrics.inputs as nat);
    decimal_single_line(metrics.elapsed_us as nat);
    single_line_concat(decimal(metrics.elapsed_us as nat), "us"@);
    json_string_single_line(decimal(metrics.elapsed_us as nat) + "us"@);
    match counterexample {
        Some(t) => json_string_single_line(t),
        None => {},
    }
    match error {
        Some(t) => json_string_single_line(t),
        None => {},
    }
    let p0 = "{\"status\":"@ + json_string(status);
    single_line_concat("{\"status\":"@, json_string(status));
    let p1 = p0 + ",\"tests\":"@;
    single_line_concat(p0, ",\"tests\":"@);
    let p2 = p1 + decimal(metrics.inputs as nat);
    single_line_concat(p1, decimal(metrics.inputs as nat));
    let p3 = p2 + ",\"discards\":0,\"time\":"@;
    single_line_concat(p2, ",\"discards\":0,\"time\":"@);
    let p4 = p3 + json_string(decimal(metrics.elapsed_us as nat) + "us"@);
    single_line_concat(p3, json_string(decimal(metrics.elapsed_us as nat) + "us"@));
    let p5 = p4 + ",\"counterexample\":"@;
    single_line_concat(p4, ",\"counterexample\":"@);
    let p6 = p5 + json_or_null(counterexample);
    single_line_concat(p5, json_or_null(counterexample));
    let p7 = p6 + ",\"error\":"@;
    single_line_concat(p6, ",\"error\":"@);
    let p8 = p7 + json_or_null(error);
    single_line_concat(p7, json_or_null(error));
    let p9 = p8 + ",\"tool\":"@;
    single_line_concat(p8, ",\"tool\":"@);
    let p10 = p9 + json_string(tool);
    single_line_concat(p9, json_string(tool));
    let p11 = p10 + ",\"property\":"@;
    single_line_concat(p10, ",\"property\":"@);
    let p12 = p11 + json_string(property);
    single_line_concat(p11, json_string(property));
    single_line_concat(p12, "}"@);
}

} // verus!
