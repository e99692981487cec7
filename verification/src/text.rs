//! Building text: decimal and hexadecimal renderings of integers, and
//! appending characters and slices to a `String`.

use vstd::prelude::*;
use vstd::string::StringExecFns;

verus! {

/// The character of a decimal or hexadecimal digit `d` (`0..16`), lower case.
pub open spec fn digit_char(d: nat) -> char {
    if d < 10 {
        (48 + d) as char
    } else {
        (87 + d) as char
    }
}

/// The decimal rendering of `n`, without sign or leading zeros ("0" for zero).
pub open spec fn decimal(n: nat) -> Seq<char>
    decreases n,
{
    if n < 10 {
        seq![digit_char(n)]
    } else {
        decimal(n / 10).push(digit_char(n % 10))
    }
}

/// The `width` lowest hexadecimal digits of `n`, lower case, most significant
/// first; zero-padded to exactly `width` characters.
pub open spec fn padded_hex(n: nat, width: nat) -> Seq<char>
    decreases width,
{
    if width == 0 {
        Seq::empty()
    } else {
        padded_hex(n / 16, (width - 1) as nat).push(digit_char(n % 16))
    }
}

/// Whether `c` is one of the decimal digits '0' to '9'.
pub open spec fn is_decimal_digit(c: char) -> bool {
    48 <= (c as u32) <= 57
}

/// The number that a string of decimal digits denotes, most significant
/// digit first (0 for the empty string).
pub open spec fn decimal_value(s: Seq<char>) -> nat
    decreases s.len(),
{
    if s.len() == 0 {
        0
    } else {
        decimal_value(s.drop_last()) * 10 + ((s.last() as u32) - 48) as nat
    }
}

/// The decimal rendering of `n` is a non-empty string of digits, without a
/// leading zero unless `n` is zero, and it denotes `n`.
pub proof fn decimal_denotes(n: nat)
    ensures
        decimal(n).len() > 0,
        forall|i: int| 0 <= i < decimal(n).len() ==> is_decimal_digit(#[trigger] decimal(n)[i]),
        n > 0 ==> decimal(n)[0] != '0',
        decimal_value(decimal(n)) == n,
    decreases n,
{
    if n >= 10 {
        decimal_denotes(n / 10);
        let d = decimal(n);
        assert(d.drop_last() =~= decimal(n / 10));
        assert(d[0] == decimal(n / 10)[0]);
        assert forall|i: int| 0 <= i < d.len() implies is_decimal_digit(#[trigger] d[i]) by {
            if i < d.len() - 1 {
                assert(d[i] == decimal(n / 10)[i]);
            }
        }
        assert((d.last() as u32) - 48 == n % 10);
        assert((n / 10) * 10 + n % 10 == n) by (nonlinear_arith);
        assert(decimal_value(d.drop_last()) == n / 10);
    } else {
        assert(decimal(n).drop_last() =~= Seq::<char>::empty());
        assert(decimal_value(decimal(n).drop_last()) == 0);
        assert((decimal(n).last() as u32) - 48 == n);
    }
}

fn digit(d: u8) -> (c: char)
    requires
        d < 16,
    ensures
        c == digit_char(d as nat),
{
    if d < 10 {
        (48u8 + d) as char
    } else {
        (87u8 + d) as char
    }
}

/// Appends `c` to `s` (`String::push`).
#[verifier::external_body]
pub fn push_char(s: &mut String, c: char)
    ensures
        final(s)@ == old(s)@.push(c),
{
    s.push(c);
}

/// What `format!("{:?}", s)` gives for a string slice whose characters are
/// `s`: the slice between double quotes, with its characters escaped the way
/// string slices escape them when debug-formatted.
pub uninterp spec fn debug_text(s: Seq<char>) -> Seq<char>;

/// The `Debug` rendering of `s` (`<str as Debug>::fmt`). Its result is named,
/// not described: nothing here states how characters are escaped.
#[verifier::external_body]
pub fn debug_string(s: &str) -> (r: String)
    ensures
        r@ == debug_text(s@),
{
    format!("{:?}", s)
}

/// Appends the decimal rendering of `n` to `out`.
pub fn push_decimal(out: &mut String, n: u128)
    ensures
        final(out)@ == old(out)@ + decimal(n as nat),
    decreases n,
{
    if n >= 10 {
        push_decimal(out, n / 10);
    }
    push_char(out, digit((n % 10) as u8));
}

/// Appends the `width` lowest hexadecimal digits of `n` to `out`.
pub fn push_padded_hex(out: &mut String, n: u128, width: usize)
    ensures
        final(out)@ == old(out)@ + padded_hex(n as nat, width as nat),
    decreases width,
{
    if width > 0 {
        push_padded_hex(out, n / 16, width - 1);
        push_char(out, digit((n % 16) as u8));
    }
}

/// Whether two string slices hold the same characters (`<str as PartialEq>::eq`).
#[verifier::external_body]
pub fn same_text(a: &str, b: &str) -> (r: bool)
    ensures
        r == (a@ == b@),
{
    a == b
}

/// The rest of `s` after `prefix`, where `s` begins with `prefix`
/// (`str::strip_prefix` with a string pattern).
#[verifier::external_body]
pub fn strip_prefix<'a>(s: &'a str, prefix: &str) -> (r: Option<&'a str>)
    ensures
        match r {
            Some(rest) => s@ == prefix@ + rest@,
            None => !prefix@.is_prefix_of(s@),
        },
{
    s.strip_prefix(prefix)
}

/// The pieces of `parts` joined, with `sep` between each two of them.
pub open spec fn joined(parts: Seq<Seq<char>>, sep: Seq<char>) -> Seq<char>
    decreases parts.len(),
{
    if parts.len() == 0 {
        Seq::empty()
    } else if parts.len() == 1 {
        parts[0]
    } else {
        joined(parts.drop_last(), sep) + sep + parts.last()
    }
}

/// Joining puts the separator between each two pieces and nowhere else: no
/// pieces give nothing, one piece gives itself, and one more piece adds the
/// separator and the piece.
pub proof fn joined_pieces(parts: Seq<Seq<char>>, p: Seq<char>, sep: Seq<char>)
    ensures
        joined(Seq::empty(), sep) == Seq::<char>::empty(),
        joined(seq![p], sep) == p,
        parts.len() > 0 ==> joined(parts.push(p), sep) == joined(parts, sep) + sep + p,
{
    assert(parts.push(p).drop_last() =~= parts);
}

/// Joins `parts` with `sep` between each two of them (`[String]::join`).
pub fn join(parts: &Vec<String>, sep: &str) -> (r: String)
    ensures
        r@ == joined(parts@.map_values(|p: String| p@), sep@),
{
    let ghost views = parts@.map_values(|p: String| p@);
    let mut r = String::new();
    let n = parts.len();
    let mut i: usize = 0;
    while i < n
        invariant
            n == parts.len(),
            i <= n,
            views == parts@.map_values(|p: String| p@),
            r@ == joined(views.take(i as int), sep@),
        decreases n - i,
    {
        assert(views.take(i + 1).drop_last() =~= views.take(i as int));
        if i > 0 {
            r.append(sep);
        }
        r.append(parts[i].as_str());
        i = i + 1;
    }
    assert(views.take(n as int) =~= views);
    r
}

} // verus!
