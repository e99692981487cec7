//! The inputs the decimal round-trip property is driven with: a mantissa
//! followed by a point and a run of zeros, "{mantissa}.{zeros}".

use vstd::prelude::*;
use crate::text::{decimal, decimal_denotes, decimal_value, is_decimal_digit, push_char, push_decimal};

verus! {

/// `n` zero digits.
pub open spec fn zeros(n: nat) -> Seq<char> {
    Seq::new(n, |i: int| '0')
}

/// The decimal input with integer part `mantissa` and `trailing_zeros`
/// zeros after the point.
pub open spec fn decimal_input(mantissa: u64, trailing_zeros: u16) -> Seq<char> {
    decimal(mantissa as nat) + seq!['.'] + zeros(trailing_zeros as nat)
}

/// The decimal input with integer part `mantissa` and `trailing_zeros`
/// zeros after the point, such as "12.000".
pub fn format_decimal(mantissa: u64, trailing_zeros: u16) -> (s: String)
    ensures
        s@ == decimal_input(mantissa, trailing_zeros),
{
    let mut s = String::new();
    push_decimal(&mut s, mantissa as u128);
    push_char(&mut s, '.');
    let ghost head = s@;
    let n = trailing_zeros as usize;
    let mut i: usize = 0;
    while i < n
        invariant
            i <= n,
            n == trailing_zeros,
            s@ == head + zeros(i as nat),
        decreases n - i,
    {
        push_char(&mut s, '0');
        i = i + 1;
        assert(s@ =~= head + zeros(i as nat));
    }
    assert(s@ =~= decimal_input(mantissa, trailing_zeros));
    s
}

proof fn zeros_denote_zero(n: nat)
    ensures
        decimal_value(zeros(n)) == 0,
    decreases n,
{
    if n > 0 {
        zeros_denote_zero((n - 1) as nat);
        assert(zeros(n).drop_last() =~= zeros((n - 1) as nat));
    } else {
        assert(zeros(n) =~= Seq::<char>::empty());
    }
}

/// The text of a decimal input denotes its mantissa: the digits before the
/// first point are the mantissa's decimal rendering, and the zeros after it
/// add nothing to the value.
pub proof fn decimal_input_denotes(mantissa: u64, trailing_zeros: u16)
    ensures
        ({
            let s = decimal_input(mantissa, trailing_zeros);
            let k = decimal(mantissa as nat).len() as int;
            &&& s.len() == k + 1 + trailing_zeros
            &&& forall|i: int| 0 <= i < k ==> is_decimal_digit(#[trigger] s[i])
            &&& s[k] == '.'
            &&& decimal_value(s.take(k)) == mantissa
            &&& forall|i: int| k < i < s.len() ==> #[trigger] s[i] == '0'
            &&& decimal_value(s.skip(k + 1)) == 0
        }),
{
    let s = decimal_input(mantissa, trailing_zeros);
    let d = decimal(mantissa as nat);
    let k = d.len() as int;
    decimal_denotes(mantissa as nat);
    zeros_denote_zero(trailing_zeros as nat);
    assert(s.take(k) =~= d);
    assert(s.skip(k + 1) =~= zeros(trailing_zeros as nat));
    assert forall|i: int| 0 <= i < k implies is_decimal_digit(#[trigger] s[i]) by {
        assert(s[i] == d[i]);
    }
    assert forall|i: int| k < i < s.len() implies #[trigger] s[i] == '0' by {
        assert(s[i] == zeros(trailing_zeros as nat)[i - k - 1]);
    }
}

/// The lowest mantissa of the band that most generated shapes come from:
/// 2^53, where binary64 values are two apart.
pub const MANTISSA_BAND_LOW: u64 = 9_007_199_254_740_992;

/// The highest mantissa of the band.
pub const MANTISSA_BAND_HIGH: u64 = 9_007_199_254_741_200;

/// The fewest trailing zeros in the band: more than the parser's 768-digit
/// buffer holds together with the mantissa.
pub const TZ_BAND_LOW: u16 = 800;

/// The most trailing zeros in the band.
pub const TZ_BAND_HIGH: u16 = 1500;

/// Whether a shape lies in the band.
pub open spec fn in_band(d: DecimalShape) -> bool {
    &&& MANTISSA_BAND_LOW <= d.mantissa <= MANTISSA_BAND_HIGH
    &&& TZ_BAND_LOW <= d.tz <= TZ_BAND_HIGH
}

/// The shape of one generated input: its mantissa and how many zeros follow
/// the point.
#[derive(Clone, Copy, PartialEq, Eq, Structural)]
pub struct DecimalShape {
    pub mantissa: u64,
    pub tz: u16,
}

/// Whether `bit` names a bit of the mantissa (`in_mantissa`) or of the
/// zero count.
pub open spec fn valid_flip(in_mantissa: bool, bit: u32) -> bool {
    if in_mantissa {
        bit < 64
    } else {
        bit < 16
    }
}

/// The shape with one bit of the mantissa, or of the zero count, inverted.
pub open spec fn flip_spec(d: DecimalShape, in_mantissa: bool, bit: u32) -> DecimalShape {
    if in_mantissa {
        DecimalShape { mantissa: d.mantissa ^ (1u64 << bit), tz: d.tz }
    } else {
        DecimalShape { mantissa: d.mantissa, tz: d.tz ^ (1u16 << bit) }
    }
}

impl DecimalShape {
    /// The input this shape stands for.
    pub fn input(&self) -> (s: String)
        ensures
            s@ == decimal_input(self.mantissa, self.tz),
    {
        format_decimal(self.mantissa, self.tz)
    }

    /// A mutation of this shape: bit `bit` of the mantissa when
    /// `in_mantissa`, and of the zero count otherwise, inverted.
    pub fn flip(&self, in_mantissa: bool, bit: u32) -> (r: DecimalShape)
        requires
            valid_flip(in_mantissa, bit),
        ensures
            r == flip_spec(*self, in_mantissa, bit),
            in_mantissa ==> r.tz == self.tz && r.mantissa ^ self.mantissa == 1u64 << bit,
            !in_mantissa ==> r.mantissa == self.mantissa && r.tz ^ self.tz == 1u16 << bit,
    {
        proof {
            flip_inverts_one_bit(*self, in_mantissa, bit);
        }
        let mut out = *self;
        if in_mantissa {
            out.mantissa = out.mantissa ^ (1u64 << bit);
        } else {
            out.tz = out.tz ^ (1u16 << bit);
        }
        out
    }

    /// How a failing shape is shown: "(mantissa zeros)".
    pub fn counterexample(&self) -> (s: String)
        ensures
            s@ == seq!['('] + decimal(self.mantissa as nat) + seq![' '] + decimal(self.tz as nat)
                + seq![')'],
    {
        let mut s = String::new();
        push_char(&mut s, '(');
        push_decimal(&mut s, self.mantissa as u128);
        push_char(&mut s, ' ');
        push_decimal(&mut s, self.tz as u128);
        push_char(&mut s, ')');
        assert(s@ =~= seq!['('] + decimal(self.mantissa as nat) + seq![' '] + decimal(
            self.tz as nat,
        ) + seq![')']);
        s
    }
}

/// The shape a generator makes from its draws: a roll of 1, 2 or 3 (three
/// times in four) takes the band, each field of `band_draw` brought into the
/// band by its remainder; a roll of 0 takes `uniform_draw` as it is.
pub fn biased_shape(roll: u8, band_draw: DecimalShape, uniform_draw: DecimalShape) -> (r:
    DecimalShape)
    requires
        roll < 4,
    ensures
        roll != 0 ==> r.mantissa == MANTISSA_BAND_LOW + (band_draw.mantissa as int) % ((
        MANTISSA_BAND_HIGH - MANTISSA_BAND_LOW + 1) as int),
        roll != 0 ==> r.tz == TZ_BAND_LOW + (band_draw.tz as int) % ((TZ_BAND_HIGH - TZ_BAND_LOW
            + 1) as int),
        roll != 0 ==> in_band(r),
        roll == 0 ==> r == uniform_draw,
{
    if roll != 0 {
        DecimalShape {
            mantissa: MANTISSA_BAND_LOW + band_draw.mantissa % (MANTISSA_BAND_HIGH
                - MANTISSA_BAND_LOW + 1),
            tz: TZ_BAND_LOW + band_draw.tz % (TZ_BAND_HIGH - TZ_BAND_LOW + 1),
        }
    } else {
        uniform_draw
    }
}

/// A mutation inverts exactly the named bit: the other field is unchanged,
/// and the flipped field differs from the original in bit `bit` alone.
pub proof fn flip_inverts_one_bit(d: DecimalShape, in_mantissa: bool, bit: u32)
    requires
        valid_flip(in_mantissa, bit),
    ensures
        in_mantissa ==> flip_spec(d, in_mantissa, bit).tz == d.tz && flip_spec(
            d,
            in_mantissa,
            bit,
        ).mantissa ^ d.mantissa == 1u64 << bit,
        !in_mantissa ==> flip_spec(d, in_mantissa, bit).mantissa == d.mantissa && flip_spec(
            d,
            in_mantissa,
            bit,
        ).tz ^ d.tz == 1u16 << bit,
{
    let m = d.mantissa;
    let t = d.tz;
    if in_mantissa {
        let r = flip_spec(d, in_mantissa, bit).mantissa;
        assert(r == m ^ (1u64 << bit));
        assert((m ^ (1u64 << bit)) ^ m == 1u64 << bit) by (bit_vector);
    } else {
        let r = flip_spec(d, in_mantissa, bit).tz;
        assert(r == t ^ (1u16 << bit));
        assert((t ^ (1u16 << bit)) ^ t == 1u16 << bit) by (bit_vector);
    }
}

/// A mutation always changes the shape, and the same mutation applied again
/// gives the original shape back.
pub proof fn flip_is_an_involution(d: DecimalShape, in_mantissa: bool, bit: u32)
    requires
        valid_flip(in_mantissa, bit),
    ensures
        flip_spec(d, in_mantissa, bit) != d,
        flip_spec(flip_spec(d, in_mantissa, bit), in_mantissa, bit) == d,
{
    let m = d.mantissa;
    let t = d.tz;
    if in_mantissa {
        assert((m ^ (1u64 << bit)) != m && ((m ^ (1u64 << bit)) ^ (1u64 << bit)) == m) by (bit_vector)
            requires
                bit < 64,
        ;
    } else {
        assert((t ^ (1u16 << bit)) != t && ((t ^ (1u16 << bit)) ^ (1u16 << bit)) == t) by (bit_vector)
            requires
                bit < 16,
        ;
    }
}

} // verus!
