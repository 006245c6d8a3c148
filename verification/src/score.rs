//! Fixed-point decimal values for risks, confidences, trust levels and weights.

use vstd::prelude::*;

use crate::text;
use crate::text::decimal;
use crate::text::push_digit;
use vstd::string::StringExecFns;

verus! {

/// Units per whole: a [`Score`] counts billionths.
pub const SCALE: i64 = 1_000_000_000;

/// A decimal number with nine fractional digits.
#[derive(Clone, Copy, Debug, PartialEq, Eq, Structural, Hash)]
pub struct Score {
    /// The value in billionths.
    pub nanos: i64,
}

/// `x` restricted to `[lo, hi]`.
pub open spec fn clamp_int(x: int, lo: int, hi: int) -> int {
    if x < lo {
        lo
    } else if x > hi {
        hi
    } else {
        x
    }
}

/// `x` restricted to the billionths of `[0, 1]`.
pub open spec fn unit_clamp(x: int) -> int {
    clamp_int(x, 0, SCALE as int)
}

/// The larger of two integers.
pub open spec fn max_int(a: int, b: int) -> int {
    if a >= b {
        a
    } else {
        b
    }
}

/// The smaller of two integers.
pub open spec fn min_int(a: int, b: int) -> int {
    if a <= b {
        a
    } else {
        b
    }
}

/// The distance of `x` from zero.
pub open spec fn abs_int(x: int) -> int {
    if x < 0 {
        -x
    } else {
        x
    }
}

/// Quotient rounded toward negative infinity.
pub fn div_floor(a: i128, b: i128) -> (q: i128)
    requires
        b > 0,
        a > i128::MIN,
    ensures
        q == a as int / b as int,
{
    if a >= 0 {
        a / b
    } else {
        let m: i128 = -(a + 1);
        let t: i128 = m / b;
        proof {
            let aa = a as int;
            let bb = b as int;
            let mm = -(aa + 1);
            let tt = mm / bb;
            vstd::arithmetic::div_mod::lemma_fundamental_div_mod(mm, bb);
            let rr = mm % bb;
            assert(aa == bb * (-tt - 1) + (bb - 1 - rr)) by (nonlinear_arith)
                requires
                    mm == -(aa + 1),
                    mm == bb * tt + rr,
            ;
            vstd::arithmetic::div_mod::lemma_fundamental_div_mod_converse(
                aa,
                bb,
                -tt - 1,
                bb - 1 - rr,
            );
            assert(0 <= tt <= mm) by (nonlinear_arith)
                requires
                    mm == bb * tt + rr,
                    0 <= rr < bb,
                    bb > 0,
                    mm >= 0,
            ;
        }
        -t - 1
    }
}

/// The larger of two 64-bit integers.
pub fn max_i64(a: i64, b: i64) -> (r: i64)
    ensures
        r == max_int(a as int, b as int),
{
    if a >= b {
        a
    } else {
        b
    }
}

/// The smaller of two 64-bit integers.
pub fn min_i64(a: i64, b: i64) -> (r: i64)
    ensures
        r == min_int(a as int, b as int),
{
    if a <= b {
        a
    } else {
        b
    }
}

/// The fractional digits of `f` billionths-style units, most significant
/// first, where `unit` is the weight of the first digit. Trailing zeros are
/// absent.
pub open spec fn fraction_digits(f: nat, unit: nat) -> Seq<char>
    decreases unit,
{
    if f == 0 || unit == 0 {
        Seq::empty()
    } else {
        seq![text::digit_char(f / unit)] + fraction_digits(f % unit, unit / 10)
    }
}

/// Shortest decimal notation of `n` billionths: no trailing fractional zeros,
/// and no point when the value is whole.
pub open spec fn score_digits(n: int) -> Seq<char> {
    let m = abs_int(n) as nat;
    let whole = text::decimal_digits(m / 1_000_000_000);
    let body = if m % 1_000_000_000 == 0 {
        whole
    } else {
        whole + "."@ + fraction_digits(m % 1_000_000_000, 100_000_000)
    };
    if n < 0 {
        "-"@ + body
    } else {
        body
    }
}

/// `n` billionths rounded to hundredths, ties to even.
pub open spec fn hundredths(n: nat) -> nat {
    let h = n / 10_000_000;
    let r = n % 10_000_000;
    if r > 5_000_000 || (r == 5_000_000 && h % 2 == 1) {
        h + 1
    } else {
        h
    }
}

/// Notation with exactly two fractional digits.
pub open spec fn score_fixed2(n: int) -> Seq<char> {
    let h = hundredths(abs_int(n) as nat);
    let body = text::decimal_digits(h / 100) + "."@ + seq![text::digit_char((h / 10) % 10)] + seq![
        text::digit_char(h % 10),
    ];
    if n < 0 {
        "-"@ + body
    } else {
        body
    }
}

/// A weight that a fractional digit of a [`Score`] can have, or zero past the
/// last one.
pub open spec fn digit_weight(unit: nat) -> bool {
    unit == 0 || unit == 1 || unit == 10 || unit == 100 || unit == 1_000 || unit == 10_000 || unit
        == 100_000 || unit == 1_000_000 || unit == 10_000_000 || unit == 100_000_000
}

fn push_fraction(out: &mut String, f: u64, unit: u64)
    requires
        digit_weight(unit as nat),
        f < 10 * unit || f == 0,
    ensures
        final(out)@ == old(out)@ + fraction_digits(f as nat, unit as nat),
    decreases unit,
{
    if f == 0 || unit == 0 {
        assert(out@ + Seq::<char>::empty() =~= out@);
        return;
    }
    let d: u64 = f / unit;
    let rest: u64 = f % unit;
    let ghost before = out@;
    assert(d < 10) by (nonlinear_arith)
        requires
            d == f / unit,
            f < 10 * unit,
            unit > 0,
    ;
    push_digit(out, d);
    push_fraction(out, rest, unit / 10);
    assert((before + seq![text::digit_char(d as nat)]) + fraction_digits(rest as nat, (unit / 10) as nat)
        =~= before + (seq![text::digit_char(d as nat)] + fraction_digits(
        rest as nat,
        (unit / 10) as nat,
    )));
}

fn magnitude(n: i64) -> (m: u64)
    ensures
        m == abs_int(n as int),
{
    if n < 0 {
        let k: i64 = -(n + 1);
        k as u64 + 1
    } else {
        n as u64
    }
}

impl Score {
    /// The value `nanos` billionths.
    pub fn from_nanos(nanos: i64) -> (s: Score)
        ensures
            s.nanos == nanos,
    {
        Score { nanos }
    }

    /// Zero.
    pub fn zero() -> (s: Score)
        ensures
            s.nanos == 0,
    {
        Score { nanos: 0 }
    }

    /// One.
    pub fn one() -> (s: Score)
        ensures
            s.nanos == SCALE,
    {
        Score { nanos: SCALE }
    }

    /// Whether the value lies in `[0, 1]`.
    pub open spec fn is_unit(&self) -> bool {
        0 <= self.nanos <= SCALE
    }

    /// The value restricted to `[0, 1]`.
    pub fn clamp_unit(self) -> (s: Score)
        ensures
            s.nanos == unit_clamp(self.nanos as int),
            s.is_unit(),
            self.is_unit() ==> s == self,
    {
        if self.nanos < 0 {
            Score { nanos: 0 }
        } else if self.nanos > SCALE {
            Score { nanos: SCALE }
        } else {
            self
        }
    }

    /// Shortest decimal notation.
    pub fn to_text(&self) -> (t: String)
        ensures
            t@ == score_digits(self.nanos as int),
    {
        let m: u64 = magnitude(self.nanos);
        let whole = decimal(m / 1_000_000_000);
        let rest: u64 = m % 1_000_000_000;
        let mut body = whole;
        if rest != 0 {
            body.append(".");
            push_fraction(&mut body, rest, 100_000_000);
        }
        if self.nanos < 0 {
            let mut t = String::from_str("-");
            t.append(body.as_str());
            t
        } else {
            body
        }
    }

    /// Notation with exactly two fractional digits.
    pub fn to_fixed2(&self) -> (t: String)
        ensures
            t@ == score_fixed2(self.nanos as int),
    {
        let m: u64 = magnitude(self.nanos);
        let q: u64 = m / 10_000_000;
        let r: u64 = m % 10_000_000;
        let h: u64 = if r > 5_000_000 || (r == 5_000_000 && q % 2 == 1) {
            q + 1
        } else {
            q
        };
        let mut body = decimal(h / 100);
        body.append(".");
        push_digit(&mut body, (h / 10) % 10);
        push_digit(&mut body, h % 10);
        if self.nanos < 0 {
            let mut t = String::from_str("-");
            t.append(body.as_str());
            t
        } else {
            body
        }
    }
}

/// `x` billionths restricted to `[0, 1]`.
pub fn unit_score(x: i128) -> (s: Score)
    ensures
        s.nanos == unit_clamp(x as int),
        s.is_unit(),
{
    if x < 0 {
        Score { nanos: 0 }
    } else if x > SCALE as i128 {
        Score { nanos: SCALE }
    } else {
        Score { nanos: x as i64 }
    }
}

/// The product of two scores in whole billionths, rounded down, and what is
/// left over in billionths of one.
pub fn product(a: Score, b: Score) -> (p: (i128, i128))
    ensures
        p.0 * SCALE + p.1 == a.nanos * b.nanos,
        0 <= p.1 < SCALE,
        -100_000_000_000_000_000_000_000_000_000 <= p.0 <= 100_000_000_000_000_000_000_000_000_000,
{
    proof {
        let x = a.nanos as int;
        let y = b.nanos as int;
        assert(-85_070_591_730_234_615_865_843_651_857_942_052_864 <= x * y
            <= 85_070_591_730_234_615_865_843_651_857_942_052_864) by (nonlinear_arith)
            requires
                -9_223_372_036_854_775_808 <= x <= 9_223_372_036_854_775_807,
                -9_223_372_036_854_775_808 <= y <= 9_223_372_036_854_775_807,
        ;
    }
    let whole: i128 = a.nanos as i128 * b.nanos as i128;
    let units: i128 = div_floor(whole, SCALE as i128);
    (units, whole - units * SCALE as i128)
}

/// Whole billionths pass through a division by one.
pub proof fn units_divide_out(units: int, rest: int)
    ensures
        (units * SCALE + rest) / SCALE as int == units + rest / SCALE as int,
{
}

/// One is a thousand million parts.
pub proof fn one_is_whole(s: Score)
    ensures
        SCALE == 1_000_000_000,
        s.is_unit() <==> 0 <= s.nanos <= 1_000_000_000,
{
}

/// What is brought into a range lies in it, and what lies in it stays.
pub proof fn clamping_stays_in_range(x: int, y: int, lo: int, hi: int)
    requires
        lo <= hi,
    ensures
        lo <= clamp_int(x, lo, hi) <= hi,
        lo <= x <= hi ==> clamp_int(x, lo, hi) == x,
        x <= y ==> clamp_int(x, lo, hi) <= clamp_int(y, lo, hi),
        0 <= unit_clamp(x) <= 1_000_000_000,
        0 <= x <= 1_000_000_000 ==> unit_clamp(x) == x,
        max_int(x, y) >= x && max_int(x, y) >= y && (max_int(x, y) == x || max_int(x, y) == y),
        min_int(x, y) <= x && min_int(x, y) <= y && (min_int(x, y) == x || min_int(x, y) == y),
        abs_int(x) >= 0 && (abs_int(x) == x || abs_int(x) == -x),
{
}

/// The hundredths shown are at most half a hundredth away, and at exactly half
/// the even ones.
pub proof fn hundredths_are_nearest(n: nat)
    ensures
        -10_000_000 <= 2 * (hundredths(n) * 10_000_000 - n) <= 10_000_000,
        2 * (hundredths(n) * 10_000_000 - n) == 10_000_000 || 2 * (hundredths(n) * 10_000_000 - n)
            == -10_000_000 ==> hundredths(n) % 2 == 0,
{
}

/// The two digits behind the point are those of the hundredths, a negative
/// score opens with a minus, and there is nothing else.
pub proof fn two_digits_are_shown(n: int)
    ensures
        ({
            let h = hundredths(abs_int(n) as nat);
            let t = score_fixed2(n);
            let last = t.len() - 1;
            &&& text::number_of(t.subrange(last - 1, last + 1)) == h % 100
            &&& t[last - 2] == '.'
            &&& n >= 0 ==> text::number_of(t.subrange(0, last - 2)) == h / 100
            &&& n < 0 ==> t[0] == '-' && text::number_of(t.subrange(1, last - 2)) == h / 100
        }),
{
    reveal_strlit(".");
    reveal_strlit("-");
    let h = hundredths(abs_int(n) as nat);
    let t = score_fixed2(n);
    let last = t.len() - 1;
    let a = text::digit_char((h / 10) % 10);
    let b = text::digit_char(h % 10);
    let two = t.subrange(last - 1, last + 1);
    reveal_with_fuel(text::number_of, 3);
    assert(two =~= seq![a, b]);
    assert(two.drop_last() =~= seq![a]);
    assert(two.drop_last().drop_last() =~= Seq::<char>::empty());
    let whole = text::decimal_digits(h / 100);
    text::decimal_reads_back(h / 100);
    if n < 0 {
        assert(t.subrange(1, last - 2) =~= whole);
    } else {
        assert(t.subrange(0, last - 2) =~= whole);
    }
    assert((h % 100) == ((h / 10) % 10) * 10 + h % 10);
}

/// The fraction of a score, written out, gives the nanos back: each digit counts
/// a tenth of the one before.
pub proof fn fractions_read_back(f: nat, unit: nat)
    requires
        digit_weight(unit),
        f < 10 * unit || f == 0,
    ensures
        fraction_value(fraction_digits(f, unit), unit) == f,
    decreases unit,
{
    if f != 0 && unit != 0 {
        fractions_read_back(f % unit, unit / 10);
        let t = fraction_digits(f, unit);
        assert(t.drop_first() =~= fraction_digits(f % unit, unit / 10));
        assert(f == (f / unit) * unit + f % unit) by (nonlinear_arith)
            requires
                unit > 0,
        ;
        assert(f / unit < 10) by (nonlinear_arith)
            requires
                unit > 0,
                f < 10 * unit,
        ;
        assert(f / unit >= 0);
    }
}

/// The value of decimal digits of which the first weighs `unit`.
pub open spec fn fraction_value(s: Seq<char>, unit: nat) -> int
    decreases s.len(),
{
    if s.len() == 0 {
        0
    } else {
        (s[0] as int - '0' as int) * unit + fraction_value(s.drop_first(), unit / 10)
    }
}

/// A written score holds the whole part, and behind a point, where there is one,
/// the fraction; a negative one opens with a minus.
pub proof fn scores_are_written(n: int)
    ensures
        ({
            let m = abs_int(n) as nat;
            let t = score_digits(n);
            let body = if n < 0 {
                t.drop_first()
            } else {
                t
            };
            let whole = text::decimal_digits(m / 1_000_000_000);
            &&& n < 0 ==> t[0] == '-'
            &&& text::number_of(whole) == m / 1_000_000_000
            &&& m % 1_000_000_000 == 0 ==> body == whole
            &&& m % 1_000_000_000 != 0 ==> body.take(whole.len() as int) == whole
                && body[whole.len() as int] == '.' && fraction_value(
                body.skip(whole.len() as int + 1),
                100_000_000,
            ) == m % 1_000_000_000
        }),
{
    reveal_strlit(".");
    reveal_strlit("-");
    let m = abs_int(n) as nat;
    let t = score_digits(n);
    let whole = text::decimal_digits(m / 1_000_000_000);
    text::decimal_reads_back(m / 1_000_000_000);
    let f = m % 1_000_000_000;
    fractions_read_back(f, 100_000_000);
    let frac = fraction_digits(f, 100_000_000);
    let inner = if f == 0 {
        whole
    } else {
        whole + "."@ + frac
    };
    if n < 0 {
        assert(t.drop_first() =~= inner);
    }
    if f != 0 {
        assert(inner.take(whole.len() as int) =~= whole);
        assert(inner.skip(whole.len() as int + 1) =~= frac);
    }
}

} // verus!
