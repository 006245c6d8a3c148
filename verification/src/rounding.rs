//! The mean of equal values in arithmetic with 24 significant bits, that of
//! single precision: each partial sum is rounded, and so is the mean, which may
//! then lie beside the value.

use vstd::prelude::*;

verus! {

/// The first number that takes more than 24 bits.
pub const SIGNIFICANT: i128 = 16_777_216;

/// A value of which a billionth part has 24 bits before the point.
pub const FULL: i128 = 8_388_608_000_000_000;

/// The greatest number of values that are summed.
pub const SUMMED_LIMIT: i128 = 1_000_000;

/// The quotient of two numbers rounded to the nearest integer, and between two
/// to the even one.
pub open spec fn nearest(x: int, unit: int) -> int {
    let q = x / unit;
    let r = x % unit;
    if 2 * r > unit || (2 * r == unit && q % 2 == 1) {
        q + 1
    } else {
        q
    }
}

/// The weight of the last of the 24 leading bits of a number.
pub open spec fn last_bit(x: int) -> int
    decreases x,
{
    if x < SIGNIFICANT {
        1
    } else {
        2 * last_bit(x / 2)
    }
}

/// A number rounded to 24 significant bits.
pub open spec fn short(x: int) -> int {
    nearest(x, last_bit(x)) * last_bit(x)
}

/// The power of two by which a number of billionths is multiplied so that its
/// integer part takes 24 bits.
pub open spec fn scale_of(nanos: int) -> int
    decreases 2 * FULL - nanos,
{
    if nanos <= 0 || nanos >= FULL {
        1
    } else {
        2 * scale_of(2 * nanos)
    }
}

/// The 24 significant bits of a number of billionths.
pub open spec fn bits_of(nanos: int) -> int {
    nearest(nanos * scale_of(nanos), 1_000_000_000)
}

/// The sum of `count` equal numbers, rounded at each step.
pub open spec fn rounded_sum(x: int, count: nat) -> int
    decreases count,
{
    if count == 0 {
        0
    } else {
        short(rounded_sum(x, (count - 1) as nat) + x)
    }
}

/// Twice the rounded mean of `count` equal numbers of 24 bits, less twice the
/// number: how far the mean lies beside it, in halves of the last bit.
pub open spec fn mean_drift(x: int, count: nat) -> int {
    let sum = 2 * rounded_sum(x, count);
    let bit = last_bit(sum / count as int);
    nearest(sum, count * bit) * bit - 2 * x
}

/// The bounds of a rounded quotient.
proof fn nearest_bounds(x: int, unit: int)
    requires
        x >= 0,
        unit > 0,
    ensures
        0 <= nearest(x, unit),
        2 * (nearest(x, unit) * unit) <= 2 * x + unit,
{
    let q = x / unit;
    let r = x % unit;
    vstd::arithmetic::div_mod::lemma_fundamental_div_mod(x, unit);
    assert(q >= 0) by (nonlinear_arith)
        requires
            x == unit * q + r,
            0 <= r < unit,
            x >= 0,
    ;
    assert(q * unit == unit * q) by (nonlinear_arith);
    assert((q + 1) * unit == unit * q + unit) by (nonlinear_arith);
}

/// The bounds of the weight of a last bit.
proof fn last_bit_bounds(x: int)
    requires
        x >= 0,
    ensures
        last_bit(x) >= 1,
        x < SIGNIFICANT ==> last_bit(x) == 1,
        x >= SIGNIFICANT ==> 8_388_608 * last_bit(x) <= x,
    decreases x,
{
    if x >= SIGNIFICANT {
        last_bit_bounds(x / 2);
    }
}

/// How far rounding raises a number at most.
proof fn short_bounds(x: int)
    requires
        x >= 0,
    ensures
        0 <= short(x),
        16_777_216 * (short(x) - x) <= x,
{
    last_bit_bounds(x);
    let bit = last_bit(x);
    nearest_bounds(x, bit);
    assert(nearest(x, bit) * bit >= 0) by (nonlinear_arith)
        requires
            nearest(x, bit) >= 0,
            bit >= 1,
    ;
    if bit == 1 {
        assert(nearest(x, 1) == x);
    }
}

/// A rounded sum is at most twice the exact one.
proof fn rounded_sum_bounds(x: int, count: nat)
    requires
        x >= 0,
        count <= SUMMED_LIMIT,
    ensures
        0 <= rounded_sum(x, count) <= 2 * (count * x),
    decreases count,
{
    if count > 0 {
        let n = (count - 1) as nat;
        rounded_sum_bounds(x, n);
        let t = rounded_sum(x, n) + x;
        short_bounds(t);
        assert(t <= (2 * n + 1) * x) by (nonlinear_arith)
            requires
                t <= 2 * (n * x) + x,
        ;
        assert((2 * n + 1) * x <= 16_777_216 * x) by (nonlinear_arith)
            requires
                2 * n + 1 <= 16_777_216,
                x >= 0,
        ;
        assert((2 * n + 1) * x + x == 2 * ((n + 1) * x)) by (nonlinear_arith);
    } else {
        assert(0 * x == 0) by (nonlinear_arith);
    }
}

/// The bounds of a scale.
proof fn scale_bounds(nanos: int)
    requires
        0 <= nanos <= 2 * FULL,
    ensures
        1 <= scale_of(nanos),
        nanos > 0 ==> scale_of(nanos) <= nanos * scale_of(nanos) <= 2 * FULL,
        nanos == 0 ==> scale_of(nanos) == 1,
    decreases 2 * FULL - nanos,
{
    if 0 < nanos < FULL {
        scale_bounds(2 * nanos);
        let s = scale_of(2 * nanos);
        assert((2 * nanos) * s == nanos * (2 * s)) by (nonlinear_arith);
        assert(2 * s <= nanos * (2 * s)) by (nonlinear_arith)
            requires
                nanos >= 1,
                s >= 1,
        ;
    }
}

fn round_quotient(x: i128, unit: i128) -> (r: i128)
    requires
        0 <= x <= 1_000_000_000_000_000_000_000_000_000_000,
        0 < unit <= 1_000_000_000_000_000_000_000_000_000_000,
    ensures
        r == nearest(x as int, unit as int),
        r >= 0,
{
    proof {
        nearest_bounds(x as int, unit as int);
        assert(0 <= x as int / unit as int <= x) by (nonlinear_arith)
            requires
                x >= 0,
                unit >= 1,
        ;
    }
    let q: i128 = x / unit;
    let r: i128 = x % unit;
    if 2 * r > unit || (2 * r == unit && q % 2 == 1) {
        q + 1
    } else {
        q
    }
}

fn weigh_last_bit(x: i128) -> (r: i128)
    requires
        x >= 0,
    ensures
        r == last_bit(x as int),
    decreases x,
{
    proof {
        last_bit_bounds(x as int);
    }
    if x < SIGNIFICANT {
        1
    } else {
        2 * weigh_last_bit(x / 2)
    }
}

fn shorten(x: i128) -> (r: i128)
    requires
        0 <= x <= 1_000_000_000_000_000_000,
    ensures
        r == short(x as int),
{
    let bit: i128 = weigh_last_bit(x);
    proof {
        last_bit_bounds(x as int);
        short_bounds(x as int);
    }
    round_quotient(x, bit) * bit
}

/// The scale of a number of billionths.
pub fn find_scale(nanos: i128) -> (r: i128)
    requires
        0 <= nanos <= 2 * FULL,
    ensures
        r == scale_of(nanos as int),
        1 <= r <= 2 * FULL,
        0 <= nanos * r <= 2 * FULL,
    decreases 2 * FULL - nanos,
{
    proof {
        scale_bounds(nanos as int);
        assert(0 * scale_of(nanos as int) == 0) by (nonlinear_arith);
    }
    if nanos <= 0 || nanos >= FULL {
        1
    } else {
        2 * find_scale(2 * nanos)
    }
}

/// The drift of the mean of `count` values of a number of billionths.
pub fn find_drift(nanos: i128, scale: i128, count: i128) -> (r: i128)
    requires
        0 <= nanos <= 2 * FULL,
        scale == scale_of(nanos as int),
        0 <= nanos * scale <= 2 * FULL,
        0 < count <= SUMMED_LIMIT,
    ensures
        r == mean_drift(bits_of(nanos as int), count as nat),
        -1_000_000_000_000_000 <= r <= 1_000_000_000_000_000,
{
    let x: i128 = round_quotient(nanos * scale, 1_000_000_000);
    assert(0 <= x <= 20_000_000) by {
        nearest_bounds(nanos * scale, 1_000_000_000);
    }
    let mut sum: i128 = 0;
    let mut i: i128 = 0;
    while i < count
        invariant
            0 <= i <= count <= SUMMED_LIMIT,
            0 <= x <= 20_000_000,
            sum == rounded_sum(x as int, i as nat),
        decreases count - i,
    {
        proof {
            rounded_sum_bounds(x as int, i as nat);
            assert(i * x <= 1_000_000 * 20_000_000) by (nonlinear_arith)
                requires
                    0 <= i <= 1_000_000,
                    0 <= x <= 20_000_000,
            ;
        }
        sum = shorten(sum + x);
        i += 1;
    }
    proof {
        rounded_sum_bounds(x as int, count as nat);
        assert(count * x <= 1_000_000 * 20_000_000) by (nonlinear_arith)
            requires
                0 <= count <= 1_000_000,
                0 <= x <= 20_000_000,
        ;
    }
    let twice: i128 = 2 * sum;
    let mean: i128 = twice / count;
    assert(0 <= mean <= twice) by (nonlinear_arith)
        requires
            mean == twice as int / count as int,
            twice >= 0,
            count >= 1,
    ;
    let bit: i128 = weigh_last_bit(mean);
    proof {
        last_bit_bounds(mean as int);
        assert(0 < count * bit <= 1_000_000 * 1_000_000_000_000_000) by (nonlinear_arith)
            requires
                1 <= count <= 1_000_000,
                1 <= bit <= 1_000_000_000_000_000,
        ;
    }
    let q: i128 = round_quotient(twice, count * bit);
    proof {
        nearest_bounds(twice as int, count * bit);
        // q * bit exceeds twice the sum by no more than the weight of a bit.
        assert(0 <= q * bit <= twice + bit) by (nonlinear_arith)
            requires
                q >= 0,
                bit >= 1,
                count >= 1,
                2 * (q * (count * bit)) <= 2 * twice + count * bit,
                twice >= 0,
        {
            assert(q * (count * bit) == count * (q * bit)) by (nonlinear_arith);
            assert(count * (2 * (q * bit) - bit) <= 2 * twice) by (nonlinear_arith)
                requires
                    2 * (count * (q * bit)) <= 2 * twice + count * bit,
            ;
            if 2 * (q * bit) - bit > 0 {
                assert(2 * (q * bit) - bit <= count * (2 * (q * bit) - bit)) by (nonlinear_arith)
                    requires
                        2 * (q * bit) - bit > 0,
                        count >= 1,
                ;
            }
            assert(q * bit >= 0) by (nonlinear_arith)
                requires
                    q >= 0,
                    bit >= 1,
            ;
        }
    }
    q * bit - 2 * x
}

/// The nearest multiple is at most half a unit away, and at exactly half it is
/// the even one.
pub proof fn nearest_is_within_half(x: int, unit: int)
    requires
        0 <= x,
        0 < unit,
    ensures
        -unit <= 2 * (nearest(x, unit) * unit - x) <= unit,
        2 * (x % unit) == unit ==> nearest(x, unit) % 2 == 0,
{
    let q = x / unit;
    let r = x % unit;
    assert(x == q * unit + r && 0 <= r < unit) by (nonlinear_arith)
        requires
            unit > 0,
            q == x / unit,
            r == x % unit,
    ;
    assert((q + 1) * unit == q * unit + unit) by (nonlinear_arith);
}

/// The last bit of a number leaves it twenty-four of them.
pub proof fn numbers_have_twenty_four_bits(x: int)
    requires
        0 <= x,
    ensures
        last_bit(x) >= 1,
        x < 16_777_216 * last_bit(x),
        last_bit(x) > 1 ==> 8_388_608 * last_bit(x) <= x,
    decreases x,
{
    if x >= SIGNIFICANT {
        numbers_have_twenty_four_bits(x / 2);
    }
}

/// A scaled number of nanoseconds has twenty-four bits before the point.
pub proof fn scaled_numbers_are_full(nanos: int)
    requires
        0 < nanos < 8_388_608_000_000_000,
    ensures
        8_388_608_000_000_000 <= nanos * scale_of(nanos) < 16_777_216_000_000_000,
    decreases 8_388_608_000_000_000 - nanos,
{
    let s = scale_of(2 * nanos);
    assert(nanos * (2 * s) == (2 * nanos) * s) by (nonlinear_arith);
    if 2 * nanos < FULL {
        scaled_numbers_are_full(2 * nanos);
    } else {
        assert(s == 1);
    }
}

/// Sums that fit into twenty-four bits are exact, and so is the mean of equal
/// numbers among them.
pub proof fn small_sums_are_exact(x: int, count: nat)
    requires
        0 <= x,
        2 * (x * count) < 16_777_216,
        count > 0,
    ensures
        rounded_sum(x, count) == x * count,
        mean_drift(x, count) == 0,
{
    small_sums(x, count);
    let c = count as int;
    assert((2 * (x * c)) / c == 2 * x) by (nonlinear_arith)
        requires
            c > 0,
    ;
    assert(2 * (x * c) == (2 * x) * c) by (nonlinear_arith);
    vstd::arithmetic::div_mod::lemma_mod_multiples_basic(2 * x, c);
    assert(2 * x <= 2 * (x * c)) by (nonlinear_arith)
        requires
            c > 0,
            x >= 0,
    ;
    assert(last_bit(2 * x) == 1);
    assert(c * 1 == c);
}

proof fn small_sums(x: int, count: nat)
    requires
        0 <= x,
        x * count < 16_777_216,
    ensures
        rounded_sum(x, count) == x * count,
    decreases count,
{
    if count > 0 {
        let c = (count - 1) as int;
        assert(x * (c + 1) == x * c + x) by (nonlinear_arith);
        assert(0 <= x * c) by (nonlinear_arith)
            requires
                x >= 0,
                c >= 0,
        ;
        small_sums(x, (count - 1) as nat);
        let s = x * c + x;
        assert(last_bit(s) == 1);
        assert(nearest(s, 1) == s);
    } else {
        assert(x * 0 == 0) by (nonlinear_arith);
    }
}

} // verus!
