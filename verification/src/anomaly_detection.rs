//! Per-agent anomaly tracking over recorded metrics.

use vstd::prelude::*;
use vstd::string::StringExecFns;

use crate::clock::Timestamp;
use crate::hal_types::BehavioralMetrics;
use crate::hal_types::RuntimeAnomaly;
use crate::rounding;
use crate::score;
use crate::score::div_floor;
use crate::score::unit_score;
use crate::score::Score;
use crate::score::SCALE;
use crate::table::Table;
use crate::window;
use crate::window::push_bounded;

verus! {

/// Number of metrics kept per agent.
pub const HISTORY_LIMIT: usize = 256;

/// Greatest magnitude of a metric, in billionths, for which the statistics
/// stay within 128-bit integers.
pub const METRIC_LIMIT: i64 = 10_000_000_000_000_000;

/// Whether a metric is within [`METRIC_LIMIT`].
pub open spec fn metric_ok(s: Score) -> bool {
    -METRIC_LIMIT <= s.nanos <= METRIC_LIMIT
}

/// The sum of metrics.
pub open spec fn total(h: Seq<Score>) -> int
    decreases h.len(),
{
    if h.len() == 0 {
        0
    } else {
        total(h.drop_last()) + h.last().nanos
    }
}

/// The sum of squared metrics.
pub open spec fn total_squared(h: Seq<Score>) -> int
    decreases h.len(),
{
    if h.len() == 0 {
        0
    } else {
        total_squared(h.drop_last()) + h.last().nanos * h.last().nanos
    }
}

/// The squared count times the variance of metrics.
pub open spec fn spread(h: Seq<Score>) -> int {
    h.len() * total_squared(h) - total(h) * total(h)
}

/// The count times the distance of a value from the mean of metrics.
pub open spec fn distance(h: Seq<Score>, current: Score) -> int {
    score::abs_int(h.len() * current.nanos - total(h))
}

/// Whether `r` billionths are a tenth of the z-score, rounded down, within
/// `[0, 1]`: the greatest such number whose square times the spread does not
/// exceed the square of `distance` in hundred-millionths.
pub open spec fn is_tenth_of_z(r: int, distance: int, spread: int) -> bool {
    let reach = 100_000_000 * distance;
    &&& 0 <= r <= SCALE
    &&& (r * r) * spread <= reach * reach
    &&& r < SCALE ==> ((r + 1) * (r + 1)) * spread > reach * reach
}

/// The anomaly score, in billionths, of a value behind equal metrics. Where
/// their mean in single precision is exactly the metric, nothing deviates and
/// nothing is anomalous. Where rounding moves the mean, the deviation of the
/// metrics is their distance from it, and the score is a tenth of the distance
/// of the value from the mean over that deviation, within `[0, 1]`.
pub open spec fn score_behind_equals(metric: int, count: nat, current: int) -> int {
    let size = score::abs_int(metric);
    let step = if metric < 0 {
        metric - current
    } else {
        current - metric
    };
    let drift = rounding::mean_drift(rounding::bits_of(size), count);
    if drift == 0 {
        0
    } else {
        score::unit_clamp(
            (100_000_000 * score::abs_int(
                2 * (rounding::scale_of(size) * step) - SCALE * drift,
            )) / (SCALE * score::abs_int(drift)),
        )
    }
}

/// Whether `r` billionths are the anomaly score of a value behind a history:
/// zero behind none, and else a tenth of its z-score.
pub open spec fn is_anomaly_score(r: int, h: Seq<Score>, current: Score) -> bool {
    if h.len() == 0 {
        r == 0
    } else if spread(h) == 0 {
        r == score_behind_equals(h[0].nanos as int, h.len(), current.nanos as int)
    } else {
        is_tenth_of_z(r, distance(h, current), spread(h))
    }
}

/// Whether `a * b <= c * d`, for factors whose products may exceed 128 bits.
pub fn product_le(a: u128, b: u128, c: u128, d: u128) -> (r: bool)
    ensures
        r == (a * b <= c * d),
    decreases c + b,
{
    if a == 0 || b == 0 {
        assert(a * b == 0) by (nonlinear_arith)
            requires
                a == 0 || b == 0,
        ;
        assert(c * d >= 0) by (nonlinear_arith);
        return true;
    }
    if c == 0 || d == 0 {
        assert(c * d == 0) by (nonlinear_arith)
            requires
                c == 0 || d == 0,
        ;
        assert(a * b > 0) by (nonlinear_arith)
            requires
                a > 0,
                b > 0,
        ;
        return false;
    }
    let q1: u128 = a / c;
    let r1: u128 = a % c;
    let q2: u128 = d / b;
    let r2: u128 = d % b;
    proof {
        vstd::arithmetic::div_mod::lemma_fundamental_div_mod(a as int, c as int);
        vstd::arithmetic::div_mod::lemma_fundamental_div_mod(d as int, b as int);
        fractions(a as int, b as int, c as int, d as int, q1 as int, r1 as int, q2 as int, r2 as int);
    }
    if q1 != q2 {
        return q1 < q2;
    }
    // r1 / c <= r2 / b  exactly when  r1 * b <= c * r2
    product_le_rest(r1, b, c, r2)
}

fn product_le_rest(r1: u128, b: u128, c: u128, r2: u128) -> (r: bool)
    requires
        r1 < c,
        r2 < b,
    ensures
        r == (r1 * b <= c * r2),
    decreases c + b,
{
    if r1 == 0 {
        assert(r1 * b == 0) by (nonlinear_arith)
            requires
                r1 == 0,
        ;
        assert(c * r2 >= 0) by (nonlinear_arith);
        return true;
    }
    if r2 == 0 {
        assert(c * r2 == 0) by (nonlinear_arith)
            requires
                r2 == 0,
        ;
        assert(r1 * b > 0) by (nonlinear_arith)
            requires
                r1 > 0,
                b > 0,
        ;
        return false;
    }
    // b * r1 <= c * r2, with smaller divisors
    let q1: u128 = b / r2;
    let s1: u128 = b % r2;
    let q2: u128 = c / r1;
    let s2: u128 = c % r1;
    proof {
        vstd::arithmetic::div_mod::lemma_fundamental_div_mod(b as int, r2 as int);
        vstd::arithmetic::div_mod::lemma_fundamental_div_mod(c as int, r1 as int);
        fractions(
            b as int,
            r1 as int,
            r2 as int,
            c as int,
            q1 as int,
            s1 as int,
            q2 as int,
            s2 as int,
        );
        assert(r1 * b == b * r1) by (nonlinear_arith);
        assert(c * r2 == r2 * c) by (nonlinear_arith);
    }
    if q1 != q2 {
        return q1 < q2;
    }
    product_le_rest(s1, r1, r2, s2)
}

/// With `a = c*q1 + r1` and `d = b*q2 + r2`: how `a*b` and `c*d` compare.
proof fn fractions(a: int, b: int, c: int, d: int, q1: int, r1: int, q2: int, r2: int)
    requires
        b > 0,
        c > 0,
        a == c * q1 + r1,
        d == b * q2 + r2,
        0 <= r1 < c,
        0 <= r2 < b,
    ensures
        q1 < q2 ==> a * b <= c * d,
        q1 > q2 ==> a * b > c * d,
        q1 == q2 ==> (a * b <= c * d <==> r1 * b <= c * r2),
{
    assert(a * b == (c * b) * q1 + r1 * b) by (nonlinear_arith)
        requires
            a == c * q1 + r1,
    ;
    assert(c * d == (c * b) * q2 + c * r2) by (nonlinear_arith)
        requires
            d == b * q2 + r2,
    ;
    assert(0 <= r1 * b < c * b) by (nonlinear_arith)
        requires
            0 <= r1 < c,
            b > 0,
    ;
    assert(0 <= c * r2 < c * b) by (nonlinear_arith)
        requires
            0 <= r2 < b,
            c > 0,
    ;
    if q1 < q2 {
        assert((c * b) * q2 >= (c * b) * q1 + c * b) by (nonlinear_arith)
            requires
                q2 >= q1 + 1,
                c * b > 0,
        ;
    }
    if q1 > q2 {
        assert((c * b) * q1 >= (c * b) * q2 + c * b) by (nonlinear_arith)
            requires
                q1 >= q2 + 1,
                c * b > 0,
        ;
    }
}

/// Bounds of the sums, and that the spread is not negative.
proof fn sums_bounded(h: Seq<Score>)
    requires
        forall|i: int| 0 <= i < h.len() ==> metric_ok(#[trigger] h[i]),
    ensures
        -(h.len() * METRIC_LIMIT) <= total(h) <= h.len() * METRIC_LIMIT,
        0 <= total_squared(h) <= h.len() * (METRIC_LIMIT * METRIC_LIMIT),
    decreases h.len(),
{
    if h.len() > 0 {
        let rest = h.drop_last();
        assert forall|i: int| 0 <= i < rest.len() implies metric_ok(#[trigger] rest[i]) by {
            assert(metric_ok(h[i]));
        }
        sums_bounded(rest);
        assert(metric_ok(h[h.len() - 1]));
        let x = h.last().nanos as int;
        assert(0 <= x * x <= METRIC_LIMIT * METRIC_LIMIT) by (nonlinear_arith)
            requires
                -METRIC_LIMIT <= x <= METRIC_LIMIT,
        ;
        let n = rest.len() as int;
        assert((n + 1) * METRIC_LIMIT == n * METRIC_LIMIT + METRIC_LIMIT) by (nonlinear_arith);
        assert((n + 1) * (METRIC_LIMIT * METRIC_LIMIT) == n * (METRIC_LIMIT * METRIC_LIMIT)
            + METRIC_LIMIT * METRIC_LIMIT) by (nonlinear_arith);
    }
}

/// The spread is a sum of squares, hence never negative.
pub proof fn spread_nonnegative(h: Seq<Score>)
    ensures
        spread(h) >= 0,
    decreases h.len(),
{
    if h.len() > 0 {
        let rest = h.drop_last();
        spread_nonnegative(rest);
        spread_step(rest, h.last().nanos as int);
        assert(h =~= rest.push(h.last()));
    }
}

/// Appending a value grows the spread by a sum of squared differences.
proof fn spread_step(rest: Seq<Score>, x: int)
    ensures
        (rest.len() + 1) * (total_squared(rest) + x * x) - (total(rest) + x) * (total(rest) + x)
            >= spread(rest),
{
    let n = rest.len() as int;
    let s = total(rest);
    let q = total_squared(rest);
    // The growth is q - 2xs + n x^2, the sum of the squares (h[i] - x)^2.
    squares_about(rest, x);
    assert((n + 1) * (q + x * x) - (s + x) * (s + x) == (n * q - s * s) + (q - 2 * (x * s) + n * (x
        * x))) by (nonlinear_arith);
}

/// The sum of squared differences from `x` is not negative.
proof fn squares_about(h: Seq<Score>, x: int)
    ensures
        total_squared(h) - 2 * (x * total(h)) + h.len() * (x * x) >= 0,
    decreases h.len(),
{
    if h.len() > 0 {
        let rest = h.drop_last();
        squares_about(rest, x);
        let y = h.last().nanos as int;
        let n = rest.len() as int;
        let s = total(rest);
        let q = total_squared(rest);
        assert((q + y * y) - 2 * (x * (s + y)) + (n + 1) * (x * x) == (q - 2 * (x * s) + n * (x
            * x)) + (y - x) * (y - x)) by (nonlinear_arith);
        assert((y - x) * (y - x) >= 0) by (nonlinear_arith);
    } else {
        assert(x * 0 == 0) by (nonlinear_arith);
        assert(0 * (x * x) == 0) by (nonlinear_arith);
    }
}

/// The greatest `r` up to one with `r * r * spread <= reach * reach`.
fn tenth_of_z(distance: u128, spread: u128) -> (r: i64)
    requires
        spread > 0,
        distance <= 10_000_000_000_000_000_000,
    ensures
        is_tenth_of_z(r as int, distance as int, spread as int),
{
    let reach: u128 = 100_000_000 * distance;
    let one: u128 = 1_000_000_000;
    if product_le(one * one, spread, reach, reach) {
        return SCALE;
    }
    let mut lo: u128 = 0;
    let mut hi: u128 = one;
    assert((0 * 0) * spread <= reach * reach) by (nonlinear_arith)
        requires
            reach >= 0,
            spread >= 0,
    ;
    while hi - lo > 1
        invariant
            lo < hi <= one,
            one == 1_000_000_000,
            (lo * lo) * spread <= reach * reach,
            (hi * hi) * spread > reach * reach,
        decreases hi - lo,
    {
        let mid: u128 = lo + (hi - lo) / 2;
        assert(0 <= mid * mid <= 1_000_000_000 * 1_000_000_000) by (nonlinear_arith)
            requires
                0 <= mid <= 1_000_000_000,
        ;
        if product_le(mid * mid, spread, reach, reach) {
            lo = mid;
        } else {
            hi = mid;
        }
    }
    assert(hi == lo + 1);
    lo as i64
}

/// The anomaly score of a value behind `count` equal metrics.
fn behind_equals(metric: Score, count: i128, current: Score) -> (s: Score)
    requires
        metric_ok(metric),
        metric_ok(current),
        0 < count <= HISTORY_LIMIT,
    ensures
        s.nanos == score_behind_equals(metric.nanos as int, count as nat, current.nanos as int),
        s.is_unit(),
{
    let value: i128 = metric.nanos as i128;
    let now: i128 = current.nanos as i128;
    let size: i128 = if value < 0 {
        -value
    } else {
        value
    };
    let step: i128 = if value < 0 {
        value - now
    } else {
        now - value
    };
    let scale: i128 = rounding::find_scale(size);
    let drift: i128 = rounding::find_drift(size, scale, count);
    if drift == 0 {
        return Score::zero();
    }
    assert(-20_000_000_000_000_000 * 16_777_216_000_000_000 <= scale * step
        <= 20_000_000_000_000_000 * 16_777_216_000_000_000) by (nonlinear_arith)
        requires
            1 <= scale <= 16_777_216_000_000_000,
            -20_000_000_000_000_000 <= step <= 20_000_000_000_000_000,
    ;
    assert(-1_000_000_000 * 1_000_000_000_000_000 <= SCALE * drift <= 1_000_000_000
        * 1_000_000_000_000_000) by (nonlinear_arith)
        requires
            SCALE == 1_000_000_000,
            -1_000_000_000_000_000 <= drift <= 1_000_000_000_000_000,
    ;
    let offset: i128 = 2 * (scale * step) - SCALE as i128 * drift;
    let reach: i128 = if offset < 0 {
        -offset
    } else {
        offset
    };
    let unit: i128 = SCALE as i128 * (if drift < 0 {
        -drift
    } else {
        drift
    });
    let ghost tenth = (100_000_000 * reach) / (unit as int);
    if reach >= 10 * unit {
        assert(tenth >= 1_000_000_000) by (nonlinear_arith)
            requires
                tenth == (100_000_000 * reach) / (unit as int),
                reach >= 10 * unit,
                unit > 0,
        ;
        return Score::one();
    }
    unit_score(div_floor(100_000_000 * reach, unit))
}

/// Tracks the metrics of agents.
#[derive(Debug)]
pub struct AnomalyDetector {
    history: Table<String, Vec<Score>>,
}

impl AnomalyDetector {
    spec fn usable(h: Seq<Score>) -> bool {
        h.len() <= HISTORY_LIMIT && forall|i: int| 0 <= i < h.len() ==> metric_ok(#[trigger] h[i])
    }

    #[verifier::type_invariant]
    spec fn inv(self) -> bool {
        forall|a: Seq<char>|
            self.history@.dom().contains(a) ==> AnomalyDetector::usable(
                (#[trigger] self.history@[a])@,
            )
    }

    /// The metrics of an agent, oldest first.
    pub closed spec fn metrics(&self, agent: Seq<char>) -> Seq<Score> {
        if self.history@.dom().contains(agent) {
            self.history@[agent]@
        } else {
            Seq::empty()
        }
    }

    /// A detector without metrics.
    pub fn new() -> (d: AnomalyDetector)
        ensures
            forall|a: Seq<char>| #[trigger] d.metrics(a) == Seq::<Score>::empty(),
    {
        AnomalyDetector { history: Table::new() }
    }

    /// Records a metric of an agent; the oldest beyond the limit is dropped.
    pub fn record_metric(&mut self, agent_id: &str, value: Score)
        requires
            metric_ok(value),
        ensures
            final(self).metrics(agent_id@) == window::pushed(
                old(self).metrics(agent_id@),
                value,
                HISTORY_LIMIT as nat,
            ),
            forall|a: Seq<char>|
                a != agent_id@ ==> #[trigger] final(self).metrics(a) == old(self).metrics(a),
    {
        let key = agent_id.to_owned();
        let ghost before = self.history@;
        proof {
            use_type_invariant(&*self);
        }
        let mut table: Table<String, Vec<Score>> = Table::new();
        std::mem::swap(&mut table, &mut self.history);
        let mut queue: Vec<Score> = match table.remove(&key) {
            Some(q) => q,
            None => Vec::new(),
        };
        let ghost old_queue = queue@;
        assert(old_queue =~= old(self).metrics(agent_id@));
        assert(AnomalyDetector::usable(old_queue)) by {
            if before.dom().contains(agent_id@) {
                assert(AnomalyDetector::usable(before[agent_id@]@));
            }
        }
        push_bounded(&mut queue, value, HISTORY_LIMIT);
        assert(AnomalyDetector::usable(queue@)) by {
            let all = old_queue.push(value);
            assert forall|i: int| 0 <= i < queue@.len() implies metric_ok(#[trigger] queue@[i]) by {
                let j = if old_queue.len() + 1 > HISTORY_LIMIT { i + 1 } else { i };
                assert(queue@[i] == all[j]);
                if j < old_queue.len() {
                    assert(metric_ok(old_queue[j]));
                }
            }
        }
        table.insert(key, queue);
        assert forall|a: Seq<char>| table@.dom().contains(a) implies AnomalyDetector::usable(
            (#[trigger] table@[a])@,
        ) by {
            if a != agent_id@ {
                assert(AnomalyDetector::usable(before[a]@));
            }
        }
        self.history = table;
    }

    /// How anomalous a value is behind an agent's metrics: a tenth of its
    /// z-score, within `[0, 1]`.
    pub fn anomaly_score(&self, agent_id: &str, current: Score) -> (s: Score)
        requires
            metric_ok(current),
        ensures
            is_anomaly_score(s.nanos as int, self.metrics(agent_id@), current),
            s.is_unit(),
    {
        proof {
            use_type_invariant(self);
        }
        let history = match self.history.get_text(agent_id) {
            Some(h) => h,
            None => {
                return Score::zero();
            },
        };
        let ghost h = history@;
        assert(AnomalyDetector::usable(h)) by {
            assert(self.history@.dom().contains(agent_id@));
            assert(AnomalyDetector::usable(self.history@[agent_id@]@));
        }
        if history.len() == 0 {
            return Score::zero();
        }
        let n: i128 = history.len() as i128;
        let mut sum: i128 = 0;
        let mut squares: i128 = 0;
        let mut i: usize = 0;
        while i < history.len()
            invariant
                h == history@,
                AnomalyDetector::usable(h),
                i <= h.len(),
                sum == total(h.take(i as int)),
                squares == total_squared(h.take(i as int)),
            decreases h.len() - i,
        {
            let x: i128 = history[i].nanos as i128;
            proof {
                let head = h.take(i as int);
                let next = h.take(i + 1);
                assert(next.drop_last() =~= head);
                assert(next.last() == h[i as int]);
                assert(metric_ok(h[i as int]));
                assert forall|k: int| 0 <= k < head.len() implies metric_ok(
                    #[trigger] head[k],
                ) by {
                    assert(metric_ok(h[k]));
                }
                sums_bounded(head);
                let xx = x as int;
                assert(0 <= xx * xx <= METRIC_LIMIT * METRIC_LIMIT) by (nonlinear_arith)
                    requires
                        -METRIC_LIMIT <= xx <= METRIC_LIMIT,
                ;
                let m = head.len() as int;
                assert(-(256 * METRIC_LIMIT) <= -(m * METRIC_LIMIT) && m * METRIC_LIMIT <= 256
                    * METRIC_LIMIT) by (nonlinear_arith)
                    requires
                        0 <= m <= 256,
                ;
                assert(m * (METRIC_LIMIT * METRIC_LIMIT) <= 256 * (METRIC_LIMIT * METRIC_LIMIT))
                    by (nonlinear_arith)
                    requires
                        0 <= m <= 256,
                ;
            }
            sum = sum + x;
            squares = squares + x * x;
            i += 1;
        }
        assert(h.take(h.len() as int) =~= h);
        proof {
            sums_bounded(h);
            spread_nonnegative(h);
            let m = n as int;
            let s = sum as int;
            let q = squares as int;
            let c = current.nanos as int;
            assert(-2_560_000_000_000_000_000 <= s <= 2_560_000_000_000_000_000) by (nonlinear_arith)
                requires
                    -(m * METRIC_LIMIT) <= s <= m * METRIC_LIMIT,
                    0 <= m <= 256,
                    METRIC_LIMIT == 10_000_000_000_000_000,
            ;
            assert(0 <= s * s <= 2_560_000_000_000_000_000 * 2_560_000_000_000_000_000)
                by (nonlinear_arith)
                requires
                    -2_560_000_000_000_000_000 <= s <= 2_560_000_000_000_000_000,
            ;
            assert(0 <= q <= 25_600_000_000_000_000_000_000_000_000_000_000) by (nonlinear_arith)
                requires
                    0 <= q <= m * (METRIC_LIMIT * METRIC_LIMIT),
                    0 <= m <= 256,
                    METRIC_LIMIT == 10_000_000_000_000_000,
            ;
            assert(0 <= m * q <= 256 * 25_600_000_000_000_000_000_000_000_000_000_000)
                by (nonlinear_arith)
                requires
                    0 <= q <= 25_600_000_000_000_000_000_000_000_000_000_000,
                    0 <= m <= 256,
            ;
            assert(-2_560_000_000_000_000_000 <= m * c <= 2_560_000_000_000_000_000)
                by (nonlinear_arith)
                requires
                    -10_000_000_000_000_000 <= c <= 10_000_000_000_000_000,
                    0 <= m <= 256,
            ;
        }
        let spread_value: i128 = n * squares - sum * sum;
        let offset: i128 = n * current.nanos as i128 - sum;
        let distance_value: i128 = if offset < 0 {
            -offset
        } else {
            offset
        };
        assert(spread_value == spread(h));
        assert(distance_value == distance(h, current));
        if spread_value == 0 {
            assert(metric_ok(h[0]));
            return behind_equals(history[0], n, current);
        }
        Score::from_nanos(tenth_of_z(distance_value as u128, spread_value as u128))
    }

    /// How far behaviour has moved from a baseline, within `[0, 1]`.
    pub fn behavioral_drift(&self, baseline: Score, current: Score) -> (s: Score)
        ensures
            s.nanos == score::unit_clamp(score::abs_int(current.nanos - baseline.nanos)),
    {
        let d: i128 = current.nanos as i128 - baseline.nanos as i128;
        unit_score(if d < 0 {
            -d
        } else {
            d
        })
    }

    /// Whether a value jumped.
    pub fn detect_spike(&self, previous: Score, current: Score) -> (r: bool)
        ensures
            r == (score::abs_int(current.nanos - previous.nanos) > 450_000_000),
    {
        let d: i128 = current.nanos as i128 - previous.nanos as i128;
        d > 450_000_000 || d < -450_000_000
    }

    /// How far an observed frequency is from the expected one, within `[0, 1]`.
    pub fn syscall_frequency_anomaly(&self, expected: u64, observed: u64) -> (s: Score)
        ensures
            s.nanos == (if expected == 0 {
                SCALE as int
            } else {
                score::unit_clamp((score::abs_int(observed - expected) * SCALE) / expected as int)
            }),
    {
        if expected == 0 {
            return Score::one();
        }
        let d: i128 = if observed >= expected {
            observed as i128 - expected as i128
        } else {
            expected as i128 - observed as i128
        };
        assert(0 <= d * SCALE <= 18_446_744_073_709_551_615_000_000_000) by (nonlinear_arith)
            requires
                0 <= d <= 18_446_744_073_709_551_615,
                SCALE == 1_000_000_000,
        ;
        let q: i128 = div_floor(d * SCALE as i128, expected as i128);
        unit_score(q)
    }

    /// How far the use of capabilities exceeds seven tenths of what was
    /// granted; more than was granted is abuse in full.
    pub fn capability_abuse_score(&self, granted: usize, used: usize) -> (s: Score)
        ensures
            s.nanos == (if granted == 0 || used > granted {
                SCALE as int
            } else {
                score::unit_clamp((used * SCALE) / granted as int - 700_000_000)
            }),
    {
        if granted == 0 || used > granted {
            return Score::one();
        }
        assert(0 <= used * SCALE <= 18_446_744_073_709_551_615_000_000_000) by (nonlinear_arith)
            requires
                0 <= used <= 18_446_744_073_709_551_615,
                SCALE == 1_000_000_000,
        ;
        let q: i128 = div_floor(used as i128 * SCALE as i128, granted as i128);
        unit_score(q - 700_000_000)
    }

    /// How grave a number of failures is, within `[0, 1]`.
    pub fn repeated_failures(&self, failures: u32) -> (s: Score)
        ensures
            s.nanos == score::unit_clamp(failures * 100_000_000),
    {
        unit_score(failures as i128 * 100_000_000)
    }

    /// Whether an agent holds more capabilities than before.
    pub fn detect_privilege_drift(&self, baseline_caps: &[String], current_caps: &[String]) -> (r:
        bool)
        ensures
            r == (current_caps@.len() > baseline_caps@.len()),
    {
        current_caps.len() > baseline_caps.len()
    }

    /// An anomaly seen at a given time.
    pub fn generate_anomaly_at(
        &self,
        anomaly_type: &str,
        severity: Score,
        description: &str,
        now: Timestamp,
    ) -> (a: RuntimeAnomaly)
        ensures
            a.anomaly_type@ == anomaly_type@,
            a.severity == severity,
            a.description@ == description@,
            a.detected_at == now.nanos as int / 1_000_000,
    {
        RuntimeAnomaly {
            anomaly_type: String::from_str(anomaly_type),
            severity,
            description: String::from_str(description),
            detected_at: now.millis(),
        }
    }

    /// An anomaly seen now.
    pub fn generate_anomaly(&self, anomaly_type: &str, severity: Score, description: &str) -> (a:
        RuntimeAnomaly)
        ensures
            a.anomaly_type@ == anomaly_type@,
            a.severity == severity,
            a.description@ == description@,
    {
        self.generate_anomaly_at(anomaly_type, severity, description, Timestamp::now())
    }

    /// Behavioral metrics from their parts.
    pub fn aggregate_behavioral_metrics(
        &self,
        anomaly_score: Score,
        volatility_score: Score,
        escalation_attempts: u32,
        historical_stability: Score,
        recent_failures: u32,
    ) -> (m: BehavioralMetrics)
        ensures
            m == (BehavioralMetrics {
                anomaly_score,
                volatility_score,
                escalation_attempts,
                historical_stability,
                recent_failures,
            }),
    {
        BehavioralMetrics {
            anomaly_score,
            volatility_score,
            escalation_attempts,
            historical_stability,
            recent_failures,
        }
    }

    /// How likely an agent is compromised, within `[0, 1]`.
    pub fn compromise_probability(
        &self,
        anomaly_score: Score,
        escalation_attempts: u32,
        volatility: Score,
    ) -> (s: Score)
        ensures
            s.nanos == score::unit_clamp(
                (anomaly_score.nanos * 50 + escalation_attempts * 3_000_000_000 + volatility.nanos
                    * 20) / 100,
            ),
            s.nanos == compromise_of(
                anomaly_score.nanos as int,
                escalation_attempts as int,
                volatility.nanos as int,
            ),
    {
        let sum: i128 = anomaly_score.nanos as i128 * 50 + escalation_attempts as i128
            * 3_000_000_000 + volatility.nanos as i128 * 20;
        unit_score(div_floor(sum, 100))
    }

    /// Whether an agent is to be isolated.
    pub fn isolate_threshold(compromise_probability: Score) -> (r: bool)
        ensures
            r == (compromise_probability.nanos > 800_000_000),
            r == isolates(compromise_probability.nanos as int),
    {
        compromise_probability.nanos > 800_000_000
    }
}

/// The definition of an anomaly score leaves exactly one value.
pub proof fn anomaly_score_is_unique(r1: int, r2: int, h: Seq<Score>, current: Score)
    requires
        is_anomaly_score(r1, h, current),
        is_anomaly_score(r2, h, current),
    ensures
        r1 == r2,
{
    if h.len() > 0 && spread(h) != 0 {
        spread_nonnegative(h);
        let d = spread(h);
        let reach = 100_000_000 * distance(h, current);
        if r1 < r2 {
            assert(((r1 + 1) * (r1 + 1)) * d <= (r2 * r2) * d) by (nonlinear_arith)
                requires
                    0 <= r1 + 1 <= r2,
                    d > 0,
            ;
        }
        if r2 < r1 {
            assert(((r2 + 1) * (r2 + 1)) * d <= (r1 * r1) * d) by (nonlinear_arith)
                requires
                    0 <= r2 + 1 <= r1,
                    d > 0,
            ;
        }
    }
}

/// A value at the mean of its history is not anomalous, where the metrics
/// differ or rounding leaves the mean of equal ones in place.
pub proof fn mean_is_not_anomalous(r: int, h: Seq<Score>, current: Score)
    requires
        distance(h, current) == 0,
        h.len() > 0 && spread(h) == 0 ==> rounding::mean_drift(
            rounding::bits_of(score::abs_int(h[0].nanos as int)),
            h.len(),
        ) == 0,
        is_anomaly_score(r, h, current),
    ensures
        r == 0,
{
    if h.len() > 0 && spread(h) != 0 {
        spread_nonnegative(h);
        let d = spread(h);
        let reach = 100_000_000 * distance(h, current);
        assert(reach * reach == 0) by (nonlinear_arith)
            requires
                reach == 0,
        ;
        if r > 0 {
            assert((r * r) * d > 0) by (nonlinear_arith)
                requires
                    r > 0,
                    d > 0,
            ;
        }
    }
}

/// A value ten standard deviations away is wholly anomalous, and a nearer one is
/// not: the score is a tenth of the number of deviations.
pub proof fn ten_deviations_are_wholly_anomalous(r: int, h: Seq<Score>, current: Score)
    requires
        is_anomaly_score(r, h, current),
        h.len() > 0,
        spread(h) > 0,
    ensures
        r == 1_000_000_000 <==> distance(h, current) * distance(h, current) >= 100 * spread(h),
        0 <= r <= 1_000_000_000,
{
    let d = distance(h, current);
    let s = spread(h);
    let reach = 100_000_000 * d;
    assert(reach * reach == 10_000_000_000_000_000 * (d * d)) by (nonlinear_arith)
        requires
            reach == 100_000_000 * d,
    ;
    if r == 1_000_000_000 {
        assert((r * r) * s == 1_000_000_000_000_000_000 * s) by (nonlinear_arith)
            requires
                r == 1_000_000_000,
        ;
    } else {
        let q = r + 1;
        assert((q * q) * s <= 1_000_000_000_000_000_000 * s) by (nonlinear_arith)
            requires
                0 < q <= 1_000_000_000,
                s > 0,
        ;
    }
}

/// Two hundred and fifty-six values are kept, and ten million is the largest.
pub proof fn history_limits(s: Score)
    ensures
        HISTORY_LIMIT == 256,
        metric_ok(s) <==> -10_000_000 * 1_000_000_000 <= s.nanos <= 10_000_000 * 1_000_000_000,
{
}

/// One more value adds itself to the total and its square to the other.
pub proof fn totals_add_up(h: Seq<Score>, s: Score)
    ensures
        total(Seq::empty()) == 0,
        total_squared(Seq::empty()) == 0,
        total(h.push(s)) == total(h) + s.nanos,
        total_squared(h.push(s)) == total_squared(h) + s.nanos * s.nanos,
{
    assert(h.push(s).drop_last() =~= h);
}

/// Equal values do not spread, and their mean is the value.
pub proof fn equal_values_do_not_spread(h: Seq<Score>, value: Score)
    requires
        forall|i: int| 0 <= i < h.len() ==> #[trigger] h[i] == value,
    ensures
        spread(h) == 0,
        distance(h, value) == 0,
{
    equal_totals(h, value);
    let n = h.len() as int;
    let v = value.nanos as int;
    assert(n * (n * (v * v)) - (n * v) * (n * v) == 0) by (nonlinear_arith);
}

proof fn equal_totals(h: Seq<Score>, value: Score)
    requires
        forall|i: int| 0 <= i < h.len() ==> #[trigger] h[i] == value,
    ensures
        total(h) == h.len() * value.nanos,
        total_squared(h) == h.len() * (value.nanos * value.nanos),
    decreases h.len(),
{
    if h.len() > 0 {
        let d = h.drop_last();
        assert forall|i: int| 0 <= i < d.len() implies #[trigger] d[i] == value by {
            assert(h[i] == value);
        }
        equal_totals(d, value);
        assert(h[h.len() - 1] == value);
        let n = d.len() as int;
        let v = value.nanos as int;
        assert((n + 1) * v == n * v + v) by (nonlinear_arith);
        assert((n + 1) * (v * v) == n * (v * v) + v * v) by (nonlinear_arith);
    } else {
        assert(0 * (value.nanos * value.nanos) == 0) by (nonlinear_arith);
    }
}

/// Behind equal values a score lies within `[0, 1]`, does not change when every
/// sign does, and is nothing where their mean is exact.
pub proof fn equal_values_score_alike(metric: int, count: nat, current: int)
    ensures
        0 <= score_behind_equals(metric, count, current) <= 1_000_000_000,
        metric != 0 ==> score_behind_equals(-metric, count, -current) == score_behind_equals(
            metric,
            count,
            current,
        ),
        rounding::mean_drift(rounding::bits_of(score::abs_int(metric)), count) == 0
            ==> score_behind_equals(metric, count, current) == 0,
{
}

/// How likely an agent is compromised: half by its anomaly, 0.03 for each
/// escalation, and a fifth by its volatility.
pub open spec fn compromise_of(anomaly: int, escalations: int, volatility: int) -> int {
    score::unit_clamp((anomaly * 50 + escalations * 3_000_000_000 + volatility * 20) / 100)
}

/// Whether a likelihood calls for isolation.
pub open spec fn isolates(likelihood: int) -> bool {
    likelihood > 800_000_000
}

/// Every escalation adds three hundredths, up to one; a calm agent without any
/// is not suspected. More anomaly, more escalations or more volatility never
/// make it less likely, and from twenty-seven escalations on an agent is
/// isolated.
pub proof fn escalations_raise_suspicion(anomaly: int, escalations: int, volatility: int, more: int)
    requires
        0 <= anomaly,
        0 <= escalations,
        0 <= volatility,
        0 <= more,
    ensures
        compromise_of(0, 0, 0) == 0,
        compromise_of(0, escalations, 0) == score::min_int(escalations * 30_000_000, 1_000_000_000),
        compromise_of(anomaly, 0, 0) == score::min_int(anomaly / 2, 1_000_000_000),
        compromise_of(0, 0, volatility) == score::min_int(volatility / 5, 1_000_000_000),
        compromise_of(anomaly, escalations, volatility) <= compromise_of(
            anomaly + more,
            escalations,
            volatility,
        ),
        compromise_of(anomaly, escalations, volatility) <= compromise_of(
            anomaly,
            escalations + more,
            volatility,
        ),
        compromise_of(anomaly, escalations, volatility) <= compromise_of(
            anomaly,
            escalations,
            volatility + more,
        ),
        escalations >= 27 ==> isolates(compromise_of(anomaly, escalations, volatility)),
        !isolates(compromise_of(0, 26, 0)),
        isolates(anomaly) <==> 5 * anomaly > 4 * 1_000_000_000,
{
}

} // verus!
