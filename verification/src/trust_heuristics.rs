//! Cheaply observable signals that lower an agent's trust.

use vstd::prelude::*;

use crate::score;
use crate::score::Score;
use crate::score::SCALE;

verus! {

/// Observable signals that adjust an agent's trust score. The list is closed.
#[derive(Clone, Copy, Debug, PartialEq, Eq, Structural, Hash)]
pub enum HeuristicSignal {
    /// Action occurred outside the agent's established time-of-day pattern.
    TimeOfDayAnomaly,
    /// Action targets a path that the agent has never touched before.
    UnusualPath,
    /// Agent attempted to use a capability it has never used before.
    NovelCapability,
    /// Two or more HAL-gated actions from the same agent within half a second.
    RapidSequence,
    /// Action originates from a location inconsistent with the user's profile.
    GeographicAnomaly,
}

/// The change of trust for a signal, in billionths.
pub open spec fn delta_of(s: HeuristicSignal) -> int {
    match s {
        HeuristicSignal::TimeOfDayAnomaly => -100_000_000,
        HeuristicSignal::UnusualPath => -250_000_000,
        HeuristicSignal::NovelCapability => -500_000_000,
        HeuristicSignal::RapidSequence => -200_000_000,
        HeuristicSignal::GeographicAnomaly => -750_000_000,
    }
}

/// The sum of the changes for some signals, in billionths.
pub open spec fn delta_sum(signals: Seq<HeuristicSignal>) -> int
    decreases signals.len(),
{
    if signals.len() == 0 {
        0
    } else {
        delta_sum(signals.drop_last()) + delta_of(signals.last())
    }
}

/// Heuristic evaluation. It has no state.
#[derive(Clone, Copy, Debug, PartialEq, Eq, Structural)]
pub struct TrustHeuristics {}

impl Default for TrustHeuristics {
    fn default() -> (h: TrustHeuristics)
        ensures
            h == (TrustHeuristics {  }),
    {
        TrustHeuristics {  }
    }
}

impl TrustHeuristics {
    /// A heuristic evaluator.
    pub fn new() -> (h: TrustHeuristics)
        ensures
            h == (TrustHeuristics {  }),
    {
        TrustHeuristics::default()
    }

    /// The change of trust for a signal, whatever the baseline.
    pub fn evaluate(signal: HeuristicSignal, _baseline: Score) -> (s: Score)
        ensures
            s.nanos == delta_of(signal),
    {
        match signal {
            HeuristicSignal::TimeOfDayAnomaly => Score::from_nanos(-100_000_000),
            HeuristicSignal::UnusualPath => Score::from_nanos(-250_000_000),
            HeuristicSignal::NovelCapability => Score::from_nanos(-500_000_000),
            HeuristicSignal::RapidSequence => Score::from_nanos(-200_000_000),
            HeuristicSignal::GeographicAnomaly => Score::from_nanos(-750_000_000),
        }
    }

    /// The change of trust for some signals together: their sum, restricted to
    /// `[-1, 1]`.
    pub fn aggregate(signals: &[HeuristicSignal]) -> (s: Score)
        ensures
            s.nanos == score::clamp_int(delta_sum(signals@), -SCALE as int, SCALE as int),
    {
        let mut sum: i128 = 0;
        let mut i: usize = 0;
        while i < signals.len()
            invariant
                i <= signals@.len(),
                sum == delta_sum(signals@.take(i as int)),
                -750_000_000 * i <= sum <= 0,
            decreases signals@.len() - i,
        {
            assert(signals@.take(i + 1).drop_last() =~= signals@.take(i as int));
            sum = sum + TrustHeuristics::evaluate(signals[i], Score::zero()).nanos as i128;
            i += 1;
        }
        assert(signals@.take(signals@.len() as int) =~= signals@);
        if sum < -SCALE as i128 {
            Score::from_nanos(-SCALE)
        } else {
            Score::from_nanos(sum as i64)
        }
    }
}

/// When in doubt, trust goes down: signals together never raise it, and one
/// more never gives a smaller reduction.
pub proof fn signals_only_lower_trust(signals: Seq<HeuristicSignal>, one_more: HeuristicSignal)
    ensures
        delta_sum(signals) <= 0,
        delta_sum(signals.push(one_more)) < delta_sum(signals),
        score::clamp_int(delta_sum(signals.push(one_more)), -SCALE as int, SCALE as int)
            <= score::clamp_int(delta_sum(signals), -SCALE as int, SCALE as int),
    decreases signals.len(),
{
    assert(signals.push(one_more).drop_last() =~= signals);
    if signals.len() > 0 {
        signals_only_lower_trust(signals.drop_last(), signals.last());
        assert(signals.drop_last().push(signals.last()) =~= signals);
    }
}

/// What each signal costs, by its price.
pub proof fn signals_have_their_price(s: HeuristicSignal)
    ensures
        delta_of(s) == -100_000_000 <==> s == HeuristicSignal::TimeOfDayAnomaly,
        delta_of(s) == -200_000_000 <==> s == HeuristicSignal::RapidSequence,
        delta_of(s) == -250_000_000 <==> s == HeuristicSignal::UnusualPath,
        delta_of(s) == -500_000_000 <==> s == HeuristicSignal::NovelCapability,
        delta_of(s) == -750_000_000 <==> s == HeuristicSignal::GeographicAnomaly,
{
}

/// Signals add up, in whatever order they come.
pub proof fn signals_add_up(a: Seq<HeuristicSignal>, b: Seq<HeuristicSignal>)
    ensures
        delta_sum(a + b) == delta_sum(a) + delta_sum(b),
        delta_sum(a + b) == delta_sum(b + a),
{
    sums_join(a, b);
    sums_join(b, a);
}

proof fn sums_join(a: Seq<HeuristicSignal>, b: Seq<HeuristicSignal>)
    ensures
        delta_sum(a + b) == delta_sum(a) + delta_sum(b),
    decreases b.len(),
{
    if b.len() == 0 {
        assert(a + b =~= a);
    } else {
        sums_join(a, b.drop_last());
        assert((a + b).drop_last() =~= a + b.drop_last());
        assert((a + b).last() == b.last());
    }
}

} // verus!
