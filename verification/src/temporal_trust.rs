//! Trust that is earned by good behaviour and fades with disuse.
//!
//! The earned part of an agent's trust halves with every half-life. The factor
//! `2^(-elapsed / half_life)` itself is a real number that the caller computes
//! from [`TrustEntry::decay_ratio`] and hands in.

use vstd::prelude::*;

use crate::clock;
use crate::clock::Timestamp;
use crate::score;
use crate::score::div_floor;
use crate::score::unit_score;
use crate::score::Score;
use crate::score::SCALE;
use crate::table;
use crate::table::Table;

verus! {

/// An agent identifier.
pub type AgentId = String;

/// Default half-life for earned trust, in seconds: seven days.
pub const DEFAULT_HALF_LIFE_SECS: i64 = 604_800;

/// The trust of an agent of which nothing is known, in billionths.
pub const NEUTRAL_TRUST: i64 = 500_000_000;

/// Earned trust below this magnitude, in billionths, counts as none.
pub const FORGET_BELOW: i64 = 100_000;

/// Per-agent temporal trust state.
#[derive(Clone, Copy, Debug, PartialEq, Eq, Structural)]
pub struct TrustEntry {
    /// Baseline trust set at onboarding.
    pub baseline: Score,
    /// Accumulated earned-trust delta. May be negative.
    pub earned: Score,
    /// When the earned component was last reinforced.
    pub last_reinforced: Timestamp,
    /// Half-life of the earned component, in seconds.
    pub half_life_secs: i64,
}

/// A new entry with a baseline, at a time.
pub open spec fn fresh_entry(baseline: Score, now: Timestamp) -> TrustEntry {
    TrustEntry {
        baseline,
        earned: Score { nanos: 0 },
        last_reinforced: now,
        half_life_secs: DEFAULT_HALF_LIFE_SECS,
    }
}

/// The earned trust at a time, in billionths, where what is left of it is a
/// factor: all of it unless time has passed since it was reinforced.
pub open spec fn earned_at(e: TrustEntry, now: Timestamp, factor: Score) -> int {
    if clock::nanos_between(e.last_reinforced, now) <= 0 {
        e.earned.nanos as int
    } else {
        (e.earned.nanos * factor.nanos) / SCALE as int
    }
}

/// The trust at a time, in billionths.
pub open spec fn trust_of(e: TrustEntry, now: Timestamp, factor: Score) -> int {
    score::unit_clamp(e.baseline.nanos + earned_at(e, now, factor))
}

/// Earned trust under a factor in `[0, 1]` is no further from zero than before.
proof fn earned_fades(e: TrustEntry, now: Timestamp, factor: Score)
    requires
        factor.is_unit(),
    ensures
        e.earned.nanos >= 0 ==> 0 <= earned_at(e, now, factor) <= e.earned.nanos,
        e.earned.nanos <= 0 ==> e.earned.nanos <= earned_at(e, now, factor) <= 0,
{
    let x = e.earned.nanos as int;
    let f = factor.nanos as int;
    assert(x >= 0 ==> 0 <= x * f <= x * 1_000_000_000) by (nonlinear_arith)
        requires
            0 <= f <= 1_000_000_000,
    ;
    assert(x <= 0 ==> x * 1_000_000_000 <= x * f <= 0) by (nonlinear_arith)
        requires
            0 <= f <= 1_000_000_000,
    ;
}

impl TrustEntry {
    /// A new entry with a baseline and the default half-life, at a time.
    pub fn new(baseline: Score, now: Timestamp) -> (e: TrustEntry)
        ensures
            e == fresh_entry(baseline, now),
    {
        TrustEntry {
            baseline,
            earned: Score::zero(),
            last_reinforced: now,
            half_life_secs: DEFAULT_HALF_LIFE_SECS,
        }
    }

    /// Elapsed seconds and half-life, of which the decay factor is made; none
    /// where no time has passed, so that nothing fades.
    pub fn decay_ratio(&self, now: Timestamp) -> (r: Option<(i64, i64)>)
        ensures
            r is None <==> clock::nanos_between(self.last_reinforced, now) <= 0,
            r matches Some(p) ==> p.0 == clock::seconds_between(self.last_reinforced, now) && p.0
                >= 0 && p.1 == score::max_int(self.half_life_secs as int, 1),
    {
        if now.nanos <= self.last_reinforced.nanos {
            return None;
        }
        let elapsed: i64 = now.seconds_since(&self.last_reinforced);
        let half_life: i64 = if self.half_life_secs < 1 {
            1
        } else {
            self.half_life_secs
        };
        Some((elapsed, half_life))
    }

    /// The trust at a time, where a factor is left of what was earned.
    pub fn trust_at(&self, now: Timestamp, factor: Score) -> (s: Score)
        requires
            factor.is_unit(),
        ensures
            s.nanos == trust_of(*self, now, factor),
            s.is_unit(),
    {
        let earned = self.decayed_earned(now, factor);
        unit_score(self.baseline.nanos as i128 + earned.nanos as i128)
    }

    /// The earned trust at a time, where a factor is left of it.
    pub fn decayed_earned(&self, now: Timestamp, factor: Score) -> (s: Score)
        requires
            factor.is_unit(),
        ensures
            s.nanos == earned_at(*self, now, factor),
    {
        if now.nanos <= self.last_reinforced.nanos {
            return self.earned;
        }
        proof {
            let x = self.earned.nanos as int;
            let f = factor.nanos as int;
            assert(-9_223_372_036_854_775_808_000_000_000 <= x * f
                <= 9_223_372_036_854_775_808_000_000_000) by (nonlinear_arith)
                requires
                    -9_223_372_036_854_775_808 <= x <= 9_223_372_036_854_775_807,
                    0 <= f <= 1_000_000_000,
            ;
            earned_fades(*self, now, factor);
        }
        let q: i128 = div_floor(self.earned.nanos as i128 * factor.nanos as i128, SCALE as i128);
        Score::from_nanos(q as i64)
    }
}

impl Default for TrustEntry {
    fn default() -> (e: TrustEntry)
        ensures
            e == fresh_entry(Score { nanos: NEUTRAL_TRUST }, e.last_reinforced),
    {
        TrustEntry::new(Score::from_nanos(NEUTRAL_TRUST), Timestamp::now())
    }
}

/// The factor of an agent: one where none is given.
pub open spec fn factor_in(factors: Map<Seq<char>, Score>, agent: Seq<char>) -> Score {
    if factors.dom().contains(agent) {
        factors[agent]
    } else {
        Score { nanos: SCALE }
    }
}

/// Whether an entry can be forgotten at a time: its baseline is neutral and
/// next to nothing is left of what was earned.
pub open spec fn forgettable(e: TrustEntry, now: Timestamp, factor: Score) -> bool {
    score::abs_int(earned_at(e, now, factor)) < FORGET_BELOW && e.baseline.nanos == NEUTRAL_TRUST
}

/// Whether all factors lie in `[0, 1]`.
pub open spec fn factors_unit(factors: Map<Seq<char>, Score>) -> bool {
    forall|a: Seq<char>| #[trigger] factors.dom().contains(a) ==> factors[a].is_unit()
}

/// The per-agent temporal trust table.
#[derive(Debug)]
pub struct TemporalTrust {
    /// The entry by agent.
    pub entries: Table<AgentId, TrustEntry>,
}

impl TemporalTrust {
    /// The entry of an agent at a time: a neutral one where it is unknown.
    pub open spec fn state(&self, agent: Seq<char>, now: Timestamp) -> TrustEntry {
        if self.entries@.dom().contains(agent) {
            self.entries@[agent]
        } else {
            fresh_entry(Score { nanos: NEUTRAL_TRUST }, now)
        }
    }

    /// The trust of an agent at a time, in billionths: neutral where it is
    /// unknown.
    pub open spec fn trust_in(&self, agent: Seq<char>, now: Timestamp, factor: Score) -> int {
        if self.entries@.dom().contains(agent) {
            trust_of(self.entries@[agent], now, factor)
        } else {
            NEUTRAL_TRUST as int
        }
    }

    /// Whether an agent's entry stays in a decay pass.
    pub open spec fn survives(
        &self,
        agent: Seq<char>,
        now: Timestamp,
        factors: Map<Seq<char>, Score>,
    ) -> bool {
        self.entries@.dom().contains(agent) && !forgettable(
            self.entries@[agent],
            now,
            factor_in(factors, agent),
        )
    }

    /// An empty table.
    pub fn new() -> (t: TemporalTrust)
        ensures
            t.entries@ == Map::<Seq<char>, TrustEntry>::empty(),
    {
        TemporalTrust { entries: Table::new() }
    }

    fn entry_or_neutral(&self, agent: &AgentId, now: Timestamp) -> (e: TrustEntry)
        ensures
            e == self.state(agent@, now),
    {
        match self.entries.get(agent) {
            Some(e) => *e,
            None => TrustEntry::new(Score::from_nanos(NEUTRAL_TRUST), now),
        }
    }

    /// Elapsed seconds and half-life of an agent's entry; none where nothing
    /// fades.
    pub fn decay_ratio(&self, agent: &AgentId, now: Timestamp) -> (r: Option<(i64, i64)>)
        ensures
            r is Some <==> self.entries@.dom().contains(agent@) && clock::nanos_between(
                self.entries@[agent@].last_reinforced,
                now,
            ) > 0,
            r matches Some(p) ==> p.0 == clock::seconds_between(
                self.entries@[agent@].last_reinforced,
                now,
            ) && p.1 == score::max_int(self.entries@[agent@].half_life_secs as int, 1),
    {
        match self.entries.get(agent) {
            Some(e) => e.decay_ratio(now),
            None => None,
        }
    }

    /// The trust of an agent at a time, where a factor is left of what it
    /// earned; neutral where it is unknown.
    pub fn trust_at(&self, agent: &AgentId, now: Timestamp, factor: Score) -> (s: Score)
        requires
            factor.is_unit(),
        ensures
            s.nanos == self.trust_in(agent@, now, factor),
            s.is_unit(),
    {
        match self.entries.get(agent) {
            Some(e) => e.trust_at(now, factor),
            None => Score::from_nanos(NEUTRAL_TRUST),
        }
    }

    /// Reinforces an agent's trust at a time, on top of what a factor leaves of
    /// what it earned.
    pub fn reinforce(&mut self, agent: &AgentId, delta: Score, now: Timestamp, factor: Score)
        requires
            factor.is_unit(),
            i64::MIN <= earned_at(old(self).state(agent@, now), now, factor) + delta.nanos
                <= i64::MAX,
        ensures
            final(self).entries@ == old(self).entries@.insert(
                agent@,
                (TrustEntry {
                    earned: Score {
                        nanos: (earned_at(old(self).state(agent@, now), now, factor)
                            + delta.nanos) as i64,
                    },
                    last_reinforced: now,
                    ..old(self).state(agent@, now)
                }),
            ),
    {
        let mut e = self.entry_or_neutral(agent, now);
        let left = e.decayed_earned(now, factor);
        e.earned = Score::from_nanos(left.nanos + delta.nanos);
        e.last_reinforced = now;
        self.entries.insert(agent.clone(), e);
    }

    /// Forgets the agents that cannot be told from unknown ones at a time,
    /// given the factor of each; nothing else changes.
    pub fn decay_all(&mut self, now: Timestamp, factors: &Table<AgentId, Score>)
        requires
            factors_unit(factors@),
        ensures
            forall|a: Seq<char>| #[trigger]
                final(self).entries@.dom().contains(a) <==> old(self).survives(a, now, factors@),
            forall|a: Seq<char>| #[trigger]
                final(self).entries@.dom().contains(a) ==> final(self).entries@[a] == old(
                    self,
                ).entries@[a],
    {
        let mut left: Table<AgentId, TrustEntry> = Table::new();
        std::mem::swap(&mut self.entries, &mut left);
        let ghost before = left@;
        let ghost ids = left.ids();
        let n: usize = left.len();
        proof {
            table::order_lists_keys(left);
        }
        let mut kept: Table<AgentId, TrustEntry> = Table::new();
        let mut i: usize = 0;
        while i < n
            invariant
                n == ids.len(),
                i <= n,
                ids == left.ids(),
                before == left@,
                before == old(self).entries@,
                factors_unit(factors@),
                forall|a: Seq<char>| #[trigger]
                    kept@.dom().contains(a) ==> kept@[a] == before[a] && old(self).survives(
                        a,
                        now,
                        factors@,
                    ),
                forall|j: int|
                    0 <= j < i && old(self).survives(#[trigger] ids[j], now, factors@)
                        ==> kept@.dom().contains(ids[j]),
            decreases n - i,
        {
            let key = left.key_at(i);
            let e = *left.value_at(i);
            let factor = match factors.get(key) {
                Some(f) => *f,
                None => Score::one(),
            };
            assert(factor == factor_in(factors@, key@));
            let earned = e.decayed_earned(now, factor);
            let fades: bool = earned.nanos < FORGET_BELOW && earned.nanos > -FORGET_BELOW;
            if !(fades && e.baseline.nanos == NEUTRAL_TRUST) {
                kept.insert(key.clone(), e);
            }
            i += 1;
        }
        assert forall|a: Seq<char>| old(self).survives(a, now, factors@) implies #[trigger]
            kept@.dom().contains(a) by {
            assert(ids.to_set().contains(a));
            let j = choose|j: int| 0 <= j < ids.len() && ids[j] == a;
            assert(ids[j] == a);
        }
        self.entries = kept;
    }

    /// Sets the half-life of an agent at a time, in seconds; an unknown agent
    /// becomes known as a neutral one.
    pub fn set_half_life(&mut self, agent: &AgentId, half_life_secs: i64, now: Timestamp)
        ensures
            final(self).entries@ == old(self).entries@.insert(
                agent@,
                (TrustEntry { half_life_secs, ..old(self).state(agent@, now) }),
            ),
    {
        let mut e = self.entry_or_neutral(agent, now);
        e.half_life_secs = half_life_secs;
        self.entries.insert(agent.clone(), e);
    }

    /// Number of known agents.
    pub fn len(&self) -> (n: usize)
        ensures
            n == self.entries@.dom().len(),
    {
        self.entries.len()
    }

    /// Whether no agent is known.
    pub fn is_empty(&self) -> (r: bool)
        ensures
            r == (self.entries@.dom().len() == 0),
    {
        self.entries.len() == 0
    }
}

impl Default for TemporalTrust {
    fn default() -> (t: TemporalTrust)
        ensures
            t.entries@ == Map::<Seq<char>, TrustEntry>::empty(),
    {
        TemporalTrust::new()
    }
}

/// Errors returned by the temporal trust module.
#[derive(Clone, Copy, Debug, PartialEq, Eq, Structural)]
pub enum TemporalTrustError {
    /// Reinforcement delta would push the agent out of range.
    DeltaOutOfRange(Score),
}

/// After a half-life a half is left of what was earned, after two a quarter:
/// with the factor of a number of whole half-lives, the earned trust is divided
/// by that power of two.
pub proof fn half_lives_halve(e: TrustEntry, now: Timestamp, halvings: nat, power: int, factor: Score)
    requires
        clock::nanos_between(e.last_reinforced, now) > 0,
        power == vstd::arithmetic::power2::pow2(halvings),
        factor.nanos * power == SCALE,
    ensures
        earned_at(e, now, factor) == e.earned.nanos as int / power,
{
    vstd::arithmetic::power2::lemma_pow2_pos(halvings);
    let x = e.earned.nanos as int;
    let f = factor.nanos as int;
    let q = x / power;
    let r = x % power;
    vstd::arithmetic::div_mod::lemma_fundamental_div_mod(x, power);
    assert(x * f == 1_000_000_000 * q + r * f && 0 <= r * f < 1_000_000_000) by (nonlinear_arith)
        requires
            x == power * q + r,
            0 <= r < power,
            f * power == 1_000_000_000,
    ;
    vstd::arithmetic::div_mod::lemma_fundamental_div_mod_converse(
        x * f,
        1_000_000_000,
        q,
        r * f,
    );
}

/// Time alone moves earned trust toward zero, never past it, and less is left
/// under a smaller factor.
pub proof fn time_moves_trust_to_baseline(
    e: TrustEntry,
    now: Timestamp,
    later: Timestamp,
    factor: Score,
    smaller: Score,
)
    requires
        factor.is_unit(),
        smaller.is_unit(),
        smaller.nanos <= factor.nanos,
        clock::nanos_between(e.last_reinforced, now) > 0,
        clock::nanos_between(e.last_reinforced, later) > 0,
    ensures
        e.earned.nanos >= 0 ==> 0 <= earned_at(e, later, smaller) <= earned_at(e, now, factor)
            <= e.earned.nanos,
        e.earned.nanos <= 0 ==> e.earned.nanos <= earned_at(e, now, factor) <= earned_at(
            e,
            later,
            smaller,
        ) <= 0,
{
    earned_fades(e, now, factor);
    earned_fades(e, later, smaller);
    let x = e.earned.nanos as int;
    let f = factor.nanos as int;
    let g = smaller.nanos as int;
    if x >= 0 {
        assert(x * g <= x * f) by (nonlinear_arith)
            requires
                x >= 0,
                g <= f,
        ;
        vstd::arithmetic::div_mod::lemma_div_is_ordered(x * g, x * f, 1_000_000_000);
    } else {
        assert(x * f <= x * g) by (nonlinear_arith)
            requires
                x < 0,
                g <= f,
        ;
        vstd::arithmetic::div_mod::lemma_div_is_ordered(x * f, x * g, 1_000_000_000);
    }
}

/// Forgetting an agent changes its trust by less than a ten-thousandth: what is
/// forgotten cannot be told from an unknown agent.
pub proof fn forgetting_is_harmless(e: TrustEntry, now: Timestamp, factor: Score)
    requires
        forgettable(e, now, factor),
    ensures
        score::abs_int(trust_of(e, now, factor) - NEUTRAL_TRUST) < FORGET_BELOW,
{
}

/// Earned trust halves in a week by default, is neutral at one half, and is
/// forgotten below a ten-thousandth.
pub proof fn default_half_life(baseline: Score, now: Timestamp)
    ensures
        fresh_entry(baseline, now).half_life_secs == 7 * 24 * 60 * 60,
        fresh_entry(baseline, now).earned.nanos == 0,
        fresh_entry(baseline, now).baseline == baseline,
        fresh_entry(baseline, now).last_reinforced == now,
        NEUTRAL_TRUST * 2 == 1_000_000_000,
        FORGET_BELOW * 10_000 == 1_000_000_000,
{
}

/// Nothing decays before time has passed; then the earned part, and only that,
/// shrinks by the factor.
pub proof fn only_earned_trust_decays(e: TrustEntry, now: Timestamp, factor: Score)
    requires
        e.baseline.is_unit(),
    ensures
        e.earned.nanos == 0 ==> trust_of(e, now, factor) == e.baseline.nanos,
        now.nanos <= e.last_reinforced.nanos ==> earned_at(e, now, factor) == e.earned.nanos,
        now.nanos > e.last_reinforced.nanos && factor.nanos == 0 ==> trust_of(e, now, factor)
            == e.baseline.nanos,
        now.nanos > e.last_reinforced.nanos ==> e.earned.nanos * factor.nanos - 1_000_000_000
            < earned_at(e, now, factor) * 1_000_000_000 <= e.earned.nanos * factor.nanos,
{
    let a = e.earned.nanos as int;
    let f = factor.nanos as int;
    assert(a == 0 ==> a * f == 0) by (nonlinear_arith);
    assert(f == 0 ==> a * f == 0) by (nonlinear_arith);
}

/// An unknown agent has half of the trust. An entry is forgotten exactly where
/// its baseline is one half and less than a ten-thousandth is earned.
pub proof fn the_unknown_are_neutral(
    t: TemporalTrust,
    agent: Seq<char>,
    now: Timestamp,
    factor: Score,
    e: TrustEntry,
)
    ensures
        !t.entries@.dom().contains(agent) ==> t.trust_in(agent, now, factor) == 500_000_000,
        t.entries@.dom().contains(agent) ==> t.trust_in(agent, now, factor) == trust_of(
            t.entries@[agent],
            now,
            factor,
        ),
        forgettable(e, now, factor) <==> e.baseline.nanos == 500_000_000 && -100_000 < earned_at(
            e,
            now,
            factor,
        ) < 100_000,
{
}

/// An agent survives forgetting where it is known and not forgettable by its own
/// factor; one without a factor does not decay.
pub proof fn survivors_are_remembered(
    t: TemporalTrust,
    agent: Seq<char>,
    now: Timestamp,
    factors: Map<Seq<char>, Score>,
)
    ensures
        factors.dom().contains(agent) ==> factor_in(factors, agent) == factors[agent],
        !factors.dom().contains(agent) ==> factor_in(factors, agent).nanos == 1_000_000_000,
        t.survives(agent, now, factors) ==> t.entries@.dom().contains(agent),
        t.entries@.dom().contains(agent) && t.entries@[agent].baseline.nanos != 500_000_000
            ==> t.survives(agent, now, factors),
{
}

} // verus!
