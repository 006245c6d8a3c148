//! Long-term per-agent reputation: a slow signal in `[0, 1]` that decays toward
//! neutral.

use vstd::prelude::*;
use vstd::string::StringExecFns;

use crate::clock;
use crate::clock::Timestamp;
use crate::score;
use crate::score::div_floor;
use crate::score::unit_score;
use crate::score::Score;
use crate::table;
use crate::table::Table;

verus! {

/// An agent identifier.
pub type AgentId = String;

/// The neutral reputation, in billionths.
pub const NEUTRAL: i64 = 500_000_000;

/// Seconds after which a reputation is neutral again: decay is a twentieth of
/// the distance per hour.
pub const FULL_DECAY_SECS: i64 = 72_000;

/// The outcome of a HAL-gated action, as observed by the reputation engine.
#[derive(Clone, Copy, Debug, PartialEq, Eq, Structural)]
pub enum ActionOutcome {
    /// The HAL approved the action and it completed without incident.
    Approved,
    /// The HAL rejected the action.
    Rejected,
    /// The HAL auto-executed (Silent level) and it succeeded.
    AutoSucceeded,
    /// The HAL auto-executed (Silent level) and it failed.
    AutoFailed,
    /// The user explicitly overrode the HAL's decision (either direction).
    UserOverrode,
}

/// The change of reputation for an outcome, in billionths.
pub open spec fn delta_of(o: ActionOutcome) -> int {
    match o {
        ActionOutcome::Approved => 20_000_000,
        ActionOutcome::Rejected => -50_000_000,
        ActionOutcome::AutoSucceeded => 10_000_000,
        ActionOutcome::AutoFailed => -100_000_000,
        ActionOutcome::UserOverrode => -150_000_000,
    }
}

/// Whether an outcome is an escalation.
pub open spec fn escalates(o: ActionOutcome) -> bool {
    o == ActionOutcome::AutoFailed || o == ActionOutcome::UserOverrode
}

impl ActionOutcome {
    /// The change of reputation for this outcome; a gain is positive.
    pub fn delta(&self) -> (s: Score)
        ensures
            s.nanos == delta_of(*self),
    {
        match self {
            ActionOutcome::Approved => Score::from_nanos(20_000_000),
            ActionOutcome::Rejected => Score::from_nanos(-50_000_000),
            ActionOutcome::AutoSucceeded => Score::from_nanos(10_000_000),
            ActionOutcome::AutoFailed => Score::from_nanos(-100_000_000),
            ActionOutcome::UserOverrode => Score::from_nanos(-150_000_000),
        }
    }

    /// Whether this outcome counts as an escalation.
    pub fn is_escalation(&self) -> (r: bool)
        ensures
            r == escalates(*self),
    {
        match self {
            ActionOutcome::AutoFailed => true,
            ActionOutcome::UserOverrode => true,
            _ => false,
        }
    }
}

/// Per-agent reputation record.
#[derive(Clone, Copy, Debug, PartialEq, Eq, Structural)]
pub struct Reputation {
    /// Current reputation score in `[0, 1]`; a half is neutral.
    pub score: Score,
    /// Total number of decisions observed for this agent.
    pub decisions_observed: u64,
    /// Total number of escalations.
    pub escalations: u64,
    /// Last time this record was updated.
    pub last_updated: Timestamp,
}

/// The record of an agent without history, at a time.
pub open spec fn fresh_reputation(now: Timestamp) -> Reputation {
    Reputation {
        score: Score { nanos: NEUTRAL },
        decisions_observed: 0,
        escalations: 0,
        last_updated: now,
    }
}

/// Whether the counters of a record that an outcome concerns can count one more.
pub open spec fn can_count(r: Reputation, o: ActionOutcome) -> bool {
    r.decisions_observed < u64::MAX && (escalates(o) ==> r.escalations < u64::MAX)
}

/// The record after an outcome at a time.
pub open spec fn with_outcome(r: Reputation, o: ActionOutcome, now: Timestamp) -> Reputation {
    Reputation {
        score: Score { nanos: score::unit_clamp(r.score.nanos + delta_of(o)) as i64 },
        decisions_observed: (r.decisions_observed + 1) as u64,
        escalations: (r.escalations + (if escalates(o) {
            1int
        } else {
            0int
        })) as u64,
        last_updated: now,
    }
}

/// A score moved toward neutral by its share of elapsed seconds.
pub open spec fn moved_to_neutral(nanos: int, secs: int) -> int {
    nanos + ((NEUTRAL - nanos) * score::min_int(secs, FULL_DECAY_SECS as int))
        / FULL_DECAY_SECS as int
}

/// The record after decay at a time: unchanged where no whole second passed.
pub open spec fn decayed(r: Reputation, now: Timestamp) -> Reputation {
    let secs = clock::seconds_between(r.last_updated, now);
    if secs <= 0 {
        r
    } else {
        Reputation {
            score: Score { nanos: moved_to_neutral(r.score.nanos as int, secs) as i64 },
            last_updated: now,
            ..r
        }
    }
}

/// Moving toward neutral stays between the score and neutral.
pub proof fn decay_moves_toward_neutral(nanos: int, secs: int)
    requires
        secs > 0,
    ensures
        nanos <= NEUTRAL ==> nanos <= moved_to_neutral(nanos, secs) <= NEUTRAL,
        nanos >= NEUTRAL ==> NEUTRAL <= moved_to_neutral(nanos, secs) <= nanos,
        secs >= FULL_DECAY_SECS ==> moved_to_neutral(nanos, secs) == NEUTRAL,
{
    let d = NEUTRAL - nanos;
    let m = score::min_int(secs, FULL_DECAY_SECS as int);
    let q = (d * m) / 72_000;
    assert(d >= 0 ==> 0 <= d * m <= d * 72_000) by (nonlinear_arith)
        requires
            0 < m <= 72_000,
    ;
    assert(d <= 0 ==> d * 72_000 <= d * m <= 0) by (nonlinear_arith)
        requires
            0 < m <= 72_000,
    ;
}

impl Reputation {
    /// The record of an agent without history, at a time.
    pub fn at(now: Timestamp) -> (r: Reputation)
        ensures
            r == fresh_reputation(now),
    {
        Reputation {
            score: Score::from_nanos(NEUTRAL),
            decisions_observed: 0,
            escalations: 0,
            last_updated: now,
        }
    }

    /// Applies an outcome at a time.
    pub fn apply_at(&mut self, outcome: ActionOutcome, now: Timestamp)
        requires
            can_count(*old(self), outcome),
        ensures
            *final(self) == with_outcome(*old(self), outcome, now),
            final(self).score.is_unit(),
    {
        self.score = unit_score(self.score.nanos as i128 + outcome.delta().nanos as i128);
        self.decisions_observed = self.decisions_observed + 1;
        if outcome.is_escalation() {
            self.escalations = self.escalations + 1;
        }
        self.last_updated = now;
    }

    /// Applies an outcome now.
    pub fn apply(&mut self, outcome: ActionOutcome)
        requires
            can_count(*old(self), outcome),
        ensures
            *final(self) == with_outcome(*old(self), outcome, final(self).last_updated),
            final(self).score.is_unit(),
    {
        self.apply_at(outcome, Timestamp::now());
    }

    /// Moves the score toward neutral: a twentieth of the distance per hour
    /// since the last update.
    pub fn decay(&mut self, now: Timestamp)
        ensures
            *final(self) == decayed(*old(self), now),
    {
        let secs: i64 = now.seconds_since(&self.last_updated);
        if secs <= 0 {
            return;
        }
        let share: i64 = if secs <= FULL_DECAY_SECS {
            secs
        } else {
            FULL_DECAY_SECS
        };
        let distance: i128 = NEUTRAL as i128 - self.score.nanos as i128;
        proof {
            let d = distance as int;
            let m = share as int;
            assert(-1_000_000_000_000_000_000_000_000 <= d * m
                <= 1_000_000_000_000_000_000_000_000) by (nonlinear_arith)
                requires
                    -10_000_000_000_000_000_000 <= d <= 10_000_000_000_000_000_000,
                    0 < m <= 72_000,
            ;
            decay_moves_toward_neutral(self.score.nanos as int, secs as int);
        }
        let moved: i128 = self.score.nanos as i128 + div_floor(
            distance * share as i128,
            FULL_DECAY_SECS as i128,
        );
        self.score = Score::from_nanos(moved as i64);
        self.last_updated = now;
    }
}

impl Default for Reputation {
    fn default() -> (r: Reputation)
        ensures
            r == fresh_reputation(r.last_updated),
    {
        Reputation::at(Timestamp::now())
    }
}

/// Errors returned by the reputation engine.
#[derive(Clone, Debug)]
pub enum ReputationError {
    /// The agent was not found in the reputation table.
    UnknownAgent(AgentId),
}

impl ReputationError {
    /// The error as one line.
    pub fn to_text(&self) -> (t: String)
        ensures
            t@ == (match *self {
                ReputationError::UnknownAgent(a) => "agent '"@ + a@
                    + "' not found in reputation table"@,
            }),
    {
        match self {
            ReputationError::UnknownAgent(a) => {
                let mut t = String::from_str("agent '");
                t.append(a.as_str());
                t.append("' not found in reputation table");
                t
            },
        }
    }
}

/// The reputation engine.
#[derive(Debug)]
pub struct ReputationEngine {
    /// The record by agent.
    scores: Table<AgentId, Reputation>,
}

impl Default for ReputationEngine {
    fn default() -> (e: ReputationEngine)
        ensures
            e.reputations()@ == Map::<Seq<char>, Reputation>::empty(),
    {
        ReputationEngine { scores: Table::new() }
    }
}

/// Whether the records of all agents are decayed at a time.
pub open spec fn all_decayed(
    before: Map<Seq<char>, Reputation>,
    after: Map<Seq<char>, Reputation>,
    now: Timestamp,
) -> bool {
    after.dom() == before.dom() && forall|a: Seq<char>|
        before.dom().contains(a) ==> #[trigger] after[a] == decayed(before[a], now)
}

impl ReputationEngine {
    /// The reputation by agent.
    pub closed spec fn reputations(&self) -> Table<AgentId, Reputation> {
        self.scores
    }

    /// The record of an agent at a time: a fresh one where it is unknown.
    pub open spec fn state(&self, agent: Seq<char>, now: Timestamp) -> Reputation {
        if self.reputations()@.dom().contains(agent) {
            self.reputations()@[agent]
        } else {
            fresh_reputation(now)
        }
    }

    /// An empty engine.
    pub fn new() -> (e: ReputationEngine)
        ensures
            e.reputations()@ == Map::<Seq<char>, Reputation>::empty(),
    {
        ReputationEngine::default()
    }

    /// Records an outcome of an agent at a time.
    pub fn update_at(&mut self, agent: &AgentId, outcome: ActionOutcome, now: Timestamp)
        requires
            can_count(old(self).state(agent@, now), outcome),
        ensures
            final(self).reputations()@ == old(self).reputations()@.insert(
                agent@,
                with_outcome(old(self).state(agent@, now), outcome, now),
            ),
    {
        let mut r = match self.scores.get(agent) {
            Some(r) => *r,
            None => Reputation::at(now),
        };
        r.apply_at(outcome, now);
        self.scores.insert(agent.clone(), r);
    }

    /// Records an outcome of an agent now.
    pub fn update(&mut self, agent: &AgentId, outcome: ActionOutcome)
        requires
            old(self).reputations()@.dom().contains(agent@) ==> can_count(
                old(self).reputations()@[agent@],
                outcome,
            ),
        ensures
            exists|now: Timestamp|
                final(self).reputations()@ == old(self).reputations()@.insert(
                    agent@,
                    with_outcome(#[trigger] old(self).state(agent@, now), outcome, now),
                ),
    {
        let now = Timestamp::now();
        self.update_at(agent, outcome, now);
        assert(self.scores@ == old(self).scores@.insert(
            agent@,
            with_outcome(old(self).state(agent@, now), outcome, now),
        ));
    }

    /// The reputation score of an agent; neutral where it is unknown.
    pub fn reputation_of(&self, agent: &AgentId) -> (s: Score)
        ensures
            s.nanos == (if self.reputations()@.dom().contains(agent@) {
                self.reputations()@[agent@].score.nanos
            } else {
                NEUTRAL
            }),
    {
        match self.scores.get(agent) {
            Some(r) => r.score,
            None => Score::from_nanos(NEUTRAL),
        }
    }

    /// The record of an agent.
    pub fn record(&self, agent: &AgentId) -> (r: Option<&Reputation>)
        ensures
            match r {
                Some(x) => self.reputations()@.dom().contains(agent@) && *x == self.reputations()@[agent@],
                None => !self.reputations()@.dom().contains(agent@),
            },
    {
        self.scores.get(agent)
    }

    /// Decays the records of all agents at a time.
    pub fn decay_all_at(&mut self, now: Timestamp)
        ensures
            all_decayed(old(self).reputations()@, final(self).reputations()@, now),
    {
        let ghost before = self.scores@;
        let ghost ids = self.scores.ids();
        let n: usize = self.scores.len();
        proof {
            table::order_lists_keys(self.scores);
        }
        let mut i: usize = 0;
        while i < n
            invariant
                n == ids.len(),
                i <= n,
                self.scores.ids() == ids,
                ids.no_duplicates(),
                ids.to_set() == before.dom(),
                self.scores@.dom() == before.dom(),
                forall|j: int|
                    0 <= j < i ==> self.scores@[#[trigger] ids[j]] == decayed(before[ids[j]], now),
                forall|j: int| i <= j < n ==> self.scores@[#[trigger] ids[j]] == before[ids[j]],
            decreases n - i,
        {
            let key = self.scores.key_at(i).clone();
            let mut r = *self.scores.value_at(i);
            r.decay(now);
            assert(self.scores@.dom().contains(key@));
            self.scores.insert(key, r);
            assert(self.scores@.dom() =~= before.dom());
            i += 1;
        }
        assert forall|a: Seq<char>| before.dom().contains(a) implies #[trigger] self.scores@[a]
            == decayed(before[a], now) by {
            assert(ids.to_set().contains(a));
            let j = choose|j: int| 0 <= j < ids.len() && ids[j] == a;
            assert(ids[j] == a);
        }
    }

    /// Decays the records of all agents now.
    pub fn decay_all(&mut self)
        ensures
            exists|now: Timestamp| #[trigger]
                all_decayed(old(self).reputations()@, final(self).reputations()@, now),
    {
        self.decay_all_at(Timestamp::now());
    }

    /// The whole reputation table.
    pub fn snapshot(&self) -> (t: &Table<AgentId, Reputation>)
        ensures
            *t == self.reputations(),
    {
        &self.scores
    }
}

/// Decaying twice at the same time is decaying once.
pub proof fn decay_is_idempotent(r: Reputation, now: Timestamp)
    ensures
        decayed(decayed(r, now), now) == decayed(r, now),
{
    assert(clock::seconds_between(now, now) == 0);
}

/// A reputation in `[0, 1]` stays there, whatever happens and however long
/// nothing does.
pub proof fn reputation_stays_in_range(r: Reputation, o: ActionOutcome, now: Timestamp)
    requires
        r.score.is_unit(),
    ensures
        with_outcome(r, o, now).score.is_unit(),
        decayed(r, now).score.is_unit(),
{
    let secs = clock::seconds_between(r.last_updated, now);
    if secs > 0 {
        decay_moves_toward_neutral(r.score.nanos as int, secs);
    }
}

/// Bad outcomes cost more than good outcomes reward.
pub proof fn trust_is_harder_to_rebuild(good: ActionOutcome, bad: ActionOutcome)
    requires
        delta_of(good) > 0,
        delta_of(bad) < 0,
    ensures
        -delta_of(bad) > delta_of(good),
{
}

/// What each outcome is worth, by its value: approval 0.02, a success alone
/// 0.01, a rejection minus 0.05, a failure alone minus 0.1, an override minus
/// 0.15; the last two also count as escalations.
pub proof fn outcomes_have_their_price(o: ActionOutcome)
    ensures
        delta_of(o) == 20_000_000 <==> o == ActionOutcome::Approved,
        delta_of(o) == 10_000_000 <==> o == ActionOutcome::AutoSucceeded,
        delta_of(o) == -50_000_000 <==> o == ActionOutcome::Rejected,
        delta_of(o) == -100_000_000 <==> o == ActionOutcome::AutoFailed,
        delta_of(o) == -150_000_000 <==> o == ActionOutcome::UserOverrode,
        escalates(o) <==> delta_of(o) <= -100_000_000,
{
}

/// An outcome counts once, moves the score by its price within `[0, 1]`, and
/// dates the reputation; the unknown start in the middle.
pub proof fn outcomes_are_booked(r: Reputation, o: ActionOutcome, now: Timestamp)
    requires
        can_count(r, o),
        r.score.is_unit(),
    ensures
        ({
            let a = with_outcome(r, o, now);
            &&& a.decisions_observed == r.decisions_observed + 1
            &&& a.escalations == r.escalations + (if o == ActionOutcome::AutoFailed || o
                == ActionOutcome::UserOverrode {
                1int
            } else {
                0
            })
            &&& a.last_updated == now
            &&& 0 <= r.score.nanos + delta_of(o) <= 1_000_000_000 ==> a.score.nanos
                == r.score.nanos + delta_of(o)
            &&& r.score.nanos + delta_of(o) < 0 ==> a.score.nanos == 0
            &&& r.score.nanos + delta_of(o) > 1_000_000_000 ==> a.score.nanos == 1_000_000_000
        }),
        fresh_reputation(now).score.nanos == 500_000_000,
        fresh_reputation(now).decisions_observed == 0,
        fresh_reputation(now).escalations == 0,
{
}

/// A reputation moves to the middle by a twentieth of the starting distance in
/// an hour, and is there after twenty.
pub proof fn decay_takes_twenty_hours(nanos: int, secs: int)
    requires
        secs > 0,
    ensures
        secs <= 72_000 ==> (500_000_000 - nanos) * secs - 72_000 < 72_000 * (moved_to_neutral(
            nanos,
            secs,
        ) - nanos) <= (500_000_000 - nanos) * secs,
        secs >= 72_000 ==> moved_to_neutral(nanos, secs) == 500_000_000,
        moved_to_neutral(nanos, 3_600) == nanos + (500_000_000 - nanos) / 20,
{
    assert((500_000_000 - nanos) * 72_000 / 72_000 == 500_000_000 - nanos);
    assert((500_000_000 - nanos) * 3_600 / 72_000 == (500_000_000 - nanos) / 20);
}

} // verus!
