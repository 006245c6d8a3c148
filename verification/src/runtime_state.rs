//! Shared runtime state: trust, decisions, anomalies, escalations and recent
//! audit events.

use vstd::prelude::*;

use crate::clock::Timestamp;
use crate::hal_types::AuditEvent;
use crate::hal_types::EscalationContext;
use crate::hal_types::HALDecision;
use crate::hal_types::RuntimeAnomaly;
use crate::hal_types::TrustState;
use crate::score;
use crate::score::div_floor;
use crate::score::unit_score;
use crate::score::Score;
use crate::score::SCALE;
use crate::sequences;
use crate::table;
use crate::table::Table;
use crate::text;
use crate::window;
use crate::window::push_bounded;

verus! {

/// Number of anomalies that are kept.
pub const ANOMALY_LIMIT: usize = 5_000;

/// Number of audit events that are kept.
pub const AUDIT_LIMIT: usize = 10_000;

/// The runtime state.
#[derive(Debug)]
pub struct RuntimeState {
    /// Trust by agent.
    pub trust_map: Table<String, TrustState>,
    /// Decisions by intent.
    pub active_decisions: Table<String, HALDecision>,
    /// Recent anomalies, oldest first.
    pub anomaly_stream: Vec<RuntimeAnomaly>,
    /// Escalations by agent.
    pub escalation_state: Table<String, EscalationContext>,
    /// Recent audit events, oldest first.
    pub audit_buffer: Vec<AuditEvent>,
}

/// The trust after a loss: the score drops within `[0, 1]`, and below 0.2 the
/// agent is suspected to be compromised.
pub open spec fn decayed(t: TrustState, amount: int) -> TrustState {
    let nanos = score::unit_clamp(t.current_score.nanos - amount);
    TrustState {
        current_score: Score { nanos: nanos as i64 },
        compromise_suspected: t.compromise_suspected || nanos < 200_000_000,
        ..t
    }
}

/// The trust after a recovery: the score rises within `[0, 1]`.
pub open spec fn recovered(t: TrustState, amount: int) -> TrustState {
    TrustState {
        current_score: Score {
            nanos: score::unit_clamp(t.current_score.nanos + amount) as i64,
        },
        ..t
    }
}

/// A map with the value of a key, where it has one, replaced.
pub open spec fn replaced(
    m: Map<Seq<char>, TrustState>,
    k: Seq<char>,
    v: TrustState,
) -> Map<Seq<char>, TrustState> {
    if m.dom().contains(k) {
        m.insert(k, v)
    } else {
        m
    }
}

/// The sum of the trust scores of agents.
pub open spec fn trust_sum(m: Map<Seq<char>, TrustState>, ids: Seq<Seq<char>>) -> int
    decreases ids.len(),
{
    if ids.len() == 0 {
        0
    } else {
        trust_sum(m, ids.drop_last()) + m[ids.last()].current_score.nanos
    }
}

/// The sum of the trust scores is the same in whatever order the agents are
/// listed.
pub proof fn trust_sum_ignores_order(
    m: Map<Seq<char>, TrustState>,
    all: Set<Seq<char>>,
    a: Seq<Seq<char>>,
    b: Seq<Seq<char>>,
)
    requires
        sequences::enumerates(a, all),
        sequences::enumerates(b, all),
    ensures
        a.len() == b.len(),
        trust_sum(m, a) == trust_sum(m, b),
    decreases a.len(),
{
    a.unique_seq_to_set();
    b.unique_seq_to_set();
    if a.len() > 0 {
        let x = a.last();
        assert(a.to_set().contains(x)) by {
            assert(a[a.len() - 1] == x);
        }
        assert(b.contains(x)) by {
            assert(b.to_set().contains(x));
        }
        let i = choose|i: int| 0 <= i < b.len() && b[i] == x;
        sequences::enumerates_rest(a, all, a.len() - 1);
        sequences::enumerates_rest(b, all, i);
        assert(a.remove(a.len() - 1) =~= a.drop_last());
        trust_sum_ignores_order(m, all.remove(x), a.drop_last(), b.remove(i));
        trust_sum_without(m, b, i);
    }
}

/// What a listed agent adds to the sum of the trust scores.
proof fn trust_sum_without(m: Map<Seq<char>, TrustState>, ids: Seq<Seq<char>>, i: int)
    requires
        0 <= i < ids.len(),
    ensures
        trust_sum(m, ids) == trust_sum(m, ids.remove(i)) + m[ids[i]].current_score.nanos,
    decreases ids.len(),
{
    if i == ids.len() - 1 {
        assert(ids.remove(i) =~= ids.drop_last());
    } else {
        trust_sum_without(m, ids.drop_last(), i);
        assert(ids.remove(i).drop_last() =~= ids.drop_last().remove(i));
        assert(ids.remove(i).last() == ids.last());
    }
}

/// The average trust over all agents, in billionths; one without agents.
pub open spec fn health_of(m: Map<Seq<char>, TrustState>, ids: Seq<Seq<char>>) -> int {
    if ids.len() == 0 {
        SCALE as int
    } else {
        trust_sum(m, ids) / ids.len() as int
    }
}

impl RuntimeState {
    /// An empty state.
    pub fn new() -> (s: RuntimeState)
        ensures
            s.trust_map@ == Map::<Seq<char>, TrustState>::empty(),
            s.trust_map.ids() == Seq::<Seq<char>>::empty(),
            s.active_decisions@ == Map::<Seq<char>, HALDecision>::empty(),
            s.anomaly_stream@ == Seq::<RuntimeAnomaly>::empty(),
            s.escalation_state@ == Map::<Seq<char>, EscalationContext>::empty(),
            s.audit_buffer@ == Seq::<AuditEvent>::empty(),
    {
        RuntimeState {
            trust_map: Table::new(),
            active_decisions: Table::new(),
            anomaly_stream: Vec::new(),
            escalation_state: Table::new(),
            audit_buffer: Vec::new(),
        }
    }

    /// Sets the trust of an agent.
    pub fn set_trust_state(&mut self, agent_id: &str, trust: TrustState)
        ensures
            final(self).trust_map@ == old(self).trust_map@.insert(agent_id@, trust),
            final(self).active_decisions == old(self).active_decisions,
            final(self).anomaly_stream == old(self).anomaly_stream,
            final(self).escalation_state == old(self).escalation_state,
            final(self).audit_buffer == old(self).audit_buffer,
    {
        self.trust_map.insert(agent_id.to_owned(), trust);
    }

    /// The trust of an agent.
    pub fn get_trust_state(&self, agent_id: &str) -> (r: Option<TrustState>)
        ensures
            match r {
                Some(t) => self.trust_map@.dom().contains(agent_id@) && t
                    == self.trust_map@[agent_id@],
                None => !self.trust_map@.dom().contains(agent_id@),
            },
    {
        match self.trust_map.get_text(agent_id) {
            Some(t) => Some(*t),
            None => None,
        }
    }

    /// Sets the decision on an intent.
    pub fn update_decision(&mut self, intent_id: &str, decision: HALDecision)
        ensures
            final(self).active_decisions@ == old(self).active_decisions@.insert(
                intent_id@,
                decision,
            ),
            final(self).trust_map == old(self).trust_map,
            final(self).anomaly_stream == old(self).anomaly_stream,
            final(self).escalation_state == old(self).escalation_state,
            final(self).audit_buffer == old(self).audit_buffer,
    {
        self.active_decisions.insert(intent_id.to_owned(), decision);
    }

    /// The decision on an intent.
    pub fn get_decision(&self, intent_id: &str) -> (r: Option<HALDecision>)
        ensures
            match r {
                Some(d) => self.active_decisions@.dom().contains(intent_id@) && d
                    == self.active_decisions@[intent_id@],
                None => !self.active_decisions@.dom().contains(intent_id@),
            },
    {
        match self.active_decisions.get_text(intent_id) {
            Some(d) => Some(*d),
            None => None,
        }
    }

    /// Adds an anomaly; the oldest beyond the limit goes.
    pub fn push_anomaly(&mut self, anomaly: RuntimeAnomaly)
        ensures
            final(self).anomaly_stream@ == window::pushed(
                old(self).anomaly_stream@,
                anomaly,
                ANOMALY_LIMIT as nat,
            ),
            final(self).trust_map == old(self).trust_map,
            final(self).active_decisions == old(self).active_decisions,
            final(self).escalation_state == old(self).escalation_state,
            final(self).audit_buffer == old(self).audit_buffer,
    {
        push_bounded(&mut self.anomaly_stream, anomaly, ANOMALY_LIMIT);
    }

    /// The recent anomalies, oldest first.
    pub fn recent_anomalies(&self) -> (r: Vec<RuntimeAnomaly>)
        ensures
            r@ == self.anomaly_stream@,
    {
        let mut r: Vec<RuntimeAnomaly> = Vec::new();
        let mut i: usize = 0;
        while i < self.anomaly_stream.len()
            invariant
                i <= self.anomaly_stream@.len(),
                r@ == self.anomaly_stream@.take(i as int),
            decreases self.anomaly_stream@.len() - i,
        {
            assert(self.anomaly_stream@.take(i + 1) =~= self.anomaly_stream@.take(i as int).push(
                self.anomaly_stream@[i as int],
            ));
            r.push(self.anomaly_stream[i].clone());
            i += 1;
        }
        assert(self.anomaly_stream@.take(self.anomaly_stream@.len() as int)
            =~= self.anomaly_stream@);
        r
    }

    /// Whether an agent is escalated.
    pub fn escalation_active(&self, agent_id: &str) -> (r: bool)
        ensures
            r == self.escalation_state@.dom().contains(agent_id@),
    {
        self.escalation_state.contains_key(&agent_id.to_owned())
    }

    /// Escalates an agent.
    pub fn set_escalation(&mut self, agent_id: &str, escalation: EscalationContext)
        ensures
            final(self).escalation_state@ == old(self).escalation_state@.insert(
                agent_id@,
                escalation,
            ),
            final(self).trust_map == old(self).trust_map,
            final(self).active_decisions == old(self).active_decisions,
            final(self).anomaly_stream == old(self).anomaly_stream,
            final(self).audit_buffer == old(self).audit_buffer,
    {
        self.escalation_state.insert(agent_id.to_owned(), escalation);
    }

    /// Ends the escalation of an agent.
    pub fn clear_escalation(&mut self, agent_id: &str)
        ensures
            final(self).escalation_state@ == old(self).escalation_state@.remove(agent_id@),
            final(self).trust_map == old(self).trust_map,
            final(self).active_decisions == old(self).active_decisions,
            final(self).anomaly_stream == old(self).anomaly_stream,
            final(self).audit_buffer == old(self).audit_buffer,
    {
        let _ = self.escalation_state.remove(&agent_id.to_owned());
    }

    /// Adds an audit event; the oldest beyond the limit goes.
    pub fn append_audit(&mut self, event: AuditEvent)
        ensures
            final(self).audit_buffer@ == window::pushed(
                old(self).audit_buffer@,
                event,
                AUDIT_LIMIT as nat,
            ),
            final(self).trust_map == old(self).trust_map,
            final(self).active_decisions == old(self).active_decisions,
            final(self).anomaly_stream == old(self).anomaly_stream,
            final(self).escalation_state == old(self).escalation_state,
    {
        push_bounded(&mut self.audit_buffer, event, AUDIT_LIMIT);
    }

    /// The recent audit events, oldest first.
    pub fn audit_snapshot(&self) -> (r: Vec<AuditEvent>)
        ensures
            r@ == self.audit_buffer@,
    {
        let mut r: Vec<AuditEvent> = Vec::new();
        let mut i: usize = 0;
        while i < self.audit_buffer.len()
            invariant
                i <= self.audit_buffer@.len(),
                r@ == self.audit_buffer@.take(i as int),
            decreases self.audit_buffer@.len() - i,
        {
            assert(self.audit_buffer@.take(i + 1) =~= self.audit_buffer@.take(i as int).push(
                self.audit_buffer@[i as int],
            ));
            r.push(self.audit_buffer[i].clone());
            i += 1;
        }
        assert(self.audit_buffer@.take(self.audit_buffer@.len() as int) =~= self.audit_buffer@);
        r
    }

    /// Lowers the trust of an agent that is known.
    pub fn decay_trust(&mut self, agent_id: &str, amount: Score)
        ensures
            final(self).trust_map@ == replaced(
                old(self).trust_map@,
                agent_id@,
                decayed(old(self).trust_map@[agent_id@], amount.nanos as int),
            ),
            final(self).active_decisions == old(self).active_decisions,
            final(self).anomaly_stream == old(self).anomaly_stream,
            final(self).escalation_state == old(self).escalation_state,
            final(self).audit_buffer == old(self).audit_buffer,
    {
        match self.get_trust_state(agent_id) {
            Some(t) => {
                let mut state = t;
                state.current_score = unit_score(
                    t.current_score.nanos as i128 - amount.nanos as i128,
                );
                if state.current_score.nanos < 200_000_000 {
                    state.compromise_suspected = true;
                }
                self.trust_map.insert(agent_id.to_owned(), state);
            },
            None => {},
        }
    }

    /// Raises the trust of an agent that is known.
    pub fn recover_trust(&mut self, agent_id: &str, amount: Score)
        ensures
            final(self).trust_map@ == replaced(
                old(self).trust_map@,
                agent_id@,
                recovered(old(self).trust_map@[agent_id@], amount.nanos as int),
            ),
            final(self).active_decisions == old(self).active_decisions,
            final(self).anomaly_stream == old(self).anomaly_stream,
            final(self).escalation_state == old(self).escalation_state,
            final(self).audit_buffer == old(self).audit_buffer,
    {
        match self.get_trust_state(agent_id) {
            Some(t) => {
                let mut state = t;
                state.current_score = unit_score(
                    t.current_score.nanos as i128 + amount.nanos as i128,
                );
                self.trust_map.insert(agent_id.to_owned(), state);
            },
            None => {},
        }
    }

    /// The average trust over all agents, in whatever order they are listed; one
    /// without agents.
    pub fn runtime_health(&self) -> (s: Score)
        ensures
            forall|agents: Seq<Seq<char>>| #[trigger]
                sequences::enumerates(agents, self.trust_map@.dom()) ==> s.nanos == health_of(
                    self.trust_map@,
                    agents,
                ),
            s.nanos == health_of(self.trust_map@, self.trust_map.ids()),
    {
        proof {
            table::order_lists_keys(self.trust_map);
            assert forall|agents: Seq<Seq<char>>| #[trigger]
                sequences::enumerates(agents, self.trust_map@.dom()) implies health_of(
                self.trust_map@,
                agents,
            ) == health_of(self.trust_map@, self.trust_map.ids()) by {
                trust_sum_ignores_order(
                    self.trust_map@,
                    self.trust_map@.dom(),
                    agents,
                    self.trust_map.ids(),
                );
            }
        }
        let n: usize = self.trust_map.len();
        if n == 0 {
            return Score::one();
        }
        let ghost ids = self.trust_map.ids();
        let mut sum: i128 = 0;
        let mut i: usize = 0;
        while i < n
            invariant
                ids == self.trust_map.ids(),
                n == ids.len(),
                i <= n,
                sum == trust_sum(self.trust_map@, ids.take(i as int)),
                -(i * 9_223_372_036_854_775_808) <= sum <= i * 9_223_372_036_854_775_807,
            decreases n - i,
        {
            proof {
                let next = ids.take(i + 1);
                assert(next.drop_last() =~= ids.take(i as int));
                assert(next.last() == ids[i as int]);
            }
            sum = sum + self.trust_map.value_at(i).current_score.nanos as i128;
            i += 1;
        }
        assert(ids.take(n as int) =~= ids);
        let mean: i128 = div_floor(sum, n as i128);
        proof {
            let s = sum as int;
            let m = n as int;
            assert(-9_223_372_036_854_775_808 <= s / m <= 9_223_372_036_854_775_807)
                by (nonlinear_arith)
                requires
                    -(m * 9_223_372_036_854_775_808) <= s <= m * 9_223_372_036_854_775_807,
                    m > 0,
            ;
        }
        Score::from_nanos(mean as i64)
    }

    /// The agents that are suspected to be compromised, each once.
    pub fn compromised_agents(&self) -> (r: Vec<String>)
        ensures
            sequences::enumerates(
                text::texts(r@),
                self.trust_map@.dom().filter(
                    |a: Seq<char>| self.trust_map@[a].compromise_suspected,
                ),
            ),
            text::texts(r@) == self.trust_map.ids().filter(
                |a: Seq<char>| self.trust_map@[a].compromise_suspected,
            ),
    {
        let ghost ids = self.trust_map.ids();
        let ghost keep = |a: Seq<char>| self.trust_map@[a].compromise_suspected;
        let n: usize = self.trust_map.len();
        let mut r: Vec<String> = Vec::new();
        let mut i: usize = 0;
        proof {
            reveal(Seq::filter);
            assert(text::texts(r@) =~= ids.take(0).filter(keep));
        }
        while i < n
            invariant
                ids == self.trust_map.ids(),
                keep == (|a: Seq<char>| self.trust_map@[a].compromise_suspected),
                n == ids.len(),
                i <= n,
                text::texts(r@) == ids.take(i as int).filter(keep),
            decreases n - i,
        {
            proof {
                reveal(Seq::filter);
                let next = ids.take(i + 1);
                assert(next.drop_last() =~= ids.take(i as int));
                assert(next.last() == ids[i as int]);
            }
            if self.trust_map.value_at(i).compromise_suspected {
                let ghost before = r@;
                let name = self.trust_map.key_at(i).clone();
                r.push(name);
                assert(text::texts(r@) =~= text::texts(before).push(ids[i as int]));
            }
            i += 1;
        }
        assert(ids.take(n as int) =~= ids);
        proof {
            table::order_lists_keys(self.trust_map);
            sequences::filter_enumerates(ids, self.trust_map@.dom(), keep);
        }
        r
    }

    /// The present time in milliseconds since the epoch.
    pub fn monotonic_timestamp() -> (m: i64)
        ensures
            exists|t: Timestamp| m == #[trigger] t.nanos as int / 1_000_000,
    {
        Timestamp::now().millis()
    }
}

/// Pushing never lets the kept anomalies or audit events exceed their limits.
pub proof fn buffers_stay_bounded(
    anomalies: Seq<RuntimeAnomaly>,
    anomaly: RuntimeAnomaly,
    events: Seq<AuditEvent>,
    event: AuditEvent,
)
    requires
        anomalies.len() <= ANOMALY_LIMIT,
        events.len() <= AUDIT_LIMIT,
    ensures
        window::pushed(anomalies, anomaly, ANOMALY_LIMIT as nat).len() <= ANOMALY_LIMIT,
        window::pushed(events, event, AUDIT_LIMIT as nat).len() <= AUDIT_LIMIT,
{
}

/// A loss of trust never raises the score, never clears a suspicion, and keeps
/// the score in `[0, 1]`; a recovery of as much undoes the score where nothing
/// was cut off.
pub proof fn decay_and_recovery(t: TrustState, amount: int)
    requires
        0 <= amount <= t.current_score.nanos <= SCALE,
    ensures
        decayed(t, amount).current_score.nanos <= t.current_score.nanos,
        t.compromise_suspected ==> decayed(t, amount).compromise_suspected,
        decayed(t, amount).current_score.is_unit(),
        recovered(decayed(t, amount), amount).current_score == t.current_score,
{
}

/// Trust that falls below a fifth is suspected, and stays so.
pub proof fn suspicion_below_a_fifth(t: TrustState, amount: int)
    requires
        0 <= amount,
    ensures
        decayed(t, amount).compromise_suspected <==> t.compromise_suspected
            || t.current_score.nanos - amount < 200_000_000,
        recovered(t, amount).compromise_suspected == t.compromise_suspected,
{
}

/// Five thousand anomalies and ten thousand audit events are kept.
pub proof fn buffer_limits()
    ensures
        ANOMALY_LIMIT == 5_000,
        AUDIT_LIMIT == 10_000,
{
}

/// Health is the mean of the trust: whole where there are no agents, the common
/// value where all have one, and never outside what bounds them all.
pub proof fn health_is_the_mean(
    m: Map<Seq<char>, TrustState>,
    ids: Seq<Seq<char>>,
    low: int,
    high: int,
)
    requires
        forall|i: int|
            0 <= i < ids.len() ==> low <= m[#[trigger] ids[i]].current_score.nanos <= high,
    ensures
        ids.len() == 0 ==> health_of(m, ids) == 1_000_000_000,
        ids.len() > 0 ==> low <= health_of(m, ids) <= high,
{
    sums_are_bounded(m, ids, low, high);
    let n = ids.len() as int;
    let s = trust_sum(m, ids);
    if n > 0 {
        assert(low <= s / n <= high) by (nonlinear_arith)
            requires
                n > 0,
                low * n <= s <= high * n,
        ;
    }
}

proof fn sums_are_bounded(m: Map<Seq<char>, TrustState>, ids: Seq<Seq<char>>, low: int, high: int)
    requires
        forall|i: int|
            0 <= i < ids.len() ==> low <= m[#[trigger] ids[i]].current_score.nanos <= high,
    ensures
        low * ids.len() <= trust_sum(m, ids) <= high * ids.len(),
    decreases ids.len(),
{
    if ids.len() > 0 {
        let d = ids.drop_last();
        let n = d.len() as int;
        assert forall|i: int| 0 <= i < d.len() implies low
            <= m[#[trigger] d[i]].current_score.nanos <= high by {
            assert(d[i] == ids[i]);
        }
        sums_are_bounded(m, d, low, high);
        assert(ids.last() == ids[n]);
        assert(low * (n + 1) == low * n + low) by (nonlinear_arith);
        assert(high * (n + 1) == high * n + high) by (nonlinear_arith);
    }
}

/// To replace the trust of one agent changes that agent, if it is known, and
/// nobody else.
pub proof fn replacing_changes_one(
    m: Map<Seq<char>, TrustState>,
    k: Seq<char>,
    v: TrustState,
    other: Seq<char>,
)
    ensures
        replaced(m, k, v).dom() == m.dom(),
        m.dom().contains(k) ==> replaced(m, k, v)[k] == v,
        other != k ==> replaced(m, k, v)[other] == m[other],
{
    assert(replaced(m, k, v).dom() =~= m.dom());
}

} // verus!
