//! Per-agent behaviour tracking that feeds HAL's risk inputs.
//!
//! History is a bounded sliding window per agent. Unknown agents score
//! neutral (0.5): not trusted, and not condemned.

use vstd::prelude::*;

use crate::hal_types::BehavioralMetrics;
use crate::score::Score;
use crate::score::SCALE;
use crate::table::Table;
use crate::text;
use crate::window;
use crate::window::push_bounded;

verus! {

/// Maximum observations retained per agent.
pub const WINDOW: usize = 200;

/// Number of most-recent observations considered "recent".
pub const RECENT: usize = 20;

/// One observed agent action outcome.
#[derive(Clone, Debug)]
pub struct ActionObservation {
    /// Action verb, e.g. "open_files".
    pub action: String,
    /// Whether it succeeded.
    pub succeeded: bool,
    /// True when the agent attempted something outside its capability lattice.
    pub was_escalation_attempt: bool,
    /// Hour of day, 0 to 23, when the action was observed.
    pub hour: u8,
}

/// Number of successes.
pub open spec fn successes(h: Seq<ActionObservation>) -> nat
    decreases h.len(),
{
    if h.len() == 0 {
        0
    } else {
        successes(h.drop_last()) + (if h.last().succeeded {
            1nat
        } else {
            0
        })
    }
}

/// Number of escalation attempts.
pub open spec fn escalations(h: Seq<ActionObservation>) -> nat
    decreases h.len(),
{
    if h.len() == 0 {
        0
    } else {
        escalations(h.drop_last()) + (if h.last().was_escalation_attempt {
            1nat
        } else {
            0
        })
    }
}

/// Number of observations at an hour.
pub open spec fn at_hour(h: Seq<ActionObservation>, hour: u8) -> nat
    decreases h.len(),
{
    if h.len() == 0 {
        0
    } else {
        at_hour(h.drop_last(), hour) + (if h.last().hour == hour {
            1nat
        } else {
            0
        })
    }
}

/// Number of changes between success and failure.
pub open spec fn flips(h: Seq<ActionObservation>) -> nat
    decreases h.len(),
{
    if h.len() < 2 {
        0
    } else {
        flips(h.drop_last()) + (if h[h.len() - 2].succeeded != h.last().succeeded {
            1nat
        } else {
            0
        })
    }
}

/// Whether an action occurs among the first `n` observations.
pub open spec fn seen_before(h: Seq<ActionObservation>, n: int, action: Seq<char>) -> bool {
    exists|i: int| 0 <= i < n && (#[trigger] h[i]).action@ == action
}

/// Number of observations from `n` up to `end` whose action does not occur
/// among the first `n`.
pub open spec fn novel(h: Seq<ActionObservation>, n: int, end: int) -> nat
    decreases end - n,
{
    if end <= n {
        0
    } else {
        novel(h, n, end - 1) + (if seen_before(h, n, h[end - 1].action@) {
            0nat
        } else {
            1
        })
    }
}

/// Where the recent observations start.
pub open spec fn recent_start(h: Seq<ActionObservation>) -> int {
    if h.len() > RECENT {
        h.len() - RECENT
    } else {
        0
    }
}

/// `part / whole` in billionths, rounded down.
pub open spec fn ratio(part: int, whole: int) -> int {
    (part * SCALE) / whole
}

/// The share of recent actions that are new, in billionths; neutral without a
/// baseline.
pub open spec fn novelty(h: Seq<ActionObservation>) -> int {
    let n = recent_start(h);
    if n == 0 {
        500_000_000
    } else {
        ratio(novel(h, n, h.len() as int) as int, h.len() - n)
    }
}

/// The rate of changes between success and failure, in billionths.
pub open spec fn volatility_of(h: Seq<ActionObservation>) -> int {
    if h.len() < 2 {
        0
    } else {
        ratio(flips(h) as int, h.len() - 1)
    }
}

/// The metrics of an agent with a history.
pub open spec fn are_metrics(m: BehavioralMetrics, h: Seq<ActionObservation>) -> bool {
    if h.len() == 0 {
        &&& m.anomaly_score.nanos == 500_000_000
        &&& m.volatility_score.nanos == 500_000_000
        &&& m.escalation_attempts == 0
        &&& m.historical_stability.nanos == 500_000_000
        &&& m.recent_failures == 0
    } else {
        &&& m.anomaly_score.nanos == novelty(h)
        &&& m.volatility_score.nanos == volatility_of(h)
        &&& m.escalation_attempts == escalations(h)
        &&& m.historical_stability.nanos == ratio(successes(h) as int, h.len() as int)
        &&& m.recent_failures == h.len() - recent_start(h) - successes(
            h.subrange(recent_start(h), h.len() as int),
        )
    }
}

/// How unusual an hour is, in billionths: neutral without a history, one where
/// it was never seen, zero where it holds at least a twentieth of all
/// observations, and one half otherwise.
pub open spec fn hour_anomaly(h: Seq<ActionObservation>, hour: u8) -> int {
    if h.len() == 0 {
        500_000_000
    } else if at_hour(h, hour) == 0 {
        1_000_000_000
    } else if at_hour(h, hour) * 20 >= h.len() {
        0
    } else {
        500_000_000
    }
}

fn ratio_score(part: usize, whole: usize) -> (s: Score)
    requires
        part <= whole,
        0 < whole <= WINDOW,
    ensures
        s.nanos == ratio(part as int, whole as int),
        s.is_unit(),
{
    let p: i64 = part as i64;
    let w: i64 = whole as i64;
    proof {
        let x = p as int * SCALE;
        let y = w as int;
        assert(0 <= x / y <= SCALE) by (nonlinear_arith)
            requires
                0 <= x <= y * SCALE,
                y > 0,
                SCALE == 1_000_000_000,
        ;
        assert(x <= y * SCALE) by (nonlinear_arith)
            requires
                x == p as int * SCALE,
                p <= y,
                SCALE == 1_000_000_000,
        ;
    }
    Score::from_nanos((p * SCALE) / w)
}

proof fn counts_bounded(h: Seq<ActionObservation>, hour: u8)
    ensures
        successes(h) <= h.len(),
        escalations(h) <= h.len(),
        at_hour(h, hour) <= h.len(),
        h.len() >= 1 ==> flips(h) <= h.len() - 1,
    decreases h.len(),
{
    if h.len() > 0 {
        counts_bounded(h.drop_last(), hour);
    }
}

proof fn novel_bounded(h: Seq<ActionObservation>, n: int, end: int)
    requires
        n <= end,
    ensures
        novel(h, n, end) <= end - n,
    decreases end - n,
{
    if end > n {
        novel_bounded(h, n, end - 1);
    }
}

fn count_successes(h: &Vec<ActionObservation>, from: usize) -> (n: usize)
    requires
        from <= h@.len() <= WINDOW,
    ensures
        n == successes(h@.subrange(from as int, h@.len() as int)),
        n <= h@.len() - from,
{
    let mut n: usize = 0;
    let mut i: usize = from;
    assert(h@.subrange(from as int, from as int) =~= Seq::<ActionObservation>::empty());
    while i < h.len()
        invariant
            from <= i <= h@.len() <= WINDOW,
            n == successes(h@.subrange(from as int, i as int)),
            n <= i - from,
        decreases h@.len() - i,
    {
        proof {
            let next = h@.subrange(from as int, i + 1);
            assert(next.drop_last() =~= h@.subrange(from as int, i as int));
            assert(next.last() == h@[i as int]);
        }
        if h[i].succeeded {
            n += 1;
        }
        i += 1;
    }
    n
}

fn count_escalations(h: &Vec<ActionObservation>) -> (n: usize)
    requires
        h@.len() <= WINDOW,
    ensures
        n == escalations(h@),
        n <= h@.len(),
{
    let mut n: usize = 0;
    let mut i: usize = 0;
    while i < h.len()
        invariant
            i <= h@.len() <= WINDOW,
            n == escalations(h@.take(i as int)),
            n <= i,
        decreases h@.len() - i,
    {
        proof {
            let next = h@.take(i + 1);
            assert(next.drop_last() =~= h@.take(i as int));
            assert(next.last() == h@[i as int]);
        }
        if h[i].was_escalation_attempt {
            n += 1;
        }
        i += 1;
    }
    assert(h@.take(h@.len() as int) =~= h@);
    n
}

fn count_at_hour(h: &Vec<ActionObservation>, hour: u8) -> (n: usize)
    requires
        h@.len() <= WINDOW,
    ensures
        n == at_hour(h@, hour),
        n <= h@.len(),
{
    let mut n: usize = 0;
    let mut i: usize = 0;
    while i < h.len()
        invariant
            i <= h@.len() <= WINDOW,
            n == at_hour(h@.take(i as int), hour),
            n <= i,
        decreases h@.len() - i,
    {
        proof {
            let next = h@.take(i + 1);
            assert(next.drop_last() =~= h@.take(i as int));
            assert(next.last() == h@[i as int]);
        }
        if h[i].hour == hour {
            n += 1;
        }
        i += 1;
    }
    assert(h@.take(h@.len() as int) =~= h@);
    n
}

fn count_flips(h: &Vec<ActionObservation>) -> (n: usize)
    requires
        1 <= h@.len() <= WINDOW,
    ensures
        n == flips(h@),
        n <= h@.len() - 1,
{
    let mut n: usize = 0;
    let mut i: usize = 1;
    while i < h.len()
        invariant
            1 <= i <= h@.len() <= WINDOW,
            n == flips(h@.take(i as int)),
            n <= i - 1,
        decreases h@.len() - i,
    {
        proof {
            let next = h@.take(i + 1);
            assert(next.drop_last() =~= h@.take(i as int));
            assert(next.last() == h@[i as int]);
            assert(next[next.len() - 2] == h@[i - 1]);
        }
        if h[i - 1].succeeded != h[i].succeeded {
            n += 1;
        }
        i += 1;
    }
    assert(h@.take(h@.len() as int) =~= h@);
    n
}

fn was_seen(h: &Vec<ActionObservation>, n: usize, action: &str) -> (r: bool)
    requires
        n <= h@.len(),
    ensures
        r == seen_before(h@, n as int, action@),
{
    let mut i: usize = 0;
    while i < n
        invariant
            i <= n <= h@.len(),
            forall|k: int| 0 <= k < i ==> (#[trigger] h@[k]).action@ != action@,
        decreases n - i,
    {
        if text::same_text(h[i].action.as_str(), action) {
            return true;
        }
        i += 1;
    }
    false
}

fn count_novel(h: &Vec<ActionObservation>, n: usize) -> (c: usize)
    requires
        n <= h@.len() <= WINDOW,
    ensures
        c == novel(h@, n as int, h@.len() as int),
        c <= h@.len() - n,
{
    let mut c: usize = 0;
    let mut i: usize = n;
    while i < h.len()
        invariant
            n <= i <= h@.len() <= WINDOW,
            c == novel(h@, n as int, i as int),
            c <= i - n,
        decreases h@.len() - i,
    {
        if !was_seen(h, n, h[i].action.as_str()) {
            c += 1;
        }
        i += 1;
    }
    c
}

/// Per-agent sliding-window behavioral model.
#[derive(Debug)]
pub struct BehavioralModel {
    history: Table<String, Vec<ActionObservation>>,
}

impl BehavioralModel {
    #[verifier::type_invariant]
    spec fn inv(self) -> bool {
        forall|a: Seq<char>|
            self.history@.dom().contains(a) ==> (#[trigger] self.history@[a])@.len() <= WINDOW
    }

    /// The observations of an agent, oldest first.
    pub closed spec fn observations(&self, agent: Seq<char>) -> Seq<ActionObservation> {
        if self.history@.dom().contains(agent) {
            self.history@[agent]@
        } else {
            Seq::empty()
        }
    }

    /// A model without observations.
    pub fn new() -> (m: BehavioralModel)
        ensures
            forall|a: Seq<char>| #[trigger] m.observations(a) == Seq::<ActionObservation>::empty(),
    {
        BehavioralModel { history: Table::new() }
    }

    /// Records an observation of an agent. The oldest one goes once the window
    /// is full.
    pub fn observe(&mut self, agent_id: &str, observation: ActionObservation)
        ensures
            final(self).observations(agent_id@) == window::pushed(
                old(self).observations(agent_id@),
                observation,
                WINDOW as nat,
            ),
            final(self).observations(agent_id@).len() <= WINDOW,
            forall|a: Seq<char>|
                a != agent_id@ ==> #[trigger] final(self).observations(a) == old(
                    self,
                ).observations(a),
    {
        let key = agent_id.to_owned();
        proof {
            use_type_invariant(&*self);
        }
        let ghost before = self.history@;
        let mut table: Table<String, Vec<ActionObservation>> = Table::new();
        std::mem::swap(&mut table, &mut self.history);
        let mut queue: Vec<ActionObservation> = match table.remove(&key) {
            Some(q) => q,
            None => Vec::new(),
        };
        assert(queue@ =~= old(self).observations(agent_id@));
        push_bounded(&mut queue, observation, WINDOW);
        table.insert(key, queue);
        assert forall|a: Seq<char>| table@.dom().contains(a) implies (
        #[trigger] table@[a])@.len() <= WINDOW by {
            if a != agent_id@ {
                assert(before[a]@.len() <= WINDOW);
            }
        }
        self.history = table;
    }

    /// The observations of an agent, oldest first.
    pub fn history(&self, agent_id: &str) -> (r: Option<&Vec<ActionObservation>>)
        ensures
            match r {
                Some(h) => h@ == self.observations(agent_id@) && h@.len() <= WINDOW,
                None => self.observations(agent_id@).len() == 0,
            },
    {
        proof {
            use_type_invariant(self);
            if self.history@.dom().contains(agent_id@) {
                assert(self.history@[agent_id@]@.len() <= WINDOW);
            }
        }
        self.history.get_text(agent_id)
    }

    /// The present metrics of an agent.
    pub fn metrics(&self, agent_id: &str) -> (m: BehavioralMetrics)
        ensures
            are_metrics(m, self.observations(agent_id@)),
    {
        let neutral = BehavioralMetrics {
            anomaly_score: Score::from_nanos(500_000_000),
            volatility_score: Score::from_nanos(500_000_000),
            escalation_attempts: 0,
            historical_stability: Score::from_nanos(500_000_000),
            recent_failures: 0,
        };
        let history = match self.history(agent_id) {
            Some(h) => h,
            None => {
                return neutral;
            },
        };
        let total: usize = history.len();
        if total == 0 {
            return neutral;
        }
        let start: usize = if total > RECENT {
            total - RECENT
        } else {
            0
        };
        let succeeded: usize = count_successes(history, 0);
        assert(history@.subrange(0, history@.len() as int) =~= history@);
        let recent_succeeded: usize = count_successes(history, start);
        BehavioralMetrics {
            anomaly_score: BehavioralModel::novelty_score(history, start),
            volatility_score: BehavioralModel::volatility(history),
            escalation_attempts: count_escalations(history) as u32,
            historical_stability: ratio_score(succeeded, total),
            recent_failures: (total - start - recent_succeeded) as u32,
        }
    }

    /// How unusual an hour is for an agent.
    pub fn time_anomaly(&self, agent_id: &str, hour: u8) -> (s: Score)
        ensures
            s.nanos == hour_anomaly(self.observations(agent_id@), hour),
    {
        let history = match self.history(agent_id) {
            Some(h) => h,
            None => {
                return Score::from_nanos(500_000_000);
            },
        };
        if history.len() == 0 {
            return Score::from_nanos(500_000_000);
        }
        let n: usize = count_at_hour(history, hour);
        if n == 0 {
            Score::one()
        } else if n * 20 >= history.len() {
            Score::zero()
        } else {
            Score::from_nanos(500_000_000)
        }
    }

    /// The share of recent actions whose verb never appeared earlier in the
    /// window.
    pub fn novelty_score(history: &Vec<ActionObservation>, recent_start_at: usize) -> (s: Score)
        requires
            0 < history@.len() <= WINDOW,
            recent_start_at == recent_start(history@),
        ensures
            s.nanos == novelty(history@),
    {
        if recent_start_at == 0 {
            return Score::from_nanos(500_000_000);
        }
        let n: usize = count_novel(history, recent_start_at);
        ratio_score(n, history.len() - recent_start_at)
    }

    /// The rate of changes between success and failure.
    pub fn volatility(history: &Vec<ActionObservation>) -> (s: Score)
        requires
            history@.len() <= WINDOW,
        ensures
            s.nanos == volatility_of(history@),
    {
        if history.len() < 2 {
            return Score::zero();
        }
        let n: usize = count_flips(history);
        ratio_score(n, history.len() - 1)
    }
}

impl Default for BehavioralModel {
    fn default() -> (m: BehavioralModel)
        ensures
            forall|a: Seq<char>| #[trigger] m.observations(a) == Seq::<ActionObservation>::empty(),
    {
        BehavioralModel::new()
    }
}

/// All ratio metrics lie in `[0, 1]`.
pub proof fn metrics_in_range(m: BehavioralMetrics, h: Seq<ActionObservation>)
    requires
        are_metrics(m, h),
    ensures
        m.anomaly_score.is_unit(),
        m.volatility_score.is_unit(),
        m.historical_stability.is_unit(),
        m.escalation_attempts <= h.len(),
        m.recent_failures <= RECENT,
{
    if h.len() > 0 {
        counts_bounded(h, 0);
        let n = recent_start(h);
        novel_bounded(h, n, h.len() as int);
        share_in_range(successes(h) as int, h.len() as int);
        if h.len() >= 2 {
            share_in_range(flips(h) as int, h.len() - 1);
        }
        if n > 0 {
            share_in_range(novel(h, n, h.len() as int) as int, h.len() - n);
        }
    }
}

proof fn share_in_range(part: int, whole: int)
    requires
        0 <= part <= whole,
        whole > 0,
    ensures
        0 <= ratio(part, whole) <= SCALE,
{
    let x = part * SCALE;
    assert(0 <= x <= whole * SCALE) by (nonlinear_arith)
        requires
            x == part * SCALE,
            0 <= part <= whole,
            SCALE == 1_000_000_000,
    ;
    assert(0 <= x / whole <= SCALE) by (nonlinear_arith)
        requires
            0 <= x <= whole * SCALE,
            whole > 0,
            SCALE == 1_000_000_000,
    ;
}

/// An agent that always succeeds is stable and calm.
pub proof fn constant_success_is_stable(h: Seq<ActionObservation>)
    requires
        forall|i: int| 0 <= i < h.len() ==> (#[trigger] h[i]).succeeded,
    ensures
        successes(h) == h.len(),
        flips(h) == 0,
    decreases h.len(),
{
    if h.len() > 0 {
        let rest = h.drop_last();
        assert forall|i: int| 0 <= i < rest.len() implies (#[trigger] rest[i]).succeeded by {
            assert(h[i].succeeded);
        }
        constant_success_is_stable(rest);
        assert(h[h.len() - 1].succeeded);
        if h.len() > 1 {
            assert(h[h.len() - 2].succeeded);
        }
    }
}

/// Two hundred observations are kept of an agent, and the last twenty count as
/// recent.
pub proof fn windows_of_observation(h: Seq<ActionObservation>)
    ensures
        WINDOW == 200,
        h.len() > 20 ==> h.len() - recent_start(h) == 20,
        h.len() <= 20 ==> recent_start(h) == 0,
{
}

/// How unusual an hour is: unknown without observations, wholly unusual where
/// nothing was seen at it, usual where at least a twentieth of the observations
/// fall on it, and half so in between.
pub proof fn hours_are_judged_by_their_share(h: Seq<ActionObservation>, hour: u8)
    ensures
        h.len() == 0 ==> hour_anomaly(h, hour) == 500_000_000,
        h.len() > 0 && (forall|i: int| 0 <= i < h.len() ==> (#[trigger] h[i]).hour != hour)
            ==> hour_anomaly(h, hour) == 1_000_000_000,
        h.len() > 0 && (forall|i: int| 0 <= i < h.len() ==> (#[trigger] h[i]).hour == hour)
            ==> hour_anomaly(h, hour) == 0,
        hour_anomaly(h, hour) == 0 <==> h.len() > 0 && 20 * at_hour(h, hour) >= h.len() && at_hour(
            h,
            hour,
        ) > 0,
        h.len() > 0 && 0 < 20 * at_hour(h, hour) < h.len() ==> hour_anomaly(h, hour) == 500_000_000,
{
    hours_counted(h, hour);
}

proof fn hours_counted(h: Seq<ActionObservation>, hour: u8)
    ensures
        (forall|i: int| 0 <= i < h.len() ==> (#[trigger] h[i]).hour != hour) ==> at_hour(h, hour)
            == 0,
        (forall|i: int| 0 <= i < h.len() ==> (#[trigger] h[i]).hour == hour) ==> at_hour(h, hour)
            == h.len(),
        at_hour(h, hour) <= h.len(),
    decreases h.len(),
{
    if h.len() > 0 {
        let d = h.drop_last();
        hours_counted(d, hour);
        assert(h.last() == h[h.len() - 1]);
        assert forall|i: int| 0 <= i < d.len() implies #[trigger] d[i] == h[i] by {}
        if forall|i: int| 0 <= i < h.len() ==> (#[trigger] h[i]).hour != hour {
            assert forall|i: int| 0 <= i < d.len() implies (#[trigger] d[i]).hour != hour by {
                assert(h[i].hour != hour);
            }
        }
        if forall|i: int| 0 <= i < h.len() ==> (#[trigger] h[i]).hour == hour {
            assert forall|i: int| 0 <= i < d.len() implies (#[trigger] d[i]).hour == hour by {
                assert(h[i].hour == hour);
            }
        }
    }
}

/// An agent that always succeeds is wholly stable, not volatile and without
/// failures; one that always fails is not stable at all and failed as often as
/// is recent. Of an agent that was never seen nothing is known.
pub proof fn outcomes_show_in_the_metrics(m: BehavioralMetrics, h: Seq<ActionObservation>)
    requires
        are_metrics(m, h),
    ensures
        h.len() == 0 ==> m.anomaly_score.nanos == 500_000_000 && m.volatility_score.nanos
            == 500_000_000 && m.historical_stability.nanos == 500_000_000 && m.recent_failures == 0
            && m.escalation_attempts == 0,
        h.len() > 0 && (forall|i: int| 0 <= i < h.len() ==> (#[trigger] h[i]).succeeded)
            ==> m.historical_stability.nanos == 1_000_000_000 && m.volatility_score.nanos == 0
            && m.recent_failures == 0,
        h.len() > 0 && (forall|i: int| 0 <= i < h.len() ==> !(#[trigger] h[i]).succeeded)
            ==> m.historical_stability.nanos == 0 && m.recent_failures == (if h.len() > 20 {
            20int
        } else {
            h.len() as int
        }),
        0 < h.len() <= 20 ==> m.anomaly_score.nanos == 500_000_000,
{
    if h.len() > 0 {
        let recent = h.subrange(recent_start(h), h.len() as int);
        assert forall|i: int| 0 <= i < recent.len() implies #[trigger] recent[i] == h[i
            + recent_start(h)] by {}
        if forall|i: int| 0 <= i < h.len() ==> (#[trigger] h[i]).succeeded {
            constant_success_is_stable(h);
            assert forall|i: int| 0 <= i < recent.len() implies (#[trigger] recent[i]).succeeded by {
                assert(h[i + recent_start(h)].succeeded);
            }
            constant_success_is_stable(recent);
            let n = h.len() as int;
            assert((n * SCALE) / n == SCALE) by (nonlinear_arith)
                requires
                    n > 0,
            ;
            if n >= 2 {
                assert((0 * SCALE) / (n - 1) == 0) by (nonlinear_arith)
                    requires
                        n >= 2,
                ;
            }
        }
        if forall|i: int| 0 <= i < h.len() ==> !(#[trigger] h[i]).succeeded {
            constant_failure(h);
            assert forall|i: int| 0 <= i < recent.len() implies !(
            #[trigger] recent[i]).succeeded by {
                assert(!h[i + recent_start(h)].succeeded);
            }
            constant_failure(recent);
            let n = h.len() as int;
            assert((0 * SCALE) / n == 0) by (nonlinear_arith)
                requires
                    n > 0,
            ;
        }
    }
}

proof fn constant_failure(h: Seq<ActionObservation>)
    requires
        forall|i: int| 0 <= i < h.len() ==> !(#[trigger] h[i]).succeeded,
    ensures
        successes(h) == 0,
    decreases h.len(),
{
    if h.len() > 0 {
        let d = h.drop_last();
        assert forall|i: int| 0 <= i < d.len() implies !(#[trigger] d[i]).succeeded by {
            assert(!h[i].succeeded);
        }
        constant_failure(d);
        assert(!h[h.len() - 1].succeeded);
    }
}

/// A share is the part of the whole, rounded down: none of it is zero, all of it
/// is one.
pub proof fn shares_are_parts(part: int, whole: int)
    requires
        0 <= part <= whole,
        0 < whole,
    ensures
        ratio(part, whole) * whole <= part * 1_000_000_000 < (ratio(part, whole) + 1) * whole,
        ratio(0, whole) == 0,
        ratio(whole, whole) == 1_000_000_000,
{
    let x = part * 1_000_000_000;
    assert((x / whole) * whole <= x < (x / whole + 1) * whole) by (nonlinear_arith)
        requires
            whole > 0,
    ;
    assert((0 * SCALE) / whole == 0) by (nonlinear_arith)
        requires
            whole > 0,
    ;
    assert((whole * SCALE) / whole == SCALE) by (nonlinear_arith)
        requires
            whole > 0,
    ;
}

/// One more observation counts where it belongs: as a success, as an escalation,
/// at its hour, and as a change where it ends otherwise than the one before.
pub proof fn observations_count(h: Seq<ActionObservation>, o: ActionObservation, hour: u8)
    ensures
        successes(h.push(o)) == successes(h) + (if o.succeeded {
            1int
        } else {
            0
        }),
        escalations(h.push(o)) == escalations(h) + (if o.was_escalation_attempt {
            1int
        } else {
            0
        }),
        at_hour(h.push(o), hour) == at_hour(h, hour) + (if o.hour == hour {
            1int
        } else {
            0
        }),
        h.len() > 0 ==> flips(h.push(o)) == flips(h) + (if o.succeeded != h.last().succeeded {
            1int
        } else {
            0
        }),
        successes(Seq::empty()) == 0,
        escalations(Seq::empty()) == 0,
        at_hour(Seq::empty(), hour) == 0,
        flips(seq![o]) == 0,
{
    assert(h.push(o).drop_last() =~= h);
    reveal_with_fuel(flips, 2);
    reveal_with_fuel(successes, 2);
    reveal_with_fuel(escalations, 2);
}

/// What repeats what was done before the recent past is not novel, and what
/// was never done before is: an agent that only repeats scores zero, and one
/// that only does new things scores one.
pub proof fn repetition_is_not_novel(h: Seq<ActionObservation>)
    requires
        h.len() > 20,
    ensures
        (forall|j: int|
            h.len() - 20 <= j < h.len() ==> exists|i: int|
                0 <= i < h.len() - 20 && (#[trigger] h[i]).action@ == (#[trigger] h[j]).action@)
            ==> novelty(h) == 0,
        (forall|i: int, j: int|
            0 <= i < h.len() - 20 && h.len() - 20 <= j < h.len() ==> (#[trigger] h[i]).action@ != (
            #[trigger] h[j]).action@) ==> novelty(h) == 1_000_000_000,
{
    let n = h.len() - 20;
    let end = h.len() as int;
    if forall|j: int|
        n <= j < h.len() ==> exists|i: int|
            0 <= i < n && (#[trigger] h[i]).action@ == (#[trigger] h[j]).action@ {
        assert forall|j: int| n <= j < end implies seen_before(
            h,
            n,
            (#[trigger] h[j]).action@,
        ) by {
            let i = choose|i: int| 0 <= i < n && (#[trigger] h[i]).action@ == h[j].action@;
            assert(h[i].action@ == h[j].action@);
        }
        novel_counts(h, n, end);
        shares_are_parts(0, 20);
    }
    if forall|i: int, j: int|
        0 <= i < n && n <= j < h.len() ==> (#[trigger] h[i]).action@ != (
        #[trigger] h[j]).action@ {
        assert forall|j: int| n <= j < end implies !seen_before(
            h,
            n,
            (#[trigger] h[j]).action@,
        ) by {}
        novel_counts(h, n, end);
        shares_are_parts(20, 20);
    }
}

proof fn novel_counts(h: Seq<ActionObservation>, n: int, end: int)
    requires
        0 <= n <= end <= h.len(),
    ensures
        (forall|j: int| n <= j < end ==> seen_before(h, n, (#[trigger] h[j]).action@)) ==> novel(
            h,
            n,
            end,
        ) == 0,
        (forall|j: int| n <= j < end ==> !seen_before(h, n, (#[trigger] h[j]).action@)) ==> novel(
            h,
            n,
            end,
        ) == end - n,
    decreases end - n,
{
    if n < end {
        novel_counts(h, n, end - 1);
        let last = h[end - 1];
    }
}

/// The metrics of an agent that was seen: its escalations are counted, and its
/// stability and volatility are shares of its outcomes and of its changes.
pub proof fn metrics_are_shares(m: BehavioralMetrics, h: Seq<ActionObservation>)
    requires
        are_metrics(m, h),
        h.len() >= 2,
    ensures
        m.escalation_attempts == escalations(h),
        m.historical_stability.nanos == (successes(h) * 1_000_000_000) as int / (h.len() as int),
        m.volatility_score.nanos == (flips(h) * 1_000_000_000) as int / (h.len() - 1),
{
}

} // verus!
