//! A hard cap on how deeply an agent may re-enter HAL evaluation, and a rate
//! limit on how often.
//!
//! Entering hands out a guard; giving the guard back lowers the depth again.

use vstd::prelude::*;
use vstd::string::StringExecFns;

use crate::clock;
use crate::clock::Timestamp;
use crate::sequences;
use crate::table::Table;
use crate::text;

verus! {

/// An agent identifier.
pub type AgentId = String;

/// Default maximum recursion depth.
pub const DEFAULT_MAX_DEPTH: u32 = 8;

/// Default sliding window for rate limiting, in seconds.
pub const DEFAULT_WINDOW_SECS: u64 = 1;

/// Default maximum number of entries permitted within the window.
pub const DEFAULT_WINDOW_MAX_ENTRIES: u32 = 64;

/// Errors returned by the recursion limiter.
#[derive(Clone, Debug, PartialEq, Eq)]
pub enum RecursionError {
    /// The agent has exceeded the maximum permitted recursion depth.
    MaxDepthExceeded {
        /// Agent that exceeded the depth.
        agent: AgentId,
        /// Current depth at the point of refusal.
        depth: u32,
        /// Configured maximum.
        max: u32,
    },
    /// The agent has entered HAL too many times within the rate-limit window.
    RateLimited {
        /// Agent that was rate limited.
        agent: AgentId,
        /// Number of entries observed in the window.
        count: u32,
        /// Window length in seconds.
        window_secs: u64,
    },
    /// A loop was detected (same agent re-entering with identical arguments).
    LoopDetected {
        /// Agent that triggered loop detection.
        agent: AgentId,
    },
}

/// The text of an error.
pub open spec fn error_text(e: RecursionError) -> Seq<char> {
    match e {
        RecursionError::MaxDepthExceeded { agent, depth, max } =>
        "max recursion depth exceeded for agent "@ + agent@ + ": depth "@ + text::decimal_digits(
            depth as nat,
        ) + " >= max "@ + text::decimal_digits(max as nat),
        RecursionError::RateLimited { agent, count, window_secs } => "rate limited for agent "@
            + agent@ + ": "@ + text::decimal_digits(count as nat) + " entries in "@
            + text::decimal_digits(window_secs as nat) + "s"@,
        RecursionError::LoopDetected { agent } => "recursion loop detected for agent "@ + agent@,
    }
}

impl RecursionError {
    /// The error as one line.
    pub fn to_text(&self) -> (t: String)
        ensures
            t@ == error_text(*self),
    {
        match self {
            RecursionError::MaxDepthExceeded { agent, depth, max } => {
                let mut t = String::from_str("max recursion depth exceeded for agent ");
                t.append(agent.as_str());
                t.append(": depth ");
                let d = text::decimal(*depth as u64);
                t.append(d.as_str());
                t.append(" >= max ");
                let m = text::decimal(*max as u64);
                t.append(m.as_str());
                t
            },
            RecursionError::RateLimited { agent, count, window_secs } => {
                let mut t = String::from_str("rate limited for agent ");
                t.append(agent.as_str());
                t.append(": ");
                let c = text::decimal(*count as u64);
                t.append(c.as_str());
                t.append(" entries in ");
                let w = text::decimal(*window_secs);
                t.append(w.as_str());
                t.append("s");
                t
            },
            RecursionError::LoopDetected { agent } => String::from_str(
                "recursion loop detected for agent ",
            ).concat(agent.as_str()),
        }
    }
}

/// A proof that an agent is inside HAL evaluation at one level of recursion.
#[derive(Debug)]
pub struct RecursionGuard {
    /// Agent this guard is for.
    agent: AgentId,
}

impl RecursionGuard {
    /// The agent that the guard is for.
    pub closed spec fn holder(&self) -> Seq<char> {
        self.agent@
    }

    /// Gives the guard back: the agent's depth is one less, unless it is zero.
    pub fn release(self, limiter: &mut RecursionLimiter)
        ensures
            final(limiter).depths()@ == left(old(limiter).depths()@, self.holder()),
            final(limiter).entry_times() == old(limiter).entry_times(),
            final(limiter).same_config(*old(limiter)),
            old(limiter).within_cap() ==> final(limiter).within_cap(),
    {
        limiter.leave(&self.agent);
    }
}

/// Whole seconds of a window, as a signed 64-bit number.
pub open spec fn signed_secs(window_secs: u64) -> int {
    if window_secs <= i64::MAX {
        window_secs as int
    } else {
        window_secs - 0x1_0000_0000_0000_0000
    }
}

/// Whether an entry still counts at a time.
pub open spec fn counts_at(t: Timestamp, now: Timestamp, window_secs: u64) -> bool {
    clock::seconds_between(t, now) < signed_secs(window_secs)
}

/// The entries that still count at a time, in order.
pub open spec fn recent(entries: Seq<Timestamp>, now: Timestamp, window_secs: u64) -> Seq<
    Timestamp,
> {
    entries.filter(|t: Timestamp| counts_at(t, now, window_secs))
}

/// The depths after an agent left one level.
pub open spec fn left(depth: Map<Seq<char>, u32>, agent: Seq<char>) -> Map<Seq<char>, u32> {
    if depth.dom().contains(agent) && depth[agent] > 0 {
        depth.insert(agent, (depth[agent] - 1) as u32)
    } else {
        depth
    }
}

/// The entries of an agent, none where it is unknown.
pub open spec fn entries_of(m: Map<Seq<char>, Vec<Timestamp>>, agent: Seq<char>) -> Seq<Timestamp> {
    if m.dom().contains(agent) {
        m[agent]@
    } else {
        Seq::empty()
    }
}

/// Whether the entries of one agent are replaced and all others stay.
pub open spec fn entries_become(
    before: Map<Seq<char>, Vec<Timestamp>>,
    after: Map<Seq<char>, Vec<Timestamp>>,
    agent: Seq<char>,
    entries: Seq<Timestamp>,
) -> bool {
    &&& after.dom().contains(agent)
    &&& after[agent]@ == entries
    &&& after == before.insert(agent, after[agent])
}

/// Per-agent recursion depth and rate limiter.
#[derive(Debug)]
pub struct RecursionLimiter {
    /// Per-agent current recursion depth (number of guards that are out).
    depth: Table<AgentId, u32>,
    /// Maximum permitted recursion depth.
    max_depth: u32,
    /// Sliding window length for rate limiting, in seconds.
    window_secs: u64,
    /// Per-agent entry timestamps, for windowed rate limiting.
    recent_entries: Table<AgentId, Vec<Timestamp>>,
    /// Maximum number of entries permitted within the window.
    window_max_entries: u32,
}

fn keep_recent(entries: &Vec<Timestamp>, now: Timestamp, window_secs: u64) -> (r: Vec<Timestamp>)
    ensures
        r@ == recent(entries@, now, window_secs),
{
    let ghost f = |t: Timestamp| counts_at(t, now, window_secs);
    let mut r: Vec<Timestamp> = Vec::new();
    let mut i: usize = 0;
    assert(entries@.take(0).filter(f) =~= Seq::<Timestamp>::empty()) by {
        reveal(Seq::filter);
    }
    while i < entries.len()
        invariant
            i <= entries@.len(),
            f == (|t: Timestamp| counts_at(t, now, window_secs)),
            r@ == entries@.take(i as int).filter(f),
        decreases entries@.len() - i,
    {
        proof {
            sequences::filter_next(entries@, f, i as int);
        }
        let age: i64 = now.seconds_since(&entries[i]);
        let counts: bool = if window_secs <= 0x7fff_ffff_ffff_ffff {
            age < window_secs as i64
        } else {
            (age as i128) < window_secs as i128 - 0x1_0000_0000_0000_0000
        };
        if counts {
            r.push(entries[i]);
        }
        i += 1;
    }
    assert(entries@.take(entries@.len() as int) =~= entries@);
    r
}

impl RecursionLimiter {
    /// The length of the sliding window, in seconds.
    pub closed spec fn window_length(&self) -> u64 {
        self.window_secs
    }

    /// The current depth by agent.
    pub closed spec fn depths(&self) -> Table<AgentId, u32> {
        self.depth
    }

    /// The maximum permitted depth.
    pub closed spec fn depth_cap(&self) -> u32 {
        self.max_depth
    }

    /// The entry times by agent.
    pub closed spec fn entry_times(&self) -> Table<AgentId, Vec<Timestamp>> {
        self.recent_entries
    }

    /// The number of entries permitted within the window.
    pub closed spec fn rate_cap(&self) -> u32 {
        self.window_max_entries
    }

    /// Whether two limiters have the same limits.
    pub open spec fn same_config(&self, other: RecursionLimiter) -> bool {
        self.depth_cap() == other.depth_cap() && self.window_length() == other.window_length()
            && self.rate_cap() == other.rate_cap()
    }

    /// The depth of an agent, zero where it is unknown.
    pub open spec fn depth_of(&self, agent: Seq<char>) -> u32 {
        if self.depths()@.dom().contains(agent) {
            self.depths()@[agent]
        } else {
            0
        }
    }

    /// Whether no agent is deeper than the maximum.
    pub open spec fn within_cap(&self) -> bool {
        forall|a: Seq<char>| #[trigger] self.depth_of(a) <= self.depth_cap()
    }

    /// Whether no more entries of an agent are remembered than the window
    /// permits.
    pub open spec fn within_rate(&self) -> bool {
        forall|a: Seq<char>| (#[trigger] entries_of(self.entry_times()@, a)).len()
            <= self.rate_cap()
    }

    /// The entries of an agent that count at a time.
    pub open spec fn recent_of(&self, agent: Seq<char>, now: Timestamp) -> Seq<Timestamp> {
        recent(entries_of(self.entry_times()@, agent), now, self.window_length())
    }

    /// What entering at a time comes to: a refusal at the depth cap, a refusal
    /// where too many entries of the agent still count, and otherwise a guard.
    pub open spec fn enter_outcome(
        &self,
        after: RecursionLimiter,
        r: Result<RecursionGuard, RecursionError>,
        agent: Seq<char>,
        now: Timestamp,
    ) -> bool {
        let depth = self.depth_of(agent);
        let kept = self.recent_of(agent, now);
        if depth >= self.depth_cap() {
            &&& r matches Err(RecursionError::MaxDepthExceeded { agent: a, depth: d, max })
            &&& a@ == agent && d == depth && max == self.depth_cap()
            &&& after == *self
        } else if kept.len() as u32 >= self.rate_cap() {
            &&& r matches Err(RecursionError::RateLimited { agent: a, count, window_secs })
            &&& a@ == agent && count == kept.len() as u32 && window_secs == self.window_length()
            &&& after.depths() == self.depths()
            &&& entries_become(self.entry_times()@, after.entry_times()@, agent, kept)
        } else {
            &&& r matches Ok(guard) && guard.holder() == agent
            &&& after.depths()@ == self.depths()@.insert(agent, (depth + 1) as u32)
            &&& entries_become(self.entry_times()@, after.entry_times()@, agent, kept.push(now))
        }
    }

    /// Whether nobody entered yet.
    pub open spec fn is_fresh(&self) -> bool {
        self.depths()@ == Map::<Seq<char>, u32>::empty() && self.entry_times()@ == Map::<
            Seq<char>,
            Vec<Timestamp>,
        >::empty()
    }

    /// A limiter with default limits.
    pub fn new() -> (l: RecursionLimiter)
        ensures
            l.is_fresh(),
            l.within_cap(),
            l.within_rate(),
            l.depth_cap() == DEFAULT_MAX_DEPTH,
            l.window_length() == DEFAULT_WINDOW_SECS,
            l.rate_cap() == DEFAULT_WINDOW_MAX_ENTRIES,
    {
        RecursionLimiter::with_config(DEFAULT_MAX_DEPTH, DEFAULT_WINDOW_SECS)
    }

    /// A limiter with a maximum depth and a window in seconds.
    pub fn with_config(max_depth: u32, window_secs: u64) -> (l: RecursionLimiter)
        ensures
            l.is_fresh(),
            l.within_cap(),
            l.within_rate(),
            l.depth_cap() == max_depth,
            l.window_length() == window_secs,
            l.rate_cap() == DEFAULT_WINDOW_MAX_ENTRIES,
    {
        RecursionLimiter {
            depth: Table::new(),
            max_depth,
            window_secs,
            recent_entries: Table::new(),
            window_max_entries: DEFAULT_WINDOW_MAX_ENTRIES,
        }
    }

    /// Enters HAL evaluation for an agent at a time. It is refused at the depth
    /// cap, or where too many entries of the agent lie within the window.
    pub fn enter_at(&mut self, agent: &AgentId, now: Timestamp) -> (r: Result<
        RecursionGuard,
        RecursionError,
    >)
        ensures
            final(self).same_config(*old(self)),
            old(self).enter_outcome(*final(self), r, agent@, now),
            old(self).within_cap() ==> final(self).within_cap(),
            old(self).within_rate() ==> final(self).within_rate(),
    {
        let current: u32 = self.current_depth(agent);
        if current >= self.max_depth {
            return Err(
                RecursionError::MaxDepthExceeded {
                    agent: agent.clone(),
                    depth: current,
                    max: self.max_depth,
                },
            );
        }
        let mut kept = match self.recent_entries.get(agent) {
            Some(entries) => keep_recent(entries, now, self.window_secs),
            None => {
                assert(recent(Seq::<Timestamp>::empty(), now, self.window_secs) =~= Seq::<
                    Timestamp,
                >::empty()) by {
                    reveal(Seq::filter);
                }
                Vec::new()
            },
        };
        proof {
            sequences::filter_shrinks(
                entries_of(self.entry_times()@, agent@),
                |t: Timestamp| counts_at(t, now, self.window_secs),
            );
        }
        let ghost still = kept@;
        let count: u32 = kept.len() as u32;
        if count >= self.window_max_entries {
            self.recent_entries.insert(agent.clone(), kept);
            proof {
                entered(*old(self), *self, agent@, still);
            }
            return Err(
                RecursionError::RateLimited {
                    agent: agent.clone(),
                    count,
                    window_secs: self.window_secs,
                },
            );
        }
        kept.push(now);
        self.recent_entries.insert(agent.clone(), kept);
        self.depth.insert(agent.clone(), current + 1);
        proof {
            entered(*old(self), *self, agent@, still.push(now));
        }
        Ok(RecursionGuard { agent: agent.clone() })
    }

    /// Enters HAL evaluation for an agent now.
    pub fn enter(&mut self, agent: &AgentId) -> (r: Result<RecursionGuard, RecursionError>)
        ensures
            final(self).same_config(*old(self)),
            exists|now: Timestamp| #[trigger]
                old(self).enter_outcome(*final(self), r, agent@, now),
            old(self).depth_of(agent@) < old(self).depth_cap() && entries_of(
                old(self).entry_times()@,
                agent@,
            ).len() < old(self).rate_cap() ==> r is Ok,
            old(self).within_cap() ==> final(self).within_cap(),
            old(self).within_rate() ==> final(self).within_rate(),
    {
        let now = Timestamp::now();
        proof {
            sequences::filter_shrinks(
                entries_of(self.entry_times()@, agent@),
                |t: Timestamp| counts_at(t, now, self.window_secs),
            );
        }
        self.enter_at(agent, now)
    }

    /// Lowers the depth of an agent by one, unless it is zero.
    pub fn leave(&mut self, agent: &AgentId)
        ensures
            final(self).depths()@ == left(old(self).depths()@, agent@),
            final(self).entry_times() == old(self).entry_times(),
            final(self).same_config(*old(self)),
            old(self).within_cap() ==> final(self).within_cap(),
    {
        let current: u32 = self.current_depth(agent);
        if current > 0 {
            self.depth.insert(agent.clone(), current - 1);
            proof {
                if old(self).within_cap() {
                    assert forall|a: Seq<char>| #[trigger] self.depth_of(a) <= self.depth_cap() by {
                        assert(old(self).depth_of(a) <= old(self).depth_cap());
                    }
                }
            }
        }
    }

    /// Current recursion depth of an agent, zero where it is unknown.
    pub fn current_depth(&self, agent: &AgentId) -> (d: u32)
        ensures
            d == self.depth_of(agent@),
    {
        match self.depth.get(agent) {
            Some(d) => *d,
            None => 0,
        }
    }

    /// Number of agents that ever entered.
    pub fn tracked_agents(&self) -> (n: usize)
        ensures
            n == self.depths()@.dom().len(),
    {
        self.depth.len()
    }
}

impl Default for RecursionLimiter {
    fn default() -> (l: RecursionLimiter)
        ensures
            l.is_fresh(),
            l.within_cap(),
            l.within_rate(),
            l.depth_cap() == DEFAULT_MAX_DEPTH,
            l.window_length() == DEFAULT_WINDOW_SECS,
            l.rate_cap() == DEFAULT_WINDOW_MAX_ENTRIES,
    {
        RecursionLimiter::new()
    }
}

/// Configuration of a [`RecursionLimiter`].
#[derive(Clone, Copy, Debug, PartialEq, Eq, Structural)]
pub struct RecursionLimiterConfig {
    /// Maximum permitted recursion depth.
    pub max_depth: u32,
    /// Sliding window length for rate limiting, in seconds.
    pub window_secs: u64,
    /// Maximum number of entries permitted within the window.
    pub window_max_entries: u32,
}

impl Default for RecursionLimiterConfig {
    fn default() -> (c: RecursionLimiterConfig)
        ensures
            c.max_depth == DEFAULT_MAX_DEPTH,
            c.window_secs == DEFAULT_WINDOW_SECS,
            c.window_max_entries == DEFAULT_WINDOW_MAX_ENTRIES,
    {
        RecursionLimiterConfig {
            max_depth: DEFAULT_MAX_DEPTH,
            window_secs: DEFAULT_WINDOW_SECS,
            window_max_entries: DEFAULT_WINDOW_MAX_ENTRIES,
        }
    }
}

/// What an entry keeps: depths within the cap, and entries within the rate.
proof fn entered(
    before: RecursionLimiter,
    after: RecursionLimiter,
    agent: Seq<char>,
    entries: Seq<Timestamp>,
)
    requires
        after.same_config(before),
        after.depths()@ == before.depths()@ || (before.depth_of(agent) < before.depth_cap() && after.depths()@
            == before.depths()@.insert(agent, (before.depth_of(agent) + 1) as u32)),
        entries_become(before.entry_times()@, after.entry_times()@, agent, entries),
        before.within_rate() ==> entries.len() <= before.rate_cap(),
    ensures
        before.within_cap() ==> after.within_cap(),
        before.within_rate() ==> after.within_rate(),
{
    if before.within_cap() {
        assert forall|a: Seq<char>| #[trigger] after.depth_of(a) <= after.depth_cap() by {
            assert(before.depth_of(a) <= before.depth_cap());
        }
    }
    if before.within_rate() {
        assert forall|a: Seq<char>| (#[trigger] entries_of(after.entry_times()@, a)).len()
            <= after.rate_cap() by {
            assert(entries_of(before.entry_times()@, a).len() <= before.rate_cap());
        }
    }
}

/// Giving a guard back undoes the entry: every agent is as deep as before.
pub proof fn release_undoes_enter(before: RecursionLimiter, after: RecursionLimiter, agent: Seq<char>)
    requires
        before.depth_of(agent) < before.depth_cap(),
        after.depths()@ == left(
            before.depths()@.insert(agent, (before.depth_of(agent) + 1) as u32),
            agent,
        ),
    ensures
        forall|a: Seq<char>| #[trigger] after.depth_of(a) == before.depth_of(a),
{
}

/// By default an agent nests eight deep and enters sixty-four times in a second.
pub proof fn default_limits()
    ensures
        DEFAULT_MAX_DEPTH == 8,
        DEFAULT_WINDOW_SECS == 1,
        DEFAULT_WINDOW_MAX_ENTRIES == 64,
{
}

/// An entry counts while less than the window has passed since.
pub proof fn entries_count_within_the_window(t: Timestamp, now: Timestamp, window_secs: u64)
    requires
        window_secs <= i64::MAX,
        now.nanos >= t.nanos,
    ensures
        counts_at(t, now, window_secs) <==> now.nanos - t.nanos < window_secs * 1_000_000_000,
{
}

/// An agent enters exactly where it is neither too deep nor too often there;
/// then it is one deeper, and nobody else is. A refusal changes no depth.
pub proof fn entering_counts(
    before: RecursionLimiter,
    after: RecursionLimiter,
    r: Result<RecursionGuard, RecursionError>,
    agent: Seq<char>,
    other: Seq<char>,
    now: Timestamp,
)
    requires
        before.enter_outcome(after, r, agent, now),
        other != agent,
    ensures
        r is Ok <==> before.depth_of(agent) < before.depth_cap() && (before.recent_of(
            agent,
            now,
        ).len() as u32) < before.rate_cap(),
        r is Ok ==> after.depth_of(agent) == before.depth_of(agent) + 1,
        r is Err ==> after.depth_of(agent) == before.depth_of(agent),
        after.depth_of(other) == before.depth_of(other),
        r is Ok ==> entries_of(after.entry_times()@, agent).len() == before.recent_of(
            agent,
            now,
        ).len() + 1,
        r is Ok ==> entries_of(after.entry_times()@, agent).last() == now,
        r matches Err(e) ==> e is MaxDepthExceeded || e is RateLimited,
        (r matches Err(e) && e is MaxDepthExceeded) <==> before.depth_of(agent)
            >= before.depth_cap(),
{
}

/// How a refusal is worded.
pub proof fn refusals_are_worded(e: RecursionError)
    ensures
        e is MaxDepthExceeded ==> error_text(e) == "max recursion depth exceeded for agent "@
            + e->MaxDepthExceeded_agent@ + ": depth "@ + text::decimal_digits(e->depth as nat)
            + " >= max "@ + text::decimal_digits(e->max as nat),
        e is RateLimited ==> error_text(e) == "rate limited for agent "@ + e->RateLimited_agent@
            + ": "@ + text::decimal_digits(e->count as nat) + " entries in "@
            + text::decimal_digits(e->window_secs as nat) + "s"@,
        e is LoopDetected ==> error_text(e) == "recursion loop detected for agent "@
            + e->LoopDetected_agent@,
{
}

/// Leaving takes one level off, never below zero, and off nobody else; who never
/// entered cannot leave.
pub proof fn leaving_takes_one_off(depth: Map<Seq<char>, u32>, agent: Seq<char>, other: Seq<char>)
    requires
        other != agent,
    ensures
        left(depth, agent).dom() == depth.dom(),
        depth.dom().contains(agent) && depth[agent] > 0 ==> left(depth, agent)[agent]
            == depth[agent] - 1,
        depth.dom().contains(agent) && depth[agent] == 0 ==> left(depth, agent)[agent] == 0,
        left(depth, agent)[other] == depth[other],
{
    assert(left(depth, agent).dom() =~= depth.dom());
}

/// A refusal names the agent, and how deep or how often it was there and may be.
pub proof fn refusals_give_the_numbers(
    before: RecursionLimiter,
    after: RecursionLimiter,
    r: Result<RecursionGuard, RecursionError>,
    agent: Seq<char>,
    now: Timestamp,
)
    requires
        before.enter_outcome(after, r, agent, now),
    ensures
        r matches Ok(guard) ==> guard.holder() == agent,
        r matches Err(RecursionError::MaxDepthExceeded { agent: a, depth, max }) ==> a@ == agent
            && depth == before.depth_of(agent) && max == before.depth_cap() && depth >= max,
        r matches Err(RecursionError::RateLimited { agent: a, count, window_secs }) ==> a@ == agent
            && count == before.recent_of(agent, now).len() as u32 && window_secs
            == before.window_length() && count >= before.rate_cap(),
{
}

/// In a new limiter nobody is anywhere.
pub proof fn new_limiters_are_empty(l: RecursionLimiter, agent: Seq<char>, now: Timestamp)
    requires
        l.is_fresh(),
    ensures
        l.depth_of(agent) == 0,
        entries_of(l.entry_times()@, agent).len() == 0,
{
}

} // verus!
