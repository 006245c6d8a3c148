//! Reconstruction of past system state from the audit chain.
//!
//! A replay materializes the events of a time range; a snapshot sums up what
//! the chain holds up to a moment.

use vstd::prelude::*;

use crate::audit_chain::AuditChain;
use crate::audit_chain::ChainedEntry;
use crate::clock::Timestamp;
use crate::score;
use crate::score::max_i64;
use crate::score::Score;
use crate::sequences;
use crate::table::Table;
use crate::text;

verus! {

/// Nanoseconds in an hour.
pub const HOUR_NANOS: i64 = 3_600_000_000_000;

/// A single event materialized during a replay window.
#[derive(Clone, Debug)]
pub struct ReplayEvent {
    /// Sequence number from the audit chain.
    pub seq: u64,
    /// Timestamp of the audit entry.
    pub ts: Timestamp,
    /// Acting agent.
    pub agent: String,
    /// Action performed.
    pub action: String,
    /// HAL risk score at the time (if recorded).
    pub hal_score: Option<Score>,
    /// HAL level at the time (if recorded).
    pub hal_level: Option<String>,
}

/// Whether an event is what a chained entry says.
pub open spec fn is_event_of(e: ReplayEvent, c: ChainedEntry) -> bool {
    &&& e.seq == c.seq
    &&& e.ts == c.entry.ts
    &&& e.agent@ == c.entry.agent@
    &&& e.action@ == c.entry.action@
    &&& e.hal_score == c.entry.hal_score
    &&& text::opt_text(e.hal_level) == text::opt_text(c.entry.hal_level)
}

impl ReplayEvent {
    /// The event of a chained audit entry.
    pub fn from_chained(chained: &ChainedEntry) -> (e: ReplayEvent)
        ensures
            is_event_of(e, *chained),
    {
        ReplayEvent {
            seq: chained.seq,
            ts: chained.entry.ts,
            agent: chained.entry.agent.clone(),
            action: chained.entry.action.clone(),
            hal_score: chained.entry.hal_score,
            hal_level: match &chained.entry.hal_level {
                Some(l) => Some(l.clone()),
                None => None,
            },
        }
    }
}

/// A summary of the HAL-relevant state at a point in time.
#[derive(Debug)]
pub struct SystemSnapshot {
    /// The timestamp this snapshot corresponds to.
    pub at: Timestamp,
    /// Per-agent action counts up to `at`.
    pub agent_action_counts: Table<String, u64>,
    /// Last action performed by each agent (if any) up to `at`.
    pub last_action_per_agent: Table<String, ReplayEvent>,
    /// Highest HAL score observed in the hour up to `at`.
    pub peak_score_last_hour: Option<Score>,
    /// Number of HAL-confirm-or-block actions in the last hour.
    pub confirm_or_block_last_hour: u64,
}

/// A flagged anomaly found during a forensic replay.
#[derive(Clone, Debug)]
pub struct Anomaly {
    /// Timestamp at which the anomaly was detected.
    pub ts: Timestamp,
    /// Categorical type of the anomaly (e.g. "burst", "novel_path").
    pub kind: String,
    /// Severity in `[0, 1]`.
    pub severity: Score,
    /// Human-readable description suitable for an incident report.
    pub description: String,
    /// Sequence numbers of the entries that triggered the detection.
    pub evidence_seqs: Vec<u64>,
}

/// A replay window specification.
#[derive(Clone, Debug)]
pub struct ReplayWindow {
    /// Inclusive start.
    pub from: Timestamp,
    /// Inclusive end.
    pub to: Timestamp,
    /// Optional agent filter.
    pub agent: Option<String>,
}

/// Whether an entry lies in a time range, both ends counted.
pub open spec fn in_range(c: ChainedEntry, from: Timestamp, to: Timestamp) -> bool {
    from.nanos <= c.entry.ts.nanos <= to.nanos
}

/// The entries of a time range, in order.
pub open spec fn entries_between(
    entries: Seq<ChainedEntry>,
    from: Timestamp,
    to: Timestamp,
) -> Seq<ChainedEntry> {
    entries.filter(|c: ChainedEntry| in_range(c, from, to))
}

/// Whether a sequence holds the events of some entries, one by one.
pub open spec fn are_events(events: Seq<ReplayEvent>, entries: Seq<ChainedEntry>) -> bool {
    events.len() == entries.len() && forall|i: int|
        0 <= i < events.len() ==> is_event_of(#[trigger] events[i], entries[i])
}

/// The entries before the first one that is later than a time.
pub open spec fn up_to(entries: Seq<ChainedEntry>, at: Timestamp) -> Seq<ChainedEntry>
    decreases entries.len(),
{
    if entries.len() == 0 || entries[0].entry.ts.nanos > at.nanos {
        Seq::empty()
    } else {
        seq![entries[0]] + up_to(entries.drop_first(), at)
    }
}

/// The number of actions of an agent.
pub open spec fn actions_by(entries: Seq<ChainedEntry>, agent: Seq<char>) -> nat
    decreases entries.len(),
{
    if entries.len() == 0 {
        0
    } else {
        actions_by(entries.drop_last(), agent) + (if entries.last().entry.agent@ == agent {
            1nat
        } else {
            0nat
        })
    }
}

/// The last entry of an agent.
pub open spec fn last_by(entries: Seq<ChainedEntry>, agent: Seq<char>) -> Option<ChainedEntry>
    decreases entries.len(),
{
    if entries.len() == 0 {
        None
    } else if entries.last().entry.agent@ == agent {
        Some(entries.last())
    } else {
        last_by(entries.drop_last(), agent)
    }
}

/// Whether an entry lies in the hour up to a time; its start does not count.
pub open spec fn in_last_hour(c: ChainedEntry, at: Timestamp) -> bool {
    c.entry.ts.nanos > at.nanos - HOUR_NANOS
}

/// The greater of a score, where there is one, and another.
pub open spec fn peak_with(peak: Option<int>, score: int) -> int {
    match peak {
        None => score,
        Some(p) => score::max_int(p, score),
    }
}

/// The highest score in the hour up to a time.
pub open spec fn peak_score(entries: Seq<ChainedEntry>, at: Timestamp) -> Option<int>
    decreases entries.len(),
{
    if entries.len() == 0 {
        None
    } else {
        let before = peak_score(entries.drop_last(), at);
        match entries.last().entry.hal_score {
            Some(s) => if in_last_hour(entries.last(), at) {
                Some(peak_with(before, s.nanos as int))
            } else {
                before
            },
            None => before,
        }
    }
}

/// Whether an entry was confirmed or blocked.
pub open spec fn confirm_or_block(c: ChainedEntry) -> bool {
    text::opt_text(c.entry.hal_level) == Some("confirm"@) || text::opt_text(c.entry.hal_level)
        == Some("block"@)
}

/// The number of entries confirmed or blocked in the hour up to a time.
pub open spec fn confirms_and_blocks(entries: Seq<ChainedEntry>, at: Timestamp) -> nat
    decreases entries.len(),
{
    if entries.len() == 0 {
        0
    } else {
        confirms_and_blocks(entries.drop_last(), at) + (if in_last_hour(entries.last(), at)
            && confirm_or_block(entries.last()) {
            1nat
        } else {
            0nat
        })
    }
}

/// Whether counts are those of the agents that acted.
pub open spec fn counts_match(counts: Map<Seq<char>, u64>, entries: Seq<ChainedEntry>) -> bool {
    forall|a: Seq<char>|
        (#[trigger] counts.dom().contains(a) <==> actions_by(entries, a) > 0) && (
        counts.dom().contains(a) ==> counts[a] == actions_by(entries, a))
}

/// Whether events are the last ones of the agents that acted.
pub open spec fn last_match(last: Map<Seq<char>, ReplayEvent>, entries: Seq<ChainedEntry>) -> bool {
    forall|a: Seq<char>| #[trigger]
        last.dom().contains(a) == last_by(entries, a) is Some && (last.dom().contains(a)
            ==> is_event_of(last[a], last_by(entries, a)->0))
}

/// The value of an optional score in billionths.
pub open spec fn opt_nanos(s: Option<Score>) -> Option<int> {
    match s {
        Some(s) => Some(s.nanos as int),
        None => None,
    }
}

/// Whether a snapshot sums up some entries at a time.
pub open spec fn sums_up(s: SystemSnapshot, entries: Seq<ChainedEntry>, at: Timestamp) -> bool {
    &&& s.at == at
    &&& counts_match(s.agent_action_counts@, entries)
    &&& last_match(s.last_action_per_agent@, entries)
    &&& opt_nanos(s.peak_score_last_hour) == peak_score(entries, at)
    &&& s.confirm_or_block_last_hour == confirms_and_blocks(entries, at)
}

/// An agent's actions are at most as many as there are entries.
proof fn actions_bounded(entries: Seq<ChainedEntry>, agent: Seq<char>)
    ensures
        actions_by(entries, agent) <= entries.len(),
    decreases entries.len(),
{
    if entries.len() > 0 {
        actions_bounded(entries.drop_last(), agent);
    }
}

/// What was confirmed or blocked is at most as much as there is.
proof fn confirms_bounded(entries: Seq<ChainedEntry>, at: Timestamp)
    ensures
        confirms_and_blocks(entries, at) <= entries.len(),
    decreases entries.len(),
{
    if entries.len() > 0 {
        confirms_bounded(entries.drop_last(), at);
    }
}

/// The entries up to a time are the first `n`, where those are not later and
/// the next one, if any, is.
proof fn up_to_is(entries: Seq<ChainedEntry>, at: Timestamp, n: int)
    requires
        0 <= n <= entries.len(),
        forall|i: int| 0 <= i < n ==> (#[trigger] entries[i]).entry.ts.nanos <= at.nanos,
        n < entries.len() ==> entries[n].entry.ts.nanos > at.nanos,
    ensures
        up_to(entries, at) == entries.take(n),
    decreases n,
{
    if n == 0 {
        assert(entries.take(0) =~= Seq::<ChainedEntry>::empty());
    } else {
        let rest = entries.drop_first();
        assert forall|i: int| 0 <= i < n - 1 implies (#[trigger] rest[i]).entry.ts.nanos
            <= at.nanos by {
            assert(rest[i] == entries[i + 1]);
        }
        up_to_is(rest, at, n - 1);
        assert(entries[0].entry.ts.nanos <= at.nanos);
        assert(seq![entries[0]] + rest.take(n - 1) =~= entries.take(n));
    }
}

/// The forensic replay engine over an audit chain.
#[derive(Debug)]
pub struct ForensicReplay {
    /// The chain that is replayed.
    chain: AuditChain,
}

impl ForensicReplay {
    /// The chain that is replayed.
    pub closed spec fn replayed(&self) -> AuditChain {
        self.chain
    }

    /// A replay engine over an audit chain.
    pub fn new(chain: AuditChain) -> (r: ForensicReplay)
        ensures
            r.replayed() == chain,
    {
        ForensicReplay { chain }
    }

    /// The underlying chain.
    pub fn chain(&self) -> (c: &AuditChain)
        ensures
            *c == self.replayed(),
    {
        &self.chain
    }

    /// The events of a time range, both ends counted, in the order of the
    /// chain.
    pub fn replay_range(&self, from: Timestamp, to: Timestamp) -> (r: Vec<ReplayEvent>)
        ensures
            are_events(r@, entries_between(self.replayed().links()@, from, to)),
    {
        let entries = self.chain.entries();
        let ghost f = |c: ChainedEntry| in_range(c, from, to);
        let mut r: Vec<ReplayEvent> = Vec::new();
        let mut i: usize = 0;
        assert(entries@.take(0).filter(f) =~= Seq::<ChainedEntry>::empty()) by {
            reveal(Seq::filter);
        }
        while i < entries.len()
            invariant
                i <= entries@.len(),
                f == (|c: ChainedEntry| in_range(c, from, to)),
                are_events(r@, entries@.take(i as int).filter(f)),
            decreases entries@.len() - i,
        {
            let chained = &entries[i];
            proof {
                sequences::filter_next(entries@, f, i as int);
            }
            if chained.entry.ts.nanos >= from.nanos && chained.entry.ts.nanos <= to.nanos {
                r.push(ReplayEvent::from_chained(chained));
            }
            i += 1;
        }
        assert(entries@.take(entries@.len() as int) =~= entries@);
        r
    }

    /// A summary of the state at a time: of the entries before the first one
    /// that is later.
    pub fn reconstruct_state(&self, at: Timestamp) -> (s: SystemSnapshot)
        ensures
            sums_up(s, up_to(self.replayed().links()@, at), at),
    {
        let entries = self.chain.entries();
        let mut counts: Table<String, u64> = Table::new();
        let mut last: Table<String, ReplayEvent> = Table::new();
        let mut peak: Option<Score> = None;
        let mut confirms: u64 = 0;
        let hour_ago: i128 = at.nanos as i128 - HOUR_NANOS as i128;
        let mut i: usize = 0;
        assert(entries@.take(0).len() == 0);
        while i < entries.len() && entries[i].entry.ts.nanos <= at.nanos
            invariant
                i <= entries@.len(),
                hour_ago == at.nanos - HOUR_NANOS,
                forall|j: int| 0 <= j < i ==> (#[trigger] entries@[j]).entry.ts.nanos <= at.nanos,
                counts_match(counts@, entries@.take(i as int)),
                last_match(last@, entries@.take(i as int)),
                opt_nanos(peak) == peak_score(entries@.take(i as int), at),
                confirms == confirms_and_blocks(entries@.take(i as int), at),
            decreases entries@.len() - i,
        {
            let chained = &entries[i];
            let ghost prefix = entries@.take(i as int);
            let ghost next = entries@.take(i + 1);
            proof {
                assert(next.drop_last() =~= prefix);
                assert(next.last() == *chained);
                actions_bounded(prefix, chained.entry.agent@);
                confirms_bounded(prefix, at);
            }
            let seen: u64 = match counts.get(&chained.entry.agent) {
                Some(n) => *n,
                None => 0,
            };
            assert(seen == actions_by(prefix, chained.entry.agent@));
            counts.insert(chained.entry.agent.clone(), seen + 1);
            last.insert(chained.entry.agent.clone(), ReplayEvent::from_chained(chained));
            if chained.entry.ts.nanos as i128 > hour_ago {
                match chained.entry.hal_score {
                    Some(score) => {
                        peak = Some(
                            match peak {
                                Some(p) => Score::from_nanos(max_i64(p.nanos, score.nanos)),
                                None => score,
                            },
                        );
                    },
                    None => {},
                }
                match &chained.entry.hal_level {
                    Some(level) => {
                        if text::same_text(level.as_str(), "confirm") || text::same_text(
                            level.as_str(),
                            "block",
                        ) {
                            confirms += 1;
                        }
                    },
                    None => {},
                }
            }
            i += 1;
        }
        proof {
            up_to_is(entries@, at, i as int);
        }
        SystemSnapshot {
            at,
            agent_action_counts: counts,
            last_action_per_agent: last,
            peak_score_last_hour: peak,
            confirm_or_block_last_hour: confirms,
        }
    }

    /// The anomalies of a window; no detection heuristic exists, so there are
    /// none.
    pub fn find_anomalies(&self, _window: ReplayWindow) -> (r: Vec<Anomaly>)
        ensures
            r@ == Seq::<Anomaly>::empty(),
    {
        Vec::new()
    }
}

/// A chain in order of time is summed up whole: the entries up to a time are
/// exactly those that are not later.
pub proof fn ordered_history_is_whole(entries: Seq<ChainedEntry>, at: Timestamp)
    requires
        forall|i: int, j: int|
            0 <= i <= j < entries.len() ==> (#[trigger] entries[i]).entry.ts.nanos <= (
            #[trigger] entries[j]).entry.ts.nanos,
    ensures
        up_to(entries, at) == entries.filter(|c: ChainedEntry| c.entry.ts.nanos <= at.nanos),
    decreases entries.len(),
{
    let f = |c: ChainedEntry| c.entry.ts.nanos <= at.nanos;
    if entries.len() == 0 {
        reveal(Seq::filter);
    } else {
        let d = entries.drop_last();
        assert forall|i: int, j: int| 0 <= i <= j < d.len() implies (
        #[trigger] d[i]).entry.ts.nanos <= (#[trigger] d[j]).entry.ts.nanos by {
            assert(d[i] == entries[i] && d[j] == entries[j]);
        }
        ordered_history_is_whole(d, at);
        reveal(Seq::filter);
        up_to_snoc(entries, at);
    }
}

/// The entries up to a time, by the last entry of a chain in order of time.
proof fn up_to_snoc(entries: Seq<ChainedEntry>, at: Timestamp)
    requires
        entries.len() > 0,
        forall|i: int, j: int|
            0 <= i <= j < entries.len() ==> (#[trigger] entries[i]).entry.ts.nanos <= (
            #[trigger] entries[j]).entry.ts.nanos,
    ensures
        up_to(entries, at) == (if entries.last().entry.ts.nanos <= at.nanos {
            up_to(entries.drop_last(), at).push(entries.last())
        } else {
            up_to(entries.drop_last(), at)
        }),
{
    let n = entries.len() as int;
    let d = entries.drop_last();
    let last = entries[n - 1];
    if last.entry.ts.nanos <= at.nanos {
        assert forall|i: int| 0 <= i < n implies (#[trigger] entries[i]).entry.ts.nanos
            <= at.nanos by {
            assert(entries[i].entry.ts.nanos <= entries[n - 1].entry.ts.nanos);
        }
        up_to_is(entries, at, n);
        assert forall|i: int| 0 <= i < n - 1 implies (#[trigger] d[i]).entry.ts.nanos
            <= at.nanos by {
            assert(d[i] == entries[i]);
        }
        up_to_is(d, at, n - 1);
        assert(entries.take(n) =~= d.take(n - 1).push(last));
    } else {
        let k = first_later(entries, at, 0);
        up_to_is(entries, at, k);
        assert forall|i: int| 0 <= i < k implies (#[trigger] d[i]).entry.ts.nanos <= at.nanos by {
            assert(d[i] == entries[i]);
        }
        if k < n - 1 {
            assert(d[k] == entries[k]);
        }
        up_to_is(d, at, k);
        assert(entries.take(k) =~= d.take(k));
    }
}

/// The place of the first entry later than a time.
proof fn first_later(entries: Seq<ChainedEntry>, at: Timestamp, from: int) -> (k: int)
    requires
        0 <= from < entries.len(),
        entries.last().entry.ts.nanos > at.nanos,
        forall|i: int| 0 <= i < from ==> (#[trigger] entries[i]).entry.ts.nanos <= at.nanos,
    ensures
        0 <= k < entries.len(),
        entries[k].entry.ts.nanos > at.nanos,
        forall|i: int| 0 <= i < k ==> (#[trigger] entries[i]).entry.ts.nanos <= at.nanos,
    decreases entries.len() - from,
{
    if entries[from].entry.ts.nanos > at.nanos {
        from
    } else {
        first_later(entries, at, from + 1)
    }
}

/// What counts as recent is what is less than an hour old.
pub proof fn recent_is_the_last_hour(c: ChainedEntry, at: Timestamp)
    ensures
        in_last_hour(c, at) <==> at.nanos - c.entry.ts.nanos < 60 * 60 * 1_000_000_000,
{
}

/// The peak of the last hour is a score of an entry of that hour, and none of
/// them is higher; without a score in that hour there is none.
pub proof fn peak_is_the_highest(entries: Seq<ChainedEntry>, at: Timestamp)
    ensures
        forall|i: int|
            0 <= i < entries.len() && at.nanos - (#[trigger] entries[i]).entry.ts.nanos
                < 3_600_000_000_000 && entries[i].entry.hal_score is Some ==> peak_score(
                entries,
                at,
            ) is Some && entries[i].entry.hal_score->0.nanos <= peak_score(entries, at)->0,
        peak_score(entries, at) matches Some(p) ==> exists|i: int|
            0 <= i < entries.len() && at.nanos - (#[trigger] entries[i]).entry.ts.nanos
                < 3_600_000_000_000 && entries[i].entry.hal_score is Some
                && entries[i].entry.hal_score->0.nanos == p,
    decreases entries.len(),
{
    if entries.len() > 0 {
        let d = entries.drop_last();
        let n = entries.len() - 1;
        peak_is_the_highest(d, at);
        assert(entries.last() == entries[n]);
        assert forall|i: int|
            0 <= i < entries.len() && at.nanos - (#[trigger] entries[i]).entry.ts.nanos
                < 3_600_000_000_000 && entries[i].entry.hal_score is Some implies peak_score(
            entries,
            at,
        ) is Some && entries[i].entry.hal_score->0.nanos <= peak_score(entries, at)->0 by {
            if i < n {
                assert(d[i] == entries[i]);
            }
        }
        if peak_score(entries, at) is Some {
            let p = peak_score(entries, at)->0;
            if peak_score(d, at) == Some(p) {
                let i = choose|i: int|
                    0 <= i < d.len() && at.nanos - (#[trigger] d[i]).entry.ts.nanos
                        < 3_600_000_000_000 && d[i].entry.hal_score is Some
                        && d[i].entry.hal_score->0.nanos == p;
                assert(entries[i] == d[i]);
            }
        }
    }
}

/// Confirmations and blocks are counted by their level, and nothing else is:
/// with none of the last hour the count is zero, and one more adds one.
pub proof fn confirmations_and_blocks_are_counted(
    entries: Seq<ChainedEntry>,
    c: ChainedEntry,
    at: Timestamp,
)
    ensures
        confirms_and_blocks(Seq::empty(), at) == 0,
        confirms_and_blocks(entries.push(c), at) == confirms_and_blocks(entries, at) + (if (
        c.entry.hal_level is Some && (c.entry.hal_level->0@ == "confirm"@ || c.entry.hal_level->0@
            == "block"@)) && at.nanos - c.entry.ts.nanos < 3_600_000_000_000 {
            1int
        } else {
            0
        }),
{
    assert(entries.push(c).drop_last() =~= entries);
}

/// Every action of an agent counts once, and its last one is the last.
pub proof fn agents_are_counted(entries: Seq<ChainedEntry>, c: ChainedEntry, agent: Seq<char>)
    ensures
        actions_by(Seq::empty(), agent) == 0,
        actions_by(entries.push(c), agent) == actions_by(entries, agent) + (if c.entry.agent@
            == agent {
            1int
        } else {
            0
        }),
        c.entry.agent@ == agent ==> last_by(entries.push(c), agent) == Some(c),
        c.entry.agent@ != agent ==> last_by(entries.push(c), agent) == last_by(entries, agent),
{
    assert(entries.push(c).drop_last() =~= entries);
}

/// A replayed event is what the entry was: its number, time, agent, action,
/// score and level. What is replayed between two times is what happened between
/// them, both ends included, and nothing else.
pub proof fn replays_are_faithful(
    events: Seq<ReplayEvent>,
    entries: Seq<ChainedEntry>,
    from: Timestamp,
    to: Timestamp,
    i: int,
)
    requires
        are_events(events, entries_between(entries, from, to)),
    ensures
        0 <= i < events.len() ==> from.nanos <= events[i].ts.nanos <= to.nanos && exists|k: int|
            0 <= k < entries.len() && (#[trigger] entries[k]).seq == events[i].seq
                && entries[k].entry.ts == events[i].ts && entries[k].entry.agent@
                == events[i].agent@ && entries[k].entry.action@ == events[i].action@
                && entries[k].entry.hal_score == events[i].hal_score && text::opt_text(
                entries[k].entry.hal_level,
            ) == text::opt_text(events[i].hal_level),
        0 <= i < entries.len() && from.nanos <= entries[i].entry.ts.nanos <= to.nanos ==> exists|
            k: int,
        |
            0 <= k < events.len() && (#[trigger] events[k]).seq == entries[i].seq
                && events[k].action@ == entries[i].entry.action@,
        events.len() <= entries.len(),
{
    let f = |c: ChainedEntry| in_range(c, from, to);
    let kept = entries.filter(f);
    sequences::filter_shrinks(entries, f);
    if 0 <= i < events.len() {
        assert(is_event_of(events[i], kept[i]));
        assert(kept.contains(kept[i]));
        entries.lemma_filter_contains_rev(f, kept[i]);
        entries.lemma_filter_pred(f, i);
        let k = choose|k: int| 0 <= k < entries.len() && entries[k] == kept[i];
        assert(entries[k].seq == events[i].seq);
    }
    if 0 <= i < entries.len() && from.nanos <= entries[i].entry.ts.nanos <= to.nanos {
        entries.lemma_filter_contains(f, i);
        assert(kept.contains(entries[i]));
        let k = choose|k: int| 0 <= k < kept.len() && kept[k] == entries[i];
        assert(is_event_of(events[k], kept[k]));
    }
}

/// A summary counts the actions of every agent that acted, and of no other; it
/// tells the last one, the peak and the confirmations of the last hour.
pub proof fn summaries_tell(
    s: SystemSnapshot,
    entries: Seq<ChainedEntry>,
    at: Timestamp,
    agent: Seq<char>,
)
    requires
        sums_up(s, entries, at),
    ensures
        s.at == at,
        actions_by(entries, agent) > 0 <==> s.agent_action_counts@.dom().contains(agent),
        s.agent_action_counts@.dom().contains(agent) ==> s.agent_action_counts@[agent]
            == actions_by(entries, agent),
        last_by(entries, agent) is Some <==> s.last_action_per_agent@.dom().contains(agent),
        s.last_action_per_agent@.dom().contains(agent) ==> {
            let e = s.last_action_per_agent@[agent];
            let c = last_by(entries, agent)->0;
            e.seq == c.seq && e.ts == c.entry.ts && e.agent@ == c.entry.agent@ && e.action@
                == c.entry.action@ && e.hal_score == c.entry.hal_score
        },
        s.peak_score_last_hour is None <==> peak_score(entries, at) is None,
        s.peak_score_last_hour is Some ==> peak_score(entries, at) == Some(
            s.peak_score_last_hour->0.nanos as int,
        ),
        s.confirm_or_block_last_hour == confirms_and_blocks(entries, at),
{
}

} // verus!
