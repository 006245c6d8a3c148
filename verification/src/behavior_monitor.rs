//! Real-time per-agent behaviour monitoring.
//!
//! Counts system calls, file and network operations per agent over a rolling
//! window and smooths their rates.

use vstd::prelude::*;

use crate::clock;
use crate::clock::Timestamp;
use crate::score;
use crate::score::div_floor;
use crate::score::unit_score;
use crate::score::Score;
use crate::score::SCALE;
use crate::table;
use crate::table::Table;

verus! {

/// An agent identifier.
pub type AgentId = String;

/// Length of the rolling window in seconds.
pub const WINDOW_SECS: i64 = 60;

/// A single observed behaviour event from an agent.
#[derive(Clone, Copy, Debug, PartialEq, Eq, Structural, Hash)]
pub enum BehaviorEvent {
    /// A syscall was made.
    Syscall,
    /// A file operation was performed (open, read, write, move, delete).
    FileOp,
    /// A network operation was performed (connect, send, recv).
    NetOp,
    /// A HAL-tracked capability was exercised.
    CapabilityUse,
}

/// Rolling per-agent behaviour state.
#[derive(Clone, Copy, Debug, PartialEq, Eq, Structural)]
pub struct AgentBehavior {
    /// Smoothed syscalls per second.
    pub syscall_rate: Score,
    /// Smoothed file operations per second.
    pub file_ops_rate: Score,
    /// Smoothed network operations per second.
    pub net_ops_rate: Score,
    /// Aggregate anomaly score in `[0, 1]`.
    pub anomaly_score: Score,
    /// Start of the current rolling window.
    pub last_window: Timestamp,
    /// Syscalls in the current window.
    pub syscall_count: u64,
    /// File operations in the current window.
    pub file_op_count: u64,
    /// Network operations in the current window.
    pub net_op_count: u64,
    /// Capability uses in the current window.
    pub capability_count: u64,
}

/// Events per second, in billionths, up to the greatest score.
pub open spec fn rate_of(count: int, secs: int) -> int {
    score::min_int((count * SCALE) / secs, i64::MAX as int)
}

/// One smoothing step: a fifth of the sample and four fifths of the old value.
pub open spec fn smoothed(old_rate: int, sample: int) -> int {
    (20 * sample + 80 * old_rate) / 100
}

/// The anomaly of the rates in a window, in billionths.
pub open spec fn window_anomaly(syscalls: int, files: int, net: int) -> int {
    score::unit_clamp((syscalls + 10 * files + 20 * net) / 100)
}

/// The state of an agent that was never seen, at a time.
pub open spec fn fresh_behavior(now: Timestamp) -> AgentBehavior {
    AgentBehavior {
        syscall_rate: Score { nanos: 0 },
        file_ops_rate: Score { nanos: 0 },
        net_ops_rate: Score { nanos: 0 },
        anomaly_score: Score { nanos: 0 },
        last_window: now,
        syscall_count: 0,
        file_op_count: 0,
        net_op_count: 0,
        capability_count: 0,
    }
}

/// The state after the window is rolled over at a time, where it is over.
pub open spec fn rolled(b: AgentBehavior, now: Timestamp) -> AgentBehavior {
    let secs = clock::seconds_between(b.last_window, now);
    if secs < WINDOW_SECS {
        b
    } else {
        let s = rate_of(b.syscall_count as int, secs);
        let f = rate_of(b.file_op_count as int, secs);
        let n = rate_of(b.net_op_count as int, secs);
        AgentBehavior {
            syscall_rate: Score { nanos: smoothed(b.syscall_rate.nanos as int, s) as i64 },
            file_ops_rate: Score { nanos: smoothed(b.file_ops_rate.nanos as int, f) as i64 },
            net_ops_rate: Score { nanos: smoothed(b.net_ops_rate.nanos as int, n) as i64 },
            anomaly_score: Score { nanos: window_anomaly(s, f, n) as i64 },
            last_window: now,
            syscall_count: 0,
            file_op_count: 0,
            net_op_count: 0,
            capability_count: 0,
        }
    }
}

/// Whether the states of all agents are rolled over at a time.
pub open spec fn all_rolled(
    before: Map<Seq<char>, AgentBehavior>,
    after: Map<Seq<char>, AgentBehavior>,
    now: Timestamp,
) -> bool {
    after.dom() == before.dom() && forall|a: Seq<char>|
        before.dom().contains(a) ==> #[trigger] after[a] == rolled(before[a], now)
}

/// The count of an event's kind.
pub open spec fn count_of(b: AgentBehavior, event: BehaviorEvent) -> u64 {
    match event {
        BehaviorEvent::Syscall => b.syscall_count,
        BehaviorEvent::FileOp => b.file_op_count,
        BehaviorEvent::NetOp => b.net_op_count,
        BehaviorEvent::CapabilityUse => b.capability_count,
    }
}

/// The state with one more event of a kind.
pub open spec fn counted(b: AgentBehavior, event: BehaviorEvent) -> AgentBehavior {
    let n = (count_of(b, event) + 1) as u64;
    match event {
        BehaviorEvent::Syscall => AgentBehavior { syscall_count: n, ..b },
        BehaviorEvent::FileOp => AgentBehavior { file_op_count: n, ..b },
        BehaviorEvent::NetOp => AgentBehavior { net_op_count: n, ..b },
        BehaviorEvent::CapabilityUse => AgentBehavior { capability_count: n, ..b },
    }
}

fn rate(count: u64, secs: i64) -> (r: i64)
    requires
        secs > 0,
    ensures
        r == rate_of(count as int, secs as int),
        r >= 0,
{
    assert(0 <= count * SCALE <= 18_446_744_073_709_551_615_000_000_000) by (nonlinear_arith)
        requires
            0 <= count <= 18_446_744_073_709_551_615,
            SCALE == 1_000_000_000,
    ;
    let q: i128 = div_floor(count as i128 * SCALE as i128, secs as i128);
    proof {
        let a = count * SCALE;
        let b = secs as int;
        assert(a / b >= 0) by (nonlinear_arith)
            requires
                a >= 0,
                b > 0,
        ;
    }
    if q > i64::MAX as i128 {
        i64::MAX
    } else {
        q as i64
    }
}

/// One step of exponential smoothing.
pub fn ewma(old_rate: Score, sample: Score) -> (s: Score)
    ensures
        s.nanos == smoothed(old_rate.nanos as int, sample.nanos as int),
{
    let q: i128 = div_floor(20 * sample.nanos as i128 + 80 * old_rate.nanos as i128, 100);
    Score::from_nanos(q as i64)
}

impl AgentBehavior {
    /// The state of an agent that was never seen, at a time.
    pub fn at(now: Timestamp) -> (b: AgentBehavior)
        ensures
            b == fresh_behavior(now),
    {
        AgentBehavior {
            syscall_rate: Score::zero(),
            file_ops_rate: Score::zero(),
            net_ops_rate: Score::zero(),
            anomaly_score: Score::zero(),
            last_window: now,
            syscall_count: 0,
            file_op_count: 0,
            net_op_count: 0,
            capability_count: 0,
        }
    }

    /// Counts an event at a time, after rolling the window over.
    pub fn observe_at(&mut self, event: BehaviorEvent, now: Timestamp)
        requires
            count_of(*old(self), event) < u64::MAX,
        ensures
            *final(self) == counted(rolled(*old(self), now), event),
    {
        self.maybe_rollover_at(now);
        match event {
            BehaviorEvent::Syscall => {
                self.syscall_count = self.syscall_count + 1;
            },
            BehaviorEvent::FileOp => {
                self.file_op_count = self.file_op_count + 1;
            },
            BehaviorEvent::NetOp => {
                self.net_op_count = self.net_op_count + 1;
            },
            BehaviorEvent::CapabilityUse => {
                self.capability_count = self.capability_count + 1;
            },
        }
    }

    /// Counts an event now.
    pub fn observe(&mut self, event: BehaviorEvent)
        requires
            count_of(*old(self), event) < u64::MAX,
        ensures
            exists|now: Timestamp|
                *final(self) == counted(#[trigger] rolled(*old(self), now), event),
    {
        let now = Timestamp::now();
        self.observe_at(event, now);
        assert(*self == counted(rolled(*old(self), now), event));
    }

    /// Rolls the window over at a time, where it is over: the rates are
    /// smoothed with those of the window, and the counts start anew.
    pub fn maybe_rollover_at(&mut self, now: Timestamp)
        ensures
            *final(self) == rolled(*old(self), now),
    {
        let elapsed: i64 = now.seconds_since(&self.last_window);
        if elapsed < WINDOW_SECS {
            return;
        }
        let syscalls: i64 = rate(self.syscall_count, elapsed);
        let files: i64 = rate(self.file_op_count, elapsed);
        let net: i64 = rate(self.net_op_count, elapsed);
        let anomaly = unit_score(
            div_floor(syscalls as i128 + 10 * files as i128 + 20 * net as i128, 100),
        );
        *self = AgentBehavior {
            syscall_rate: ewma(self.syscall_rate, Score::from_nanos(syscalls)),
            file_ops_rate: ewma(self.file_ops_rate, Score::from_nanos(files)),
            net_ops_rate: ewma(self.net_ops_rate, Score::from_nanos(net)),
            anomaly_score: anomaly,
            last_window: now,
            syscall_count: 0,
            file_op_count: 0,
            net_op_count: 0,
            capability_count: 0,
        };
    }

    /// Rolls the window over now, where it is over.
    pub fn maybe_rollover(&mut self)
        ensures
            exists|now: Timestamp| *final(self) == #[trigger] rolled(*old(self), now),
    {
        self.maybe_rollover_at(Timestamp::now());
    }
}

impl Default for AgentBehavior {
    fn default() -> (b: AgentBehavior)
        ensures
            b == fresh_behavior(b.last_window),
    {
        AgentBehavior::at(Timestamp::now())
    }
}

/// The behaviour monitor.
#[derive(Debug)]
pub struct BehaviorMonitor {
    /// The state by agent.
    agents: Table<AgentId, AgentBehavior>,
}

impl Default for BehaviorMonitor {
    fn default() -> (m: BehaviorMonitor)
        ensures
            m.behaviors()@ == Map::<Seq<char>, AgentBehavior>::empty(),
    {
        BehaviorMonitor { agents: Table::new() }
    }
}

impl BehaviorMonitor {
    /// The behavior by agent.
    pub closed spec fn behaviors(&self) -> Table<AgentId, AgentBehavior> {
        self.agents
    }

    /// The state of an agent at a time: a fresh one where it was never seen.
    pub open spec fn state(&self, agent: Seq<char>, now: Timestamp) -> AgentBehavior {
        if self.behaviors()@.dom().contains(agent) {
            self.behaviors()@[agent]
        } else {
            fresh_behavior(now)
        }
    }

    /// An empty monitor.
    pub fn new() -> (m: BehaviorMonitor)
        ensures
            m.behaviors()@ == Map::<Seq<char>, AgentBehavior>::empty(),
    {
        BehaviorMonitor::default()
    }

    /// Counts an event of an agent at a time.
    pub fn observe_at(&mut self, agent: &AgentId, event: BehaviorEvent, now: Timestamp)
        requires
            count_of(old(self).state(agent@, now), event) < u64::MAX,
        ensures
            final(self).behaviors()@ == old(self).behaviors()@.insert(
                agent@,
                counted(rolled(old(self).state(agent@, now), now), event),
            ),
    {
        let mut b = match self.agents.get(agent) {
            Some(b) => *b,
            None => AgentBehavior::at(now),
        };
        b.observe_at(event, now);
        self.agents.insert(agent.clone(), b);
    }

    /// Counts an event of an agent now.
    pub fn observe(&mut self, agent: &AgentId, event: BehaviorEvent)
        requires
            old(self).behaviors()@.dom().contains(agent@) ==> count_of(
                old(self).behaviors()@[agent@],
                event,
            ) < u64::MAX,
        ensures
            exists|now: Timestamp|
                final(self).behaviors()@ == old(self).behaviors()@.insert(
                    agent@,
                    counted(rolled(#[trigger] old(self).state(agent@, now), now), event),
                ),
    {
        let now = Timestamp::now();
        self.observe_at(agent, event, now);
        assert(self.agents@ == old(self).agents@.insert(
            agent@,
            counted(rolled(old(self).state(agent@, now), now), event),
        ));
    }

    /// The anomaly score of an agent; zero where it is unknown.
    pub fn anomaly_score(&self, agent: &AgentId) -> (s: Score)
        ensures
            s.nanos == (if self.behaviors()@.dom().contains(agent@) {
                self.behaviors()@[agent@].anomaly_score.nanos as int
            } else {
                0
            }),
    {
        match self.agents.get(agent) {
            Some(b) => b.anomaly_score,
            None => Score::zero(),
        }
    }

    /// The full state of an agent.
    pub fn behavior_of(&self, agent: &AgentId) -> (r: Option<&AgentBehavior>)
        ensures
            match r {
                Some(b) => self.behaviors()@.dom().contains(agent@) && *b == self.behaviors()@[agent@],
                None => !self.behaviors()@.dom().contains(agent@),
            },
    {
        self.agents.get(agent)
    }

    /// Rolls the windows of all agents over at a time, where they are over.
    pub fn rollover_all_at(&mut self, now: Timestamp)
        ensures
            all_rolled(old(self).behaviors()@, final(self).behaviors()@, now),
    {
        let ghost before = self.agents@;
        let ghost ids = self.agents.ids();
        let n: usize = self.agents.len();
        proof {
            table::order_lists_keys(self.agents);
        }
        let mut i: usize = 0;
        while i < n
            invariant
                n == ids.len(),
                i <= n,
                self.agents.ids() == ids,
                ids.no_duplicates(),
                ids.to_set() == before.dom(),
                self.agents@.dom() == before.dom(),
                forall|j: int|
                    0 <= j < i ==> self.agents@[#[trigger] ids[j]] == rolled(before[ids[j]], now),
                forall|j: int| i <= j < n ==> self.agents@[#[trigger] ids[j]] == before[ids[j]],
            decreases n - i,
        {
            let key = self.agents.key_at(i).clone();
            let mut b = *self.agents.value_at(i);
            b.maybe_rollover_at(now);
            assert(self.agents@.dom().contains(key@));
            let ghost mid = self.agents@;
            self.agents.insert(key, b);
            assert(self.agents@.dom() =~= before.dom());
            i += 1;
        }
        assert forall|a: Seq<char>| before.dom().contains(a) implies #[trigger] self.agents@[a]
            == rolled(before[a], now) by {
            assert(ids.to_set().contains(a));
            let j = choose|j: int| 0 <= j < ids.len() && ids[j] == a;
            assert(ids[j] == a);
        }
    }

    /// Rolls the windows of all agents over now, where they are over.
    pub fn rollover_all(&mut self)
        ensures
            exists|now: Timestamp| #[trigger]
                all_rolled(old(self).behaviors()@, final(self).behaviors()@, now),
    {
        self.rollover_all_at(Timestamp::now());
    }
}

/// The anomaly score of a window lies in `[0, 1]`, and a smoothed rate between
/// the old one and the sample.
pub proof fn monitor_values_in_range(old_rate: int, sample: int, s: int, f: int, n: int)
    ensures
        0 <= window_anomaly(s, f, n) <= SCALE,
        score::min_int(old_rate, sample) <= smoothed(old_rate, sample) <= score::max_int(
            old_rate,
            sample,
        ),
{
}

/// Before a window is over nothing but the counts changes.
pub proof fn quiet_within_the_window(b: AgentBehavior, event: BehaviorEvent, now: Timestamp)
    requires
        clock::seconds_between(b.last_window, now) < WINDOW_SECS,
    ensures
        ({
            let after = counted(rolled(b, now), event);
            after.syscall_rate == b.syscall_rate && after.file_ops_rate == b.file_ops_rate
                && after.net_ops_rate == b.net_ops_rate && after.anomaly_score == b.anomaly_score
                && after.last_window == b.last_window
        }),
{
}

/// A rate is the count per second, rounded down.
pub proof fn rates_are_per_second(count: int, secs: int)
    requires
        0 <= count,
        0 < secs,
        (count * 1_000_000_000) / secs <= i64::MAX,
    ensures
        rate_of(count, secs) * secs <= count * 1_000_000_000 < (rate_of(count, secs) + 1) * secs,
{
    let x = count * 1_000_000_000;
    assert((x / secs) * secs <= x < (x / secs + 1) * secs) by (nonlinear_arith)
        requires
            secs > 0,
    ;
}

/// The new rate is one part the sample and four parts the old one.
pub proof fn a_fifth_is_new(old_rate: int, sample: int)
    ensures
        sample + 4 * old_rate - 5 < 5 * smoothed(old_rate, sample) <= sample + 4 * old_rate,
{
}

/// A hundred system calls a second are wholly anomalous, and so are ten file
/// operations or five network operations; less is so in proportion.
pub proof fn anomaly_fills_up(syscalls: int, files: int, net: int)
    requires
        0 <= syscalls,
        0 <= files,
        0 <= net,
    ensures
        syscalls >= 100_000_000_000 ==> window_anomaly(syscalls, files, net) == 1_000_000_000,
        files >= 10_000_000_000 ==> window_anomaly(syscalls, files, net) == 1_000_000_000,
        net >= 5_000_000_000 ==> window_anomaly(syscalls, files, net) == 1_000_000_000,
        syscalls < 100_000_000_000 ==> window_anomaly(syscalls, 0, 0) == syscalls / 100,
        files < 10_000_000_000 ==> window_anomaly(0, files, 0) == files / 10,
        net < 5_000_000_000 ==> window_anomaly(0, 0, net) == net / 5,
{
}

/// After a minute the counts are turned into rates and start again; before, a
/// window keeps what it has.
pub proof fn windows_last_a_minute(b: AgentBehavior, now: Timestamp)
    ensures
        clock::seconds_between(b.last_window, now) < 60 ==> rolled(b, now) == b,
        clock::seconds_between(b.last_window, now) >= 60 ==> {
            let r = rolled(b, now);
            &&& r.last_window == now
            &&& r.syscall_count == 0 && r.file_op_count == 0 && r.net_op_count == 0
                && r.capability_count == 0
        },
{
}

/// An event counts once, in the count of its own kind.
pub proof fn events_count_once(b: AgentBehavior, event: BehaviorEvent)
    requires
        count_of(b, event) < u64::MAX,
    ensures
        ({
            let a = counted(b, event);
            &&& a.syscall_count - b.syscall_count == (if event is Syscall { 1int } else { 0 })
            &&& a.file_op_count - b.file_op_count == (if event is FileOp { 1int } else { 0 })
            &&& a.net_op_count - b.net_op_count == (if event is NetOp { 1int } else { 0 })
            &&& a.capability_count - b.capability_count == (if event is CapabilityUse {
                1int
            } else {
                0
            })
            &&& a.syscall_rate == b.syscall_rate && a.file_ops_rate == b.file_ops_rate
                && a.net_ops_rate == b.net_ops_rate && a.anomaly_score == b.anomaly_score
                && a.last_window == b.last_window
        }),
{
}

} // verus!
