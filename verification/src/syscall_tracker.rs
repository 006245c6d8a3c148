//! Per-agent syscall profiles: how often which tracked syscall was seen, and
//! how many of them were dangerous.

use vstd::prelude::*;
use vstd::string::StringExecFns;

use crate::score::div_floor;
use crate::score::Score;
use crate::score::SCALE;
use crate::table;
use crate::table::Key;
use crate::table::Table;
use crate::text;

verus! {

/// An agent identifier.
pub type AgentId = String;

/// The syscalls that HAL tracks. The list is closed.
#[derive(Clone, Copy, Debug, PartialEq, Eq, Structural, Hash)]
pub enum SyscallNo {
    /// `open(2)`: file open.
    Open,
    /// `openat(2)`: file open relative to a directory.
    OpenAt,
    /// `unlink(2)` / `unlinkat(2)`: file delete.
    Unlink,
    /// `rmdir(2)`: directory delete.
    Rmdir,
    /// `execve(2)` / `execveat(2)`: execute a program.
    Execve,
    /// `fork(2)`: create child process (legacy).
    Fork,
    /// `clone(2)` / `clone3(2)`: create child process or thread.
    Clone,
    /// `connect(2)`: initiate a TCP/UDP connection.
    Connect,
    /// `bind(2)`: bind a socket (listen for inbound).
    Bind,
    /// `listen(2)`: mark socket as passive.
    Listen,
    /// `accept(2)` / `accept4(2)`: accept inbound connection.
    Accept,
    /// `socket(2)`: create a socket.
    Socket,
    /// `mount(2)`: mount a filesystem (kernel-level).
    Mount,
    /// `chroot(2)`: change root directory.
    Chroot,
    /// `setuid(2)` / `setgid(2)`: change credentials.
    Setuid,
    /// `ptrace(2)`: process tracing (powerful).
    Ptrace,
    /// `init_module(2)` / `finit_module(2)`: load kernel module.
    InitModule,
}

impl Key for SyscallNo {
    type Id = SyscallNo;

    open spec fn id(&self) -> SyscallNo {
        *self
    }

    fn same(&self, other: &Self) -> (r: bool) {
        *self == *other
    }
}

/// Whether a syscall is dangerous: irreversible or with a system-wide blast
/// radius. Opening files and creating sockets are not.
pub open spec fn dangerous(s: SyscallNo) -> bool {
    !(s == SyscallNo::Open || s == SyscallNo::OpenAt || s == SyscallNo::Socket)
}

impl SyscallNo {
    /// Whether this syscall is dangerous.
    pub fn is_dangerous(&self) -> (r: bool)
        ensures
            r == dangerous(*self),
    {
        match self {
            SyscallNo::Unlink => true,
            SyscallNo::Rmdir => true,
            SyscallNo::Execve => true,
            SyscallNo::Fork => true,
            SyscallNo::Clone => true,
            SyscallNo::Connect => true,
            SyscallNo::Bind => true,
            SyscallNo::Listen => true,
            SyscallNo::Accept => true,
            SyscallNo::Mount => true,
            SyscallNo::Chroot => true,
            SyscallNo::Setuid => true,
            SyscallNo::Ptrace => true,
            SyscallNo::InitModule => true,
            SyscallNo::Open => false,
            SyscallNo::OpenAt => false,
            SyscallNo::Socket => false,
        }
    }
}

/// Per-agent syscall profile, accumulated over a window.
#[derive(Debug)]
pub struct SyscallProfile {
    /// Per-syscall observation counts.
    pub counts: Table<SyscallNo, u64>,
    /// Total number of dangerous syscalls observed.
    pub dangerous_calls: u64,
    /// Total number of all syscalls observed.
    pub total_calls: u64,
}

/// The count of a syscall, zero where it was never seen.
pub open spec fn count_in(counts: Map<SyscallNo, u64>, s: SyscallNo) -> int {
    if counts.dom().contains(s) {
        counts[s] as int
    } else {
        0
    }
}

/// The observations of dangerous syscalls.
pub open spec fn dangerous_sum(c: Map<SyscallNo, u64>) -> int {
    count_in(c, SyscallNo::Unlink) + count_in(c, SyscallNo::Rmdir) + count_in(c, SyscallNo::Execve)
        + count_in(c, SyscallNo::Fork) + count_in(c, SyscallNo::Clone) + count_in(
        c,
        SyscallNo::Connect,
    ) + count_in(c, SyscallNo::Bind) + count_in(c, SyscallNo::Listen) + count_in(c, SyscallNo::Accept) + count_in(
        c,
        SyscallNo::Mount,
    ) + count_in(c, SyscallNo::Chroot) + count_in(c, SyscallNo::Setuid) + count_in(
        c,
        SyscallNo::Ptrace,
    ) + count_in(c, SyscallNo::InitModule)
}

/// The observations of the other syscalls.
pub open spec fn harmless_sum(c: Map<SyscallNo, u64>) -> int {
    count_in(c, SyscallNo::Open) + count_in(c, SyscallNo::OpenAt) + count_in(c, SyscallNo::Socket)
}

/// The share of dangerous calls, in billionths; none without calls.
pub open spec fn danger_rate(dangerous_calls: int, total_calls: int) -> int {
    if total_calls == 0 {
        0
    } else {
        (dangerous_calls * SCALE) / total_calls
    }
}

/// Counting a syscall leaves the counts of all others.
proof fn other_counts_stay(c: Map<SyscallNo, u64>, s: SyscallNo, n: u64)
    ensures
        count_in(c.insert(s, n), SyscallNo::Open) == (if s == SyscallNo::Open {
            n as int
        } else {
            count_in(c, SyscallNo::Open)
        }),
        count_in(c.insert(s, n), SyscallNo::OpenAt) == (if s == SyscallNo::OpenAt {
            n as int
        } else {
            count_in(c, SyscallNo::OpenAt)
        }),
        count_in(c.insert(s, n), SyscallNo::Unlink) == (if s == SyscallNo::Unlink {
            n as int
        } else {
            count_in(c, SyscallNo::Unlink)
        }),
        count_in(c.insert(s, n), SyscallNo::Rmdir) == (if s == SyscallNo::Rmdir {
            n as int
        } else {
            count_in(c, SyscallNo::Rmdir)
        }),
        count_in(c.insert(s, n), SyscallNo::Execve) == (if s == SyscallNo::Execve {
            n as int
        } else {
            count_in(c, SyscallNo::Execve)
        }),
        count_in(c.insert(s, n), SyscallNo::Fork) == (if s == SyscallNo::Fork {
            n as int
        } else {
            count_in(c, SyscallNo::Fork)
        }),
        count_in(c.insert(s, n), SyscallNo::Clone) == (if s == SyscallNo::Clone {
            n as int
        } else {
            count_in(c, SyscallNo::Clone)
        }),
        count_in(c.insert(s, n), SyscallNo::Connect) == (if s == SyscallNo::Connect {
            n as int
        } else {
            count_in(c, SyscallNo::Connect)
        }),
        count_in(c.insert(s, n), SyscallNo::Bind) == (if s == SyscallNo::Bind {
            n as int
        } else {
            count_in(c, SyscallNo::Bind)
        }),
        count_in(c.insert(s, n), SyscallNo::Listen) == (if s == SyscallNo::Listen {
            n as int
        } else {
            count_in(c, SyscallNo::Listen)
        }),
        count_in(c.insert(s, n), SyscallNo::Accept) == (if s == SyscallNo::Accept {
            n as int
        } else {
            count_in(c, SyscallNo::Accept)
        }),
        count_in(c.insert(s, n), SyscallNo::Socket) == (if s == SyscallNo::Socket {
            n as int
        } else {
            count_in(c, SyscallNo::Socket)
        }),
        count_in(c.insert(s, n), SyscallNo::Mount) == (if s == SyscallNo::Mount {
            n as int
        } else {
            count_in(c, SyscallNo::Mount)
        }),
        count_in(c.insert(s, n), SyscallNo::Chroot) == (if s == SyscallNo::Chroot {
            n as int
        } else {
            count_in(c, SyscallNo::Chroot)
        }),
        count_in(c.insert(s, n), SyscallNo::Setuid) == (if s == SyscallNo::Setuid {
            n as int
        } else {
            count_in(c, SyscallNo::Setuid)
        }),
        count_in(c.insert(s, n), SyscallNo::Ptrace) == (if s == SyscallNo::Ptrace {
            n as int
        } else {
            count_in(c, SyscallNo::Ptrace)
        }),
        count_in(c.insert(s, n), SyscallNo::InitModule) == (if s == SyscallNo::InitModule {
            n as int
        } else {
            count_in(c, SyscallNo::InitModule)
        }),
{
}

/// One more observation of a syscall is one more in its sum and none in the
/// other.
proof fn sums_count_one_more(c: Map<SyscallNo, u64>, s: SyscallNo, n: u64)
    requires
        n == count_in(c, s) + 1,
    ensures
        dangerous_sum(c.insert(s, n)) == dangerous_sum(c) + (if dangerous(s) {
            1int
        } else {
            0int
        }),
        harmless_sum(c.insert(s, n)) == harmless_sum(c) + (if dangerous(s) {
            0int
        } else {
            1int
        }),
{
    other_counts_stay(c, s, n);
}

/// Where the totals are those of the counts, no more dangerous calls are
/// counted than calls, and a total below its limit leaves room for every
/// syscall.
pub proof fn consistent_counts(p: SyscallProfile, s: SyscallNo)
    requires
        p.is_consistent(),
    ensures
        p.dangerous_calls <= p.total_calls,
        p.total_calls < u64::MAX ==> p.has_room(s),
{
}

impl SyscallProfile {
    /// Whether the totals are those of the counts.
    pub open spec fn is_consistent(&self) -> bool {
        self.dangerous_calls == dangerous_sum(self.counts@) && self.total_calls == dangerous_sum(
            self.counts@,
        ) + harmless_sum(self.counts@)
    }

    /// Whether nothing was seen yet.
    pub open spec fn is_blank(&self) -> bool {
        self.counts@ == Map::<SyscallNo, u64>::empty() && self.dangerous_calls == 0
            && self.total_calls == 0
    }

    /// Whether a profile is another with one more observation.
    pub open spec fn is_after(&self, before: SyscallProfile, s: SyscallNo) -> bool {
        &&& self.counts@ == before.counts@.insert(s, (count_in(before.counts@, s) + 1) as u64)
        &&& self.total_calls == before.total_calls + 1
        &&& self.dangerous_calls == before.dangerous_calls + (if dangerous(s) {
            1int
        } else {
            0int
        })
    }

    /// Whether the counters have room for one more observation.
    pub open spec fn has_room(&self, s: SyscallNo) -> bool {
        &&& count_in(self.counts@, s) < u64::MAX
        &&& self.total_calls < u64::MAX
        &&& dangerous(s) ==> self.dangerous_calls < u64::MAX
    }

    /// A profile without observations.
    pub fn new() -> (p: SyscallProfile)
        ensures
            p.is_blank(),
            p.is_consistent(),
    {
        SyscallProfile { counts: Table::new(), dangerous_calls: 0, total_calls: 0 }
    }

    /// Records an observation.
    pub fn record(&mut self, syscall: SyscallNo)
        requires
            old(self).has_room(syscall),
        ensures
            final(self).is_after(*old(self), syscall),
            old(self).is_consistent() ==> final(self).is_consistent(),
    {
        let seen: u64 = match self.counts.get(&syscall) {
            Some(n) => *n,
            None => 0,
        };
        proof {
            sums_count_one_more(self.counts@, syscall, (seen + 1) as u64);
        }
        self.counts.insert(syscall, seen + 1);
        self.total_calls = self.total_calls + 1;
        if syscall.is_dangerous() {
            self.dangerous_calls = self.dangerous_calls + 1;
        }
    }

    /// The share of dangerous calls in `[0, 1]`; zero without calls.
    pub fn dangerous_call_rate(&self) -> (s: Score)
        requires
            self.dangerous_calls <= self.total_calls,
        ensures
            s.nanos == danger_rate(self.dangerous_calls as int, self.total_calls as int),
            s.is_unit(),
    {
        if self.total_calls == 0 {
            return Score::zero();
        }
        proof {
            let d = self.dangerous_calls as int;
            let t = self.total_calls as int;
            assert(0 <= d * SCALE <= 18_446_744_073_709_551_615_000_000_000) by (nonlinear_arith)
                requires
                    0 <= d <= 18_446_744_073_709_551_615,
                    SCALE == 1_000_000_000,
            ;
            assert(0 <= (d * SCALE) / t <= SCALE) by (nonlinear_arith)
                requires
                    0 <= d <= t,
                    t > 0,
                    SCALE == 1_000_000_000,
            ;
        }
        let q: i128 = div_floor(
            self.dangerous_calls as i128 * SCALE as i128,
            self.total_calls as i128,
        );
        Score::from_nanos(q as i64)
    }

    /// Forgets all observations.
    pub fn reset(&mut self)
        ensures
            final(self).is_blank(),
            final(self).is_consistent(),
    {
        self.counts.clear();
        self.dangerous_calls = 0;
        self.total_calls = 0;
    }
}

impl Default for SyscallProfile {
    fn default() -> (p: SyscallProfile)
        ensures
            p.is_blank(),
            p.is_consistent(),
    {
        SyscallProfile::new()
    }
}

/// Errors returned by the syscall tracker.
#[derive(Clone, Debug)]
pub enum SyscallError {
    /// The eBPF ring buffer could not be polled.
    RingBufferPoll(String),
    /// The agent of a process could not be resolved.
    AgentResolution(u32),
}

impl SyscallError {
    /// The error as one line.
    pub fn to_text(&self) -> (t: String)
        ensures
            t@ == (match *self {
                SyscallError::RingBufferPoll(e) => "eBPF ring buffer poll failed: "@ + e@,
                SyscallError::AgentResolution(pid) =>
                "agent-pid map resolution failed for pid "@ + text::decimal_digits(pid as nat),
            }),
    {
        match self {
            SyscallError::RingBufferPoll(e) => String::from_str(
                "eBPF ring buffer poll failed: ",
            ).concat(e.as_str()),
            SyscallError::AgentResolution(pid) => {
                let digits = text::decimal(*pid as u64);
                String::from_str("agent-pid map resolution failed for pid ").concat(
                    digits.as_str(),
                )
            },
        }
    }
}

/// The syscall tracker.
#[derive(Debug)]
pub struct SyscallTracker {
    /// The profile by agent.
    per_agent: Table<AgentId, SyscallProfile>,
}

impl Default for SyscallTracker {
    fn default() -> (t: SyscallTracker)
        ensures
            t.profiles()@ == Map::<Seq<char>, SyscallProfile>::empty(),
            t.is_consistent(),
    {
        SyscallTracker { per_agent: Table::new() }
    }
}

impl SyscallTracker {
    /// The profile by agent.
    pub closed spec fn profiles(&self) -> Table<AgentId, SyscallProfile> {
        self.per_agent
    }

    /// Whether every profile is consistent.
    pub open spec fn is_consistent(&self) -> bool {
        forall|a: Seq<char>| #[trigger]
            self.profiles()@.dom().contains(a) ==> self.profiles()@[a].is_consistent()
    }

    /// An empty tracker.
    pub fn new() -> (t: SyscallTracker)
        ensures
            t.profiles()@ == Map::<Seq<char>, SyscallProfile>::empty(),
            t.is_consistent(),
    {
        SyscallTracker::default()
    }

    /// Records an observation for an agent.
    pub fn record(&mut self, agent: &AgentId, syscall: SyscallNo)
        requires
            old(self).profiles()@.dom().contains(agent@) ==> old(self).profiles()@[agent@].has_room(
                syscall,
            ),
        ensures
            old(self).is_consistent() ==> final(self).is_consistent(),
            final(self).profiles()@.dom().contains(agent@),
            final(self).profiles()@ == old(self).profiles()@.insert(
                agent@,
                final(self).profiles()@[agent@],
            ),
            exists|before: SyscallProfile| #[trigger]
                final(self).profiles()@[agent@].is_after(before, syscall) && (if old(
                    self,
                ).profiles()@.dom().contains(agent@) {
                    before == old(self).profiles()@[agent@]
                } else {
                    before.is_blank()
                }),
    {
        if !self.per_agent.contains_key(agent) {
            let blank = SyscallProfile::new();
            self.per_agent.insert(agent.clone(), blank);
        }
        let ghost before = self.per_agent@[agent@];
        assert(self.per_agent@.dom().contains(agent@));
        match self.per_agent.get_mut(agent) {
            Some(p) => {
                p.record(syscall);
                assert(p.is_after(before, syscall));
            },
            None => {},
        }
        assert(self.per_agent@[agent@].is_after(before, syscall));
                assert(old(self).is_consistent() ==> self.is_consistent()) by {
            if old(self).is_consistent() {
                assert forall|a: Seq<char>| #[trigger]
                    self.per_agent@.dom().contains(a) implies self.per_agent@[a].is_consistent() by {
                    if a != agent@ {
                        assert(old(self).per_agent@.dom().contains(a));
                    }
                }
            }
        }
        assert(self.per_agent@ =~= old(self).per_agent@.insert(agent@, self.per_agent@[agent@]));
    }

    /// The share of dangerous calls of an agent; zero where it is unknown.
    pub fn dangerous_call_rate(&self, agent: &AgentId) -> (s: Score)
        requires
            self.profiles()@.dom().contains(agent@) ==> self.profiles()@[agent@].dangerous_calls
                <= self.profiles()@[agent@].total_calls,
        ensures
            s.nanos == (if self.profiles()@.dom().contains(agent@) {
                danger_rate(
                    self.profiles()@[agent@].dangerous_calls as int,
                    self.profiles()@[agent@].total_calls as int,
                )
            } else {
                0
            }),
            s.is_unit(),
    {
        match self.per_agent.get(agent) {
            Some(p) => p.dangerous_call_rate(),
            None => Score::zero(),
        }
    }

    /// The profile of an agent.
    pub fn profile_of(&self, agent: &AgentId) -> (r: Option<&SyscallProfile>)
        ensures
            match r {
                Some(p) => self.profiles()@.dom().contains(agent@) && *p
                    == self.profiles()@[agent@],
                None => !self.profiles()@.dom().contains(agent@),
            },
    {
        self.per_agent.get(agent)
    }

    /// Drains pending kernel events. No event source exists, so none are
    /// drained.
    pub fn drain_ring_buffer(&mut self) -> (r: Result<u64, SyscallError>)
        ensures
            r == Ok::<u64, SyscallError>(0),
            *final(self) == *old(self),
    {
        Ok(0)
    }

    /// Forgets the observations of all agents; the agents stay known.
    pub fn reset_all(&mut self)
        ensures
            final(self).profiles()@.dom() == old(self).profiles()@.dom(),
            forall|a: Seq<char>| #[trigger]
                final(self).profiles()@.dom().contains(a) ==> final(self).profiles()@[a].is_blank(),
            final(self).is_consistent(),
    {
        let ghost before = self.per_agent@;
        let ghost ids = self.per_agent.ids();
        let n: usize = self.per_agent.len();
        proof {
            table::order_lists_keys(self.per_agent);
        }
        let mut i: usize = 0;
        while i < n
            invariant
                n == ids.len(),
                i <= n,
                self.per_agent.ids() == ids,
                ids.no_duplicates(),
                ids.to_set() == before.dom(),
                self.per_agent@.dom() == before.dom(),
                forall|j: int|
                    0 <= j < i ==> self.per_agent@[#[trigger] ids[j]].is_blank()
                        && self.per_agent@[ids[j]].is_consistent(),
            decreases n - i,
        {
            let key = self.per_agent.key_at(i).clone();
            assert(self.per_agent@.dom().contains(key@));
            self.per_agent.insert(key, SyscallProfile::new());
            assert(self.per_agent@.dom() =~= before.dom());
            i += 1;
        }
        assert forall|a: Seq<char>| #[trigger]
            self.per_agent@.dom().contains(a) implies self.per_agent@[a].is_blank()
            && self.per_agent@[a].is_consistent() by {
            assert(ids.to_set().contains(a));
            let j = choose|j: int| 0 <= j < ids.len() && ids[j] == a;
            assert(ids[j] == a);
        }
    }
}

/// The dangerous calls, one by one, and the three that are not.
pub proof fn dangerous_calls_are_listed(s: SyscallNo)
    ensures
        dangerous(s) <==> s == SyscallNo::Unlink || s == SyscallNo::Rmdir || s == SyscallNo::Execve || s == SyscallNo::Fork || s == SyscallNo::Clone || s == SyscallNo::Connect || s == SyscallNo::Bind || s == SyscallNo::Listen || s == SyscallNo::Accept || s == SyscallNo::Mount || s == SyscallNo::Chroot || s == SyscallNo::Setuid || s == SyscallNo::Ptrace || s == SyscallNo::InitModule,
        !dangerous(s) <==> s == SyscallNo::Open || s == SyscallNo::OpenAt || s
            == SyscallNo::Socket,
{
}

/// The rate is the share of dangerous calls, rounded down: none without calls,
/// one where all are dangerous.
pub proof fn rate_is_the_share(dangerous_calls: int, total_calls: int)
    requires
        0 <= dangerous_calls <= total_calls,
    ensures
        total_calls == 0 ==> danger_rate(dangerous_calls, total_calls) == 0,
        total_calls > 0 ==> danger_rate(dangerous_calls, total_calls) * total_calls
            <= dangerous_calls * 1_000_000_000 < (danger_rate(dangerous_calls, total_calls) + 1)
            * total_calls,
        total_calls > 0 && dangerous_calls == total_calls ==> danger_rate(
            dangerous_calls,
            total_calls,
        ) == 1_000_000_000,
{
    let x = dangerous_calls * 1_000_000_000;
    if total_calls > 0 {
        assert((x / total_calls) * total_calls <= x < (x / total_calls + 1) * total_calls)
            by (nonlinear_arith)
            requires
                total_calls > 0,
        ;
        assert((total_calls * 1_000_000_000) / total_calls == 1_000_000_000) by (nonlinear_arith)
            requires
                total_calls > 0,
        ;
    }
}

/// One more call counts once in all, once in its own count, and once among the
/// dangerous where it is one of them.
pub proof fn calls_count_once(
    before: SyscallProfile,
    after: SyscallProfile,
    s: SyscallNo,
    other: SyscallNo,
)
    requires
        after.is_after(before, s),
        before.has_room(s),
        other != s,
    ensures
        after.total_calls == before.total_calls + 1,
        count_in(after.counts@, s) == count_in(before.counts@, s) + 1,
        count_in(after.counts@, other) == count_in(before.counts@, other),
        after.dangerous_calls == before.dangerous_calls + (if s == SyscallNo::Open || s
            == SyscallNo::OpenAt || s == SyscallNo::Socket {
            0int
        } else {
            1
        }),
{
}

/// A blank profile counted nothing.
pub proof fn blank_profiles_count_nothing(p: SyscallProfile, s: SyscallNo)
    requires
        p.is_blank(),
    ensures
        p.total_calls == 0,
        p.dangerous_calls == 0,
        count_in(p.counts@, s) == 0,
        p.is_consistent(),
{
}

} // verus!
