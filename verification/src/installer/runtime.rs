//! Supervision of sandboxes: restarts with exponential backoff, and a lock
//! after too many of them.
//!
//! No child process is spawned. A restart has two halves with a delay between
//! them, which the caller waits out.

use vstd::prelude::*;
use vstd::string::StringExecFns;

use crate::clock;
use crate::clock::Timestamp;
use crate::ident;
use crate::installer::isolation::NO_PID;
use crate::installer::sandbox_installer::InstallReceipt;
use crate::score::Score;
use crate::table;
use crate::table::Key;
use crate::table::Table;
use crate::text;

verus! {

/// Errors returned by the sandbox runtime.
#[derive(Clone, Debug)]
pub enum RuntimeError {
    /// No sandbox is registered under the requested id.
    NotFound(u128),
    /// The sandbox is already running.
    AlreadyRunning(u128),
    /// The child could not be spawned.
    StartFailed(u128, String),
    /// The control group of the sandbox no longer exists.
    CgroupMissing(u128),
    /// The sandbox is locked and refuses to restart.
    Locked(usize, u128),
}

/// The text of an error.
pub open spec fn error_text(e: RuntimeError) -> Seq<char> {
    match e {
        RuntimeError::NotFound(id) => "sandbox not found: "@ + ident::uuid_digits(id),
        RuntimeError::AlreadyRunning(id) => "sandbox already running: "@ + ident::uuid_digits(id),
        RuntimeError::StartFailed(id, cause) => "start failed for sandbox "@ + ident::uuid_digits(
            id,
        ) + ": "@ + cause@,
        RuntimeError::CgroupMissing(id) => "cgroup missing for sandbox "@ + ident::uuid_digits(id),
        RuntimeError::Locked(n, id) => "sandbox locked after "@ + text::decimal_digits(n as nat)
            + " restarts: "@ + ident::uuid_digits(id),
    }
}

impl RuntimeError {
    /// The error as one line.
    pub fn to_text(&self) -> (t: String)
        ensures
            t@ == error_text(*self),
    {
        match self {
            RuntimeError::NotFound(id) => {
                let digits = ident::uuid_text(*id);
                String::from_str("sandbox not found: ").concat(digits.as_str())
            },
            RuntimeError::AlreadyRunning(id) => {
                let digits = ident::uuid_text(*id);
                String::from_str("sandbox already running: ").concat(digits.as_str())
            },
            RuntimeError::StartFailed(id, cause) => {
                let mut t = String::from_str("start failed for sandbox ");
                let digits = ident::uuid_text(*id);
                t.append(digits.as_str());
                t.append(": ");
                t.append(cause.as_str());
                t
            },
            RuntimeError::CgroupMissing(id) => {
                let digits = ident::uuid_text(*id);
                String::from_str("cgroup missing for sandbox ").concat(digits.as_str())
            },
            RuntimeError::Locked(n, id) => {
                let mut t = String::from_str("sandbox locked after ");
                let count = text::decimal(*n as u64);
                t.append(count.as_str());
                t.append(" restarts: ");
                let digits = ident::uuid_text(*id);
                t.append(digits.as_str());
                t
            },
        }
    }
}

/// Stable identifier for a sandbox.
#[derive(Clone, Copy, Debug, PartialEq, Eq, Structural, Hash)]
pub struct SandboxId(pub u128);

impl Key for SandboxId {
    type Id = SandboxId;

    open spec fn id(&self) -> SandboxId {
        *self
    }

    fn same(&self, other: &Self) -> (r: bool) {
        *self == *other
    }
}

impl From<u128> for SandboxId {
    fn from(u: u128) -> (s: SandboxId) {
        SandboxId(u)
    }
}

impl vstd::std_specs::convert::FromSpecImpl<u128> for SandboxId {
    open spec fn obeys_from_spec() -> bool {
        true
    }

    open spec fn from_spec(u: u128) -> SandboxId {
        SandboxId(u)
    }
}

impl SandboxId {
    /// Hyphenated notation.
    pub fn to_text(&self) -> (t: String)
        ensures
            t@ == ident::uuid_digits(self.0),
    {
        ident::uuid_text(self.0)
    }
}

/// Lifecycle state of a single sandbox.
#[derive(Clone, Copy, Debug, PartialEq, Eq, Structural)]
pub enum SandboxState {
    /// The child is running normally.
    Running,
    /// The child has exited cleanly and will not be restarted.
    Stopped,
    /// The child exited with a non-zero status and is awaiting restart.
    Crashed,
    /// The child is being restarted, inside the backoff window.
    Restarting,
    /// Too many restarts. Manual intervention required.
    Locked,
}

/// Number of restarts at which the sandbox is locked.
pub const MAX_RESTARTS: usize = 5;

/// Backoff schedule in seconds, by the number of restarts so far.
pub const BACKOFF_SCHEDULE: [u64; 5] = [1, 2, 4, 8, 16];

/// The delay before a restart, in seconds: it doubles with each restart so far,
/// up to the fifth.
pub open spec fn backoff_secs(restart_count: nat) -> nat
    decreases restart_count,
{
    if restart_count == 0 {
        1
    } else if restart_count > 4 {
        16
    } else {
        2 * backoff_secs((restart_count - 1) as nat)
    }
}

/// The delay before the restart after `restart_count` others, in seconds.
pub fn backoff_for(restart_count: usize) -> (secs: u64)
    ensures
        secs == backoff_secs(restart_count as nat),
{
    let last: usize = 4;
    let i: usize = if restart_count < last {
        restart_count
    } else {
        last
    };
    proof {
        reveal_with_fuel(backoff_secs, 5);
    }
    BACKOFF_SCHEDULE[i]
}

/// A sandbox's runtime status.
#[derive(Clone, Copy, Debug, PartialEq, Eq, Structural)]
pub struct SandboxStatus {
    /// Current lifecycle state.
    pub state: SandboxState,
    /// PID of the child, or -1 if not running.
    pub pid: i32,
    /// Uptime of the current child in nanoseconds, zero if not running.
    pub uptime_nanos: u64,
    /// Number of restarts.
    pub restart_count: usize,
    /// CPU usage in percent; not measured.
    pub cpu_percent: Score,
    /// Memory in MiB; not measured.
    pub mem_mb: u64,
}

/// Per-sandbox bookkeeping.
#[derive(Clone, Debug)]
pub struct SandboxHandle {
    /// Sandbox identifier (matches the receipt).
    pub id: SandboxId,
    /// PID of the child, or -1 when not running.
    pub pid: i32,
    /// Receipt that produced this sandbox.
    pub receipt: InstallReceipt,
    /// Number of restarts.
    pub restart_count: usize,
    /// Last exit status observed.
    pub last_exit: Option<i32>,
    /// Current lifecycle state.
    pub state: SandboxState,
    /// When the current child was spawned.
    pub started_at: Option<Timestamp>,
}

/// The uptime of a sandbox at a time, in nanoseconds: zero where it is not
/// running or started later.
pub open spec fn uptime_of(h: SandboxHandle, now: Timestamp) -> int {
    match h.started_at {
        Some(t) => if h.state == SandboxState::Running && clock::nanos_between(t, now) > 0 {
            clock::nanos_between(t, now)
        } else {
            0
        },
        None => 0,
    }
}

impl SandboxHandle {
    /// A handle for a receipt, stopped.
    pub fn new(receipt: InstallReceipt) -> (h: SandboxHandle)
        ensures
            h == (SandboxHandle {
                id: SandboxId(receipt.sandbox_id),
                pid: NO_PID,
                receipt,
                restart_count: 0,
                last_exit: None,
                state: SandboxState::Stopped,
                started_at: None,
            }),
    {
        let id = SandboxId(receipt.sandbox_id);
        SandboxHandle {
            id,
            pid: NO_PID,
            receipt,
            restart_count: 0,
            last_exit: None,
            state: SandboxState::Stopped,
            started_at: None,
        }
    }

    /// Whether the sandbox is running.
    pub fn is_running(&self) -> (r: bool)
        ensures
            r == (self.state == SandboxState::Running),
    {
        self.state == SandboxState::Running
    }

    /// The uptime of the current child at a time, in nanoseconds.
    pub fn uptime_at(&self, now: Timestamp) -> (n: u64)
        ensures
            n == uptime_of(*self, now),
    {
        match self.started_at {
            Some(t) => {
                let d: i128 = now.nanos_since(&t);
                if self.is_running() && d > 0 {
                    d as u64
                } else {
                    0
                }
            },
            None => 0,
        }
    }

    /// The uptime of the current child now, in nanoseconds.
    pub fn uptime(&self) -> (n: u64)
        ensures
            exists|now: Timestamp| n == #[trigger] uptime_of(*self, now),
    {
        self.uptime_at(Timestamp::now())
    }
}

/// The supervisor of children.
#[derive(Clone, Copy, Debug, PartialEq, Eq, Structural)]
pub struct Supervisor {
    /// Number of crashes observed.
    pub crashes_observed: u64,
}

impl Default for Supervisor {
    fn default() -> (s: Supervisor)
        ensures
            s.crashes_observed == 0,
    {
        Supervisor { crashes_observed: 0 }
    }
}

impl Supervisor {
    /// A fresh supervisor.
    pub fn new() -> (s: Supervisor)
        ensures
            s.crashes_observed == 0,
    {
        Supervisor::default()
    }
}

/// A handle after a start at a time.
pub open spec fn started(h: SandboxHandle, now: Timestamp) -> SandboxHandle {
    SandboxHandle { state: SandboxState::Running, started_at: Some(now), pid: NO_PID, ..h }
}

/// A handle after a stop.
pub open spec fn stopped(h: SandboxHandle) -> SandboxHandle {
    if h.state == SandboxState::Running {
        SandboxHandle { state: SandboxState::Stopped, started_at: None, pid: NO_PID, ..h }
    } else {
        h
    }
}

/// A handle that is marked for a restart.
pub open spec fn marked(h: SandboxHandle) -> SandboxHandle {
    SandboxHandle { state: SandboxState::Restarting, ..h }
}

/// A handle after the second half of a restart at a time: counted, and locked
/// where that makes too many, or else stopped and started.
pub open spec fn finished(h: SandboxHandle, now: Timestamp) -> SandboxHandle {
    let counted = restarted_once_more(h);
    if counted.state == SandboxState::Locked {
        counted
    } else {
        started(stopped(counted), now)
    }
}

/// A handle after a whole restart that ends at a time; one that is locked stays
/// as it is.
pub open spec fn restarted(h: SandboxHandle, now: Timestamp) -> SandboxHandle {
    if h.state == SandboxState::Locked {
        h
    } else {
        finished(marked(h), now)
    }
}

/// A handle with one more restart; it is locked where that makes too many.
pub open spec fn restarted_once_more(h: SandboxHandle) -> SandboxHandle {
    let n = (h.restart_count + 1) as usize;
    SandboxHandle {
        restart_count: n,
        state: if n >= MAX_RESTARTS {
            SandboxState::Locked
        } else {
            h.state
        },
        ..h
    }
}

/// Whether a start failed for want of a start pipeline.
pub open spec fn is_start_failure(r: Result<(), RuntimeError>, id: SandboxId) -> bool {
    r matches Err(RuntimeError::StartFailed(i, cause)) && i == id.0 && cause@
        == "start pipeline not implemented in v0"@
}

/// The table of sandboxes and their lifecycle.
#[derive(Debug)]
pub struct SandboxRuntime {
    /// The handle by sandbox.
    pub sandboxes: Table<SandboxId, SandboxHandle>,
    /// Supervisor of children.
    pub supervisor: Supervisor,
}

impl Default for SandboxRuntime {
    fn default() -> (r: SandboxRuntime)
        ensures
            r.sandboxes@ == Map::<SandboxId, SandboxHandle>::empty(),
            r.supervisor.crashes_observed == 0,
    {
        SandboxRuntime::new()
    }
}

impl SandboxRuntime {
    /// The result of a start: a sandbox that is unknown, running or locked is
    /// refused; any other is marked as running, and the start then fails.
    pub open spec fn start_outcome(
        &self,
        after: SandboxRuntime,
        r: Result<(), RuntimeError>,
        id: SandboxId,
        now: Timestamp,
    ) -> bool {
        if !self.sandboxes@.dom().contains(id) {
            r == Err::<(), RuntimeError>(RuntimeError::NotFound(id.0)) && after == *self
        } else {
            let h = self.sandboxes@[id];
            if h.state == SandboxState::Running {
                r == Err::<(), RuntimeError>(RuntimeError::AlreadyRunning(id.0)) && after == *self
            } else if h.state == SandboxState::Locked {
                r == Err::<(), RuntimeError>(RuntimeError::Locked(h.restart_count, id.0)) && after
                    == *self
            } else {
                is_start_failure(r, id) && after.supervisor == self.supervisor
                    && after.sandboxes@ == self.sandboxes@.insert(id, started(h, now))
            }
        }
    }

    /// What the second half of a restart at a time comes to.
    pub open spec fn restart_outcome(
        &self,
        after: SandboxRuntime,
        r: Result<(), RuntimeError>,
        id: SandboxId,
        now: Timestamp,
    ) -> bool {
        if !self.sandboxes@.dom().contains(id) {
            r == Err::<(), RuntimeError>(RuntimeError::NotFound(id.0)) && after == *self
        } else {
            let h = finished(self.sandboxes@[id], now);
            &&& after.supervisor == self.supervisor
            &&& after.sandboxes@ == self.sandboxes@.insert(id, h)
            &&& if h.state == SandboxState::Locked {
                r == Err::<(), RuntimeError>(RuntimeError::Locked(h.restart_count, id.0))
            } else {
                is_start_failure(r, id)
            }
        }
    }

    /// An empty runtime.
    pub fn new() -> (r: SandboxRuntime)
        ensures
            r.sandboxes@ == Map::<SandboxId, SandboxHandle>::empty(),
            r.supervisor.crashes_observed == 0,
    {
        SandboxRuntime { sandboxes: Table::new(), supervisor: Supervisor::new() }
    }

    /// Registers a handle. One whose id is that of a running sandbox is refused;
    /// any other replaces what was there.
    pub fn register(&mut self, handle: SandboxHandle) -> (r: Result<(), RuntimeError>)
        ensures
            final(self).supervisor == old(self).supervisor,
            if old(self).sandboxes@.dom().contains(handle.id) && old(
                self,
            ).sandboxes@[handle.id].state == SandboxState::Running {
                &&& r == Err::<(), RuntimeError>(RuntimeError::AlreadyRunning(handle.id.0))
                &&& *final(self) == *old(self)
            } else {
                &&& r == Ok::<(), RuntimeError>(())
                &&& final(self).sandboxes@ == old(self).sandboxes@.insert(handle.id, handle)
            },
    {
        match self.sandboxes.get(&handle.id) {
            Some(existing) => {
                if existing.is_running() {
                    return Err(RuntimeError::AlreadyRunning(handle.id.0));
                }
            },
            None => {},
        }
        self.sandboxes.insert(handle.id, handle);
        Ok(())
    }

    /// Starts a sandbox at a time. No child is spawned: a sandbox that could be
    /// started is marked as running, and the start fails.
    pub fn start_at(&mut self, id: SandboxId, now: Timestamp) -> (r: Result<(), RuntimeError>)
        ensures
            old(self).start_outcome(*final(self), r, id, now),
    {
        match self.sandboxes.get(&id) {
            None => {
                return Err(RuntimeError::NotFound(id.0));
            },
            Some(handle) => {
                if handle.is_running() {
                    return Err(RuntimeError::AlreadyRunning(id.0));
                }
                if handle.state == SandboxState::Locked {
                    return Err(RuntimeError::Locked(handle.restart_count, id.0));
                }
            },
        }
        match self.sandboxes.get_mut(&id) {
            None => {},
            Some(handle) => {
                handle.state = SandboxState::Running;
                handle.started_at = Some(now);
                handle.pid = NO_PID;
            },
        }
        Err(
            RuntimeError::StartFailed(
                id.0,
                String::from_str("start pipeline not implemented in v0"),
            ),
        )
    }

    /// Starts a sandbox now.
    pub fn start(&mut self, id: SandboxId) -> (r: Result<(), RuntimeError>)
        ensures
            exists|now: Timestamp| #[trigger] old(self).start_outcome(*final(self), r, id, now),
    {
        self.start_at(id, Timestamp::now())
    }

    /// Stops a sandbox; one that is not running stays as it is.
    pub fn stop(&mut self, id: SandboxId) -> (r: Result<(), RuntimeError>)
        ensures
            if old(self).sandboxes@.dom().contains(id) {
                &&& r == Ok::<(), RuntimeError>(())
                &&& final(self).sandboxes@ == old(self).sandboxes@.insert(
                    id,
                    stopped(old(self).sandboxes@[id]),
                )
                &&& final(self).supervisor == old(self).supervisor
            } else {
                &&& r == Err::<(), RuntimeError>(RuntimeError::NotFound(id.0))
                &&& *final(self) == *old(self)
            },
    {
        match self.sandboxes.get_mut(&id) {
            None => Err(RuntimeError::NotFound(id.0)),
            Some(handle) => {
                if !handle.is_running() {
                    return Ok(());
                }
                handle.state = SandboxState::Stopped;
                handle.pid = NO_PID;
                handle.started_at = None;
                Ok(())
            },
        }
    }

    /// The first half of a restart: marks the sandbox as restarting and returns
    /// the seconds to wait. An unknown or locked sandbox is refused.
    pub fn begin_restart(&mut self, id: SandboxId) -> (r: Result<u64, RuntimeError>)
        ensures
            if !old(self).sandboxes@.dom().contains(id) {
                &&& r == Err::<u64, RuntimeError>(RuntimeError::NotFound(id.0))
                &&& *final(self) == *old(self)
            } else if old(self).sandboxes@[id].state == SandboxState::Locked {
                &&& r == Err::<u64, RuntimeError>(
                    RuntimeError::Locked(old(self).sandboxes@[id].restart_count, id.0),
                )
                &&& *final(self) == *old(self)
            } else {
                &&& r == Ok::<u64, RuntimeError>(
                    backoff_secs(old(self).sandboxes@[id].restart_count as nat) as u64,
                )
                &&& final(self).sandboxes@ == old(self).sandboxes@.insert(
                    id,
                    marked(old(self).sandboxes@[id]),
                )
                &&& final(self).supervisor == old(self).supervisor
            },
    {
        let delay: u64 = match self.sandboxes.get(&id) {
            None => {
                return Err(RuntimeError::NotFound(id.0));
            },
            Some(handle) => {
                if handle.state == SandboxState::Locked {
                    return Err(RuntimeError::Locked(handle.restart_count, id.0));
                }
                backoff_for(handle.restart_count)
            },
        };
        match self.sandboxes.get_mut(&id) {
            None => {},
            Some(handle) => {
                handle.state = SandboxState::Restarting;
            },
        }
        Ok(delay)
    }

    /// The second half of a restart, at a time: counts the restart, locks the
    /// sandbox where that makes too many, and otherwise stops and starts it.
    pub fn finish_restart_at(&mut self, id: SandboxId, now: Timestamp) -> (r: Result<
        (),
        RuntimeError,
    >)
        requires
            old(self).sandboxes@.dom().contains(id) ==> old(self).sandboxes@[id].restart_count
                < usize::MAX,
        ensures
            old(self).restart_outcome(*final(self), r, id, now),
    {
        match self.sandboxes.get_mut(&id) {
            None => {
                return Err(RuntimeError::NotFound(id.0));
            },
            Some(handle) => {
                handle.restart_count = handle.restart_count + 1;
                if handle.restart_count >= MAX_RESTARTS {
                    handle.state = SandboxState::Locked;
                    return Err(RuntimeError::Locked(handle.restart_count, id.0));
                }
            },
        }
        let ghost mid = self.sandboxes@;
        let _ = self.stop(id);
        let r = self.start_at(id, now);
        proof {
            let h = old(self).sandboxes@[id];
            assert(mid[id] == restarted_once_more(h));
            assert(self.sandboxes@ =~= old(self).sandboxes@.insert(id, self.sandboxes@[id]));
        }
        r
    }

    /// The second half of a restart, now.
    pub fn finish_restart(&mut self, id: SandboxId) -> (r: Result<(), RuntimeError>)
        requires
            old(self).sandboxes@.dom().contains(id) ==> old(self).sandboxes@[id].restart_count
                < usize::MAX,
        ensures
            exists|now: Timestamp| #[trigger] old(self).restart_outcome(*final(self), r, id, now),
    {
        self.finish_restart_at(id, Timestamp::now())
    }

    /// The status of a sandbox at a time.
    pub fn status_at(&self, id: SandboxId, now: Timestamp) -> (r: Option<SandboxStatus>)
        ensures
            r == (if self.sandboxes@.dom().contains(id) {
                let h = self.sandboxes@[id];
                Some(
                    SandboxStatus {
                        state: h.state,
                        pid: h.pid,
                        uptime_nanos: uptime_of(h, now) as u64,
                        restart_count: h.restart_count,
                        cpu_percent: Score { nanos: 0 },
                        mem_mb: 0,
                    },
                )
            } else {
                None
            }),
    {
        match self.sandboxes.get(&id) {
            None => None,
            Some(h) => Some(
                SandboxStatus {
                    state: h.state,
                    pid: h.pid,
                    uptime_nanos: h.uptime_at(now),
                    restart_count: h.restart_count,
                    cpu_percent: Score::zero(),
                    mem_mb: 0,
                },
            ),
        }
    }

    /// The status of a sandbox now.
    pub fn status(&self, id: SandboxId) -> (r: Option<SandboxStatus>)
        ensures
            r is Some <==> self.sandboxes@.dom().contains(id),
            r matches Some(s) ==> {
                let h = self.sandboxes@[id];
                &&& s.state == h.state
                &&& s.pid == h.pid
                &&& s.restart_count == h.restart_count
                &&& s.cpu_percent.nanos == 0
                &&& s.mem_mb == 0
                &&& exists|now: Timestamp| s.uptime_nanos == #[trigger] uptime_of(h, now)
            },
    {
        let now = Timestamp::now();
        let r = self.status_at(id, now);
        proof {
            if self.sandboxes@.dom().contains(id) {
                let u = uptime_of(self.sandboxes@[id], now);
                assert(0 <= u <= u64::MAX);
            }
        }
        r
    }

    /// Number of sandboxes in any state.
    pub fn len(&self) -> (n: usize)
        ensures
            n == self.sandboxes@.dom().len(),
    {
        self.sandboxes.len()
    }

    /// Whether there is no sandbox.
    pub fn is_empty(&self) -> (r: bool)
        ensures
            r == (self.sandboxes@.dom().len() == 0),
    {
        self.sandboxes.len() == 0
    }

    /// The ids of all sandboxes, in the order of registration.
    pub fn ids(&self) -> (r: Vec<SandboxId>)
        ensures
            r@ == self.sandboxes.ids(),
            r@.no_duplicates(),
            forall|id: SandboxId| r@.contains(id) <==> #[trigger]
                self.sandboxes@.dom().contains(id),
    {
        let ghost all = self.sandboxes.ids();
        let n: usize = self.sandboxes.len();
        proof {
            table::order_lists_keys(self.sandboxes);
        }
        let mut r: Vec<SandboxId> = Vec::new();
        let mut i: usize = 0;
        while i < n
            invariant
                all == self.sandboxes.ids(),
                n == all.len(),
                i <= n,
                r@ == all.take(i as int),
            decreases n - i,
        {
            r.push(*self.sandboxes.key_at(i));
            i += 1;
            assert(r@ =~= all.take(i as int));
        }
        assert(all.take(all.len() as int) =~= all);
        proof {
            assert forall|id: SandboxId| r@.contains(id) <==> #[trigger]
                self.sandboxes@.dom().contains(id) by {
                assert(all.to_set().contains(id) == all.contains(id));
            }
        }
        r
    }

    /// Forgets a sandbox that is not running and hands out its handle.
    pub fn forget(&mut self, id: SandboxId) -> (r: Result<SandboxHandle, RuntimeError>)
        ensures
            final(self).supervisor == old(self).supervisor,
            if !old(self).sandboxes@.dom().contains(id) {
                &&& r == Err::<SandboxHandle, RuntimeError>(RuntimeError::NotFound(id.0))
                &&& final(self).sandboxes@ == old(self).sandboxes@
            } else if old(self).sandboxes@[id].state == SandboxState::Running {
                &&& r == Err::<SandboxHandle, RuntimeError>(RuntimeError::AlreadyRunning(id.0))
                &&& final(self).sandboxes@ == old(self).sandboxes@
            } else {
                &&& r == Ok::<SandboxHandle, RuntimeError>(old(self).sandboxes@[id])
                &&& final(self).sandboxes@ == old(self).sandboxes@.remove(id)
            },
    {
        match self.sandboxes.get(&id) {
            None => {
                return Err(RuntimeError::NotFound(id.0));
            },
            Some(h) => {
                if h.is_running() {
                    return Err(RuntimeError::AlreadyRunning(id.0));
                }
            },
        }
        match self.sandboxes.remove(&id) {
            Some(h) => Ok(h),
            None => Err(RuntimeError::NotFound(id.0)),
        }
    }
}

/// The backoff is 1, 2, 4, 8 and 16 seconds, and stays there: it never shrinks.
pub proof fn backoff_doubles(n: nat)
    ensures
        n < 4 ==> backoff_secs(n + 1) == 2 * backoff_secs(n),
        n >= 4 ==> backoff_secs(n) == 16,
        1 <= backoff_secs(n) <= 16,
        backoff_secs(n) <= backoff_secs(n + 1),
{
    reveal_with_fuel(backoff_secs, 6);
}

/// A handle after whole restarts, one after the other, that end at given times.
pub open spec fn after_restarts(h: SandboxHandle, times: Seq<Timestamp>) -> SandboxHandle
    decreases times.len(),
{
    if times.len() == 0 {
        h
    } else {
        restarted(after_restarts(h, times.drop_last()), times.last())
    }
}

/// The runtime gives up after the permitted number of restarts: a sandbox that
/// was never restarted and is not locked runs after each restart before the
/// last permitted one, is locked by that one, and stays as it is from then on.
pub proof fn locked_after_max_restarts(h: SandboxHandle, times: Seq<Timestamp>)
    requires
        h.restart_count == 0,
        h.state != SandboxState::Locked,
    ensures
        ({
            let after = after_restarts(h, times);
            &&& after.restart_count == if times.len() < MAX_RESTARTS {
                times.len()
            } else {
                MAX_RESTARTS as nat
            }
            &&& after.state == SandboxState::Locked <==> times.len() >= MAX_RESTARTS
            &&& 0 < times.len() < MAX_RESTARTS ==> after.state == SandboxState::Running
                && after.started_at == Some(times.last())
        }),
    decreases times.len(),
{
    if times.len() > 0 {
        locked_after_max_restarts(h, times.drop_last());
    }
}

/// A restart that is marked and then finished does to a sandbox that is not
/// locked exactly what a whole restart does, and ends in the lock or in a
/// failed start.
pub proof fn halves_make_a_restart(
    before: SandboxRuntime,
    between: SandboxRuntime,
    after: SandboxRuntime,
    r: Result<(), RuntimeError>,
    id: SandboxId,
    now: Timestamp,
)
    requires
        before.sandboxes@.dom().contains(id),
        before.sandboxes@[id].state != SandboxState::Locked,
        between.sandboxes@ == before.sandboxes@.insert(id, marked(before.sandboxes@[id])),
        between.restart_outcome(after, r, id, now),
    ensures
        after.sandboxes@ == before.sandboxes@.insert(id, restarted(before.sandboxes@[id], now)),
        r is Err,
{
    assert(after.sandboxes@ =~= before.sandboxes@.insert(
        id,
        restarted(before.sandboxes@[id], now),
    ));
}

/// The waits before a restart are those of the schedule, powers of two from one
/// second to sixteen; the fifth restart locks.
pub proof fn waits_follow_the_schedule(n: int)
    requires
        0 <= n < 5,
    ensures
        MAX_RESTARTS == 5,
        BACKOFF_SCHEDULE@.len() == 5,
        backoff_secs(n as nat) == BACKOFF_SCHEDULE@[n],
        backoff_secs(0) == 1,
        backoff_secs(4) == 16,
        n > 0 ==> backoff_secs(n as nat) == 2 * backoff_secs((n - 1) as nat),
{
    reveal_with_fuel(backoff_secs, 6);
    let s = BACKOFF_SCHEDULE@;
    assert(s[0] == 1 && s[1] == 2 && s[2] == 4 && s[3] == 8 && s[4] == 16);
}

/// A restart counts once; the fifth locks and starts nothing, an earlier one
/// runs from now.
pub proof fn restarts_count(h: SandboxHandle, now: Timestamp)
    requires
        h.restart_count < usize::MAX,
        h.state != SandboxState::Locked,
    ensures
        ({
            let a = restarted(h, now);
            &&& a.restart_count == h.restart_count + 1
            &&& a.state == SandboxState::Locked <==> h.restart_count >= 4
            &&& h.restart_count < 4 ==> a.state == SandboxState::Running && a.started_at == Some(
                now,
            )
        }),
{
}

/// A sandbox that runs is up since its start, and one that does not is not up.
pub proof fn uptime_runs(h: SandboxHandle, now: Timestamp)
    ensures
        h.state != SandboxState::Running ==> uptime_of(h, now) == 0,
        h.started_at is None ==> uptime_of(h, now) == 0,
        h.state == SandboxState::Running && h.started_at is Some && now.nanos
            >= h.started_at->0.nanos ==> uptime_of(h, now) == now.nanos - h.started_at->0.nanos,
        uptime_of(h, now) >= 0,
        uptime_of(stopped(h), now) == 0,
        uptime_of(started(h, now), now) == 0,
{
}

/// What a sandbox is after a start and after a stop.
pub proof fn starting_and_stopping(h: SandboxHandle, now: Timestamp)
    ensures
        started(h, now).state == SandboxState::Running,
        started(h, now).started_at == Some(now),
        started(h, now).pid == -1,
        started(h, now).restart_count == h.restart_count,
        h.state == SandboxState::Running ==> stopped(h).state == SandboxState::Stopped && stopped(
            h,
        ).started_at is None && stopped(h).pid == -1,
        h.state != SandboxState::Running ==> stopped(h) == h,
        stopped(stopped(h)) == stopped(h),
{
}

/// How an error is worded, and what stops every start.
pub proof fn errors_are_worded(id: u128, cause: String, n: usize, r: Result<(), RuntimeError>, s: SandboxId)
    ensures
        error_text(RuntimeError::NotFound(id)) == "sandbox not found: "@ + ident::uuid_digits(id),
        error_text(RuntimeError::AlreadyRunning(id)) == "sandbox already running: "@
            + ident::uuid_digits(id),
        error_text(RuntimeError::StartFailed(id, cause)) == "start failed for sandbox "@
            + ident::uuid_digits(id) + ": "@ + cause@,
        error_text(RuntimeError::CgroupMissing(id)) == "cgroup missing for sandbox "@
            + ident::uuid_digits(id),
        error_text(RuntimeError::Locked(n, id)) == "sandbox locked after "@ + text::decimal_digits(
            n as nat,
        ) + " restarts: "@ + ident::uuid_digits(id),
        is_start_failure(r, s) ==> r is Err && r->Err_0 is StartFailed && r->Err_0->StartFailed_1@
            == "start pipeline not implemented in v0"@,
{
}

/// A start never ends in success: an unknown sandbox is not found, a running one
/// runs already, a locked one stays locked, and every other one is marked as
/// running and fails to start. Other sandboxes are not touched.
pub proof fn starts_fail_as_they_must(
    before: SandboxRuntime,
    after: SandboxRuntime,
    r: Result<(), RuntimeError>,
    id: SandboxId,
    other: SandboxId,
    now: Timestamp,
)
    requires
        before.start_outcome(after, r, id, now),
        other != id,
    ensures
        r is Err,
        r->Err_0 is NotFound <==> !before.sandboxes@.dom().contains(id),
        r->Err_0 is AlreadyRunning <==> before.sandboxes@.dom().contains(id)
            && before.sandboxes@[id].state == SandboxState::Running,
        r->Err_0 is Locked <==> before.sandboxes@.dom().contains(id) && before.sandboxes@[id].state
            == SandboxState::Locked,
        r->Err_0 is StartFailed ==> after.sandboxes@.dom().contains(id)
            && after.sandboxes@[id].state == SandboxState::Running
            && after.sandboxes@[id].started_at == Some(now),
        !(r->Err_0 is StartFailed) ==> after == before,
        before.sandboxes@.dom().contains(other) ==> after.sandboxes@.dom().contains(other)
            && after.sandboxes@[other] == before.sandboxes@[other],
{
}

/// A restart that is finished counts one more, locks at five, and otherwise ends
/// as a start does.
pub proof fn finished_restarts_count(
    before: SandboxRuntime,
    after: SandboxRuntime,
    r: Result<(), RuntimeError>,
    id: SandboxId,
    now: Timestamp,
)
    requires
        before.restart_outcome(after, r, id, now),
        before.sandboxes@.dom().contains(id),
        before.sandboxes@[id].restart_count < usize::MAX,
        before.sandboxes@[id].state != SandboxState::Locked,
    ensures
        r is Err,
        after.sandboxes@[id].restart_count == before.sandboxes@[id].restart_count + 1,
        r->Err_0 is Locked <==> before.sandboxes@[id].restart_count >= 4,
        r->Err_0 is Locked ==> after.sandboxes@[id].state == SandboxState::Locked
            && r->Err_0->Locked_0 == after.sandboxes@[id].restart_count && r->Err_0->Locked_1
            == id.0,
        !(r->Err_0 is Locked) ==> r->Err_0 is StartFailed && after.sandboxes@[id].state
            == SandboxState::Running,
{
}

/// To restart what is not there changes nothing, and says which was not found;
/// what was not asked for is not restarted.
pub proof fn only_known_sandboxes_restart(
    before: SandboxRuntime,
    after: SandboxRuntime,
    r: Result<(), RuntimeError>,
    id: SandboxId,
    other: SandboxId,
    now: Timestamp,
)
    requires
        before.restart_outcome(after, r, id, now),
        other != id,
    ensures
        r is Err,
        !before.sandboxes@.dom().contains(id) <==> r->Err_0 is NotFound,
        r->Err_0 is NotFound ==> after == before && r->Err_0->NotFound_0 == id.0,
        before.sandboxes@.dom().contains(other) ==> after.sandboxes@.dom().contains(other)
            && after.sandboxes@[other] == before.sandboxes@[other],
{
}

} // verus!
