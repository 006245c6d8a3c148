//! A fleet of authority VMs: spawning, killing, scheduling and the lookup of
//! host-call handlers.

use vstd::prelude::*;
use vstd::string::StringExecFns;

use crate::hypervisor::authority_vm;
use crate::hypervisor::authority_vm::AgentId;
use crate::hypervisor::authority_vm::AuthorityVm;
use crate::hypervisor::authority_vm::Capability;
use crate::hypervisor::authority_vm::HostCall;
use crate::hypervisor::authority_vm::VmId;
use crate::hypervisor::authority_vm::VmProgram;
use crate::hypervisor::authority_vm::VmState;
use crate::ident;
use crate::sequences;
use crate::table;
use crate::table::Table;

verus! {

/// Scheduling policy for the [`VmScheduler`].
#[derive(Clone, Copy, Debug, PartialEq, Eq, Structural)]
pub enum SchedPolicy {
    /// Cycle through VMs in spawn order.
    RoundRobin,
    /// Allocate CPU proportionally to per-VM weights.
    FairShare,
    /// Strict priority ordering.
    Priority,
}

impl Default for SchedPolicy {
    fn default() -> (p: SchedPolicy)
        ensures
            p == SchedPolicy::RoundRobin,
    {
        SchedPolicy::RoundRobin
    }
}

/// Per-VM scheduling metadata.
#[derive(Clone, Copy, Debug, PartialEq, Eq, Structural)]
pub struct VmSchedEntry {
    /// The VM being scheduled.
    pub vm_id: VmId,
    /// Priority (higher = more important).
    pub priority: u8,
    /// Time slices consumed so far.
    pub slices_consumed: u64,
}

/// Decides which VM runs next: whatever the policy, the head of the queue, which
/// then goes to its end.
#[derive(Clone, Debug)]
pub struct VmScheduler {
    /// Scheduling policy in use.
    pub policy: SchedPolicy,
    /// Length of a single time slice, in milliseconds.
    pub time_slice: u64,
    /// The scheduling queue.
    pub queue: Vec<VmSchedEntry>,
}

impl Default for VmScheduler {
    fn default() -> (s: VmScheduler)
        ensures
            s.policy == SchedPolicy::RoundRobin,
            s.time_slice == 10,
            s.queue@ == Seq::<VmSchedEntry>::empty(),
    {
        VmScheduler { policy: SchedPolicy::RoundRobin, time_slice: 10, queue: Vec::new() }
    }
}

/// A queue whose head went to its end.
pub open spec fn rotated<T>(q: Seq<T>) -> Seq<T> {
    q.drop_first().push(q[0])
}

/// A queue after a number of rotations.
pub open spec fn rotated_by<T>(q: Seq<T>, n: nat) -> Seq<T>
    decreases n,
{
    if n == 0 {
        q
    } else {
        rotated(rotated_by(q, (n - 1) as nat))
    }
}

impl VmScheduler {
    /// The next VM to run; none if the queue is empty.
    pub fn next(&mut self) -> (r: Option<VmSchedEntry>)
        ensures
            final(self).policy == old(self).policy,
            final(self).time_slice == old(self).time_slice,
            if old(self).queue@.len() == 0 {
                r is None && *final(self) == *old(self)
            } else {
                r == Some(old(self).queue@[0]) && final(self).queue@ == rotated(old(self).queue@)
            },
    {
        if self.queue.len() == 0 {
            return None;
        }
        let ghost before = self.queue@;
        let head = self.queue.remove(0);
        self.queue.push(head);
        assert(self.queue@ =~= rotated(before));
        Some(head)
    }

    /// Puts a VM at the end of the queue.
    pub fn enqueue(&mut self, vm_id: VmId, priority: u8)
        ensures
            final(self).policy == old(self).policy,
            final(self).time_slice == old(self).time_slice,
            final(self).queue@ == old(self).queue@.push(
                VmSchedEntry { vm_id, priority, slices_consumed: 0 },
            ),
    {
        self.queue.push(VmSchedEntry { vm_id, priority, slices_consumed: 0 });
    }

    /// Removes a VM from the queue; the others keep their order.
    pub fn dequeue(&mut self, vm_id: VmId)
        ensures
            final(self).policy == old(self).policy,
            final(self).time_slice == old(self).time_slice,
            final(self).queue@ == without(old(self).queue@, vm_id),
    {
        let ghost before = self.queue@;
        let ghost f = |e: VmSchedEntry| e.vm_id != vm_id;
        let mut entries: Vec<VmSchedEntry> = Vec::new();
        std::mem::swap(&mut self.queue, &mut entries);
        let mut kept: Vec<VmSchedEntry> = Vec::new();
        let mut i: usize = 0;
        assert(before.take(0).filter(f) =~= Seq::<VmSchedEntry>::empty()) by {
            reveal(Seq::filter);
        }
        while i < entries.len()
            invariant
                i <= entries@.len(),
                before == entries@,
                f == (|e: VmSchedEntry| e.vm_id != vm_id),
                kept@ == before.take(i as int).filter(f),
            decreases entries@.len() - i,
        {
            proof {
                sequences::filter_next(before, f, i as int);
            }
            if entries[i].vm_id != vm_id {
                kept.push(entries[i]);
            }
            i += 1;
        }
        assert(before.take(before.len() as int) =~= before);
        self.queue = kept;
    }
}

/// A queue without the entries of a VM.
pub open spec fn without(q: Seq<VmSchedEntry>, vm_id: VmId) -> Seq<VmSchedEntry> {
    q.filter(|e: VmSchedEntry| e.vm_id != vm_id)
}

/// The number that stands for a [`HostCall`] in the handler registry.
pub type HostCallKind = u8;

/// The number of a host call.
pub open spec fn kind_of(c: HostCall) -> HostCallKind {
    match c {
        HostCall::ReadMemory => 0x01,
        HostCall::WriteMemory => 0x02,
        HostCall::QueryHal => 0x03,
        HostCall::SendMessage => 0x04,
        HostCall::LogEvent => 0x05,
    }
}

/// The number of a host call.
pub fn host_call_kind(call: &HostCall) -> (k: HostCallKind)
    ensures
        k == kind_of(*call),
{
    match call {
        HostCall::ReadMemory => 0x01,
        HostCall::WriteMemory => 0x02,
        HostCall::QueryHal => 0x03,
        HostCall::SendMessage => 0x04,
        HostCall::LogEvent => 0x05,
    }
}

/// A summary of a VM.
#[derive(Clone, Copy, Debug, PartialEq, Eq, Structural)]
pub struct VmInfo {
    /// The VM's identifier.
    pub id: VmId,
    /// The owning agent.
    pub agent: AgentId,
    /// Current execution state.
    pub state: VmState,
    /// CPU seconds consumed; not measured.
    pub cpu_seconds: u64,
    /// Resident memory in bytes.
    pub memory_bytes: u64,
    /// Number of host calls issued; not measured.
    pub syscalls: u64,
}

impl Default for VmInfo {
    fn default() -> (i: VmInfo)
        ensures
            i == (VmInfo {
                id: 0,
                agent: 0,
                state: VmState::Halted,
                cpu_seconds: 0,
                memory_bytes: 0,
                syscalls: 0,
            }),
    {
        VmInfo {
            id: 0,
            agent: 0,
            state: VmState::Halted,
            cpu_seconds: 0,
            memory_bytes: 0,
            syscalls: 0,
        }
    }
}

/// The summary of a VM.
pub open spec fn info_of(vm: AuthorityVm) -> VmInfo {
    VmInfo {
        id: vm.id,
        agent: vm.agent,
        state: vm.state,
        cpu_seconds: 0,
        memory_bytes: vm.memory.bytes@.len() as u64,
        syscalls: 0,
    }
}

impl VmInfo {
    /// The summary of a VM.
    pub fn of(vm: &AuthorityVm) -> (i: VmInfo)
        ensures
            i == info_of(*vm),
    {
        VmInfo {
            id: vm.id,
            agent: vm.agent,
            state: vm.state,
            cpu_seconds: 0,
            memory_bytes: vm.memory.bytes.len() as u64,
            syscalls: 0,
        }
    }
}

/// Errors returned by the hypervisor runtime.
#[derive(Clone, Debug, PartialEq, Eq)]
pub enum HypervisorError {
    /// A VM could not be spawned.
    SpawnFailed(String),
    /// The requested VM does not exist.
    VmNotFound(VmId),
    /// The VM exceeded its resource quota.
    QuotaExceeded(String),
    /// The VM issued a host call with no registered handler.
    HostCallUnregistered(String),
}

impl HypervisorError {
    /// The error as one line.
    pub fn to_text(&self) -> (t: String)
        ensures
            t@ == (match *self {
                HypervisorError::SpawnFailed(e) => "spawn failed: "@ + e@,
                HypervisorError::VmNotFound(id) => "VM not found: "@ + ident::uuid_digits(id),
                HypervisorError::QuotaExceeded(e) => "quota exceeded: "@ + e@,
                HypervisorError::HostCallUnregistered(e) => "host call unregistered: "@ + e@,
            }),
    {
        match self {
            HypervisorError::SpawnFailed(e) => String::from_str("spawn failed: ").concat(
                e.as_str(),
            ),
            HypervisorError::VmNotFound(id) => {
                let digits = ident::uuid_text(*id);
                String::from_str("VM not found: ").concat(digits.as_str())
            },
            HypervisorError::QuotaExceeded(e) => String::from_str("quota exceeded: ").concat(
                e.as_str(),
            ),
            HypervisorError::HostCallUnregistered(e) => String::from_str(
                "host call unregistered: ",
            ).concat(e.as_str()),
        }
    }
}

/// The hypervisor runtime: the live VMs, the scheduler and the registry of
/// host-call handlers. What a handler is, the host decides.
#[derive(Debug)]
pub struct HypervisorRuntime<H> {
    /// Live VMs by id.
    pub vms: Table<VmId, AuthorityVm>,
    /// The scheduler that decides which VM runs next.
    pub scheduler: VmScheduler,
    /// Host-call handlers by the number of the call.
    pub host_call_handlers: Table<HostCallKind, H>,
}

impl<H> Default for HypervisorRuntime<H> {
    fn default() -> (r: HypervisorRuntime<H>)
        ensures
            r.is_fresh(),
            r.all_queued(),
    {
        HypervisorRuntime::new()
    }
}

/// Whether a VM stands in a queue.
pub open spec fn is_queued(q: Seq<VmSchedEntry>, vm_id: VmId) -> bool {
    exists|i: int| 0 <= i < q.len() && (#[trigger] q[i]).vm_id == vm_id
}

impl<H> HypervisorRuntime<H> {
    /// Whether the runtime is as it starts.
    pub open spec fn is_fresh(&self) -> bool {
        &&& self.vms@ == Map::<VmId, AuthorityVm>::empty()
        &&& self.scheduler.policy == SchedPolicy::RoundRobin
        &&& self.scheduler.time_slice == 10
        &&& self.scheduler.queue@ == Seq::<VmSchedEntry>::empty()
        &&& self.host_call_handlers@ == Map::<HostCallKind, H>::empty()
    }

    /// Whether the VMs in the queue are exactly the live ones.
    pub open spec fn all_queued(&self) -> bool {
        forall|id: VmId| #[trigger]
            self.vms@.dom().contains(id) <==> is_queued(self.scheduler.queue@, id)
    }

    /// An empty runtime.
    pub fn new() -> (r: HypervisorRuntime<H>)
        ensures
            r.is_fresh(),
            r.all_queued(),
    {
        HypervisorRuntime {
            vms: Table::new(),
            scheduler: VmScheduler::default(),
            host_call_handlers: Table::new(),
        }
    }

    /// Spawns a VM of an id for an agent, halted and at the end of the queue.
    /// An empty program is refused.
    pub fn spawn_as(
        &mut self,
        id: VmId,
        agent: AgentId,
        program: VmProgram,
        caps: Table<Capability, ()>,
    ) -> (r: Result<VmId, HypervisorError>)
        ensures
            final(self).host_call_handlers == old(self).host_call_handlers,
            final(self).scheduler.policy == old(self).scheduler.policy,
            final(self).scheduler.time_slice == old(self).scheduler.time_slice,
            if program.bytecode@.len() == 0 {
                &&& r matches Err(HypervisorError::SpawnFailed(m)) && m@ == "empty program"@
                &&& *final(self) == *old(self)
            } else {
                &&& r == Ok::<VmId, HypervisorError>(id)
                &&& final(self).vms@.dom().contains(id)
                &&& final(self).vms@[id].id == id
                &&& final(self).vms@[id].is_fresh(agent, program, caps)
                &&& final(self).vms@ == old(self).vms@.insert(id, final(self).vms@[id])
                &&& final(self).scheduler.queue@ == old(self).scheduler.queue@.push(
                    VmSchedEntry { vm_id: id, priority: 0, slices_consumed: 0 },
                )
            },
            old(self).all_queued() ==> final(self).all_queued(),
    {
        if program.bytecode.len() == 0 {
            return Err(HypervisorError::SpawnFailed(String::from_str("empty program")));
        }
        let ghost before = self.scheduler.queue@;
        let vm = AuthorityVm::with_id(id, agent, program, caps);
        self.vms.insert(id, vm);
        self.scheduler.enqueue(id, 0);
        proof {
            let after = self.scheduler.queue@;
            if old(self).all_queued() {
                assert forall|v: VmId| #[trigger]
                    self.vms@.dom().contains(v) <==> is_queued(after, v) by {
                    assert(old(self).vms@.dom().contains(v) <==> is_queued(before, v));
                    if is_queued(before, v) {
                        let i = choose|i: int|
                            0 <= i < before.len() && (#[trigger] before[i]).vm_id == v;
                        assert(after[i].vm_id == v);
                    }
                    if is_queued(after, v) && v != id {
                        let i = choose|i: int|
                            0 <= i < after.len() && (#[trigger] after[i]).vm_id == v;
                        assert(before[i].vm_id == v);
                    }
                    assert(after[after.len() - 1].vm_id == id);
                }
            }
        }
        Ok(id)
    }

    /// Spawns a VM of a fresh id for an agent and returns the id.
    pub fn spawn(&mut self, agent: AgentId, program: VmProgram, caps: Table<Capability, ()>) -> (r:
        Result<VmId, HypervisorError>)
        ensures
            final(self).host_call_handlers == old(self).host_call_handlers,
            final(self).scheduler.policy == old(self).scheduler.policy,
            final(self).scheduler.time_slice == old(self).scheduler.time_slice,
            match r {
                Ok(id) => {
                    &&& program.bytecode@.len() > 0
                    &&& ident::is_random_uuid(id)
                    &&& final(self).vms@.dom().contains(id)
                    &&& final(self).vms@[id].id == id
                    &&& final(self).vms@[id].is_fresh(agent, program, caps)
                    &&& final(self).vms@ == old(self).vms@.insert(id, final(self).vms@[id])
                    &&& final(self).scheduler.queue@ == old(self).scheduler.queue@.push(
                        VmSchedEntry { vm_id: id, priority: 0, slices_consumed: 0 },
                    )
                },
                Err(e) => {
                    &&& program.bytecode@.len() == 0
                    &&& e matches HypervisorError::SpawnFailed(m) && m@ == "empty program"@
                    &&& *final(self) == *old(self)
                },
            },
            old(self).all_queued() ==> final(self).all_queued(),
    {
        let id: u128 = ident::new_uuid();
        self.spawn_as(id, agent, program, caps)
    }

    /// Kills a VM: it is no longer live and no longer scheduled.
    pub fn kill(&mut self, vm: VmId) -> (r: Result<(), HypervisorError>)
        ensures
            final(self).host_call_handlers == old(self).host_call_handlers,
            final(self).scheduler.policy == old(self).scheduler.policy,
            final(self).scheduler.time_slice == old(self).scheduler.time_slice,
            if old(self).vms@.dom().contains(vm) {
                &&& r == Ok::<(), HypervisorError>(())
                &&& final(self).vms@ == old(self).vms@.remove(vm)
                &&& final(self).scheduler.queue@ == without(old(self).scheduler.queue@, vm)
            } else {
                &&& r == Err::<(), HypervisorError>(HypervisorError::VmNotFound(vm))
                &&& final(self).vms@ == old(self).vms@
                &&& final(self).scheduler == old(self).scheduler
            },
            old(self).all_queued() ==> final(self).all_queued(),
    {
        let ghost before = self.scheduler.queue@;
        match self.vms.remove(&vm) {
            Some(_) => {
                self.scheduler.dequeue(vm);
                proof {
                    let after = self.scheduler.queue@;
                    if old(self).all_queued() {
                        assert forall|v: VmId| #[trigger]
                            self.vms@.dom().contains(v) <==> is_queued(after, v) by {
                            assert(old(self).vms@.dom().contains(v) <==> is_queued(before, v));
                            queued_without(before, vm, v);
                        }
                    }
                }
                Ok(())
            },
            None => {
                assert(self.vms@ =~= old(self).vms@);
                Err(HypervisorError::VmNotFound(vm))
            },
        }
    }

    /// One turn of the scheduler: the next VM of the queue, where there is one
    /// and it is live, runs until it exits. Says which VM had its turn.
    pub fn run_next(&mut self) -> (r: Option<VmId>)
        ensures
            final(self).host_call_handlers == old(self).host_call_handlers,
            final(self).scheduler.policy == old(self).scheduler.policy,
            final(self).scheduler.time_slice == old(self).scheduler.time_slice,
            final(self).vms@.dom() == old(self).vms@.dom(),
            if old(self).scheduler.queue@.len() == 0 {
                r is None && *final(self) == *old(self)
            } else {
                let id = old(self).scheduler.queue@[0].vm_id;
                &&& r == Some(id)
                &&& final(self).scheduler.queue@ == rotated(old(self).scheduler.queue@)
                &&& if old(self).vms@.dom().contains(id) {
                    &&& final(self).vms@ == old(self).vms@.insert(id, final(self).vms@[id])
                    &&& final(self).vms@[id].same_machine(old(self).vms@[id])
                    &&& final(self).vms@[id].state == VmState::Halted
                    &&& final(self).vms@[id].instruction_count == old(
                        self,
                    ).vms@[id].instruction_count
                } else {
                    final(self).vms@ == old(self).vms@
                }
            },
    {
        match self.scheduler.next() {
            None => None,
            Some(entry) => {
                match self.vms.get_mut(&entry.vm_id) {
                    Some(vm) => {
                        let _ = vm.run();
                    },
                    None => {},
                }
                assert(self.vms@.dom() =~= old(self).vms@.dom());
                Some(entry.vm_id)
            },
        }
    }

    /// The summaries of all live VMs, each once, in the order of spawning.
    pub fn list_vms(&self) -> (r: Vec<VmInfo>)
        ensures
            r@.len() == self.vms@.dom().len(),
            sequences::enumerates(self.vms.ids(), self.vms@.dom()),
            forall|id: VmId| #[trigger]
                self.vms@.dom().contains(id) ==> r@.contains(info_of(self.vms@[id])),
            r@ == Seq::new(
                self.vms.ids().len(),
                |i: int| info_of(self.vms@[self.vms.ids()[i]]),
            ),
    {
        let ghost all = self.vms.ids();
        let n: usize = self.vms.len();
        let mut r: Vec<VmInfo> = Vec::new();
        let mut i: usize = 0;
        while i < n
            invariant
                all == self.vms.ids(),
                n == all.len(),
                i <= n,
                r@.len() == i,
                forall|j: int| 0 <= j < i ==> r@[j] == info_of(self.vms@[#[trigger] all[j]]),
            decreases n - i,
        {
            r.push(VmInfo::of(self.vms.value_at(i)));
            i += 1;
        }
        assert(r@ =~= Seq::new(all.len(), |j: int| info_of(self.vms@[all[j]])));
        proof {
            table::order_lists_keys(self.vms);
            assert forall|id: VmId| #[trigger] self.vms@.dom().contains(id) implies r@.contains(
                info_of(self.vms@[id]),
            ) by {
                assert(all.to_set().contains(id));
                let j = choose|j: int| 0 <= j < all.len() && all[j] == id;
                assert(r@[j] == info_of(self.vms@[id]));
            }
        }
        r
    }

    /// The handler that is registered for a host call. The host hands the call
    /// to it.
    pub fn dispatch_host_call(&self, _vm: VmId, call: &HostCall) -> (r: Result<
        &H,
        HypervisorError,
    >)
        ensures
            match r {
                Ok(h) => self.host_call_handlers@.dom().contains(kind_of(*call)) && *h
                    == self.host_call_handlers@[kind_of(*call)],
                Err(e) => {
                    &&& !self.host_call_handlers@.dom().contains(kind_of(*call))
                    &&& e matches HypervisorError::HostCallUnregistered(name)
                    &&& name@ == authority_vm::call_name(*call)
                },
            },
    {
        let kind: u8 = host_call_kind(call);
        match self.host_call_handlers.get(&kind) {
            Some(h) => Ok(h),
            None => Err(HypervisorError::HostCallUnregistered(call.name().to_owned())),
        }
    }
}

/// A fresh VM id.
pub fn new_vm_id() -> (id: VmId)
    ensures
        ident::is_random_uuid(id),
{
    ident::new_uuid()
}

/// Taking a VM out of a queue leaves exactly the others.
proof fn queued_without(q: Seq<VmSchedEntry>, gone: VmId, v: VmId)
    ensures
        is_queued(without(q, gone), v) <==> v != gone && is_queued(q, v),
    decreases q.len(),
{
    reveal(Seq::filter);
    let f = |e: VmSchedEntry| e.vm_id != gone;
    if q.len() > 0 {
        let d = q.drop_last();
        let last = q.last();
        queued_without(d, gone, v);
        let w = without(q, gone);
        if is_queued(w, v) {
            let i = choose|i: int| 0 <= i < w.len() && (#[trigger] w[i]).vm_id == v;
            if f(last) && i == w.len() - 1 {
                assert(q[q.len() - 1].vm_id == v);
            } else {
                assert(without(d, gone)[i].vm_id == v);
                let j = choose|j: int| 0 <= j < d.len() && (#[trigger] d[j]).vm_id == v;
                assert(q[j].vm_id == v);
            }
        }
        if v != gone && is_queued(q, v) {
            let i = choose|i: int| 0 <= i < q.len() && (#[trigger] q[i]).vm_id == v;
            if i == q.len() - 1 {
                assert(w[w.len() - 1].vm_id == v);
            } else {
                assert(d[i].vm_id == v);
                let wd = without(d, gone);
                let j = choose|j: int| 0 <= j < wd.len() && (#[trigger] wd[j]).vm_id == v;
                assert(w[j].vm_id == v);
            }
        }
    }
}

/// After some rotations, less than the queue is long, the queue starts where
/// that many were taken from the front.
proof fn rotations_shift<T>(q: Seq<T>, n: nat)
    requires
        n <= q.len(),
    ensures
        rotated_by(q, n) == q.subrange(n as int, q.len() as int) + q.subrange(0, n as int),
    decreases n,
{
    if n == 0 {
        assert(q =~= q.subrange(0, q.len() as int) + q.subrange(0, 0));
    } else {
        rotations_shift(q, (n - 1) as nat);
        assert(rotated_by(q, n) =~= q.subrange(n as int, q.len() as int) + q.subrange(
            0,
            n as int,
        ));
    }
}

/// Round robin: in as many turns as the queue is long, each entry has exactly
/// one, in order, and the queue is then as before.
pub proof fn every_vm_has_its_turn(q: Seq<VmSchedEntry>, n: nat)
    requires
        n < q.len(),
    ensures
        rotated_by(q, n)[0] == q[n as int],
        rotated_by(q, q.len()) == q,
{
    rotations_shift(q, n);
    rotations_shift(q, q.len());
    assert(rotated_by(q, q.len()) =~= q);
}

/// A VM that was killed never has a turn again.
pub proof fn killed_is_not_scheduled(q: Seq<VmSchedEntry>, vm: VmId)
    ensures
        !is_queued(without(q, vm), vm),
{
    queued_without(q, vm, vm);
}

/// Killing a VM that was just spawned leaves the queue as it was, where the id
/// is fresh.
pub proof fn kill_undoes_spawn(q: Seq<VmSchedEntry>, entry: VmSchedEntry)
    requires
        !is_queued(q, entry.vm_id),
    ensures
        without(q.push(entry), entry.vm_id) == q,
{
    let p = q.push(entry);
    let f = |e: VmSchedEntry| e.vm_id != entry.vm_id;
    assert forall|j: int| 0 <= j < p.len() && j != q.len() implies f(#[trigger] p[j]) by {
        assert(p[j] == q[j]);
        assert(q[j].vm_id != entry.vm_id);
    }
    sequences::filter_but_one(p, f, q.len() as int);
    assert(p.remove(q.len() as int) =~= q);
}

/// The numbers of different host calls differ.
pub proof fn kinds_differ(a: HostCall, b: HostCall)
    ensures
        kind_of(a) == kind_of(b) ==> a == b,
{
}

/// The kinds of the host calls count up from one.
pub proof fn kinds_count_up(c: HostCall)
    ensures
        kind_of(c) == 1 <==> c == HostCall::ReadMemory,
        kind_of(c) == 2 <==> c == HostCall::WriteMemory,
        kind_of(c) == 3 <==> c == HostCall::QueryHal,
        kind_of(c) == 4 <==> c == HostCall::SendMessage,
        kind_of(c) == 5 <==> c == HostCall::LogEvent,
{
}

/// What is told of a machine is its own: who it is, whose, how it stands and
/// what memory it holds. Nothing else is metered.
pub proof fn machines_are_described(vm: AuthorityVm)
    requires
        vm.memory.bytes@.len() <= u64::MAX,
    ensures
        info_of(vm).id == vm.id,
        info_of(vm).agent == vm.agent,
        info_of(vm).state == vm.state,
        info_of(vm).memory_bytes == vm.memory.bytes@.len(),
        info_of(vm).cpu_seconds == 0,
        info_of(vm).syscalls == 0,
{
}

/// A turn moves the first of the queue behind the last, and keeps the others in
/// their order.
pub proof fn turns_rotate<T>(q: Seq<T>, i: int)
    requires
        0 <= i < q.len(),
    ensures
        rotated(q).len() == q.len(),
        i > 0 ==> rotated(q)[i - 1] == q[i],
        rotated(q).last() == q[0],
{
}

} // verus!
