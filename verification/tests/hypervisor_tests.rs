//! Authority VMs, their isolation and their scheduling.

use cognos_hal::hypervisor::authority_vm::{
    AuthorityVm, Capability, HostCall, HostCallResult, Opcode, StepResult, VmError, VmExit,
    VmFault, VmMemory, VmProgram, VmState,
};
use cognos_hal::hypervisor::isolation::{
    AddressSpace, CapabilityLattice, IsolationError, Page, PagePerms, Resource, ResourceQuota,
    VmIsolation,
};
use cognos_hal::hypervisor::runtime::{
    new_vm_id, HypervisorError, HypervisorRuntime, SchedPolicy, VmScheduler,
};
use cognos_hal::table::Table;

fn program() -> VmProgram {
    VmProgram { bytecode: vec![1, 0, 0, 0], entry: 0, constants: Vec::new() }
}

type Handler = fn(&HostCall) -> HostCallResult;

fn log_handler(_call: &HostCall) -> HostCallResult {
    HostCallResult::Scalar(5)
}

#[test]
fn machines_start_halted_with_zeroed_memory() {
    let vm = AuthorityVm::new(3, program(), Table::new());
    assert_eq!(vm.state, VmState::Halted);
    assert_eq!(vm.memory.bytes.len(), 65_536);
    assert!(vm.memory.bytes.iter().all(|b| *b == 0));
    assert_eq!(vm.memory.stack_ptr, 65_536);
    assert_eq!(VmMemory::default().heap_ptr, 0);
    assert_eq!(Opcode::Fault.code(), 0xFF);
    assert_eq!(Opcode::Yield.code(), 0x11);
}

#[test]
fn running_executes_nothing() {
    let mut vm = AuthorityVm::default();
    assert_eq!(vm.run().unwrap(), VmExit::Halted);
    assert_eq!(vm.step().unwrap(), StepResult::Continued);
    assert_eq!(vm.instruction_count, 1);
    vm.instruction_count = u64::MAX;
    vm.step().unwrap();
    assert_eq!(vm.instruction_count, u64::MAX);
    assert_eq!(vm.invoke_host_call(HostCall::LogEvent).unwrap(), HostCallResult::Done);
    assert_eq!(vm.state, VmState::Running);
    assert_eq!(VmFault::StackOverflow.to_text(), "stack overflow");
    assert_eq!(VmError::HostError("x".to_string()).to_text(), "host error: x");
}

#[test]
fn scheduling_is_round_robin() {
    let mut s = VmScheduler::default();
    assert!(s.next().is_none());
    for id in 1..4 {
        s.enqueue(id, 0);
    }
    let turns: Vec<u128> = (0..6).map(|_| s.next().unwrap().vm_id).collect();
    assert_eq!(turns, vec![1, 2, 3, 1, 2, 3]);
    s.dequeue(2);
    let turns: Vec<u128> = (0..3).map(|_| s.next().unwrap().vm_id).collect();
    assert_eq!(turns, vec![1, 3, 1]);
    assert_eq!(s.policy, SchedPolicy::RoundRobin);
    assert_eq!(s.time_slice, 10);
}

#[test]
fn spawning_and_killing() {
    let mut r: HypervisorRuntime<Handler> = HypervisorRuntime::new();
    let e = r.spawn(3, VmProgram::default(), Table::new()).unwrap_err();
    assert_eq!(e.to_text(), "spawn failed: empty program");
    let id = r.spawn(3, program(), Table::new()).unwrap();
    r.spawn_as(9, 4, program(), Table::new()).unwrap();
    let infos = r.list_vms();
    assert_eq!(infos.len(), 2);
    assert_eq!(infos[0].id, id);
    assert_eq!(infos[0].memory_bytes, 65_536);
    assert_eq!(infos[1].agent, 4);
    assert_eq!(r.run_next(), Some(id));
    assert_eq!(r.run_next(), Some(9));
    assert_eq!(r.scheduler.time_slice, 10);
    assert_eq!(r.scheduler.policy, SchedPolicy::RoundRobin);
    r.kill(id).unwrap();
    assert_eq!(r.kill(id), Err(HypervisorError::VmNotFound(id)));
    assert_eq!(r.run_next(), Some(9));
    assert_eq!(r.run_next(), Some(9));
    r.kill(9).unwrap();
    assert_eq!(r.run_next(), None);
    assert_ne!(new_vm_id(), new_vm_id());
}

#[test]
fn host_calls_find_their_handler() {
    let mut r: HypervisorRuntime<Handler> = HypervisorRuntime::new();
    let e = r.dispatch_host_call(1, &HostCall::LogEvent).unwrap_err();
    assert_eq!(e.to_text(), "host call unregistered: LogEvent");
    r.host_call_handlers.insert(0x05, log_handler as Handler);
    let call = HostCall::LogEvent;
    let handler = r.dispatch_host_call(1, &call).unwrap();
    assert_eq!(handler(&call), HostCallResult::Scalar(5));
    assert!(r.dispatch_host_call(1, &HostCall::QueryHal).is_err());
}

#[test]
fn pages_are_found_by_address() {
    let page = |base: usize| Page { base, len: 16, perms: PagePerms::rw(), mapped: true };
    let a = AddressSpace { pages: vec![page(0), page(32)], page_size: 16 };
    assert_eq!(a.page_for(15), Some(&page(0)));
    assert_eq!(a.page_for(16), None);
    assert_eq!(a.page_for(32), Some(&page(32)));
    let top = Page { base: usize::MAX - 3, len: 16, perms: PagePerms::ro(), mapped: false };
    let high = AddressSpace { pages: vec![top], page_size: 16 };
    assert_eq!(high.page_for(usize::MAX), Some(&top));
    assert!(a.check_access(0, 99, PagePerms::rwx()).is_ok());
    assert!(!PagePerms::rx().write);
}

#[test]
fn isolation_permits_everything() {
    let mut i = VmIsolation::new(1, ResourceQuota::default());
    assert_eq!(i.resource_quota.max_memory_bytes, 256 * 1024 * 1024);
    assert_eq!(i.allocate(64).unwrap(), None);
    i.deallocate(None);
    assert!(i.check_capability(&Capability("net".to_string())).is_ok());
    assert!(i.check_quota(Resource::Cpu).is_ok());
    let l = CapabilityLattice::default();
    let net = Capability("net".to_string());
    assert!(l.implies(&net, &net.clone()));
    assert!(!l.implies(&net, &Capability("fs".to_string())));
    assert_eq!(IsolationError::InvalidPointer(0xbeef).to_text(), "invalid pointer: 0xbeef");
    assert_eq!(IsolationError::CrossVmAccess.to_text(), "cross-VM access denied");
}
