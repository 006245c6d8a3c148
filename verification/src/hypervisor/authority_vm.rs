//! A minimal virtual machine for agent logic at reduced privilege.
//!
//! Each machine has its own program, private memory and capability set. There
//! is no interpreter: running a machine executes no instruction.

use vstd::prelude::*;
use vstd::string::StringExecFns;

use crate::ident;
use crate::table::Key;
use crate::table::Table;

verus! {

/// Stable identifier for a VM instance.
pub type VmId = u128;

/// Stable identifier for the agent that owns a VM.
pub type AgentId = u128;

/// A capability token held by a VM.
#[derive(Debug, PartialEq, Eq, Hash)]
pub struct Capability(pub String);

impl Clone for Capability {
    fn clone(&self) -> (c: Capability)
        ensures
            c == *self,
    {
        Capability(self.0.clone())
    }
}

impl Key for Capability {
    type Id = Seq<char>;

    open spec fn id(&self) -> Seq<char> {
        self.0@
    }

    fn same(&self, other: &Self) -> (r: bool) {
        self.0 == other.0
    }
}

/// The operations of the instruction set.
#[derive(Clone, Copy, Debug, PartialEq, Eq, Structural)]
pub enum Opcode {
    /// No operation.
    Nop,
    /// Stop execution.
    Halt,
    /// Load a constant into a register.
    LoadConst,
    /// Load a word from memory.
    LoadMem,
    /// Store a register into memory.
    StoreMem,
    /// Add two registers.
    Add,
    /// Subtract two registers.
    Sub,
    /// Multiply two registers.
    Mul,
    /// Divide two registers; traps on zero.
    Div,
    /// Unconditional jump.
    Jmp,
    /// Jump if a register is zero.
    Jz,
    /// Jump if a register is not zero.
    Jnz,
    /// Push the program counter and jump.
    Call,
    /// Pop the program counter.
    Ret,
    /// Push a register onto the stack.
    Push,
    /// Pop the stack into a register.
    Pop,
    /// Issue a host call (capability-checked).
    Syscall,
    /// Yield the time slice.
    Yield,
    /// Force a fault (debugging).
    Fault,
}

/// The byte that stands for an operation.
pub open spec fn code_of(o: Opcode) -> u8 {
    match o {
        Opcode::Nop => 0x00,
        Opcode::Halt => 0x01,
        Opcode::LoadConst => 0x02,
        Opcode::LoadMem => 0x03,
        Opcode::StoreMem => 0x04,
        Opcode::Add => 0x05,
        Opcode::Sub => 0x06,
        Opcode::Mul => 0x07,
        Opcode::Div => 0x08,
        Opcode::Jmp => 0x09,
        Opcode::Jz => 0x0A,
        Opcode::Jnz => 0x0B,
        Opcode::Call => 0x0C,
        Opcode::Ret => 0x0D,
        Opcode::Push => 0x0E,
        Opcode::Pop => 0x0F,
        Opcode::Syscall => 0x10,
        Opcode::Yield => 0x11,
        Opcode::Fault => 0xFF,
    }
}

impl Opcode {
    /// The byte that stands for this operation.
    pub fn code(&self) -> (c: u8)
        ensures
            c == code_of(*self),
    {
        match self {
            Opcode::Nop => 0x00,
            Opcode::Halt => 0x01,
            Opcode::LoadConst => 0x02,
            Opcode::LoadMem => 0x03,
            Opcode::StoreMem => 0x04,
            Opcode::Add => 0x05,
            Opcode::Sub => 0x06,
            Opcode::Mul => 0x07,
            Opcode::Div => 0x08,
            Opcode::Jmp => 0x09,
            Opcode::Jz => 0x0A,
            Opcode::Jnz => 0x0B,
            Opcode::Call => 0x0C,
            Opcode::Ret => 0x0D,
            Opcode::Push => 0x0E,
            Opcode::Pop => 0x0F,
            Opcode::Syscall => 0x10,
            Opcode::Yield => 0x11,
            Opcode::Fault => 0xFF,
        }
    }
}

/// Different operations have different bytes.
pub proof fn codes_differ(a: Opcode, b: Opcode)
    ensures
        code_of(a) == code_of(b) ==> a == b,
{
}

/// A compiled VM program: bytecode plus its constant pool and entry point.
#[derive(Clone, Debug)]
pub struct VmProgram {
    /// Raw bytecode, four bytes per instruction.
    pub bytecode: Vec<u8>,
    /// Byte offset of the entry point within the bytecode.
    pub entry: u32,
    /// Constant pool.
    pub constants: Vec<u64>,
}

impl Default for VmProgram {
    fn default() -> (p: VmProgram)
        ensures
            p.bytecode@ == Seq::<u8>::empty(),
            p.entry == 0,
            p.constants@ == Seq::<u64>::empty(),
    {
        VmProgram { bytecode: Vec::new(), entry: 0, constants: Vec::new() }
    }
}

/// Bytes of memory a VM starts with.
pub const INITIAL_MEMORY: usize = 65_536;

/// The VM's private linear memory.
#[derive(Clone, Debug)]
pub struct VmMemory {
    /// Backing storage.
    pub bytes: Vec<u8>,
    /// Current stack pointer; the stack grows down from the end.
    pub stack_ptr: usize,
    /// Current heap pointer; the heap grows up from zero.
    pub heap_ptr: usize,
}

/// Whether memory is as a VM starts with it: zeroed, with an empty stack and an
/// empty heap.
pub open spec fn is_initial_memory(m: VmMemory) -> bool {
    &&& m.bytes@ == Seq::new(INITIAL_MEMORY as nat, |i: int| 0u8)
    &&& m.stack_ptr == INITIAL_MEMORY
    &&& m.heap_ptr == 0
}

impl Default for VmMemory {
    fn default() -> (m: VmMemory)
        ensures
            is_initial_memory(m),
    {
        let bytes: Vec<u8> = vec![0u8; INITIAL_MEMORY];
        assert(bytes@ =~= Seq::new(INITIAL_MEMORY as nat, |i: int| 0u8));
        VmMemory { bytes, stack_ptr: INITIAL_MEMORY, heap_ptr: 0 }
    }
}

/// A non-recoverable VM fault.
#[derive(Clone, Copy, Debug, PartialEq, Eq, Structural)]
pub enum VmFault {
    /// An unknown opcode or a malformed instruction.
    IllegalInstruction,
    /// A memory access exceeded the VM's allocated memory.
    OutOfMemory,
    /// A host call for which the VM lacks the capability.
    CapabilityViolation,
    /// The stack pointer crossed the heap pointer or went out of bounds.
    StackOverflow,
    /// A host call returned an error.
    HostCallFailed,
}

impl VmFault {
    /// The fault as one line.
    pub fn to_text(&self) -> (t: &'static str)
        ensures
            t@ == (match *self {
                VmFault::IllegalInstruction => "illegal instruction"@,
                VmFault::OutOfMemory => "out of memory"@,
                VmFault::CapabilityViolation => "capability violation"@,
                VmFault::StackOverflow => "stack overflow"@,
                VmFault::HostCallFailed => "host call failed"@,
            }),
    {
        match self {
            VmFault::IllegalInstruction => "illegal instruction",
            VmFault::OutOfMemory => "out of memory",
            VmFault::CapabilityViolation => "capability violation",
            VmFault::StackOverflow => "stack overflow",
            VmFault::HostCallFailed => "host call failed",
        }
    }
}

/// The runtime state of an [`AuthorityVm`].
#[derive(Clone, Copy, Debug, PartialEq, Eq, Structural)]
pub enum VmState {
    /// The VM has halted normally or has not yet been started.
    Halted,
    /// The VM is executing instructions.
    Running,
    /// The VM has issued a host call and waits for the host to respond.
    AwaitingHostCall,
    /// The VM has crashed with a fault; it cannot resume.
    Faulted(VmFault),
}

impl Default for VmState {
    fn default() -> (s: VmState)
        ensures
            s == VmState::Halted,
    {
        VmState::Halted
    }
}

/// The reason a VM stopped running.
#[derive(Clone, Copy, Debug, PartialEq, Eq, Structural)]
pub enum VmExit {
    /// The VM halted.
    Halted,
    /// The VM yielded or exhausted its time slice.
    Yielded,
    /// The VM faulted and cannot resume.
    Faulted(VmFault),
    /// The VM was killed by the runtime.
    Killed,
}

/// The result of a single step.
#[derive(Clone, Copy, Debug, PartialEq, Eq, Structural)]
pub enum StepResult {
    /// One instruction was executed successfully.
    Continued,
    /// The VM halted after this step.
    Halted,
    /// The VM yielded after this step.
    Yielded,
    /// The VM issued a host call and awaits a response.
    AwaitingHostCall,
    /// The VM faulted during this step.
    Faulted(VmFault),
}

impl Default for StepResult {
    fn default() -> (s: StepResult)
        ensures
            s == StepResult::Continued,
    {
        StepResult::Continued
    }
}

/// A call that a VM issues to the host.
#[derive(Clone, Copy, Debug, PartialEq, Eq, Structural)]
pub enum HostCall {
    /// Read a range of bytes from the agent's memory namespace.
    ReadMemory,
    /// Write a range of bytes to the agent's memory namespace.
    WriteMemory,
    /// Query the HAL for a decision on a proposed action.
    QueryHal,
    /// Send a message to another agent.
    SendMessage,
    /// Emit a structured event into the audit log.
    LogEvent,
}

/// The result returned by the host for a [`HostCall`].
#[derive(Clone, Debug, PartialEq, Eq)]
pub enum HostCallResult {
    /// The call succeeded.
    Done,
    /// The call succeeded with a small inline payload.
    Bytes(Vec<u8>),
    /// The call succeeded with a scalar.
    Scalar(u64),
    /// The call was rejected by the host.
    Denied,
    /// The call failed with a host-side error.
    Error(String),
}

impl Default for HostCallResult {
    fn default() -> (r: HostCallResult)
        ensures
            r == HostCallResult::Done,
    {
        HostCallResult::Done
    }
}

/// Errors returned by VM control operations.
#[derive(Clone, Debug, PartialEq, Eq)]
pub enum VmError {
    /// The provided program was malformed or unsupported.
    InvalidProgram(String),
    /// The VM lacks a capability required for the requested operation.
    CapabilityDenied(String),
    /// A host-side error occurred while servicing the VM.
    HostError(String),
}

impl VmError {
    /// The error as one line.
    pub fn to_text(&self) -> (t: String)
        ensures
            t@ == (match *self {
                VmError::InvalidProgram(e) => "invalid program: "@ + e@,
                VmError::CapabilityDenied(e) => "capability denied: "@ + e@,
                VmError::HostError(e) => "host error: "@ + e@,
            }),
    {
        match self {
            VmError::InvalidProgram(e) => String::from_str("invalid program: ").concat(e.as_str()),
            VmError::CapabilityDenied(e) => String::from_str("capability denied: ").concat(
                e.as_str(),
            ),
            VmError::HostError(e) => String::from_str("host error: ").concat(e.as_str()),
        }
    }
}

/// The name of a host call.
pub open spec fn call_name(c: HostCall) -> Seq<char> {
    match c {
        HostCall::ReadMemory => "ReadMemory"@,
        HostCall::WriteMemory => "WriteMemory"@,
        HostCall::QueryHal => "QueryHal"@,
        HostCall::SendMessage => "SendMessage"@,
        HostCall::LogEvent => "LogEvent"@,
    }
}

impl HostCall {
    /// The name of the host call.
    pub fn name(&self) -> (n: &'static str)
        ensures
            n@ == call_name(*self),
    {
        match self {
            HostCall::ReadMemory => "ReadMemory",
            HostCall::WriteMemory => "WriteMemory",
            HostCall::QueryHal => "QueryHal",
            HostCall::SendMessage => "SendMessage",
            HostCall::LogEvent => "LogEvent",
        }
    }
}

/// The authority VM.
#[derive(Debug)]
pub struct AuthorityVm {
    /// Stable VM identifier.
    pub id: VmId,
    /// Owning agent identifier.
    pub agent: AgentId,
    /// The program loaded into this VM.
    pub program: VmProgram,
    /// The VM's private linear memory.
    pub memory: VmMemory,
    /// The capability set bounding which host calls this VM may issue.
    pub capabilities: Table<Capability, ()>,
    /// Current execution state.
    pub state: VmState,
    /// Number of instructions executed.
    pub instruction_count: u64,
}

impl AuthorityVm {
    /// Whether a VM was just made for an agent with a program and capabilities.
    pub open spec fn is_fresh(
        &self,
        agent: AgentId,
        program: VmProgram,
        capabilities: Table<Capability, ()>,
    ) -> bool {
        &&& self.agent == agent
        &&& self.program == program
        &&& is_initial_memory(self.memory)
        &&& self.capabilities == capabilities
        &&& self.state == VmState::Halted
        &&& self.instruction_count == 0
    }

    /// Whether only the state and the instruction count of a VM differ.
    pub open spec fn same_machine(&self, other: AuthorityVm) -> bool {
        &&& self.id == other.id
        &&& self.agent == other.agent
        &&& self.program == other.program
        &&& self.memory == other.memory
        &&& self.capabilities == other.capabilities
    }

    /// A VM of an id for an agent with a program and capabilities.
    pub fn with_id(
        id: VmId,
        agent: AgentId,
        program: VmProgram,
        capabilities: Table<Capability, ()>,
    ) -> (vm: AuthorityVm)
        ensures
            vm.id == id,
            vm.is_fresh(agent, program, capabilities),
    {
        AuthorityVm {
            id,
            agent,
            program,
            memory: VmMemory::default(),
            capabilities,
            state: VmState::Halted,
            instruction_count: 0,
        }
    }

    /// A VM of a fresh id for an agent with a program and capabilities.
    pub fn new(agent: AgentId, program: VmProgram, capabilities: Table<Capability, ()>) -> (vm:
        AuthorityVm)
        ensures
            ident::is_random_uuid(vm.id),
            vm.is_fresh(agent, program, capabilities),
    {
        AuthorityVm::with_id(ident::new_uuid(), agent, program, capabilities)
    }

    /// Runs the VM until it exits. No instruction is executed: the VM halts.
    pub fn run(&mut self) -> (r: Result<VmExit, VmError>)
        ensures
            r == Ok::<VmExit, VmError>(VmExit::Halted),
            final(self).same_machine(*old(self)),
            final(self).state == VmState::Halted,
            final(self).instruction_count == old(self).instruction_count,
    {
        self.state = VmState::Halted;
        Ok(VmExit::Halted)
    }

    /// Takes one step. No instruction is decoded: the step is counted.
    pub fn step(&mut self) -> (r: Result<StepResult, VmError>)
        ensures
            r == Ok::<StepResult, VmError>(StepResult::Continued),
            final(self).same_machine(*old(self)),
            final(self).state == old(self).state,
            final(self).instruction_count == (if old(self).instruction_count < u64::MAX {
                (old(self).instruction_count + 1) as u64
            } else {
                u64::MAX
            }),
    {
        if self.instruction_count < u64::MAX {
            self.instruction_count = self.instruction_count + 1;
        }
        Ok(StepResult::Continued)
    }

    /// Issues a host call. Every VM has the capability for every call, so it
    /// succeeds and the VM runs on.
    pub fn invoke_host_call(&mut self, call: HostCall) -> (r: Result<HostCallResult, VmError>)
        ensures
            r == Ok::<HostCallResult, VmError>(HostCallResult::Done),
            final(self).same_machine(*old(self)),
            final(self).state == VmState::Running,
            final(self).instruction_count == old(self).instruction_count,
    {
        if !self.has_capability_for(&call) {
            self.state = VmState::Faulted(VmFault::CapabilityViolation);
            return Err(VmError::CapabilityDenied(call.name().to_owned()));
        }
        self.state = VmState::Running;
        Ok(HostCallResult::Done)
    }

    fn has_capability_for(&self, _call: &HostCall) -> (r: bool)
        ensures
            r,
    {
        true
    }
}

impl Default for AuthorityVm {
    fn default() -> (vm: AuthorityVm)
        ensures
            ident::is_random_uuid(vm.id),
            vm.agent == 0,
            vm.program.bytecode@ == Seq::<u8>::empty(),
            vm.program.entry == 0,
            vm.program.constants@ == Seq::<u64>::empty(),
            is_initial_memory(vm.memory),
            vm.capabilities@ == Map::<Seq<char>, ()>::empty(),
            vm.state == VmState::Halted,
            vm.instruction_count == 0,
    {
        AuthorityVm::new(0, VmProgram::default(), Table::new())
    }
}

/// The codes count up from zero in the order of the instructions; a fault has
/// all bits set.
pub proof fn codes_count_up(o: Opcode)
    ensures
        code_of(o) == 0 <==> o == Opcode::Nop,
        code_of(o) == 1 <==> o == Opcode::Halt,
        code_of(o) == 2 <==> o == Opcode::LoadConst,
        code_of(o) == 3 <==> o == Opcode::LoadMem,
        code_of(o) == 4 <==> o == Opcode::StoreMem,
        code_of(o) == 5 <==> o == Opcode::Add,
        code_of(o) == 6 <==> o == Opcode::Sub,
        code_of(o) == 7 <==> o == Opcode::Mul,
        code_of(o) == 8 <==> o == Opcode::Div,
        code_of(o) == 9 <==> o == Opcode::Jmp,
        code_of(o) == 10 <==> o == Opcode::Jz,
        code_of(o) == 11 <==> o == Opcode::Jnz,
        code_of(o) == 12 <==> o == Opcode::Call,
        code_of(o) == 13 <==> o == Opcode::Ret,
        code_of(o) == 14 <==> o == Opcode::Push,
        code_of(o) == 15 <==> o == Opcode::Pop,
        code_of(o) == 16 <==> o == Opcode::Syscall,
        code_of(o) == 17 <==> o == Opcode::Yield,
        code_of(o) == 255 <==> o == Opcode::Fault,
        code_of(o) < 18 || code_of(o) == 255,
{
}

/// A machine starts with sixty-four kibibytes of zeros, its stack at the end of
/// them and its heap at the start.
pub proof fn memory_starts_blank(m: VmMemory, i: int)
    requires
        is_initial_memory(m),
    ensures
        m.bytes@.len() == 64 * 1024,
        0 <= i < 64 * 1024 ==> m.bytes@[i] == 0,
        m.stack_ptr == 64 * 1024,
        m.heap_ptr == 0,
{
}

/// A host call is named as it is called.
pub proof fn calls_are_named(c: HostCall)
    ensures
        c == HostCall::ReadMemory ==> call_name(c) == "ReadMemory"@,
        c == HostCall::WriteMemory ==> call_name(c) == "WriteMemory"@,
        c == HostCall::QueryHal ==> call_name(c) == "QueryHal"@,
        c == HostCall::SendMessage ==> call_name(c) == "SendMessage"@,
        c == HostCall::LogEvent ==> call_name(c) == "LogEvent"@,
{
}

} // verus!
