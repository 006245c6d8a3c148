//! Seccomp profiles: which system calls a sandbox may make.

use vstd::prelude::*;
use vstd::string::StringExecFns;

use crate::table::Key;
use crate::table::Table;

verus! {

/// Errors returned by the seccomp layer.
#[derive(Clone, Debug)]
pub enum SeccompError {
    /// The profile could not be compiled to a valid BPF program.
    Compile(String),
    /// The filter could not be installed.
    Install(String),
    /// The running kernel does not support seccomp-BPF.
    Unsupported,
}

impl SeccompError {
    /// The error as one line.
    pub fn to_text(&self) -> (t: String)
        ensures
            t@ == (match *self {
                SeccompError::Compile(e) => "seccomp compile failed: "@ + e@,
                SeccompError::Install(e) => "seccomp install failed: "@ + e@,
                SeccompError::Unsupported => "seccomp unsupported by kernel"@,
            }),
    {
        match self {
            SeccompError::Compile(e) => String::from_str("seccomp compile failed: ").concat(
                e.as_str(),
            ),
            SeccompError::Install(e) => String::from_str("seccomp install failed: ").concat(
                e.as_str(),
            ),
            SeccompError::Unsupported => String::from_str("seccomp unsupported by kernel"),
        }
    }
}

/// What the filter does when a syscall matches a rule.
#[derive(Clone, Copy, Debug, PartialEq, Eq, Structural, Hash)]
pub enum Action {
    /// Allow the syscall to proceed.
    Allow,
    /// Deny with `EPERM`.
    Deny,
    /// Kill the offending process.
    Kill,
    /// Trap to a userspace handler via `SIGSYS`.
    Trap,
    /// Allow but emit a log entry.
    Log,
}

/// The `seccomp(2)` return value of an action.
pub open spec fn ret_code_of(a: Action) -> u32 {
    match a {
        Action::Allow => 0x7fff_0000,
        Action::Deny => 0x0005_0000,
        Action::Kill => 0x8000_0000,
        Action::Trap => 0x0003_0000,
        Action::Log => 0x7ffc_0000,
    }
}

impl Action {
    /// The `seccomp(2)` return value of this action.
    pub fn ret_code(&self) -> (c: u32)
        ensures
            c == ret_code_of(*self),
    {
        match self {
            Action::Allow => 0x7fff_0000,
            Action::Deny => 0x0005_0000,
            Action::Kill => 0x8000_0000,
            Action::Trap => 0x0003_0000,
            Action::Log => 0x7ffc_0000,
        }
    }
}

/// Different actions have different return values.
pub proof fn ret_codes_differ(a: Action, b: Action)
    ensures
        ret_code_of(a) == ret_code_of(b) ==> a == b,
{
}

/// The syscalls the seccomp layer cares about. The list is closed.
#[derive(Clone, Copy, Debug, PartialEq, Eq, Structural, Hash)]
pub enum SyscallNo {
    /// `init_module`: load a kernel module.
    KernelModule,
    /// `finit_module`: load a kernel module from a file descriptor.
    FinitModule,
    /// `delete_module`: unload a kernel module.
    DeleteModule,
    /// `mount`: mount a filesystem.
    Mount,
    /// `umount2`: unmount a filesystem.
    Umount2,
    /// `pivot_root`: swap the root filesystem.
    PivotRoot,
    /// `reboot`: reboot or power off.
    Reboot,
    /// `kexec_load`: load a new kernel.
    KexecLoad,
    /// `kexec_file_load`: load a new kernel from a file descriptor.
    KexecFileLoad,
    /// `ptrace`: trace or manipulate another process.
    Ptrace,
    /// `ptrace_setuid`: trace with changed credentials.
    PtraceSetuid,
    /// `perf_event_open`: open a perf counter.
    PerfEventOpen,
    /// `bpf`: load and manage BPF programs.
    Bpf,
    /// `clone`: fork with options.
    Clone,
    /// `fork`: fork.
    Fork,
    /// `execve`: execute a program.
    Execve,
    /// `execveat`: execute a program relative to a directory.
    Execveat,
    /// `keyctl`: kernel keyring manipulation.
    Keyctl,
    /// `nfsservctl`: NFS daemon control.
    Nfsservctl,
    /// `swapon`: swap management.
    Swapon,
    /// `setns`: re-enter a namespace.
    Setns,
    /// `unshare`: leave the current namespaces.
    Unshare,
}

impl Key for SyscallNo {
    type Id = SyscallNo;

    open spec fn id(&self) -> SyscallNo {
        *self
    }

    fn same(&self, other: &Self) -> (r: bool) {
        *self == *other
    }
}

/// The name of a syscall.
pub open spec fn name_of(s: SyscallNo) -> Seq<char> {
    match s {
        SyscallNo::KernelModule => "kernel_module"@,
        SyscallNo::FinitModule => "finit_module"@,
        SyscallNo::DeleteModule => "delete_module"@,
        SyscallNo::Mount => "mount"@,
        SyscallNo::Umount2 => "umount2"@,
        SyscallNo::PivotRoot => "pivot_root"@,
        SyscallNo::Reboot => "reboot"@,
        SyscallNo::KexecLoad => "kexec_load"@,
        SyscallNo::KexecFileLoad => "kexec_file_load"@,
        SyscallNo::Ptrace => "ptrace"@,
        SyscallNo::PtraceSetuid => "ptrace_setuid"@,
        SyscallNo::PerfEventOpen => "perf_event_open"@,
        SyscallNo::Bpf => "bpf"@,
        SyscallNo::Clone => "clone"@,
        SyscallNo::Fork => "fork"@,
        SyscallNo::Execve => "execve"@,
        SyscallNo::Execveat => "execveat"@,
        SyscallNo::Keyctl => "keyctl"@,
        SyscallNo::Nfsservctl => "nfsservctl"@,
        SyscallNo::Swapon => "swapon"@,
        SyscallNo::Setns => "setns"@,
        SyscallNo::Unshare => "unshare"@,
    }
}

impl SyscallNo {
    /// The number of the syscall on the host architecture. No table of numbers
    /// exists, so there is none.
    pub fn number(&self) -> (r: Option<i32>)
        ensures
            r == None::<i32>,
    {
        None
    }

    /// The name of the syscall: that of its variant in snake case.
    pub fn name(&self) -> (n: &'static str)
        ensures
            n@ == name_of(*self),
    {
        match self {
            SyscallNo::KernelModule => "kernel_module",
            SyscallNo::FinitModule => "finit_module",
            SyscallNo::DeleteModule => "delete_module",
            SyscallNo::Mount => "mount",
            SyscallNo::Umount2 => "umount2",
            SyscallNo::PivotRoot => "pivot_root",
            SyscallNo::Reboot => "reboot",
            SyscallNo::KexecLoad => "kexec_load",
            SyscallNo::KexecFileLoad => "kexec_file_load",
            SyscallNo::Ptrace => "ptrace",
            SyscallNo::PtraceSetuid => "ptrace_setuid",
            SyscallNo::PerfEventOpen => "perf_event_open",
            SyscallNo::Bpf => "bpf",
            SyscallNo::Clone => "clone",
            SyscallNo::Fork => "fork",
            SyscallNo::Execve => "execve",
            SyscallNo::Execveat => "execveat",
            SyscallNo::Keyctl => "keyctl",
            SyscallNo::Nfsservctl => "nfsservctl",
            SyscallNo::Swapon => "swapon",
            SyscallNo::Setns => "setns",
            SyscallNo::Unshare => "unshare",
        }
    }
}

/// One classic BPF instruction.
#[derive(Clone, Copy, Debug, PartialEq, Eq, Structural)]
pub struct BpfInsn {
    /// Opcode.
    pub code: u16,
    /// Jump-true target (instruction index).
    pub jt: u8,
    /// Jump-false target (instruction index).
    pub jf: u8,
    /// Constant, mask or argument.
    pub k: u32,
}

/// The instruction that returns "allow".
pub open spec fn allow_insn() -> BpfInsn {
    BpfInsn { code: 0x06, jt: 0, jf: 0, k: ret_code_of(Action::Allow) }
}

impl BpfInsn {
    /// The instruction that returns "allow".
    pub fn allow() -> (i: BpfInsn)
        ensures
            i == allow_insn(),
    {
        BpfInsn { code: 0x06, jt: 0, jf: 0, k: Action::Allow.ret_code() }
    }
}

/// A seccomp profile: an allowlist, a denylist, and what happens to a syscall
/// in neither.
#[derive(Debug)]
pub struct SeccompProfile {
    /// Syscalls explicitly allowed.
    pub allowlist: Table<SyscallNo, ()>,
    /// Syscalls explicitly denied.
    pub denylist: Table<SyscallNo, ()>,
    /// Default action for syscalls in neither list.
    pub default: Action,
}

/// Whether a syscall is denied by default: those that touch modules, mounts,
/// the kernel image, other processes, performance counters, BPF, keyrings,
/// swap or namespaces.
pub open spec fn denied_by_default(s: SyscallNo) -> bool {
    !(s == SyscallNo::Clone || s == SyscallNo::Fork || s == SyscallNo::Execve || s
        == SyscallNo::Execveat)
}

impl Default for SeccompProfile {
    fn default() -> (p: SeccompProfile)
        ensures
            p.is_default_profile(),
    {
        default_profile()
    }
}

/// The default install profile: what is denied by default is denied, and
/// everything else allowed.
pub fn default_profile() -> (p: SeccompProfile)
    ensures
        p.is_default_profile(),
        p.is_disjoint(),
{
    let mut deny: Table<SyscallNo, ()> = Table::new();
    deny.insert(SyscallNo::Mount, ());
    deny.insert(SyscallNo::Umount2, ());
    deny.insert(SyscallNo::PivotRoot, ());
    deny.insert(SyscallNo::KernelModule, ());
    deny.insert(SyscallNo::FinitModule, ());
    deny.insert(SyscallNo::DeleteModule, ());
    deny.insert(SyscallNo::KexecLoad, ());
    deny.insert(SyscallNo::KexecFileLoad, ());
    deny.insert(SyscallNo::Reboot, ());
    deny.insert(SyscallNo::Ptrace, ());
    deny.insert(SyscallNo::PtraceSetuid, ());
    deny.insert(SyscallNo::PerfEventOpen, ());
    deny.insert(SyscallNo::Bpf, ());
    deny.insert(SyscallNo::Keyctl, ());
    deny.insert(SyscallNo::Nfsservctl, ());
    deny.insert(SyscallNo::Swapon, ());
    deny.insert(SyscallNo::Setns, ());
    deny.insert(SyscallNo::Unshare, ());
    SeccompProfile { allowlist: Table::new(), denylist: deny, default: Action::Allow }
}

/// The strict profile: every syscall of the list is denied, and so is what is
/// not listed.
pub fn strict_profile() -> (p: SeccompProfile)
    ensures
        p.is_strict_profile(),
        p.is_disjoint(),
{
    let mut p = default_profile();
    p.denylist.insert(SyscallNo::Clone, ());
    p.denylist.insert(SyscallNo::Fork, ());
    p.denylist.insert(SyscallNo::Execve, ());
    p.denylist.insert(SyscallNo::Execveat, ());
    p.default = Action::Deny;
    p
}

impl SeccompProfile {
    /// Whether the profile is the default one.
    pub open spec fn is_default_profile(&self) -> bool {
        &&& self.allowlist@ == Map::<SyscallNo, ()>::empty()
        &&& forall|s: SyscallNo| #[trigger]
            self.denylist@.dom().contains(s) <==> denied_by_default(s)
        &&& self.default == Action::Allow
    }

    /// Whether the profile is the strict one.
    pub open spec fn is_strict_profile(&self) -> bool {
        &&& self.allowlist@ == Map::<SyscallNo, ()>::empty()
        &&& forall|s: SyscallNo| #[trigger] self.denylist@.dom().contains(s)
        &&& self.default == Action::Deny
    }

    /// Whether no syscall is both allowed and denied.
    pub open spec fn is_disjoint(&self) -> bool {
        forall|s: SyscallNo|
            !(#[trigger] self.allowlist@.dom().contains(s) && self.denylist@.dom().contains(s))
    }

    /// An empty profile that denies by default.
    pub fn empty_deny() -> (p: SeccompProfile)
        ensures
            p.allowlist@ == Map::<SyscallNo, ()>::empty(),
            p.denylist@ == Map::<SyscallNo, ()>::empty(),
            p.default == Action::Deny,
            p.is_disjoint(),
    {
        SeccompProfile { allowlist: Table::new(), denylist: Table::new(), default: Action::Deny }
    }

    /// Allows one more syscall; it is no longer denied.
    pub fn allow(&mut self, s: SyscallNo) -> (p: &mut SeccompProfile)
        ensures
            p.allowlist@ == old(self).allowlist@.insert(s, ()),
            p.denylist@ == old(self).denylist@.remove(s),
            p.default == old(self).default,
            old(self).is_disjoint() ==> p.is_disjoint(),
            *final(self) == *final(p),
    {
        let _ = self.denylist.remove(&s);
        self.allowlist.insert(s, ());
        proof {
            if old(self).is_disjoint() {
                assert forall|t: SyscallNo|
                    !(#[trigger] self.allowlist@.dom().contains(t)
                        && self.denylist@.dom().contains(t)) by {
                    if t != s {
                        assert(old(self).allowlist@.dom().contains(t)
                            == self.allowlist@.dom().contains(t));
                    }
                }
            }
        }
        self
    }

    /// Denies one more syscall; it is no longer allowed.
    pub fn deny(&mut self, s: SyscallNo) -> (p: &mut SeccompProfile)
        ensures
            p.allowlist@ == old(self).allowlist@.remove(s),
            p.denylist@ == old(self).denylist@.insert(s, ()),
            p.default == old(self).default,
            old(self).is_disjoint() ==> p.is_disjoint(),
            *final(self) == *final(p),
    {
        let _ = self.allowlist.remove(&s);
        self.denylist.insert(s, ());
        proof {
            if old(self).is_disjoint() {
                assert forall|t: SyscallNo|
                    !(#[trigger] self.allowlist@.dom().contains(t)
                        && self.denylist@.dom().contains(t)) by {
                    if t != s {
                        assert(old(self).allowlist@.dom().contains(t)
                            == self.allowlist@.dom().contains(t));
                    }
                }
            }
        }
        self
    }

    /// The BPF program of the profile. No comparison is emitted: the program is
    /// the trailing instruction alone, whatever the profile.
    pub fn compile(&self) -> (r: Result<Vec<BpfInsn>, SeccompError>)
        ensures
            r matches Ok(prog) && prog@ == seq![allow_insn()],
    {
        let mut prog: Vec<BpfInsn> = Vec::new();
        prog.push(BpfInsn::allow());
        assert(prog@ =~= seq![allow_insn()]);
        Ok(prog)
    }

    /// Installs the profile on the current thread. No system call is made, so
    /// this is refused.
    pub fn install(&self) -> (r: Result<(), SeccompError>)
        ensures
            r == Err::<(), SeccompError>(SeccompError::Unsupported),
    {
        match self.compile() {
            Ok(_) => Err(SeccompError::Unsupported),
            Err(e) => Err(e),
        }
    }
}

/// The strict profile denies whatever the default profile denies.
pub proof fn strict_is_stricter(d: SeccompProfile, s: SeccompProfile, call: SyscallNo)
    requires
        d.is_default_profile(),
        s.is_strict_profile(),
        d.denylist@.dom().contains(call),
    ensures
        s.denylist@.dom().contains(call),
        !s.allowlist@.dom().contains(call),
{
}

/// The codes rank the actions: killing has the highest bit, and below it come
/// allowing, logging, denying and trapping.
pub proof fn codes_rank_actions(a: Action)
    ensures
        ret_code_of(a) == 2_147_483_648 <==> a == Action::Kill,
        ret_code_of(a) == 32_767 * 65_536 <==> a == Action::Allow,
        ret_code_of(a) == 32_764 * 65_536 <==> a == Action::Log,
        ret_code_of(a) == 5 * 65_536 <==> a == Action::Deny,
        ret_code_of(a) == 3 * 65_536 <==> a == Action::Trap,
{
}

/// A call is named as the kernel names it.
pub proof fn calls_are_named(s: SyscallNo)
    ensures
        s == SyscallNo::KernelModule ==> name_of(s) == "kernel_module"@,
        s == SyscallNo::FinitModule ==> name_of(s) == "finit_module"@,
        s == SyscallNo::DeleteModule ==> name_of(s) == "delete_module"@,
        s == SyscallNo::Mount ==> name_of(s) == "mount"@,
        s == SyscallNo::Umount2 ==> name_of(s) == "umount2"@,
        s == SyscallNo::PivotRoot ==> name_of(s) == "pivot_root"@,
        s == SyscallNo::Reboot ==> name_of(s) == "reboot"@,
        s == SyscallNo::KexecLoad ==> name_of(s) == "kexec_load"@,
        s == SyscallNo::KexecFileLoad ==> name_of(s) == "kexec_file_load"@,
        s == SyscallNo::Ptrace ==> name_of(s) == "ptrace"@,
        s == SyscallNo::PtraceSetuid ==> name_of(s) == "ptrace_setuid"@,
        s == SyscallNo::PerfEventOpen ==> name_of(s) == "perf_event_open"@,
        s == SyscallNo::Bpf ==> name_of(s) == "bpf"@,
        s == SyscallNo::Clone ==> name_of(s) == "clone"@,
        s == SyscallNo::Fork ==> name_of(s) == "fork"@,
        s == SyscallNo::Execve ==> name_of(s) == "execve"@,
        s == SyscallNo::Execveat ==> name_of(s) == "execveat"@,
        s == SyscallNo::Keyctl ==> name_of(s) == "keyctl"@,
        s == SyscallNo::Nfsservctl ==> name_of(s) == "nfsservctl"@,
        s == SyscallNo::Swapon ==> name_of(s) == "swapon"@,
        s == SyscallNo::Setns ==> name_of(s) == "setns"@,
        s == SyscallNo::Unshare ==> name_of(s) == "unshare"@,
{
}

/// The calls that the default profile denies, one by one; it lets processes be
/// made and started.
pub proof fn denied_calls_are_listed(p: SeccompProfile, s: SyscallNo)
    requires
        p.is_default_profile(),
    ensures
        p.denylist@.dom().contains(s) <==> s == SyscallNo::KernelModule || s == SyscallNo::FinitModule || s == SyscallNo::DeleteModule || s == SyscallNo::Mount || s == SyscallNo::Umount2 || s == SyscallNo::PivotRoot || s == SyscallNo::Reboot || s == SyscallNo::KexecLoad || s == SyscallNo::KexecFileLoad || s == SyscallNo::Ptrace || s == SyscallNo::PtraceSetuid || s == SyscallNo::PerfEventOpen || s == SyscallNo::Bpf || s == SyscallNo::Keyctl || s == SyscallNo::Nfsservctl || s == SyscallNo::Swapon || s == SyscallNo::Setns || s == SyscallNo::Unshare,
        !p.denylist@.dom().contains(s) <==> s == SyscallNo::Clone || s == SyscallNo::Fork || s
            == SyscallNo::Execve || s == SyscallNo::Execveat,
        !p.allowlist@.dom().contains(s),
        p.default == Action::Allow,
{
}

/// The strict profile allows nothing.
pub proof fn strict_allows_nothing(p: SeccompProfile, s: SyscallNo)
    requires
        p.is_strict_profile(),
    ensures
        p.denylist@.dom().contains(s),
        !p.allowlist@.dom().contains(s),
        p.default == Action::Deny,
{
}

/// The instruction that allows is a return with the code of allowing.
pub proof fn allowing_returns()
    ensures
        allow_insn().code == 6,
        allow_insn().jt == 0,
        allow_insn().jf == 0,
        allow_insn().k == 32_767 * 65_536,
{
}

} // verus!
