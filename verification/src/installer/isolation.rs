//! What a sandbox is made of: its namespaces, its bind mounts and its control
//! group. No kernel interface is called.

use vstd::prelude::*;
use vstd::string::StringExecFns;

use crate::ident;
use crate::table::Key;
use crate::table::Table;

verus! {

/// Errors returned by the isolation layer.
#[derive(Clone, Debug)]
pub enum IsolationError {
    /// The running kernel does not support one of the requested namespaces.
    NamespaceUnsupported,
    /// The child could not be created in its namespaces.
    CloneFailed(String),
    /// A mount failed.
    MountFailed {
        /// Mount target inside the new namespace.
        target: String,
        /// Underlying message.
        reason: String,
    },
    /// The control group could not be created or written to.
    CgroupFailed(String),
    /// A sandbox was entered from outside any sandbox.
    NotInSandbox,
}

impl IsolationError {
    /// The error as one line.
    pub fn to_text(&self) -> (t: String)
        ensures
            t@ == (match *self {
                IsolationError::NamespaceUnsupported => "namespace unsupported by kernel"@,
                IsolationError::CloneFailed(e) => "clone failed: "@ + e@,
                IsolationError::MountFailed { target, reason } => "mount failed at "@ + target@
                    + ": "@ + reason@,
                IsolationError::CgroupFailed(e) => "cgroup setup failed: "@ + e@,
                IsolationError::NotInSandbox => "not running inside a sandbox"@,
            }),
    {
        match self {
            IsolationError::NamespaceUnsupported => String::from_str(
                "namespace unsupported by kernel",
            ),
            IsolationError::CloneFailed(e) => String::from_str("clone failed: ").concat(
                e.as_str(),
            ),
            IsolationError::MountFailed { target, reason } => {
                let mut t = String::from_str("mount failed at ");
                t.append(target.as_str());
                t.append(": ");
                t.append(reason.as_str());
                t
            },
            IsolationError::CgroupFailed(e) => String::from_str("cgroup setup failed: ").concat(
                e.as_str(),
            ),
            IsolationError::NotInSandbox => String::from_str("not running inside a sandbox"),
        }
    }
}

/// Flag of `clone(2)` for a new mount namespace.
pub const CLONE_NEWNS: u64 = 0x0002_0000;

/// Flag of `clone(2)` for a new UTS namespace.
pub const CLONE_NEWUTS: u64 = 0x0400_0000;

/// Flag of `clone(2)` for a new IPC namespace.
pub const CLONE_NEWIPC: u64 = 0x0800_0000;

/// Flag of `clone(2)` for a new user namespace.
pub const CLONE_NEWUSER: u64 = 0x1000_0000;

/// Flag of `clone(2)` for a new PID namespace.
pub const CLONE_NEWPID: u64 = 0x2000_0000;

/// Flag of `clone(2)` for a new network namespace.
pub const CLONE_NEWNET: u64 = 0x4000_0000;

/// Which namespaces to unshare when building a sandbox.
#[derive(Clone, Copy, Debug, PartialEq, Eq, Structural)]
pub struct NamespaceSet {
    /// New mount namespace.
    pub mount: bool,
    /// New PID namespace.
    pub pid: bool,
    /// New network namespace.
    pub net: bool,
    /// New IPC namespace.
    pub ipc: bool,
    /// New UTS namespace.
    pub uts: bool,
    /// New user namespace.
    pub user: bool,
}

/// The namespaces of an install sandbox: all but the user namespace.
pub open spec fn default_namespaces() -> NamespaceSet {
    NamespaceSet { mount: true, pid: true, net: true, ipc: true, uts: true, user: false }
}

impl Default for NamespaceSet {
    fn default() -> (n: NamespaceSet)
        ensures
            n == default_namespaces(),
    {
        NamespaceSet { mount: true, pid: true, net: true, ipc: true, uts: true, user: false }
    }
}

/// A flag, where it is wanted.
pub open spec fn flag_if(wanted: bool, flag: u64) -> u64 {
    if wanted {
        flag
    } else {
        0
    }
}

/// The flags word of a set of namespaces.
pub open spec fn flags_of(n: NamespaceSet) -> u64 {
    flag_if(n.mount, 0x0002_0000) | flag_if(n.pid, 0x2000_0000) | flag_if(n.net, 0x4000_0000)
        | flag_if(n.ipc, 0x0800_0000) | flag_if(n.uts, 0x0400_0000) | flag_if(n.user, 0x1000_0000)
}

impl NamespaceSet {
    /// The `clone(2)` flags word of this set.
    pub fn clone_flags(&self) -> (flags: u64)
        ensures
            flags == flags_of(*self),
    {
        let mount: u64 = if self.mount {
            CLONE_NEWNS
        } else {
            0
        };
        let pid: u64 = if self.pid {
            CLONE_NEWPID
        } else {
            0
        };
        let net: u64 = if self.net {
            CLONE_NEWNET
        } else {
            0
        };
        let ipc: u64 = if self.ipc {
            CLONE_NEWIPC
        } else {
            0
        };
        let uts: u64 = if self.uts {
            CLONE_NEWUTS
        } else {
            0
        };
        let user: u64 = if self.user {
            CLONE_NEWUSER
        } else {
            0
        };
        mount | pid | net | ipc | uts | user
    }
}

/// Each namespace has its own bit in the flags word, set where it is wanted, and
/// no other bit is set.
pub proof fn flags_tell_namespaces(n: NamespaceSet)
    ensures
        flags_of(n) & CLONE_NEWNS == flag_if(n.mount, CLONE_NEWNS),
        flags_of(n) & CLONE_NEWPID == flag_if(n.pid, CLONE_NEWPID),
        flags_of(n) & CLONE_NEWNET == flag_if(n.net, CLONE_NEWNET),
        flags_of(n) & CLONE_NEWIPC == flag_if(n.ipc, CLONE_NEWIPC),
        flags_of(n) & CLONE_NEWUTS == flag_if(n.uts, CLONE_NEWUTS),
        flags_of(n) & CLONE_NEWUSER == flag_if(n.user, CLONE_NEWUSER),
        flags_of(n) & !0x7c02_0000u64 == 0,
{
    let a = flag_if(n.mount, 0x0002_0000);
    let b = flag_if(n.pid, 0x2000_0000);
    let c = flag_if(n.net, 0x4000_0000);
    let d = flag_if(n.ipc, 0x0800_0000);
    let e = flag_if(n.uts, 0x0400_0000);
    let f = flag_if(n.user, 0x1000_0000);
    assert((a | b | c | d | e | f) & 0x0002_0000u64 == a && (a | b | c | d | e | f) & 0x2000_0000u64
        == b && (a | b | c | d | e | f) & 0x4000_0000u64 == c && (a | b | c | d | e | f)
        & 0x0800_0000u64 == d && (a | b | c | d | e | f) & 0x0400_0000u64 == e && (a | b | c | d | e
        | f) & 0x1000_0000u64 == f && (a | b | c | d | e | f) & !0x7c02_0000u64 == 0) by (bit_vector)
        requires
            a == 0 || a == 0x0002_0000u64,
            b == 0 || b == 0x2000_0000u64,
            c == 0 || c == 0x4000_0000u64,
            d == 0 || d == 0x0800_0000u64,
            e == 0 || e == 0x0400_0000u64,
            f == 0 || f == 0x1000_0000u64,
    ;
}

/// Stable identifier for the control group a sandbox lives in.
#[derive(Clone, Copy, Debug, PartialEq, Eq, Structural, Hash)]
pub struct CgroupId(pub u128);

impl Key for CgroupId {
    type Id = CgroupId;

    open spec fn id(&self) -> CgroupId {
        *self
    }

    fn same(&self, other: &Self) -> (r: bool) {
        *self == *other
    }
}

impl Default for CgroupId {
    fn default() -> (c: CgroupId)
        ensures
            ident::is_random_uuid(c.0),
    {
        CgroupId(ident::new_uuid())
    }
}

/// Configuration of a new sandbox.
#[derive(Clone, Debug)]
pub struct SandboxConfig {
    /// Which namespaces to unshare.
    pub namespaces: NamespaceSet,
    /// Root directory of the sandbox inside the host filesystem.
    pub root_dir: String,
    /// Read-only bind mounts: pairs of host path and sandbox path.
    pub ro_bind: Vec<(String, String)>,
    /// Read-write bind mounts: pairs of host path and sandbox path.
    pub rw_bind: Vec<(String, String)>,
    /// Hostname set inside the new UTS namespace.
    pub hostname: String,
    /// Parent path of the control group.
    pub cgroup_parent: String,
}

impl Default for SandboxConfig {
    fn default() -> (c: SandboxConfig)
        ensures
            c.namespaces == default_namespaces(),
            c.root_dir@ == "/var/lib/cognos/sandboxes/default"@,
            c.ro_bind@ == Seq::<(String, String)>::empty(),
            c.rw_bind@ == Seq::<(String, String)>::empty(),
            c.hostname@ == "cognos-sandbox"@,
            c.cgroup_parent@ == "/sys/fs/cgroup/cognos.slice"@,
    {
        SandboxConfig {
            namespaces: NamespaceSet::default(),
            root_dir: String::from_str("/var/lib/cognos/sandboxes/default"),
            ro_bind: Vec::new(),
            rw_bind: Vec::new(),
            hostname: String::from_str("cognos-sandbox"),
            cgroup_parent: String::from_str("/sys/fs/cgroup/cognos.slice"),
        }
    }
}

/// The PID of a sandbox that runs no process.
pub const NO_PID: i32 = -1;

/// A sandbox.
#[derive(Clone, Debug)]
pub struct Sandbox {
    /// PID of the process running inside the sandbox, or -1.
    pub pid: i32,
    /// Root directory of the sandbox.
    pub root_dir: String,
    /// The namespaces that are unshared.
    pub namespaces: NamespaceSet,
    /// Control group the sandbox lives in.
    pub cgroup: CgroupId,
}

/// A sandbox for a configuration in a control group. It runs no process.
pub fn create_in(config: SandboxConfig, cgroup: CgroupId) -> (r: Result<Sandbox, IsolationError>)
    ensures
        r == Ok::<Sandbox, IsolationError>(
            Sandbox {
                pid: NO_PID,
                root_dir: config.root_dir,
                namespaces: config.namespaces,
                cgroup,
            },
        ),
{
    Ok(Sandbox { pid: NO_PID, root_dir: config.root_dir, namespaces: config.namespaces, cgroup })
}

/// A sandbox for a configuration in a fresh control group. It runs no process.
pub fn create(config: SandboxConfig) -> (r: Result<Sandbox, IsolationError>)
    ensures
        r matches Ok(s) && s.pid == NO_PID && s.root_dir == config.root_dir && s.namespaces
            == config.namespaces && ident::is_random_uuid(s.cgroup.0),
{
    create_in(config, CgroupId::default())
}

impl Sandbox {
    /// Enters the sandbox from the current thread. There is no namespace to
    /// enter, so this is refused.
    pub fn enter(&self) -> (r: Result<(), IsolationError>)
        ensures
            r == Err::<(), IsolationError>(IsolationError::NotInSandbox),
    {
        Err(IsolationError::NotInSandbox)
    }

    /// Tears the sandbox down. There is nothing to tear down, so this succeeds.
    pub fn destroy(self) -> (r: Result<(), IsolationError>)
        ensures
            r == Ok::<(), IsolationError>(()),
    {
        Ok(())
    }
}

/// The live sandboxes.
#[derive(Debug)]
pub struct SandboxRegistry {
    /// The sandbox by control group.
    sandboxes: Table<CgroupId, Sandbox>,
}

impl Default for SandboxRegistry {
    fn default() -> (r: SandboxRegistry)
        ensures
            r.live()@ == Map::<CgroupId, Sandbox>::empty(),
    {
        SandboxRegistry { sandboxes: Table::new() }
    }
}

impl SandboxRegistry {
    /// The live sandboxes by cgroup.
    pub closed spec fn live(&self) -> Table<CgroupId, Sandbox> {
        self.sandboxes
    }

    /// An empty registry.
    pub fn new() -> (r: SandboxRegistry)
        ensures
            r.live()@ == Map::<CgroupId, Sandbox>::empty(),
    {
        SandboxRegistry::default()
    }

    /// Registers a sandbox and hands out the one of its control group: one that
    /// is already there stays.
    pub fn insert(&mut self, sandbox: Sandbox) -> (s: &mut Sandbox)
        ensures
            *s == (if old(self).live()@.dom().contains(sandbox.cgroup) {
                old(self).live()@[sandbox.cgroup]
            } else {
                sandbox
            }),
            final(self).live()@ == old(self).live()@.insert(sandbox.cgroup, *final(s)),
    {
        let id = sandbox.cgroup;
        if !self.sandboxes.contains_key(&id) {
            self.sandboxes.insert(id, sandbox);
        }
        self.sandboxes.get_mut(&id).unwrap()
    }

    /// The sandbox of a control group.
    pub fn get(&self, id: &CgroupId) -> (r: Option<&Sandbox>)
        ensures
            match r {
                Some(s) => self.live()@.dom().contains(*id) && *s == self.live()@[*id],
                None => !self.live()@.dom().contains(*id),
            },
    {
        self.sandboxes.get(id)
    }

    /// Number of live sandboxes.
    pub fn len(&self) -> (n: usize)
        ensures
            n == self.live()@.dom().len(),
    {
        self.sandboxes.len()
    }

    /// Whether there is no live sandbox.
    pub fn is_empty(&self) -> (r: bool)
        ensures
            r == (self.live()@.dom().len() == 0),
    {
        self.sandboxes.len() == 0
    }
}

/// The flags are single bits: the seventeenth for mounts, and from the
/// twenty-sixth on names, messages, users, processes and network.
pub proof fn flags_are_single_bits()
    ensures
        CLONE_NEWNS == 131_072,
        CLONE_NEWUTS == 512 * CLONE_NEWNS,
        CLONE_NEWIPC == 2 * CLONE_NEWUTS,
        CLONE_NEWUSER == 2 * CLONE_NEWIPC,
        CLONE_NEWPID == 2 * CLONE_NEWUSER,
        CLONE_NEWNET == 2 * CLONE_NEWPID,
{
}

/// By default everything is separated but the users.
pub proof fn users_are_shared_by_default(n: NamespaceSet)
    ensures
        n == default_namespaces() <==> n.mount && n.pid && n.net && n.ipc && n.uts && !n.user,
        NO_PID == -1,
{
}

} // verus!
