//! Boundaries between VMs: address spaces, quotas and capabilities. Access,
//! capability and quota checks permit everything.

use vstd::prelude::*;
use vstd::string::StringExecFns;

use crate::hypervisor::authority_vm::Capability;
use crate::hypervisor::authority_vm::VmId;
use crate::text;

verus! {

/// Permissions for a region of VM memory.
#[derive(Clone, Copy, Debug, PartialEq, Eq, Structural)]
pub struct PagePerms {
    /// Page may be read.
    pub read: bool,
    /// Page may be written.
    pub write: bool,
    /// Page may be executed.
    pub execute: bool,
}

impl Default for PagePerms {
    fn default() -> (p: PagePerms)
        ensures
            p == (PagePerms { read: false, write: false, execute: false }),
    {
        PagePerms { read: false, write: false, execute: false }
    }
}

impl PagePerms {
    /// Read, write and execute (reserved for trusted loaders).
    pub fn rwx() -> (p: PagePerms)
        ensures
            p == (PagePerms { read: true, write: true, execute: true }),
    {
        PagePerms { read: true, write: true, execute: true }
    }

    /// Read only (e.g. constant pool).
    pub fn ro() -> (p: PagePerms)
        ensures
            p == (PagePerms { read: true, write: false, execute: false }),
    {
        PagePerms { read: true, write: false, execute: false }
    }

    /// Read and write (e.g. heap, stack).
    pub fn rw() -> (p: PagePerms)
        ensures
            p == (PagePerms { read: true, write: true, execute: false }),
    {
        PagePerms { read: true, write: true, execute: false }
    }

    /// Read and execute (e.g. bytecode segment).
    pub fn rx() -> (p: PagePerms)
        ensures
            p == (PagePerms { read: true, write: false, execute: true }),
    {
        PagePerms { read: true, write: false, execute: true }
    }
}

/// A single page in a VM's [`AddressSpace`].
#[derive(Clone, Copy, Debug, PartialEq, Eq, Structural)]
pub struct Page {
    /// Base address of the page.
    pub base: usize,
    /// Length of the page in bytes.
    pub len: usize,
    /// Permissions for this page.
    pub perms: PagePerms,
    /// Whether the page is backed by host memory.
    pub mapped: bool,
}

/// Whether an address lies in a page.
pub open spec fn in_page(p: Page, addr: usize) -> bool {
    p.base <= addr < p.base + p.len
}

/// Whether the page at a place is the first that an address lies in.
pub open spec fn is_page_of(pages: Seq<Page>, addr: usize, k: int) -> bool {
    &&& 0 <= k < pages.len()
    &&& in_page(pages[k], addr)
    &&& forall|i: int| 0 <= i < k ==> !in_page(#[trigger] pages[i], addr)
}

/// Whether an address lies in no page.
pub open spec fn is_unmapped(pages: Seq<Page>, addr: usize) -> bool {
    forall|i: int| 0 <= i < pages.len() ==> !in_page(#[trigger] pages[i], addr)
}

/// A VM's private address space.
#[derive(Clone, Debug)]
pub struct AddressSpace {
    /// Pages in the address space, ordered by base.
    pub pages: Vec<Page>,
    /// Page size in bytes.
    pub page_size: usize,
}

impl Default for AddressSpace {
    fn default() -> (a: AddressSpace)
        ensures
            a.pages@ == Seq::<Page>::empty(),
            a.page_size == 4096,
    {
        AddressSpace { pages: Vec::new(), page_size: 4096 }
    }
}

impl AddressSpace {
    /// The first page that an address lies in.
    pub fn page_for(&self, addr: usize) -> (r: Option<&Page>)
        ensures
            match r {
                Some(p) => exists|k: int| #[trigger]
                    is_page_of(self.pages@, addr, k) && *p == self.pages@[k],
                None => is_unmapped(self.pages@, addr),
            },
    {
        let mut i: usize = 0;
        while i < self.pages.len()
            invariant
                i <= self.pages@.len(),
                forall|j: int| 0 <= j < i ==> !in_page(#[trigger] self.pages@[j], addr),
            decreases self.pages@.len() - i,
        {
            let p = &self.pages[i];
            if addr >= p.base && addr - p.base < p.len {
                assert(is_page_of(self.pages@, addr, i as int));
                return Some(p);
            }
            i += 1;
        }
        None
    }

    /// Whether a range is accessible with some permissions. Every access is
    /// permitted.
    pub fn check_access(&self, _addr: usize, _len: usize, _required: PagePerms) -> (r: Result<
        (),
        IsolationError,
    >)
        ensures
            r == Ok::<(), IsolationError>(()),
    {
        Ok(())
    }
}

/// Per-VM resource quota.
#[derive(Clone, Copy, Debug, PartialEq, Eq, Structural)]
pub struct ResourceQuota {
    /// Maximum resident memory in bytes.
    pub max_memory_bytes: u64,
    /// Maximum CPU time in seconds.
    pub max_cpu_seconds: u64,
    /// Maximum number of host calls the VM may issue.
    pub max_syscalls: u64,
    /// Maximum number of open file descriptors the VM may hold.
    pub max_fd: u64,
}

/// The quota that holds unless another is given: 256 MiB, a minute, ten
/// thousand host calls and 64 file descriptors.
pub open spec fn default_quota() -> ResourceQuota {
    ResourceQuota {
        max_memory_bytes: 268_435_456,
        max_cpu_seconds: 60,
        max_syscalls: 10_000,
        max_fd: 64,
    }
}

impl Default for ResourceQuota {
    fn default() -> (q: ResourceQuota)
        ensures
            q == default_quota(),
    {
        ResourceQuota {
            max_memory_bytes: 268_435_456,
            max_cpu_seconds: 60,
            max_syscalls: 10_000,
            max_fd: 64,
        }
    }
}

/// A resource that the quota speaks of.
#[derive(Clone, Copy, Debug, PartialEq, Eq, Structural)]
pub enum Resource {
    /// Resident memory in bytes.
    Memory,
    /// CPU seconds consumed.
    Cpu,
    /// Host calls issued.
    Syscalls,
    /// Open file descriptors held.
    Fd,
}

/// Which capability implies which: each implies itself alone.
#[derive(Clone, Copy, Debug, PartialEq, Eq, Structural)]
pub struct CapabilityLattice {}

impl Default for CapabilityLattice {
    fn default() -> (l: CapabilityLattice)
        ensures
            l == (CapabilityLattice {  }),
    {
        CapabilityLattice {  }
    }
}

impl CapabilityLattice {
    /// Whether holding one capability implies holding another.
    pub fn implies(&self, a: &Capability, b: &Capability) -> (r: bool)
        ensures
            r == (a.0@ == b.0@),
    {
        text::same_text(a.0.as_str(), b.0.as_str())
    }
}

/// Errors returned by isolation enforcement.
#[derive(Clone, Debug, PartialEq, Eq)]
pub enum IsolationError {
    /// The requested operation would exceed the VM's resource quota.
    OutOfQuota(String),
    /// The VM lacks the required capability.
    CapabilityDenied(String),
    /// The pointer does not refer to a valid mapping in this VM.
    InvalidPointer(usize),
    /// The operation would cross a VM boundary.
    CrossVmAccess,
}

impl IsolationError {
    /// The error as one line.
    pub fn to_text(&self) -> (t: String)
        ensures
            t@ == (match *self {
                IsolationError::OutOfQuota(e) => "out of quota: "@ + e@,
                IsolationError::CapabilityDenied(e) => "capability denied: "@ + e@,
                IsolationError::InvalidPointer(p) => "invalid pointer: 0x"@ + text::hex_digits(
                    p as nat,
                ),
                IsolationError::CrossVmAccess => "cross-VM access denied"@,
            }),
    {
        match self {
            IsolationError::OutOfQuota(e) => String::from_str("out of quota: ").concat(e.as_str()),
            IsolationError::CapabilityDenied(e) => String::from_str("capability denied: ").concat(
                e.as_str(),
            ),
            IsolationError::InvalidPointer(p) => {
                let digits = text::lower_hex(*p as u64);
                String::from_str("invalid pointer: 0x").concat(digits.as_str())
            },
            IsolationError::CrossVmAccess => String::from_str("cross-VM access denied"),
        }
    }
}

/// Per-VM isolation context.
#[derive(Clone, Debug)]
pub struct VmIsolation {
    /// The VM this context belongs to.
    pub vm_id: VmId,
    /// The VM's private address space.
    pub address_space: AddressSpace,
    /// The capability lattice used to decide implication.
    pub capability_lattice: CapabilityLattice,
    /// The resource quota bound to this VM.
    pub resource_quota: ResourceQuota,
}

impl VmIsolation {
    /// A context for a VM with a quota and an empty address space.
    pub fn new(vm_id: VmId, resource_quota: ResourceQuota) -> (i: VmIsolation)
        ensures
            i.vm_id == vm_id,
            i.address_space.pages@ == Seq::<Page>::empty(),
            i.address_space.page_size == 4096,
            i.capability_lattice == (CapabilityLattice {  }),
            i.resource_quota == resource_quota,
    {
        VmIsolation {
            vm_id,
            address_space: AddressSpace::default(),
            capability_lattice: CapabilityLattice::default(),
            resource_quota,
        }
    }

    /// Reserves memory. There is no allocator: the reservation succeeds with
    /// no address.
    pub fn allocate(&mut self, _size: usize) -> (r: Result<Option<usize>, IsolationError>)
        ensures
            r == Ok::<Option<usize>, IsolationError>(None),
            *final(self) == *old(self),
    {
        Ok(None)
    }

    /// Gives a reservation back. There is nothing to free.
    pub fn deallocate(&mut self, _address: Option<usize>)
        ensures
            *final(self) == *old(self),
    {
    }

    /// Whether the VM holds a capability. Every capability counts as held.
    pub fn check_capability(&self, _cap: &Capability) -> (r: Result<(), IsolationError>)
        ensures
            r == Ok::<(), IsolationError>(()),
    {
        Ok(())
    }

    /// Whether the VM is within its quota for a resource. No usage is counted,
    /// so it always is.
    pub fn check_quota(&self, _resource: Resource) -> (r: Result<(), IsolationError>)
        ensures
            r == Ok::<(), IsolationError>(()),
    {
        Ok(())
    }
}

impl Default for VmIsolation {
    fn default() -> (i: VmIsolation)
        ensures
            i.vm_id == 0,
            i.address_space.pages@ == Seq::<Page>::empty(),
            i.resource_quota == default_quota(),
    {
        VmIsolation::new(0, ResourceQuota::default())
    }
}

/// Pages that do not overlap are private: no address lies in two of them.
pub proof fn disjoint_pages_are_private(pages: Seq<Page>, addr: usize, i: int, j: int)
    requires
        0 <= i < pages.len(),
        0 <= j < pages.len(),
        i != j ==> pages[i].base + pages[i].len <= pages[j].base || pages[j].base + pages[j].len
            <= pages[i].base,
        in_page(pages[i], addr),
        in_page(pages[j], addr),
    ensures
        i == j,
{
}

/// By default a machine has a quarter of a gibibyte, a minute, ten thousand
/// system calls and sixty-four open files.
pub proof fn default_quota_is()
    ensures
        default_quota().max_memory_bytes * 4 == 1024 * 1024 * 1024,
        default_quota().max_cpu_seconds == 60,
        default_quota().max_syscalls == 10_000,
        default_quota().max_fd == 64,
{
}

/// A page holds its first address and not the one behind its last; an empty one
/// holds none.
pub proof fn pages_end_before_their_end(p: Page, addr: usize)
    ensures
        in_page(p, addr) <==> addr >= p.base && addr - p.base < p.len,
        p.len == 0 ==> !in_page(p, addr),
        p.len > 0 ==> in_page(p, p.base),
        addr == p.base + p.len ==> !in_page(p, addr),
{
}

} // verus!
