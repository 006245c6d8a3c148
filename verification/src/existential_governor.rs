//! Guards against actions that threaten the system's existence.
//!
//! HAL itself, the audit chain, the kernel, the memory store and the
//! authentication keys are not negotiable, nor is any path that an operator
//! adds to them: an action that threatens one of them is catastrophic, whether
//! or not its kill switch is armed.

use vstd::prelude::*;
use vstd::string::StringExecFns;

use crate::clock::Timestamp;
use crate::table;
use crate::table::Table;
use crate::text;

verus! {

/// An agent identifier.
pub type AgentId = String;

/// The category of protected resource an action threatens.
#[derive(Clone, Copy, Debug, PartialEq, Eq, Structural, Hash)]
pub enum ThreatType {
    /// HAL's own binaries, configs, or runtime state.
    HalItself,
    /// The tamper-evident audit chain.
    AuditChain,
    /// The kernel or kernel-adjacent interfaces.
    Kernel,
    /// The persistent memory store (vectors, episodic logs, etc.).
    MemoryStore,
    /// Authentication keys, tokens, or capability grants.
    AuthKeys,
}

impl ThreatType {
    /// Human-readable description of the threat.
    pub fn description(&self) -> (r: &'static str)
        ensures
            r@ == (match *self {
                ThreatType::HalItself => "modification of HAL itself"@,
                ThreatType::AuditChain => "tampering with the audit chain"@,
                ThreatType::Kernel => "kernel or kernel-adjacent modification"@,
                ThreatType::MemoryStore => "destruction or corruption of the memory store"@,
                ThreatType::AuthKeys => "compromise of authentication keys or tokens"@,
            }),
    {
        match self {
            ThreatType::HalItself => "modification of HAL itself",
            ThreatType::AuditChain => "tampering with the audit chain",
            ThreatType::Kernel => "kernel or kernel-adjacent modification",
            ThreatType::MemoryStore => "destruction or corruption of the memory store",
            ThreatType::AuthKeys => "compromise of authentication keys or tokens",
        }
    }
}

/// The governor's verdict on an action.
#[derive(Clone, Copy, Debug, PartialEq, Eq, Structural)]
pub enum ExistentialVerdict {
    /// The action does not threaten any protected resource.
    Safe,
    /// The action threatens a protected resource but is not catastrophic. No
    /// action is judged so mildly: every threat is catastrophic.
    Threatens(ThreatType),
    /// The action is catastrophic and must be routed to mandatory human
    /// review regardless of trust or autonomy level.
    Catastrophic,
}

/// An action proposed for existential evaluation.
#[derive(Clone, Debug)]
pub struct ExistentialAction {
    /// Agent proposing the action.
    pub agent: AgentId,
    /// Action name (e.g. "write_file", "delete_directory").
    pub action: String,
    /// Target resource path or identifier.
    pub target: String,
    /// Whether the action is destructive (delete, overwrite, format).
    pub destructive: bool,
    /// When the action was proposed (for audit correlation).
    pub proposed_at: Timestamp,
}

/// State of the governor's kill switches.
#[derive(Clone, Copy, Debug, PartialEq, Eq, Structural)]
pub struct KillSwitchState {
    /// Whether HAL-self-protection is armed.
    pub hal_self_armed: bool,
    /// Whether audit-chain protection is armed.
    pub audit_chain_armed: bool,
    /// Whether kernel protection is armed.
    pub kernel_armed: bool,
    /// Whether memory-store protection is armed.
    pub memory_store_armed: bool,
    /// Whether auth-key protection is armed.
    pub auth_keys_armed: bool,
}

impl KillSwitchState {
    /// All kill switches armed.
    pub fn all_armed() -> (s: KillSwitchState)
        ensures
            forall|t: ThreatType| #[trigger] armed(s, t),
    {
        KillSwitchState {
            hal_self_armed: true,
            audit_chain_armed: true,
            kernel_armed: true,
            memory_store_armed: true,
            auth_keys_armed: true,
        }
    }
}

impl Default for KillSwitchState {
    fn default() -> (s: KillSwitchState)
        ensures
            forall|t: ThreatType| !#[trigger] armed(s, t),
    {
        KillSwitchState {
            hal_self_armed: false,
            audit_chain_armed: false,
            kernel_armed: false,
            memory_store_armed: false,
            auth_keys_armed: false,
        }
    }
}

/// Whether the kill switch of a threat is armed.
pub open spec fn armed(s: KillSwitchState, t: ThreatType) -> bool {
    match t {
        ThreatType::HalItself => s.hal_self_armed,
        ThreatType::AuditChain => s.audit_chain_armed,
        ThreatType::Kernel => s.kernel_armed,
        ThreatType::MemoryStore => s.memory_store_armed,
        ThreatType::AuthKeys => s.auth_keys_armed,
    }
}

/// The threat that a path belongs to.
pub open spec fn threat_of(path: Seq<char>) -> Option<ThreatType> {
    if text::begins_with(path, "/opt/cognos/hal"@)
        || text::begins_with(path, "/etc/cognos/hal"@) {
        Some(ThreatType::HalItself)
    } else if text::begins_with(path, "/var/lib/cognos/audit"@) {
        Some(ThreatType::AuditChain)
    } else if text::begins_with(path, "/sys/kernel"@)
        || text::begins_with(path, "/proc/sys"@)
        || text::begins_with(path, "/lib/modules"@) {
        Some(ThreatType::Kernel)
    } else if text::begins_with(path, "/var/lib/cognos/memory"@) {
        Some(ThreatType::MemoryStore)
    } else if text::begins_with(path, "/etc/cognos/keys"@)
        || text::begins_with(path, "/var/lib/cognos/tokens"@) {
        Some(ThreatType::AuthKeys)
    } else {
        None
    }
}

fn find_threat(path: &str) -> (r: Option<ThreatType>)
    ensures
        r == threat_of(path@),
{
    if text::text_begins_with(path, "/opt/cognos/hal")
        || text::text_begins_with(path, "/etc/cognos/hal") {
        Some(ThreatType::HalItself)
    } else if text::text_begins_with(path, "/var/lib/cognos/audit") {
        Some(ThreatType::AuditChain)
    } else if text::text_begins_with(path, "/sys/kernel")
        || text::text_begins_with(path, "/proc/sys")
        || text::text_begins_with(path, "/lib/modules") {
        Some(ThreatType::Kernel)
    } else if text::text_begins_with(path, "/var/lib/cognos/memory") {
        Some(ThreatType::MemoryStore)
    } else if text::text_begins_with(path, "/etc/cognos/keys")
        || text::text_begins_with(path, "/var/lib/cognos/tokens") {
        Some(ThreatType::AuthKeys)
    } else {
        None
    }
}

/// The path prefixes that are protected by default.
pub const DEFAULT_PROTECTED_RESOURCES: [&'static str; 9] = [
    "/opt/cognos/hal",
    "/etc/cognos/hal",
    "/var/lib/cognos/audit",
    "/sys/kernel",
    "/proc/sys",
    "/lib/modules",
    "/var/lib/cognos/memory",
    "/etc/cognos/keys",
    "/var/lib/cognos/tokens",
];

/// The path prefixes that are protected by default.
pub open spec fn is_default_protected(path: Seq<char>) -> bool {
    path == "/opt/cognos/hal"@
        || path == "/etc/cognos/hal"@
        || path == "/var/lib/cognos/audit"@
        || path == "/sys/kernel"@
        || path == "/proc/sys"@
        || path == "/lib/modules"@
        || path == "/var/lib/cognos/memory"@
        || path == "/etc/cognos/keys"@
        || path == "/var/lib/cognos/tokens"@
}

/// What begins with a path begins with what the path begins with, and agrees
/// with it in the characters that tell the threats apart.
proof fn begins_through(s: Seq<char>, path: Seq<char>, prefix: Seq<char>)
    requires
        text::begins_with(s, path),
    ensures
        text::begins_with(path, prefix) ==> text::begins_with(s, prefix),
        text::begins_with(s, prefix) ==> {
            &&& prefix.len() > 1 ==> s[1] == prefix[1]
            &&& prefix.len() > 12 ==> s[12] == prefix[12]
            &&& prefix.len() > 16 ==> s[16] == prefix[16]
        },
{
    if text::begins_with(path, prefix) {
        assert(s.subrange(0, prefix.len() as int) =~= s.subrange(0, path.len() as int).subrange(
            0,
            prefix.len() as int,
        ));
    }
    if text::begins_with(s, prefix) {
        let head = s.subrange(0, prefix.len() as int);
        assert(head == prefix);
        assert(prefix.len() > 1 ==> head[1] == s[1]);
        assert(prefix.len() > 12 ==> head[12] == s[12]);
        assert(prefix.len() > 16 ==> head[16] == s[16]);
    }
}

/// A path that begins with one that belongs to a threat belongs to the same
/// threat.
pub proof fn threat_is_inherited(target: Seq<char>, path: Seq<char>)
    requires
        text::begins_with(target, path),
        threat_of(path) is Some,
    ensures
        threat_of(target) == threat_of(path),
{
    // The prefixes of different threats differ in their second character or,
    // under one root, in the thirteenth or the seventeenth.
    reveal_strlit("/opt/cognos/hal");
    reveal_strlit("/etc/cognos/hal");
    reveal_strlit("/var/lib/cognos/audit");
    reveal_strlit("/sys/kernel");
    reveal_strlit("/proc/sys");
    reveal_strlit("/lib/modules");
    reveal_strlit("/var/lib/cognos/memory");
    reveal_strlit("/etc/cognos/keys");
    reveal_strlit("/var/lib/cognos/tokens");
    begins_through(target, path, "/opt/cognos/hal"@);
    begins_through(target, path, "/etc/cognos/hal"@);
    begins_through(target, path, "/var/lib/cognos/audit"@);
    begins_through(target, path, "/sys/kernel"@);
    begins_through(target, path, "/proc/sys"@);
    begins_through(target, path, "/lib/modules"@);
    begins_through(target, path, "/var/lib/cognos/memory"@);
    begins_through(target, path, "/etc/cognos/keys"@);
    begins_through(target, path, "/var/lib/cognos/tokens"@);
}

/// The existential governor.
#[derive(Debug)]
pub struct ExistentialGovernor {
    /// The protected path prefixes.
    protected_resources: Table<String, ()>,
    /// The kill switches.
    kill_switches: KillSwitchState,
}

impl Default for ExistentialGovernor {
    fn default() -> (g: ExistentialGovernor)
        ensures
            g.is_fresh(),
    {
        ExistentialGovernor::new()
    }
}

impl ExistentialGovernor {
    /// The protected path prefixes.
    pub closed spec fn protected_prefixes(&self) -> Table<String, ()> {
        self.protected_resources
    }

    /// The kill switches.
    pub closed spec fn switches(&self) -> KillSwitchState {
        self.kill_switches
    }

    /// Whether the governor is as it starts.
    pub open spec fn is_fresh(&self) -> bool {
        &&& forall|p: Seq<char>| #[trigger]
            self.protected_prefixes()@.dom().contains(p) <==> is_default_protected(p)
        &&& forall|t: ThreatType| #[trigger] armed(self.switches(), t)
    }

    /// Whether a target lies under a protected path.
    pub open spec fn covers(&self, target: Seq<char>) -> bool {
        exists|p: Seq<char>| #[trigger]
            self.protected_prefixes()@.dom().contains(p) && text::begins_with(target, p)
    }

    /// Whether a target lies under a protected path that belongs to a category
    /// of threats.
    pub open spec fn covers_category(&self, target: Seq<char>) -> bool {
        exists|p: Seq<char>| #[trigger]
            self.protected_prefixes()@.dom().contains(p) && text::begins_with(target, p)
                && threat_of(p) is Some
    }

    /// The category of the threat that an action on a target poses, where it
    /// belongs to one.
    pub open spec fn threat_to(&self, target: Seq<char>) -> Option<ThreatType> {
        if self.covers_category(target) {
            threat_of(target)
        } else {
            None
        }
    }

    /// A governor with all kill switches armed and the default protected paths.
    pub fn new() -> (g: ExistentialGovernor)
        ensures
            g.is_fresh(),
    {
        let mut protected: Table<String, ()> = Table::new();
        protected.insert(String::from_str("/opt/cognos/hal"), ());
        protected.insert(String::from_str("/etc/cognos/hal"), ());
        protected.insert(String::from_str("/var/lib/cognos/audit"), ());
        protected.insert(String::from_str("/sys/kernel"), ());
        protected.insert(String::from_str("/proc/sys"), ());
        protected.insert(String::from_str("/lib/modules"), ());
        protected.insert(String::from_str("/var/lib/cognos/memory"), ());
        protected.insert(String::from_str("/etc/cognos/keys"), ());
        protected.insert(String::from_str("/var/lib/cognos/tokens"), ());
        ExistentialGovernor {
            protected_resources: protected,
            kill_switches: KillSwitchState::all_armed(),
        }
    }

    /// Protects a path prefix.
    pub fn protect(&mut self, path: String)
        ensures
            final(self).protected_prefixes()@ == old(self).protected_prefixes()@.insert(path@, ()),
            final(self).switches() == old(self).switches(),
    {
        self.protected_resources.insert(path, ());
    }

    /// The verdict on an action: catastrophic under every protected path, and
    /// safe elsewhere.
    pub fn evaluate(&self, action: &ExistentialAction) -> (v: ExistentialVerdict)
        ensures
            v == (if self.covers(action.target@) {
                ExistentialVerdict::Catastrophic
            } else {
                ExistentialVerdict::Safe
            }),
    {
        if self.is_protected(action.target.as_str()) {
            ExistentialVerdict::Catastrophic
        } else {
            ExistentialVerdict::Safe
        }
    }

    fn is_protected(&self, target: &str) -> (r: bool)
        ensures
            r == self.covers(target@),
    {
        let ghost ids = self.protected_resources.ids();
        let n: usize = self.protected_resources.len();
        proof {
            table::order_lists_keys(self.protected_resources);
        }
        let mut i: usize = 0;
        while i < n
            invariant
                ids == self.protected_resources.ids(),
                n == ids.len(),
                i <= n,
                forall|j: int| 0 <= j < i ==> !text::begins_with(target@, #[trigger] ids[j]),
            decreases n - i,
        {
            let path = self.protected_resources.key_at(i);
            if text::text_begins_with(target, path.as_str()) {
                assert(self.protected_prefixes()@.dom().contains(path@));
                return true;
            }
            i += 1;
        }
        assert forall|p: Seq<char>| #[trigger]
            self.protected_prefixes()@.dom().contains(p) implies !text::begins_with(target@, p) by {
            assert(ids.to_set().contains(p));
            let j = choose|j: int| 0 <= j < ids.len() && ids[j] == p;
            assert(ids[j] == p);
        }
        false
    }

    /// Whether the kill switch of a threat is armed.
    pub fn kill_switch_armed(&self, t: ThreatType) -> (r: bool)
        ensures
            r == armed(self.switches(), t),
    {
        match t {
            ThreatType::HalItself => self.kill_switches.hal_self_armed,
            ThreatType::AuditChain => self.kill_switches.audit_chain_armed,
            ThreatType::Kernel => self.kill_switches.kernel_armed,
            ThreatType::MemoryStore => self.kill_switches.memory_store_armed,
            ThreatType::AuthKeys => self.kill_switches.auth_keys_armed,
        }
    }

    /// Disarms a kill switch.
    pub fn disarm(&mut self, t: ThreatType)
        ensures
            !armed(final(self).switches(), t),
            forall|u: ThreatType|
                u != t ==> #[trigger] armed(final(self).switches(), u) == armed(
                    old(self).switches(),
                    u,
                ),
            final(self).protected_prefixes() == old(self).protected_prefixes(),
    {
        match t {
            ThreatType::HalItself => {
                self.kill_switches.hal_self_armed = false;
            },
            ThreatType::AuditChain => {
                self.kill_switches.audit_chain_armed = false;
            },
            ThreatType::Kernel => {
                self.kill_switches.kernel_armed = false;
            },
            ThreatType::MemoryStore => {
                self.kill_switches.memory_store_armed = false;
            },
            ThreatType::AuthKeys => {
                self.kill_switches.auth_keys_armed = false;
            },
        }
    }

    /// The category of the threat that an action poses; none where its target
    /// is protected under no category, or not at all.
    pub fn classify(&self, action: &ExistentialAction) -> (r: Option<ThreatType>)
        ensures
            r == self.threat_to(action.target@),
    {
        let target = action.target.as_str();
        let ghost ids = self.protected_resources.ids();
        let n: usize = self.protected_resources.len();
        proof {
            table::order_lists_keys(self.protected_resources);
        }
        let mut i: usize = 0;
        while i < n
            invariant
                ids == self.protected_resources.ids(),
                n == ids.len(),
                i <= n,
                target@ == action.target@,
                forall|j: int|
                    0 <= j < i ==> !(text::begins_with(target@, #[trigger] ids[j])
                        && threat_of(ids[j]) is Some),
            decreases n - i,
        {
            let path = self.protected_resources.key_at(i);
            if text::text_begins_with(target, path.as_str()) {
                let threat = find_threat(path.as_str());
                if threat.is_some() {
                    proof {
                        threat_is_inherited(target@, path@);
                        assert(self.protected_prefixes()@.dom().contains(path@));
                    }
                    return threat;
                }
            }
            i += 1;
        }
        assert forall|p: Seq<char>| #[trigger] self.protected_prefixes()@.dom().contains(p)
            && text::begins_with(target@, p) implies threat_of(p) is None by {
            assert(ids.to_set().contains(p));
            let j = choose|j: int| 0 <= j < ids.len() && ids[j] == p;
            assert(ids[j] == p);
        }
        None
    }
}

/// Errors returned by the existential governor.
#[derive(Clone, Copy, Debug, PartialEq, Eq, Structural)]
pub enum ExistentialGovernorError {
    /// An attempt was made to disarm a kill switch via an unauthorized path.
    UnauthorizedDisarm(ThreatType),
}

/// A fresh governor covers every target under a default protected path, knows
/// the category of its threat, and has that category's kill switch armed.
pub proof fn fresh_governor_is_strict(g: ExistentialGovernor, target: Seq<char>, path: Seq<char>)
    requires
        g.is_fresh(),
        is_default_protected(path),
        text::begins_with(target, path),
    ensures
        g.covers(target),
        g.threat_to(target) matches Some(t) && armed(g.switches(), t),
{
    assert(path.subrange(0, path.len() as int) =~= path);
    assert(text::begins_with(path, path));
    assert(g.protected_prefixes()@.dom().contains(path));
    assert(threat_of(path) is Some);
    threat_is_inherited(target, path);
    let t = threat_of(target)->0;
    assert(armed(g.switches(), t));
}

/// Protecting a path covers everything under it, and never uncovers anything.
pub proof fn protection_only_grows(
    before: ExistentialGovernor,
    after: ExistentialGovernor,
    path: Seq<char>,
    target: Seq<char>,
)
    requires
        after.protected_prefixes()@ == before.protected_prefixes()@.insert(path, ()),
    ensures
        after.covers(target) <==> before.covers(target) || text::begins_with(target, path),
        before.threat_to(target) is Some ==> after.threat_to(target) == before.threat_to(target),
{
    assert(after.protected_prefixes()@.dom().contains(path));
    if before.covers(target) {
        let p = choose|p: Seq<char>| #[trigger]
            before.protected_prefixes()@.dom().contains(p) && text::begins_with(target, p);
        assert(after.protected_prefixes()@.dom().contains(p));
    }
    if after.covers(target) {
        let p = choose|p: Seq<char>| #[trigger]
            after.protected_prefixes()@.dom().contains(p) && text::begins_with(target, p);
        assert(p == path || before.protected_prefixes()@.dom().contains(p));
    }
    if before.covers_category(target) {
        let p = choose|p: Seq<char>| #[trigger]
            before.protected_prefixes()@.dom().contains(p) && text::begins_with(target, p)
                && threat_of(p) is Some;
        assert(after.protected_prefixes()@.dom().contains(p));
    }
}

/// A threat of any category, its kill switch armed or not, is covered, and so
/// catastrophic.
pub proof fn every_threat_is_covered(g: ExistentialGovernor, target: Seq<char>)
    requires
        g.threat_to(target) is Some,
    ensures
        g.covers(target),
{
    let p = choose|p: Seq<char>| #[trigger]
        g.protected_prefixes()@.dom().contains(p) && text::begins_with(target, p) && threat_of(
            p,
        ) is Some;
    assert(g.protected_prefixes()@.dom().contains(p));
}

/// What lies behind a protected path is a threat of that path's kind, and a path
/// that begins with none of them is no threat.
pub proof fn threats_by_prefix(path: Seq<char>, prefix: Seq<char>, rest: Seq<char>)
    ensures
        prefix == "/opt/cognos/hal"@ || prefix == "/etc/cognos/hal"@ ==> threat_of(prefix + rest) == Some(ThreatType::HalItself),
        prefix == "/var/lib/cognos/audit"@ ==> threat_of(prefix + rest) == Some(ThreatType::AuditChain),
        prefix == "/sys/kernel"@ || prefix == "/proc/sys"@ || prefix == "/lib/modules"@ ==> threat_of(prefix + rest) == Some(ThreatType::Kernel),
        prefix == "/var/lib/cognos/memory"@ ==> threat_of(prefix + rest) == Some(ThreatType::MemoryStore),
        prefix == "/etc/cognos/keys"@ || prefix == "/var/lib/cognos/tokens"@ ==> threat_of(prefix + rest) == Some(ThreatType::AuthKeys),
        !("/opt/cognos/hal"@).is_prefix_of(path) && !("/etc/cognos/hal"@).is_prefix_of(path) && !("/var/lib/cognos/audit"@).is_prefix_of(path) && !("/sys/kernel"@).is_prefix_of(path) && !("/proc/sys"@).is_prefix_of(path) && !("/lib/modules"@).is_prefix_of(path) && !("/var/lib/cognos/memory"@).is_prefix_of(path) && !("/etc/cognos/keys"@).is_prefix_of(path) && !("/var/lib/cognos/tokens"@).is_prefix_of(path) ==> threat_of(path) is None,
{
    reveal_strlit("/opt/cognos/hal");
    reveal_strlit("/etc/cognos/hal");
    reveal_strlit("/var/lib/cognos/audit");
    reveal_strlit("/sys/kernel");
    reveal_strlit("/proc/sys");
    reveal_strlit("/lib/modules");
    reveal_strlit("/var/lib/cognos/memory");
    reveal_strlit("/etc/cognos/keys");
    reveal_strlit("/var/lib/cognos/tokens");
    text::beginnings_are_prefixes(prefix + rest, prefix, rest);
    text::beginnings_are_prefixes(path, "/opt/cognos/hal"@, Seq::empty());
    text::beginnings_are_prefixes(path, "/etc/cognos/hal"@, Seq::empty());
    text::beginnings_are_prefixes(path, "/var/lib/cognos/audit"@, Seq::empty());
    text::beginnings_are_prefixes(path, "/sys/kernel"@, Seq::empty());
    text::beginnings_are_prefixes(path, "/proc/sys"@, Seq::empty());
    text::beginnings_are_prefixes(path, "/lib/modules"@, Seq::empty());
    text::beginnings_are_prefixes(path, "/var/lib/cognos/memory"@, Seq::empty());
    text::beginnings_are_prefixes(path, "/etc/cognos/keys"@, Seq::empty());
    text::beginnings_are_prefixes(path, "/var/lib/cognos/tokens"@, Seq::empty());
    let target = prefix + rest;
    begins_through(target, prefix, "/opt/cognos/hal"@);
    begins_through(target, prefix, "/etc/cognos/hal"@);
    begins_through(target, prefix, "/var/lib/cognos/audit"@);
    begins_through(target, prefix, "/sys/kernel"@);
    begins_through(target, prefix, "/proc/sys"@);
    begins_through(target, prefix, "/lib/modules"@);
    begins_through(target, prefix, "/var/lib/cognos/memory"@);
    begins_through(target, prefix, "/etc/cognos/keys"@);
    begins_through(target, prefix, "/var/lib/cognos/tokens"@);
}

/// The paths that a new governor protects.
pub proof fn nine_paths_are_protected(path: Seq<char>)
    ensures
        is_default_protected(path) <==> (path == "/opt/cognos/hal"@ || path == "/etc/cognos/hal"@ || path == "/var/lib/cognos/audit"@ || path == "/sys/kernel"@ || path == "/proc/sys"@ || path == "/lib/modules"@ || path == "/var/lib/cognos/memory"@ || path == "/etc/cognos/keys"@ || path == "/var/lib/cognos/tokens"@),
        is_default_protected(path) <==> exists|i: int|
            0 <= i < 9 && (#[trigger] DEFAULT_PROTECTED_RESOURCES@[i])@ == path,
{
    let d = DEFAULT_PROTECTED_RESOURCES@;
    assert(d[0]@ == "/opt/cognos/hal"@);
    assert(d[1]@ == "/etc/cognos/hal"@);
    assert(d[2]@ == "/var/lib/cognos/audit"@);
    assert(d[3]@ == "/sys/kernel"@);
    assert(d[4]@ == "/proc/sys"@);
    assert(d[5]@ == "/lib/modules"@);
    assert(d[6]@ == "/var/lib/cognos/memory"@);
    assert(d[7]@ == "/etc/cognos/keys"@);
    assert(d[8]@ == "/var/lib/cognos/tokens"@);
}

/// Each switch guards its own threat.
pub proof fn switches_guard_their_threat(s: KillSwitchState)
    ensures
        armed(s, ThreatType::HalItself) == s.hal_self_armed,
        armed(s, ThreatType::AuditChain) == s.audit_chain_armed,
        armed(s, ThreatType::Kernel) == s.kernel_armed,
        armed(s, ThreatType::MemoryStore) == s.memory_store_armed,
        armed(s, ThreatType::AuthKeys) == s.auth_keys_armed,
{
}

} // verus!
