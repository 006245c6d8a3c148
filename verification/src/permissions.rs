//! Capability lattice enforcement: what each agent may do.
//!
//! Anything that is not explicitly allowed is denied.

use vstd::prelude::*;
use vstd::string::StringExecFns;

use crate::table::Table;
use crate::text;

verus! {

/// Every capability in the system. The list is closed.
#[derive(Clone, Copy, Debug, PartialEq, Eq, Structural, Hash)]
pub enum Capability {
    /// Read files in the user's home.
    ReadUserHome,
    /// Write files in the user's home.
    WriteUserHome,
    /// Read file metadata.
    ReadFileMeta,
    /// Move files in the user's home.
    MoveFileUserHome,
    /// Create files in the user's home.
    CreateFileUserHome,
    /// List directories.
    ListDirectory,
    /// Delete a file; always gated, moves to recycle.
    DeleteFile,
    /// Open an application.
    OpenApp,
    /// Execute a binary; needs a security scan.
    ExecuteBinary,
    /// Read the memory database.
    ReadMemoryDb,
    /// Write the memory database.
    WriteMemoryDb,
    /// Query the memory.
    QueryMemory,
    /// Reach user-specified endpoints.
    OutboundApiOnly,
    /// Read kernel telemetry.
    ReadEbpfTelemetry,
    /// Write scheduling hints.
    WriteSchedHints,
    /// Adjust control-group weights.
    AdjustCgroupWeights,
    /// Switch the CPU governor.
    SwitchCpuGovernor,
    /// Send intent dispatches.
    SendIntentDispatch,
    /// Send memory queries.
    SendMemoryQuery,
    /// Send memory results.
    SendMemoryResult,
    /// Send security alerts.
    SendSecurityAlert,
    /// Send resource hints.
    SendResourceHint,
    /// Send file operations.
    SendFileOperation,
    /// Send gate requests.
    SendHalGateRequest,
    /// Send gate responses.
    SendHalGateResponse,
    /// Send heartbeats.
    SendHeartbeat,
    /// Send capability violations.
    SendCapabilityViolation,
    /// Read HAL's configuration.
    ReadHalConfig,
    /// Modify HAL; denied for all agents.
    ModifyHal,
    /// Render the user interface.
    RenderUi,
    /// Display notifications.
    DisplayNotification,
    /// Read the status of agents.
    ReadAgentStatus,
    /// Read behaviour logs of applications.
    ReadAppBehaviorLogs,
    /// Read AppArmor logs.
    ReadAppArmorLogs,
    /// Analyse generated code.
    StaticAnalysisGenerated,
    /// Raise HAL alerts.
    RaiseHalAlert,
    /// Recommend permission changes.
    RecommendPermissionChanges,
    /// Read the clipboard; granted per request only.
    ReadClipboard,
}

/// The name of a capability.
pub open spec fn capability_name(c: Capability) -> Seq<char> {
    match c {
        Capability::ReadUserHome => "ReadUserHome"@,
        Capability::WriteUserHome => "WriteUserHome"@,
        Capability::ReadFileMeta => "ReadFileMeta"@,
        Capability::MoveFileUserHome => "MoveFileUserHome"@,
        Capability::CreateFileUserHome => "CreateFileUserHome"@,
        Capability::ListDirectory => "ListDirectory"@,
        Capability::DeleteFile => "DeleteFile"@,
        Capability::OpenApp => "OpenApp"@,
        Capability::ExecuteBinary => "ExecuteBinary"@,
        Capability::ReadMemoryDb => "ReadMemoryDb"@,
        Capability::WriteMemoryDb => "WriteMemoryDb"@,
        Capability::QueryMemory => "QueryMemory"@,
        Capability::OutboundApiOnly => "OutboundApiOnly"@,
        Capability::ReadEbpfTelemetry => "ReadEbpfTelemetry"@,
        Capability::WriteSchedHints => "WriteSchedHints"@,
        Capability::AdjustCgroupWeights => "AdjustCgroupWeights"@,
        Capability::SwitchCpuGovernor => "SwitchCpuGovernor"@,
        Capability::SendIntentDispatch => "SendIntentDispatch"@,
        Capability::SendMemoryQuery => "SendMemoryQuery"@,
        Capability::SendMemoryResult => "SendMemoryResult"@,
        Capability::SendSecurityAlert => "SendSecurityAlert"@,
        Capability::SendResourceHint => "SendResourceHint"@,
        Capability::SendFileOperation => "SendFileOperation"@,
        Capability::SendHalGateRequest => "SendHalGateRequest"@,
        Capability::SendHalGateResponse => "SendHalGateResponse"@,
        Capability::SendHeartbeat => "SendHeartbeat"@,
        Capability::SendCapabilityViolation => "SendCapabilityViolation"@,
        Capability::ReadHalConfig => "ReadHalConfig"@,
        Capability::ModifyHal => "ModifyHal"@,
        Capability::RenderUi => "RenderUi"@,
        Capability::DisplayNotification => "DisplayNotification"@,
        Capability::ReadAgentStatus => "ReadAgentStatus"@,
        Capability::ReadAppBehaviorLogs => "ReadAppBehaviorLogs"@,
        Capability::ReadAppArmorLogs => "ReadAppArmorLogs"@,
        Capability::StaticAnalysisGenerated => "StaticAnalysisGenerated"@,
        Capability::RaiseHalAlert => "RaiseHalAlert"@,
        Capability::RecommendPermissionChanges => "RecommendPermissionChanges"@,
        Capability::ReadClipboard => "ReadClipboard"@,
    }
}

impl Capability {
    /// The name of the capability.
    pub fn name(&self) -> (r: &'static str)
        ensures
            r@ == capability_name(*self),
    {
        match self {
            Capability::ReadUserHome => "ReadUserHome",
            Capability::WriteUserHome => "WriteUserHome",
            Capability::ReadFileMeta => "ReadFileMeta",
            Capability::MoveFileUserHome => "MoveFileUserHome",
            Capability::CreateFileUserHome => "CreateFileUserHome",
            Capability::ListDirectory => "ListDirectory",
            Capability::DeleteFile => "DeleteFile",
            Capability::OpenApp => "OpenApp",
            Capability::ExecuteBinary => "ExecuteBinary",
            Capability::ReadMemoryDb => "ReadMemoryDb",
            Capability::WriteMemoryDb => "WriteMemoryDb",
            Capability::QueryMemory => "QueryMemory",
            Capability::OutboundApiOnly => "OutboundApiOnly",
            Capability::ReadEbpfTelemetry => "ReadEbpfTelemetry",
            Capability::WriteSchedHints => "WriteSchedHints",
            Capability::AdjustCgroupWeights => "AdjustCgroupWeights",
            Capability::SwitchCpuGovernor => "SwitchCpuGovernor",
            Capability::SendIntentDispatch => "SendIntentDispatch",
            Capability::SendMemoryQuery => "SendMemoryQuery",
            Capability::SendMemoryResult => "SendMemoryResult",
            Capability::SendSecurityAlert => "SendSecurityAlert",
            Capability::SendResourceHint => "SendResourceHint",
            Capability::SendFileOperation => "SendFileOperation",
            Capability::SendHalGateRequest => "SendHalGateRequest",
            Capability::SendHalGateResponse => "SendHalGateResponse",
            Capability::SendHeartbeat => "SendHeartbeat",
            Capability::SendCapabilityViolation => "SendCapabilityViolation",
            Capability::ReadHalConfig => "ReadHalConfig",
            Capability::ModifyHal => "ModifyHal",
            Capability::RenderUi => "RenderUi",
            Capability::DisplayNotification => "DisplayNotification",
            Capability::ReadAgentStatus => "ReadAgentStatus",
            Capability::ReadAppBehaviorLogs => "ReadAppBehaviorLogs",
            Capability::ReadAppArmorLogs => "ReadAppArmorLogs",
            Capability::StaticAnalysisGenerated => "StaticAnalysisGenerated",
            Capability::RaiseHalAlert => "RaiseHalAlert",
            Capability::RecommendPermissionChanges => "RecommendPermissionChanges",
            Capability::ReadClipboard => "ReadClipboard",
        }
    }
}

/// Whether an agent is known.
pub open spec fn is_agent(name: Seq<char>) -> bool {
    name == "planner"@
        || name == "memory"@
        || name == "security"@
        || name == "scheduler"@
        || name == "file"@
        || name == "coding"@
        || name == "ui"@
        || name == "coordinator"@
}

/// The capabilities that an agent is allowed to use.
pub open spec fn granted(agent: Seq<char>) -> Seq<Capability> {
    if agent == "planner"@ {
        seq![
            Capability::QueryMemory,
            Capability::SendIntentDispatch,
            Capability::SendMemoryQuery,
            Capability::SendHalGateRequest,
            Capability::SendHeartbeat,
        ]
    } else if agent == "memory"@ {
        seq![
            Capability::ReadUserHome,
            Capability::ReadFileMeta,
            Capability::ReadMemoryDb,
            Capability::WriteMemoryDb,
            Capability::QueryMemory,
            Capability::SendMemoryResult,
            Capability::SendHalGateRequest,
            Capability::SendHeartbeat,
        ]
    } else if agent == "security"@ {
        seq![
            Capability::ReadAppBehaviorLogs,
            Capability::ReadAppArmorLogs,
            Capability::StaticAnalysisGenerated,
            Capability::RaiseHalAlert,
            Capability::RecommendPermissionChanges,
            Capability::SendSecurityAlert,
            Capability::SendHalGateRequest,
            Capability::SendCapabilityViolation,
            Capability::SendHeartbeat,
        ]
    } else if agent == "scheduler"@ {
        seq![
            Capability::ReadEbpfTelemetry,
            Capability::WriteSchedHints,
            Capability::AdjustCgroupWeights,
            Capability::SwitchCpuGovernor,
            Capability::SendResourceHint,
            Capability::SendHeartbeat,
        ]
    } else if agent == "file"@ {
        seq![
            Capability::ReadUserHome,
            Capability::WriteUserHome,
            Capability::ReadFileMeta,
            Capability::MoveFileUserHome,
            Capability::CreateFileUserHome,
            Capability::ListDirectory,
            Capability::DeleteFile,
            Capability::OpenApp,
            Capability::SendFileOperation,
            Capability::SendHalGateRequest,
            Capability::SendHeartbeat,
        ]
    } else if agent == "coding"@ {
        seq![
            Capability::ReadUserHome,
            Capability::ReadFileMeta,
            Capability::SendHalGateRequest,
            Capability::SendMemoryQuery,
            Capability::SendFileOperation,
            Capability::SendHeartbeat,
        ]
    } else if agent == "ui"@ {
        seq![
            Capability::RenderUi,
            Capability::DisplayNotification,
            Capability::ReadAgentStatus,
            Capability::SendHalGateRequest,
            Capability::SendHeartbeat,
        ]
    } else if agent == "coordinator"@ {
        seq![
            Capability::SendIntentDispatch,
            Capability::SendMemoryQuery,
            Capability::SendMemoryResult,
            Capability::SendSecurityAlert,
            Capability::SendResourceHint,
            Capability::SendFileOperation,
            Capability::SendHalGateRequest,
            Capability::SendHalGateResponse,
            Capability::SendHeartbeat,
            Capability::SendCapabilityViolation,
            Capability::ReadAgentStatus,
        ]
    } else {
        Seq::empty()
    }
}

/// Whether an agent may use a capability.
pub open spec fn permits(agent: Seq<char>, capability: Capability) -> bool {
    capability != Capability::ModifyHal && is_agent(agent) && granted(agent).contains(capability)
}

/// Why an agent may not use a capability.
pub open spec fn denial_reason(agent: Seq<char>, capability: Capability) -> Seq<char> {
    if capability == Capability::ModifyHal {
        "ModifyHal is denied for all agents — this is a security event"@
    } else if !is_agent(agent) {
        "'"@ + agent + "' is not a known agent"@
    } else {
        "Capability "@ + capability_name(capability) + " is not in the allow list for agent '"@
            + agent + "'"@
    }
}

/// The names of all agents.
pub const ALL_AGENTS: [&'static str; 8] = [
    "planner",
    "memory",
    "security",
    "scheduler",
    "file",
    "coding",
    "ui",
    "coordinator",
];

/// The names of all agents.
pub open spec fn agent_names() -> Seq<Seq<char>> {
    seq![
        "planner"@,
        "memory"@,
        "security"@,
        "scheduler"@,
        "file"@,
        "coding"@,
        "ui"@,
        "coordinator"@,
    ]
}

/// Whether an agent is known.
pub fn is_known_agent_name(name: &str) -> (r: bool)
    ensures
        r == is_agent(name@),
{
    text::same_text(name, "planner")
        || text::same_text(name, "memory")
        || text::same_text(name, "security")
        || text::same_text(name, "scheduler")
        || text::same_text(name, "file")
        || text::same_text(name, "coding")
        || text::same_text(name, "ui")
        || text::same_text(name, "coordinator")
}

/// The capability lattice: exactly what each agent is allowed to do. It is
/// built once and cannot be changed.
pub struct CapabilityLattice {
    allow: Table<String, Vec<Capability>>,
}

spec fn listed(allow: Map<Seq<char>, Vec<Capability>>, agent: Seq<char>) -> Seq<Capability> {
    if allow.dom().contains(agent) {
        allow[agent]@
    } else {
        Seq::empty()
    }
}

proof fn agent_names_differ()
    ensures
        agent_names().no_duplicates(),
        forall|a: Seq<char>| is_agent(a) <==> agent_names().contains(a),
{
    reveal_strlit("planner");
    reveal_strlit("memory");
    reveal_strlit("security");
    reveal_strlit("scheduler");
    reveal_strlit("file");
    reveal_strlit("coding");
    reveal_strlit("ui");
    reveal_strlit("coordinator");
    assert("planner"@.len() != "memory"@.len());
    assert("planner"@.len() != "security"@.len());
    assert("planner"@.len() != "scheduler"@.len());
    assert("planner"@.len() != "file"@.len());
    assert("planner"@.len() != "coding"@.len());
    assert("planner"@.len() != "ui"@.len());
    assert("planner"@.len() != "coordinator"@.len());
    assert("memory"@.len() != "security"@.len());
    assert("memory"@.len() != "scheduler"@.len());
    assert("memory"@.len() != "file"@.len());
    assert("memory"@[0] != "coding"@[0]);
    assert("memory"@.len() != "ui"@.len());
    assert("memory"@.len() != "coordinator"@.len());
    assert("security"@.len() != "scheduler"@.len());
    assert("security"@.len() != "file"@.len());
    assert("security"@.len() != "coding"@.len());
    assert("security"@.len() != "ui"@.len());
    assert("security"@.len() != "coordinator"@.len());
    assert("scheduler"@.len() != "file"@.len());
    assert("scheduler"@.len() != "coding"@.len());
    assert("scheduler"@.len() != "ui"@.len());
    assert("scheduler"@.len() != "coordinator"@.len());
    assert("file"@.len() != "coding"@.len());
    assert("file"@.len() != "ui"@.len());
    assert("file"@.len() != "coordinator"@.len());
    assert("coding"@.len() != "ui"@.len());
    assert("coding"@.len() != "coordinator"@.len());
    assert("ui"@.len() != "coordinator"@.len());
    let names = agent_names();
    assert forall|a: Seq<char>| is_agent(a) implies names.contains(a) by {
        assert(names[0] == "planner"@);
        assert(names[1] == "memory"@);
        assert(names[2] == "security"@);
        assert(names[3] == "scheduler"@);
        assert(names[4] == "file"@);
        assert(names[5] == "coding"@);
        assert(names[6] == "ui"@);
        assert(names[7] == "coordinator"@);
    }
}

impl CapabilityLattice {
    #[verifier::type_invariant]
    spec fn inv(self) -> bool {
        forall|a: Seq<char>| #[trigger] granted(a) == listed(self.allow@, a)
    }

    /// What the lattice lists for an agent.
    pub closed spec fn allows(&self, agent: Seq<char>) -> Seq<Capability> {
        listed(self.allow@, agent)
    }

    /// Builds the lattice.
    pub fn new() -> (l: CapabilityLattice)
        ensures
            forall|a: Seq<char>| #[trigger] l.allows(a) == granted(a),
    {
        let mut allow: Table<String, Vec<Capability>> = Table::new();
        allow.insert(
            String::from_str("planner"),
            vec![
                Capability::QueryMemory,
                Capability::SendIntentDispatch,
                Capability::SendMemoryQuery,
                Capability::SendHalGateRequest,
                Capability::SendHeartbeat,
            ],
        );
        allow.insert(
            String::from_str("memory"),
            vec![
                Capability::ReadUserHome,
                Capability::ReadFileMeta,
                Capability::ReadMemoryDb,
                Capability::WriteMemoryDb,
                Capability::QueryMemory,
                Capability::SendMemoryResult,
                Capability::SendHalGateRequest,
                Capability::SendHeartbeat,
            ],
        );
        allow.insert(
            String::from_str("security"),
            vec![
                Capability::ReadAppBehaviorLogs,
                Capability::ReadAppArmorLogs,
                Capability::StaticAnalysisGenerated,
                Capability::RaiseHalAlert,
                Capability::RecommendPermissionChanges,
                Capability::SendSecurityAlert,
                Capability::SendHalGateRequest,
                Capability::SendCapabilityViolation,
                Capability::SendHeartbeat,
            ],
        );
        allow.insert(
            String::from_str("scheduler"),
            vec![
                Capability::ReadEbpfTelemetry,
                Capability::WriteSchedHints,
                Capability::AdjustCgroupWeights,
                Capability::SwitchCpuGovernor,
                Capability::SendResourceHint,
                Capability::SendHeartbeat,
            ],
        );
        allow.insert(
            String::from_str("file"),
            vec![
                Capability::ReadUserHome,
                Capability::WriteUserHome,
                Capability::ReadFileMeta,
                Capability::MoveFileUserHome,
                Capability::CreateFileUserHome,
                Capability::ListDirectory,
                Capability::DeleteFile,
                Capability::OpenApp,
                Capability::SendFileOperation,
                Capability::SendHalGateRequest,
                Capability::SendHeartbeat,
            ],
        );
        allow.insert(
            String::from_str("coding"),
            vec![
                Capability::ReadUserHome,
                Capability::ReadFileMeta,
                Capability::SendHalGateRequest,
                Capability::SendMemoryQuery,
                Capability::SendFileOperation,
                Capability::SendHeartbeat,
            ],
        );
        allow.insert(
            String::from_str("ui"),
            vec![
                Capability::RenderUi,
                Capability::DisplayNotification,
                Capability::ReadAgentStatus,
                Capability::SendHalGateRequest,
                Capability::SendHeartbeat,
            ],
        );
        allow.insert(
            String::from_str("coordinator"),
            vec![
                Capability::SendIntentDispatch,
                Capability::SendMemoryQuery,
                Capability::SendMemoryResult,
                Capability::SendSecurityAlert,
                Capability::SendResourceHint,
                Capability::SendFileOperation,
                Capability::SendHalGateRequest,
                Capability::SendHalGateResponse,
                Capability::SendHeartbeat,
                Capability::SendCapabilityViolation,
                Capability::ReadAgentStatus,
            ],
        );
        proof {
            agent_names_differ();
            let n = agent_names();
            assert(n[0] == "planner"@);
            assert(n[1] == "memory"@);
            assert(n[2] == "security"@);
            assert(n[3] == "scheduler"@);
            assert(n[4] == "file"@);
            assert(n[5] == "coding"@);
            assert(n[6] == "ui"@);
            assert(n[7] == "coordinator"@);
            assert forall|a: Seq<char>| #[trigger] granted(a) == listed(allow@, a) by {
                assert(granted(a) =~= listed(allow@, a));
            }
        }
        CapabilityLattice { allow }
    }

    /// Checks whether an agent is allowed to use a capability.
    pub fn check(&self, agent: &str, capability: &Capability) -> (r: Result<
        (),
        CapabilityViolation,
    >)
        ensures
            r is Ok <==> permits(agent@, *capability),
            match r {
                Ok(_) => true,
                Err(v) => v.agent@ == agent@ && v.capability == *capability && v.reason@
                    == denial_reason(agent@, *capability),
            },
            *capability == Capability::ModifyHal ==> r is Err,
            *capability == Capability::WriteUserHome || *capability == Capability::MoveFileUserHome
                || *capability == Capability::CreateFileUserHome || *capability
                == Capability::DeleteFile ==> (r is Ok <==> agent@ == "file"@),
            *capability == Capability::ReadUserHome || *capability == Capability::ReadFileMeta ==> (
            r is Ok <==> agent@ == "memory"@ || agent@ == "file"@ || agent@ == "coding"@),
    {
        proof {
            holders_of_each_capability(agent@, *capability);
        }
        if *capability == Capability::ModifyHal {
            return Err(
                CapabilityViolation {
                    agent: String::from_str(agent),
                    capability: *capability,
                    reason: String::from_str(
                        "ModifyHal is denied for all agents — this is a security event",
                    ),
                },
            );
        }
        if !is_known_agent_name(agent) {
            let mut reason = String::from_str("'");
            reason.append(agent);
            reason.append("' is not a known agent");
            return Err(
                CapabilityViolation {
                    agent: String::from_str(agent),
                    capability: *capability,
                    reason,
                },
            );
        }
        let list = self.allowed_capabilities(agent);
        if has_capability(&list, *capability) {
            Ok(())
        } else {
            let mut reason = String::from_str("Capability ");
            reason.append(capability.name());
            reason.append(" is not in the allow list for agent '");
            reason.append(agent);
            reason.append("'");
            Err(
                CapabilityViolation {
                    agent: String::from_str(agent),
                    capability: *capability,
                    reason,
                },
            )
        }
    }

    /// States that a capability is allowed, where anything else would be a
    /// programming error: a caller that has not proved so is stopped at run time
    /// where [`CapabilityLattice::check`] finds a violation.
    pub fn assert_allowed(&self, agent: &str, cap: &Capability)
        requires
            permits(agent@, *cap),
        ensures
            self.allows(agent@).contains(*cap),
    {
        let allowed = self.check(agent, cap).is_ok();
        vstd::pervasive::runtime_assert(allowed);
        proof {
            use_type_invariant(self);
            assert(granted(agent@) == listed(self.allow@, agent@));
        }
    }

    /// The full list of what an agent is allowed, each capability once.
    pub fn allowed_capabilities(&self, agent: &str) -> (r: Vec<Capability>)
        ensures
            r@ == granted(agent@),
            r@ == self.allows(agent@),
    {
        proof {
            use_type_invariant(self);
            assert(granted(agent@) == listed(self.allow@, agent@));
        }
        match self.allow.get_text(agent) {
            Some(list) => list.clone(),
            None => Vec::new(),
        }
    }
}

fn has_capability(list: &Vec<Capability>, c: Capability) -> (r: bool)
    ensures
        r == list@.contains(c),
{
    let mut i: usize = 0;
    while i < list.len()
        invariant
            i <= list@.len(),
            forall|k: int| 0 <= k < i ==> list@[k] != c,
        decreases list@.len() - i,
    {
        if list[i] == c {
            return true;
        }
        i += 1;
    }
    false
}

impl Default for CapabilityLattice {
    fn default() -> (l: CapabilityLattice)
        ensures
            forall|a: Seq<char>| #[trigger] l.allows(a) == granted(a),
    {
        CapabilityLattice::new()
    }
}

/// A capability lattice violation, logged and raised as a security alert.
#[derive(Clone, Debug)]
pub struct CapabilityViolation {
    /// The agent.
    pub agent: String,
    /// The capability it lacks.
    pub capability: Capability,
    /// Why it is denied.
    pub reason: String,
}

impl CapabilityViolation {
    /// The violation as one line.
    pub fn to_text(&self) -> (t: String)
        ensures
            t@ == "CapabilityViolation["@ + self.agent@ + "]: "@ + capability_name(self.capability)
                + " — "@ + self.reason@,
    {
        let mut t = String::from_str("CapabilityViolation[");
        t.append(self.agent.as_str());
        t.append("]: ");
        t.append(self.capability.name());
        t.append(" — ");
        t.append(self.reason.as_str());
        t
    }
}

/// The constant list names exactly the known agents.
pub proof fn all_agents_are_known(name: Seq<char>)
    ensures
        is_agent(name) <==> exists|i: int| 0 <= i < 8 && (#[trigger] ALL_AGENTS[i])@ == name,
{
    let list = ALL_AGENTS;
    assert(list[0]@ == "planner"@);
    assert(list[1]@ == "memory"@);
    assert(list[2]@ == "security"@);
    assert(list[3]@ == "scheduler"@);
    assert(list[4]@ == "file"@);
    assert(list[5]@ == "coding"@);
    assert(list[6]@ == "ui"@);
    assert(list[7]@ == "coordinator"@);
}

/// No agent may modify HAL: not even the allow lists name it.
pub proof fn nobody_modifies_hal(agent: Seq<char>)
    ensures
        !permits(agent, Capability::ModifyHal),
        !granted(agent).contains(Capability::ModifyHal),
{
}

/// An unknown agent is denied everything.
pub proof fn unknown_agents_have_nothing(agent: Seq<char>, capability: Capability)
    requires
        !is_agent(agent),
    ensures
        !permits(agent, capability),
        granted(agent) == Seq::<Capability>::empty(),
{
}

/// Only the file agent may write to the user's home, and no agent may execute
/// a binary or read the clipboard on its own.
pub proof fn dangerous_grants_are_rare(agent: Seq<char>)
    ensures
        permits(agent, Capability::WriteUserHome) ==> agent == "file"@,
        permits(agent, Capability::DeleteFile) ==> agent == "file"@,
        !permits(agent, Capability::ExecuteBinary),
        !permits(agent, Capability::ReadClipboard),
{
}

/// Every known agent may send heartbeats.
pub proof fn every_agent_has_a_heartbeat(agent: Seq<char>)
    requires
        is_agent(agent),
    ensures
        permits(agent, Capability::SendHeartbeat),
{
    let g = granted(agent);
    agent_names_differ();
    let n = agent_names();
    if agent == "planner"@ {
        assert(n[0] == agent);
        assert(g[4] == Capability::SendHeartbeat);
    }
    if agent == "memory"@ {
        assert(n[1] == agent);
        assert(g[7] == Capability::SendHeartbeat);
    }
    if agent == "security"@ {
        assert(n[2] == agent);
        assert(g[8] == Capability::SendHeartbeat);
    }
    if agent == "scheduler"@ {
        assert(n[3] == agent);
        assert(g[5] == Capability::SendHeartbeat);
    }
    if agent == "file"@ {
        assert(n[4] == agent);
        assert(g[10] == Capability::SendHeartbeat);
    }
    if agent == "coding"@ {
        assert(n[5] == agent);
        assert(g[5] == Capability::SendHeartbeat);
    }
    if agent == "ui"@ {
        assert(n[6] == agent);
        assert(g[4] == Capability::SendHeartbeat);
    }
    if agent == "coordinator"@ {
        assert(n[7] == agent);
        assert(g[8] == Capability::SendHeartbeat);
    }
}

/// Who may use each capability. An agent reads the user's home to remember, to
/// handle files or to write code, and only the file agent changes it; nobody
/// modifies HAL, runs a binary or reads the clipboard.
pub proof fn holders_of_each_capability(agent: Seq<char>, capability: Capability)
    ensures
        permits(agent, capability) <==> match capability {
            Capability::ReadUserHome => agent == "memory"@ || agent == "file"@ || agent == "coding"@,
            Capability::WriteUserHome => agent == "file"@,
            Capability::ReadFileMeta => agent == "memory"@ || agent == "file"@ || agent == "coding"@,
            Capability::MoveFileUserHome => agent == "file"@,
            Capability::CreateFileUserHome => agent == "file"@,
            Capability::ListDirectory => agent == "file"@,
            Capability::DeleteFile => agent == "file"@,
            Capability::OpenApp => agent == "file"@,
            Capability::ExecuteBinary => false,
            Capability::ReadMemoryDb => agent == "memory"@,
            Capability::WriteMemoryDb => agent == "memory"@,
            Capability::QueryMemory => agent == "planner"@ || agent == "memory"@,
            Capability::OutboundApiOnly => false,
            Capability::ReadEbpfTelemetry => agent == "scheduler"@,
            Capability::WriteSchedHints => agent == "scheduler"@,
            Capability::AdjustCgroupWeights => agent == "scheduler"@,
            Capability::SwitchCpuGovernor => agent == "scheduler"@,
            Capability::SendIntentDispatch => agent == "planner"@ || agent == "coordinator"@,
            Capability::SendMemoryQuery => agent == "planner"@ || agent == "coding"@ || agent == "coordinator"@,
            Capability::SendMemoryResult => agent == "memory"@ || agent == "coordinator"@,
            Capability::SendSecurityAlert => agent == "security"@ || agent == "coordinator"@,
            Capability::SendResourceHint => agent == "scheduler"@ || agent == "coordinator"@,
            Capability::SendFileOperation => agent == "file"@ || agent == "coding"@ || agent == "coordinator"@,
            Capability::SendHalGateRequest => agent == "planner"@ || agent == "memory"@ || agent == "security"@ || agent == "file"@ || agent == "coding"@ || agent == "ui"@ || agent == "coordinator"@,
            Capability::SendHalGateResponse => agent == "coordinator"@,
            Capability::SendHeartbeat => agent == "planner"@ || agent == "memory"@ || agent == "security"@ || agent == "scheduler"@ || agent == "file"@ || agent == "coding"@ || agent == "ui"@ || agent == "coordinator"@,
            Capability::SendCapabilityViolation => agent == "security"@ || agent == "coordinator"@,
            Capability::ReadHalConfig => false,
            Capability::ModifyHal => false,
            Capability::RenderUi => agent == "ui"@,
            Capability::DisplayNotification => agent == "ui"@,
            Capability::ReadAgentStatus => agent == "ui"@ || agent == "coordinator"@,
            Capability::ReadAppBehaviorLogs => agent == "security"@,
            Capability::ReadAppArmorLogs => agent == "security"@,
            Capability::StaticAnalysisGenerated => agent == "security"@,
            Capability::RaiseHalAlert => agent == "security"@,
            Capability::RecommendPermissionChanges => agent == "security"@,
            Capability::ReadClipboard => false,
        },
        granted(agent).contains(capability) <==> permits(agent, capability),
{
    agent_names_differ();
    let names = agent_names();
    assert(names[0] == "planner"@);
    assert(names[1] == "memory"@);
    assert(names[2] == "security"@);
    assert(names[3] == "scheduler"@);
    assert(names[4] == "file"@);
    assert(names[5] == "coding"@);
    assert(names[6] == "ui"@);
    assert(names[7] == "coordinator"@);
    let list = granted(agent);
    if agent == "planner"@ {
        assert(list[0] == Capability::QueryMemory);
        assert(list[1] == Capability::SendIntentDispatch);
        assert(list[2] == Capability::SendMemoryQuery);
        assert(list[3] == Capability::SendHalGateRequest);
        assert(list[4] == Capability::SendHeartbeat);
        assert(list.len() == 5);
    }
    if agent == "memory"@ {
        assert(list[0] == Capability::ReadUserHome);
        assert(list[1] == Capability::ReadFileMeta);
        assert(list[2] == Capability::ReadMemoryDb);
        assert(list[3] == Capability::WriteMemoryDb);
        assert(list[4] == Capability::QueryMemory);
        assert(list[5] == Capability::SendMemoryResult);
        assert(list[6] == Capability::SendHalGateRequest);
        assert(list[7] == Capability::SendHeartbeat);
        assert(list.len() == 8);
    }
    if agent == "security"@ {
        assert(list[0] == Capability::ReadAppBehaviorLogs);
        assert(list[1] == Capability::ReadAppArmorLogs);
        assert(list[2] == Capability::StaticAnalysisGenerated);
        assert(list[3] == Capability::RaiseHalAlert);
        assert(list[4] == Capability::RecommendPermissionChanges);
        assert(list[5] == Capability::SendSecurityAlert);
        assert(list[6] == Capability::SendHalGateRequest);
        assert(list[7] == Capability::SendCapabilityViolation);
        assert(list[8] == Capability::SendHeartbeat);
        assert(list.len() == 9);
    }
    if agent == "scheduler"@ {
        assert(list[0] == Capability::ReadEbpfTelemetry);
        assert(list[1] == Capability::WriteSchedHints);
        assert(list[2] == Capability::AdjustCgroupWeights);
        assert(list[3] == Capability::SwitchCpuGovernor);
        assert(list[4] == Capability::SendResourceHint);
        assert(list[5] == Capability::SendHeartbeat);
        assert(list.len() == 6);
    }
    if agent == "file"@ {
        assert(list[0] == Capability::ReadUserHome);
        assert(list[1] == Capability::WriteUserHome);
        assert(list[2] == Capability::ReadFileMeta);
        assert(list[3] == Capability::MoveFileUserHome);
        assert(list[4] == Capability::CreateFileUserHome);
        assert(list[5] == Capability::ListDirectory);
        assert(list[6] == Capability::DeleteFile);
        assert(list[7] == Capability::OpenApp);
        assert(list[8] == Capability::SendFileOperation);
        assert(list[9] == Capability::SendHalGateRequest);
        assert(list[10] == Capability::SendHeartbeat);
        assert(list.len() == 11);
    }
    if agent == "coding"@ {
        assert(list[0] == Capability::ReadUserHome);
        assert(list[1] == Capability::ReadFileMeta);
        assert(list[2] == Capability::SendHalGateRequest);
        assert(list[3] == Capability::SendMemoryQuery);
        assert(list[4] == Capability::SendFileOperation);
        assert(list[5] == Capability::SendHeartbeat);
        assert(list.len() == 6);
    }
    if agent == "ui"@ {
        assert(list[0] == Capability::RenderUi);
        assert(list[1] == Capability::DisplayNotification);
        assert(list[2] == Capability::ReadAgentStatus);
        assert(list[3] == Capability::SendHalGateRequest);
        assert(list[4] == Capability::SendHeartbeat);
        assert(list.len() == 5);
    }
    if agent == "coordinator"@ {
        assert(list[0] == Capability::SendIntentDispatch);
        assert(list[1] == Capability::SendMemoryQuery);
        assert(list[2] == Capability::SendMemoryResult);
        assert(list[3] == Capability::SendSecurityAlert);
        assert(list[4] == Capability::SendResourceHint);
        assert(list[5] == Capability::SendFileOperation);
        assert(list[6] == Capability::SendHalGateRequest);
        assert(list[7] == Capability::SendHalGateResponse);
        assert(list[8] == Capability::SendHeartbeat);
        assert(list[9] == Capability::SendCapabilityViolation);
        assert(list[10] == Capability::ReadAgentStatus);
        assert(list.len() == 11);
    }
}

/// The coding agent reads the user's home and file metadata, and no agent but
/// the file agent has a capability that changes the home.
pub proof fn only_the_file_agent_changes_the_home(agent: Seq<char>, capability: Capability)
    requires
        capability == Capability::WriteUserHome || capability == Capability::MoveFileUserHome
            || capability == Capability::CreateFileUserHome || capability == Capability::DeleteFile,
    ensures
        permits(agent, capability) <==> agent == "file"@,
        permits("coding"@, Capability::ReadUserHome),
        permits("coding"@, Capability::ReadFileMeta),
{
    holders_of_each_capability(agent, capability);
    holders_of_each_capability("coding"@, Capability::ReadUserHome);
    holders_of_each_capability("coding"@, Capability::ReadFileMeta);
}

/// No allow list names a capability twice.
pub proof fn grants_do_not_repeat(agent: Seq<char>)
    ensures
        granted(agent).no_duplicates(),
{
}

/// A denial says what is wrong: that HAL is out of reach for all, that the agent
/// is unknown, or which capability the agent lacks.
pub proof fn denials_name_their_cause(agent: Seq<char>, capability: Capability)
    ensures
        denial_reason(agent, Capability::ModifyHal)
            == "ModifyHal is denied for all agents — this is a security event"@,
        capability != Capability::ModifyHal && !is_agent(agent) ==> denial_reason(agent, capability)
            == "'"@ + agent + "' is not a known agent"@,
        capability != Capability::ModifyHal && is_agent(agent) ==> text::begins_with(
            denial_reason(agent, capability),
            "Capability "@ + capability_name(capability),
        ) && text::occurs_in(
            denial_reason(agent, capability),
            " is not in the allow list for agent '"@ + agent + "'"@,
        ),
{
    lacking_reads(agent, capability_name(capability));
}

/// How the text about a lacking capability reads.
proof fn lacking_reads(agent: Seq<char>, name: Seq<char>)
    ensures
        ({
            let d = "Capability "@ + name + " is not in the allow list for agent '"@ + agent + "'"@;
            text::begins_with(d, "Capability "@ + name) && text::occurs_in(
                d,
                " is not in the allow list for agent '"@ + agent + "'"@,
            )
        }),
{
    let head = "Capability "@ + name;
    let list = " is not in the allow list for agent '"@;
    let named = list + agent + "'"@;
    text::joined_reads(head, named);
    rows_join(head, list, agent, "'"@);
}

proof fn rows_join(a: Seq<char>, b: Seq<char>, c: Seq<char>, d: Seq<char>)
    ensures
        a + b + c + d == a + (b + c + d),
{
    assert(a + b + c + d =~= a + (b + c + d));
}

/// A capability is written under its own name.
pub proof fn capabilities_are_written_by_name(c: Capability)
    ensures
        c == Capability::ReadUserHome ==> capability_name(c) == "ReadUserHome"@,
        c == Capability::WriteUserHome ==> capability_name(c) == "WriteUserHome"@,
        c == Capability::ReadFileMeta ==> capability_name(c) == "ReadFileMeta"@,
        c == Capability::MoveFileUserHome ==> capability_name(c) == "MoveFileUserHome"@,
        c == Capability::CreateFileUserHome ==> capability_name(c) == "CreateFileUserHome"@,
        c == Capability::ListDirectory ==> capability_name(c) == "ListDirectory"@,
        c == Capability::DeleteFile ==> capability_name(c) == "DeleteFile"@,
        c == Capability::OpenApp ==> capability_name(c) == "OpenApp"@,
        c == Capability::ExecuteBinary ==> capability_name(c) == "ExecuteBinary"@,
        c == Capability::ReadMemoryDb ==> capability_name(c) == "ReadMemoryDb"@,
        c == Capability::WriteMemoryDb ==> capability_name(c) == "WriteMemoryDb"@,
        c == Capability::QueryMemory ==> capability_name(c) == "QueryMemory"@,
        c == Capability::OutboundApiOnly ==> capability_name(c) == "OutboundApiOnly"@,
        c == Capability::ReadEbpfTelemetry ==> capability_name(c) == "ReadEbpfTelemetry"@,
        c == Capability::WriteSchedHints ==> capability_name(c) == "WriteSchedHints"@,
        c == Capability::AdjustCgroupWeights ==> capability_name(c) == "AdjustCgroupWeights"@,
        c == Capability::SwitchCpuGovernor ==> capability_name(c) == "SwitchCpuGovernor"@,
        c == Capability::SendIntentDispatch ==> capability_name(c) == "SendIntentDispatch"@,
        c == Capability::SendMemoryQuery ==> capability_name(c) == "SendMemoryQuery"@,
        c == Capability::SendMemoryResult ==> capability_name(c) == "SendMemoryResult"@,
        c == Capability::SendSecurityAlert ==> capability_name(c) == "SendSecurityAlert"@,
        c == Capability::SendResourceHint ==> capability_name(c) == "SendResourceHint"@,
        c == Capability::SendFileOperation ==> capability_name(c) == "SendFileOperation"@,
        c == Capability::SendHalGateRequest ==> capability_name(c) == "SendHalGateRequest"@,
        c == Capability::SendHalGateResponse ==> capability_name(c) == "SendHalGateResponse"@,
        c == Capability::SendHeartbeat ==> capability_name(c) == "SendHeartbeat"@,
        c == Capability::SendCapabilityViolation ==> capability_name(c) == "SendCapabilityViolation"@,
        c == Capability::ReadHalConfig ==> capability_name(c) == "ReadHalConfig"@,
        c == Capability::ModifyHal ==> capability_name(c) == "ModifyHal"@,
        c == Capability::RenderUi ==> capability_name(c) == "RenderUi"@,
        c == Capability::DisplayNotification ==> capability_name(c) == "DisplayNotification"@,
        c == Capability::ReadAgentStatus ==> capability_name(c) == "ReadAgentStatus"@,
        c == Capability::ReadAppBehaviorLogs ==> capability_name(c) == "ReadAppBehaviorLogs"@,
        c == Capability::ReadAppArmorLogs ==> capability_name(c) == "ReadAppArmorLogs"@,
        c == Capability::StaticAnalysisGenerated ==> capability_name(c) == "StaticAnalysisGenerated"@,
        c == Capability::RaiseHalAlert ==> capability_name(c) == "RaiseHalAlert"@,
        c == Capability::RecommendPermissionChanges ==> capability_name(c) == "RecommendPermissionChanges"@,
        c == Capability::ReadClipboard ==> capability_name(c) == "ReadClipboard"@,
{
}

} // verus!
