//! The closed capability table and the escalation lattice.

use cognos_hal::capability_lattice;
use cognos_hal::permissions::{Capability, CapabilityLattice, ALL_AGENTS};

fn lattice() -> CapabilityLattice {
    CapabilityLattice::new()
}

#[test]
fn file_agent_can_read_user_home() {
    assert!(lattice().check("file", &Capability::ReadUserHome).is_ok());
}

#[test]
fn security_agent_cannot_write_filesystem() {
    let result = lattice().check("security", &Capability::WriteUserHome);
    assert!(result.is_err(), "Security agent must not be able to write filesystem");
}

#[test]
fn modify_hal_denied_for_all_agents() {
    for agent in ALL_AGENTS {
        let result = lattice().check(agent, &Capability::ModifyHal);
        assert!(result.is_err(), "ModifyHal must be denied for agent '{}'", agent);
    }
}

#[test]
fn unknown_agent_denied_everything() {
    let result = lattice().check("evil-agent", &Capability::ReadUserHome);
    assert!(result.is_err());
    assert!(result.unwrap_err().reason.contains("not a known agent"));
}

#[test]
fn scheduler_cannot_execute_binary() {
    assert!(lattice().check("scheduler", &Capability::ExecuteBinary).is_err());
}

#[test]
fn ui_cannot_modify_agent_behavior() {
    assert!(lattice().check("ui", &Capability::WriteUserHome).is_err());
    assert!(lattice().check("ui", &Capability::ReadMemoryDb).is_err());
}

#[test]
fn coding_agent_cannot_write_without_hal() {
    assert!(lattice().check("coding", &Capability::WriteUserHome).is_err());
}

#[test]
fn planner_has_no_filesystem_access() {
    assert!(lattice().check("planner", &Capability::ReadUserHome).is_err());
    assert!(lattice().check("planner", &Capability::WriteUserHome).is_err());
}

#[test]
fn coordinator_can_route_all_message_types() {
    let l = lattice();
    for cap in &[
        Capability::SendIntentDispatch,
        Capability::SendMemoryQuery,
        Capability::SendMemoryResult,
        Capability::SendSecurityAlert,
        Capability::SendResourceHint,
        Capability::SendFileOperation,
        Capability::SendHalGateRequest,
        Capability::SendHalGateResponse,
        Capability::SendHeartbeat,
    ] {
        assert!(l.check("coordinator", cap).is_ok(), "Coordinator missing {:?}", cap);
    }
}

#[test]
fn allowed_list_is_what_the_check_permits() {
    let l = lattice();
    for agent in ALL_AGENTS {
        let allowed = l.allowed_capabilities(agent);
        assert!(allowed.contains(&Capability::SendHeartbeat));
        for cap in &allowed {
            assert!(l.check(agent, cap).is_ok());
        }
    }
    assert!(l.allowed_capabilities("evil-agent").is_empty());
}

#[test]
fn violation_text_names_agent_and_capability() {
    let v = lattice().check("planner", &Capability::WriteUserHome).unwrap_err();
    let text = v.to_text();
    assert!(text.contains("planner"));
    assert!(text.contains("WriteUserHome"));
}

#[test]
fn implication_is_reflexive_and_escalation_needs_a_path() {
    let l = capability_lattice::CapabilityLattice::with_defaults();
    assert!(l.implies(Capability::ReadUserHome, Capability::ReadUserHome));
    assert!(l.escalate(Capability::ReadUserHome, Capability::ModifyHal).is_err());
}
