//! Exact values of the smaller formulas and rules.

use cognos_hal::action_validator::ActionValidator;
use cognos_hal::anomaly_detection::AnomalyDetector;
use cognos_hal::behavior_monitor::{AgentBehavior, BehaviorEvent};
use cognos_hal::capability_lattice;
use cognos_hal::clock::Timestamp;
use cognos_hal::confidence_engine::ConfidenceEngine;
use cognos_hal::gate::neutral_context;
use cognos_hal::hal_types::{
    EscalationLevel, HALDecision, IntentSeverity, ProvenanceConfidence, SyscallSensitivity,
};
use cognos_hal::permissions::{Capability, CapabilityLattice};
use cognos_hal::policy_engine::PolicyEngine;
use cognos_hal::provenance::ProvenanceEngine;
use cognos_hal::restraint_runtime::{RestraintDecision, RestraintRuntime};
use cognos_hal::risk_weights::RiskEngine;
use cognos_hal::score::Score;
use cognos_hal::session_context::SessionEngine;

fn s(x: f64) -> Score {
    Score::from_nanos((x * 1e9).round() as i64)
}

fn texts(list: &[&str]) -> Vec<String> {
    list.iter().map(|t| t.to_string()).collect()
}

#[test]
fn capability_scopes() {
    let write = texts(&["filesystem.write"]);
    let none: Vec<String> = Vec::new();
    assert!(ActionValidator::validate_capability_scope(&write, "write_file"));
    assert!(!ActionValidator::validate_capability_scope(&none, "write_file"));
    assert!(!ActionValidator::validate_capability_scope(&write, "network_send"));
    assert!(ActionValidator::validate_capability_scope(&none, "open_file"));
}

#[test]
fn intents_match_in_any_case() {
    assert!(ActionValidator::semantic_intent_match("OPEN", "open_file"));
    assert!(!ActionValidator::semantic_intent_match("delete", "open_file"));
}

#[test]
fn drift_and_frequency() {
    let d = AnomalyDetector::new();
    assert_eq!(d.behavioral_drift(s(0.2), s(0.5)), s(0.3));
    assert_eq!(d.behavioral_drift(s(5.0), s(0.5)), Score::one());
    assert_eq!(d.syscall_frequency_anomaly(0, 3), Score::one());
    assert_eq!(d.syscall_frequency_anomaly(3, 4), Score::from_nanos(333_333_333));
    assert_eq!(d.syscall_frequency_anomaly(4, 3), s(0.25));
    assert_eq!(d.capability_abuse_score(0, 0), Score::one());
    assert_eq!(d.capability_abuse_score(10, 9), s(0.2));
    assert_eq!(d.capability_abuse_score(10, 11), Score::one());
    assert_eq!(d.capability_abuse_score(10, 5), Score::zero());
    assert_eq!(d.repeated_failures(3), s(0.3));
    assert_eq!(d.repeated_failures(30), Score::one());
}

#[test]
fn anomalies_are_reported() {
    let d = AnomalyDetector::new();
    let a = d.generate_anomaly("spike", s(0.7), "sudden");
    assert_eq!(a.anomaly_type, "spike");
    assert_eq!(a.severity, s(0.7));
    assert!(a.detected_at > 1_577_836_800_000);
    let at = d.generate_anomaly_at("spike", s(0.7), "x", Timestamp::from_nanos(-1));
    assert_eq!(at.detected_at, -1);
    let m = d.aggregate_behavioral_metrics(s(0.1), s(0.2), 3, s(0.4), 5);
    assert_eq!(m.escalation_attempts, 3);
    assert_eq!(m.historical_stability, s(0.4));
}

#[test]
fn confidence_formulas() {
    assert_eq!(ConfidenceEngine::confidence_decay(s(0.9), 1_000_000), s(0.75));
    assert_eq!(ConfidenceEngine::confidence_decay(s(0.1), 1_000_000_000), Score::zero());
    assert_eq!(ConfidenceEngine::confidence_from_risk(s(0.3)), s(0.7));
    assert_eq!(ConfidenceEngine::consistency_score(s(0.9), s(0.4)), s(0.5));
    assert_eq!(
        ConfidenceEngine::combined_assurance(s(1.0), s(0.5), s(0.5), s(0.2)),
        s(0.35 + 0.15 + 0.1 + 0.12)
    );
}

#[test]
fn results_are_finalized() {
    let r = ConfidenceEngine::finalize_result(s(0.75), s(0.9), "why".to_string());
    assert_eq!(r.decision, HALDecision::Confirm);
    assert!(r.requires_user_prompt);
    assert!(!r.escalation_required);
    assert_eq!(r.audit_hash, "hal:0.75:0.9");
    assert_eq!(r.explanation, "why");
    let r = ConfidenceEngine::finalize_result(s(0.95), s(0.9), String::new());
    assert_eq!(r.decision, HALDecision::Block);
    assert!(r.escalation_required);
}

#[test]
fn escalations_have_levels() {
    let mut c = neutral_context("open", "~/a");
    assert_eq!(PolicyEngine::escalation_context(&c).level, EscalationLevel::Low);
    c.behavioral.escalation_attempts = 4;
    let e = PolicyEngine::escalation_context(&c);
    assert_eq!(e.level, EscalationLevel::High);
    assert!(e.requires_isolation && !e.requires_forensics);
    c.behavioral.anomaly_score = s(0.91);
    let e = PolicyEngine::escalation_context(&c);
    assert_eq!(e.level, EscalationLevel::Critical);
    assert_eq!(e.reason, "critical behavioral anomaly");
    assert!(PolicyEngine::enforce_restraint(s(0.34), s(0.86)));
    assert!(!PolicyEngine::enforce_restraint(s(0.35), s(0.86)));
}

#[test]
fn provenance_rules() {
    let mut p = neutral_context("", "").provenance;
    assert_eq!(ProvenanceEngine::verify_signature(true), ProvenanceConfidence::Verified);
    assert_eq!(ProvenanceEngine::verify_signature(false), ProvenanceConfidence::Forged);
    assert_eq!(ProvenanceEngine::trust_lineage_depth(&texts(&["a", "b"])), 2);
    assert_eq!(ProvenanceEngine::provenance_decay(24_000), s(0.9999));
    assert_eq!(ProvenanceEngine::confidence_from_lineage(5), s(0.85));
    assert_eq!(ProvenanceEngine::confidence_from_lineage(50), Score::zero());
    assert!(ProvenanceEngine::verify_authority_continuity("a", "a", &texts(&[])));
    assert!(ProvenanceEngine::verify_authority_continuity("a", "b", &texts(&["x", "delegate:b"])));
    assert!(!ProvenanceEngine::verify_authority_continuity("a", "b", &texts(&["x"])));
    assert!(ProvenanceEngine::detect_chain_break("a", "b"));
    assert!(!ProvenanceEngine::detect_chain_break("a", "a"));
    assert!(!ProvenanceEngine::signed_origin_valid(&p));
    p.certificate_fingerprint = "ab".to_string();
    assert!(ProvenanceEngine::signed_origin_valid(&p));
    assert!(!ProvenanceEngine::replay_window_valid(0, 1_000));
    assert!(ProvenanceEngine::replay_window_valid(0, i64::MAX));
}

#[test]
fn risk_components() {
    assert_eq!(RiskEngine::severity_score(&IntentSeverity::Moderate), s(0.35));
    assert_eq!(RiskEngine::severity_score(&IntentSeverity::Critical), Score::one());
    assert_eq!(RiskEngine::syscall_score(&SyscallSensitivity::Safe), s(0.05));
    assert_eq!(RiskEngine::syscall_score(&SyscallSensitivity::Dangerous), s(0.8));
    assert_eq!(RiskEngine::normalized_trust_deficit(s(0.3)), s(0.7));
    assert_eq!(RiskEngine::anomaly_component(s(1.5)), Score::one());
    assert_eq!(RiskEngine::volatility_component(s(-0.5)), Score::zero());
    assert_eq!(RiskEngine::user_confirmation_component(s(0.4)), s(0.4));
    assert_eq!(RiskEngine::confidence_score(s(0.8), s(0.6), s(0.2)), s(0.4 + 0.21 - 0.03));
}

#[test]
fn session_rules() {
    let mut c = SessionEngine::active("1".to_string(), "w".to_string(), "t".to_string());
    assert_eq!(SessionEngine::session_staleness(0), Score::one());
    assert_eq!(SessionEngine::session_staleness_at(300_000, 0), s(0.5));
    assert_eq!(SessionEngine::session_staleness_at(0, 300_000), Score::zero());
    c.user_attention_score = s(0.5);
    assert_eq!(SessionEngine::confidence_modifier(&c), s(0.85));
    assert!(!SessionEngine::requires_user_presence(true, &c));
    c.user_present = false;
    assert_eq!(SessionEngine::confidence_modifier(&c), s(0.4));
    assert!(SessionEngine::requires_user_presence(true, &c));
    assert_eq!(SessionEngine::environmental_trust(&c), s(0.5));
    c.active_window_title = "an unknown window".to_string();
    assert_eq!(SessionEngine::environmental_trust(&c), s(0.3));
    assert_eq!(SessionEngine::behavioral_consistency("a", "a"), Score::one());
    assert_eq!(SessionEngine::behavioral_consistency("a", "b"), s(0.45));
}

#[test]
fn clocks_show_times() {
    assert_eq!(Timestamp::from_clock(Some(-5)), Timestamp::from_nanos(-5));
    assert_eq!(Timestamp::from_clock(None), Timestamp::from_nanos(i64::MAX));
    let before = Timestamp::now();
    assert!(before.nanos > 1_577_836_800_000_000_000);
    let later = Timestamp::now();
    assert!(later.seconds_since(&before) < 3_600);
}

#[test]
fn edges_and_grants() {
    let mut l = capability_lattice::CapabilityLattice::new();
    l.add_edge(Capability::ReadFileMeta, Capability::ReadUserHome, true);
    l.add_edge(Capability::ReadFileMeta, Capability::ListDirectory, false);
    assert_eq!(
        l.edges().get(&Capability::ReadFileMeta).unwrap(),
        &vec![(Capability::ReadUserHome, true), (Capability::ListDirectory, false)]
    );
    assert!(!l.implies(Capability::ReadFileMeta, Capability::ReadUserHome));
    assert!(l.implies(Capability::ReadFileMeta, Capability::ReadFileMeta));
    assert!(cognos_hal::runtime_state::RuntimeState::monotonic_timestamp() > 1_577_836_800_000);
    CapabilityLattice::new().assert_allowed("file", &Capability::DeleteFile);
}

#[test]
fn windows_roll_over_after_a_minute() {
    let mut b = AgentBehavior::at(Timestamp::from_nanos(0));
    b.observe_at(BehaviorEvent::FileOp, Timestamp::from_nanos(1));
    b.maybe_rollover();
    assert_eq!(b.file_op_count, 0);
    let mut c = AgentBehavior::default();
    c.observe(BehaviorEvent::NetOp);
    c.maybe_rollover();
    assert_eq!(c.net_op_count, 1);
}

#[test]
fn acceptance_can_be_edited() {
    let mut r = RestraintRuntime::new();
    r.acceptance_mut().lock("coding");
    for _ in 0..3 {
        r.record_acceptance("coding");
    }
    assert!(!r.acceptance().is_unlocked("coding"));
    r.acceptance_mut().unlock("coding");
    assert!(r.acceptance().is_unlocked("coding"));
    assert!(RestraintDecision::Allow.is_allow());
    assert!(!RestraintDecision::Suppress.is_allow());
}
