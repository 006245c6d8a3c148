//! Validation, policy, confidence, risk weights, sessions, provenance and the
//! policy gate.

use cognos_hal::action_validator::{audit_tag, ActionValidator};
use cognos_hal::confidence_engine::ConfidenceEngine;
use cognos_hal::gate::{is_delete_op, neutral_context, HalGateRequest, PolicyHalGate};
use cognos_hal::hal_types::{
    BehavioralMetrics, HALDecision, ProvenanceConfidence, ProvenanceData, RestraintBoundary,
    RiskVector, SessionContext, TrustState,
};
use cognos_hal::policy_engine::PolicyEngine;
use cognos_hal::provenance::ProvenanceEngine;
use cognos_hal::risk_weights::RiskEngine;
use cognos_hal::score::{Score, SCALE};
use cognos_hal::session_context::SessionEngine;

fn s(x: f64) -> Score {
    Score::from_nanos((x * 1e9).round() as i64)
}

fn value(x: Score) -> f64 {
    x.nanos as f64 / SCALE as f64
}

#[test]
fn detects_dangerous_shell() {
    assert!(ActionValidator::raw_shell_detected("rm -rf /"));
}

#[test]
fn detects_privilege_escalation() {
    assert!(ActionValidator::privilege_escalation("sudo bash"));
}

#[test]
fn syscall_risk_high() {
    let risk = ActionValidator::syscall_risk("ptrace");
    assert!(value(risk) > 0.90);
}

#[test]
fn bounded_execution_allowed() {
    assert!(ActionValidator::bounded_execution(s(0.10), s(0.95)));
}

#[test]
fn confidence_computation() {
    let trust = TrustState {
        current_score: s(0.91),
        historical_average: s(0.88),
        decay_rate: s(0.01),
        recovery_rate: s(0.02),
        compromise_suspected: false,
    };
    let behavior = BehavioralMetrics {
        anomaly_score: s(0.05),
        volatility_score: s(0.10),
        escalation_attempts: 0,
        historical_stability: s(0.94),
        recent_failures: 0,
    };
    let session = SessionContext {
        session_id: "session".to_string(),
        user_present: true,
        active_workspace: "dev".to_string(),
        active_window_title: "terminal".to_string(),
        requires_confirmation: false,
        user_attention_score: s(0.95),
    };
    let confidence =
        ConfidenceEngine::compute_confidence(&trust, &verified(), &behavior, &session);
    assert!(value(confidence) > 0.75);
}

#[test]
fn high_risk_requires_confirmation() {
    assert!(ConfidenceEngine::requires_human_confirmation(s(0.90), s(0.80)));
}

#[test]
fn irreversible_action_denied() {
    assert!(!ConfidenceEngine::irreversible_action_allowed(s(0.50), s(0.80), false));
}

#[test]
fn adaptive_boundary_reduces_with_anomaly() {
    let boundary = PolicyEngine::adaptive_risk_boundary(s(0.80), s(0.90), s(0.20));
    assert!(value(boundary) < 0.80);
}

#[test]
fn bounded_autonomy_allowed() {
    assert!(PolicyEngine::bounded_autonomy(s(0.10), s(0.95), s(0.05)));
}

#[test]
fn authority_continuity_valid() {
    assert!(PolicyEngine::authority_continuity(s(0.90), s(0.91), true));
}

#[test]
fn chain_hash_consistent() {
    let h1 = ProvenanceEngine::compute_chain_hash("parent", "payload", 100);
    let h2 = ProvenanceEngine::compute_chain_hash("parent", "payload", 100);
    assert_eq!(h1, h2);
}

#[test]
fn replay_window_valid() {
    let now = chrono::Utc::now().timestamp_millis();
    assert!(ProvenanceEngine::replay_window_valid(now, 30_000));
}

#[test]
fn detect_forged() {
    let provenance = ProvenanceData {
        source_agent: "planner".to_string(),
        certificate_fingerprint: "".to_string(),
        trust_chain_hash: "".to_string(),
        signature_verified: false,
        replay_checked: false,
        confidence: ProvenanceConfidence::Forged,
    };
    assert!(ProvenanceEngine::detect_forgery(&provenance));
}

fn verified() -> ProvenanceData {
    ProvenanceData {
        source_agent: "planner".to_string(),
        certificate_fingerprint: "abc".to_string(),
        trust_chain_hash: "def".to_string(),
        signature_verified: true,
        replay_checked: true,
        confidence: ProvenanceConfidence::Verified,
    }
}

#[test]
fn provenance_score_high() {
    let score = ProvenanceEngine::provenance_score(&verified());
    assert!(value(score) > 0.8);
}

#[test]
fn compute_low_risk() {
    let vector = RiskVector {
        intent_risk: s(0.1),
        syscall_risk: s(0.1),
        trust_deficit: s(0.1),
        anomaly_risk: s(0.0),
        volatility_risk: s(0.0),
        user_confidence: s(0.9),
        provenance_confidence: s(0.9),
    };
    let result = RiskEngine::new().compute_risk(&vector);
    assert!(value(result) < 0.3);
}

#[test]
fn compute_high_risk() {
    let vector = RiskVector {
        intent_risk: s(1.0),
        syscall_risk: s(1.0),
        trust_deficit: s(1.0),
        anomaly_risk: s(1.0),
        volatility_risk: s(1.0),
        user_confidence: s(0.0),
        provenance_confidence: s(0.0),
    };
    let result = RiskEngine::new().compute_risk(&vector);
    assert!(value(result) > 0.8);
}

#[test]
fn the_greatest_vectors_are_weighed() {
    let greatest = Score::from_nanos(i64::MAX);
    let least = Score::from_nanos(i64::MIN);
    let vector = |risk: Score, confidence: Score| RiskVector {
        intent_risk: risk,
        syscall_risk: risk,
        trust_deficit: risk,
        anomaly_risk: risk,
        volatility_risk: risk,
        user_confidence: confidence,
        provenance_confidence: confidence,
    };
    let engine = RiskEngine::new();
    assert_eq!(engine.compute_risk(&vector(greatest, least)), Score::one());
    assert_eq!(engine.compute_risk(&vector(least, greatest)), Score::zero());
    assert_eq!(engine.compute_risk(&vector(s(0.3), s(0.1))), s(0.24));
}

#[test]
fn irreversible_penalty() {
    let risk = RiskEngine::irreversible_action_penalty(s(0.5));
    assert!(value(risk) > 0.5);
}

#[test]
fn escalation_multiplier() {
    let risk = RiskEngine::escalation_penalty(s(0.4), 5);
    assert!(value(risk) > 0.4);
}

#[test]
fn attention_score_idle() {
    let score = SessionEngine::compute_attention_score(600_000, false, false);
    assert!(value(score) < 0.5);
}

#[test]
fn unattended_requires_confirmation() {
    let context = SessionEngine::unattended("session-1".to_string());
    assert!(SessionEngine::should_require_confirmation(&context, s(0.2)));
}

#[test]
fn background_danger_detected() {
    let context = SessionEngine::unattended("session-1".to_string());
    assert!(SessionEngine::dangerous_background_execution(&context, s(0.9)));
}

#[test]
fn chain_hash_is_sha256_in_hex() {
    let h = ProvenanceEngine::compute_chain_hash("parent", "payload", 100);
    assert_eq!(h.len(), 64);
    assert!(h.chars().all(|c| c.is_ascii_hexdigit() && !c.is_ascii_uppercase()));
    assert!(ProvenanceEngine::validate_chain(&h, "parent", "payload", 100));
    assert!(!ProvenanceEngine::validate_chain(&h, "parent", "payload", 101));
    assert_ne!(h, ProvenanceEngine::compute_chain_hash("other", "payload", 100));
}

#[test]
fn replay_window_has_two_ends() {
    assert!(ProvenanceEngine::replay_window_valid_at(1_000, 1_000, 30));
    assert!(!ProvenanceEngine::replay_window_valid_at(1_000, 10_000, 30));
    assert!(!ProvenanceEngine::replay_window_valid_at(10_000, 1_000, 30));
}

#[test]
fn clean_actions_are_allowed_and_dangerous_paths_reported() {
    let clean = neutral_context("open_file", "~/motor.py");
    let r = ActionValidator::validate(&clean, s(0.1), s(0.95));
    assert!(r.violated_rules.is_empty());
    assert_eq!(r.decision, HALDecision::Allow);
    let dirty = neutral_context("rm -rf /", "/etc/shadow");
    let r = ActionValidator::validate(&dirty, s(0.1), s(0.95));
    assert!(r.violated_rules.iter().any(|v| v == "dangerous_path_access"));
    assert!(r.violated_rules.iter().any(|v| v == "destructive_pattern"));
    assert_ne!(r.decision, HALDecision::Allow);
}

#[test]
fn shell_patterns_are_matched_whatever_the_text_around() {
    assert!(!ActionValidator::raw_shell_detected("open_file"));
    assert!(ActionValidator::raw_shell_detected("please rm -rf / now"));
}

#[test]
fn irreversible_actions_are_locked() {
    let mut context = neutral_context("open_file", "~/motor.py");
    context.syscall_sensitivity = cognos_hal::hal_types::SyscallSensitivity::Irreversible;
    let boundary = RestraintBoundary {
        maximum_allowed_risk: s(0.8),
        irreversible_action_lock: true,
        require_user_presence: false,
        require_multi_factor: false,
    };
    let r = PolicyEngine::evaluate(&context, s(0.1), s(0.95), &boundary);
    assert!(!r.violated_rules.is_empty());
    assert_ne!(r.decision, HALDecision::Allow);
}

#[test]
fn audit_tags_name_risk_and_confidence() {
    let tag = audit_tag("x", s(0.25), s(0.5));
    assert!(tag.starts_with("x"));
    assert!(tag.contains("0.25"));
}

fn gate_request(op: &str, device: &str, allow_approval: bool) -> HalGateRequest {
    HalGateRequest {
        capability: "fs".to_string(),
        op: op.to_string(),
        device: device.to_string(),
        allow_approval,
        trace_id: "t".to_string(),
    }
}

#[test]
fn harmless_requests_get_a_token() {
    let r = PolicyHalGate.evaluate(&gate_request("open_file", "~/motor.py", true));
    assert_eq!(r.status, "granted");
    assert_eq!(r.grant_token.len(), 36);
    assert_eq!(&r.grant_token[14..15], "4");
    assert!(r.violation.is_none());
    assert_eq!(r.trace_id, "t");
}

#[test]
fn destructive_requests_are_denied() {
    let r = PolicyHalGate.evaluate(&gate_request("rm -rf /", "~/motor.py", true));
    assert_eq!(r.status, "denied");
    assert!(r.grant_token.is_empty());
    let v = r.violation.unwrap();
    assert_eq!(v.message, "destructive command pattern blocked by HAL (target: ~/motor.py)");
    assert_eq!(v.required, "fs");
}

#[test]
fn dangerous_paths_need_an_approval() {
    let asked = PolicyHalGate.evaluate(&gate_request("open_file", "/etc/shadow", true));
    assert_eq!(asked.status, "approval_required");
    assert_eq!(asked.risk_score, s(0.7));
    let refused = PolicyHalGate.evaluate(&gate_request("open_file", "/etc/shadow", false));
    assert_eq!(refused.status, "denied");
    assert_eq!(
        refused.violation.unwrap().message,
        "user confirmation required but approval flow disabled (target: /etc/shadow)"
    );
}

#[test]
fn deletes_are_recognized_in_any_case() {
    assert!(is_delete_op("DELETE_file"));
    assert!(is_delete_op("rm"));
    assert!(!is_delete_op("format"));
}
