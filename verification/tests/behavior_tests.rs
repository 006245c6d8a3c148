//! Behaviour models, anomaly detection, restraint, calibration and the shared
//! runtime state.

use cognos_hal::anomaly_detection::AnomalyDetector;
use cognos_hal::behavior_monitor::{BehaviorEvent, BehaviorMonitor};
use cognos_hal::behavioral_model::{ActionObservation, BehavioralModel, WINDOW};
use cognos_hal::clock::Timestamp;
use cognos_hal::hal_types::{
    AuditEvent, EscalationContext, EscalationLevel, HALDecision, RuntimeAnomaly, TrustState,
};
use cognos_hal::restraint_model::{
    ContextPrediction, DomainAcceptance, PreloadDecision, RestraintModel, ACCEPTANCE_THRESHOLD,
};
use cognos_hal::restraint_runtime::{Prediction, RestraintDecision, RestraintRuntime};
use cognos_hal::runtime_state::{RuntimeState, ANOMALY_LIMIT};
use cognos_hal::score::{Score, SCALE};
use cognos_hal::{ActionClass, Feedback, TrustCalibration};

fn s(x: f64) -> Score {
    Score::from_nanos((x * 1e9).round() as i64)
}

fn value(x: Score) -> f64 {
    x.nanos as f64 / SCALE as f64
}

const EPSILON: f64 = 1e-7;

#[test]
fn anomaly_score_detected() {
    let mut detector = AnomalyDetector::new();
    for _ in 0..50 {
        detector.record_metric("planner", s(0.10));
    }
    let score = detector.anomaly_score("planner", s(1.0));
    assert!(value(score) > 0.5);
}

/// The score behind `count` equal metrics in single precision.
fn single_precision_score(metric: f32, count: usize, current: f32) -> f32 {
    let metrics = vec![metric; count];
    let n = count as f32;
    let mean = metrics.iter().sum::<f32>() / n;
    let variance = metrics.iter().map(|v| (v - mean) * (v - mean)).sum::<f32>() / n;
    let deviation = variance.sqrt();
    if deviation == 0.0 {
        return 0.0;
    }
    ((current - mean).abs() / deviation / 10.0).clamp(0.0, 1.0)
}

#[test]
fn equal_metrics_score_as_in_single_precision() {
    for metric in [0.0, 0.1, 0.25, 0.3, 0.5, 0.7, 0.9, 1.0, 3.7, 1234.5, 0.000001, -0.1, -0.5] {
        for count in [1usize, 2, 3, 5, 10, 50, 100, 256] {
            let mut detector = AnomalyDetector::new();
            for _ in 0..count {
                detector.record_metric("planner", s(metric));
            }
            for current in [metric, 0.0, 1.0, -2.0] {
                let expected = single_precision_score(metric as f32, count, current as f32);
                let score = value(detector.anomaly_score("planner", s(current)));
                assert!(
                    (score - expected as f64).abs() < 1e-4,
                    "{} times {}, then {}: {} for {}",
                    count,
                    metric,
                    current,
                    score,
                    expected
                );
            }
        }
    }
}

#[test]
fn exact_equal_metrics_say_nothing() {
    let mut detector = AnomalyDetector::new();
    for _ in 0..2 {
        detector.record_metric("planner", s(0.5));
    }
    assert_eq!(detector.anomaly_score("planner", s(1.0)), Score::zero());
    assert_eq!(detector.anomaly_score("planner", s(0.5)), Score::zero());
    for _ in 0..50 {
        detector.record_metric("memory", s(0.1));
    }
    assert_eq!(detector.anomaly_score("memory", s(1.0)), Score::one());
    assert_eq!(detector.anomaly_score("memory", s(0.1)), s(0.1));
}

#[test]
fn spike_detected() {
    let detector = AnomalyDetector::new();
    assert!(detector.detect_spike(s(0.1), s(0.9)));
}

#[test]
fn privilege_drift_detected() {
    let detector = AnomalyDetector::new();
    let baseline = vec!["memory.read".to_string()];
    let current = vec!["memory.read".to_string(), "filesystem.write".to_string()];
    assert!(detector.detect_privilege_drift(&baseline, &current));
}

#[test]
fn metrics_at_the_mean_are_not_anomalous() {
    let mut detector = AnomalyDetector::new();
    for x in [0.1, 0.3] {
        detector.record_metric("planner", s(x));
    }
    assert_eq!(detector.anomaly_score("planner", s(0.2)), Score::zero());
    assert_eq!(detector.anomaly_score("stranger", s(0.9)), Score::zero());
    assert!(!detector.detect_privilege_drift(&["a".to_string()], &["a".to_string()]));
    assert!(AnomalyDetector::isolate_threshold(s(0.99)));
}

fn obs(action: &str, succeeded: bool, hour: u8) -> ActionObservation {
    ActionObservation {
        action: action.to_string(),
        succeeded,
        was_escalation_attempt: false,
        hour,
    }
}

#[test]
fn unknown_agent_scores_neutral() {
    let model = BehavioralModel::new();
    let m = model.metrics("ghost");
    assert!((value(m.anomaly_score) - 0.5).abs() < EPSILON);
    assert!((value(m.historical_stability) - 0.5).abs() < EPSILON);
    assert_eq!(m.recent_failures, 0);
    assert!((value(model.time_anomaly("ghost", 3)) - 0.5).abs() < EPSILON);
}

#[test]
fn consistent_success_is_stable_and_calm() {
    let mut model = BehavioralModel::new();
    for _ in 0..50 {
        model.observe("file_agent", obs("open_files", true, 14));
    }
    let m = model.metrics("file_agent");
    assert!((value(m.historical_stability) - 1.0).abs() < EPSILON);
    assert!((value(m.volatility_score) - 0.0).abs() < EPSILON);
    assert_eq!(m.recent_failures, 0);
}

#[test]
fn escalation_attempts_are_counted() {
    let mut model = BehavioralModel::new();
    model.observe(
        "coding_agent",
        ActionObservation {
            action: "write_source".to_string(),
            succeeded: false,
            was_escalation_attempt: true,
            hour: 14,
        },
    );
    assert_eq!(model.metrics("coding_agent").escalation_attempts, 1);
}

#[test]
fn novel_recent_actions_raise_anomaly() {
    let mut model = BehavioralModel::new();
    for _ in 0..30 {
        model.observe("agent", obs("open_files", true, 14));
    }
    for _ in 0..20 {
        model.observe("agent", obs("modify_config", true, 14));
    }
    let m = model.metrics("agent");
    assert!(
        value(m.anomaly_score) > 0.9,
        "expected high novelty, got {}",
        value(m.anomaly_score)
    );
}

#[test]
fn time_anomaly_tiers_match_spec() {
    let mut model = BehavioralModel::new();
    for _ in 0..99 {
        model.observe("agent", obs("open_files", true, 14));
    }
    model.observe("agent", obs("open_files", true, 22));

    assert!((value(model.time_anomaly("agent", 14)) - 0.0).abs() < EPSILON);
    assert!((value(model.time_anomaly("agent", 22)) - 0.5).abs() < EPSILON);
    assert!((value(model.time_anomaly("agent", 3)) - 1.0).abs() < EPSILON);
}

#[test]
fn window_is_bounded() {
    let mut model = BehavioralModel::new();
    for i in 0..(WINDOW + 100) {
        model.observe("agent", obs("a", i % 2 == 0, 14));
    }
    let len = model.history("agent").map(|h| h.len()).unwrap_or(0);
    assert_eq!(len, WINDOW);
}

#[test]
fn monitor_smooths_rates_at_rollover() {
    let mut m = BehaviorMonitor::new();
    let agent = "file".to_string();
    let start = Timestamp::from_nanos(0);
    for _ in 0..600 {
        m.observe_at(&agent, BehaviorEvent::Syscall, start);
    }
    assert_eq!(m.behavior_of(&agent).unwrap().syscall_count, 600);
    assert_eq!(m.anomaly_score(&agent), Score::zero());
    m.rollover_all_at(Timestamp::from_nanos(60_000_000_000));
    let b = m.behavior_of(&agent).unwrap();
    assert_eq!(b.syscall_count, 0);
    assert_eq!(b.syscall_rate, s(2.0));
    assert_eq!(m.anomaly_score(&agent), s(0.1));
    assert!(m.behavior_of(&"ghost".to_string()).is_none());
}

fn unlocked_acceptance(domain: &str) -> DomainAcceptance {
    let mut a = DomainAcceptance::default();
    for _ in 0..ACCEPTANCE_THRESHOLD {
        a.record_acceptance(domain);
    }
    a
}

fn base_pred() -> ContextPrediction {
    ContextPrediction {
        predicted_action: "open_workspace".to_string(),
        confidence: s(0.92),
        domain: "coding".to_string(),
        file_paths: vec!["~/projects/motor.py".to_string()],
        trigger_signal: "9am pattern".to_string(),
        time_of_day: 9,
    }
}

#[test]
fn valid_preload_passes() {
    let acc = unlocked_acceptance("coding");
    let result = RestraintModel::should_preload(&base_pred(), &acc);
    assert_eq!(result, PreloadDecision::Preload);
}

#[test]
fn low_confidence_holds_back() {
    let acc = unlocked_acceptance("coding");
    let mut pred = base_pred();
    pred.confidence = s(0.70);
    let result = RestraintModel::should_preload(&pred, &acc);
    assert!(matches!(result, PreloadDecision::HoldBack { .. }));
}

#[test]
fn personal_domain_always_held_back() {
    let acc = unlocked_acceptance("personal");
    let mut pred = base_pred();
    pred.domain = "personal".to_string();
    pred.confidence = s(0.99);
    let result = RestraintModel::should_preload(&pred, &acc);
    assert!(matches!(result, PreloadDecision::HoldBack { .. }));
}

#[test]
fn sensitive_path_holds_back() {
    let acc = unlocked_acceptance("coding");
    let mut pred = base_pred();
    pred.file_paths = vec!["~/diary/2025.md".to_string()];
    let result = RestraintModel::should_preload(&pred, &acc);
    assert!(matches!(result, PreloadDecision::HoldBack { .. }));
}

#[test]
fn late_night_personal_holds_back() {
    let acc = unlocked_acceptance("gaming");
    let mut pred = base_pred();
    pred.domain = "gaming".to_string();
    pred.time_of_day = 23;
    let result = RestraintModel::should_preload(&pred, &acc);
    assert!(matches!(result, PreloadDecision::HoldBack { .. }));
}

#[test]
fn late_night_coding_is_ok() {
    let acc = unlocked_acceptance("coding");
    let mut pred = base_pred();
    pred.time_of_day = 23;
    let result = RestraintModel::should_preload(&pred, &acc);
    assert_eq!(result, PreloadDecision::Preload);
}

#[test]
fn read_action_held_back() {
    let acc = unlocked_acceptance("coding");
    let mut pred = base_pred();
    pred.predicted_action = "read_file_content".to_string();
    let result = RestraintModel::should_preload(&pred, &acc);
    assert!(matches!(result, PreloadDecision::HoldBack { .. }));
}

#[test]
fn new_domain_held_back() {
    let acc = DomainAcceptance::default();
    let result = RestraintModel::should_preload(&base_pred(), &acc);
    assert!(matches!(result, PreloadDecision::HoldBack { .. }));
}

#[test]
fn locked_domain_held_back() {
    let mut acc = unlocked_acceptance("coding");
    acc.lock("coding");
    let result = RestraintModel::should_preload(&base_pred(), &acc);
    assert!(matches!(result, PreloadDecision::HoldBack { .. }));
}

#[test]
fn credentials_path_held_back() {
    let acc = unlocked_acceptance("coding");
    let mut pred = base_pred();
    pred.file_paths = vec!["~/credentials.env".to_string()];
    let result = RestraintModel::should_preload(&pred, &acc);
    assert!(matches!(result, PreloadDecision::HoldBack { .. }));
}

#[test]
fn confidence_must_exceed_its_threshold() {
    let acc = unlocked_acceptance("coding");
    let mut pred = base_pred();
    pred.confidence = s(0.85);
    assert!(!RestraintModel::should_preload(&pred, &acc).is_preload());
    pred.confidence = Score::from_nanos(850_000_001);
    assert!(RestraintModel::should_preload(&pred, &acc).is_preload());
    pred.file_paths = vec!["~/DIARY/2025.md".to_string()];
    assert!(!RestraintModel::should_preload(&pred, &acc).is_preload());
}

#[test]
fn user_choices_on_actions_are_recorded() {
    let mut r = RestraintRuntime::new();
    for _ in 0..ACCEPTANCE_THRESHOLD {
        r.record_acceptance("coding");
    }
    let p = Prediction { inner: base_pred(), action_key: "open_workspace".to_string() };
    assert_eq!(r.evaluate(&p), RestraintDecision::Allow);
    r.disable_action("open_workspace");
    assert!(r.gate_state("open_workspace").unwrap().user_disabled);
    r.enable_action("open_workspace");
    assert!(!r.gate_state("open_workspace").unwrap().user_disabled);
    assert_eq!(r.gate_state("open_workspace").unwrap().allow_count, 1);
    assert!(r.gate_state("other").is_none());
    let mut doubtful = p;
    doubtful.inner.confidence = s(0.5);
    assert_eq!(r.evaluate(&doubtful), RestraintDecision::Suppress);
}

#[test]
fn defaults_are_conservative() {
    let c = TrustCalibration::new();
    assert!(value(c.get_threshold(&ActionClass::FileDelete)) >= 0.3);
    assert!(value(c.get_threshold(&ActionClass::KernelAdjacent)) >= 0.6);
    assert!(value(c.get_threshold(&ActionClass::AiGeneratedCode)) >= 0.6);
}

#[test]
fn unnecessary_interrupt_lowers_threshold() {
    let mut c = TrustCalibration::new();
    let before = value(c.get_threshold(&ActionClass::FileMove));
    c.record_feedback(ActionClass::FileMove, Feedback::UnnecessaryInterrupt);
    let after = value(c.get_threshold(&ActionClass::FileMove));
    assert!(after < before, "Unnecessary feedback should lower threshold");
}

#[test]
fn always_ask_raises_to_0_9() {
    let mut c = TrustCalibration::new();
    c.record_feedback(ActionClass::AppLaunch, Feedback::AlwaysAskForThis);
    assert!((value(c.get_threshold(&ActionClass::AppLaunch)) - 0.9).abs() < 0.001);
}

#[test]
fn correct_interrupt_makes_no_change() {
    let mut c = TrustCalibration::new();
    let before = value(c.get_threshold(&ActionClass::PackageInstall));
    c.record_feedback(ActionClass::PackageInstall, Feedback::CorrectInterrupt);
    let after = value(c.get_threshold(&ActionClass::PackageInstall));
    assert!((before - after).abs() < 0.001);
}

#[test]
fn kernel_and_ai_floors_respected() {
    let mut c = TrustCalibration::new();
    for _ in 0..100 {
        c.record_feedback(ActionClass::KernelAdjacent, Feedback::UnnecessaryInterrupt);
        c.record_feedback(ActionClass::AiGeneratedCode, Feedback::UnnecessaryInterrupt);
    }
    assert!(
        value(c.get_threshold(&ActionClass::KernelAdjacent)) >= 0.60,
        "KernelAdjacent below floor: {}",
        value(c.get_threshold(&ActionClass::KernelAdjacent))
    );
    assert!(
        value(c.get_threshold(&ActionClass::AiGeneratedCode)) >= 0.60,
        "AiGeneratedCode below floor: {}",
        value(c.get_threshold(&ActionClass::AiGeneratedCode))
    );
}

#[test]
fn persists_and_reloads() {
    let saved = {
        let mut c = TrustCalibration::new();
        c.record_feedback(ActionClass::FileMove, Feedback::UnnecessaryInterrupt);
        c.to_persisted()
    };
    let c2 = TrustCalibration::load_persisted(&saved);
    assert!(
        value(c2.get_threshold(&ActionClass::FileMove))
            < value(ActionClass::FileMove.default_threshold())
    );
}

#[test]
fn feedback_is_reported() {
    let mut c = TrustCalibration::new();
    let e = c.record_feedback_at(
        ActionClass::FileDelete,
        Feedback::UnnecessaryInterrupt,
        Timestamp::from_nanos(3),
    );
    assert_eq!(e.timestamp, Timestamp::from_nanos(3));
    assert_eq!(e.old_threshold, ActionClass::FileDelete.default_threshold());
    assert_eq!(e.new_threshold, c.get_threshold(&ActionClass::FileDelete));
    assert_eq!(ActionClass::from_name(ActionClass::FileDelete.name()), Some(ActionClass::FileDelete));
    assert_eq!(ActionClass::from_name("nothing"), None);
    assert_eq!(c.all_thresholds().len(), 8);
}

fn trusted() -> TrustState {
    TrustState {
        current_score: s(0.90),
        historical_average: s(0.92),
        decay_rate: s(0.02),
        recovery_rate: s(0.01),
        compromise_suspected: false,
    }
}

#[test]
fn trust_decay() {
    let mut runtime = RuntimeState::new();
    runtime.set_trust_state("planner", trusted());
    runtime.decay_trust("planner", s(0.50));
    let trust = runtime.get_trust_state("planner").unwrap();
    assert!(value(trust.current_score) < 0.90);
}

#[test]
fn escalation_tracking() {
    let mut runtime = RuntimeState::new();
    runtime.set_escalation(
        "planner",
        EscalationContext {
            level: EscalationLevel::High,
            reason: "suspicious".to_string(),
            requires_isolation: true,
            requires_forensics: true,
        },
    );
    assert!(runtime.escalation_active("planner"));
    runtime.clear_escalation("planner");
    assert!(!runtime.escalation_active("planner"));
}

#[test]
fn deep_decay_marks_a_compromise() {
    let mut runtime = RuntimeState::new();
    assert_eq!(runtime.runtime_health(), Score::one());
    runtime.set_trust_state("planner", trusted());
    runtime.set_trust_state("file", trusted());
    runtime.decay_trust("planner", s(0.80));
    assert_eq!(runtime.compromised_agents(), vec!["planner".to_string()]);
    assert_eq!(runtime.runtime_health(), s(0.5));
    runtime.recover_trust("planner", s(5.0));
    assert_eq!(runtime.get_trust_state("planner").unwrap().current_score, Score::one());
    runtime.decay_trust("ghost", s(0.1));
    assert!(runtime.get_trust_state("ghost").is_none());
}

#[test]
fn streams_keep_the_newest() {
    let mut runtime = RuntimeState::new();
    for i in 0..(ANOMALY_LIMIT + 1) {
        runtime.push_anomaly(RuntimeAnomaly {
            anomaly_type: "spike".to_string(),
            severity: s(0.5),
            description: String::new(),
            detected_at: i as i64,
        });
    }
    let kept = runtime.recent_anomalies();
    assert_eq!(kept.len(), ANOMALY_LIMIT);
    assert_eq!(kept[0].detected_at, 1);
    runtime.append_audit(AuditEvent {
        audit_id: "1".to_string(),
        parent_hash: String::new(),
        event_hash: String::new(),
        event_type: "x".to_string(),
        timestamp: 1,
        source_agent: "planner".to_string(),
        payload_hash: String::new(),
    });
    assert_eq!(runtime.audit_snapshot().len(), 1);
    runtime.update_decision("i", HALDecision::Block);
    assert_eq!(runtime.get_decision("i"), Some(HALDecision::Block));
    assert!(RuntimeState::monotonic_timestamp() > 0);
}
