//! The risk formula, its floors and its explanation.

use cognos_hal::risk_scorer::{
    W1_IRREVERSIBILITY, W2_SCOPE, W3_TRUST_CONTEXT, W4_TIME_ANOMALY, W5_VIBE_FLAG, W6_USER_HISTORY,
    W7_PATTERN_MATCH,
};
use cognos_hal::score::{Score, SCALE};
use cognos_hal::{
    describe_score, score_action, IrreversibilityLevel, PatternMatchLevel, ProposedAction,
    RiskLevel, ScopeLevel, SystemContext, TimeAnomalyLevel, TrustContextLevel, UserHistoryLevel,
    VibeFlagLevel,
};

fn value(s: Score) -> f64 {
    s.nanos as f64 / SCALE as f64
}

fn action() -> ProposedAction {
    ProposedAction {
        action_type: "open_files".to_string(),
        target: "~/projects/motor.py".to_string(),
        agent: "file_agent".to_string(),
        irreversibility: IrreversibilityLevel::FullyReversible,
        scope: ScopeLevel::SingleFileUserHome,
        trust_context: TrustContextLevel::KnownTrusted,
        time_anomaly: TimeAnomalyLevel::Normal,
        vibe_flag: VibeFlagLevel::NoAiCode,
        user_history: UserHistoryLevel::Routine,
        pattern_match: PatternMatchLevel::ExactMatch,
        is_kernel_adjacent: false,
        is_delete: false,
    }
}

fn base_action() -> ProposedAction {
    ProposedAction {
        action_type: "open_file".to_string(),
        target: "~/motor.py".to_string(),
        agent: "file".to_string(),
        ..action()
    }
}

fn ctx() -> SystemContext {
    SystemContext::default()
}

#[test]
fn benign_routine_action_is_silent() {
    let score = score_action(&action(), &ctx());
    assert!(value(score.score) < 0.3, "score {} not in SILENT band", value(score.score));
    assert_eq!(score.level, RiskLevel::Silent);
}

#[test]
fn score_is_always_within_bounds() {
    let benign = score_action(&action(), &ctx());
    assert!(value(benign.score) >= 0.0);

    let mut worst = action();
    worst.irreversibility = IrreversibilityLevel::Irreversible;
    worst.scope = ScopeLevel::KernelLevel;
    worst.trust_context = TrustContextLevel::Unknown;
    worst.time_anomaly = TimeAnomalyLevel::UnusualTimeAndScope;
    worst.vibe_flag = VibeFlagLevel::AiGeneratedKernelAdjacent;
    worst.user_history = UserHistoryLevel::Never;
    worst.pattern_match = PatternMatchLevel::NoMatch;
    worst.is_kernel_adjacent = true;
    worst.is_delete = true;
    let score = score_action(&worst, &ctx());
    assert!(value(score.score) <= 1.0);
    assert_eq!(score.level, RiskLevel::Block);
}

#[test]
fn delete_hard_floor_cannot_be_gamed_by_history() {
    let mut del = action();
    del.action_type = "delete_file".to_string();
    del.irreversibility = IrreversibilityLevel::Irreversible;
    del.is_delete = true;
    let score = score_action(&del, &ctx());
    assert!(value(score.score) >= 0.5, "delete floored at 0.5, got {}", value(score.score));
    assert!(score.components.hard_floor_applied);
}

#[test]
fn kernel_adjacent_floor_is_confirm_or_higher() {
    let mut k = action();
    k.is_kernel_adjacent = true;
    let score = score_action(&k, &ctx());
    assert!(value(score.score) >= 0.7);
    assert!(matches!(score.level, RiskLevel::Confirm | RiskLevel::Block));
}

#[test]
fn unreviewed_ai_code_always_blocks() {
    let mut v = action();
    v.vibe_flag = VibeFlagLevel::AiGeneratedUnreviewed;
    let score = score_action(&v, &ctx());
    assert!(value(score.score) >= 0.8);
    assert_eq!(score.level, RiskLevel::Block);
}

#[test]
fn explanation_is_never_empty() {
    let score = score_action(&action(), &ctx());
    assert!(!score.explanation.trim().is_empty());
}

#[test]
fn routine_open_file_is_silent() {
    let score = score_action(&base_action(), &ctx());
    assert_eq!(score.level, RiskLevel::Silent, "score={}", value(score.score));
}

#[test]
fn delete_hard_floor_respected() {
    let mut action = base_action();
    action.action_type = "delete_file".to_string();
    action.irreversibility = IrreversibilityLevel::Irreversible;
    action.is_delete = true;
    action.user_history = UserHistoryLevel::Routine;
    action.pattern_match = PatternMatchLevel::ExactMatch;

    let score = score_action(&action, &ctx());
    assert!(value(score.score) >= 0.5, "delete floor violated: score={}", value(score.score));
    assert!(score.level != RiskLevel::Silent, "delete must not be Silent");
    assert!(score.components.hard_floor_applied);
}

#[test]
fn kernel_floor_respected() {
    let mut action = base_action();
    action.scope = ScopeLevel::KernelLevel;
    action.is_kernel_adjacent = true;
    action.user_history = UserHistoryLevel::Routine;

    let score = score_action(&action, &ctx());
    assert!(value(score.score) >= 0.7, "kernel floor violated: score={}", value(score.score));
}

#[test]
fn ai_unreviewed_floor_respected() {
    let mut action = base_action();
    action.vibe_flag = VibeFlagLevel::AiGeneratedUnreviewed;
    action.user_history = UserHistoryLevel::Routine;
    action.pattern_match = PatternMatchLevel::ExactMatch;

    let score = score_action(&action, &ctx());
    assert!(value(score.score) >= 0.8, "AI code floor violated: score={}", value(score.score));
    assert_eq!(score.level, RiskLevel::Block);
}

#[test]
fn unknown_binary_scores_high() {
    let mut action = base_action();
    action.trust_context = TrustContextLevel::Unknown;
    action.vibe_flag = VibeFlagLevel::AiGeneratedKernelAdjacent;
    action.scope = ScopeLevel::KernelLevel;
    action.is_kernel_adjacent = true;

    let score = score_action(&action, &ctx());
    assert_eq!(score.level, RiskLevel::Block);
    assert!(value(score.score) >= 0.8);
}

#[test]
fn score_always_in_range() {
    let worst = ProposedAction {
        action_type: "format_disk".to_string(),
        target: "/dev/sda".to_string(),
        agent: "unknown".to_string(),
        irreversibility: IrreversibilityLevel::Irreversible,
        scope: ScopeLevel::KernelLevel,
        trust_context: TrustContextLevel::Unknown,
        time_anomaly: TimeAnomalyLevel::UnusualTimeAndScope,
        vibe_flag: VibeFlagLevel::AiGeneratedKernelAdjacent,
        user_history: UserHistoryLevel::Never,
        pattern_match: PatternMatchLevel::NoMatch,
        is_kernel_adjacent: true,
        is_delete: true,
    };
    let score = score_action(&worst, &ctx());
    assert!((0.0..=1.0).contains(&value(score.score)));

    let best = base_action();
    let score = score_action(&best, &ctx());
    assert!((0.0..=1.0).contains(&value(score.score)));
}

#[test]
fn explanation_is_non_empty() {
    let score = score_action(&base_action(), &ctx());
    assert!(!score.explanation.is_empty());
    assert!(score.explanation.contains("open_file") || score.explanation.contains("motor.py"));
}

#[test]
fn weights_sum_to_one() {
    let sum = W1_IRREVERSIBILITY
        + W2_SCOPE
        + W3_TRUST_CONTEXT
        + W4_TIME_ANOMALY
        + W5_VIBE_FLAG
        + W6_USER_HISTORY
        + W7_PATTERN_MATCH;
    let sum = sum as f64 / SCALE as f64;
    assert!((sum - 1.0).abs() < 0.001, "Weights sum to {}", sum);
}

#[test]
fn higher_history_reduces_score() {
    let mut low_hist = base_action();
    low_hist.user_history = UserHistoryLevel::Never;

    let mut high_hist = base_action();
    high_hist.user_history = UserHistoryLevel::Routine;

    let score_low = value(score_action(&low_hist, &ctx()).score);
    let score_high = value(score_action(&high_hist, &ctx()).score);
    assert!(score_high <= score_low, "Higher history should reduce or equal score");
}

fn from_intent() -> ProposedAction {
    ProposedAction {
        action_type: "open_files".to_string(),
        target: "~/projects/robo-arm/motor.py".to_string(),
        agent: "file_agent".to_string(),
        user_history: UserHistoryLevel::Frequent,
        pattern_match: PatternMatchLevel::PartialMatch,
        ..action()
    }
}

#[test]
fn open_workspace_intent_executes_silently() {
    let score = score_action(&from_intent(), &ctx());
    assert_eq!(score.level, RiskLevel::Silent, "explanation: {}", score.explanation);
}

#[test]
fn hal_floors_hold_regardless_of_intent_provenance() {
    let mut proposal = from_intent();
    proposal.action_type = "delete_file".to_string();
    proposal.irreversibility = IrreversibilityLevel::Irreversible;
    proposal.is_delete = true;
    proposal.user_history = UserHistoryLevel::Routine;
    proposal.pattern_match = PatternMatchLevel::ExactMatch;

    let score = score_action(&proposal, &ctx());
    assert!(value(score.score) >= 0.5);
    assert_ne!(score.level, RiskLevel::Silent);
}

#[test]
fn ai_generated_code_from_intent_pipeline_always_blocks() {
    let mut proposal = from_intent();
    proposal.action_type = "apply_generated_patch".to_string();
    proposal.vibe_flag = VibeFlagLevel::AiGeneratedUnreviewed;
    proposal.user_history = UserHistoryLevel::Routine;
    proposal.pattern_match = PatternMatchLevel::ExactMatch;

    let score = score_action(&proposal, &ctx());
    assert_eq!(score.level, RiskLevel::Block);
    assert!(score.components.hard_floor_applied);
}

#[test]
fn exact_score_without_floors() {
    let mut a = base_action();
    a.irreversibility = IrreversibilityLevel::Irreversible;
    a.trust_context = TrustContextLevel::Unknown;
    a.user_history = UserHistoryLevel::Never;
    a.pattern_match = PatternMatchLevel::NoMatch;
    let score = score_action(&a, &ctx());
    assert_eq!(score.components.irreversibility.nanos, SCALE);
    assert_eq!(score.components.trust_context.nanos, SCALE);
    assert_eq!(score.score.nanos, 450_000_000);
    assert!(!score.components.hard_floor_applied);
    assert_eq!(describe_score(&score), score.explanation);
}

#[test]
fn level_bands_start_at_their_thresholds() {
    assert_eq!(RiskLevel::from_score(Score::from_nanos(299_999_999)), RiskLevel::Silent);
    assert_eq!(RiskLevel::from_score(Score::from_nanos(300_000_000)), RiskLevel::Notify);
    assert_eq!(RiskLevel::from_score(Score::from_nanos(600_000_000)), RiskLevel::Confirm);
    assert_eq!(RiskLevel::from_score(Score::from_nanos(800_000_000)), RiskLevel::Block);
}

#[test]
fn more_signals_never_lower_the_risk() {
    let calm = score_action(&base_action(), &ctx());
    let mut tense = base_action();
    tense.time_anomaly = TimeAnomalyLevel::UnusualTimeAndScope;
    tense.scope = ScopeLevel::KernelLevel;
    let risky = score_action(&tense, &ctx());
    assert!(risky.score.nanos >= calm.score.nanos);
}

#[test]
fn scores_as_text() {
    assert_eq!(Score::from_nanos(850_000_000).to_text(), "0.85");
    assert_eq!(Score::from_nanos(-1_500_000_000).to_text(), "-1.5");
    assert_eq!(Score::from_nanos(2_000_000_000).to_text(), "2");
    assert_eq!(Score::from_nanos(125_000_000).to_fixed2(), "0.12");
    assert_eq!(Score::from_nanos(135_000_000).to_fixed2(), "0.14");
    assert_eq!(Score::from_nanos(3_000_000_000).clamp_unit(), Score::one());
}
