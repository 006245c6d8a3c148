//! Approval of requests: levels, frames, answers and responses.

use cognos_hal::approval_flow::{
    approve_response, compute_hal_level_v0, conclude, deny_response, dialog_kind, frame,
    frame_length, is_outside_user_home, line_allows, message_length, reply_from_member,
    response_at, step, terminal_prompt, terminal_reply, ui_reply, unreadable_response, GateNote,
    GateOutcome, GateReason, GateRequest, GateStep, HalDaemon, HalLevel, KNOWN_AGENTS,
};
use cognos_hal::clock::Timestamp;
use cognos_hal::score::{Score, SCALE};

const HOME: &str = "/home/user";

fn value(s: Score) -> f64 {
    s.nanos as f64 / SCALE as f64
}

fn req(agent: &str, action: &str, target: &str, ai: bool) -> GateRequest {
    GateRequest {
        request_id: 7,
        agent: agent.to_string(),
        action: action.to_string(),
        target: target.to_string(),
        parameters: "null".to_string(),
        is_ai_generated: ai,
        intent_id: None,
    }
}

#[test]
fn unknown_agent_is_block() {
    let r = req("evil", "open_file", "~/test.py", false);
    let (level, score) = compute_hal_level_v0(&r, HOME);
    assert_eq!(level, HalLevel::Block);
    assert_eq!(value(score), 1.0);
}

#[test]
fn modify_hal_is_always_block() {
    for agent in KNOWN_AGENTS {
        let r = req(agent, "modify_hal", "/etc/cognos/hal", false);
        let (level, score) = compute_hal_level_v0(&r, HOME);
        assert_eq!(level, HalLevel::Block, "modify_hal by {} should be Block", agent);
        assert_eq!(value(score), 1.0);
    }
}

#[test]
fn open_file_is_silent() {
    let r = req("file", "open_file", "~/motor.py", false);
    let (level, score) = compute_hal_level_v0(&r, HOME);
    assert_eq!(level, HalLevel::Silent);
    assert!(value(score) < 0.3);
}

#[test]
fn delete_file_is_confirm() {
    let r = req("file", "delete_file", "~/motor.py", false);
    let (level, score) = compute_hal_level_v0(&r, HOME);
    assert_eq!(level, HalLevel::Confirm);
    assert!(value(score) >= 0.6 && value(score) < 0.8);
}

#[test]
fn ai_generated_action_is_confirm_or_block() {
    let r = req("coding", "open_file", "~/motor.py", true);
    let (level, _) = compute_hal_level_v0(&r, HOME);
    assert!(
        level == HalLevel::Confirm || level == HalLevel::Block,
        "AI-generated action should be at least Confirm level"
    );
}

#[test]
fn target_outside_home_is_block() {
    let r = req("file", "open_file", "/etc/passwd", false);
    let (level, score) = compute_hal_level_v0(&r, HOME);
    assert_eq!(level, HalLevel::Block);
    assert!(value(score) >= 0.8);
}

#[test]
fn execute_ai_binary_is_block() {
    let r = req("coding", "execute_binary", "~/tmp/generated.sh", true);
    let (level, score) = compute_hal_level_v0(&r, HOME);
    assert_eq!(level, HalLevel::Block);
    assert!(value(score) >= 0.8);
}

#[test]
fn notices_and_exact_scores() {
    assert_eq!(
        compute_hal_level_v0(&req("file", "move_file", "~/a", false), HOME),
        (HalLevel::Notify, Score::from_nanos(400_000_000))
    );
    assert_eq!(
        compute_hal_level_v0(&req("file", "install_package", "", false), HOME),
        (HalLevel::Confirm, Score::from_nanos(650_000_000))
    );
    assert_eq!(
        compute_hal_level_v0(&req("file", "open_file", "/home/user/x", false), HOME),
        (HalLevel::Silent, Score::from_nanos(150_000_000))
    );
    assert!(is_outside_user_home("/etc/passwd", HOME));
    assert!(!is_outside_user_home("relative", HOME));
    assert!(!is_outside_user_home("", HOME));
}

#[test]
fn security_events_are_answered_without_a_question() {
    match step(&req("evil", "open_file", "~/a", false), HOME) {
        GateStep::Answer { verdict, audit } => {
            assert!(!verdict.approved);
            assert_eq!(verdict.reason, GateReason::AutoDenied);
            assert_eq!(audit.note, GateNote::UnknownAgent);
        }
        other => panic!("{:?}", other),
    }
    match step(&req("file", "modify_hal", "~/a", false), HOME) {
        GateStep::Answer { verdict, audit } => {
            assert!(!verdict.approved);
            assert_eq!(audit.note, GateNote::ModifyHalAttempt);
        }
        other => panic!("{:?}", other),
    }
    match step(&req("file", "open_file", "~/a", false), HOME) {
        GateStep::Answer { verdict, .. } => assert!(verdict.approved),
        other => panic!("{:?}", other),
    }
    assert!(matches!(
        step(&req("file", "move_file", "~/a", false), HOME),
        GateStep::NotifyThenAnswer { .. }
    ));
    assert!(matches!(
        step(&req("file", "delete_file", "~/a", false), HOME),
        GateStep::AskUser { level: HalLevel::Confirm, .. }
    ));
}

#[test]
fn no_answer_is_a_denial() {
    let score = Score::from_nanos(750_000_000);
    let (denied, audit) = conclude(HalLevel::Confirm, score, None);
    assert!(!denied.approved);
    assert_eq!(denied.reason, GateReason::TimeoutDeny);
    assert_eq!(audit.outcome, GateOutcome::Denied);
    let (refused, _) = conclude(HalLevel::Confirm, score, Some(false));
    assert_eq!(refused.reason, GateReason::UserDenied);
    let (allowed, audit) = conclude(HalLevel::Block, score, Some(true));
    assert!(allowed.approved);
    assert_eq!(allowed.reason, GateReason::UserApproved);
    assert_eq!(audit.outcome_label(), "approved");
}

#[test]
fn frames_carry_their_length() {
    let f = frame(b"hello");
    assert_eq!(f, vec![0, 0, 0, 5, b'h', b'e', b'l', b'l', b'o']);
    assert_eq!(frame_length(&[0, 1, 0, 0]), 65_536);
    assert_eq!(message_length(&[0, 1, 0, 0]), Some(65_536));
    assert_eq!(message_length(&[0, 1, 0, 1]), None);
}

#[test]
fn ui_answers_are_read_from_json() {
    assert_eq!(ui_reply(b"{\"approved\":true}"), Some(true));
    assert_eq!(ui_reply(b"{\"approved\":false}"), Some(false));
    assert_eq!(ui_reply(b"not json"), None);
    assert_eq!(reply_from_member(None), None);
}

#[test]
fn terminal_answers() {
    assert!(terminal_reply("  yes\n"));
    assert!(!terminal_reply("YES\n"));
    assert!(terminal_reply("Y\n"));
    assert!(terminal_reply("y\n"));
    assert!(!terminal_reply("no\n"));
    assert!(!terminal_reply("\n"));
    assert!(line_allows("y", "y"));
}

#[test]
fn responses_repeat_the_request() {
    let (verdict, _) = conclude(HalLevel::Confirm, Score::from_nanos(650_000_000), Some(true));
    let r = response_at(42, &verdict, Timestamp::from_nanos(5));
    assert_eq!(r.request_id, 42);
    assert!(r.approved);
    assert_eq!(r.timestamp, Timestamp::from_nanos(5));
    assert!(approve_response(1, GateReason::AutoApproved, Score::zero()).approved);
    assert!(!deny_response(1, GateReason::AutoDenied, Score::one()).approved);
    let e = unreadable_response();
    assert!(!e.approved);
    assert_eq!(e.reason, GateReason::HalError);
}

#[test]
fn prompts_name_what_is_asked() {
    let r = req("file", "delete_file", "~/motor.py", false);
    let text = terminal_prompt(&r, HalLevel::Confirm);
    assert!(text.contains("delete_file"));
    assert!(text.contains("~/motor.py"));
    assert_ne!(dialog_kind(HalLevel::Confirm), dialog_kind(HalLevel::Block));
}

#[test]
fn daemon_paths_lie_under_home() {
    let mut d = HalDaemon::new(Some("/home/user".to_string()));
    assert!(d.audit_log.starts_with("/home/user"));
    d.shutdown();
    assert!(!d.running);
}
