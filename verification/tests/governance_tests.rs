//! Governance: policies, constitution, autonomy, caches, recovery and the
//! guards around HAL itself.

use cognos_hal::authority_compressor::{
    new_correlation_id, ActionDigest, ActionRequest as CompressRequest, AuthorityCompressor,
    InvalidationReason, Verdict as CachedVerdictBody,
};
use cognos_hal::autonomous_constitution::{
    AutonomousConstitution, ConstitutionAction, ConstitutionVerdict,
};
use cognos_hal::autonomy_controller::{
    ActionRequest as AutonomyRequest, AutonomyController, AutonomyLevel, EscalationError,
};
use cognos_hal::clock::Timestamp;
use cognos_hal::cognitive_equilibrium::{
    CognitiveEquilibrium, EquilibriumAction, Recommendation, UserFeedback,
};
use cognos_hal::cognitive_firewall::{
    BlockReason, CognitiveFirewall, FirewallVerdict, IntimacyClassifier,
};
use cognos_hal::continuity_engine::{ContinuityEngine, ContinuityError, Snapshot};
use cognos_hal::existential_governor::{
    ExistentialAction, ExistentialGovernor, ExistentialVerdict, ThreatType,
};
use cognos_hal::governance_kernel::{
    ActionRequest, Condition, Effect, GovernanceKernel, Policy, PolicyError,
};
use cognos_hal::meta_governance::{
    HumanApproval, MetaError, MetaGovernance, PolicyChange, ProposalState,
};
use cognos_hal::path::FilePath;
use cognos_hal::recovery_kernel::{RecoveryError, RecoveryKernel, RollbackPolicy};
use cognos_hal::recursion_limiter::{RecursionError, RecursionLimiter};
use cognos_hal::recursive_identity::{IdentityError, IdentityHash, RecursiveIdentity};
use cognos_hal::reputation_engine::{ActionOutcome, Reputation, ReputationEngine, ReputationError};
use cognos_hal::restraint_model::ContextPrediction;
use cognos_hal::risk_scorer::{ComponentScores, RiskLevel, RiskScore};
use cognos_hal::score::Score;
use cognos_hal::score_fusion::{
    FusionError, FusionWeights, HardFloorAction, HardFloorTrigger, ScoreFusion,
};
use cognos_hal::self_preservation::{LockdownState, SelfPreservation, TamperError};
use cognos_hal::self_rewrite_monitor::{
    RewriteRequest, RewriteVerdict, SelfRewriteError, SelfRewriteMonitor,
};
use cognos_hal::syscall_tracker::{SyscallError, SyscallNo, SyscallProfile, SyscallTracker};
use cognos_hal::table::Table;
use cognos_hal::temporal_trust::{TemporalTrust, TrustEntry};
use cognos_hal::trust_heuristics::{HeuristicSignal, TrustHeuristics};

fn s(x: f64) -> Score {
    Score::from_nanos((x * 1e9).round() as i64)
}

fn at(nanos: i64) -> Timestamp {
    Timestamp::from_nanos(nanos)
}

fn secs(n: i64) -> Timestamp {
    Timestamp::from_nanos(n * 1_000_000_000)
}

fn policy(id: u128, priority: i32, condition: Condition, effect: Effect) -> Policy {
    Policy {
        id,
        priority,
        condition,
        effect,
        description: format!("p{}", id),
        installed_at: at(0),
    }
}

fn request(action: &str, risk: f64) -> ActionRequest {
    ActionRequest {
        agent: "file".to_string(),
        action_type: action.to_string(),
        target: "~/a".to_string(),
        risk_score: s(risk),
    }
}

#[test]
fn kernel_denies_by_default() {
    let k = GovernanceKernel::new();
    let v = k.evaluate(&request("open", 0.0));
    assert_eq!(v.effect, Effect::Deny);
    assert_eq!(v.policy_id, None);
    assert_eq!(v.reason, "no matching policy — default-deny");
}

#[test]
fn kernel_takes_the_highest_priority_match() {
    let mut k = GovernanceKernel::new();
    k.install_policy(policy(1, 0, Condition::Always, Effect::Allow)).unwrap();
    k.install_policy(policy(2, 10, Condition::RiskAtLeast(s(0.5)), Effect::Ask)).unwrap();
    k.install_policy(policy(3, 10, Condition::Always, Effect::Log)).unwrap();
    let v = k.evaluate_at(&request("open", 0.7), at(4));
    assert_eq!(v.policy_id, Some(2));
    assert_eq!(v.reason, "matched policy 'p2' (priority 10)");
    assert_eq!(v.at, at(4));
    assert_eq!(k.evaluate(&request("open", 0.1)).policy_id, Some(3));
    assert!(k.remove_policy(3));
    assert!(!k.remove_policy(3));
    assert_eq!(k.evaluate(&request("open", 0.1)).effect, Effect::Allow);
    assert_eq!(k.policies().len(), 2);
    assert_eq!(k.policies()[0].id, 2);
}

#[test]
fn kernel_refuses_duplicates_and_reserved_priorities() {
    let mut k = GovernanceKernel::new();
    k.install_policy(policy(1, -1001, Condition::Always, Effect::Allow)).unwrap();
    assert_eq!(
        k.install_policy(policy(1, 5, Condition::Always, Effect::Allow)),
        Err(PolicyError::DuplicatePolicy(1))
    );
    let e = k.install_policy(policy(2, -1000, Condition::Always, Effect::Allow)).unwrap_err();
    assert_eq!(e, PolicyError::InvalidPriority(-1000));
    assert_eq!(e.to_text(), "policy priority -1000 is in a reserved range");
    assert!(PolicyError::DuplicatePolicy(1)
        .to_text()
        .contains("00000000-0000-0000-0000-000000000001"));
}

#[test]
fn conditions_combine() {
    let c = Condition::And(
        Box::new(Condition::AgentEquals("file".to_string())),
        Box::new(Condition::Or(
            Box::new(Condition::ActionEquals("open".to_string())),
            Box::new(Condition::RiskAtLeast(s(0.9))),
        )),
    );
    assert!(c.matches(&request("open", 0.0)));
    assert!(c.matches(&request("close", 0.9)));
    assert!(!c.matches(&request("close", 0.8)));
}

fn change() -> PolicyChange {
    PolicyChange {
        description: "raise a weight".to_string(),
        payload: "{}".to_string(),
        proposer: "planner".to_string(),
        proposed_at: at(0),
    }
}

fn approval(when: Timestamp) -> HumanApproval {
    HumanApproval {
        approver_id: "ada".to_string(),
        approved_at: when,
        justification: None,
        signature: None,
    }
}

#[test]
fn changes_wait_a_day_after_approval() {
    let mut m = MetaGovernance::new();
    let id = m.propose_change(change()).unwrap();
    assert_eq!(m.state(id), Some(&ProposalState::Pending));
    assert!(matches!(m.apply_if_ready(id, secs(0)), Err(MetaError::NotRatified { .. })));
    m.ratify(id, approval(secs(100))).unwrap();
    assert_eq!(m.apply_if_ready(id, secs(100 + 86_399)).unwrap(), false);
    assert_eq!(m.apply_if_ready(id, secs(100 + 86_400)).unwrap(), true);
    assert_eq!(m.state(id), Some(&ProposalState::Applied { applied_at: secs(86_500) }));
    m.revert_at(id, secs(90_000)).unwrap();
    assert_eq!(m.state(id), Some(&ProposalState::Reverted { reverted_at: secs(90_000) }));
    assert_eq!(m.len(), 1);
    assert!(!m.is_empty());
}

#[test]
fn meta_errors_name_proposal_and_state() {
    let mut m = MetaGovernance::new();
    m.propose_change_as(1, change());
    m.ratify(1, approval(secs(0))).unwrap();
    let e = m.ratify(1, approval(secs(0))).unwrap_err();
    assert_eq!(
        e.to_text(),
        "proposal 00000000-0000-0000-0000-000000000001 not pending (state: Ratified { \
         ratified_at: 1970-01-01T00:00:00Z, effective_at: 1970-01-02T00:00:00Z })"
    );
    let e = m.revert(1).unwrap_err();
    assert!(e.to_text().contains("not applied"));
    let e = m.ratify(2, approval(secs(0))).unwrap_err();
    assert_eq!(e.to_text(), "proposal not found: 00000000-0000-0000-0000-000000000002");
    m.apply_if_ready(1, secs(86_400)).unwrap();
    let record = m.history.get(&1).unwrap();
    assert_eq!(
        record.audit_entry.as_deref(),
        Some(
            "applied proposal 00000000-0000-0000-0000-000000000001 at 1970-01-02T00:00:00+00:00"
        )
    );
    assert_eq!(
        MetaError::AuditWriteFailed("full".to_string()).to_text(),
        "audit entry write failed: full"
    );
    assert!(MetaError::NotRatified { id: 3 }.to_text().contains("not ratified"));
}

#[test]
fn recovery_points_are_bounded_and_restorable() {
    let mut k = RecoveryKernel::new();
    k.current_state.label = "calm".to_string();
    let first = k.checkpoint();
    assert!(k.restore(first).is_ok());
    assert!(k.point(first).unwrap().description.contains("(label=calm)"));
    for _ in 0..32 {
        k.checkpoint();
    }
    assert_eq!(k.len(), 32);
    assert!(matches!(k.restore(first), Err(RecoveryError::NotFound { .. })));
    assert!(k.point(first).is_none());
    k.set_rollback_policy(RollbackPolicy::Forbidden);
    assert_eq!(k.rollback_policy(), RollbackPolicy::Forbidden);
    let e = k.restore(first).unwrap_err();
    assert_eq!(e.to_text(), "rollback is forbidden by current policy");
    assert!(RecoveryKernel::new().is_empty());
}

#[test]
fn recovery_points_hash_the_state() {
    let mut k = RecoveryKernel::new();
    k.current_state.blob = b"abc".to_vec();
    k.checkpoint_as(5, at(0));
    let p = k.point(5).unwrap();
    assert_eq!(p.hash[0], 0xba);
    assert_eq!(p.hash[31], 0xad);
    assert_eq!(p.description, "checkpoint @ 1970-01-01T00:00:00+00:00 (label=)");
    assert_eq!(
        RecoveryError::VerificationFailed("x".to_string()).to_text(),
        "state blob verification failed: x"
    );
    assert_eq!(
        RecoveryError::HumanApprovalRequired.to_text(),
        "human approval required for rollback"
    );
}

#[test]
fn recursion_is_capped_and_released() {
    let mut l = RecursionLimiter::with_config(2, 1);
    let agent = "planner".to_string();
    let g1 = l.enter_at(&agent, secs(0)).unwrap();
    let g2 = l.enter_at(&agent, secs(0)).unwrap();
    let e = l.enter_at(&agent, secs(0)).unwrap_err();
    assert_eq!(e.to_text(), "max recursion depth exceeded for agent planner: depth 2 >= max 2");
    g2.release(&mut l);
    assert_eq!(l.current_depth(&agent), 1);
    g1.release(&mut l);
    assert_eq!(l.current_depth(&agent), 0);
    l.leave(&agent);
    assert_eq!(l.current_depth(&agent), 0);
    assert_eq!(l.tracked_agents(), 1);
}

#[test]
fn tight_loops_are_rate_limited() {
    let mut l = RecursionLimiter::new();
    let agent = "planner".to_string();
    for _ in 0..64 {
        l.enter_at(&agent, secs(0)).unwrap().release(&mut l);
    }
    let e = l.enter_at(&agent, secs(0)).unwrap_err();
    assert_eq!(
        e,
        RecursionError::RateLimited { agent: agent.clone(), count: 64, window_secs: 1 }
    );
    assert_eq!(e.to_text(), "rate limited for agent planner: 64 entries in 1s");
    assert!(l.enter_at(&agent, secs(1)).is_ok());
    assert_eq!(
        RecursionError::LoopDetected { agent }.to_text(),
        "recursion loop detected for agent planner"
    );
}

#[test]
fn identities_change_with_their_parts() {
    let head = [7u8; 32];
    let a = IdentityHash::compute(b"constitution", b"capabilities", &head);
    assert!(a.same(&IdentityHash::compute(b"constitution", b"capabilities", &head)));
    assert!(!a.same(&IdentityHash::compute(b"constitution!", b"capabilities", &head)));
    assert!(!a.same(&IdentityHash::compute(b"constitution", b"capabilities!", &head)));
    assert!(!a.same(&IdentityHash::compute(b"constitution", b"capabilities", &[8u8; 32])));
    assert_eq!(a.to_text().len(), 64);
    assert_eq!(IdentityHash::zero().to_text(), "0".repeat(64));
}

#[test]
fn forks_remember_their_ancestors() {
    let root = IdentityHash::compute(b"a", b"b", &[0u8; 32]);
    let next = IdentityHash::compute(b"a", b"c", &[0u8; 32]);
    let mut parent = RecursiveIdentity::root_at(root, at(0));
    let mut child = parent.fork_at(at(1));
    child.set_root_at(next, at(2));
    assert!(child.is_descended_from(root));
    assert!(child.is_descended_from(next));
    assert!(!parent.is_descended_from(next));
    assert_eq!(child.lineage_depth(), 1);
    assert_eq!(child.parent(), Some(root));
    assert_eq!(parent.parent(), None);
    assert!(child.verify_identity(next).is_ok());
    let e = child.verify_identity(root).unwrap_err();
    assert!(e.to_text().starts_with("identity mismatch: expected "));
    assert_eq!(
        IdentityError::LineageTooDeep { depth: 9, max: 8 }.to_text(),
        "lineage too deep: 9 >= max 8"
    );
}

#[test]
fn reputation_is_asymmetric_and_decays() {
    let mut e = ReputationEngine::new();
    let agent = "file".to_string();
    assert_eq!(e.reputation_of(&agent), s(0.5));
    e.update_at(&agent, ActionOutcome::Approved, secs(0));
    assert_eq!(e.reputation_of(&agent), s(0.52));
    e.update_at(&agent, ActionOutcome::UserOverrode, secs(0));
    assert_eq!(e.reputation_of(&agent), s(0.37));
    let r = *e.record(&agent).unwrap();
    assert_eq!(r.decisions_observed, 2);
    assert_eq!(r.escalations, 1);
    e.decay_all_at(secs(3_600));
    assert_eq!(e.reputation_of(&agent), Score::from_nanos(376_500_000));
    e.decay_all_at(secs(3_600));
    assert_eq!(e.reputation_of(&agent), Score::from_nanos(376_500_000));
    e.decay_all_at(secs(1_000_000));
    assert_eq!(e.reputation_of(&agent), s(0.5));
    assert_eq!(e.snapshot().len(), 1);
    let mut low = Reputation::at(secs(0));
    for _ in 0..10 {
        low.apply_at(ActionOutcome::AutoFailed, secs(0));
    }
    assert_eq!(low.score, Score::zero());
    assert_eq!(
        ReputationError::UnknownAgent("x".to_string()).to_text(),
        "agent 'x' not found in reputation table"
    );
}

fn components() -> ComponentScores {
    ComponentScores {
        irreversibility: s(1.0),
        scope: s(0.5),
        trust_context: s(0.2),
        time_anomaly: s(0.0),
        vibe_flag: s(0.0),
        user_history: s(0.5),
        pattern_match: s(1.0),
        hard_floor_applied: false,
        hard_floor_reason: None,
    }
}

#[test]
fn fusion_weighs_components() {
    let f = ScoreFusion::default();
    let r = f.fuse(components());
    assert_eq!(r.score, s(0.25 + 0.1 + 0.04 - 0.05 - 0.05));
    assert_eq!(r.level, RiskLevel::Silent);
    assert_eq!(ScoreFusion::clamp(s(1.7)), Score::one());
    let mut bad = FusionWeights::default();
    bad.scope = s(0.9);
    assert!(!bad.is_valid());
    let e = ScoreFusion::with_weights(bad).unwrap_err();
    assert_eq!(e, FusionError::InvalidWeights { actual: s(1.7) });
    assert_eq!(e.to_text(), "fusion weights do not sum to 1.0 (got 1.7)");
    assert!(ScoreFusion::with_weights(FusionWeights::default()).is_ok());
}

#[test]
fn the_greatest_components_are_fused() {
    let greatest = Score::from_nanos(i64::MAX);
    let least = Score::from_nanos(i64::MIN);
    let f = ScoreFusion {
        weights: FusionWeights {
            irreversibility: greatest,
            scope: greatest,
            trust: greatest,
            time_anomaly: greatest,
            vibe: greatest,
            user_history: least,
            pattern: least,
        },
    };
    let mut c = components();
    c.irreversibility = greatest;
    c.scope = greatest;
    c.trust_context = greatest;
    c.time_anomaly = greatest;
    c.vibe_flag = greatest;
    c.user_history = greatest;
    c.pattern_match = greatest;
    assert_eq!(f.fuse(c.clone()).score, Score::one());
    c.irreversibility = least;
    c.scope = least;
    c.trust_context = least;
    c.time_anomaly = least;
    c.vibe_flag = least;
    assert_eq!(f.fuse(c).score, Score::zero());
}

#[test]
fn the_highest_floor_counts() {
    let low = RiskScore {
        score: s(0.1),
        level: RiskLevel::Silent,
        explanation: "x".to_string(),
        components: components(),
    };
    let action = HardFloorAction {
        is_delete: true,
        is_kernel_adjacent: true,
        is_irreversible: false,
        is_ai_unreviewed: true,
        capabilities: Vec::new(),
    };
    assert_eq!(
        action.triggers(),
        vec![
            HardFloorTrigger::AiUnreviewed,
            HardFloorTrigger::KernelAdjacent,
            HardFloorTrigger::Delete
        ]
    );
    let r = ScoreFusion::apply_hard_floors(low, &action);
    assert_eq!(r.score, s(0.8));
    assert_eq!(r.level, RiskLevel::Block);
    assert!(r.components.hard_floor_applied);
    assert_eq!(
        r.components.hard_floor_reason.as_deref(),
        Some("AI-generated unreviewed code always >= 0.8")
    );
    let again = ScoreFusion::apply_hard_floors(r, &HardFloorAction::default());
    assert_eq!(again.score, s(0.8));
    assert!(!again.components.hard_floor_applied);
    assert_eq!(HardFloorTrigger::IrreversibleKernel.floor(), Score::one());
}

#[test]
fn integrity_is_checked_against_baselines() {
    let mut p = SelfPreservation::new();
    let original = b"abc".to_vec();
    p.register_path("/opt/hal".to_string(), Some(&original)).unwrap();
    assert_eq!(
        p.integrity_records().get(&FilePath("/opt/hal".to_string())).unwrap().expected_hash,
        "ba7816bf8f01cfea414140de5dae2223b00361a396177a9cb410ff61f20015ad"
    );
    let mut contents: Table<FilePath, Vec<u8>> = Table::new();
    assert!(matches!(p.verify_integrity(&contents), Err(TamperError::MissingFile(_))));
    contents.insert(FilePath("/opt//hal/".to_string()), original);
    assert!(p.verify_integrity(&contents).is_ok());
    contents.insert(FilePath("/opt/hal".to_string()), b"abd".to_vec());
    assert_eq!(contents.len(), 1);
    let e = p.verify_integrity(&contents).unwrap_err();
    assert!(e.to_text().starts_with("integrity check failed for /opt/hal: expected ba7816bf"));
    let e = p.register_path("/gone".to_string(), None).unwrap_err();
    assert_eq!(e.to_text(), "watched file missing: /gone");
    assert_eq!(
        TamperError::LockedDown(secs(0)).to_text(),
        "HAL is in lockdown since 1970-01-01 00:00:00 UTC — human review required"
    );
    assert_eq!(
        TamperError::WatcherInstall("/a".to_string(), "no".to_string()).to_text(),
        "watcher install failed for /a: no"
    );
}

#[test]
fn lockdown_and_watchers() {
    let mut p = SelfPreservation::new();
    assert_eq!(p.emergency_lockdown(), LockdownState::LockedDown);
    assert_eq!(p.emergency_lockdown(), LockdownState::LockedDown);
    assert_eq!(p.lockdown_state(), LockdownState::LockedDown);
    assert_eq!(p.release_lockdown(), LockdownState::Normal);
    p.watch_path("/a".to_string());
    p.watch_path("/a/".to_string());
    p.watch_path("/./a".to_string());
    assert_eq!(p.watchers(), ["/a".to_string()]);
    p.watch_path("a".to_string());
    assert_eq!(p.watchers().len(), 2);
}

fn rewrite(path: &str) -> RewriteRequest {
    RewriteRequest {
        target_path: path.to_string(),
        diff: String::new(),
        agent: "coding".to_string(),
        reason: "faster".to_string(),
        requested_at: at(0),
    }
}

#[test]
fn rewrites_of_watched_paths_are_reviewed() {
    let mut m = SelfRewriteMonitor::new();
    assert_eq!(
        m.evaluate_rewrite(rewrite("/opt/cognos/hal/src/main.rs")),
        RewriteVerdict::RequireHumanReview
    );
    assert_eq!(m.pending_count(), 1);
    assert_eq!(m.evaluate_rewrite(rewrite("/opt/cognos/hal2")), RewriteVerdict::AllowWithAudit);
    assert_eq!(m.pending_count(), 1);
    assert!(m.is_watched("/opt//cognos/./hal"));
    assert!(!m.is_watched("opt/cognos/hal"));
    m.watch("/srv".to_string());
    assert_eq!(
        m.evaluate_rewrite_as(rewrite("/srv/x"), 9, at(3)),
        RewriteVerdict::RequireHumanReview
    );
    assert_eq!(m.pending_requests.get(&9).unwrap().recorded_at, at(3));
    assert!(SelfRewriteError::NotFound(9).to_text().ends_with("000000000009"));
    assert!(SelfRewriteError::InvalidState(9).to_text().ends_with("in invalid state for action"));
    assert_eq!(
        SelfRewriteError::NonAbsoluteTarget("x".to_string()).to_text(),
        "rewrite target path must be absolute: x"
    );
}

#[test]
fn paths_are_compared_by_components() {
    let m = SelfRewriteMonitor::new();
    for p in ["/etc/cognos/hal", "/etc/cognos/hal/", "/etc/cognos/hal/a/b", "/etc/./cognos//hal"] {
        assert_eq!(
            m.is_watched(p),
            std::path::Path::new(p).starts_with("/etc/cognos/hal"),
            "{}",
            p
        );
    }
    for p in ["/etc/cognos/halo", "./etc/cognos/hal", "", "/etc/cognos", "/etc/../etc/cognos/hal"] {
        assert!(!m.is_watched(p), "{}", p);
        assert!(!std::path::Path::new(p).starts_with("/etc/cognos/hal"));
    }
}

#[test]
fn the_empty_path_covers_everything() {
    let mut m = SelfRewriteMonitor::new();
    assert!(!m.is_watched("/home/x"));
    m.watch("/opt/cognos/hal/".to_string());
    assert_eq!(m.watch_paths.len(), 9);
    m.watch(String::new());
    assert_eq!(m.watch_paths.len(), 10);
    for p in ["/home/x", "/", "", "a/b", "."] {
        assert!(m.is_watched(p), "{}", p);
        assert!(std::path::Path::new(p).starts_with(""));
    }
}

#[test]
fn paths_are_the_same_as_those_of_the_system() {
    let paths = ["/a", "/a/", "//a", "/./a", "/a/.", "a", "./a", "a/.", "", ".", "/", "/..", "a/../b"];
    for x in paths {
        for y in paths {
            assert_eq!(
                cognos_hal::path::same_path(x, y),
                std::path::Path::new(x) == std::path::Path::new(y),
                "{} {}",
                x,
                y
            );
            let (cx, cy): (Vec<char>, Vec<char>) = (x.chars().collect(), y.chars().collect());
            assert_eq!(
                cognos_hal::path::is_under(&cx, &cy),
                std::path::Path::new(x).starts_with(y),
                "{} {}",
                x,
                y
            );
        }
    }
}

#[test]
fn huge_weights_are_answered() {
    let mut w = FusionWeights::default();
    w.scope = Score::from_nanos(i64::MAX);
    w.trust = Score::from_nanos(i64::MAX);
    assert_eq!(
        ScoreFusion::with_weights(w).unwrap_err(),
        FusionError::InvalidWeights { actual: Score::from_nanos(i64::MAX) }
    );
}

#[test]
fn only_escalations_need_room_for_escalations() {
    let mut r = Reputation::at(secs(0));
    r.escalations = u64::MAX;
    r.apply_at(ActionOutcome::Approved, secs(0));
    assert_eq!(r.escalations, u64::MAX);
    assert_eq!(r.decisions_observed, 1);
}

#[test]
fn dangerous_syscalls_are_counted() {
    let mut t = SyscallTracker::new();
    let agent = "file".to_string();
    assert_eq!(t.dangerous_call_rate(&agent), Score::zero());
    t.record(&agent, SyscallNo::Open);
    t.record(&agent, SyscallNo::Unlink);
    t.record(&agent, SyscallNo::Unlink);
    assert_eq!(t.dangerous_call_rate(&agent), Score::from_nanos(666_666_666));
    let p = t.profile_of(&agent).unwrap();
    assert_eq!(p.counts.get(&SyscallNo::Unlink), Some(&2));
    assert_eq!(p.total_calls, 3);
    assert_eq!(t.drain_ring_buffer().unwrap(), 0);
    t.reset_all();
    assert_eq!(t.profile_of(&agent).unwrap().total_calls, 0);
    let mut p = SyscallProfile::default();
    p.record(SyscallNo::Connect);
    p.record(SyscallNo::Socket);
    assert_eq!(p.dangerous_call_rate(), s(0.5));
    assert!(SyscallNo::Connect.is_dangerous());
    p.reset();
    p.total_calls = 4;
    p.dangerous_calls = 1;
    assert_eq!(p.dangerous_call_rate(), s(0.25));
    p.record(SyscallNo::Fork);
    assert_eq!(p.dangerous_call_rate(), s(0.4));
    assert!(!SyscallNo::Socket.is_dangerous());
    assert!(SyscallNo::Clone.is_dangerous());
    assert_eq!(
        SyscallError::AgentResolution(7).to_text(),
        "agent-pid map resolution failed for pid 7"
    );
    assert_eq!(
        SyscallError::RingBufferPoll("x".to_string()).to_text(),
        "eBPF ring buffer poll failed: x"
    );
}

#[test]
fn earned_trust_fades_and_is_forgotten() {
    let mut t = TemporalTrust::new();
    let agent = "file".to_string();
    assert_eq!(t.trust_at(&agent, secs(0), Score::one()), s(0.5));
    t.reinforce(&agent, s(0.2), secs(0), Score::one());
    assert_eq!(t.trust_at(&agent, secs(0), Score::one()), s(0.7));
    let week = 604_800;
    assert_eq!(t.decay_ratio(&agent, secs(week)), Some((week, week)));
    assert_eq!(t.trust_at(&agent, secs(week), s(0.5)), s(0.6));
    assert_eq!(t.trust_at(&agent, secs(2 * week), s(0.25)), s(0.55));
    t.set_half_life(&agent, 60, secs(0));
    assert_eq!(t.decay_ratio(&agent, secs(30)), Some((30, 60)));
    let mut factors: Table<String, Score> = Table::new();
    factors.insert(agent.clone(), s(0.5));
    t.decay_all(secs(week), &factors);
    assert_eq!(t.len(), 1);
    factors.insert(agent.clone(), Score::from_nanos(100));
    t.decay_all(secs(week), &factors);
    assert!(t.is_empty());
    assert!(TrustEntry::new(s(0.5), secs(5)).decay_ratio(secs(5)).is_none());
}

#[test]
fn heuristics_add_up_to_a_bound() {
    assert_eq!(TrustHeuristics::aggregate(&[]), Score::zero());
    assert_eq!(
        TrustHeuristics::aggregate(&[
            HeuristicSignal::TimeOfDayAnomaly,
            HeuristicSignal::UnusualPath
        ]),
        s(-0.35)
    );
    assert_eq!(
        TrustHeuristics::aggregate(&[
            HeuristicSignal::GeographicAnomaly,
            HeuristicSignal::NovelCapability
        ]),
        s(-1.0)
    );
    assert_eq!(TrustHeuristics::evaluate(HeuristicSignal::RapidSequence, s(0.9)), s(-0.2));
}

fn existential(target: &str) -> ExistentialAction {
    ExistentialAction {
        agent: "file".to_string(),
        action: "write_file".to_string(),
        target: target.to_string(),
        destructive: true,
        proposed_at: at(0),
    }
}

#[test]
fn threats_are_catastrophic() {
    let mut g = ExistentialGovernor::new();
    assert_eq!(g.evaluate(&existential("/home/x")), ExistentialVerdict::Safe);
    assert_eq!(g.evaluate(&existential("/opt/cognos/hal/x")), ExistentialVerdict::Catastrophic);
    g.disarm(ThreatType::HalItself);
    assert!(!g.kill_switch_armed(ThreatType::HalItself));
    assert_eq!(g.evaluate(&existential("/opt/cognos/hal/x")), ExistentialVerdict::Catastrophic);
    assert_eq!(g.classify(&existential("/opt/cognos/hal/x")), Some(ThreatType::HalItself));
    assert_eq!(g.evaluate(&existential("/proc/sys/x")), ExistentialVerdict::Catastrophic);
    g.protect("/home/x".to_string());
    assert_eq!(g.evaluate(&existential("/home/x/y")), ExistentialVerdict::Catastrophic);
    assert_eq!(g.classify(&existential("/home/x/y")), None);
    assert_eq!(g.evaluate(&existential("/home/y")), ExistentialVerdict::Safe);
    assert_eq!(ThreatType::AuthKeys.description(), "compromise of authentication keys or tokens");
}

fn prediction(domain: &str, action: &str, hour: u8) -> ContextPrediction {
    ContextPrediction {
        predicted_action: action.to_string(),
        confidence: s(0.9),
        domain: domain.to_string(),
        file_paths: vec!["~/notes.md".to_string()],
        trigger_signal: String::new(),
        time_of_day: hour,
    }
}

#[test]
fn firewall_blocks_in_order() {
    let mut f = CognitiveFirewall::new();
    assert_eq!(
        f.filter(&prediction("coding", "open_DIARY", 9)),
        FirewallVerdict::Block(BlockReason::EmotionalContent)
    );
    assert_eq!(
        f.filter(&prediction("relationships", "open", 9)),
        FirewallVerdict::Block(BlockReason::EmotionalContent)
    );
    assert_eq!(
        f.filter_known(&prediction("finance", "open", 9), false),
        FirewallVerdict::Block(BlockReason::PrivateDomain)
    );
    assert_eq!(
        f.filter(&prediction("coding", "open", 9)),
        FirewallVerdict::Block(BlockReason::UnrequestedDomain)
    );
    f.domain_filter_mut().opt_in("coding");
    f.domain_filter_mut().opt_in("gaming");
    assert_eq!(f.filter(&prediction("coding", "open", 23)), FirewallVerdict::Pass);
    assert_eq!(
        f.filter(&prediction("gaming", "open", 23)),
        FirewallVerdict::Block(BlockReason::TimeInappropriate)
    );
    assert_eq!(f.filter(&prediction("gaming", "open", 12)), FirewallVerdict::Pass);
    f.domain_filter_mut().opt_out("gaming");
    assert!(!f.domain_filter().is_opted_in("gaming"));
    assert!(f.domain_filter().is_private("health"));
    assert!(IntimacyClassifier::new().is_intimate(&prediction("x", "read_Secret", 1)));
    assert_eq!(BlockReason::PrivateDomain.description(), "prediction touches a private domain");
}

#[test]
fn snapshots_start_supervised() {
    let e = ContinuityEngine::new("/var/lib/cognos/snapshot.json".to_string());
    assert_eq!(e.interval_secs, 60);
    assert_eq!(ContinuityEngine::with_interval("x".to_string(), 5).interval_secs, 5);
    let snap = Snapshot::empty();
    assert_eq!(snap.autonomy_level, "Supervised");
    assert_eq!(snap.audit_head, [0u8; 32]);
    assert_eq!(
        ContinuityEngine::tmp_name_with(Some("snapshot.json"), 1),
        ".snapshot.json.00000000000000000000000000000001.tmp"
    );
    assert_eq!(ContinuityEngine::tmp_name(None).len(), ".snapshot..tmp".len() + 32);
    assert!(matches!(
        ContinuityEngine::restore(false, Ok(Snapshot::empty())),
        Err(ContinuityError::NotFound)
    ));
    assert!(ContinuityEngine::restore(true, Ok(snap)).is_ok());
    let texts: Vec<String> = vec![
        ContinuityError::NotFound.to_text(),
        ContinuityError::Read("e".to_string()).to_text(),
        ContinuityError::Deserialize("e".to_string()).to_text(),
        ContinuityError::Serialize("e".to_string()).to_text(),
        ContinuityError::Write("e".to_string()).to_text(),
        ContinuityError::Path("e".to_string()).to_text(),
    ];
    assert_eq!(texts[0], "no snapshot file at configured path");
    assert_eq!(texts[4], "failed to write snapshot: e");
}

fn compress_request(irreversible: bool, parameters: &str) -> CompressRequest {
    CompressRequest {
        agent: "file".to_string(),
        action: "open".to_string(),
        target: "~/a".to_string(),
        irreversible,
        parameters: parameters.to_string(),
    }
}

fn body(issued_at: Timestamp) -> CachedVerdictBody {
    CachedVerdictBody {
        allowed: true,
        risk_score: s(0.1),
        reason: "low".to_string(),
        issued_at,
    }
}

#[test]
fn stored_verdicts_come_back_while_fresh() {
    let mut c = AuthorityCompressor::new();
    let r = compress_request(false, "{}");
    assert!(c.compress_at(&r, secs(0)).is_none());
    c.store(&r, body(secs(0)));
    let hit = c.compress_at(&r, secs(60)).unwrap();
    assert_eq!(hit.hit_count, 1);
    assert_eq!(hit.verdict.reason, "low");
    assert_eq!(c.compress_at(&r, secs(10)).unwrap().hit_count, 2);
    assert!(c.compress_at(&r, secs(61)).is_none());
    c.invalidate(InvalidationReason::PolicyChanged);
    assert!(c.is_empty());
}

#[test]
fn irreversible_actions_are_never_cached() {
    let mut c = AuthorityCompressor::new();
    let r = compress_request(true, "{}");
    c.store(&r, body(secs(0)));
    assert_eq!(c.len(), 0);
    assert!(c.compress(&r).is_none());
}

#[test]
fn the_oldest_verdict_gives_way() {
    let mut c = AuthorityCompressor::with_capacity_and_ttl(1, 60);
    let first = compress_request(false, "{\"n\":1}");
    let second = compress_request(false, "{\"n\":2}");
    c.store(&first, body(secs(0)));
    c.store(&second, body(secs(0)));
    assert_eq!(c.len(), 1);
    assert!(c.compress_at(&first, secs(0)).is_none());
    assert!(c.compress_at(&second, secs(0)).is_some());
}

#[test]
fn digests_ignore_blanks_in_parameters() {
    let a = ActionDigest::from_request(&compress_request(false, "{ \"n\" : 1 }"));
    let b = ActionDigest::from_request(&compress_request(false, "{\"n\":1}"));
    assert_eq!(a.0, b.0);
    let c = ActionDigest::from_request(&compress_request(false, "{\"n\":2}"));
    assert_ne!(a.0, c.0);
    assert_ne!(new_correlation_id(), new_correlation_id());
}

fn constitutional() -> ConstitutionAction {
    ConstitutionAction {
        agent: "file".to_string(),
        action: "x".to_string(),
        target: "y".to_string(),
        proposed_at: at(0),
        touches_hal: false,
        touches_audit: false,
        touches_autonomy: false,
        withholds_information: false,
        overrides_user: false,
    }
}

#[test]
fn articles_bind_in_order() {
    let c = AutonomousConstitution::new();
    assert_eq!(c.len(), 5);
    assert!(c.verify_immutability());
    assert_eq!(c.evaluate(&constitutional()), ConstitutionVerdict::Compliant);
    let mut a = constitutional();
    a.overrides_user = true;
    assert_eq!(c.evaluate(&a), ConstitutionVerdict::Violates(5));
    a.touches_audit = true;
    assert_eq!(c.evaluate(&a), ConstitutionVerdict::Violates(3));
    a.touches_hal = true;
    assert_eq!(c.evaluate(&a), ConstitutionVerdict::Violates(1));
    assert!(c.article(1).unwrap().principle.starts_with("Never modify HAL."));
    assert!(c.article(6).is_none());
    let mut tampered = AutonomousConstitution::new();
    tampered.articles[2].immutable = false;
    assert!(!tampered.verify_immutability());
}

#[test]
fn autonomy_rises_one_step_at_a_time() {
    let mut c = AutonomyController::new();
    assert_eq!(c.level(), AutonomyLevel::Supervised);
    let e = c.escalate(AutonomyLevel::SemiAutonomous).unwrap_err();
    assert!(matches!(e, EscalationError::SkipsLevels { .. }));
    assert_eq!(e.to_text(), "escalation skips levels: from Supervised to SemiAutonomous");
    c.escalate(AutonomyLevel::Advisory).unwrap();
    c.escalate(AutonomyLevel::SemiAutonomous).unwrap();
    let mut r = AutonomyRequest {
        agent: "file".to_string(),
        action_type: "open".to_string(),
        risk_score: s(0.2),
        on_block_list: false,
    };
    assert!(c.can_auto_execute(&r));
    r.risk_score = s(0.3);
    assert!(!c.can_auto_execute(&r));
    c.escalate(AutonomyLevel::Autonomous).unwrap();
    r.risk_score = s(0.9);
    assert!(c.can_auto_execute(&r));
    r.on_block_list = true;
    assert!(!c.can_auto_execute(&r));
    r.on_block_list = false;
    for _ in 0..100 {
        assert!(c.consume_budget());
    }
    assert!(!c.consume_budget());
    assert!(!c.can_auto_execute(&r));
    c.budget_mut().reset_period();
    assert!(!c.budget().exhausted());
    assert_eq!(c.level_for(&"file".to_string()), AutonomyLevel::Autonomous);
    c.revert_to_supervised();
    assert_eq!(c.level(), AutonomyLevel::Supervised);
    assert_eq!(c.level_for(&"file".to_string()), AutonomyLevel::Supervised);
    c.set_reputation(&"file".to_string(), s(2.0));
    assert_eq!(c.reputation_of(&"file".to_string()), Score::one());
    assert_eq!(c.reputation_of(&"x".to_string()), s(0.5));
    assert_eq!(
        EscalationError::BudgetExhausted { current: 1, max: 2 }.to_text(),
        "action budget exhausted (1/2)"
    );
}

#[test]
fn help_is_weighed_against_agency() {
    let mut e = CognitiveEquilibrium::new();
    let a = EquilibriumAction {
        agent: "file".to_string(),
        action: "open".to_string(),
        estimated_helpfulness: s(0.9),
        estimated_agency_loss: s(0.0),
        user_requested: true,
    };
    assert_eq!(e.evaluate(&a).recommendation, Recommendation::Act);
    let weighed = |help: f64, loss: f64| EquilibriumAction {
        estimated_helpfulness: s(help),
        estimated_agency_loss: s(loss),
        user_requested: false,
        ..a.clone()
    };
    assert_eq!(e.evaluate(&weighed(0.6, 0.0)).recommendation, Recommendation::Act);
    assert_eq!(e.evaluate(&weighed(0.5, 0.0)).recommendation, Recommendation::ActWithNotice);
    let asked = e.evaluate(&weighed(0.5, 0.4));
    assert_eq!(asked.net_benefit, s(-0.1));
    assert_eq!(asked.recommendation, Recommendation::Ask);
    assert_eq!(e.evaluate(&weighed(0.5, 0.5)).recommendation, Recommendation::Abstain);
    e.recalibrate(UserFeedback::Accepted { action: "open".to_string(), at: at(0) });
    assert_eq!(e.helpfulness_weight, s(1.01));
    assert_eq!(e.agency_weight, s(1.5));
    for hal_recommended_act in [true, false] {
        e.recalibrate(UserFeedback::Overrode {
            action: "open".to_string(),
            hal_recommended_act,
            at: at(0),
        });
    }
    assert_eq!(e.helpfulness_weight, s(1.03));
    assert_eq!(e.agency_weight, s(1.52));
    e.recalibrate(UserFeedback::Undid { action: "open".to_string(), at: at(0) });
    assert_eq!(e.agency_weight, s(1.53));
    assert_eq!(e.history_len(), 4);
}
