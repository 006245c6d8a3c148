//! Boundary evaluation: which restraint rules an action violates and what HAL
//! decides about it.

use vstd::prelude::*;
use vstd::string::StringExecFns;

use crate::action_validator;
use crate::action_validator::audit_tag;
use crate::action_validator::ActionValidator;
use crate::hal_types::EscalationContext;
use crate::hal_types::EscalationLevel;
use crate::hal_types::HALContext;
use crate::hal_types::HALDecision;
use crate::hal_types::HALResult;
use crate::hal_types::IntentSeverity;
use crate::hal_types::RestraintBoundary;
use crate::hal_types::SyscallSensitivity;
use crate::score;
use crate::score::div_floor;
use crate::score::Score;
use crate::text;

verus! {

/// The policy engine.
pub struct PolicyEngine;

/// The restraint rules that an action violates, in order.
pub open spec fn violations_of(
    context: HALContext,
    risk: int,
    confidence: int,
    bounds: RestraintBoundary,
) -> Seq<Seq<char>> {
    let v1 = text::push_if(
        Seq::empty(),
        risk > bounds.maximum_allowed_risk.nanos,
        "risk_boundary_exceeded"@,
    );
    let v2 = text::push_if(
        v1,
        bounds.irreversible_action_lock && action_validator::is_irreversible(context),
        "irreversible_action_locked"@,
    );
    let v3 = text::push_if(
        v2,
        bounds.require_user_presence && !context.session.user_present,
        "user_presence_required"@,
    );
    let v4 = text::push_if(
        v3,
        bounds.require_multi_factor && confidence < 920_000_000,
        "multi_factor_requirement"@,
    );
    let v5 = text::push_if(
        v4,
        context.behavioral.anomaly_score.nanos > 850_000_000,
        "behavioral_anomaly"@,
    );
    text::push_if(v5, context.behavioral.escalation_attempts > 3, "repeated_escalation"@)
}

/// The decision on violated rules, a risk and a confidence, both in billionths.
pub open spec fn decision_on(rules: Seq<Seq<char>>, risk: int, confidence: int) -> HALDecision {
    if rules.contains("irreversible_action_locked"@) {
        HALDecision::Block
    } else if rules.contains("behavioral_anomaly"@) {
        HALDecision::Escalate
    } else if rules.contains("repeated_escalation"@) {
        HALDecision::Escalate
    } else if risk > 950_000_000 {
        HALDecision::Block
    } else if confidence < 200_000_000 {
        HALDecision::Block
    } else if risk > 700_000_000 {
        HALDecision::Confirm
    } else if rules.len() > 0 {
        HALDecision::Notify
    } else {
        HALDecision::Allow
    }
}

/// What the evaluation of an action results in.
pub open spec fn is_evaluation(
    r: HALResult,
    context: HALContext,
    risk: Score,
    confidence: Score,
    bounds: RestraintBoundary,
) -> bool {
    let rules = violations_of(context, risk.nanos as int, confidence.nanos as int, bounds);
    let decision = decision_on(rules, risk.nanos as int, confidence.nanos as int);
    &&& r.decision == decision
    &&& r.computed_risk == risk
    &&& r.confidence == confidence
    &&& r.explanation@ == "policy evaluation with "@ + text::decimal_digits(rules.len())
        + " rule violations"@
    &&& text::texts(r.violated_rules@) == rules
    &&& r.audit_hash@ == action_validator::tag_of(
        "policy:"@,
        risk.nanos as int,
        confidence.nanos as int,
    )
    &&& r.requires_user_prompt == (decision == HALDecision::Confirm)
    &&& r.escalation_required == (decision == HALDecision::Escalate || decision
        == HALDecision::Block)
}

/// Whether an agent's behaviour calls for its isolation.
pub open spec fn isolation_required(context: HALContext) -> bool {
    context.behavioral.anomaly_score.nanos > 900_000_000 || context.behavioral.escalation_attempts
        > 5
}

/// The risk boundary that anomalies lower and trust raises, in billionths.
pub open spec fn adapted_boundary(base: int, anomaly: int, trust: int) -> int {
    score::clamp_int((base * 100 - anomaly * 25 + trust * 10) / 100, 100_000_000, 950_000_000)
}

impl PolicyEngine {
    /// Evaluates an action against the restraint boundaries.
    pub fn evaluate(
        context: &HALContext,
        risk: Score,
        confidence: Score,
        boundaries: &RestraintBoundary,
    ) -> (r: HALResult)
        ensures
            is_evaluation(r, *context, risk, confidence, *boundaries),
            risk.nanos > 700_000_000 ==> r.decision != HALDecision::Allow && r.decision
                != HALDecision::Notify,
            risk.nanos > 950_000_000 || confidence.nanos < 200_000_000 ==> r.decision
                == HALDecision::Block || r.decision == HALDecision::Escalate,
            r.decision == HALDecision::Allow <==> r.violated_rules@.len() == 0 && risk.nanos
                <= 700_000_000 && confidence.nanos >= 200_000_000,
    {
        let mut violated: Vec<String> = Vec::new();
        assert(text::texts(violated@) =~= Seq::<Seq<char>>::empty());
        text::push_text_if(
            &mut violated,
            risk.nanos > boundaries.maximum_allowed_risk.nanos,
            "risk_boundary_exceeded",
        );
        text::push_text_if(
            &mut violated,
            boundaries.irreversible_action_lock && PolicyEngine::irreversible_requires_human(
                context,
            ),
            "irreversible_action_locked",
        );
        text::push_text_if(
            &mut violated,
            boundaries.require_user_presence && !context.session.user_present,
            "user_presence_required",
        );
        text::push_text_if(
            &mut violated,
            boundaries.require_multi_factor && confidence.nanos < 920_000_000,
            "multi_factor_requirement",
        );
        text::push_text_if(
            &mut violated,
            context.behavioral.anomaly_score.nanos > 850_000_000,
            "behavioral_anomaly",
        );
        text::push_text_if(
            &mut violated,
            context.behavioral.escalation_attempts > 3,
            "repeated_escalation",
        );
        let decision = PolicyEngine::policy_decision(violated.as_slice(), risk, confidence);
        let mut explanation = String::from_str("policy evaluation with ");
        let count = text::decimal(violated.len() as u64);
        explanation.append(count.as_str());
        explanation.append(" rule violations");
        proof {
            decision_follows_rules(
                text::texts(violated@),
                risk.nanos as int,
                confidence.nanos as int,
            );
        }
        HALResult {
            decision,
            computed_risk: risk,
            confidence,
            explanation,
            violated_rules: violated,
            audit_hash: audit_tag("policy:", risk, confidence),
            requires_user_prompt: decision == HALDecision::Confirm,
            escalation_required: decision == HALDecision::Escalate || decision
                == HALDecision::Block,
        }
    }

    /// The decision on violated rules, a risk and a confidence.
    pub fn policy_decision(violations: &[String], risk: Score, confidence: Score) -> (d:
        HALDecision)
        ensures
            d == decision_on(
                text::texts(violations@),
                risk.nanos as int,
                confidence.nanos as int,
            ),
    {
        if text::has_text(violations, "irreversible_action_locked") {
            HALDecision::Block
        } else if text::has_text(violations, "behavioral_anomaly") {
            HALDecision::Escalate
        } else if text::has_text(violations, "repeated_escalation") {
            HALDecision::Escalate
        } else if risk.nanos > 950_000_000 {
            HALDecision::Block
        } else if confidence.nanos < 200_000_000 {
            HALDecision::Block
        } else if risk.nanos > 700_000_000 {
            HALDecision::Confirm
        } else if violations.len() > 0 {
            HALDecision::Notify
        } else {
            HALDecision::Allow
        }
    }

    /// Whether an action may run under restraint.
    pub fn enforce_restraint(risk: Score, confidence: Score) -> (r: bool)
        ensures
            r == (risk.nanos < 350_000_000 && confidence.nanos > 850_000_000),
    {
        risk.nanos < 350_000_000 && confidence.nanos > 850_000_000
    }

    /// The risk boundary, lowered by anomalies and raised by trust, within
    /// `[0.10, 0.95]`.
    pub fn adaptive_risk_boundary(
        base_boundary: Score,
        anomaly_score: Score,
        trust_score: Score,
    ) -> (s: Score)
        ensures
            s.nanos == adapted_boundary(
                base_boundary.nanos as int,
                anomaly_score.nanos as int,
                trust_score.nanos as int,
            ),
    {
        let sum: i128 = base_boundary.nanos as i128 * 100 - anomaly_score.nanos as i128 * 25
            + trust_score.nanos as i128 * 10;
        let q: i128 = div_floor(sum, 100);
        if q < 100_000_000 {
            Score::from_nanos(100_000_000)
        } else if q > 950_000_000 {
            Score::from_nanos(950_000_000)
        } else {
            Score::from_nanos(q as i64)
        }
    }

    /// Whether an agent's behaviour calls for its isolation.
    pub fn requires_isolation(context: &HALContext) -> (r: bool)
        ensures
            r == isolation_required(*context),
    {
        context.behavioral.anomaly_score.nanos > 900_000_000
            || context.behavioral.escalation_attempts > 5
    }

    /// How far an agent's behaviour is to be escalated.
    pub fn escalation_context(context: &HALContext) -> (e: EscalationContext)
        ensures
            if context.behavioral.anomaly_score.nanos > 900_000_000 {
                e.level == EscalationLevel::Critical && e.reason@ == "critical behavioral anomaly"@
                    && e.requires_isolation && e.requires_forensics
            } else if context.behavioral.escalation_attempts > 3 {
                e.level == EscalationLevel::High && e.reason@ == "persistent escalation attempts"@
                    && e.requires_isolation && !e.requires_forensics
            } else {
                e.level == EscalationLevel::Low && e.reason@ == "minor policy deviation"@
                    && !e.requires_isolation && !e.requires_forensics
            },
    {
        if context.behavioral.anomaly_score.nanos > 900_000_000 {
            return EscalationContext {
                level: EscalationLevel::Critical,
                reason: String::from_str("critical behavioral anomaly"),
                requires_isolation: true,
                requires_forensics: true,
            };
        }
        if context.behavioral.escalation_attempts > 3 {
            return EscalationContext {
                level: EscalationLevel::High,
                reason: String::from_str("persistent escalation attempts"),
                requires_isolation: true,
                requires_forensics: false,
            };
        }
        EscalationContext {
            level: EscalationLevel::Low,
            reason: String::from_str("minor policy deviation"),
            requires_isolation: false,
            requires_forensics: false,
        }
    }

    /// Whether an agent keeps its authority.
    pub fn authority_continuity(
        trust_score: Score,
        provenance_score: Score,
        capability_valid: bool,
    ) -> (r: bool)
        ensures
            r == (trust_score.nanos > 700_000_000 && provenance_score.nanos > 750_000_000
                && capability_valid),
            r == keeps_authority(
                trust_score.nanos as int,
                provenance_score.nanos as int,
                capability_valid,
            ),
    {
        trust_score.nanos > 700_000_000 && provenance_score.nanos > 750_000_000 && capability_valid
    }

    /// Whether an action may run without asking.
    pub fn bounded_autonomy(risk: Score, confidence: Score, anomaly_score: Score) -> (r: bool)
        ensures
            r == (risk.nanos < 300_000_000 && confidence.nanos > 900_000_000 && anomaly_score.nanos
                < 150_000_000),
            r == may_act_alone(
                risk.nanos as int,
                confidence.nanos as int,
                anomaly_score.nanos as int,
            ),
    {
        risk.nanos < 300_000_000 && confidence.nanos > 900_000_000 && anomaly_score.nanos
            < 150_000_000
    }

    /// Whether an action needs a human because it cannot be undone.
    pub fn irreversible_requires_human(context: &HALContext) -> (r: bool)
        ensures
            r == action_validator::is_irreversible(*context),
    {
        ActionValidator::irreversible_action(context)
    }
}

/// Under the irreversible-action lock an action that cannot be undone is
/// always blocked.
pub proof fn lock_blocks_irreversible(
    context: HALContext,
    risk: int,
    confidence: int,
    bounds: RestraintBoundary,
)
    requires
        bounds.irreversible_action_lock,
        action_validator::is_irreversible(context),
    ensures
        decision_on(violations_of(context, risk, confidence, bounds), risk, confidence)
            == HALDecision::Block,
{
    let v1 = text::push_if(
        Seq::empty(),
        risk > bounds.maximum_allowed_risk.nanos,
        "risk_boundary_exceeded"@,
    );
    let all = violations_of(context, risk, confidence, bounds);
    assert(all[v1.len() as int] == "irreversible_action_locked"@);
}

/// An anomalous agent, or one that keeps trying to escalate, is never allowed
/// on its own: its action is blocked or escalated.
pub proof fn suspicious_agents_are_stopped(
    context: HALContext,
    risk: int,
    confidence: int,
    bounds: RestraintBoundary,
)
    requires
        context.behavioral.anomaly_score.nanos > 850_000_000
            || context.behavioral.escalation_attempts > 3,
    ensures
        ({
            let d = decision_on(violations_of(context, risk, confidence, bounds), risk, confidence);
            d == HALDecision::Block || d == HALDecision::Escalate
        }),
{
    let all = violations_of(context, risk, confidence, bounds);
    if context.behavioral.escalation_attempts > 3 {
        assert(all.last() == "repeated_escalation"@);
        assert(all[all.len() - 1] == "repeated_escalation"@);
    } else {
        assert(all.last() == "behavioral_anomaly"@);
        assert(all[all.len() - 1] == "behavioral_anomaly"@);
    }
}

/// More anomaly never raises the adapted boundary, more trust never lowers it,
/// and it stays within `[0.10, 0.95]`.
pub proof fn boundary_adapts_monotonically(
    base: int,
    anomaly: int,
    more_anomaly: int,
    trust: int,
    more_trust: int,
)
    requires
        anomaly <= more_anomaly,
        trust <= more_trust,
    ensures
        adapted_boundary(base, more_anomaly, trust) <= adapted_boundary(base, anomaly, trust),
        adapted_boundary(base, anomaly, trust) <= adapted_boundary(base, anomaly, more_trust),
        100_000_000 <= adapted_boundary(base, anomaly, trust) <= 950_000_000,
{
}

/// Each rule is named exactly where the action breaks it, and no rule is named
/// twice.
pub proof fn broken_rules_are_named(
    context: HALContext,
    risk: int,
    confidence: int,
    bounds: RestraintBoundary,
)
    ensures
        violations_of(context, risk, confidence, bounds).contains("risk_boundary_exceeded"@) <==> (risk > bounds.maximum_allowed_risk.nanos),
        violations_of(context, risk, confidence, bounds).contains("irreversible_action_locked"@) <==> (bounds.irreversible_action_lock && (context.severity == IntentSeverity::Critical || context.syscall_sensitivity == SyscallSensitivity::Irreversible)),
        violations_of(context, risk, confidence, bounds).contains("user_presence_required"@) <==> (bounds.require_user_presence && !context.session.user_present),
        violations_of(context, risk, confidence, bounds).contains("multi_factor_requirement"@) <==> (bounds.require_multi_factor && confidence < 920_000_000),
        violations_of(context, risk, confidence, bounds).contains("behavioral_anomaly"@) <==> (context.behavioral.anomaly_score.nanos > 850_000_000),
        violations_of(context, risk, confidence, bounds).contains("repeated_escalation"@) <==> (context.behavioral.escalation_attempts > 3),
        violations_of(context, risk, confidence, bounds).len() == (if risk > bounds.maximum_allowed_risk.nanos {
            1int
        } else {
            0int
        }) + (if bounds.irreversible_action_lock && (context.severity == IntentSeverity::Critical || context.syscall_sensitivity == SyscallSensitivity::Irreversible) {
            1int
        } else {
            0int
        }) + (if bounds.require_user_presence && !context.session.user_present {
            1int
        } else {
            0int
        }) + (if bounds.require_multi_factor && confidence < 920_000_000 {
            1int
        } else {
            0int
        }) + (if context.behavioral.anomaly_score.nanos > 850_000_000 {
            1int
        } else {
            0int
        }) + (if context.behavioral.escalation_attempts > 3 {
            1int
        } else {
            0int
        }),
{
    reveal_strlit("risk_boundary_exceeded");
    reveal_strlit("irreversible_action_locked");
    reveal_strlit("user_presence_required");
    reveal_strlit("multi_factor_requirement");
    reveal_strlit("behavioral_anomaly");
    reveal_strlit("repeated_escalation");
    assert("risk_boundary_exceeded"@.len() != "irreversible_action_locked"@.len());
    assert("risk_boundary_exceeded"@[0] != "user_presence_required"@[0]);
    assert("risk_boundary_exceeded"@.len() != "multi_factor_requirement"@.len());
    assert("risk_boundary_exceeded"@.len() != "behavioral_anomaly"@.len());
    assert("risk_boundary_exceeded"@.len() != "repeated_escalation"@.len());
    assert("irreversible_action_locked"@.len() != "user_presence_required"@.len());
    assert("irreversible_action_locked"@.len() != "multi_factor_requirement"@.len());
    assert("irreversible_action_locked"@.len() != "behavioral_anomaly"@.len());
    assert("irreversible_action_locked"@.len() != "repeated_escalation"@.len());
    assert("user_presence_required"@.len() != "multi_factor_requirement"@.len());
    assert("user_presence_required"@.len() != "behavioral_anomaly"@.len());
    assert("user_presence_required"@.len() != "repeated_escalation"@.len());
    assert("multi_factor_requirement"@.len() != "behavioral_anomaly"@.len());
    assert("multi_factor_requirement"@.len() != "repeated_escalation"@.len());
    assert("behavioral_anomaly"@.len() != "repeated_escalation"@.len());
    let c1 = risk > bounds.maximum_allowed_risk.nanos;
    let v1 = text::push_if(Seq::empty(), c1, "risk_boundary_exceeded"@);
    let c2 = bounds.irreversible_action_lock && action_validator::is_irreversible(context);
    let v2 = text::push_if(v1, c2, "irreversible_action_locked"@);
    let c3 = bounds.require_user_presence && !context.session.user_present;
    let v3 = text::push_if(v2, c3, "user_presence_required"@);
    let c4 = bounds.require_multi_factor && confidence < 920_000_000;
    let v4 = text::push_if(v3, c4, "multi_factor_requirement"@);
    let c5 = context.behavioral.anomaly_score.nanos > 850_000_000;
    let v5 = text::push_if(v4, c5, "behavioral_anomaly"@);
    let c6 = context.behavioral.escalation_attempts > 3;
    let v6 = text::push_if(v5, c6, "repeated_escalation"@);
    text::push_if_adds(Seq::empty(), c1, "risk_boundary_exceeded"@, "risk_boundary_exceeded"@);
    text::push_if_adds(v1, c2, "irreversible_action_locked"@, "risk_boundary_exceeded"@);
    text::push_if_adds(v2, c3, "user_presence_required"@, "risk_boundary_exceeded"@);
    text::push_if_adds(v3, c4, "multi_factor_requirement"@, "risk_boundary_exceeded"@);
    text::push_if_adds(v4, c5, "behavioral_anomaly"@, "risk_boundary_exceeded"@);
    text::push_if_adds(v5, c6, "repeated_escalation"@, "risk_boundary_exceeded"@);
    text::push_if_adds(Seq::empty(), c1, "risk_boundary_exceeded"@, "irreversible_action_locked"@);
    text::push_if_adds(v1, c2, "irreversible_action_locked"@, "irreversible_action_locked"@);
    text::push_if_adds(v2, c3, "user_presence_required"@, "irreversible_action_locked"@);
    text::push_if_adds(v3, c4, "multi_factor_requirement"@, "irreversible_action_locked"@);
    text::push_if_adds(v4, c5, "behavioral_anomaly"@, "irreversible_action_locked"@);
    text::push_if_adds(v5, c6, "repeated_escalation"@, "irreversible_action_locked"@);
    text::push_if_adds(Seq::empty(), c1, "risk_boundary_exceeded"@, "user_presence_required"@);
    text::push_if_adds(v1, c2, "irreversible_action_locked"@, "user_presence_required"@);
    text::push_if_adds(v2, c3, "user_presence_required"@, "user_presence_required"@);
    text::push_if_adds(v3, c4, "multi_factor_requirement"@, "user_presence_required"@);
    text::push_if_adds(v4, c5, "behavioral_anomaly"@, "user_presence_required"@);
    text::push_if_adds(v5, c6, "repeated_escalation"@, "user_presence_required"@);
    text::push_if_adds(Seq::empty(), c1, "risk_boundary_exceeded"@, "multi_factor_requirement"@);
    text::push_if_adds(v1, c2, "irreversible_action_locked"@, "multi_factor_requirement"@);
    text::push_if_adds(v2, c3, "user_presence_required"@, "multi_factor_requirement"@);
    text::push_if_adds(v3, c4, "multi_factor_requirement"@, "multi_factor_requirement"@);
    text::push_if_adds(v4, c5, "behavioral_anomaly"@, "multi_factor_requirement"@);
    text::push_if_adds(v5, c6, "repeated_escalation"@, "multi_factor_requirement"@);
    text::push_if_adds(Seq::empty(), c1, "risk_boundary_exceeded"@, "behavioral_anomaly"@);
    text::push_if_adds(v1, c2, "irreversible_action_locked"@, "behavioral_anomaly"@);
    text::push_if_adds(v2, c3, "user_presence_required"@, "behavioral_anomaly"@);
    text::push_if_adds(v3, c4, "multi_factor_requirement"@, "behavioral_anomaly"@);
    text::push_if_adds(v4, c5, "behavioral_anomaly"@, "behavioral_anomaly"@);
    text::push_if_adds(v5, c6, "repeated_escalation"@, "behavioral_anomaly"@);
    text::push_if_adds(Seq::empty(), c1, "risk_boundary_exceeded"@, "repeated_escalation"@);
    text::push_if_adds(v1, c2, "irreversible_action_locked"@, "repeated_escalation"@);
    text::push_if_adds(v2, c3, "user_presence_required"@, "repeated_escalation"@);
    text::push_if_adds(v3, c4, "multi_factor_requirement"@, "repeated_escalation"@);
    text::push_if_adds(v4, c5, "behavioral_anomaly"@, "repeated_escalation"@);
    text::push_if_adds(v5, c6, "repeated_escalation"@, "repeated_escalation"@);
    assert(v6 == violations_of(context, risk, confidence, bounds));
}

/// What an evaluation decides, by its inputs alone. An irreversible action under
/// the lock is blocked. Otherwise a suspicious agent is escalated. Otherwise a
/// risk above 0.95 or a confidence below 0.2 blocks, a risk above 0.7 asks, a
/// broken rule is noticed, and only what breaks none is allowed.
pub proof fn evaluation_follows_its_inputs(
    r: HALResult,
    context: HALContext,
    risk: Score,
    confidence: Score,
    bounds: RestraintBoundary,
)
    requires
        is_evaluation(r, context, risk, confidence, bounds),
    ensures
        ({
            let locked = bounds.irreversible_action_lock && (context.severity
                == IntentSeverity::Critical || context.syscall_sensitivity
                == SyscallSensitivity::Irreversible);
            let suspicious = context.behavioral.anomaly_score.nanos > 850_000_000
                || context.behavioral.escalation_attempts > 3;
            let hopeless = risk.nanos > 950_000_000 || confidence.nanos < 200_000_000;
            &&& r.decision == HALDecision::Block <==> locked || (!suspicious && hopeless)
            &&& r.decision == HALDecision::Escalate <==> !locked && suspicious
            &&& r.decision == HALDecision::Confirm <==> !locked && !suspicious && !hopeless
                && risk.nanos > 700_000_000
            &&& r.decision == HALDecision::Notify <==> !locked && !suspicious && !hopeless
                && risk.nanos <= 700_000_000 && r.violated_rules@.len() > 0
            &&& r.decision == HALDecision::Allow <==> r.violated_rules@.len() == 0 && risk.nanos
                <= 700_000_000 && confidence.nanos >= 200_000_000
        }),
        risk.nanos > 700_000_000 ==> r.decision != HALDecision::Allow && r.decision
            != HALDecision::Notify,
        risk.nanos > 950_000_000 || confidence.nanos < 200_000_000 ==> r.decision
            == HALDecision::Block || r.decision == HALDecision::Escalate,
        r.requires_user_prompt <==> r.decision == HALDecision::Confirm,
        r.escalation_required <==> r.decision == HALDecision::Block || r.decision
            == HALDecision::Escalate,
        r.computed_risk == risk,
        r.confidence == confidence,
{
    broken_rules_are_named(context, risk.nanos as int, confidence.nanos as int, bounds);
    let rules = violations_of(context, risk.nanos as int, confidence.nanos as int, bounds);
    assert(text::texts(r.violated_rules@).len() == r.violated_rules@.len());
    assert(rules.len() == r.violated_rules@.len());
}

/// How strict a decision is.
pub open spec fn strictness(d: HALDecision) -> int {
    match d {
        HALDecision::Allow => 0,
        HALDecision::Notify => 1,
        HALDecision::Confirm => 2,
        HALDecision::Escalate => 3,
        HALDecision::Block => 3,
        _ => -1,
    }
}

/// More risk or less confidence never softens the decision on the same action
/// within the same boundaries.
pub proof fn more_risk_is_never_softer(
    context: HALContext,
    risk: int,
    more_risk: int,
    confidence: int,
    less_confidence: int,
    bounds: RestraintBoundary,
)
    requires
        risk <= more_risk,
        less_confidence <= confidence,
    ensures
        strictness(
            decision_on(violations_of(context, risk, confidence, bounds), risk, confidence),
        ) <= strictness(
            decision_on(
                violations_of(context, more_risk, less_confidence, bounds),
                more_risk,
                less_confidence,
            ),
        ),
{
    broken_rules_are_named(context, risk, confidence, bounds);
    broken_rules_are_named(context, more_risk, less_confidence, bounds);
}

/// A decision on rules that somebody else found: three of them decide alone, and
/// otherwise the risk and the confidence do, before the mere presence of a rule.
pub proof fn decision_follows_rules(rules: Seq<Seq<char>>, risk: int, confidence: int)
    ensures
        rules.contains("irreversible_action_locked"@) ==> decision_on(rules, risk, confidence)
            == HALDecision::Block,
        rules.contains("behavioral_anomaly"@) || rules.contains("repeated_escalation"@) ==> (
        decision_on(rules, risk, confidence) == HALDecision::Escalate || rules.contains(
            "irreversible_action_locked"@,
        )),
        decision_on(rules, risk, confidence) == HALDecision::Escalate ==> rules.contains(
            "behavioral_anomaly"@,
        ) || rules.contains("repeated_escalation"@),
        decision_on(rules, risk, confidence) == HALDecision::Block ==> rules.contains(
            "irreversible_action_locked"@,
        ) || risk > 950_000_000 || confidence < 200_000_000,
        risk > 950_000_000 || confidence < 200_000_000 ==> decision_on(rules, risk, confidence)
            == HALDecision::Block || decision_on(rules, risk, confidence) == HALDecision::Escalate,
        decision_on(rules, risk, confidence) == HALDecision::Confirm ==> risk > 700_000_000,
        decision_on(rules, risk, confidence) == HALDecision::Notify ==> risk <= 700_000_000
            && rules.len() > 0,
        decision_on(rules, risk, confidence) == HALDecision::Allow <==> rules.len() == 0 && risk
            <= 700_000_000 && confidence >= 200_000_000,
{
    if rules.len() == 0 {
        assert(!rules.contains("irreversible_action_locked"@));
        assert(!rules.contains("behavioral_anomaly"@));
        assert(!rules.contains("repeated_escalation"@));
    }
}

/// Within its limits the boundary moves by a quarter of the anomaly down and by
/// a tenth of the trust up.
pub proof fn boundary_moves_by_quarters_and_tenths(base: int, anomaly: int, trust: int)
    requires
        100_000_000 <= base <= 950_000_000,
        0 <= anomaly <= 1_000_000_000,
        0 <= trust <= 1_000_000_000,
    ensures
        adapted_boundary(base, 0, 0) == base,
        adapted_boundary(base, 4 * anomaly, 0) == score::max_int(base - anomaly, 100_000_000),
        adapted_boundary(base, 0, 10 * trust) == score::min_int(base + trust, 950_000_000),
{
}

/// An agent that calls for isolation is also one that no evaluation lets pass.
pub proof fn isolated_agents_are_stopped(
    r: HALResult,
    context: HALContext,
    risk: Score,
    confidence: Score,
    bounds: RestraintBoundary,
)
    requires
        is_evaluation(r, context, risk, confidence, bounds),
    ensures
        isolation_required(context) ==> r.escalation_required,
        context.behavioral.anomaly_score.nanos > 900_000_000 ==> isolation_required(context),
        context.behavioral.escalation_attempts > 5 ==> isolation_required(context),
        context.behavioral.anomaly_score.nanos <= 900_000_000
            && context.behavioral.escalation_attempts <= 5 ==> !isolation_required(context),
{
    evaluation_follows_its_inputs(r, context, risk, confidence, bounds);
}

/// An evaluation says how many rules were broken, and its tag gives the risk and
/// the confidence.
pub proof fn evaluations_say(
    r: HALResult,
    context: HALContext,
    risk: Score,
    confidence: Score,
    bounds: RestraintBoundary,
)
    requires
        is_evaluation(r, context, risk, confidence, bounds),
    ensures
        r.explanation@ == "policy evaluation with "@ + text::decimal_digits(
            r.violated_rules@.len(),
        ) + " rule violations"@,
        r.audit_hash@ == "policy:"@ + score::score_digits(risk.nanos as int) + ":"@
            + score::score_digits(confidence.nanos as int),
{
    assert(text::texts(r.violated_rules@).len() == r.violated_rules@.len());
}

/// Whether an agent may act on its own.
pub open spec fn may_act_alone(risk: int, confidence: int, anomaly: int) -> bool {
    risk < 300_000_000 && confidence > 900_000_000 && anomaly < 150_000_000
}

/// Whether an agent keeps its authority.
pub open spec fn keeps_authority(trust: int, provenance: int, capability_valid: bool) -> bool {
    trust > 700_000_000 && provenance > 750_000_000 && capability_valid
}

/// An agent acts alone only where a decision without broken rules would be to
/// allow it, and exactly where none of the three limits is reached.
pub proof fn acting_alone_is_harmless(risk: int, confidence: int, anomaly: int)
    ensures
        !may_act_alone(risk, confidence, anomaly) <==> risk >= 300_000_000 || confidence
            <= 900_000_000 || anomaly >= 150_000_000,
        may_act_alone(risk, confidence, anomaly) ==> decision_on(Seq::empty(), risk, confidence)
            == HALDecision::Allow,
{
}

/// Authority is lost with the capability, with trust of 0.7 or less, or with an
/// origin of 0.75 or less, and by nothing else.
pub proof fn authority_can_be_lost(trust: int, provenance: int, capability_valid: bool)
    ensures
        !keeps_authority(trust, provenance, false),
        !keeps_authority(trust, provenance, true) <==> trust <= 700_000_000 || provenance
            <= 750_000_000,
{
}

} // verus!
