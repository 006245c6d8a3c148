//! Estimates how sure the system is about a risk score.

use vstd::prelude::*;

use crate::action_validator;
use crate::action_validator::audit_tag;
use crate::hal_types::BehavioralMetrics;
use crate::hal_types::HALDecision;
use crate::hal_types::HALResult;
use crate::hal_types::ProvenanceData;
use crate::hal_types::SessionContext;
use crate::hal_types::TrustState;
use crate::score;
use crate::score::div_floor;
use crate::score::unit_score;
use crate::score::Score;
use crate::score::SCALE;

verus! {

/// The confidence engine.
pub struct ConfidenceEngine;

/// What the origin of an action contributes, in billionths.
pub open spec fn provenance_part(p: ProvenanceData) -> int {
    (if p.signature_verified {
        500_000_000int
    } else {
        0
    }) + (if p.replay_checked {
        250_000_000int
    } else {
        0
    }) + (if p.trust_chain_hash@.len() > 0 {
        250_000_000int
    } else {
        0
    })
}

/// What an agent's behaviour contributes, in billionths.
pub open spec fn behavioral_part(b: BehavioralMetrics) -> int {
    score::unit_clamp(
        (b.historical_stability.nanos * 100 - b.anomaly_score.nanos * 40 - b.volatility_score.nanos
            * 30 - b.escalation_attempts * 5_000_000_000) / 100,
    )
}

/// What the session contributes, in billionths.
pub open spec fn session_part(s: SessionContext) -> int {
    score::unit_clamp(
        (100_000_000_000 - (if s.user_present {
            0int
        } else {
            45_000_000_000
        }) - (if s.requires_confirmation {
            20_000_000_000int
        } else {
            0
        }) - (SCALE - s.user_attention_score.nanos) * 35) / 100,
    )
}

/// The fused confidence, in billionths.
pub open spec fn confidence_of(
    trust: TrustState,
    provenance: ProvenanceData,
    behavior: BehavioralMetrics,
    session: SessionContext,
) -> int {
    score::unit_clamp(
        (trust.current_score.nanos * 40 + provenance_part(provenance) * 30 + behavioral_part(
            behavior,
        ) * 20 + session_part(session) * 10) / 100,
    )
}

/// Whether a human has to confirm.
pub open spec fn confirmation_needed(confidence: int, risk: int) -> bool {
    confidence < 550_000_000 || risk > 650_000_000
}

/// The decision on a confidence and a risk, both in billionths.
pub open spec fn decision_on(confidence: int, risk: int) -> HALDecision {
    if risk > 900_000_000 {
        HALDecision::Block
    } else if confidence < 200_000_000 {
        HALDecision::Block
    } else if risk > 700_000_000 {
        HALDecision::Confirm
    } else if confidence < 450_000_000 {
        HALDecision::Notify
    } else {
        HALDecision::Allow
    }
}

impl ConfidenceEngine {
    /// Fuses trust, origin, behaviour and session into a confidence.
    pub fn compute_confidence(
        trust: &TrustState,
        provenance: &ProvenanceData,
        behavior: &BehavioralMetrics,
        session: &SessionContext,
    ) -> (s: Score)
        ensures
            s.nanos == confidence_of(*trust, *provenance, *behavior, *session),
    {
        let sum: i128 = trust.current_score.nanos as i128 * 40
            + ConfidenceEngine::provenance_component(provenance).nanos as i128 * 30
            + ConfidenceEngine::behavioral_component(behavior).nanos as i128 * 20
            + ConfidenceEngine::session_component(session).nanos as i128 * 10;
        unit_score(div_floor(sum, 100))
    }

    /// What the origin of an action contributes.
    pub fn provenance_component(provenance: &ProvenanceData) -> (s: Score)
        ensures
            s.nanos == provenance_part(*provenance),
            s.is_unit(),
    {
        let mut sum: i64 = 0;
        if provenance.signature_verified {
            sum = sum + 500_000_000;
        }
        if provenance.replay_checked {
            sum = sum + 250_000_000;
        }
        if !provenance.trust_chain_hash.as_str().is_empty() {
            sum = sum + 250_000_000;
        }
        Score::from_nanos(sum)
    }

    /// What an agent's behaviour contributes.
    pub fn behavioral_component(behavior: &BehavioralMetrics) -> (s: Score)
        ensures
            s.nanos == behavioral_part(*behavior),
            s.is_unit(),
    {
        let sum: i128 = behavior.historical_stability.nanos as i128 * 100
            - behavior.anomaly_score.nanos as i128 * 40 - behavior.volatility_score.nanos as i128
            * 30 - behavior.escalation_attempts as i128 * 5_000_000_000;
        unit_score(div_floor(sum, 100))
    }

    /// What the session contributes.
    pub fn session_component(session: &SessionContext) -> (s: Score)
        ensures
            s.nanos == session_part(*session),
            s.is_unit(),
    {
        let mut sum: i128 = 100_000_000_000;
        if !session.user_present {
            sum = sum - 45_000_000_000;
        }
        if session.requires_confirmation {
            sum = sum - 20_000_000_000;
        }
        sum = sum - (SCALE as i128 - session.user_attention_score.nanos as i128) * 35;
        unit_score(div_floor(sum, 100))
    }

    /// A confidence after some time: it loses 0.00015 a second.
    pub fn confidence_decay(base_confidence: Score, elapsed_ms: i64) -> (s: Score)
        ensures
            s.nanos == score::unit_clamp(base_confidence.nanos - elapsed_ms * 150),
            s.nanos == decayed_confidence(base_confidence.nanos as int, elapsed_ms as int),
    {
        unit_score(base_confidence.nanos as i128 - elapsed_ms as i128 * 150)
    }

    /// The confidence that a risk leaves.
    pub fn confidence_from_risk(risk: Score) -> (s: Score)
        ensures
            s.nanos == score::unit_clamp(SCALE - risk.nanos),
    {
        unit_score(SCALE as i128 - risk.nanos as i128)
    }

    /// Whether a human has to confirm.
    pub fn requires_human_confirmation(confidence: Score, risk: Score) -> (r: bool)
        ensures
            r == confirmation_needed(confidence.nanos as int, risk.nanos as int),
    {
        confidence.nanos < 550_000_000 || risk.nanos > 650_000_000
    }

    /// The decision on a confidence and a risk.
    pub fn decision_from_confidence(confidence: Score, risk: Score) -> (d: HALDecision)
        ensures
            d == decision_on(confidence.nanos as int, risk.nanos as int),
    {
        if risk.nanos > 900_000_000 {
            HALDecision::Block
        } else if confidence.nanos < 200_000_000 {
            HALDecision::Block
        } else if risk.nanos > 700_000_000 {
            HALDecision::Confirm
        } else if confidence.nanos < 450_000_000 {
            HALDecision::Notify
        } else {
            HALDecision::Allow
        }
    }

    /// How well present behaviour agrees with the past.
    pub fn consistency_score(historical_average: Score, current_behavior: Score) -> (s: Score)
        ensures
            s.nanos == score::unit_clamp(
                SCALE - score::abs_int(historical_average.nanos - current_behavior.nanos),
            ),
    {
        let d: i128 = historical_average.nanos as i128 - current_behavior.nanos as i128;
        let delta: i128 = if d < 0 {
            -d
        } else {
            d
        };
        unit_score(SCALE as i128 - delta)
    }

    /// Whether an action that cannot be undone may run.
    pub fn irreversible_action_allowed(confidence: Score, risk: Score, user_present: bool) -> (r:
        bool)
        ensures
            r == (confidence.nanos > 920_000_000 && risk.nanos < 300_000_000 && user_present),
            r == irreversible_allowed(confidence.nanos as int, risk.nanos as int, user_present),
    {
        confidence.nanos > 920_000_000 && risk.nanos < 300_000_000 && user_present
    }

    /// The result for a risk and a confidence.
    pub fn finalize_result(risk: Score, confidence: Score, explanation: String) -> (r: HALResult)
        ensures
            ({
                let decision = decision_on(confidence.nanos as int, risk.nanos as int);
                &&& r.decision == decision
                &&& r.computed_risk == risk
                &&& r.confidence == confidence
                &&& r.explanation == explanation
                &&& r.violated_rules@.len() == 0
                &&& r.audit_hash@ == action_validator::tag_of(
                    "hal:"@,
                    risk.nanos as int,
                    confidence.nanos as int,
                )
                &&& r.requires_user_prompt == confirmation_needed(
                    confidence.nanos as int,
                    risk.nanos as int,
                )
                &&& r.escalation_required == (decision == HALDecision::Block || decision
                    == HALDecision::Escalate)
            }),
    {
        let decision = ConfidenceEngine::decision_from_confidence(confidence, risk);
        HALResult {
            decision,
            computed_risk: risk,
            confidence,
            explanation,
            violated_rules: Vec::new(),
            audit_hash: audit_tag("hal:", risk, confidence),
            requires_user_prompt: ConfidenceEngine::requires_human_confirmation(confidence, risk),
            escalation_required: decision == HALDecision::Block || decision
                == HALDecision::Escalate,
        }
    }

    /// The assurance that trust, origin, behaviour and a low risk give.
    pub fn combined_assurance(
        trust_score: Score,
        provenance_score: Score,
        behavioral_score: Score,
        risk_score: Score,
    ) -> (s: Score)
        ensures
            s.nanos == score::unit_clamp(
                (trust_score.nanos * 35 + provenance_score.nanos * 30 + behavioral_score.nanos * 20
                    + (SCALE - risk_score.nanos) * 15) / 100,
            ),
            s.nanos == assurance_of(
                trust_score.nanos as int,
                provenance_score.nanos as int,
                behavioral_score.nanos as int,
                risk_score.nanos as int,
            ),
    {
        let sum: i128 = trust_score.nanos as i128 * 35 + provenance_score.nanos as i128 * 30
            + behavioral_score.nanos as i128 * 20 + (SCALE as i128 - risk_score.nanos as i128) * 15;
        unit_score(div_floor(sum, 100))
    }

    /// Whether a confidence suffices to act alone.
    pub fn bounded_autonomy(confidence: Score) -> (r: bool)
        ensures
            r == (confidence.nanos >= 850_000_000),
    {
        confidence.nanos >= 850_000_000
    }
}

/// Raising the risk or lowering the confidence never turns a blocked action
/// into one that passes, and an action that is confirmed or blocked for its
/// risk always needs a human.
pub proof fn decisions_are_monotone(confidence: int, risk: int, less: int, more: int)
    requires
        less <= confidence,
        risk <= more,
    ensures
        decision_on(confidence, risk) == HALDecision::Block ==> decision_on(less, more)
            == HALDecision::Block,
        decision_on(less, more) == HALDecision::Allow ==> decision_on(confidence, risk)
            == HALDecision::Allow,
        decision_on(confidence, risk) == HALDecision::Confirm ==> confirmation_needed(
            confidence,
            risk,
        ),
{
}

/// Confidence never grows as time passes.
pub proof fn confidence_only_decays(base: int, earlier: int, later: int)
    requires
        earlier <= later,
    ensures
        score::unit_clamp(base - later * 150) <= score::unit_clamp(base - earlier * 150),
{
}

/// A verified signature is worth half of the confidence in an origin, a replay
/// check and a chain hash a quarter each; without any there is none.
pub proof fn origin_parts_add_up(p: ProvenanceData)
    ensures
        provenance_part((ProvenanceData { signature_verified: true, ..p })) == provenance_part(
            (ProvenanceData { signature_verified: false, ..p }),
        ) + 500_000_000,
        provenance_part((ProvenanceData { replay_checked: true, ..p })) == provenance_part(
            (ProvenanceData { replay_checked: false, ..p }),
        ) + 250_000_000,
        p.signature_verified && p.replay_checked ==> provenance_part(p) == (if p.trust_chain_hash@.len()
            > 0 {
            1_000_000_000int
        } else {
            750_000_000
        }),
        !p.signature_verified && !p.replay_checked && p.trust_chain_hash@.len() == 0
            ==> provenance_part(p) == 0,
{
}

/// Confidence in behaviour is the stability, less four tenths of the anomaly,
/// three tenths of the volatility and a twentieth for each escalation, within
/// `[0, 1]`.
pub proof fn behaviour_costs_confidence(b: BehavioralMetrics)
    ensures
        ({
            let hundredfold = score::clamp_int(
                100 * b.historical_stability.nanos - 40 * b.anomaly_score.nanos - 30
                    * b.volatility_score.nanos - 5_000_000_000 * b.escalation_attempts,
                0,
                100_000_000_000,
            );
            hundredfold - 100 < 100 * behavioral_part(b) <= hundredfold
        }),
{
}

/// An absent user costs 0.45 of the confidence in a session, a required
/// confirmation 0.2, and lost attention 0.35 of what is lost.
pub proof fn sessions_cost_confidence(s: SessionContext)
    ensures
        ({
            let hundredfold = score::clamp_int(
                65_000_000_000 + 35 * s.user_attention_score.nanos - (if s.user_present {
                    0int
                } else {
                    45_000_000_000
                }) - (if s.requires_confirmation {
                    20_000_000_000int
                } else {
                    0
                }),
                0,
                100_000_000_000,
            );
            hundredfold - 100 < 100 * session_part(s) <= hundredfold
        }),
{
}

/// Trust makes up four tenths of the confidence, the origin three, behaviour two
/// and the session one.
pub proof fn confidence_is_shared_out(
    trust: TrustState,
    provenance: ProvenanceData,
    behavior: BehavioralMetrics,
    session: SessionContext,
)
    requires
        trust.current_score.is_unit(),
    ensures
        ({
            let tenfold = 4 * trust.current_score.nanos + 3 * provenance_part(provenance) + 2
                * behavioral_part(behavior) + session_part(session);
            tenfold - 10 < 10 * confidence_of(trust, provenance, behavior, session) <= tenfold
        }),
        0 <= confidence_of(trust, provenance, behavior, session) <= 1_000_000_000,
{
}

/// A decision by confidence and risk alone: a risk above 0.9 or a confidence
/// below 0.2 blocks, otherwise a risk above 0.7 asks, otherwise a confidence
/// below 0.45 is noticed, and the rest is allowed. Whatever asks, or is blocked,
/// also needs a human.
pub proof fn decision_by_confidence_and_risk(confidence: int, risk: int)
    ensures
        decision_on(confidence, risk) == HALDecision::Block <==> risk > 900_000_000 || confidence
            < 200_000_000,
        decision_on(confidence, risk) == HALDecision::Confirm <==> 700_000_000 < risk <= 900_000_000
            && confidence >= 200_000_000,
        decision_on(confidence, risk) == HALDecision::Notify <==> risk <= 700_000_000
            && 200_000_000 <= confidence < 450_000_000,
        decision_on(confidence, risk) == HALDecision::Allow <==> risk <= 700_000_000 && confidence
            >= 450_000_000,
        !confirmation_needed(confidence, risk) <==> confidence >= 550_000_000 && risk
            <= 650_000_000,
        decision_on(confidence, risk) != HALDecision::Allow ==> confirmation_needed(
            confidence,
            risk,
        ),
{
}

/// Whether an action that cannot be undone may run.
pub open spec fn irreversible_allowed(confidence: int, risk: int, user_present: bool) -> bool {
    confidence > 920_000_000 && risk < 300_000_000 && user_present
}

/// How much is assured: 0.35 by trust, 0.3 by origin, 0.2 by behaviour and 0.15
/// by the absence of risk.
pub open spec fn assurance_of(trust: int, provenance: int, behavior: int, risk: int) -> int {
    score::unit_clamp(
        (trust * 35 + provenance * 30 + behavior * 20 + (SCALE - risk) * 15) / 100,
    )
}

/// What is left of a confidence after some milliseconds.
pub open spec fn decayed_confidence(base: int, elapsed_ms: int) -> int {
    score::unit_clamp(base - elapsed_ms * 150)
}

/// What cannot be undone never runs without the user, nor where the decision
/// would not be to allow it; with the user it runs exactly above a confidence of
/// 0.92 and below a risk of 0.3.
pub proof fn irreversible_actions_need_the_user(confidence: int, risk: int)
    ensures
        !irreversible_allowed(confidence, risk, false),
        irreversible_allowed(confidence, risk, true) <==> !(confidence <= 920_000_000) && !(risk
            >= 300_000_000),
        irreversible_allowed(confidence, risk, true) ==> decision_on(confidence, risk)
            == HALDecision::Allow && !confirmation_needed(confidence, risk),
{
}

/// Everything in order assures wholly and nothing at all does not; each part
/// assures its share, and risk takes its share away.
pub proof fn assurance_is_shared_out(x: int)
    requires
        0 <= x <= 1_000_000_000,
    ensures
        assurance_of(1_000_000_000, 1_000_000_000, 1_000_000_000, 0) == 1_000_000_000,
        assurance_of(x, 0, 0, 1_000_000_000) == (7 * x) / 20,
        assurance_of(0, x, 0, 1_000_000_000) == (3 * x) / 10,
        assurance_of(0, 0, x, 1_000_000_000) == x / 5,
        assurance_of(0, 0, 0, x) == (3 * (1_000_000_000 - x)) / 20,
{
}

/// Confidence fades by 0.00015 in a second, in
/// proportion to the time, and never below nothing: what is whole is gone after
/// 6 666 667 milliseconds, and no sooner.
pub proof fn confidence_fades_evenly(base: int, a: int, b: int)
    requires
        0 <= base <= 1_000_000_000,
        0 <= a,
        0 <= b,
    ensures
        decayed_confidence(base, 0) == base,
        decayed_confidence(base, a + b) == decayed_confidence(decayed_confidence(base, a), b),
        decayed_confidence(1_000_000_000, a) == 0 <==> a >= 6_666_667,
        decayed_confidence(1_000_000_000, 1_000) == 999_850_000,
{
}

} // verus!
