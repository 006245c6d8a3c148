//! Configurable weights for each component of the risk model.

use vstd::prelude::*;

use crate::hal_types::IntentSeverity;
use crate::hal_types::RiskVector;
use crate::hal_types::SyscallSensitivity;
use crate::score;
use crate::score::div_floor;
use crate::score::unit_score;
use crate::score::Score;
use crate::score::SCALE;

verus! {

/// The weights of the risk components.
#[derive(Clone, Copy, Debug, PartialEq, Eq, Structural)]
pub struct RiskWeights {
    /// Weight of the intent.
    pub intent_weight: Score,
    /// Weight of the system calls.
    pub syscall_weight: Score,
    /// Weight of the lack of trust.
    pub trust_weight: Score,
    /// Weight of anomalies.
    pub anomaly_weight: Score,
    /// Weight of volatility.
    pub volatility_weight: Score,
    /// Weight of the user's confidence.
    pub user_confidence_weight: Score,
    /// Weight of the confidence in the origin.
    pub provenance_weight: Score,
}

impl Default for RiskWeights {
    fn default() -> (w: RiskWeights)
        ensures
            w.intent_weight.nanos == 220_000_000,
            w.syscall_weight.nanos == 200_000_000,
            w.trust_weight.nanos == 180_000_000,
            w.anomaly_weight.nanos == 150_000_000,
            w.volatility_weight.nanos == 100_000_000,
            w.user_confidence_weight.nanos == 80_000_000,
            w.provenance_weight.nanos == 70_000_000,
    {
        RiskWeights {
            intent_weight: Score::from_nanos(220_000_000),
            syscall_weight: Score::from_nanos(200_000_000),
            trust_weight: Score::from_nanos(180_000_000),
            anomaly_weight: Score::from_nanos(150_000_000),
            volatility_weight: Score::from_nanos(100_000_000),
            user_confidence_weight: Score::from_nanos(80_000_000),
            provenance_weight: Score::from_nanos(70_000_000),
        }
    }
}

/// Computes weighted risks.
pub struct RiskEngine {
    /// The weights.
    weights: RiskWeights,
}

/// The weighted sum of the components, in billionths of billionths.
pub open spec fn weighted_sum(w: RiskWeights, v: RiskVector) -> int {
    v.intent_risk.nanos * w.intent_weight.nanos + v.syscall_risk.nanos * w.syscall_weight.nanos
        + v.trust_deficit.nanos * w.trust_weight.nanos + v.anomaly_risk.nanos
        * w.anomaly_weight.nanos + v.volatility_risk.nanos * w.volatility_weight.nanos
        - v.user_confidence.nanos * w.user_confidence_weight.nanos - v.provenance_confidence.nanos
        * w.provenance_weight.nanos
}

/// The risk of a vector under given weights, in billionths.
pub open spec fn weighted_risk(w: RiskWeights, v: RiskVector) -> int {
    score::unit_clamp(weighted_sum(w, v) / SCALE as int)
}

/// The value of a severity, in billionths.
pub open spec fn severity_level(s: IntentSeverity) -> int {
    match s {
        IntentSeverity::Low => 100_000_000,
        IntentSeverity::Moderate => 350_000_000,
        IntentSeverity::High => 700_000_000,
        IntentSeverity::Critical => 1_000_000_000,
    }
}

/// The value of a system-call sensitivity, in billionths.
pub open spec fn sensitivity_level(s: SyscallSensitivity) -> int {
    match s {
        SyscallSensitivity::Safe => 50_000_000,
        SyscallSensitivity::Sensitive => 400_000_000,
        SyscallSensitivity::Dangerous => 800_000_000,
        SyscallSensitivity::Irreversible => 1_000_000_000,
    }
}

/// A risk multiplied for repeated escalation, in billionths.
pub open spec fn escalated_risk(base: int, attempts: int) -> int {
    score::unit_clamp((base * (100 + 15 * attempts)) / 100)
}

impl RiskEngine {
    /// The weights.
    pub closed spec fn used_weights(&self) -> RiskWeights {
        self.weights
    }

    /// An engine with the default weights.
    pub fn new() -> (e: RiskEngine)
        ensures
            e.used_weights().intent_weight.nanos == 220_000_000,
            e.used_weights().syscall_weight.nanos == 200_000_000,
            e.used_weights().trust_weight.nanos == 180_000_000,
            e.used_weights().anomaly_weight.nanos == 150_000_000,
            e.used_weights().volatility_weight.nanos == 100_000_000,
            e.used_weights().user_confidence_weight.nanos == 80_000_000,
            e.used_weights().provenance_weight.nanos == 70_000_000,
    {
        RiskEngine { weights: RiskWeights::default() }
    }

    /// An engine with given weights.
    pub fn with_weights(weights: RiskWeights) -> (e: RiskEngine)
        ensures
            e.used_weights() == weights,
    {
        RiskEngine { weights }
    }

    /// The weighted risk of a vector, within `[0, 1]`.
    pub fn compute_risk(&self, vector: &RiskVector) -> (s: Score)
        ensures
            s.nanos == weighted_risk(self.used_weights(), *vector),
    {
        let w = &self.weights;
        let intent = score::product(vector.intent_risk, w.intent_weight);
        let syscall = score::product(vector.syscall_risk, w.syscall_weight);
        let trust = score::product(vector.trust_deficit, w.trust_weight);
        let anomaly = score::product(vector.anomaly_risk, w.anomaly_weight);
        let volatility = score::product(vector.volatility_risk, w.volatility_weight);
        let user = score::product(vector.user_confidence, w.user_confidence_weight);
        let origin = score::product(vector.provenance_confidence, w.provenance_weight);
        let units: i128 = intent.0 + syscall.0 + trust.0 + anomaly.0 + volatility.0 - user.0
            - origin.0;
        let rest: i128 = intent.1 + syscall.1 + trust.1 + anomaly.1 + volatility.1 - user.1
            - origin.1;
        proof {
            score::units_divide_out(units as int, rest as int);
        }
        unit_score(units + div_floor(rest, SCALE as i128))
    }

    /// The value of a severity.
    pub fn severity_score(severity: &IntentSeverity) -> (s: Score)
        ensures
            s.nanos == severity_level(*severity),
    {
        match severity {
            IntentSeverity::Low => Score::from_nanos(100_000_000),
            IntentSeverity::Moderate => Score::from_nanos(350_000_000),
            IntentSeverity::High => Score::from_nanos(700_000_000),
            IntentSeverity::Critical => Score::from_nanos(1_000_000_000),
        }
    }

    /// The value of a system-call sensitivity.
    pub fn syscall_score(sensitivity: &SyscallSensitivity) -> (s: Score)
        ensures
            s.nanos == sensitivity_level(*sensitivity),
    {
        match sensitivity {
            SyscallSensitivity::Safe => Score::from_nanos(50_000_000),
            SyscallSensitivity::Sensitive => Score::from_nanos(400_000_000),
            SyscallSensitivity::Dangerous => Score::from_nanos(800_000_000),
            SyscallSensitivity::Irreversible => Score::from_nanos(1_000_000_000),
        }
    }

    /// How much trust is missing.
    pub fn normalized_trust_deficit(trust_score: Score) -> (s: Score)
        ensures
            s.nanos == score::unit_clamp(SCALE - trust_score.nanos),
    {
        unit_score(SCALE as i128 - trust_score.nanos as i128)
    }

    /// An anomaly score as a component.
    pub fn anomaly_component(anomaly_score: Score) -> (s: Score)
        ensures
            s.nanos == score::unit_clamp(anomaly_score.nanos as int),
    {
        anomaly_score.clamp_unit()
    }

    /// A volatility score as a component.
    pub fn volatility_component(volatility_score: Score) -> (s: Score)
        ensures
            s.nanos == score::unit_clamp(volatility_score.nanos as int),
    {
        volatility_score.clamp_unit()
    }

    /// A confidence in the origin as a component.
    pub fn provenance_component(provenance_confidence: Score) -> (s: Score)
        ensures
            s.nanos == score::unit_clamp(provenance_confidence.nanos as int),
    {
        provenance_confidence.clamp_unit()
    }

    /// The strength of a confirmation as a component.
    pub fn user_confirmation_component(confirmation_strength: Score) -> (s: Score)
        ensures
            s.nanos == score::unit_clamp(confirmation_strength.nanos as int),
    {
        confirmation_strength.clamp_unit()
    }

    /// The risk of an action that cannot be undone.
    pub fn irreversible_action_penalty(base_risk: Score) -> (s: Score)
        ensures
            s.nanos == score::unit_clamp(base_risk.nanos + 350_000_000),
    {
        unit_score(base_risk.nanos as i128 + 350_000_000)
    }

    /// The risk of an agent that tried to escalate.
    pub fn escalation_penalty(base_risk: Score, escalation_attempts: u32) -> (s: Score)
        ensures
            s.nanos == escalated_risk(base_risk.nanos as int, escalation_attempts as int),
    {
        let factor: i128 = 100 + 15 * (escalation_attempts as i128);
        proof {
            let b = base_risk.nanos as int;
            let f = factor as int;
            assert(-1_000_000_000_000_000_000_000_000_000_000 <= b * f
                <= 1_000_000_000_000_000_000_000_000_000_000) by (nonlinear_arith)
                requires
                    -9_223_372_036_854_775_808 <= b <= 9_223_372_036_854_775_807,
                    0 <= f <= 70_000_000_000,
            ;
        }
        let sum: i128 = base_risk.nanos as i128 * factor;
        unit_score(div_floor(sum, 100))
    }

    /// The confidence that trust, origin and anomalies give.
    pub fn confidence_score(
        trust_score: Score,
        provenance_confidence: Score,
        anomaly_score: Score,
    ) -> (s: Score)
        ensures
            s.nanos == score::unit_clamp(
                (trust_score.nanos * 50 + provenance_confidence.nanos * 35 - anomaly_score.nanos
                    * 15) / 100,
            ),
            s.nanos == confidence_by(
                trust_score.nanos as int,
                provenance_confidence.nanos as int,
                anomaly_score.nanos as int,
            ),
    {
        let sum: i128 = trust_score.nanos as i128 * 50 + provenance_confidence.nanos as i128 * 35
            - anomaly_score.nanos as i128 * 15;
        unit_score(div_floor(sum, 100))
    }
}

/// Every weighted risk lies in `[0, 1]`.
pub proof fn weighted_risk_in_range(w: RiskWeights, v: RiskVector)
    ensures
        0 <= weighted_risk(w, v) <= SCALE,
{
}

/// A penalty never lowers a risk that lies in `[0, 1]`.
pub proof fn penalties_never_lower(base: int, attempts: int)
    requires
        0 <= base <= SCALE,
        attempts >= 0,
    ensures
        escalated_risk(base, attempts) >= base,
        score::unit_clamp(base + 350_000_000) >= base,
{
    assert(base * (100 + 15 * attempts) >= base * 100) by (nonlinear_arith)
        requires
            base >= 0,
            attempts >= 0,
    ;
}

/// The value of a severity or of a sensitivity tells it.
pub proof fn values_tell_levels(s: IntentSeverity, c: SyscallSensitivity)
    ensures
        severity_level(s) == 100_000_000 <==> s == IntentSeverity::Low,
        severity_level(s) == 350_000_000 <==> s == IntentSeverity::Moderate,
        severity_level(s) == 700_000_000 <==> s == IntentSeverity::High,
        severity_level(s) == 1_000_000_000 <==> s == IntentSeverity::Critical,
        sensitivity_level(c) == 50_000_000 <==> c == SyscallSensitivity::Safe,
        sensitivity_level(c) == 400_000_000 <==> c == SyscallSensitivity::Sensitive,
        sensitivity_level(c) == 800_000_000 <==> c == SyscallSensitivity::Dangerous,
        sensitivity_level(c) == 1_000_000_000 <==> c == SyscallSensitivity::Irreversible,
{
}

/// Each attempt to escalate adds fifteen hundredths of the risk, up to one.
pub proof fn attempts_add_to_the_risk(base: int, attempts: int)
    requires
        0 <= base <= SCALE,
        attempts >= 0,
    ensures
        ({
            let hundredfold = score::clamp_int(
                100 * base + 15 * (base * attempts),
                0,
                100_000_000_000,
            );
            hundredfold - 100 < 100 * escalated_risk(base, attempts) <= hundredfold
        }),
        escalated_risk(base, 0) == base,
        base >= 1 && attempts >= 7 ==> escalated_risk(base, attempts) >= score::min_int(
            2 * base,
            1_000_000_000,
        ),
{
    assert(base * (100 + 15 * attempts) == 100 * base + 15 * (base * attempts)) by (nonlinear_arith);
    assert(base * (100 + 15 * 0) == 100 * base) by (nonlinear_arith);
    assert(attempts >= 7 && base >= 0 ==> base * attempts >= 7 * base) by (nonlinear_arith);
}

/// A component moves the weighted sum by its own weight: the five risks up, the
/// two confidences down.
pub proof fn components_move_by_their_weight(w: RiskWeights, v: RiskVector, x: Score)
    ensures
        weighted_sum(w, (RiskVector { intent_risk: x, ..v })) - weighted_sum(w, v) == (x.nanos
            - v.intent_risk.nanos) * w.intent_weight.nanos,
        weighted_sum(w, (RiskVector { syscall_risk: x, ..v })) - weighted_sum(w, v) == (x.nanos
            - v.syscall_risk.nanos) * w.syscall_weight.nanos,
        weighted_sum(w, (RiskVector { trust_deficit: x, ..v })) - weighted_sum(w, v) == (x.nanos
            - v.trust_deficit.nanos) * w.trust_weight.nanos,
        weighted_sum(w, (RiskVector { anomaly_risk: x, ..v })) - weighted_sum(w, v) == (x.nanos
            - v.anomaly_risk.nanos) * w.anomaly_weight.nanos,
        weighted_sum(w, (RiskVector { volatility_risk: x, ..v })) - weighted_sum(w, v) == (x.nanos
            - v.volatility_risk.nanos) * w.volatility_weight.nanos,
        weighted_sum(w, v) - weighted_sum(w, (RiskVector { user_confidence: x, ..v })) == (x.nanos
            - v.user_confidence.nanos) * w.user_confidence_weight.nanos,
        weighted_sum(w, v) - weighted_sum(w, (RiskVector { provenance_confidence: x, ..v })) == (
        x.nanos - v.provenance_confidence.nanos) * w.provenance_weight.nanos,
{
    differences(x.nanos as int, v.intent_risk.nanos as int, w.intent_weight.nanos as int);
    differences(x.nanos as int, v.syscall_risk.nanos as int, w.syscall_weight.nanos as int);
    differences(x.nanos as int, v.trust_deficit.nanos as int, w.trust_weight.nanos as int);
    differences(x.nanos as int, v.anomaly_risk.nanos as int, w.anomaly_weight.nanos as int);
    differences(x.nanos as int, v.volatility_risk.nanos as int, w.volatility_weight.nanos as int);
    differences(
        x.nanos as int,
        v.user_confidence.nanos as int,
        w.user_confidence_weight.nanos as int,
    );
    differences(
        x.nanos as int,
        v.provenance_confidence.nanos as int,
        w.provenance_weight.nanos as int,
    );
}

/// No component, no risk; and the risk is the weighted sum, rounded down, within
/// `[0, 1]`.
pub proof fn risk_is_the_weighted_sum(w: RiskWeights, v: RiskVector)
    ensures
        ({
            let sum = score::clamp_int(weighted_sum(w, v), 0, 1_000_000_000_000_000_000);
            sum - 1_000_000_000 < 1_000_000_000 * weighted_risk(w, v) <= sum
        }),
{
}

proof fn differences(x: int, y: int, w: int)
    ensures
        x * w - y * w == (x - y) * w,
{
    assert(x * w - y * w == (x - y) * w) by (nonlinear_arith);
}

/// Confidence by trust, origin and anomaly.
pub open spec fn confidence_by(trust: int, provenance: int, anomaly: int) -> int {
    score::unit_clamp((trust * 50 + provenance * 35 - anomaly * 15) / 100)
}

/// Trust gives half of the confidence and the origin seven twentieths; anomaly
/// takes three twentieths away.
pub proof fn anomaly_costs_confidence(trust: int, provenance: int, anomaly: int)
    requires
        0 <= trust <= 1_000_000_000,
        0 <= provenance <= 1_000_000_000,
        0 <= anomaly <= 1_000_000_000,
    ensures
        confidence_by(trust, 0, 0) == trust / 2,
        confidence_by(0, provenance, 0) == (7 * provenance) / 20,
        confidence_by(0, 0, anomaly) == 0,
        confidence_by(1_000_000_000, 1_000_000_000, 0) - confidence_by(
            1_000_000_000,
            1_000_000_000,
            1_000_000_000,
        ) == 150_000_000,
        confidence_by(trust, provenance, anomaly) <= confidence_by(trust, provenance, 0),
{
}

} // verus!
