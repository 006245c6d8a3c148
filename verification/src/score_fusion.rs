//! Fusion of risk components into a final score, with hard floors that no
//! history can undercut.

use vstd::prelude::*;
use vstd::string::StringExecFns;

use crate::permissions::Capability;
use crate::risk_scorer;
use crate::risk_scorer::ComponentScores;
use crate::risk_scorer::RiskLevel;
use crate::risk_scorer::RiskScore;
use crate::score;
use crate::score::div_floor;
use crate::score::unit_score;
use crate::score::Score;
use crate::score::SCALE;
use crate::text;

verus! {

/// Weights applied to each component during fusion. They sum to one.
#[derive(Clone, Copy, Debug, PartialEq, Eq, Structural)]
pub struct FusionWeights {
    /// Weight for the irreversibility component.
    pub irreversibility: Score,
    /// Weight for the scope (blast radius) component.
    pub scope: Score,
    /// Weight for the trust-context component.
    pub trust: Score,
    /// Weight for the time-anomaly component.
    pub time_anomaly: Score,
    /// Weight for the vibe (AI-generated-code) component.
    pub vibe: Score,
    /// Weight for the user-history component.
    pub user_history: Score,
    /// Weight for the pattern-match component.
    pub pattern: Score,
}

/// The sum of the weights, in billionths.
pub open spec fn weight_sum(w: FusionWeights) -> int {
    w.irreversibility.nanos + w.scope.nanos + w.trust.nanos + w.time_anomaly.nanos + w.vibe.nanos
        + w.user_history.nanos + w.pattern.nanos
}

/// Whether the weights sum to one within a thousandth.
pub open spec fn weights_valid(w: FusionWeights) -> bool {
    score::abs_int(weight_sum(w) - SCALE) < 1_000_000
}

/// The weights that hold unless configured otherwise.
pub open spec fn default_weights() -> FusionWeights {
    FusionWeights {
        irreversibility: Score { nanos: 250_000_000 },
        scope: Score { nanos: 200_000_000 },
        trust: Score { nanos: 200_000_000 },
        time_anomaly: Score { nanos: 100_000_000 },
        vibe: Score { nanos: 100_000_000 },
        user_history: Score { nanos: 100_000_000 },
        pattern: Score { nanos: 50_000_000 },
    }
}

impl Default for FusionWeights {
    fn default() -> (w: FusionWeights)
        ensures
            w == default_weights(),
    {
        FusionWeights {
            irreversibility: Score::from_nanos(250_000_000),
            scope: Score::from_nanos(200_000_000),
            trust: Score::from_nanos(200_000_000),
            time_anomaly: Score::from_nanos(100_000_000),
            vibe: Score::from_nanos(100_000_000),
            user_history: Score::from_nanos(100_000_000),
            pattern: Score::from_nanos(50_000_000),
        }
    }
}

impl FusionWeights {
    fn sum(&self) -> (s: i128)
        ensures
            s == weight_sum(*self),
    {
        self.irreversibility.nanos as i128 + self.scope.nanos as i128 + self.trust.nanos as i128
            + self.time_anomaly.nanos as i128 + self.vibe.nanos as i128
            + self.user_history.nanos as i128 + self.pattern.nanos as i128
    }

    /// Whether the weights sum to one within a thousandth.
    pub fn is_valid(&self) -> (r: bool)
        ensures
            r == weights_valid(*self),
    {
        let off: i128 = self.sum() - SCALE as i128;
        off < 1_000_000 && off > -1_000_000
    }
}

/// Errors returned by the fusion engine.
#[derive(Clone, Copy, Debug, PartialEq, Eq, Structural)]
pub enum FusionError {
    /// The supplied weights do not sum to one within tolerance.
    InvalidWeights {
        /// What they sum to.
        actual: Score,
    },
}

impl FusionError {
    /// The error as one line.
    pub fn to_text(&self) -> (t: String)
        ensures
            t@ == (match *self {
                FusionError::InvalidWeights { actual } =>
                "fusion weights do not sum to 1.0 (got "@ + score::score_digits(
                    actual.nanos as int,
                ) + ")"@,
            }),
    {
        match self {
            FusionError::InvalidWeights { actual } => {
                let mut t = String::from_str("fusion weights do not sum to 1.0 (got ");
                let digits = actual.to_text();
                t.append(digits.as_str());
                t.append(")");
                t
            },
        }
    }
}

/// A circumstance that enforces a minimum score. The list is closed.
#[derive(Clone, Copy, Debug, PartialEq, Eq, Structural, Hash)]
pub enum HardFloorTrigger {
    /// Action deletes a resource.
    Delete,
    /// Action is kernel-adjacent or kernel-level scope.
    KernelAdjacent,
    /// AI-generated unreviewed code is involved.
    AiUnreviewed,
    /// Combination of irreversible and kernel: always blocked.
    IrreversibleKernel,
}

/// The minimum score of a trigger, in billionths.
pub open spec fn floor_of(t: HardFloorTrigger) -> int {
    match t {
        HardFloorTrigger::Delete => 500_000_000,
        HardFloorTrigger::KernelAdjacent => 700_000_000,
        HardFloorTrigger::AiUnreviewed => 800_000_000,
        HardFloorTrigger::IrreversibleKernel => 1_000_000_000,
    }
}

/// The reason that a trigger gives.
pub open spec fn reason_of(t: HardFloorTrigger) -> Seq<char> {
    match t {
        HardFloorTrigger::Delete => "delete actions always >= 0.5 regardless of history"@,
        HardFloorTrigger::KernelAdjacent => "kernel-adjacent actions always >= 0.7"@,
        HardFloorTrigger::AiUnreviewed => "AI-generated unreviewed code always >= 0.8"@,
        HardFloorTrigger::IrreversibleKernel =>
        "irreversible + kernel-adjacent = mandatory block (1.0)"@,
    }
}

impl HardFloorTrigger {
    /// The minimum score this trigger enforces.
    pub fn floor(&self) -> (s: Score)
        ensures
            s.nanos == floor_of(*self),
    {
        match self {
            HardFloorTrigger::Delete => Score::from_nanos(500_000_000),
            HardFloorTrigger::KernelAdjacent => Score::from_nanos(700_000_000),
            HardFloorTrigger::AiUnreviewed => Score::from_nanos(800_000_000),
            HardFloorTrigger::IrreversibleKernel => Score::from_nanos(1_000_000_000),
        }
    }

    /// Human-readable reason for the audit log.
    pub fn reason(&self) -> (r: &'static str)
        ensures
            r@ == reason_of(*self),
    {
        match self {
            HardFloorTrigger::Delete => "delete actions always >= 0.5 regardless of history",
            HardFloorTrigger::KernelAdjacent => "kernel-adjacent actions always >= 0.7",
            HardFloorTrigger::AiUnreviewed => "AI-generated unreviewed code always >= 0.8",
            HardFloorTrigger::IrreversibleKernel =>
            "irreversible + kernel-adjacent = mandatory block (1.0)",
        }
    }
}

/// What is known of an action when its hard floors are decided.
#[derive(Clone, Debug)]
pub struct HardFloorAction {
    /// Whether the action deletes a resource.
    pub is_delete: bool,
    /// Whether the action is kernel-adjacent.
    pub is_kernel_adjacent: bool,
    /// Whether the action is irreversible.
    pub is_irreversible: bool,
    /// Whether the action involves AI-generated unreviewed code.
    pub is_ai_unreviewed: bool,
    /// Capabilities requested.
    pub capabilities: Vec<Capability>,
}

impl Default for HardFloorAction {
    fn default() -> (a: HardFloorAction)
        ensures
            triggers_of(a) == Seq::<HardFloorTrigger>::empty(),
            a.capabilities@ == Seq::<Capability>::empty(),
    {
        let a = HardFloorAction {
            is_delete: false,
            is_kernel_adjacent: false,
            is_irreversible: false,
            is_ai_unreviewed: false,
            capabilities: Vec::new(),
        };
        assert(triggers_of(a) =~= Seq::<HardFloorTrigger>::empty());
        a
    }
}

/// Whether an action meets a trigger.
pub open spec fn meets(a: HardFloorAction, t: HardFloorTrigger) -> bool {
    match t {
        HardFloorTrigger::Delete => a.is_delete,
        HardFloorTrigger::KernelAdjacent => a.is_kernel_adjacent,
        HardFloorTrigger::AiUnreviewed => a.is_ai_unreviewed,
        HardFloorTrigger::IrreversibleKernel => a.is_irreversible && a.is_kernel_adjacent,
    }
}

/// A sequence with one more trigger, where an action meets it.
pub open spec fn with_trigger(
    s: Seq<HardFloorTrigger>,
    a: HardFloorAction,
    t: HardFloorTrigger,
) -> Seq<HardFloorTrigger> {
    if meets(a, t) {
        s.push(t)
    } else {
        s
    }
}

/// The triggers that an action meets, from the highest floor down.
pub open spec fn triggers_of(a: HardFloorAction) -> Seq<HardFloorTrigger> {
    let t0 = with_trigger(Seq::empty(), a, HardFloorTrigger::IrreversibleKernel);
    let t1 = with_trigger(t0, a, HardFloorTrigger::AiUnreviewed);
    let t2 = with_trigger(t1, a, HardFloorTrigger::KernelAdjacent);
    with_trigger(t2, a, HardFloorTrigger::Delete)
}

impl HardFloorAction {
    /// The triggers that this action meets, from the highest floor down.
    pub fn triggers(&self) -> (r: Vec<HardFloorTrigger>)
        ensures
            r@ == triggers_of(*self),
    {
        let mut out: Vec<HardFloorTrigger> = Vec::new();
        if self.is_irreversible && self.is_kernel_adjacent {
            out.push(HardFloorTrigger::IrreversibleKernel);
        }
        if self.is_ai_unreviewed {
            out.push(HardFloorTrigger::AiUnreviewed);
        }
        if self.is_kernel_adjacent {
            out.push(HardFloorTrigger::KernelAdjacent);
        }
        if self.is_delete {
            out.push(HardFloorTrigger::Delete);
        }
        out
    }
}

/// The weighted sum of components, in billionths: risk signals count for, user
/// history and familiar patterns against.
pub open spec fn fused_raw(w: FusionWeights, c: ComponentScores) -> int {
    (w.irreversibility.nanos * c.irreversibility.nanos + w.scope.nanos * c.scope.nanos
        + w.trust.nanos * c.trust_context.nanos + w.time_anomaly.nanos * c.time_anomaly.nanos
        + w.vibe.nanos * c.vibe_flag.nanos - w.user_history.nanos * c.user_history.nanos
        - w.pattern.nanos * c.pattern_match.nanos) / SCALE as int
}

/// The floor that raises a score, where one does: the highest that the action
/// meets.
pub open spec fn raising_floor(score: int, a: HardFloorAction) -> Option<HardFloorTrigger> {
    if triggers_of(a).len() > 0 && score < floor_of(triggers_of(a)[0]) {
        Some(triggers_of(a)[0])
    } else {
        None
    }
}

/// A score after the hard floors of an action.
pub open spec fn floored_score(score: int, a: HardFloorAction) -> int {
    match raising_floor(score, a) {
        Some(t) => floor_of(t),
        None => score,
    }
}

/// The fusion engine.
#[derive(Clone, Copy, Debug, PartialEq, Eq, Structural)]
pub struct ScoreFusion {
    /// The fusion weights.
    pub weights: FusionWeights,
}

impl Default for ScoreFusion {
    fn default() -> (f: ScoreFusion)
        ensures
            f.weights == default_weights(),
    {
        ScoreFusion { weights: FusionWeights::default() }
    }
}

impl ScoreFusion {
    /// An engine with explicit weights; weights that do not sum to one are
    /// refused. The reported sum is kept within the range of scores.
    pub fn with_weights(weights: FusionWeights) -> (r: Result<ScoreFusion, FusionError>)
        ensures
            match r {
                Ok(f) => weights_valid(weights) && f.weights == weights,
                Err(FusionError::InvalidWeights { actual }) => !weights_valid(weights)
                    && actual.nanos == score::clamp_int(
                    weight_sum(weights),
                    i64::MIN as int,
                    i64::MAX as int,
                ),
            },
    {
        if !weights.is_valid() {
            let sum: i128 = weights.sum();
            let nanos: i64 = if sum < i64::MIN as i128 {
                i64::MIN
            } else if sum > i64::MAX as i128 {
                i64::MAX
            } else {
                sum as i64
            };
            return Err(FusionError::InvalidWeights { actual: Score::from_nanos(nanos) });
        }
        Ok(ScoreFusion { weights })
    }

    /// The weighted score of components, without hard floors.
    pub fn fuse(&self, components: ComponentScores) -> (r: RiskScore)
        ensures
            r.score.nanos == score::unit_clamp(fused_raw(self.weights, components)),
            r.level == risk_scorer::level_of(r.score.nanos as int),
            r.explanation@ == Seq::<char>::empty(),
            r.components == components,
    {
        let w = self.weights;
        let irreversibility = score::product(w.irreversibility, components.irreversibility);
        let scope = score::product(w.scope, components.scope);
        let trust = score::product(w.trust, components.trust_context);
        let time = score::product(w.time_anomaly, components.time_anomaly);
        let vibe = score::product(w.vibe, components.vibe_flag);
        let history = score::product(w.user_history, components.user_history);
        let pattern = score::product(w.pattern, components.pattern_match);
        let units: i128 = irreversibility.0 + scope.0 + trust.0 + time.0 + vibe.0 - history.0
            - pattern.0;
        let rest: i128 = irreversibility.1 + scope.1 + trust.1 + time.1 + vibe.1 - history.1
            - pattern.1;
        proof {
            score::units_divide_out(units as int, rest as int);
        }
        let score = unit_score(units + div_floor(rest, SCALE as i128));
        RiskScore {
            score,
            level: RiskLevel::from_score(score),
            explanation: String::new(),
            components,
        }
    }

    /// A raw score restricted to `[0, 1]`.
    pub fn clamp(score: Score) -> (s: Score)
        ensures
            s.nanos == score::unit_clamp(score.nanos as int),
    {
        score.clamp_unit()
    }

    /// Raises a score to the highest hard floor that its action meets.
    pub fn apply_hard_floors(score: RiskScore, action: &HardFloorAction) -> (r: RiskScore)
        ensures
            r.score.nanos == floored_score(score.score.nanos as int, *action),
            r.level == risk_scorer::level_of(r.score.nanos as int),
            r.explanation == score.explanation,
            r.components == (ComponentScores {
                hard_floor_applied: r.components.hard_floor_applied,
                hard_floor_reason: r.components.hard_floor_reason,
                ..score.components
            }),
            r.components.hard_floor_applied == raising_floor(
                score.score.nanos as int,
                *action,
            ) is Some,
            text::opt_text(r.components.hard_floor_reason) == (match raising_floor(
                score.score.nanos as int,
                *action,
            ) {
                Some(t) => Some(reason_of(t)),
                None => None,
            }),
    {
        let mut out = score;
        let mut floor_applied: bool = false;
        let mut floor_reason: Option<String> = None;
        let triggers = action.triggers();
        let ghost start = out.score.nanos as int;
        proof {
            floors_descend(*action);
        }
        let mut i: usize = 0;
        while i < triggers.len()
            invariant
                i <= triggers@.len(),
                triggers@ == triggers_of(*action),
                forall|a: int, b: int|
                    0 <= a <= b < triggers@.len() ==> floor_of(#[trigger] triggers@[a]) >= floor_of(
                        #[trigger] triggers@[b],
                    ),
                start == score.score.nanos,
                out.explanation == score.explanation,
                out.components == score.components,
                i == 0 ==> out.score.nanos == start && !floor_applied && floor_reason is None,
                i > 0 ==> out.score.nanos == floored_score(start, *action) && floor_applied
                    == raising_floor(start, *action) is Some && text::opt_text(floor_reason) == (
                match raising_floor(start, *action) {
                    Some(t) => Some(reason_of(t)),
                    None => None,
                }),
            decreases triggers@.len() - i,
        {
            let trigger = triggers[i];
            assert(floor_of(triggers@[0]) >= floor_of(triggers@[i as int]));
            if out.score.nanos < trigger.floor().nanos {
                out.score = trigger.floor();
                floor_applied = true;
                floor_reason = Some(trigger.reason().to_owned());
            }
            i += 1;
        }
        out.level = RiskLevel::from_score(out.score);
        out.components.hard_floor_applied = floor_applied;
        out.components.hard_floor_reason = floor_reason;
        out
    }
}

/// The triggers of an action stand from the highest floor down.
proof fn floors_descend(a: HardFloorAction)
    ensures
        forall|i: int, j: int|
            0 <= i <= j < triggers_of(a).len() ==> floor_of(#[trigger] triggers_of(a)[i])
                >= floor_of(#[trigger] triggers_of(a)[j]),
{
}

/// No score of an action lies under a floor that the action meets, and no floor
/// lowers a score.
pub proof fn floors_hold(score: int, a: HardFloorAction, t: HardFloorTrigger)
    ensures
        meets(a, t) ==> floored_score(score, a) >= floor_of(t),
        floored_score(score, a) >= score,
        floored_score(score, a) == score || exists|u: HardFloorTrigger| #[trigger]
            meets(a, u) && floored_score(score, a) == floor_of(u),
{
    let ts = triggers_of(a);
    if ts.len() > 0 {
        assert(meets(a, ts[0]));
    }
}

/// The default weights sum to one.
pub proof fn default_weights_sum_to_one()
    ensures
        weight_sum(default_weights()) == SCALE,
        weights_valid(default_weights()),
{
}

/// Fusing with the default weights is how actions are scored before their
/// floors.
pub proof fn fusion_agrees_with_scoring(
    a: risk_scorer::ProposedAction,
    c: ComponentScores,
)
    requires
        c.irreversibility.nanos == a.irreversibility.level(),
        c.scope.nanos == a.scope.level(),
        c.trust_context.nanos == a.trust_context.level(),
        c.time_anomaly.nanos == a.time_anomaly.level(),
        c.vibe_flag.nanos == a.vibe_flag.level(),
        c.user_history.nanos == a.user_history.level(),
        c.pattern_match.nanos == a.pattern_match.level(),
    ensures
        fused_raw(default_weights(), c) == risk_scorer::raw_risk(a),
{
}

/// The floors of a fused score, by the marks of the action alone: an
/// irreversible one next to the kernel is at one, unreviewed generated code at
/// 0.8 at least, anything next to the kernel at 0.7, a deletion at 0.5. Without
/// a mark the score stands, and so it does where it is above the floor.
pub proof fn marks_set_the_floor(score: int, a: HardFloorAction)
    requires
        0 <= score <= SCALE,
    ensures
        a.is_irreversible && a.is_kernel_adjacent ==> floored_score(score, a) == 1_000_000_000,
        a.is_ai_unreviewed ==> floored_score(score, a) >= 800_000_000,
        a.is_kernel_adjacent ==> floored_score(score, a) >= 700_000_000,
        a.is_delete ==> floored_score(score, a) >= 500_000_000,
        floored_score(score, a) != score ==> {
            ||| floored_score(score, a) == 1_000_000_000 && a.is_irreversible
                && a.is_kernel_adjacent
            ||| floored_score(score, a) == 800_000_000 && a.is_ai_unreviewed
            ||| floored_score(score, a) == 700_000_000 && a.is_kernel_adjacent
            ||| floored_score(score, a) == 500_000_000 && a.is_delete
        },
        !a.is_kernel_adjacent && !a.is_ai_unreviewed && !a.is_delete ==> floored_score(score, a)
            == score && triggers_of(a).len() == 0,
{
    floors_hold(score, a, HardFloorTrigger::IrreversibleKernel);
    floors_hold(score, a, HardFloorTrigger::AiUnreviewed);
    floors_hold(score, a, HardFloorTrigger::KernelAdjacent);
    floors_hold(score, a, HardFloorTrigger::Delete);
}

/// Every floor tells its trigger, and gives its reason.
pub proof fn floors_tell_their_trigger(t: HardFloorTrigger)
    ensures
        floor_of(t) == 500_000_000 <==> t == HardFloorTrigger::Delete,
        floor_of(t) == 700_000_000 <==> t == HardFloorTrigger::KernelAdjacent,
        floor_of(t) == 800_000_000 <==> t == HardFloorTrigger::AiUnreviewed,
        floor_of(t) == 1_000_000_000 <==> t == HardFloorTrigger::IrreversibleKernel,
        floor_of(t) == 500_000_000 ==> reason_of(t)
            == "delete actions always >= 0.5 regardless of history"@,
        floor_of(t) == 700_000_000 ==> reason_of(t) == "kernel-adjacent actions always >= 0.7"@,
        floor_of(t) == 800_000_000 ==> reason_of(t) == "AI-generated unreviewed code always >= 0.8"@,
        floor_of(t) == 1_000_000_000 ==> reason_of(t)
            == "irreversible + kernel-adjacent = mandatory block (1.0)"@,
{
}

/// Weights count as valid where they sum to one within a thousandth.
pub proof fn weights_sum_to_one(w: FusionWeights)
    ensures
        weights_valid(w) <==> 999_000_000 < w.irreversibility.nanos + w.scope.nanos + w.trust.nanos
            + w.time_anomaly.nanos + w.vibe.nanos + w.user_history.nanos + w.pattern.nanos
            < 1_001_000_000,
{
}

/// Without weights nothing is scored; with one weight of one, the score is that
/// component, and it is taken off where the component speaks for the user.
pub proof fn single_weights_pick_a_component(w: FusionWeights, c: ComponentScores)
    requires
        w.irreversibility.nanos == 0 || w.irreversibility.nanos == 1_000_000_000,
        w.scope.nanos == 0 || w.scope.nanos == 1_000_000_000,
        w.trust.nanos == 0 || w.trust.nanos == 1_000_000_000,
        w.time_anomaly.nanos == 0 || w.time_anomaly.nanos == 1_000_000_000,
        w.vibe.nanos == 0 || w.vibe.nanos == 1_000_000_000,
        w.user_history.nanos == 0 || w.user_history.nanos == 1_000_000_000,
        w.pattern.nanos == 0 || w.pattern.nanos == 1_000_000_000,
    ensures
        fused_raw(w, c) == (if w.irreversibility.nanos == 0 {
            0
        } else {
            c.irreversibility.nanos as int
        }) + (if w.scope.nanos == 0 {
            0
        } else {
            c.scope.nanos as int
        }) + (if w.trust.nanos == 0 {
            0
        } else {
            c.trust_context.nanos as int
        }) + (if w.time_anomaly.nanos == 0 {
            0
        } else {
            c.time_anomaly.nanos as int
        }) + (if w.vibe.nanos == 0 {
            0
        } else {
            c.vibe_flag.nanos as int
        }) - (if w.user_history.nanos == 0 {
            0
        } else {
            c.user_history.nanos as int
        }) - (if w.pattern.nanos == 0 {
            0
        } else {
            c.pattern_match.nanos as int
        }),
{
    zero_or_one(w.irreversibility.nanos as int, c.irreversibility.nanos as int);
    zero_or_one(w.scope.nanos as int, c.scope.nanos as int);
    zero_or_one(w.trust.nanos as int, c.trust_context.nanos as int);
    zero_or_one(w.time_anomaly.nanos as int, c.time_anomaly.nanos as int);
    zero_or_one(w.vibe.nanos as int, c.vibe_flag.nanos as int);
    zero_or_one(w.user_history.nanos as int, c.user_history.nanos as int);
    zero_or_one(w.pattern.nanos as int, c.pattern_match.nanos as int);
}

proof fn zero_or_one(w: int, x: int)
    requires
        w == 0 || w == 1_000_000_000,
    ensures
        w == 0 ==> w * x == 0,
        w == 1_000_000_000 ==> w * x == 1_000_000_000 * x,
{
    assert(w == 0 ==> w * x == 0) by (nonlinear_arith);
}

} // verus!
