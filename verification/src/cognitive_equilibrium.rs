//! Balances AI helpfulness against user agency.
//!
//! `net_benefit = helpfulness - agency_loss * agency_weight`; an action is
//! recommended only where that is positive.

use vstd::prelude::*;

use crate::clock::Timestamp;
use crate::score;
use crate::score::div_floor;
use crate::score::Score;
use crate::score::SCALE;
use crate::window;

verus! {

/// An agent identifier.
pub type AgentId = String;

/// Number of feedback events that are kept.
pub const HISTORY_CAPACITY: usize = 256;

/// By how much one feedback moves a weight, in billionths.
pub const NUDGE: i64 = 10_000_000;

/// An action proposed for equilibrium evaluation.
#[derive(Clone, Debug)]
pub struct EquilibriumAction {
    /// Agent proposing the action.
    pub agent: AgentId,
    /// Action name (e.g. "open_file", "refactor_function").
    pub action: String,
    /// Estimated user effort saved by this action, in `[0, 1]`.
    pub estimated_helpfulness: Score,
    /// Estimated loss of user agency, skill or attention, in `[0, 1]`.
    pub estimated_agency_loss: Score,
    /// Whether the user has explicitly requested this action.
    pub user_requested: bool,
}

/// The result of an equilibrium evaluation.
#[derive(Clone, Copy, Debug, PartialEq, Eq, Structural)]
pub struct EquilibriumScore {
    /// Helpfulness.
    pub helpfulness: Score,
    /// Agency loss.
    pub agency_loss: Score,
    /// Helpfulness less the weighted agency loss.
    pub net_benefit: Score,
    /// The recommendation derived from the net benefit.
    pub recommendation: Recommendation,
}

/// What HAL should do with the action.
#[derive(Clone, Copy, Debug, PartialEq, Eq, Structural)]
pub enum Recommendation {
    /// Net benefit is clearly positive: act silently.
    Act,
    /// Net benefit is positive but small: act and notify the user.
    ActWithNotice,
    /// Net benefit is near zero: ask the user before acting.
    Ask,
    /// Net benefit is negative: abstain from the action.
    Abstain,
}

/// Feedback used to recalibrate the weights.
#[derive(Clone, Debug)]
pub enum UserFeedback {
    /// User explicitly accepted a proposed action.
    Accepted {
        /// Action that was accepted.
        action: String,
        /// When the feedback was received.
        at: Timestamp,
    },
    /// User explicitly rejected a proposed action.
    Rejected {
        /// Action that was rejected.
        action: String,
        /// When the feedback was received.
        at: Timestamp,
    },
    /// User undid an action HAL took.
    Undid {
        /// Action that was undone.
        action: String,
        /// When the feedback was received.
        at: Timestamp,
    },
    /// User overrode HAL's recommendation (either direction).
    Overrode {
        /// Action that was overridden.
        action: String,
        /// Whether HAL had recommended acting.
        hal_recommended_act: bool,
        /// When the feedback was received.
        at: Timestamp,
    },
}

/// Whether feedback raises the weight of helpfulness: acceptance and overrides
/// do.
pub open spec fn favors_help(f: UserFeedback) -> bool {
    f is Accepted || f is Overrode
}

/// Whether feedback raises the weight of agency: everything but acceptance
/// does.
pub open spec fn favors_agency(f: UserFeedback) -> bool {
    f is Rejected || f is Undid || f is Overrode
}

/// The equilibrium evaluator.
#[derive(Debug)]
pub struct CognitiveEquilibrium {
    /// Weight applied to the helpfulness term.
    pub helpfulness_weight: Score,
    /// Weight applied to the agency-loss term.
    pub agency_weight: Score,
    /// Recent feedback events, oldest first.
    pub history: Vec<UserFeedback>,
}

/// The helpfulness that counts, in billionths: the full one, at least, where
/// the user asked for the action.
pub open spec fn helpfulness_of(a: EquilibriumAction) -> int {
    if a.user_requested {
        score::max_int(SCALE as int, a.estimated_helpfulness.nanos as int)
    } else {
        a.estimated_helpfulness.nanos as int
    }
}

/// The agency loss that counts, in billionths: none where the user asked for
/// the action.
pub open spec fn agency_loss_of(a: EquilibriumAction) -> int {
    if a.user_requested {
        0
    } else {
        a.estimated_agency_loss.nanos as int
    }
}

/// The net benefit, in billionths of billionths.
pub open spec fn exact_benefit(a: EquilibriumAction, agency_weight: int) -> int {
    helpfulness_of(a) * SCALE - agency_loss_of(a) * agency_weight
}

/// The recommendation for a net benefit in billionths of billionths.
pub open spec fn recommended(benefit: int) -> Recommendation {
    if benefit > 500_000_000 * SCALE {
        Recommendation::Act
    } else if benefit > 0 {
        Recommendation::ActWithNotice
    } else if benefit > -250_000_000 * SCALE {
        Recommendation::Ask
    } else {
        Recommendation::Abstain
    }
}

impl CognitiveEquilibrium {
    /// An evaluator with the default weights.
    pub fn new() -> (e: CognitiveEquilibrium)
        ensures
            e.helpfulness_weight.nanos == 1_000_000_000,
            e.agency_weight.nanos == 1_500_000_000,
            e.history@ == Seq::<UserFeedback>::empty(),
    {
        CognitiveEquilibrium {
            helpfulness_weight: Score::from_nanos(1_000_000_000),
            agency_weight: Score::from_nanos(1_500_000_000),
            history: Vec::new(),
        }
    }

    /// Evaluates an action. The reported net benefit is rounded down to
    /// billionths and kept within the range of scores.
    pub fn evaluate(&self, action: &EquilibriumAction) -> (s: EquilibriumScore)
        ensures
            s.helpfulness.nanos == helpfulness_of(*action),
            s.agency_loss.nanos == agency_loss_of(*action),
            s.net_benefit.nanos == score::clamp_int(
                exact_benefit(*action, self.agency_weight.nanos as int) / SCALE as int,
                i64::MIN as int,
                i64::MAX as int,
            ),
            s.recommendation == recommended(
                exact_benefit(*action, self.agency_weight.nanos as int),
            ),
    {
        let helpfulness = if action.user_requested {
            Score::from_nanos(score::max_i64(SCALE, action.estimated_helpfulness.nanos))
        } else {
            action.estimated_helpfulness
        };
        let agency_loss = if action.user_requested {
            Score::zero()
        } else {
            action.estimated_agency_loss
        };
        proof {
            let l = agency_loss.nanos as int;
            let w = self.agency_weight.nanos as int;
            assert(-85_070_591_730_234_615_865_843_651_857_942_052_864 <= l * w
                <= 85_070_591_730_234_615_865_843_651_857_942_052_864) by (nonlinear_arith)
                requires
                    -9_223_372_036_854_775_808 <= l <= 9_223_372_036_854_775_807,
                    -9_223_372_036_854_775_808 <= w <= 9_223_372_036_854_775_807,
            ;
        }
        let benefit: i128 = helpfulness.nanos as i128 * SCALE as i128 - agency_loss.nanos as i128
            * self.agency_weight.nanos as i128;
        let q: i128 = div_floor(benefit, SCALE as i128);
        let net_benefit = if q < i64::MIN as i128 {
            Score::from_nanos(i64::MIN)
        } else if q > i64::MAX as i128 {
            Score::from_nanos(i64::MAX)
        } else {
            Score::from_nanos(q as i64)
        };
        let recommendation = if benefit > 500_000_000_000_000_000 {
            Recommendation::Act
        } else if benefit > 0 {
            Recommendation::ActWithNotice
        } else if benefit > -250_000_000_000_000_000 {
            Recommendation::Ask
        } else {
            Recommendation::Abstain
        };
        EquilibriumScore { helpfulness, agency_loss, net_benefit, recommendation }
    }

    /// Raises weights by one nudge, as the feedback says, and keeps the
    /// feedback: acceptance raises that of helpfulness, rejection and undoing
    /// that of agency, and an override raises both.
    pub fn recalibrate(&mut self, feedback: UserFeedback)
        requires
            favors_help(feedback) ==> old(self).helpfulness_weight.nanos <= i64::MAX - NUDGE,
            favors_agency(feedback) ==> old(self).agency_weight.nanos <= i64::MAX - NUDGE,
        ensures
            final(self).helpfulness_weight.nanos == old(self).helpfulness_weight.nanos + (
            if favors_help(feedback) {
                NUDGE as int
            } else {
                0
            }),
            final(self).agency_weight.nanos == old(self).agency_weight.nanos + (if favors_agency(
                feedback,
            ) {
                NUDGE as int
            } else {
                0
            }),
            final(self).history@ == window::keep_last(
                old(self).history@.push(feedback),
                HISTORY_CAPACITY as nat,
            ),
    {
        let (help, agency) = match &feedback {
            UserFeedback::Accepted { action: _, at: _ } => (true, false),
            UserFeedback::Rejected { action: _, at: _ } => (false, true),
            UserFeedback::Undid { action: _, at: _ } => (false, true),
            UserFeedback::Overrode { action: _, hal_recommended_act: _, at: _ } => (true, true),
        };
        if help {
            self.helpfulness_weight = Score::from_nanos(self.helpfulness_weight.nanos + NUDGE);
        }
        if agency {
            self.agency_weight = Score::from_nanos(self.agency_weight.nanos + NUDGE);
        }
        let mut kept: Vec<UserFeedback> = Vec::new();
        std::mem::swap(&mut kept, &mut self.history);
        kept.push(feedback);
        let ghost all = kept@;
        let ghost mut gone: int = 0;
        assert(all.skip(0) =~= all);
        while kept.len() > HISTORY_CAPACITY
            invariant
                0 <= gone <= all.len(),
                kept@ == all.skip(gone),
                gone > 0 ==> kept@.len() >= HISTORY_CAPACITY,
            decreases kept@.len(),
        {
            let _ = kept.remove(0);
            proof {
                assert(kept@ =~= all.skip(gone + 1));
                gone = gone + 1;
            }
        }
        assert(kept@ =~= window::keep_last(all, HISTORY_CAPACITY as nat));
        self.history = kept;
    }

    /// Number of feedback events kept.
    pub fn history_len(&self) -> (n: usize)
        ensures
            n == self.history@.len(),
    {
        self.history.len()
    }
}

impl Default for CognitiveEquilibrium {
    fn default() -> (e: CognitiveEquilibrium)
        ensures
            e.helpfulness_weight.nanos == 1_000_000_000,
            e.agency_weight.nanos == 1_500_000_000,
            e.history@ == Seq::<UserFeedback>::empty(),
    {
        CognitiveEquilibrium::new()
    }
}

/// Errors returned by the equilibrium module.
#[derive(Clone, Copy, Debug, PartialEq, Eq, Structural)]
pub enum CognitiveEquilibriumError {
    /// Weights drifted out of their valid range during recalibration.
    WeightOutOfRange {
        /// Current helpfulness weight.
        helpfulness: Score,
        /// Current agency weight.
        agency: Score,
    },
}

/// An action is recommended exactly when its net benefit is positive.
pub proof fn acts_iff_beneficial(benefit: int)
    ensures
        (recommended(benefit) == Recommendation::Act || recommended(benefit)
            == Recommendation::ActWithNotice) <==> benefit > 0,
{
}

/// What the user asked for is always done silently.
pub proof fn requests_are_respected(a: EquilibriumAction, agency_weight: int)
    requires
        a.user_requested,
    ensures
        recommended(exact_benefit(a, agency_weight)) == Recommendation::Act,
{
    let h = helpfulness_of(a);
    assert(h * SCALE >= SCALE * SCALE) by (nonlinear_arith)
        requires
            h >= SCALE,
            SCALE == 1_000_000_000,
    ;
    assert(agency_loss_of(a) * agency_weight == 0) by (nonlinear_arith)
        requires
            agency_loss_of(a) == 0,
    ;
}

/// Feedback is kept up to a fixed number of events.
pub proof fn history_is_bounded(h: Seq<UserFeedback>, f: UserFeedback)
    ensures
        window::keep_last(h.push(f), HISTORY_CAPACITY as nat).len() <= HISTORY_CAPACITY,
{
}

/// What a benefit leads to: above one half to act, above nothing to act and
/// say so, above minus a quarter to ask, and at most that to abstain.
pub proof fn recommendations_by_benefit(benefit: int)
    ensures
        recommended(benefit) == Recommendation::Act <==> 2 * benefit > 1_000_000_000_000_000_000,
        recommended(benefit) == Recommendation::ActWithNotice <==> 0 < benefit && 2 * benefit
            <= 1_000_000_000_000_000_000,
        recommended(benefit) == Recommendation::Ask <==> benefit <= 0 && 4 * benefit
            > -1_000_000_000_000_000_000,
        recommended(benefit) == Recommendation::Abstain <==> 4 * benefit
            <= -1_000_000_000_000_000_000,
{
}

/// An action nobody asked for is worth its help less its weighted loss of
/// agency; where no agency is lost, its help alone.
pub proof fn loss_of_agency_is_weighed(a: EquilibriumAction, agency_weight: int)
    requires
        !a.user_requested,
    ensures
        exact_benefit(a, agency_weight) == a.estimated_helpfulness.nanos * 1_000_000_000
            - a.estimated_agency_loss.nanos * agency_weight,
        a.estimated_agency_loss.nanos == 0 ==> exact_benefit(a, agency_weight)
            == a.estimated_helpfulness.nanos * 1_000_000_000,
        exact_benefit(a, agency_weight) - exact_benefit(a, agency_weight + 1)
            == a.estimated_agency_loss.nanos,
{
    let l = a.estimated_agency_loss.nanos as int;
    assert(l == 0 ==> l * agency_weight == 0) by (nonlinear_arith);
    assert(l * (agency_weight + 1) == l * agency_weight + l) by (nonlinear_arith);
}

/// Feedback moves the weights by a hundredth; accepting speaks for help,
/// rejecting and undoing for agency, overriding for both. Two hundred and
/// fifty-six answers are kept.
pub proof fn feedback_speaks_for(f: UserFeedback)
    ensures
        NUDGE * 100 == 1_000_000_000,
        HISTORY_CAPACITY == 256,
        f is Accepted ==> favors_help(f) && !favors_agency(f),
        f is Overrode ==> favors_help(f) && favors_agency(f),
        f is Rejected ==> !favors_help(f) && favors_agency(f),
        f is Undid ==> !favors_help(f) && favors_agency(f),
        !(f is Accepted) && !(f is Overrode) && !(f is Rejected) && !(f is Undid) ==> !favors_help(
            f,
        ) && !favors_agency(f),
{
}

} // verus!
