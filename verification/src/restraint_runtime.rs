//! Enforces the restraint model at run time, gating the cognitive preloader.
//!
//! "Stay invisible when in doubt": whatever the model holds back is
//! suppressed.

use vstd::prelude::*;

use crate::restraint_model;
use crate::restraint_model::ContextPrediction;
use crate::restraint_model::DomainAcceptance;
use crate::restraint_model::PreloadDecision;
use crate::restraint_model::RestraintModel;
use crate::score::Score;
use crate::table::Table;
use crate::text;

verus! {

/// The confidence that a prediction has to exceed, in billionths.
pub const CONFIDENCE_THRESHOLD: i64 = 850_000_000;

/// The runtime's decision for a prediction.
#[derive(Clone, Copy, Debug, PartialEq, Eq, Structural)]
pub enum RestraintDecision {
    /// Surface the prediction (preload the context).
    Allow,
    /// Silently hold the prediction back. The user is not notified.
    Suppress,
    /// Ask the user whether to surface this kind of prediction.
    AskUser,
}

impl RestraintDecision {
    /// Whether this decision allows the prediction to surface.
    pub fn is_allow(&self) -> (r: bool)
        ensures
            r == (*self == RestraintDecision::Allow),
    {
        *self == RestraintDecision::Allow
    }
}

/// Per-action gate state, kept across evaluations.
#[derive(Clone, Copy, Debug, PartialEq, Eq, Structural)]
pub struct GateState {
    /// Number of times this action has been allowed.
    pub allow_count: u64,
    /// Number of times this action has been suppressed.
    pub suppress_count: u64,
    /// Number of times the user has been asked about this action.
    pub ask_count: u64,
    /// Whether the user has explicitly disabled this action.
    pub user_disabled: bool,
}

/// The restraint state of an action that was never seen.
pub open spec fn fresh_gate() -> GateState {
    GateState { allow_count: 0, suppress_count: 0, ask_count: 0, user_disabled: false }
}

impl Default for GateState {
    fn default() -> (g: GateState)
        ensures
            g == fresh_gate(),
    {
        GateState { allow_count: 0, suppress_count: 0, ask_count: 0, user_disabled: false }
    }
}

/// A prediction together with the key of its action.
#[derive(Clone, Debug)]
pub struct Prediction {
    /// The underlying prediction.
    pub inner: ContextPrediction,
    /// Stable action key for gate-state lookup (e.g. "open_workspace").
    pub action_key: String,
}

impl Prediction {
    /// The confidence of the prediction.
    pub fn confidence(&self) -> (s: Score)
        ensures
            s == self.inner.confidence,
    {
        self.inner.confidence
    }
}

/// The restraint runtime: per-action gate states and the domain acceptance.
#[derive(Debug)]
pub struct RestraintRuntime {
    /// Per-action gate state, by action key.
    gates: Table<String, GateState>,
    /// Domain acceptance.
    acceptance: DomainAcceptance,
}

impl Default for RestraintRuntime {
    fn default() -> (r: RestraintRuntime)
        ensures
            r.gate_states()@ == Map::<Seq<char>, GateState>::empty(),
            r.accepted().counts()@ == Map::<Seq<char>, u32>::empty(),
            r.accepted().locks()@ == Map::<Seq<char>, ()>::empty(),
    {
        RestraintRuntime { gates: Table::new(), acceptance: DomainAcceptance::default() }
    }
}

impl RestraintRuntime {
    /// The restraint state by action.
    pub closed spec fn gate_states(&self) -> Table<String, GateState> {
        self.gates
    }

    /// The acceptance of domains.
    pub closed spec fn accepted(&self) -> DomainAcceptance {
        self.acceptance
    }

    /// The restraint state of an action.
    pub open spec fn gate(&self, action_key: Seq<char>) -> GateState {
        if self.gate_states()@.dom().contains(action_key) {
            self.gate_states()@[action_key]
        } else {
            fresh_gate()
        }
    }

    /// An empty runtime.
    pub fn new() -> (r: RestraintRuntime)
        ensures
            r.gate_states()@ == Map::<Seq<char>, GateState>::empty(),
            r.accepted().counts()@ == Map::<Seq<char>, u32>::empty(),
            r.accepted().locks()@ == Map::<Seq<char>, ()>::empty(),
    {
        RestraintRuntime::default()
    }

    /// What the runtime makes of the model's decision on a prediction with a
    /// given confidence.
    pub fn decide(confidence: Score, model: &PreloadDecision) -> (d: RestraintDecision)
        ensures
            d == (if confidence.nanos > CONFIDENCE_THRESHOLD && model is Preload {
                RestraintDecision::Allow
            } else {
                RestraintDecision::Suppress
            }),
    {
        if confidence.nanos > CONFIDENCE_THRESHOLD && model.is_preload() {
            RestraintDecision::Allow
        } else {
            RestraintDecision::Suppress
        }
    }

    /// Evaluates a prediction: it surfaces exactly when the restraint model
    /// holds nothing against it.
    pub fn evaluate(&self, prediction: &Prediction) -> (d: RestraintDecision)
        ensures
            d == (if restraint_model::hold_reason(
                prediction.inner,
                restraint_model::lowered(prediction.inner.file_paths@),
                text::lowercase(prediction.inner.predicted_action@),
                self.accepted(),
            ) is None {
                RestraintDecision::Allow
            } else {
                RestraintDecision::Suppress
            }),
    {
        let model = RestraintModel::should_preload(&prediction.inner, &self.acceptance);
        RestraintRuntime::decide(prediction.confidence(), &model)
    }

    fn gate_or_fresh(&self, action_key: &str) -> (g: GateState)
        ensures
            g == self.gate(action_key@),
    {
        match self.gates.get_text(action_key) {
            Some(g) => *g,
            None => GateState::default(),
        }
    }

    /// Records that the user disabled an action.
    pub fn disable_action(&mut self, action_key: &str)
        ensures
            final(self).gate_states()@ == old(self).gate_states()@.insert(
                action_key@,
                (GateState { user_disabled: true, ..old(self).gate(action_key@) }),
            ),
            final(self).accepted() == old(self).accepted(),
    {
        let mut gate = self.gate_or_fresh(action_key);
        gate.user_disabled = true;
        self.gates.insert(action_key.to_owned(), gate);
    }

    /// Records that the user allowed an action.
    pub fn enable_action(&mut self, action_key: &str)
        requires
            old(self).gate(action_key@).allow_count < u64::MAX,
        ensures
            final(self).gate_states()@ == old(self).gate_states()@.insert(
                action_key@,
                (GateState {
                    user_disabled: false,
                    allow_count: (old(self).gate(action_key@).allow_count + 1) as u64,
                    ..old(self).gate(action_key@)
                }),
            ),
            final(self).accepted() == old(self).accepted(),
    {
        let mut gate = self.gate_or_fresh(action_key);
        gate.user_disabled = false;
        gate.allow_count = gate.allow_count + 1;
        self.gates.insert(action_key.to_owned(), gate);
    }

    /// Records a positive acceptance for a domain.
    pub fn record_acceptance(&mut self, domain: &str)
        requires
            old(self).accepted().count(domain@) < u32::MAX,
        ensures
            final(self).accepted().counts()@
                == old(self).accepted().counts()@.insert(
                domain@,
                (old(self).accepted().count(domain@) + 1) as u32,
            ),
            final(self).accepted().locks() == old(self).accepted().locks(),
            final(self).gate_states() == old(self).gate_states(),
    {
        self.acceptance.record_acceptance(domain);
    }

    /// The restraint state of an action that was seen.
    pub fn gate_state(&self, action_key: &str) -> (g: Option<&GateState>)
        ensures
            match g {
                Some(g) => self.gate_states()@.dom().contains(action_key@) && *g == self.gate_states()@[action_key@],
                None => !self.gate_states()@.dom().contains(action_key@),
            },
    {
        self.gates.get_text(action_key)
    }

    /// The domain acceptance.
    pub fn acceptance(&self) -> (a: &DomainAcceptance)
        ensures
            *a == self.accepted(),
    {
        &self.acceptance
    }

    /// The domain acceptance, to be changed.
    pub fn acceptance_mut(&mut self) -> (a: &mut DomainAcceptance)
        ensures
            *a == old(self).accepted(),
            final(self).accepted() == *final(a),
            final(self).gate_states() == old(self).gate_states(),
    {
        &mut self.acceptance
    }
}

/// When in doubt the runtime stays invisible: a prediction surfaces only where
/// the model's confidence exceeds the threshold, the domain is not intimate and
/// the user unlocked it.
pub proof fn surfaces_only_when_welcome(
    p: ContextPrediction,
    lower_paths: Seq<Seq<char>>,
    lower_action: Seq<char>,
    acceptance: DomainAcceptance,
)
    requires
        restraint_model::hold_reason(p, lower_paths, lower_action, acceptance) is None,
    ensures
        p.confidence.nanos > CONFIDENCE_THRESHOLD,
        !restraint_model::high_intimacy(p.domain@),
        acceptance.unlocked(p.domain@),
{
}

/// The threshold is that of the model, 0.85; nothing is counted of an action
/// that was never met.
pub proof fn threshold_is_the_models(p: ContextPrediction)
    ensures
        CONFIDENCE_THRESHOLD == 850_000_000,
        CONFIDENCE_THRESHOLD == restraint_model::CONFIDENCE_THRESHOLD,
        fresh_gate().allow_count == 0,
        fresh_gate().suppress_count == 0,
        fresh_gate().ask_count == 0,
        !fresh_gate().user_disabled,
{
}

} // verus!
