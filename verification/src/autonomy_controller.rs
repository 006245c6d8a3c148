//! Controls the level of autonomy granted to AI agents.
//!
//! Autonomy grows one step at a time and can fall to `Supervised` at once:
//! failures of over-trust are more costly than failures of under-trust.

use vstd::prelude::*;
use vstd::string::StringExecFns;

use crate::score;
use crate::score::Score;
use crate::table::Table;
use crate::text;

verus! {

/// An agent identifier.
pub type AgentId = String;

/// The four levels of autonomy an agent may be granted.
#[derive(Clone, Copy, Debug, PartialEq, Eq, PartialOrd, Ord, Hash, Structural)]
pub enum AutonomyLevel {
    /// Every gated action requires explicit user approval.
    Supervised,
    /// Agent may propose; user must approve before execution.
    Advisory,
    /// Low-risk actions auto-execute; high-risk escalate to user.
    SemiAutonomous,
    /// Agent may execute anything not on the hard-block list, within its
    /// budget.
    Autonomous,
}

/// The rank of a level.
pub open spec fn rank_of(l: AutonomyLevel) -> int {
    match l {
        AutonomyLevel::Supervised => 0,
        AutonomyLevel::Advisory => 1,
        AutonomyLevel::SemiAutonomous => 2,
        AutonomyLevel::Autonomous => 3,
    }
}

/// The name of a level.
pub open spec fn level_name(l: AutonomyLevel) -> Seq<char> {
    match l {
        AutonomyLevel::Supervised => "Supervised"@,
        AutonomyLevel::Advisory => "Advisory"@,
        AutonomyLevel::SemiAutonomous => "SemiAutonomous"@,
        AutonomyLevel::Autonomous => "Autonomous"@,
    }
}

impl AutonomyLevel {
    /// Rank used for escalation and de-escalation comparisons.
    pub fn rank(self) -> (r: u8)
        ensures
            r == rank_of(self),
    {
        match self {
            AutonomyLevel::Supervised => 0,
            AutonomyLevel::Advisory => 1,
            AutonomyLevel::SemiAutonomous => 2,
            AutonomyLevel::Autonomous => 3,
        }
    }

    /// The name of the level.
    pub fn name(&self) -> (r: &'static str)
        ensures
            r@ == level_name(*self),
    {
        match self {
            AutonomyLevel::Supervised => "Supervised",
            AutonomyLevel::Advisory => "Advisory",
            AutonomyLevel::SemiAutonomous => "SemiAutonomous",
            AutonomyLevel::Autonomous => "Autonomous",
        }
    }
}

impl Default for AutonomyLevel {
    fn default() -> (l: AutonomyLevel)
        ensures
            l == AutonomyLevel::Supervised,
    {
        AutonomyLevel::Supervised
    }
}

/// How many actions may be auto-executed per period before re-approval.
#[derive(Clone, Copy, Debug, PartialEq, Eq, Structural)]
pub struct ActionBudget {
    /// Maximum auto-executed actions per period.
    pub max_per_period: u32,
    /// Current count in the period.
    pub current: u32,
    /// Period length in seconds.
    pub period_secs: u64,
}

impl Default for ActionBudget {
    fn default() -> (b: ActionBudget)
        ensures
            b == (ActionBudget { max_per_period: 100, current: 0, period_secs: 3600 }),
    {
        ActionBudget { max_per_period: 100, current: 0, period_secs: 3600 }
    }
}

impl ActionBudget {
    /// Whether nothing is left of the budget.
    pub open spec fn spent(&self) -> bool {
        self.current >= self.max_per_period
    }

    /// Whether the budget has been exhausted.
    pub fn exhausted(&self) -> (r: bool)
        ensures
            r == self.spent(),
    {
        self.current >= self.max_per_period
    }

    /// Consumes one unit of budget; an exhausted budget stays as it is.
    pub fn consume(&mut self) -> (r: bool)
        ensures
            r == !old(self).spent(),
            *final(self) == (if old(self).spent() {
                *old(self)
            } else {
                ActionBudget { current: (old(self).current + 1) as u32, ..*old(self) }
            }),
    {
        if self.exhausted() {
            return false;
        }
        self.current = self.current + 1;
        true
    }

    /// Resets the period counter.
    pub fn reset_period(&mut self)
        ensures
            *final(self) == (ActionBudget { current: 0, ..*old(self) }),
    {
        self.current = 0;
    }
}

/// Errors returned by the autonomy controller.
#[derive(Clone, Copy, Debug, PartialEq, Eq, Structural)]
pub enum EscalationError {
    /// The requested escalation skips a level (must be one step at a time).
    SkipsLevels {
        /// The current level.
        from: AutonomyLevel,
        /// The requested level.
        to: AutonomyLevel,
    },
    /// The agent's reputation is too low to escalate.
    InsufficientReputation {
        /// The agent's current reputation.
        reputation: Score,
        /// The threshold required for the target level.
        threshold: Score,
        /// The level the agent was trying to escalate to.
        to: AutonomyLevel,
    },
    /// The action budget is exhausted.
    BudgetExhausted {
        /// Current consumed count.
        current: u32,
        /// Maximum allowed per period.
        max: u32,
    },
}

impl EscalationError {
    /// The error as one line.
    pub fn to_text(&self) -> (t: String)
        ensures
            t@ == (match *self {
                EscalationError::SkipsLevels { from, to } => "escalation skips levels: from "@
                    + level_name(from) + " to "@ + level_name(to),
                EscalationError::InsufficientReputation { reputation, threshold, to } =>
                "reputation "@ + score::score_fixed2(reputation.nanos as int)
                    + " below threshold "@ + score::score_fixed2(threshold.nanos as int) + " for "@
                    + level_name(to),
                EscalationError::BudgetExhausted { current, max } => "action budget exhausted ("@
                    + text::decimal_digits(current as nat) + "/"@ + text::decimal_digits(
                    max as nat,
                ) + ")"@,
            }),
    {
        match self {
            EscalationError::SkipsLevels { from, to } => {
                let mut t = String::from_str("escalation skips levels: from ");
                t.append(from.name());
                t.append(" to ");
                t.append(to.name());
                t
            },
            EscalationError::InsufficientReputation { reputation, threshold, to } => {
                let mut t = String::from_str("reputation ");
                let r = reputation.to_fixed2();
                t.append(r.as_str());
                t.append(" below threshold ");
                let h = threshold.to_fixed2();
                t.append(h.as_str());
                t.append(" for ");
                t.append(to.name());
                t
            },
            EscalationError::BudgetExhausted { current, max } => {
                let mut t = String::from_str("action budget exhausted (");
                let c = text::decimal(*current as u64);
                t.append(c.as_str());
                t.append("/");
                let m = text::decimal(*max as u64);
                t.append(m.as_str());
                t.append(")");
                t
            },
        }
    }
}

/// An action as far as autonomy decisions need it.
#[derive(Clone, Debug)]
pub struct ActionRequest {
    /// The agent requesting.
    pub agent: AgentId,
    /// Action type (e.g. "delete_file", "open_app").
    pub action_type: String,
    /// Risk score from the HAL risk engine, in `[0, 1]`.
    pub risk_score: Score,
    /// Whether the action is on the hard-block list.
    pub on_block_list: bool,
}

/// The levels that agents have of their own. Nothing grants one, so there are
/// none.
#[derive(Debug)]
struct OwnLevels {
    levels: Table<AgentId, AutonomyLevel>,
}

impl OwnLevels {
    #[verifier::type_invariant]
    spec fn inv(self) -> bool {
        self.levels@ == Map::<Seq<char>, AutonomyLevel>::empty()
    }

    fn new() -> (l: OwnLevels)
        ensures
            l.levels@ == Map::<Seq<char>, AutonomyLevel>::empty(),
    {
        OwnLevels { levels: Table::new() }
    }
}

/// The autonomy controller of one user session.
#[derive(Debug)]
pub struct AutonomyController {
    level: AutonomyLevel,
    budget: ActionBudget,
    per_agent: OwnLevels,
    reputation: Table<AgentId, Score>,
}

impl Default for AutonomyController {
    fn default() -> (c: AutonomyController)
        ensures
            c.is_fresh(),
    {
        AutonomyController {
            level: AutonomyLevel::Supervised,
            budget: ActionBudget::default(),
            per_agent: OwnLevels::new(),
            reputation: Table::new(),
        }
    }
}

impl AutonomyController {
    /// The global autonomy level.
    pub closed spec fn global_level(&self) -> AutonomyLevel {
        self.level
    }

    /// The action budget.
    pub closed spec fn action_budget(&self) -> ActionBudget {
        self.budget
    }

    /// The agents' own levels.
    pub closed spec fn overrides(&self) -> Map<Seq<char>, AutonomyLevel> {
        self.per_agent.levels@
    }

    /// The agents' reputations.
    pub closed spec fn reputations(&self) -> Map<Seq<char>, Score> {
        self.reputation@
    }

    /// Whether the controller is as it starts.
    pub open spec fn is_fresh(&self) -> bool {
        &&& self.global_level() == AutonomyLevel::Supervised
        &&& self.action_budget() == (ActionBudget {
            max_per_period: 100,
            current: 0,
            period_secs: 3600,
        })
        &&& self.overrides() == Map::<Seq<char>, AutonomyLevel>::empty()
        &&& self.reputations() == Map::<Seq<char>, Score>::empty()
    }

    /// Whether nothing but the global level differs from another controller.
    pub open spec fn same_but_level(&self, other: AutonomyController) -> bool {
        &&& self.action_budget() == other.action_budget()
        &&& self.overrides() == other.overrides()
        &&& self.reputations() == other.reputations()
    }

    /// The level of an agent: its own, or else the global one.
    pub open spec fn agent_level(&self, agent: Seq<char>) -> AutonomyLevel {
        if self.overrides().dom().contains(agent) {
            self.overrides()[agent]
        } else {
            self.global_level()
        }
    }

    /// Whether an action may run on its own.
    pub open spec fn may_auto_execute(&self, action: ActionRequest) -> bool {
        !action.on_block_list && match self.agent_level(action.agent@) {
            AutonomyLevel::Supervised => false,
            AutonomyLevel::Advisory => false,
            AutonomyLevel::SemiAutonomous => action.risk_score.nanos < 300_000_000,
            AutonomyLevel::Autonomous => !self.action_budget().spent(),
        }
    }

    /// A new controller at the Supervised level.
    pub fn new() -> (c: AutonomyController)
        ensures
            c.is_fresh(),
    {
        AutonomyController::default()
    }

    /// Current global autonomy level.
    pub fn level(&self) -> (l: AutonomyLevel)
        ensures
            l == self.global_level(),
    {
        self.level
    }

    /// The level of an agent: its own, or else the global one. No agent has one
    /// of its own.
    pub fn level_for(&self, agent: &AgentId) -> (l: AutonomyLevel)
        ensures
            l == self.agent_level(agent@),
            l == self.global_level(),
    {
        proof {
            use_type_invariant(&self.per_agent);
        }
        match self.per_agent.levels.get(agent) {
            Some(l) => *l,
            None => self.level,
        }
    }

    /// Escalates the global autonomy level by exactly one step.
    pub fn escalate(&mut self, to: AutonomyLevel) -> (r: Result<(), EscalationError>)
        ensures
            final(self).same_but_level(*old(self)),
            if rank_of(to) == rank_of(old(self).global_level()) + 1 {
                r is Ok && final(self).global_level() == to
            } else {
                r == Err::<(), EscalationError>(
                    EscalationError::SkipsLevels { from: old(self).global_level(), to },
                ) && final(self).global_level() == old(self).global_level()
            },
    {
        if to.rank() != self.level.rank() + 1 {
            return Err(EscalationError::SkipsLevels { from: self.level, to });
        }
        self.level = to;
        Ok(())
    }

    /// Lowers the global autonomy level, by any number of steps; it is never
    /// raised.
    pub fn deescalate(&mut self, to: AutonomyLevel)
        ensures
            final(self).same_but_level(*old(self)),
            final(self).global_level() == (if rank_of(to) < rank_of(old(self).global_level()) {
                to
            } else {
                old(self).global_level()
            }),
    {
        if to.rank() < self.level.rank() {
            self.level = to;
        }
    }

    /// Goes back to Supervised, on an anomaly: every agent is supervised then.
    pub fn revert_to_supervised(&mut self)
        ensures
            final(self).same_but_level(*old(self)),
            final(self).global_level() == AutonomyLevel::Supervised,
            forall|a: Seq<char>| #[trigger]
                final(self).agent_level(a) == AutonomyLevel::Supervised,
    {
        self.deescalate(AutonomyLevel::Supervised);
        proof {
            use_type_invariant(&self.per_agent);
        }
    }

    /// Whether an action may run on its own. Consumes no budget.
    pub fn can_auto_execute(&self, action: &ActionRequest) -> (r: bool)
        ensures
            r == self.may_auto_execute(*action),
    {
        if action.on_block_list {
            return false;
        }
        match self.level_for(&action.agent) {
            AutonomyLevel::Supervised => false,
            AutonomyLevel::Advisory => false,
            AutonomyLevel::SemiAutonomous => action.risk_score.nanos < 300_000_000,
            AutonomyLevel::Autonomous => !self.budget.exhausted(),
        }
    }

    /// Consumes one unit of budget for an auto-executed action.
    pub fn consume_budget(&mut self) -> (r: bool)
        ensures
            r == !old(self).action_budget().spent(),
            final(self).action_budget() == (if old(self).action_budget().spent() {
                old(self).action_budget()
            } else {
                ActionBudget {
                    current: (old(self).action_budget().current + 1) as u32,
                    ..old(self).action_budget()
                }
            }),
            final(self).global_level() == old(self).global_level(),
            final(self).overrides() == old(self).overrides(),
            final(self).reputations() == old(self).reputations(),
    {
        self.budget.consume()
    }

    /// Sets the reputation of an agent, within `[0, 1]`.
    pub fn set_reputation(&mut self, agent: &AgentId, score: Score)
        ensures
            final(self).reputations() == old(self).reputations().insert(
                agent@,
                (Score { nanos: score::unit_clamp(score.nanos as int) as i64 }),
            ),
            final(self).global_level() == old(self).global_level(),
            final(self).action_budget() == old(self).action_budget(),
            final(self).overrides() == old(self).overrides(),
    {
        self.reputation.insert(agent.clone(), score.clamp_unit());
    }

    /// The reputation of an agent; neutral (0.5) where it is unknown.
    pub fn reputation_of(&self, agent: &AgentId) -> (s: Score)
        ensures
            s.nanos == (if self.reputations().dom().contains(agent@) {
                self.reputations()[agent@].nanos as int
            } else {
                500_000_000
            }),
    {
        match self.reputation.get(agent) {
            Some(s) => *s,
            None => Score::from_nanos(500_000_000),
        }
    }

    /// The action budget.
    pub fn budget(&self) -> (b: &ActionBudget)
        ensures
            *b == self.action_budget(),
    {
        &self.budget
    }

    /// The action budget, to be changed.
    pub fn budget_mut(&mut self) -> (b: &mut ActionBudget)
        ensures
            *b == old(self).action_budget(),
            final(self).action_budget() == *final(b),
            final(self).global_level() == old(self).global_level(),
            final(self).overrides() == old(self).overrides(),
            final(self).reputations() == old(self).reputations(),
    {
        &mut self.budget
    }
}

/// Nothing on the block list and nothing of a supervised or advisory agent ever
/// runs on its own; what scores 0.3 or more does so only for an autonomous
/// agent with budget left.
pub proof fn autonomy_is_limited(c: AutonomyController, action: ActionRequest)
    requires
        c.may_auto_execute(action),
    ensures
        !action.on_block_list,
        rank_of(c.agent_level(action.agent@)) >= 2,
        action.risk_score.nanos >= 300_000_000 ==> c.agent_level(action.agent@)
            == AutonomyLevel::Autonomous && !c.action_budget().spent(),
{
}

/// A budget never counts more than it allows.
pub proof fn budget_never_overrun(b: ActionBudget)
    requires
        b.current <= b.max_per_period,
    ensures
        ({
            let after = if b.spent() {
                b
            } else {
                ActionBudget { current: (b.current + 1) as u32, ..b }
            };
            after.current <= after.max_per_period
        }),
{
}

/// Who may act alone: nobody on a listed action; an autonomous agent with budget
/// left; a half autonomous one where the risk is below 0.3; no other. An agent
/// without a level of its own has the global one.
pub proof fn acting_alone(c: AutonomyController, action: ActionRequest)
    ensures
        ({
            let level = if c.overrides().dom().contains(action.agent@) {
                c.overrides()[action.agent@]
            } else {
                c.global_level()
            };
            c.may_auto_execute(action) <==> !action.on_block_list && ((level
                == AutonomyLevel::SemiAutonomous && action.risk_score.nanos < 300_000_000) || (level
                == AutonomyLevel::Autonomous && c.action_budget().current
                < c.action_budget().max_per_period))
        }),
{
}

/// A new controller supervises everything, and lets a hundred actions through in
/// an hour.
pub proof fn new_controllers_supervise(c: AutonomyController, action: ActionRequest)
    requires
        c.is_fresh(),
    ensures
        !c.may_auto_execute(action),
        c.action_budget().max_per_period == 100,
        c.action_budget().period_secs == 60 * 60,
        c.action_budget().current == 0,
{
}

/// The four levels in their order, and their names.
pub proof fn levels_are_ordered_and_named(l: AutonomyLevel)
    ensures
        0 <= rank_of(l) < 4,
        rank_of(l) == 0 <==> l == AutonomyLevel::Supervised,
        rank_of(l) == 1 <==> l == AutonomyLevel::Advisory,
        rank_of(l) == 2 <==> l == AutonomyLevel::SemiAutonomous,
        rank_of(l) == 3 <==> l == AutonomyLevel::Autonomous,
        rank_of(l) == 0 ==> level_name(l) == "Supervised"@,
        rank_of(l) == 1 ==> level_name(l) == "Advisory"@,
        rank_of(l) == 2 ==> level_name(l) == "SemiAutonomous"@,
        rank_of(l) == 3 ==> level_name(l) == "Autonomous"@,
{
}

} // verus!
