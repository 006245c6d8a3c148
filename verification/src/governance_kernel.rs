//! The policy table that decides every action request: the matching policy of
//! the highest priority wins, and without one the request is denied.

use vstd::prelude::*;
use vstd::string::StringExecFns;

use crate::clock::Timestamp;
use crate::ident;
use crate::score::Score;
use crate::sequences;
use crate::text;

verus! {

/// The effect a policy has on a matching request.
#[derive(Clone, Copy, Debug, PartialEq, Eq, Structural, Hash)]
pub enum Effect {
    /// Allow the request to proceed.
    Allow,
    /// Deny the request outright.
    Deny,
    /// Escalate to the user for an explicit decision.
    Ask,
    /// Allow but write a mandatory audit entry (no UX interruption).
    Log,
}

/// A policy condition.
#[derive(Debug)]
pub enum Condition {
    /// Always matches (useful for default policies).
    Always,
    /// Matches when the request action type equals the given string.
    ActionEquals(String),
    /// Matches when the request agent equals the given string.
    AgentEquals(String),
    /// Matches when the request risk score is at least the given value.
    RiskAtLeast(Score),
    /// Conjunction of two conditions.
    And(Box<Condition>, Box<Condition>),
    /// Disjunction of two conditions.
    Or(Box<Condition>, Box<Condition>),
}

/// An action request submitted to the governance kernel.
#[derive(Clone, Debug)]
pub struct ActionRequest {
    /// Acting agent.
    pub agent: String,
    /// Action type (e.g. "delete_file").
    pub action_type: String,
    /// Target resource path or identifier.
    pub target: String,
    /// HAL risk score in `[0, 1]`.
    pub risk_score: Score,
}

/// Whether a condition holds of a request.
pub open spec fn holds_for(c: Condition, r: ActionRequest) -> bool
    decreases c,
{
    match c {
        Condition::Always => true,
        Condition::ActionEquals(s) => r.action_type@ == s@,
        Condition::AgentEquals(s) => r.agent@ == s@,
        Condition::RiskAtLeast(t) => r.risk_score.nanos >= t.nanos,
        Condition::And(a, b) => holds_for(*a, r) && holds_for(*b, r),
        Condition::Or(a, b) => holds_for(*a, r) || holds_for(*b, r),
    }
}

impl Condition {
    /// Whether the condition holds of a request.
    pub fn matches(&self, request: &ActionRequest) -> (b: bool)
        ensures
            b == holds_for(*self, *request),
        decreases self,
    {
        match self {
            Condition::Always => true,
            Condition::ActionEquals(s) => text::same_text(
                request.action_type.as_str(),
                s.as_str(),
            ),
            Condition::AgentEquals(s) => text::same_text(request.agent.as_str(), s.as_str()),
            Condition::RiskAtLeast(t) => request.risk_score.nanos >= t.nanos,
            Condition::And(a, b) => a.matches(request) && b.matches(request),
            Condition::Or(a, b) => a.matches(request) || b.matches(request),
        }
    }
}

/// A single governance policy.
#[derive(Debug)]
pub struct Policy {
    /// Stable policy ID (used for audit and override tracking).
    pub id: u128,
    /// Priority: higher wins. Ties are broken by insertion order.
    pub priority: i32,
    /// Condition under which this policy applies.
    pub condition: Condition,
    /// Effect when the condition matches.
    pub effect: Effect,
    /// Human-readable description (shown in audit logs).
    pub description: String,
    /// When the policy was installed.
    pub installed_at: Timestamp,
}

/// The kernel's verdict on a request.
#[derive(Clone, Debug)]
pub struct Verdict {
    /// The winning effect.
    pub effect: Effect,
    /// ID of the policy that produced this verdict; none for the default.
    pub policy_id: Option<u128>,
    /// Human-readable reason for the audit log.
    pub reason: String,
    /// Timestamp of the verdict.
    pub at: Timestamp,
}

/// Errors returned by the governance kernel.
#[derive(Clone, Copy, Debug, PartialEq, Eq, Structural)]
pub enum PolicyError {
    /// A policy with the same ID already exists.
    DuplicatePolicy(u128),
    /// The policy priority lies in the reserved range.
    InvalidPriority(i32),
}

impl PolicyError {
    /// The error as one line.
    pub fn to_text(&self) -> (t: String)
        ensures
            t@ == (match *self {
                PolicyError::DuplicatePolicy(id) => "policy "@ + ident::uuid_digits(id)
                    + " already installed"@,
                PolicyError::InvalidPriority(p) => "policy priority "@ + text::signed_digits(
                    p as int,
                ) + " is in a reserved range"@,
            }),
    {
        match self {
            PolicyError::DuplicatePolicy(id) => {
                let mut t = String::from_str("policy ");
                let digits = ident::uuid_text(*id);
                t.append(digits.as_str());
                t.append(" already installed");
                t
            },
            PolicyError::InvalidPriority(p) => {
                let mut t = String::from_str("policy priority ");
                let digits = text::signed_decimal(*p);
                t.append(digits.as_str());
                t.append(" is in a reserved range");
                t
            },
        }
    }
}

/// Whether policies stand in descending order of priority.
pub open spec fn descending(p: Seq<Policy>) -> bool {
    forall|i: int, j: int|
        0 <= i <= j < p.len() ==> (#[trigger] p[i]).priority >= (#[trigger] p[j]).priority
}

/// Whether no two policies share an ID.
pub open spec fn distinct_ids(p: Seq<Policy>) -> bool {
    forall|i: int, j: int|
        0 <= i < j < p.len() ==> (#[trigger] p[i]).id != (#[trigger] p[j]).id
}

/// Whether a policy of an ID is installed.
pub open spec fn has_policy(p: Seq<Policy>, id: u128) -> bool {
    exists|i: int| 0 <= i < p.len() && (#[trigger] p[i]).id == id
}

/// Whether a priority is reserved for kernel defaults.
pub open spec fn is_reserved(priority: i32) -> bool {
    -1000 <= priority <= -1
}

/// Whether a place is where a policy of a priority goes: behind all of at least
/// that priority and before all lower ones.
pub open spec fn is_place_for(p: Seq<Policy>, priority: i32, k: int) -> bool {
    &&& 0 <= k <= p.len()
    &&& forall|i: int| 0 <= i < k ==> (#[trigger] p[i]).priority >= priority
    &&& forall|i: int| k <= i < p.len() ==> (#[trigger] p[i]).priority < priority
}

/// Whether the policy at a place is the first that matches a request.
pub open spec fn is_winner(p: Seq<Policy>, r: ActionRequest, k: int) -> bool {
    &&& 0 <= k < p.len()
    &&& holds_for(p[k].condition, r)
    &&& forall|i: int| 0 <= i < k ==> !holds_for((#[trigger] p[i]).condition, r)
}

/// Whether no policy matches a request.
pub open spec fn unmatched(p: Seq<Policy>, r: ActionRequest) -> bool {
    forall|i: int| 0 <= i < p.len() ==> !holds_for((#[trigger] p[i]).condition, r)
}

/// Whether a verdict is that of a policy.
pub open spec fn is_verdict_of(v: Verdict, p: Policy) -> bool {
    &&& v.effect == p.effect
    &&& v.policy_id == Some(p.id)
    &&& v.reason@ == "matched policy '"@ + p.description@ + "' (priority "@ + text::signed_digits(
        p.priority as int,
    ) + ")"@
}

/// Whether a verdict is the default: denied, and by no policy.
pub open spec fn is_default_deny(v: Verdict) -> bool {
    &&& v.effect == Effect::Deny
    &&& v.policy_id == None::<u128>
    &&& v.reason@ == "no matching policy — default-deny"@
}

/// Whether a verdict is what policies say of a request.
pub open spec fn decides(p: Seq<Policy>, r: ActionRequest, v: Verdict) -> bool {
    if unmatched(p, r) {
        is_default_deny(v)
    } else {
        exists|k: int| #[trigger] is_winner(p, r, k) && is_verdict_of(v, p[k])
    }
}

/// The governance kernel. Policies stand in descending order of priority, and
/// no two share an ID.
#[derive(Debug)]
pub struct GovernanceKernel {
    policies: Vec<Policy>,
}

impl View for GovernanceKernel {
    type V = Seq<Policy>;

    closed spec fn view(&self) -> Seq<Policy> {
        self.policies@
    }
}

impl Default for GovernanceKernel {
    fn default() -> (k: GovernanceKernel)
        ensures
            k@ == Seq::<Policy>::empty(),
    {
        GovernanceKernel { policies: Vec::new() }
    }
}

impl GovernanceKernel {
    #[verifier::type_invariant]
    spec fn inv(self) -> bool {
        descending(self.policies@) && distinct_ids(self.policies@)
    }

    /// An empty kernel.
    pub fn new() -> (k: GovernanceKernel)
        ensures
            k@ == Seq::<Policy>::empty(),
    {
        GovernanceKernel::default()
    }

    fn find(&self, id: u128) -> (r: Option<usize>)
        ensures
            match r {
                Some(i) => i < self.policies@.len() && self.policies@[i as int].id == id,
                None => !has_policy(self.policies@, id),
            },
    {
        let mut i: usize = 0;
        while i < self.policies.len()
            invariant
                i <= self.policies@.len(),
                forall|j: int| 0 <= j < i ==> (#[trigger] self.policies@[j]).id != id,
            decreases self.policies@.len() - i,
        {
            if self.policies[i].id == id {
                return Some(i);
            }
            i += 1;
        }
        None
    }

    fn take_policies(&mut self) -> (p: Vec<Policy>)
        ensures
            p@ == old(self)@,
            descending(p@),
            distinct_ids(p@),
            final(self)@ == Seq::<Policy>::empty(),
    {
        let mut other = GovernanceKernel { policies: Vec::new() };
        std::mem::swap(self, &mut other);
        proof {
            use_type_invariant(&other);
        }
        let GovernanceKernel { policies } = other;
        policies
    }

    /// Installs a policy behind all of at least its priority. One whose ID is
    /// taken, or whose priority is reserved, is refused.
    pub fn install_policy(&mut self, policy: Policy) -> (r: Result<(), PolicyError>)
        ensures
            r == (if has_policy(old(self)@, policy.id) {
                Err::<(), PolicyError>(PolicyError::DuplicatePolicy(policy.id))
            } else if is_reserved(policy.priority) {
                Err(PolicyError::InvalidPriority(policy.priority))
            } else {
                Ok(())
            }),
            r is Err ==> final(self)@ == old(self)@,
            r is Ok ==> exists|k: int| #[trigger]
                is_place_for(old(self)@, policy.priority, k) && final(self)@ == old(self)@.insert(
                    k,
                    policy,
                ),
            descending(final(self)@),
            distinct_ids(final(self)@),
    {
        proof {
            use_type_invariant(&*self);
        }
        if let Some(i) = self.find(policy.id) {
            assert(has_policy(self@, policy.id));
            return Err(PolicyError::DuplicatePolicy(policy.id));
        }
        if policy.priority >= -1000 && policy.priority <= -1 {
            return Err(PolicyError::InvalidPriority(policy.priority));
        }
        let mut policies = self.take_policies();
        let ghost before = policies@;
        let mut k: usize = 0;
        while k < policies.len() && policies[k].priority >= policy.priority
            invariant
                k <= policies@.len(),
                forall|i: int|
                    0 <= i < k ==> (#[trigger] policies@[i]).priority >= policy.priority,
            decreases policies@.len() - k,
        {
            k += 1;
        }
        proof {
            assert forall|i: int| k <= i < before.len() implies (#[trigger] before[i]).priority
                < policy.priority by {
                assert(before[k as int].priority >= before[i].priority);
            }
            assert(is_place_for(before, policy.priority, k as int));
            let after = before.insert(k as int, policy);
            assert forall|i: int, j: int| 0 <= i <= j < after.len() implies (
            #[trigger] after[i]).priority >= (#[trigger] after[j]).priority by {
                let i0 = if i < k { i } else { i - 1 };
                let j0 = if j < k { j } else { j - 1 };
                if i != k && j != k {
                    assert(before[i0].priority >= before[j0].priority);
                }
            }
            assert forall|i: int, j: int| 0 <= i < j < after.len() implies (#[trigger] after[i]).id
                != (#[trigger] after[j]).id by {
                let i0 = if i < k { i } else { i - 1 };
                let j0 = if j < k { j } else { j - 1 };
                if i != k && j != k {
                    assert(before[i0].id != before[j0].id);
                } else if i == k {
                    assert(before[j0].id != policy.id);
                } else {
                    assert(before[i0].id != policy.id);
                }
            }
        }
        policies.insert(k, policy);
        *self = GovernanceKernel { policies };
        Ok(())
    }

    /// Removes the policy of an ID; the others keep their order. Says whether
    /// there was one.
    pub fn remove_policy(&mut self, id: u128) -> (removed: bool)
        ensures
            removed == has_policy(old(self)@, id),
            final(self)@ == old(self)@.filter(|p: Policy| p.id != id),
    {
        proof {
            use_type_invariant(&*self);
        }
        let ghost f = |p: Policy| p.id != id;
        match self.find(id) {
            None => {
                proof {
                    assert forall|j: int| 0 <= j < self@.len() implies f(#[trigger] self@[j]) by {
                        assert(self@[j].id != id);
                    }
                    sequences::filter_all(self@, f);
                }
                false
            },
            Some(i) => {
                assert(has_policy(self@, id));
                let mut policies = self.take_policies();
                let ghost before = policies@;
                proof {
                    assert forall|j: int| 0 <= j < before.len() && j != i implies f(
                        #[trigger] before[j],
                    ) by {
                        if j < i {
                            assert(before[j].id != before[i as int].id);
                        } else {
                            assert(before[i as int].id != before[j].id);
                        }
                    }
                    sequences::filter_but_one(before, f, i as int);
                    let after = before.remove(i as int);
                    assert forall|a: int, b: int| 0 <= a <= b < after.len() implies (
                    #[trigger] after[a]).priority >= (#[trigger] after[b]).priority by {
                        let a0 = if a < i { a } else { a + 1 };
                        let b0 = if b < i { b } else { b + 1 };
                        assert(before[a0].priority >= before[b0].priority);
                    }
                    assert forall|a: int, b: int| 0 <= a < b < after.len() implies (
                    #[trigger] after[a]).id != (#[trigger] after[b]).id by {
                        let a0 = if a < i { a } else { a + 1 };
                        let b0 = if b < i { b } else { b + 1 };
                        assert(before[a0].id != before[b0].id);
                    }
                }
                let _ = policies.remove(i);
                *self = GovernanceKernel { policies };
                true
            },
        }
    }

    /// The verdict on a request at a time.
    pub fn evaluate_at(&self, request: &ActionRequest, now: Timestamp) -> (v: Verdict)
        ensures
            decides(self@, *request, v),
            v.at == now,
    {
        let mut i: usize = 0;
        while i < self.policies.len()
            invariant
                i <= self.policies@.len(),
                forall|j: int|
                    0 <= j < i ==> !holds_for(
                        (#[trigger] self.policies@[j]).condition,
                        *request,
                    ),
            decreases self.policies@.len() - i,
        {
            let policy = &self.policies[i];
            if policy.condition.matches(request) {
                let mut reason = String::from_str("matched policy '");
                reason.append(policy.description.as_str());
                reason.append("' (priority ");
                let digits = text::signed_decimal(policy.priority);
                reason.append(digits.as_str());
                reason.append(")");
                let v = Verdict {
                    effect: policy.effect,
                    policy_id: Some(policy.id),
                    reason,
                    at: now,
                };
                assert(is_winner(self@, *request, i as int) && is_verdict_of(v, self@[i as int]));
                return v;
            }
            i += 1;
        }
        Verdict {
            effect: Effect::Deny,
            policy_id: None,
            reason: String::from_str("no matching policy — default-deny"),
            at: now,
        }
    }

    /// The verdict on a request now.
    pub fn evaluate(&self, request: &ActionRequest) -> (v: Verdict)
        ensures
            decides(self@, *request, v),
    {
        self.evaluate_at(request, Timestamp::now())
    }

    /// The policies, in descending order of priority.
    pub fn policies(&self) -> (p: &[Policy])
        ensures
            p@ == self@,
            descending(p@),
            distinct_ids(p@),
    {
        proof {
            use_type_invariant(self);
        }
        self.policies.as_slice()
    }
}

/// Deny by default: a request that no policy matches is denied, and only a
/// policy that matches can allow one.
pub proof fn denied_by_default(p: Seq<Policy>, r: ActionRequest, v: Verdict)
    requires
        decides(p, r, v),
    ensures
        unmatched(p, r) ==> v.effect == Effect::Deny && v.policy_id is None,
        v.effect != Effect::Deny ==> exists|k: int|
            0 <= k < p.len() && holds_for((#[trigger] p[k]).condition, r) && p[k].effect == v.effect
                && v.policy_id == Some(p[k].id),
{
    if !unmatched(p, r) {
        let k = choose|k: int| #[trigger] is_winner(p, r, k) && is_verdict_of(v, p[k]);
        assert(holds_for(p[k].condition, r));
    }
}

/// The highest priority wins: no matching policy has a higher priority than the
/// one that decides.
pub proof fn highest_priority_wins(p: Seq<Policy>, r: ActionRequest, v: Verdict, j: int)
    requires
        descending(p),
        decides(p, r, v),
        0 <= j < p.len(),
        holds_for(p[j].condition, r),
    ensures
        exists|k: int| #[trigger]
            is_winner(p, r, k) && is_verdict_of(v, p[k]) && p[k].priority >= p[j].priority && k <= j,
{
    assert(!unmatched(p, r));
    let k = choose|k: int| #[trigger] is_winner(p, r, k) && is_verdict_of(v, p[k]);
    assert(k <= j);
    assert(p[k].priority >= p[j].priority);
}

/// Ties are broken by insertion order: a new policy stands behind every
/// installed one of its priority.
pub proof fn ties_by_insertion(before: Seq<Policy>, policy: Policy, k: int, i: int)
    requires
        is_place_for(before, policy.priority, k),
        0 <= i < before.len(),
        before[i].priority == policy.priority,
    ensures
        i < k,
        before.insert(k, policy)[i] == before[i],
        before.insert(k, policy)[k] == policy,
{
}

/// Removing a policy that was just installed restores the table.
pub proof fn remove_undoes_install(before: Seq<Policy>, policy: Policy, k: int)
    requires
        !has_policy(before, policy.id),
        0 <= k <= before.len(),
    ensures
        before.insert(k, policy).filter(|p: Policy| p.id != policy.id) == before,
{
    let after = before.insert(k, policy);
    let f = |p: Policy| p.id != policy.id;
    assert forall|j: int| 0 <= j < after.len() && j != k implies f(#[trigger] after[j]) by {
        let j0 = if j < k { j } else { j - 1 };
        assert(after[j] == before[j0]);
        assert(before[j0].id != policy.id);
    }
    sequences::filter_but_one(after, f, k);
    assert(after.remove(k) =~= before);
}

/// The priorities that no policy may take are the thousand below zero.
pub proof fn reserved_priorities(priority: i32)
    ensures
        !is_reserved(priority) <==> priority >= 0 || priority < -1000,
{
}

/// A condition on the risk that holds of a risk holds of every greater one; a
/// name must be met exactly; both parts of a conjunction must hold, and either
/// of an alternative.
pub proof fn conditions_mean_what_they_say(
    r: ActionRequest,
    t: Score,
    name: String,
    a: Condition,
    b: Condition,
)
    ensures
        holds_for(Condition::Always, r),
        holds_for(Condition::RiskAtLeast(t), r) <==> t.nanos <= r.risk_score.nanos,
        holds_for(Condition::ActionEquals(name), r) <==> r.action_type@ == name@,
        holds_for(Condition::AgentEquals(name), r) <==> r.agent@ == name@,
        holds_for(Condition::And(Box::new(a), Box::new(b)), r) <==> holds_for(a, r) && holds_for(
            b,
            r,
        ),
        holds_for(Condition::Or(Box::new(a), Box::new(b)), r) <==> holds_for(a, r) || holds_for(
            b,
            r,
        ),
{
}

/// What a verdict says: the policy that decided and its priority, or that none
/// did.
pub proof fn verdicts_give_their_ground(v: Verdict, p: Seq<Policy>, r: ActionRequest)
    requires
        decides(p, r, v),
    ensures
        v.policy_id is None <==> unmatched(p, r),
        v.policy_id is None ==> v.effect == Effect::Deny && v.reason@
            == "no matching policy — default-deny"@,
        v.policy_id is Some ==> exists|k: int|
            0 <= k < p.len() && (#[trigger] p[k]).id == v.policy_id->0 && p[k].effect == v.effect
                && holds_for(p[k].condition, r) && v.reason@ == "matched policy '"@
                + p[k].description@ + "' (priority "@ + text::signed_digits(p[k].priority as int)
                + ")"@,
{
    if !unmatched(p, r) {
        let k = choose|k: int| #[trigger] is_winner(p, r, k) && is_verdict_of(v, p[k]);
        assert(p[k].id == v.policy_id->0);
    }
}

} // verus!
