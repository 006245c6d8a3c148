//! Governance of governance: changes to the policies themselves.
//!
//! A change is proposed, ratified by a human, takes effect no sooner than the
//! approval delay allows, and can be reverted.

use vstd::prelude::*;
use vstd::string::StringExecFns;

use crate::clock;
use crate::clock::Timestamp;
use crate::clock::NANOS_PER_SECOND;
use crate::ident;
use crate::table::Table;

verus! {

/// An agent identifier.
pub type AgentId = String;

/// Identifier of a policy-change proposal.
pub type ProposalId = u128;

/// The mandatory delay between human approval and effect, in seconds.
pub const APPROVAL_DELAY_SECS: i64 = 86_400;

/// A proposed change to the governance itself.
#[derive(Clone, Debug)]
pub struct PolicyChange {
    /// Human-readable description of the change.
    pub description: String,
    /// The change payload, as an opaque JSON text.
    pub payload: String,
    /// The agent proposing the change.
    pub proposer: AgentId,
    /// When the proposal was created.
    pub proposed_at: Timestamp,
}

/// The policy governing how policy changes themselves are made.
#[derive(Clone, Copy, Debug, PartialEq, Eq, Structural)]
pub struct PolicyChangePolicy {
    /// Whether human approval is required.
    pub require_human_approval: bool,
    /// The mandatory delay between approval and effect, in seconds.
    pub approval_delay_secs: i64,
    /// Whether the change must be reversible.
    pub require_reversibility: bool,
    /// Whether an audit entry must be written.
    pub require_audit_entry: bool,
}

/// The policy that holds unless it is changed: everything is required, and the
/// delay is a day.
pub open spec fn default_change_policy() -> PolicyChangePolicy {
    PolicyChangePolicy {
        require_human_approval: true,
        approval_delay_secs: APPROVAL_DELAY_SECS,
        require_reversibility: true,
        require_audit_entry: true,
    }
}

impl Default for PolicyChangePolicy {
    fn default() -> (p: PolicyChangePolicy)
        ensures
            p == default_change_policy(),
    {
        PolicyChangePolicy {
            require_human_approval: true,
            approval_delay_secs: APPROVAL_DELAY_SECS,
            require_reversibility: true,
            require_audit_entry: true,
        }
    }
}

/// A human-approval token accompanying a ratification.
#[derive(Clone, Debug)]
pub struct HumanApproval {
    /// Identifier of the approving human operator.
    pub approver_id: String,
    /// When the approval was granted.
    pub approved_at: Timestamp,
    /// Optional free-text justification.
    pub justification: Option<String>,
    /// Opaque signature text; it is not verified.
    pub signature: Option<String>,
}

/// The lifecycle state of a policy-change proposal.
#[derive(Clone, Copy, Debug, PartialEq, Eq, Structural)]
pub enum ProposalState {
    /// Proposed but not yet ratified.
    Pending,
    /// Ratified by a human; waiting for the approval delay to elapse.
    Ratified {
        /// When the proposal was ratified.
        ratified_at: Timestamp,
        /// When the proposal is eligible to take effect.
        effective_at: Timestamp,
    },
    /// The change has taken effect.
    Applied {
        /// When the change took effect.
        applied_at: Timestamp,
    },
    /// The change was reverted.
    Reverted {
        /// When the revert took effect.
        reverted_at: Timestamp,
    },
    /// The proposal was withdrawn or rejected.
    Withdrawn,
}

/// How an error names a state.
pub open spec fn state_text_of(s: ProposalState) -> Seq<char> {
    match s {
        ProposalState::Pending => "Pending"@,
        ProposalState::Ratified { ratified_at, effective_at } => "Ratified { ratified_at: "@
            + clock::debug_of(ratified_at.nanos as int) + ", effective_at: "@ + clock::debug_of(
            effective_at.nanos as int,
        ) + " }"@,
        ProposalState::Applied { applied_at } => "Applied { applied_at: "@ + clock::debug_of(
            applied_at.nanos as int,
        ) + " }"@,
        ProposalState::Reverted { reverted_at } => "Reverted { reverted_at: "@ + clock::debug_of(
            reverted_at.nanos as int,
        ) + " }"@,
        ProposalState::Withdrawn => "Withdrawn"@,
    }
}

impl ProposalState {
    /// How an error names the state.
    pub fn to_text(&self) -> (t: String)
        ensures
            t@ == state_text_of(*self),
    {
        match self {
            ProposalState::Pending => String::from_str("Pending"),
            ProposalState::Ratified { ratified_at, effective_at } => {
                let mut t = String::from_str("Ratified { ratified_at: ");
                let first = clock::debug_text(ratified_at);
                t.append(first.as_str());
                t.append(", effective_at: ");
                let second = clock::debug_text(effective_at);
                t.append(second.as_str());
                t.append(" }");
                t
            },
            ProposalState::Applied { applied_at } => {
                let mut t = String::from_str("Applied { applied_at: ");
                let time = clock::debug_text(applied_at);
                t.append(time.as_str());
                t.append(" }");
                t
            },
            ProposalState::Reverted { reverted_at } => {
                let mut t = String::from_str("Reverted { reverted_at: ");
                let time = clock::debug_text(reverted_at);
                t.append(time.as_str());
                t.append(" }");
                t
            },
            ProposalState::Withdrawn => String::from_str("Withdrawn"),
        }
    }
}

/// A proposal with what became of it.
#[derive(Debug)]
pub struct ProposalRecord {
    /// The proposal's id.
    pub id: ProposalId,
    /// The proposed change.
    pub change: PolicyChange,
    /// Where the proposal stands.
    pub state: ProposalState,
    /// The approval, once ratified.
    pub approval: Option<HumanApproval>,
    /// The audit line, once applied.
    pub audit_entry: Option<String>,
}

/// Errors returned by the meta-governance engine.
#[derive(Clone, Debug)]
pub enum MetaError {
    /// No proposal with the given id was found.
    NotFound {
        /// The id.
        id: ProposalId,
    },
    /// The proposal is not in the Pending state (required for ratification).
    NotPending {
        /// The id.
        id: ProposalId,
        /// The state it is in.
        state: String,
    },
    /// The proposal is not in the Ratified state (required for application).
    NotRatified {
        /// The id.
        id: ProposalId,
    },
    /// The proposal is not in the Applied state (required for revert).
    NotApplied {
        /// The id.
        id: ProposalId,
        /// The state it is in.
        state: String,
    },
    /// The mandatory audit entry could not be written.
    AuditWriteFailed(String),
}

/// The text of an error.
pub open spec fn error_text(e: MetaError) -> Seq<char> {
    match e {
        MetaError::NotFound { id } => "proposal not found: "@ + ident::uuid_digits(id),
        MetaError::NotPending { id, state } => "proposal "@ + ident::uuid_digits(id)
            + " not pending (state: "@ + state@ + ")"@,
        MetaError::NotRatified { id } => "proposal "@ + ident::uuid_digits(id) + " not ratified"@,
        MetaError::NotApplied { id, state } => "proposal "@ + ident::uuid_digits(id)
            + " not applied (state: "@ + state@ + ")"@,
        MetaError::AuditWriteFailed(e) => "audit entry write failed: "@ + e@,
    }
}

impl MetaError {
    /// The error as one line.
    pub fn to_text(&self) -> (t: String)
        ensures
            t@ == error_text(*self),
    {
        match self {
            MetaError::NotFound { id } => {
                let digits = ident::uuid_text(*id);
                String::from_str("proposal not found: ").concat(digits.as_str())
            },
            MetaError::NotPending { id, state } => {
                let mut t = String::from_str("proposal ");
                let digits = ident::uuid_text(*id);
                t.append(digits.as_str());
                t.append(" not pending (state: ");
                t.append(state.as_str());
                t.append(")");
                t
            },
            MetaError::NotRatified { id } => {
                let mut t = String::from_str("proposal ");
                let digits = ident::uuid_text(*id);
                t.append(digits.as_str());
                t.append(" not ratified");
                t
            },
            MetaError::NotApplied { id, state } => {
                let mut t = String::from_str("proposal ");
                let digits = ident::uuid_text(*id);
                t.append(digits.as_str());
                t.append(" not applied (state: ");
                t.append(state.as_str());
                t.append(")");
                t
            },
            MetaError::AuditWriteFailed(e) => String::from_str(
                "audit entry write failed: ",
            ).concat(e.as_str()),
        }
    }
}

/// Whether an error is that a proposal was not found.
pub open spec fn is_not_found<T>(r: Result<T, MetaError>, id: ProposalId) -> bool {
    r matches Err(MetaError::NotFound { id: i }) && i == id
}

/// When a change approved at a time takes effect, in nanoseconds since the
/// epoch.
pub open spec fn effective_nanos(approved_at: Timestamp, delay_secs: i64) -> int {
    approved_at.nanos + delay_secs * NANOS_PER_SECOND
}

/// The audit line of a proposal applied at a time.
pub open spec fn audit_line(id: ProposalId, now: Timestamp) -> Seq<char> {
    "applied proposal "@ + ident::uuid_digits(id) + " at "@ + clock::rfc3339_of(now.nanos as int)
}

/// Whether a record has the same proposal as another.
pub open spec fn same_proposal(a: ProposalRecord, b: ProposalRecord) -> bool {
    a.id == b.id && a.change == b.change
}

/// Whether a record that was ratified, applied or reverted carries a human
/// approval, and a ratified one is not to take effect before the approval.
pub open spec fn is_approved(r: ProposalRecord) -> bool {
    match r.state {
        ProposalState::Pending => true,
        ProposalState::Withdrawn => true,
        _ => r.approval is Some,
    }
}

/// The meta-governance engine.
#[derive(Debug)]
pub struct MetaGovernance {
    /// The active policy-change policy.
    pub change_policy: PolicyChangePolicy,
    /// History of all proposals, keyed by id.
    pub history: Table<ProposalId, ProposalRecord>,
}

impl Default for MetaGovernance {
    fn default() -> (m: MetaGovernance)
        ensures
            m.is_fresh(),
    {
        MetaGovernance::new()
    }
}

impl MetaGovernance {
    /// Whether the engine is as it starts.
    pub open spec fn is_fresh(&self) -> bool {
        self.change_policy == default_change_policy() && self.history@ == Map::<
            ProposalId,
            ProposalRecord,
        >::empty()
    }

    /// Whether nothing in the history got past the pending state without a
    /// human approval.
    pub open spec fn all_approved(&self) -> bool {
        forall|id: ProposalId| #[trigger]
            self.history@.dom().contains(id) ==> is_approved(self.history@[id])
    }

    /// Whether a proposal with an approval could be scheduled: it is not
    /// pending, or the time at which it takes effect is in range.
    pub open spec fn can_schedule(&self, id: ProposalId, approval: HumanApproval) -> bool {
        self.history@.dom().contains(id) && self.history@[id].state == ProposalState::Pending
            ==> i64::MIN <= effective_nanos(
            approval.approved_at,
            self.change_policy.approval_delay_secs,
        ) <= i64::MAX
    }

    /// An engine with the default policy.
    pub fn new() -> (m: MetaGovernance)
        ensures
            m.is_fresh(),
            m.all_approved(),
    {
        MetaGovernance { change_policy: PolicyChangePolicy::default(), history: Table::new() }
    }

    /// Records a proposal under an id, pending.
    pub fn propose_change_as(&mut self, id: ProposalId, proposal: PolicyChange)
        ensures
            final(self).history@ == old(self).history@.insert(
                id,
                (ProposalRecord {
                    id,
                    change: proposal,
                    state: ProposalState::Pending,
                    approval: None,
                    audit_entry: None,
                }),
            ),
            final(self).change_policy == old(self).change_policy,
            old(self).all_approved() ==> final(self).all_approved(),
    {
        let record = ProposalRecord {
            id,
            change: proposal,
            state: ProposalState::Pending,
            approval: None,
            audit_entry: None,
        };
        self.history.insert(id, record);
    }

    /// Records a proposal under a fresh id, pending, and returns the id.
    pub fn propose_change(&mut self, proposal: PolicyChange) -> (r: Result<ProposalId, MetaError>)
        ensures
            match r {
                Ok(id) => ident::is_random_uuid(id) && final(self).history@
                    == old(self).history@.insert(
                    id,
                    (ProposalRecord {
                        id,
                        change: proposal,
                        state: ProposalState::Pending,
                        approval: None,
                        audit_entry: None,
                    }),
                ),
                Err(_) => false,
            },
            final(self).change_policy == old(self).change_policy,
            old(self).all_approved() ==> final(self).all_approved(),
    {
        let id: u128 = ident::new_uuid();
        self.propose_change_as(id, proposal);
        Ok(id)
    }

    /// Ratifies a pending proposal with a human approval; it takes effect when
    /// the delay has passed since the approval.
    pub fn ratify(&mut self, id: ProposalId, human_approval: HumanApproval) -> (r: Result<
        (),
        MetaError,
    >)
        requires
            old(self).can_schedule(id, human_approval),
        ensures
            final(self).change_policy == old(self).change_policy,
            !old(self).history@.dom().contains(id) ==> is_not_found(r, id),
            old(self).history@.dom().contains(id) ==> {
                let before = old(self).history@[id];
                let after = final(self).history@[id];
                if before.state == ProposalState::Pending {
                    &&& r is Ok
                    &&& final(self).history@ == old(self).history@.insert(id, after)
                    &&& same_proposal(after, before)
                    &&& after.audit_entry == before.audit_entry
                    &&& after.approval == Some(human_approval)
                    &&& after.state matches ProposalState::Ratified { ratified_at, effective_at }
                    &&& ratified_at == human_approval.approved_at
                    &&& effective_at.nanos == effective_nanos(
                        human_approval.approved_at,
                        old(self).change_policy.approval_delay_secs,
                    )
                } else {
                    r matches Err(MetaError::NotPending { id: i, state }) && i == id && state@
                        == state_text_of(before.state)
                }
            },
            r is Err ==> *final(self) == *old(self),
            old(self).all_approved() ==> final(self).all_approved(),
    {
        let delay: i64 = self.change_policy.approval_delay_secs;
        match self.history.get(&id) {
            None => {
                return Err(MetaError::NotFound { id });
            },
            Some(record) => {
                match record.state {
                    ProposalState::Pending => {},
                    _ => {
                        return Err(MetaError::NotPending { id, state: record.state.to_text() });
                    },
                }
            },
        }
        let ratified_at = human_approval.approved_at;
        assert(-9_223_372_036_854_775_808_000_000_000 <= delay * NANOS_PER_SECOND
            <= 9_223_372_036_854_775_807_000_000_000) by (nonlinear_arith)
            requires
                -9_223_372_036_854_775_808 <= delay <= 9_223_372_036_854_775_807,
                NANOS_PER_SECOND == 1_000_000_000,
        ;
        let at: i128 = ratified_at.nanos as i128 + delay as i128 * NANOS_PER_SECOND as i128;
        let effective_at = Timestamp::from_nanos(at as i64);
        match self.history.get_mut(&id) {
            Some(record) => {
                record.approval = Some(human_approval);
                record.state = ProposalState::Ratified { ratified_at, effective_at };
            },
            None => {},
        }
        Ok(())
    }

    /// Applies a ratified proposal if its delay has elapsed. `Ok(false)`: it is
    /// still waiting.
    pub fn apply_if_ready(&mut self, id: ProposalId, now: Timestamp) -> (r: Result<bool, MetaError>)
        ensures
            final(self).change_policy == old(self).change_policy,
            !old(self).history@.dom().contains(id) ==> is_not_found(r, id),
            old(self).history@.dom().contains(id) ==> {
                let before = old(self).history@[id];
                let after = final(self).history@[id];
                match before.state {
                    ProposalState::Ratified { effective_at, .. } => if now.nanos
                        < effective_at.nanos {
                        r == Ok::<bool, MetaError>(false)
                    } else {
                        &&& r == Ok::<bool, MetaError>(true)
                        &&& final(self).history@ == old(self).history@.insert(id, after)
                        &&& same_proposal(after, before)
                        &&& after.approval == before.approval
                        &&& after.state == (ProposalState::Applied { applied_at: now })
                        &&& after.audit_entry matches Some(line) && line@ == audit_line(id, now)
                    },
                    _ => r matches Err(MetaError::NotRatified { id: i }) && i == id,
                }
            },
            r != Ok::<bool, MetaError>(true) ==> *final(self) == *old(self),
            old(self).all_approved() ==> final(self).all_approved(),
    {
        let effective_at = match self.history.get(&id) {
            None => {
                return Err(MetaError::NotFound { id });
            },
            Some(record) => match record.state {
                ProposalState::Ratified { effective_at, .. } => effective_at,
                _ => {
                    return Err(MetaError::NotRatified { id });
                },
            },
        };
        if now.nanos < effective_at.nanos {
            return Ok(false);
        }
        let mut line = String::from_str("applied proposal ");
        let digits = ident::uuid_text(id);
        line.append(digits.as_str());
        line.append(" at ");
        let time = clock::rfc3339(&now);
        line.append(time.as_str());
        match self.history.get_mut(&id) {
            Some(record) => {
                record.state = ProposalState::Applied { applied_at: now };
                record.audit_entry = Some(line);
            },
            None => {},
        }
        Ok(true)
    }

    /// Reverts an applied proposal at a time.
    pub fn revert_at(&mut self, id: ProposalId, now: Timestamp) -> (r: Result<(), MetaError>)
        ensures
            final(self).change_policy == old(self).change_policy,
            !old(self).history@.dom().contains(id) ==> is_not_found(r, id),
            old(self).history@.dom().contains(id) ==> {
                let before = old(self).history@[id];
                if before.state is Applied {
                    &&& r is Ok
                    &&& final(self).history@ == old(self).history@.insert(
                        id,
                        (ProposalRecord {
                            state: ProposalState::Reverted { reverted_at: now },
                            ..before
                        }),
                    )
                } else {
                    r matches Err(MetaError::NotApplied { id: i, state }) && i == id && state@
                        == state_text_of(before.state)
                }
            },
            r is Err ==> *final(self) == *old(self),
            old(self).all_approved() ==> final(self).all_approved(),
    {
        match self.history.get(&id) {
            None => {
                return Err(MetaError::NotFound { id });
            },
            Some(record) => {
                match record.state {
                    ProposalState::Applied { .. } => {},
                    _ => {
                        return Err(MetaError::NotApplied { id, state: record.state.to_text() });
                    },
                }
            },
        }
        match self.history.get_mut(&id) {
            Some(record) => {
                record.state = ProposalState::Reverted { reverted_at: now };
            },
            None => {},
        }
        Ok(())
    }

    /// Reverts an applied proposal now.
    pub fn revert(&mut self, id: ProposalId) -> (r: Result<(), MetaError>)
        ensures
            final(self).change_policy == old(self).change_policy,
            !old(self).history@.dom().contains(id) ==> is_not_found(r, id),
            old(self).history@.dom().contains(id) ==> {
                let before = old(self).history@[id];
                if before.state is Applied {
                    &&& r is Ok
                    &&& final(self).history@[id].state is Reverted
                    &&& final(self).history@ == old(self).history@.insert(
                        id,
                        (ProposalRecord { state: final(self).history@[id].state, ..before }),
                    )
                } else {
                    r matches Err(MetaError::NotApplied { id: i, state }) && i == id && state@
                        == state_text_of(before.state)
                }
            },
            r is Err ==> *final(self) == *old(self),
            old(self).all_approved() ==> final(self).all_approved(),
    {
        self.revert_at(id, Timestamp::now())
    }

    /// The state of a proposal.
    pub fn state(&self, id: ProposalId) -> (r: Option<&ProposalState>)
        ensures
            match r {
                Some(s) => self.history@.dom().contains(id) && *s == self.history@[id].state,
                None => !self.history@.dom().contains(id),
            },
    {
        match self.history.get(&id) {
            Some(record) => Some(&record.state),
            None => None,
        }
    }

    /// Number of proposals recorded.
    pub fn len(&self) -> (n: usize)
        ensures
            n == self.history@.dom().len(),
    {
        self.history.len()
    }

    /// Whether no proposal is recorded.
    pub fn is_empty(&self) -> (r: bool)
        ensures
            r == (self.history@.dom().len() == 0),
    {
        self.history.len() == 0
    }
}

/// Under the default policy a change waits at least a day between approval and
/// effect.
pub proof fn waits_a_day(approved_at: Timestamp, now: Timestamp)
    requires
        now.nanos >= effective_nanos(approved_at, default_change_policy().approval_delay_secs),
    ensures
        clock::seconds_between(approved_at, now) >= 86_400,
{
    let d = clock::nanos_between(approved_at, now);
    assert(d >= 86_400_000_000_000);
    assert(d / 1_000_000_000 >= 86_400);
}

/// A change waits a day after its approval, needs a human, must be reversible
/// and is written to the audit.
pub proof fn changes_are_slow()
    ensures
        default_change_policy().approval_delay_secs == 24 * 60 * 60,
        default_change_policy().require_human_approval,
        default_change_policy().require_reversibility,
        default_change_policy().require_audit_entry,
{
}

/// A change takes effect its delay after the approval, in seconds.
pub proof fn delays_are_in_seconds(approved_at: Timestamp, effective: Timestamp, delay_secs: i64)
    requires
        effective.nanos == effective_nanos(approved_at, delay_secs),
    ensures
        clock::seconds_between(approved_at, effective) == delay_secs,
{
    let d = delay_secs as int;
    assert(d >= 0 ==> (d * 1_000_000_000) / 1_000_000_000 == d);
    assert(d < 0 ==> ((-d) * 1_000_000_000) / 1_000_000_000 == -d);
}

/// How a state and an error are worded.
pub proof fn states_and_errors_are_worded(s: ProposalState, e: MetaError, id: u128, at: Timestamp)
    ensures
        state_text_of(ProposalState::Pending) == "Pending"@,
        state_text_of(ProposalState::Withdrawn) == "Withdrawn"@,
        state_text_of(ProposalState::Applied { applied_at: at }) == "Applied { applied_at: "@
            + clock::debug_of(at.nanos as int) + " }"@,
        state_text_of(ProposalState::Reverted { reverted_at: at }) == "Reverted { reverted_at: "@
            + clock::debug_of(at.nanos as int) + " }"@,
        s is Ratified ==> state_text_of(s) == "Ratified { ratified_at: "@ + clock::debug_of(
            s->ratified_at.nanos as int,
        ) + ", effective_at: "@ + clock::debug_of(s->effective_at.nanos as int) + " }"@,
        error_text(MetaError::NotFound { id }) == "proposal not found: "@ + ident::uuid_digits(id),
        error_text(MetaError::NotRatified { id }) == "proposal "@ + ident::uuid_digits(id)
            + " not ratified"@,
        e is NotPending ==> error_text(e) == "proposal "@ + ident::uuid_digits(e->NotPending_id)
            + " not pending (state: "@ + e->NotPending_state@ + ")"@,
        e is NotApplied ==> error_text(e) == "proposal "@ + ident::uuid_digits(e->NotApplied_id)
            + " not applied (state: "@ + e->NotApplied_state@ + ")"@,
        e is AuditWriteFailed ==> error_text(e) == "audit entry write failed: "@
            + e->AuditWriteFailed_0@,
        audit_line(id, at) == "applied proposal "@ + ident::uuid_digits(id) + " at "@
            + clock::rfc3339_of(at.nanos as int),
{
}

} // verus!
