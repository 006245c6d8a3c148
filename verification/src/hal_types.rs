//! The data that flows through the HAL pipeline: contexts, results, decisions
//! and component scores.

use vstd::prelude::*;
use vstd::string::StringExecFns;

use crate::clock::Timestamp;
use crate::score::Score;
use crate::table::Table;

pub use crate::risk_scorer::ComponentScores as HalComponentScores;
pub use crate::risk_scorer::ComponentScores as ComponentScoresV2;

verus! {

/// What HAL decides about an action.
#[derive(Clone, Copy, Debug, PartialEq, Eq, Structural)]
pub enum HALDecision {
    /// Let the action run.
    Allow,
    /// Allow the action and surface a non-blocking notice to the user.
    AllowWithNotice,
    /// Defer the action and ask the user for confirmation.
    Ask,
    /// Let the action run and notify the user.
    Notify,
    /// Ask the user to confirm.
    Confirm,
    /// Do not let the action run.
    Block,
    /// Block the action and emit a high-priority alert (operator-visible).
    BlockAndAlert,
    /// Hand the decision to a higher authority.
    Escalate,
}

/// How severe an intent is.
#[derive(Clone, Copy, Debug, PartialEq, Eq, Structural)]
pub enum IntentSeverity {
    /// Low.
    Low,
    /// Moderate.
    Moderate,
    /// High.
    High,
    /// Critical.
    Critical,
}

/// How sensitive the system calls of an action are.
#[derive(Clone, Copy, Debug, PartialEq, Eq, Structural)]
pub enum SyscallSensitivity {
    /// Safe.
    Safe,
    /// Sensitive.
    Sensitive,
    /// Dangerous.
    Dangerous,
    /// Irreversible.
    Irreversible,
}

/// How far the origin of an action is believed.
#[derive(Clone, Copy, Debug, PartialEq, Eq, Structural)]
pub enum ProvenanceConfidence {
    /// Verified.
    Verified,
    /// Trusted.
    Trusted,
    /// Uncertain.
    Uncertain,
    /// Forged.
    Forged,
}

/// What is known of an agent's behaviour.
#[derive(Clone, Copy, Debug, PartialEq, Eq, Structural)]
pub struct BehavioralMetrics {
    /// How unusual the agent acts.
    pub anomaly_score: Score,
    /// How much its behaviour varies.
    pub volatility_score: Score,
    /// How often it tried to escalate.
    pub escalation_attempts: u32,
    /// How steady it has been.
    pub historical_stability: Score,
    /// How often it failed of late.
    pub recent_failures: u32,
}

/// Where an action comes from.
#[derive(Clone, Debug)]
pub struct ProvenanceData {
    /// The agent it comes from.
    pub source_agent: String,
    /// Fingerprint of that agent's certificate.
    pub certificate_fingerprint: String,
    /// Hash of the chain of trust.
    pub trust_chain_hash: String,
    /// Whether the signature was verified.
    pub signature_verified: bool,
    /// Whether the action was checked for replay.
    pub replay_checked: bool,
    /// How far the origin is believed.
    pub confidence: ProvenanceConfidence,
}

/// The user session around an action.
#[derive(Clone, Debug)]
pub struct SessionContext {
    /// Identifier of the session.
    pub session_id: String,
    /// Whether the user is present.
    pub user_present: bool,
    /// The workspace in use.
    pub active_workspace: String,
    /// The title of the window in use.
    pub active_window_title: String,
    /// Whether the session demands confirmations.
    pub requires_confirmation: bool,
    /// How attentive the user is.
    pub user_attention_score: Score,
}

/// The capabilities around an action.
#[derive(Clone, Debug)]
pub struct CapabilityContext {
    /// Granted capabilities.
    pub granted_capabilities: Vec<String>,
    /// Capabilities granted for a while.
    pub temporary_grants: Vec<String>,
    /// Denied capabilities.
    pub denied_capabilities: Vec<String>,
    /// When the grants expire.
    pub capability_expiry_ms: i64,
}

/// The inputs of the weighted risk.
#[derive(Clone, Copy, Debug, PartialEq, Eq, Structural)]
pub struct RiskVector {
    /// Risk of the intent.
    pub intent_risk: Score,
    /// Risk of the system calls.
    pub syscall_risk: Score,
    /// Lack of trust.
    pub trust_deficit: Score,
    /// Risk of anomalies.
    pub anomaly_risk: Score,
    /// Risk of volatility.
    pub volatility_risk: Score,
    /// Confidence of the user.
    pub user_confidence: Score,
    /// Confidence in the origin.
    pub provenance_confidence: Score,
}

/// An action together with everything that HAL consults about it.
#[derive(Debug)]
pub struct HALContext {
    /// Identifier of the intent.
    pub intent_id: String,
    /// The agent that acts.
    pub source_agent: String,
    /// What it acts on.
    pub target_resource: String,
    /// What it does.
    pub requested_action: String,
    /// How severe the intent is.
    pub severity: IntentSeverity,
    /// How sensitive its system calls are.
    pub syscall_sensitivity: SyscallSensitivity,
    /// Where it comes from.
    pub provenance: ProvenanceData,
    /// How the agent behaves.
    pub behavioral: BehavioralMetrics,
    /// The session around it.
    pub session: SessionContext,
    /// The capabilities around it.
    pub capabilities: CapabilityContext,
    /// Free-form metadata.
    pub metadata: Table<String, String>,
}

/// HAL's verdict on an action.
#[derive(Clone, Debug)]
pub struct HALResult {
    /// The decision.
    pub decision: HALDecision,
    /// The risk it rests on.
    pub computed_risk: Score,
    /// The confidence it rests on.
    pub confidence: Score,
    /// An explanation.
    pub explanation: String,
    /// The rules that the action violates.
    pub violated_rules: Vec<String>,
    /// A tag for the audit trail.
    pub audit_hash: String,
    /// Whether the user has to be asked.
    pub requires_user_prompt: bool,
    /// Whether the action has to be escalated.
    pub escalation_required: bool,
}

/// An anomaly seen at run time.
#[derive(Debug)]
pub struct RuntimeAnomaly {
    /// Its kind.
    pub anomaly_type: String,
    /// How severe it is.
    pub severity: Score,
    /// A description.
    pub description: String,
    /// When it was seen.
    pub detected_at: i64,
}

impl Clone for RuntimeAnomaly {
    fn clone(&self) -> (r: RuntimeAnomaly)
        ensures
            r == *self,
    {
        RuntimeAnomaly {
            anomaly_type: self.anomaly_type.clone(),
            severity: self.severity,
            description: self.description.clone(),
            detected_at: self.detected_at,
        }
    }
}

/// An event of the hash-linked audit trail.
#[derive(Debug)]
pub struct AuditEvent {
    /// Identifier of the event.
    pub audit_id: String,
    /// Hash of the event before it.
    pub parent_hash: String,
    /// Its own hash.
    pub event_hash: String,
    /// Its kind.
    pub event_type: String,
    /// When it happened.
    pub timestamp: i64,
    /// The agent that caused it.
    pub source_agent: String,
    /// Hash of its payload.
    pub payload_hash: String,
}

impl Clone for AuditEvent {
    fn clone(&self) -> (r: AuditEvent)
        ensures
            r == *self,
    {
        AuditEvent {
            audit_id: self.audit_id.clone(),
            parent_hash: self.parent_hash.clone(),
            event_hash: self.event_hash.clone(),
            event_type: self.event_type.clone(),
            timestamp: self.timestamp,
            source_agent: self.source_agent.clone(),
            payload_hash: self.payload_hash.clone(),
        }
    }
}

/// The bounds within which agents act.
#[derive(Clone, Copy, Debug, PartialEq, Eq, Structural)]
pub struct RestraintBoundary {
    /// The greatest risk allowed.
    pub maximum_allowed_risk: Score,
    /// Whether irreversible actions are locked.
    pub irreversible_action_lock: bool,
    /// Whether the user has to be present.
    pub require_user_presence: bool,
    /// Whether more than one factor is needed.
    pub require_multi_factor: bool,
}

/// The trust in an agent.
#[derive(Clone, Copy, Debug, PartialEq, Eq, Structural)]
pub struct TrustState {
    /// The present trust.
    pub current_score: Score,
    /// The average over time.
    pub historical_average: Score,
    /// How fast trust decays.
    pub decay_rate: Score,
    /// How fast trust recovers.
    pub recovery_rate: Score,
    /// Whether the agent is suspected to be compromised.
    pub compromise_suspected: bool,
}

/// How far a matter is escalated.
#[derive(Clone, Copy, Debug, PartialEq, Eq, Structural)]
pub enum EscalationLevel {
    /// Not at all.
    NoEscalation,
    /// Low.
    Low,
    /// Medium.
    Medium,
    /// High.
    High,
    /// Critical.
    Critical,
}

/// An escalation and what it calls for.
#[derive(Debug)]
pub struct EscalationContext {
    /// How far it goes.
    pub level: EscalationLevel,
    /// Why.
    pub reason: String,
    /// Whether the agent is to be isolated.
    pub requires_isolation: bool,
    /// Whether evidence is to be secured.
    pub requires_forensics: bool,
}

impl Clone for EscalationContext {
    fn clone(&self) -> (r: EscalationContext)
        ensures
            r == *self,
    {
        EscalationContext {
            level: self.level,
            reason: self.reason.clone(),
            requires_isolation: self.requires_isolation,
            requires_forensics: self.requires_forensics,
        }
    }
}

/// The full bundle of inputs that HAL consults about an action.
#[derive(Debug)]
pub struct HALContextV2 {
    /// The user on whose behalf the action is being taken.
    pub user_id: String,
    /// The session the action belongs to.
    pub session_id: String,
    /// The agent proposing the action.
    pub agent_id: String,
    /// The origin of the action (e.g. "user_request", "planner").
    pub source: String,
    /// The action descriptor itself, as a JSON text.
    pub action: String,
    /// Snapshot of relevant system state at decision time.
    pub system_state: SystemStateSnapshot,
    /// The user's recent action history, summarized.
    pub user_history: UserHistorySummary,
    /// Time-of-day and temporal-anomaly context.
    pub time_context: TimeContext,
    /// Snapshot of the trust state for the acting agent.
    pub trust_snapshot: TrustSnapshot,
}

/// The decision HAL reached, plus the supporting scores and metadata.
#[derive(Clone, Debug)]
pub struct HALResultV2 {
    /// The decision HAL reached.
    pub decision: HALDecision,
    /// The final risk score in `[0, 1]`.
    pub risk_score: Score,
    /// Per-component scores, for transparency and audit.
    pub components: HalComponentScores,
    /// If the decision was Block or Ask, the reason that triggered it.
    pub gate_reason: Option<BlockReason>,
    /// Identifier of the audit entry recording this decision.
    pub audit_id: String,
    /// When this result expires and must be re-evaluated.
    pub expires_at: Timestamp,
}

/// Reasons HAL may gate or block an action.
#[derive(Clone, Copy, Debug, PartialEq, Eq, Structural)]
pub enum BlockReason {
    /// A hard risk floor was triggered.
    RiskFloor,
    /// The user has insufficient history with this action to auto-approve.
    UserHistoryInsufficient,
    /// The action targets a dangerous path (kernel, system, etc.).
    DangerousPath,
    /// An explicit policy in the governance kernel denies this action.
    PolicyDeny,
    /// The action violates a constitutional article.
    ConstitutionViolation,
    /// The action threatens a protected resource (existential governor).
    ExistentialThreat,
    /// The acting agent is currently rate-limited by the recursion limiter.
    RecursionLimited,
    /// The action is irreversible and the user has not opted into auto-approve
    /// for irreversible actions.
    IrreversibleWithoutOptIn,
    /// The proposed action is a self-rewrite that requires human review.
    SelfRewriteRequiresReview,
    /// A meta-governance rule (e.g. autonomy escalation) requires human
    /// consent.
    RequiresConsent,
    /// Any other gate reason.
    Other,
}

/// Snapshot of relevant system state at decision time.
#[derive(Debug)]
pub struct SystemStateSnapshot {
    /// Current autonomy level (e.g. "Supervised", "Advisory", ...).
    pub autonomy_level: String,
    /// Whether HAL is currently in lockdown.
    pub lockdown: bool,
    /// Whether the audit chain has been verified since boot.
    pub audit_chain_verified: bool,
    /// Free-form metadata.
    pub metadata: Table<String, String>,
}

impl Default for SystemStateSnapshot {
    fn default() -> (s: SystemStateSnapshot)
        ensures
            s.autonomy_level@ == "Supervised"@,
            !s.lockdown,
            !s.audit_chain_verified,
            s.metadata@ == Map::<Seq<char>, String>::empty(),
    {
        SystemStateSnapshot {
            autonomy_level: String::from_str("Supervised"),
            lockdown: false,
            audit_chain_verified: false,
            metadata: Table::new(),
        }
    }
}

/// Summary of the user's recent action history.
#[derive(Clone, Copy, Debug, PartialEq, Eq, Structural)]
pub struct UserHistorySummary {
    /// Number of times the user has performed this exact action.
    pub count: u32,
    /// Whether this action is in the user's routine set (more than 100
    /// occurrences).
    pub is_routine: bool,
    /// The last time the user performed this action, if ever.
    pub last_performed: Option<Timestamp>,
}

impl Default for UserHistorySummary {
    fn default() -> (s: UserHistorySummary)
        ensures
            s.count == 0,
            !s.is_routine,
            s.last_performed is None,
    {
        UserHistorySummary { count: 0, is_routine: false, last_performed: None }
    }
}

/// Time-of-day and temporal-anomaly context.
#[derive(Clone, Copy, Debug, PartialEq, Eq, Structural)]
pub struct TimeContext {
    /// The wall-clock time of the action.
    pub now: Timestamp,
    /// The local-time hour bucket (0-23) the action falls in.
    pub local_hour: u32,
    /// Whether the action is occurring outside the user's normal hours.
    pub is_unusual_hour: bool,
    /// Whether the action's scope is also unusual for this time.
    pub unusual_time_and_scope: bool,
}

impl TimeContext {
    /// The context of an ordinary action at a given time.
    pub fn at(now: Timestamp) -> (c: TimeContext)
        ensures
            c == (TimeContext {
                now,
                local_hour: 0,
                is_unusual_hour: false,
                unusual_time_and_scope: false,
            }),
    {
        TimeContext { now, local_hour: 0, is_unusual_hour: false, unusual_time_and_scope: false }
    }
}

impl Default for TimeContext {
    fn default() -> (c: TimeContext)
        ensures
            c.local_hour == 0,
            !c.is_unusual_hour,
            !c.unusual_time_and_scope,
    {
        TimeContext::at(Timestamp::now())
    }
}

/// Snapshot of the trust state for the acting agent.
#[derive(Clone, Copy, Debug, PartialEq, Eq, Structural)]
pub struct TrustSnapshot {
    /// The agent's effective trust score in `[0, 1]`.
    pub trust_score: Score,
    /// The agent's reputation score in `[0, 1]`.
    pub reputation_score: Score,
    /// Whether the agent is currently under any trust penalty.
    pub penalized: bool,
    /// When the trust score was last updated.
    pub last_updated: Timestamp,
}

impl TrustSnapshot {
    /// Neutral trust, last updated at a given time.
    pub fn at(last_updated: Timestamp) -> (s: TrustSnapshot)
        ensures
            s.trust_score.nanos == 500_000_000,
            s.reputation_score.nanos == 500_000_000,
            !s.penalized,
            s.last_updated == last_updated,
    {
        TrustSnapshot {
            trust_score: Score::from_nanos(500_000_000),
            reputation_score: Score::from_nanos(500_000_000),
            penalized: false,
            last_updated,
        }
    }
}

impl Default for TrustSnapshot {
    fn default() -> (s: TrustSnapshot)
        ensures
            s.trust_score.nanos == 500_000_000,
            s.reputation_score.nanos == 500_000_000,
            !s.penalized,
    {
        TrustSnapshot::at(Timestamp::now())
    }
}

} // verus!
