//! The policy gate that other services ask before they touch a device or a path.
//!
//! A request is classified by the action validator's rules and scored by the
//! risk scorer; this module only maps inputs and outcomes.

use vstd::prelude::*;
use vstd::string::StringExecFns;

use crate::action_validator;
use crate::action_validator::ActionValidator;
use crate::hal_types::BehavioralMetrics;
use crate::hal_types::CapabilityContext;
use crate::hal_types::HALContext;
use crate::hal_types::IntentSeverity;
use crate::hal_types::ProvenanceConfidence;
use crate::hal_types::ProvenanceData;
use crate::hal_types::SessionContext;
use crate::hal_types::SyscallSensitivity;
use crate::ident;
use crate::risk_scorer::score_action;
use crate::risk_scorer::IrreversibilityLevel;
use crate::risk_scorer::PatternMatchLevel;
use crate::risk_scorer::ProposedAction;
use crate::risk_scorer::RiskLevel;
use crate::risk_scorer::ScopeLevel;
use crate::risk_scorer::SystemContext;
use crate::risk_scorer::TimeAnomalyLevel;
use crate::risk_scorer::TrustContextLevel;
use crate::risk_scorer::UserHistoryLevel;
use crate::risk_scorer::VibeFlagLevel;
use crate::score::Score;
use crate::table::Table;
use crate::text;

verus! {

/// A request to the policy gate.
#[derive(Clone, Debug)]
pub struct HalGateRequest {
    /// The capability that the caller claims.
    pub capability: String,
    /// The operation.
    pub op: String,
    /// The device or path that it targets.
    pub device: String,
    /// Whether the caller can wait for an approval.
    pub allow_approval: bool,
    /// Identifier of the trace.
    pub trace_id: String,
}

/// Why the policy gate refuses a request.
#[derive(Clone, Debug)]
pub struct GateViolation {
    /// The capability that was claimed.
    pub required: String,
    /// The capability that is held.
    pub held: String,
    /// The kind of violation.
    pub reason: String,
    /// A message.
    pub message: String,
    /// The agent that reports it.
    pub agent_id: String,
    /// Identifier of the trace.
    pub trace_id: String,
}

/// The answer of the policy gate.
#[derive(Clone, Debug)]
pub struct HalGateResponse {
    /// "granted", "approval_required" or "denied".
    pub status: String,
    /// A token for a granted request, otherwise empty.
    pub grant_token: String,
    /// The risk of the request.
    pub risk_score: Score,
    /// Payload; always empty.
    pub data: Vec<u8>,
    /// Why the request is denied.
    pub violation: Option<GateViolation>,
    /// Identifier of the trace.
    pub trace_id: String,
}

/// The policy gate.
pub struct PolicyHalGate;

/// Whether an operation, in lower case, names a delete.
pub open spec fn names_delete(lower: Seq<char>) -> bool {
    text::occurs_in(lower, "delete"@) || text::occurs_in(lower, "unlink"@) || lower == "rm"@
        || text::begins_with(lower, "rm "@) || text::occurs_in(lower, "remove"@)
}

/// Whether an operation in lower case names a delete.
pub fn lower_names_delete(lower: &str) -> (r: bool)
    ensures
        r == names_delete(lower@),
{
    text::text_contains(lower, "delete") || text::text_contains(lower, "unlink")
        || text::same_text(lower, "rm") || text::text_begins_with(lower, "rm ")
        || text::text_contains(lower, "remove")
}

/// Whether an operation names a delete, in whatever case.
pub fn is_delete_op(op: &str) -> (r: bool)
    ensures
        r == names_delete(text::lowercase(op@)),
{
    let lower = text::to_lowercase(op);
    lower_names_delete(lower.as_str())
}

/// The risk of a request, in billionths: the kernel floor on a dangerous path,
/// the delete floor on any other delete, and nothing otherwise.
pub open spec fn gate_risk(dangerous: bool, delete: bool) -> int {
    if dangerous {
        700_000_000
    } else if delete {
        500_000_000
    } else {
        0
    }
}

/// The message of a refusal, or `None` where the request is not refused.
pub open spec fn refusal(req: HalGateRequest) -> Option<Seq<char>> {
    if action_validator::is_destructive(req.op@) {
        Some("destructive command pattern blocked by HAL"@)
    } else if action_validator::is_dangerous_path(req.device@) && !req.allow_approval {
        Some("user confirmation required but approval flow disabled"@)
    } else {
        None
    }
}

/// The status of a request.
pub open spec fn status_of(req: HalGateRequest) -> Seq<char> {
    if refusal(req) is Some {
        "denied"@
    } else if action_validator::is_dangerous_path(req.device@) {
        "approval_required"@
    } else {
        "granted"@
    }
}

/// Whether a request is granted at once.
pub open spec fn is_granted(req: HalGateRequest) -> bool {
    !action_validator::is_destructive(req.op@) && !action_validator::is_dangerous_path(req.device@)
}

/// Whether a violation is the refusal of a request with a message.
pub open spec fn is_refusal(v: GateViolation, req: HalGateRequest, message: Seq<char>) -> bool {
    &&& v.required@ == req.capability@
    &&& v.held@ == Seq::<char>::empty()
    &&& v.reason@ == "scope"@
    &&& v.message@ == message + " (target: "@ + req.device@ + ")"@
    &&& v.agent_id@ == "agent.hal"@
    &&& v.trace_id@ == req.trace_id@
}

/// What the policy gate answers, apart from the token, to a request of which it is
/// known whether it names a delete.
pub open spec fn is_answer(r: HalGateResponse, req: HalGateRequest, delete: bool) -> bool {
    &&& r.status@ == status_of(req)
    &&& r.risk_score.nanos == gate_risk(action_validator::is_dangerous_path(req.device@), delete)
    &&& r.data@.len() == 0
    &&& match (r.violation, refusal(req)) {
        (Some(v), Some(message)) => is_refusal(v, req, message),
        (None, None) => true,
        _ => false,
    }
    &&& r.trace_id@ == req.trace_id@
}

/// A benign context that carries only an operation and a path.
pub fn neutral_context(op: &str, path: &str) -> (c: HALContext)
    ensures
        c.requested_action@ == op@,
        c.target_resource@ == path@,
        c.intent_id@ == Seq::<char>::empty(),
        c.source_agent@ == "agent.orchestrator"@,
        c.severity == IntentSeverity::Low,
        c.syscall_sensitivity == SyscallSensitivity::Safe,
        c.provenance.source_agent@ == "agent.orchestrator"@,
        c.provenance.certificate_fingerprint@ == Seq::<char>::empty(),
        c.provenance.trust_chain_hash@ == Seq::<char>::empty(),
        c.provenance.signature_verified,
        c.provenance.replay_checked,
        c.provenance.confidence == ProvenanceConfidence::Trusted,
        c.behavioral == (BehavioralMetrics {
            anomaly_score: Score { nanos: 0 },
            volatility_score: Score { nanos: 0 },
            escalation_attempts: 0,
            historical_stability: Score { nanos: 1_000_000_000 },
            recent_failures: 0,
        }),
        c.session.session_id@ == Seq::<char>::empty(),
        c.session.user_present,
        c.session.active_workspace@ == Seq::<char>::empty(),
        c.session.active_window_title@ == Seq::<char>::empty(),
        !c.session.requires_confirmation,
        c.session.user_attention_score.nanos == 1_000_000_000,
        c.capabilities.granted_capabilities@.len() == 0,
        c.capabilities.temporary_grants@.len() == 0,
        c.capabilities.denied_capabilities@.len() == 0,
        c.capabilities.capability_expiry_ms == 0,
        c.metadata@ == Map::<Seq<char>, String>::empty(),
{
    HALContext {
        intent_id: String::new(),
        source_agent: String::from_str("agent.orchestrator"),
        target_resource: String::from_str(path),
        requested_action: String::from_str(op),
        severity: IntentSeverity::Low,
        syscall_sensitivity: SyscallSensitivity::Safe,
        provenance: ProvenanceData {
            source_agent: String::from_str("agent.orchestrator"),
            certificate_fingerprint: String::new(),
            trust_chain_hash: String::new(),
            signature_verified: true,
            replay_checked: true,
            confidence: ProvenanceConfidence::Trusted,
        },
        behavioral: BehavioralMetrics {
            anomaly_score: Score::zero(),
            volatility_score: Score::zero(),
            escalation_attempts: 0,
            historical_stability: Score::one(),
            recent_failures: 0,
        },
        session: SessionContext {
            session_id: String::new(),
            user_present: true,
            active_workspace: String::new(),
            active_window_title: String::new(),
            requires_confirmation: false,
            user_attention_score: Score::one(),
        },
        capabilities: CapabilityContext {
            granted_capabilities: Vec::new(),
            temporary_grants: Vec::new(),
            denied_capabilities: Vec::new(),
            capability_expiry_ms: 0,
        },
        metadata: Table::new(),
    }
}

/// The violation that refuses a request with a message.
pub fn gate_violation(req: &HalGateRequest, message: &str) -> (v: GateViolation)
    ensures
        is_refusal(v, *req, message@),
{
    let mut full = String::from_str(message);
    full.append(" (target: ");
    full.append(req.device.as_str());
    full.append(")");
    GateViolation {
        required: req.capability.clone(),
        held: String::new(),
        reason: String::from_str("scope"),
        message: full,
        agent_id: String::from_str("agent.hal"),
        trace_id: req.trace_id.clone(),
    }
}

proof fn status_words_differ()
    ensures
        "granted"@ != "denied"@,
        "granted"@ != "approval_required"@,
        "denied"@ != "approval_required"@,
{
    reveal_strlit("granted");
    reveal_strlit("denied");
    reveal_strlit("approval_required");
    assert("granted"@.len() == 7);
    assert("denied"@.len() == 6);
    assert("approval_required"@.len() == 17);
}

/// The validator reports a dangerous path and a destructive pattern exactly
/// where they are.
pub proof fn reported_rules(context: HALContext, raw_shell: bool)
    ensures
        action_validator::violations_of(context, raw_shell).contains("dangerous_path_access"@)
            <==> action_validator::is_dangerous_path(context.target_resource@),
        action_validator::violations_of(context, raw_shell).contains("destructive_pattern"@)
            <==> action_validator::is_destructive(context.requested_action@),
{
    reveal_strlit("dangerous_path_access");
    reveal_strlit("raw_shell_execution");
    reveal_strlit("privilege_escalation");
    reveal_strlit("destructive_pattern");
    reveal_strlit("suspicious_network");
    reveal_strlit("irreversible_action");
    assert("dangerous_path_access"@.len() == 21);
    assert("raw_shell_execution"@.len() == 19);
    assert("privilege_escalation"@.len() == 20);
    assert("destructive_pattern"@.len() == 19);
    assert("suspicious_network"@.len() == 18);
    assert("irreversible_action"@.len() == 19);
    assert("raw_shell_execution"@[0] != "destructive_pattern"@[0]);
    assert("irreversible_action"@[0] != "destructive_pattern"@[0]);
    let action = context.requested_action@;
    let path = context.target_resource@;
    let all = action_validator::violations_of(context, raw_shell);
    let v1 = text::push_if(
        Seq::empty(),
        action_validator::is_dangerous_path(path),
        "dangerous_path_access"@,
    );
    let v2 = text::push_if(v1, raw_shell, "raw_shell_execution"@);
    let v3 = text::push_if(
        v2,
        action_validator::is_privilege_escalation(action),
        "privilege_escalation"@,
    );
    if action_validator::is_dangerous_path(path) {
        assert(all[0] == "dangerous_path_access"@);
    }
    if action_validator::is_destructive(action) {
        assert(all[v3.len() as int] == "destructive_pattern"@);
    }
}

impl PolicyHalGate {
    /// Decides on a request of which it is known whether it names a delete;
    /// the token of a granted request is left empty.
    pub fn decide(&self, req: &HalGateRequest, is_delete: bool) -> (r: HalGateResponse)
        ensures
            is_answer(r, *req, is_delete),
            r.grant_token@ == Seq::<char>::empty(),
            "/etc"@.is_prefix_of(req.device@) || "/boot"@.is_prefix_of(req.device@) || "/sys"@.is_prefix_of(req.device@) || "/proc"@.is_prefix_of(req.device@) || "/dev"@.is_prefix_of(req.device@) || "/root"@.is_prefix_of(req.device@) || "/var/lib"@.is_prefix_of(req.device@) ==> r.status@ != "granted"@ && r.risk_score.nanos >= 700_000_000,
    {
        proof {
            action_validator::protected_prefixes_are_dangerous(
                req.device@,
                Seq::empty(),
                Seq::empty(),
            );
            status_words_differ();
        }
        let context = neutral_context(req.op.as_str(), req.device.as_str());
        let validation = ActionValidator::validate(&context, Score::zero(), Score::one());
        proof {
            reported_rules(context, action_validator::is_raw_shell(context.requested_action@));
        }
        let dangerous = text::has_text(
            validation.violated_rules.as_slice(),
            "dangerous_path_access",
        );
        let destructive = text::has_text(
            validation.violated_rules.as_slice(),
            "destructive_pattern",
        );
        let proposal = ProposedAction {
            action_type: req.op.clone(),
            target: req.device.clone(),
            agent: String::from_str("agent.orchestrator"),
            irreversibility: if is_delete {
                IrreversibilityLevel::Irreversible
            } else {
                IrreversibilityLevel::FullyReversible
            },
            scope: if dangerous {
                ScopeLevel::KernelLevel
            } else {
                ScopeLevel::SingleFileUserHome
            },
            trust_context: TrustContextLevel::KnownTrusted,
            time_anomaly: TimeAnomalyLevel::Normal,
            vibe_flag: VibeFlagLevel::NoAiCode,
            user_history: UserHistoryLevel::Routine,
            pattern_match: PatternMatchLevel::ExactMatch,
            is_kernel_adjacent: dangerous,
            is_delete,
        };
        let score = score_action(&proposal, &SystemContext::default());
        assert(score.score.nanos == gate_risk(dangerous, is_delete));
        let mut status = String::from_str("denied");
        let mut violation: Option<GateViolation> = None;
        if destructive {
            violation = Some(
                gate_violation(req, "destructive command pattern blocked by HAL"),
            );
        } else {
            match score.level {
                RiskLevel::Silent | RiskLevel::Notify => {
                    status = String::from_str("granted");
                },
                RiskLevel::Confirm => {
                    if req.allow_approval {
                        status = String::from_str("approval_required");
                    } else {
                        violation = Some(
                            gate_violation(
                                req,
                                "user confirmation required but approval flow disabled",
                            ),
                        );
                    }
                },
                RiskLevel::Block => {
                    violation = Some(gate_violation(req, score.explanation.as_str()));
                },
            }
        }
        HalGateResponse {
            status,
            grant_token: String::new(),
            risk_score: score.score,
            data: Vec::new(),
            violation,
            trace_id: req.trace_id.clone(),
        }
    }

    /// Answers a request. A granted request gets a fresh random token.
    pub fn evaluate(&self, req: &HalGateRequest) -> (r: HalGateResponse)
        ensures
            is_answer(r, *req, names_delete(text::lowercase(req.op@))),
            if is_granted(*req) {
                exists|id: u128|
                    ident::is_random_uuid(id) && r.grant_token@ == #[trigger] ident::uuid_digits(id)
            } else {
                r.grant_token@ == Seq::<char>::empty()
            },
            "/etc"@.is_prefix_of(req.device@) || "/boot"@.is_prefix_of(req.device@) || "/sys"@.is_prefix_of(req.device@) || "/proc"@.is_prefix_of(req.device@) || "/dev"@.is_prefix_of(req.device@) || "/root"@.is_prefix_of(req.device@) || "/var/lib"@.is_prefix_of(req.device@) ==> r.status@ != "granted"@ && r.risk_score.nanos >= 700_000_000
                && r.grant_token@.len() == 0,
    {
        let mut r = self.decide(req, is_delete_op(req.op.as_str()));
        proof {
            status_words_differ();
        }
        if text::same_text(r.status.as_str(), "granted") {
            let id: u128 = ident::new_uuid();
            r.grant_token = ident::uuid_text(id);
        }
        r
    }
}

/// A destructive command is always denied, a dangerous path is never granted
/// without an approval, and everything else is granted.
pub proof fn gate_outcomes(req: HalGateRequest)
    ensures
        action_validator::is_destructive(req.op@) ==> status_of(req) == "denied"@,
        action_validator::is_dangerous_path(req.device@) ==> status_of(req) != "granted"@,
        action_validator::is_dangerous_path(req.device@) && !req.allow_approval ==> status_of(req)
            == "denied"@,
        is_granted(req) <==> status_of(req) == "granted"@,
{
    status_words_differ();
}

/// A request for a device under one of the protected prefixes is never granted
/// and carries a risk of at least 0.7: it waits for an approval where the caller
/// can wait, and is denied otherwise.
pub proof fn protected_devices_are_never_granted(
    r: HalGateResponse,
    req: HalGateRequest,
    delete: bool,
    prefix: Seq<char>,
    rest: Seq<char>,
)
    requires
        is_answer(r, req, delete),
        prefix == "/etc"@ || prefix == "/boot"@ || prefix == "/sys"@ || prefix == "/proc"@ || prefix == "/dev"@ || prefix == "/root"@ || prefix == "/var/lib"@,
        req.device@ == prefix + rest,
    ensures
        r.status@ != "granted"@,
        r.risk_score.nanos >= 700_000_000,
        !req.allow_approval ==> r.status@ == "denied"@ && r.violation is Some,
        req.allow_approval && r.violation is None ==> r.status@ == "approval_required"@,
        !is_granted(req),
{
    action_validator::protected_prefixes_are_dangerous(req.device@, prefix, rest);
    status_words_differ();
}

/// A destructive operation is denied on any device, with the reason.
pub proof fn destructive_operations_are_denied(
    r: HalGateResponse,
    req: HalGateRequest,
    delete: bool,
    before: Seq<char>,
    marker: Seq<char>,
    after: Seq<char>,
)
    requires
        is_answer(r, req, delete),
        marker == "rm -rf /"@ || marker == ":(){ :|:& };:"@ || marker == "shutdown now"@ || marker == "reboot"@ || marker == "poweroff"@,
        req.op@ == before + marker + after,
    ensures
        r.status@ == "denied"@,
        r.violation matches Some(v) && v.required@ == req.capability@ && v.held@.len() == 0
            && v.reason@ == "scope"@ && v.agent_id@ == "agent.hal"@ && v.trace_id@ == req.trace_id@
            && v.message@ == "destructive command pattern blocked by HAL (target: "@ + req.device@
            + ")"@,
        !is_granted(req),
{
    text::occurrences_are_parts(req.op@, before, marker, after);
    reveal_strlit("destructive command pattern blocked by HAL");
    reveal_strlit(" (target: ");
    reveal_strlit("destructive command pattern blocked by HAL (target: ");
    assert("destructive command pattern blocked by HAL"@ + " (target: "@
        =~= "destructive command pattern blocked by HAL (target: "@);
    let v = r.violation->0;
    assert(v.message@ == "destructive command pattern blocked by HAL"@ + " (target: "@
        + req.device@ + ")"@);
}

/// An operation that is not destructive is granted on every device under none of
/// the protected prefixes, and there only. A grant carries no violation, and a
/// risk of a half for a delete and of nothing otherwise.
pub proof fn everything_else_is_granted(r: HalGateResponse, req: HalGateRequest, delete: bool)
    requires
        is_answer(r, req, delete),
    ensures
        r.status@ == "granted"@ <==> !action_validator::is_destructive(req.op@) && !"/etc"@.is_prefix_of(req.device@) && !"/boot"@.is_prefix_of(req.device@) && !"/sys"@.is_prefix_of(req.device@) && !"/proc"@.is_prefix_of(req.device@) && !"/dev"@.is_prefix_of(req.device@) && !"/root"@.is_prefix_of(req.device@) && !"/var/lib"@.is_prefix_of(req.device@),
        r.status@ == "granted"@ ==> r.violation is None,
        r.status@ == "approval_required"@ ==> r.violation is None && req.allow_approval,
        r.status@ == "denied"@ <==> r.violation is Some,
        r.status@ == "granted"@ || r.status@ == "approval_required"@ || r.status@ == "denied"@,
        r.status@ == "granted"@ && delete ==> r.risk_score.nanos == 500_000_000,
        r.status@ == "granted"@ && !delete ==> r.risk_score.nanos == 0,
        r.status@ == "approval_required"@ ==> r.risk_score.nanos == 700_000_000,
        delete ==> r.risk_score.nanos >= 500_000_000,
        r.data@.len() == 0,
        r.trace_id@ == req.trace_id@,
{
    action_validator::protected_prefixes_are_dangerous(req.device@, Seq::empty(), Seq::empty());
    status_words_differ();
}

/// A refusal because nobody can approve says so and names the device.
pub proof fn unapprovable_requests_say_so(r: HalGateResponse, req: HalGateRequest, delete: bool)
    requires
        is_answer(r, req, delete),
        r.status@ == "denied"@,
        !action_validator::is_destructive(req.op@),
    ensures
        !req.allow_approval,
        r.violation matches Some(v) && v.message@
            == "user confirmation required but approval flow disabled (target: "@ + req.device@
            + ")"@,
{
    status_words_differ();
    reveal_strlit("user confirmation required but approval flow disabled");
    reveal_strlit(" (target: ");
    reveal_strlit("user confirmation required but approval flow disabled (target: ");
    assert("user confirmation required but approval flow disabled"@ + " (target: "@
        =~= "user confirmation required but approval flow disabled (target: "@);
    let v = r.violation->0;
    assert(v.message@ == "user confirmation required but approval flow disabled"@ + " (target: "@
        + req.device@ + ")"@);
}

/// Deleting, unlinking and removing, anywhere in an operation, and `rm` as its
/// first word name a delete; nothing else does.
pub proof fn deletes_are_recognized(op: Seq<char>, before: Seq<char>, after: Seq<char>)
    ensures
        names_delete(before + "delete"@ + after),
        names_delete(before + "unlink"@ + after),
        names_delete(before + "remove"@ + after),
        names_delete("rm"@),
        names_delete("rm "@ + after),
        !text::occurs_in(op, "delete"@) && !text::occurs_in(op, "unlink"@) && !text::occurs_in(
            op,
            "remove"@,
        ) && op != "rm"@ && !"rm "@.is_prefix_of(op) ==> !names_delete(op),
{
    text::occurrences_are_parts(op, before, "delete"@, after);
    text::occurrences_are_parts(op, before, "unlink"@, after);
    text::occurrences_are_parts(op, before, "remove"@, after);
    text::beginnings_are_prefixes(op, "rm "@, after);
}

} // verus!
