//! Checks proposed actions against HAL policy before execution.

use vstd::prelude::*;
use vstd::string::StringExecFns;

use crate::hal_types::HALContext;
use crate::hal_types::HALDecision;
use crate::hal_types::HALResult;
use crate::hal_types::IntentSeverity;
use crate::hal_types::SyscallSensitivity;
use crate::score;
use crate::score::Score;
use crate::text;

verus! {

/// The action validator.
pub struct ActionValidator;

/// Path prefixes that no action may touch unremarked.
pub open spec fn is_dangerous_path(path: Seq<char>) -> bool {
    text::begins_with(path, "/etc"@) || text::begins_with(path, "/boot"@) || text::begins_with(
        path,
        "/sys"@,
    ) || text::begins_with(path, "/proc"@) || text::begins_with(path, "/dev"@)
        || text::begins_with(path, "/root"@) || text::begins_with(path, "/var/lib"@)
}

/// The patterns of raw shell commands.
pub open spec fn is_shell_pattern(p: Seq<char>) -> bool {
    p == r"rm\s+-rf"@ || p == r"mkfs"@ || p == r"dd\s+if="@ || p == r"chmod\s+777"@ || p
        == r"curl.+\|.+sh"@ || p == r"wget.+\|.+bash"@
}

/// Whether `regex` finds a match of a pattern somewhere in a text.
pub uninterp spec fn regex_matches(pattern: Seq<char>, text: Seq<char>) -> bool;

/// Calls `regex::Regex::new` and `Regex::is_match`. Each shell pattern is a
/// valid expression, so that `new` succeeds. Claimed: the outcome depends on
/// the pattern and the text alone.
#[verifier::external_body]
fn regex_is_match(pattern: &str, text: &str) -> (r: bool)
    requires
        is_shell_pattern(pattern@),
    ensures
        r == regex_matches(pattern@, text@),
{
    regex::Regex::new(pattern).unwrap().is_match(text)
}

/// Whether an action is a raw shell command.
pub open spec fn is_raw_shell(action: Seq<char>) -> bool {
    regex_matches(r"rm\s+-rf"@, action) || regex_matches(r"mkfs"@, action) || regex_matches(
        r"dd\s+if="@,
        action,
    ) || regex_matches(r"chmod\s+777"@, action) || regex_matches(r"curl.+\|.+sh"@, action)
        || regex_matches(r"wget.+\|.+bash"@, action)
}

/// Whether an action tries to gain privileges.
pub open spec fn is_privilege_escalation(action: Seq<char>) -> bool {
    text::occurs_in(action, "sudo "@) || text::occurs_in(action, "su "@) || text::occurs_in(
        action,
        "setcap"@,
    ) || text::occurs_in(action, "pkexec"@) || text::occurs_in(action, "capsh"@)
}

/// Whether an action destroys the system or takes it down.
pub open spec fn is_destructive(action: Seq<char>) -> bool {
    text::occurs_in(action, "rm -rf /"@) || text::occurs_in(action, ":(){ :|:& };:"@)
        || text::occurs_in(action, "shutdown now"@) || text::occurs_in(action, "reboot"@)
        || text::occurs_in(action, "poweroff"@)
}

/// Whether an action opens suspicious connections.
pub open spec fn is_suspicious_network(action: Seq<char>) -> bool {
    text::occurs_in(action, "nc "@) || text::occurs_in(action, "ncat "@) || text::occurs_in(
        action,
        "socat "@,
    ) || text::occurs_in(action, "0.0.0.0"@) || text::occurs_in(action, "reverse_shell"@)
}

/// Whether an action cannot be undone.
pub open spec fn is_irreversible(context: HALContext) -> bool {
    context.severity == IntentSeverity::Critical || context.syscall_sensitivity
        == SyscallSensitivity::Irreversible
}

/// The rules that an action violates, given whether it is a raw shell command.
pub open spec fn violations_of(context: HALContext, raw_shell: bool) -> Seq<Seq<char>> {
    let v1 = text::push_if(
        Seq::empty(),
        is_dangerous_path(context.target_resource@),
        "dangerous_path_access"@,
    );
    let v2 = text::push_if(v1, raw_shell, "raw_shell_execution"@);
    let v3 = text::push_if(
        v2,
        is_privilege_escalation(context.requested_action@),
        "privilege_escalation"@,
    );
    let v4 = text::push_if(
        v3,
        is_destructive(context.requested_action@),
        "destructive_pattern"@,
    );
    let v5 = text::push_if(
        v4,
        is_suspicious_network(context.requested_action@),
        "suspicious_network"@,
    );
    text::push_if(v5, is_irreversible(context), "irreversible_action"@)
}

/// The decision on violated rules, a risk and a confidence, both in billionths.
pub open spec fn decision_on(rules: Seq<Seq<char>>, risk: int, confidence: int) -> HALDecision {
    if rules.contains("destructive_pattern"@) {
        HALDecision::Block
    } else if rules.contains("privilege_escalation"@) {
        HALDecision::Escalate
    } else if risk > 900_000_000 {
        HALDecision::Block
    } else if confidence < 250_000_000 {
        HALDecision::Block
    } else if risk > 700_000_000 {
        HALDecision::Confirm
    } else if rules.len() > 0 {
        HALDecision::Notify
    } else {
        HALDecision::Allow
    }
}

/// A tag for the audit trail: a prefix, a risk and a confidence.
pub open spec fn tag_of(prefix: Seq<char>, risk: int, confidence: int) -> Seq<char> {
    prefix + score::score_digits(risk) + ":"@ + score::score_digits(confidence)
}

/// The tag for the audit trail.
pub fn audit_tag(prefix: &str, risk: Score, confidence: Score) -> (t: String)
    ensures
        t@ == tag_of(prefix@, risk.nanos as int, confidence.nanos as int),
{
    let mut t = String::from_str(prefix);
    let r = risk.to_text();
    t.append(r.as_str());
    t.append(":");
    let c = confidence.to_text();
    t.append(c.as_str());
    t
}

/// The risk of a system call, in billionths.
pub open spec fn syscall_risk_of(syscall: Seq<char>) -> int {
    if syscall == "execve"@ {
        800_000_000
    } else if syscall == "ptrace"@ {
        950_000_000
    } else if syscall == "mount"@ {
        900_000_000
    } else if syscall == "reboot"@ {
        1_000_000_000
    } else if syscall == "unlink"@ {
        700_000_000
    } else if syscall == "open"@ {
        200_000_000
    } else if syscall == "read"@ {
        100_000_000
    } else {
        500_000_000
    }
}

/// Whether the granted capabilities cover an action.
pub open spec fn scope_covers(capabilities: Seq<Seq<char>>, action: Seq<char>) -> bool {
    if text::occurs_in(action, "network"@) {
        capabilities.contains("network.outbound"@)
    } else if text::occurs_in(action, "write"@) {
        capabilities.contains("filesystem.write"@)
    } else {
        true
    }
}

impl ActionValidator {
    /// Whether a path lies under a protected prefix.
    pub fn dangerous_path(path: &str) -> (r: bool)
        ensures
            r == is_dangerous_path(path@),
            r <==> "/etc"@.is_prefix_of(path@) || "/boot"@.is_prefix_of(path@) || "/sys"@.is_prefix_of(path@) || "/proc"@.is_prefix_of(path@) || "/dev"@.is_prefix_of(path@) || "/root"@.is_prefix_of(path@) || "/var/lib"@.is_prefix_of(path@),
    {
        proof {
            protected_prefixes_are_dangerous(path@, Seq::empty(), Seq::empty());
        }
        text::text_begins_with(path, "/etc") || text::text_begins_with(path, "/boot")
            || text::text_begins_with(path, "/sys") || text::text_begins_with(path, "/proc")
            || text::text_begins_with(path, "/dev") || text::text_begins_with(path, "/root")
            || text::text_begins_with(path, "/var/lib")
    }

    /// Whether an action is a raw shell command.
    pub fn raw_shell_detected(action: &str) -> (r: bool)
        ensures
            r == is_raw_shell(action@),
    {
        regex_is_match(r"rm\s+-rf", action) || regex_is_match(r"mkfs", action) || regex_is_match(
            r"dd\s+if=",
            action,
        ) || regex_is_match(r"chmod\s+777", action) || regex_is_match(r"curl.+\|.+sh", action)
            || regex_is_match(r"wget.+\|.+bash", action)
    }

    /// Whether an action tries to gain privileges.
    pub fn privilege_escalation(action: &str) -> (r: bool)
        ensures
            r == is_privilege_escalation(action@),
    {
        text::text_contains(action, "sudo ") || text::text_contains(action, "su ")
            || text::text_contains(action, "setcap") || text::text_contains(action, "pkexec")
            || text::text_contains(action, "capsh")
    }

    /// Whether an action destroys the system or takes it down.
    pub fn destructive_pattern(action: &str) -> (r: bool)
        ensures
            r == is_destructive(action@),
    {
        text::text_contains(action, "rm -rf /") || text::text_contains(action, ":(){ :|:& };:")
            || text::text_contains(action, "shutdown now") || text::text_contains(action, "reboot")
            || text::text_contains(action, "poweroff")
    }

    /// Whether an action opens suspicious connections.
    pub fn suspicious_network(action: &str) -> (r: bool)
        ensures
            r == is_suspicious_network(action@),
    {
        text::text_contains(action, "nc ") || text::text_contains(action, "ncat ")
            || text::text_contains(action, "socat ") || text::text_contains(action, "0.0.0.0")
            || text::text_contains(action, "reverse_shell")
    }

    /// Whether an action cannot be undone.
    pub fn irreversible_action(context: &HALContext) -> (r: bool)
        ensures
            r == is_irreversible(*context),
    {
        context.severity == IntentSeverity::Critical || context.syscall_sensitivity
            == SyscallSensitivity::Irreversible
    }

    /// The decision on violated rules, a risk and a confidence.
    pub fn final_decision(violations: &[String], risk: Score, confidence: Score) -> (d: HALDecision)
        ensures
            d == decision_on(
                text::texts(violations@),
                risk.nanos as int,
                confidence.nanos as int,
            ),
    {
        if text::has_text(violations, "destructive_pattern") {
            HALDecision::Block
        } else if text::has_text(violations, "privilege_escalation") {
            HALDecision::Escalate
        } else if risk.nanos > 900_000_000 {
            HALDecision::Block
        } else if confidence.nanos < 250_000_000 {
            HALDecision::Block
        } else if risk.nanos > 700_000_000 {
            HALDecision::Confirm
        } else if violations.len() > 0 {
            HALDecision::Notify
        } else {
            HALDecision::Allow
        }
    }

    /// Validates an action of which it is known whether it is a raw shell
    /// command.
    pub fn validate_known(
        context: &HALContext,
        raw_shell: bool,
        computed_risk: Score,
        confidence: Score,
    ) -> (r: HALResult)
        ensures
            is_validation(r, *context, raw_shell, computed_risk, confidence),
    {
        let mut violations: Vec<String> = Vec::new();
        assert(text::texts(violations@) =~= Seq::<Seq<char>>::empty());
        text::push_text_if(
            &mut violations,
            ActionValidator::dangerous_path(context.target_resource.as_str()),
            "dangerous_path_access",
        );
        text::push_text_if(&mut violations, raw_shell, "raw_shell_execution");
        text::push_text_if(
            &mut violations,
            ActionValidator::privilege_escalation(context.requested_action.as_str()),
            "privilege_escalation",
        );
        text::push_text_if(
            &mut violations,
            ActionValidator::destructive_pattern(context.requested_action.as_str()),
            "destructive_pattern",
        );
        text::push_text_if(
            &mut violations,
            ActionValidator::suspicious_network(context.requested_action.as_str()),
            "suspicious_network",
        );
        text::push_text_if(
            &mut violations,
            ActionValidator::irreversible_action(context),
            "irreversible_action",
        );
        let decision = ActionValidator::final_decision(
            violations.as_slice(),
            computed_risk,
            confidence,
        );
        let mut explanation = String::from_str("validated with ");
        let count = text::decimal(violations.len() as u64);
        explanation.append(count.as_str());
        explanation.append(" violations");
        HALResult {
            decision,
            computed_risk,
            confidence,
            explanation,
            violated_rules: violations,
            audit_hash: audit_tag("validator:", computed_risk, confidence),
            requires_user_prompt: decision == HALDecision::Confirm,
            escalation_required: decision == HALDecision::Escalate || decision
                == HALDecision::Block,
        }
    }

    /// Validates an action against every rule and decides on it.
    pub fn validate(context: &HALContext, computed_risk: Score, confidence: Score) -> (r: HALResult)
        ensures
            is_validation(
                r,
                *context,
                is_raw_shell(context.requested_action@),
                computed_risk,
                confidence,
            ),
    {
        let raw_shell = ActionValidator::raw_shell_detected(context.requested_action.as_str());
        ActionValidator::validate_known(context, raw_shell, computed_risk, confidence)
    }

    /// The risk of a system call.
    pub fn syscall_risk(syscall: &str) -> (s: Score)
        ensures
            s.nanos == syscall_risk_of(syscall@),
    {
        if text::same_text(syscall, "execve") {
            Score::from_nanos(800_000_000)
        } else if text::same_text(syscall, "ptrace") {
            Score::from_nanos(950_000_000)
        } else if text::same_text(syscall, "mount") {
            Score::from_nanos(900_000_000)
        } else if text::same_text(syscall, "reboot") {
            Score::from_nanos(1_000_000_000)
        } else if text::same_text(syscall, "unlink") {
            Score::from_nanos(700_000_000)
        } else if text::same_text(syscall, "open") {
            Score::from_nanos(200_000_000)
        } else if text::same_text(syscall, "read") {
            Score::from_nanos(100_000_000)
        } else {
            Score::from_nanos(500_000_000)
        }
    }

    /// Whether an action may run without supervision.
    pub fn bounded_execution(risk: Score, confidence: Score) -> (r: bool)
        ensures
            r == (risk.nanos < 350_000_000 && confidence.nanos > 850_000_000),
    {
        risk.nanos < 350_000_000 && confidence.nanos > 850_000_000
    }

    /// Whether the granted capabilities cover an action.
    pub fn validate_capability_scope(capabilities: &[String], requested_action: &str) -> (r: bool)
        ensures
            r == scope_covers(text::texts(capabilities@), requested_action@),
    {
        if text::text_contains(requested_action, "network") {
            return text::has_text(capabilities, "network.outbound");
        }
        if text::text_contains(requested_action, "write") {
            return text::has_text(capabilities, "filesystem.write");
        }
        true
    }

    /// Whether an action names its intent, in whatever case.
    pub fn semantic_intent_match(intent: &str, action: &str) -> (r: bool)
        ensures
            r == text::occurs_in(text::lowercase(action@), text::lowercase(intent@)),
    {
        let normalized_intent = text::to_lowercase(intent);
        let normalized_action = text::to_lowercase(action);
        text::text_contains(normalized_action.as_str(), normalized_intent.as_str())
    }
}

/// What a validation of an action results in.
pub open spec fn is_validation(
    r: HALResult,
    context: HALContext,
    raw_shell: bool,
    risk: Score,
    confidence: Score,
) -> bool {
    let rules = violations_of(context, raw_shell);
    let decision = decision_on(rules, risk.nanos as int, confidence.nanos as int);
    &&& r.decision == decision
    &&& r.computed_risk == risk
    &&& r.confidence == confidence
    &&& r.explanation@ == "validated with "@ + text::decimal_digits(rules.len()) + " violations"@
    &&& text::texts(r.violated_rules@) == rules
    &&& r.audit_hash@ == tag_of("validator:"@, risk.nanos as int, confidence.nanos as int)
    &&& r.requires_user_prompt == (decision == HALDecision::Confirm)
    &&& r.escalation_required == (decision == HALDecision::Escalate || decision
        == HALDecision::Block)
}

/// A destructive action is blocked and an attempt to gain privileges is
/// blocked or escalated, however small the risk and great the confidence.
pub proof fn grave_violations_never_pass(
    context: HALContext,
    raw_shell: bool,
    risk: int,
    confidence: int,
)
    ensures
        is_destructive(context.requested_action@) ==> decision_on(
            violations_of(context, raw_shell),
            risk,
            confidence,
        ) == HALDecision::Block,
        is_privilege_escalation(context.requested_action@) ==> ({
            let d = decision_on(violations_of(context, raw_shell), risk, confidence);
            d == HALDecision::Block || d == HALDecision::Escalate
        }),
{
    let action = context.requested_action@;
    let v1 = text::push_if(
        Seq::empty(),
        is_dangerous_path(context.target_resource@),
        "dangerous_path_access"@,
    );
    let v2 = text::push_if(v1, raw_shell, "raw_shell_execution"@);
    let v3 = text::push_if(v2, is_privilege_escalation(action), "privilege_escalation"@);
    let v4 = text::push_if(v3, is_destructive(action), "destructive_pattern"@);
    let all = violations_of(context, raw_shell);
    if is_privilege_escalation(action) {
        assert(all[v2.len() as int] == "privilege_escalation"@);
    }
    if is_destructive(action) {
        assert(all[v3.len() as int] == "destructive_pattern"@);
    }
}

/// An action is allowed without a notice exactly when it violates no rule, its
/// risk is at most 0.7 and the confidence at least 0.25.
pub proof fn allowed_iff_clean(context: HALContext, raw_shell: bool, risk: int, confidence: int)
    ensures
        decision_on(violations_of(context, raw_shell), risk, confidence) == HALDecision::Allow <==> (
        violations_of(context, raw_shell).len() == 0 && risk <= 700_000_000 && confidence
            >= 250_000_000),
{
    let rules = violations_of(context, raw_shell);
    if rules.len() == 0 {
        assert(!rules.contains("destructive_pattern"@));
        assert(!rules.contains("privilege_escalation"@));
    }
}

/// Each rule is named exactly where the action breaks it, and no rule is named
/// twice.
pub proof fn broken_rules_are_named(context: HALContext, raw_shell: bool)
    ensures
        violations_of(context, raw_shell).contains("dangerous_path_access"@) <==> (is_dangerous_path(context.target_resource@)),
        violations_of(context, raw_shell).contains("raw_shell_execution"@) <==> (raw_shell),
        violations_of(context, raw_shell).contains("privilege_escalation"@) <==> (is_privilege_escalation(context.requested_action@)),
        violations_of(context, raw_shell).contains("destructive_pattern"@) <==> (is_destructive(context.requested_action@)),
        violations_of(context, raw_shell).contains("suspicious_network"@) <==> (is_suspicious_network(context.requested_action@)),
        violations_of(context, raw_shell).contains("irreversible_action"@) <==> (context.severity == IntentSeverity::Critical || context.syscall_sensitivity == SyscallSensitivity::Irreversible),
        violations_of(context, raw_shell).len() == (if is_dangerous_path(context.target_resource@) {
            1int
        } else {
            0int
        }) + (if raw_shell {
            1int
        } else {
            0int
        }) + (if is_privilege_escalation(context.requested_action@) {
            1int
        } else {
            0int
        }) + (if is_destructive(context.requested_action@) {
            1int
        } else {
            0int
        }) + (if is_suspicious_network(context.requested_action@) {
            1int
        } else {
            0int
        }) + (if context.severity == IntentSeverity::Critical || context.syscall_sensitivity == SyscallSensitivity::Irreversible {
            1int
        } else {
            0int
        }),
{
    reveal_strlit("dangerous_path_access");
    reveal_strlit("raw_shell_execution");
    reveal_strlit("privilege_escalation");
    reveal_strlit("destructive_pattern");
    reveal_strlit("suspicious_network");
    reveal_strlit("irreversible_action");
    assert("dangerous_path_access"@.len() != "raw_shell_execution"@.len());
    assert("dangerous_path_access"@.len() != "privilege_escalation"@.len());
    assert("dangerous_path_access"@.len() != "destructive_pattern"@.len());
    assert("dangerous_path_access"@.len() != "suspicious_network"@.len());
    assert("dangerous_path_access"@.len() != "irreversible_action"@.len());
    assert("raw_shell_execution"@.len() != "privilege_escalation"@.len());
    assert("raw_shell_execution"@[0] != "destructive_pattern"@[0]);
    assert("raw_shell_execution"@.len() != "suspicious_network"@.len());
    assert("raw_shell_execution"@[0] != "irreversible_action"@[0]);
    assert("privilege_escalation"@.len() != "destructive_pattern"@.len());
    assert("privilege_escalation"@.len() != "suspicious_network"@.len());
    assert("privilege_escalation"@.len() != "irreversible_action"@.len());
    assert("destructive_pattern"@.len() != "suspicious_network"@.len());
    assert("destructive_pattern"@[0] != "irreversible_action"@[0]);
    assert("suspicious_network"@.len() != "irreversible_action"@.len());
    let c1 = is_dangerous_path(context.target_resource@);
    let v1 = text::push_if(Seq::empty(), c1, "dangerous_path_access"@);
    let c2 = raw_shell;
    let v2 = text::push_if(v1, c2, "raw_shell_execution"@);
    let c3 = is_privilege_escalation(context.requested_action@);
    let v3 = text::push_if(v2, c3, "privilege_escalation"@);
    let c4 = is_destructive(context.requested_action@);
    let v4 = text::push_if(v3, c4, "destructive_pattern"@);
    let c5 = is_suspicious_network(context.requested_action@);
    let v5 = text::push_if(v4, c5, "suspicious_network"@);
    let c6 = is_irreversible(context);
    let v6 = text::push_if(v5, c6, "irreversible_action"@);
    text::push_if_adds(Seq::empty(), c1, "dangerous_path_access"@, "dangerous_path_access"@);
    text::push_if_adds(v1, c2, "raw_shell_execution"@, "dangerous_path_access"@);
    text::push_if_adds(v2, c3, "privilege_escalation"@, "dangerous_path_access"@);
    text::push_if_adds(v3, c4, "destructive_pattern"@, "dangerous_path_access"@);
    text::push_if_adds(v4, c5, "suspicious_network"@, "dangerous_path_access"@);
    text::push_if_adds(v5, c6, "irreversible_action"@, "dangerous_path_access"@);
    text::push_if_adds(Seq::empty(), c1, "dangerous_path_access"@, "raw_shell_execution"@);
    text::push_if_adds(v1, c2, "raw_shell_execution"@, "raw_shell_execution"@);
    text::push_if_adds(v2, c3, "privilege_escalation"@, "raw_shell_execution"@);
    text::push_if_adds(v3, c4, "destructive_pattern"@, "raw_shell_execution"@);
    text::push_if_adds(v4, c5, "suspicious_network"@, "raw_shell_execution"@);
    text::push_if_adds(v5, c6, "irreversible_action"@, "raw_shell_execution"@);
    text::push_if_adds(Seq::empty(), c1, "dangerous_path_access"@, "privilege_escalation"@);
    text::push_if_adds(v1, c2, "raw_shell_execution"@, "privilege_escalation"@);
    text::push_if_adds(v2, c3, "privilege_escalation"@, "privilege_escalation"@);
    text::push_if_adds(v3, c4, "destructive_pattern"@, "privilege_escalation"@);
    text::push_if_adds(v4, c5, "suspicious_network"@, "privilege_escalation"@);
    text::push_if_adds(v5, c6, "irreversible_action"@, "privilege_escalation"@);
    text::push_if_adds(Seq::empty(), c1, "dangerous_path_access"@, "destructive_pattern"@);
    text::push_if_adds(v1, c2, "raw_shell_execution"@, "destructive_pattern"@);
    text::push_if_adds(v2, c3, "privilege_escalation"@, "destructive_pattern"@);
    text::push_if_adds(v3, c4, "destructive_pattern"@, "destructive_pattern"@);
    text::push_if_adds(v4, c5, "suspicious_network"@, "destructive_pattern"@);
    text::push_if_adds(v5, c6, "irreversible_action"@, "destructive_pattern"@);
    text::push_if_adds(Seq::empty(), c1, "dangerous_path_access"@, "suspicious_network"@);
    text::push_if_adds(v1, c2, "raw_shell_execution"@, "suspicious_network"@);
    text::push_if_adds(v2, c3, "privilege_escalation"@, "suspicious_network"@);
    text::push_if_adds(v3, c4, "destructive_pattern"@, "suspicious_network"@);
    text::push_if_adds(v4, c5, "suspicious_network"@, "suspicious_network"@);
    text::push_if_adds(v5, c6, "irreversible_action"@, "suspicious_network"@);
    text::push_if_adds(Seq::empty(), c1, "dangerous_path_access"@, "irreversible_action"@);
    text::push_if_adds(v1, c2, "raw_shell_execution"@, "irreversible_action"@);
    text::push_if_adds(v2, c3, "privilege_escalation"@, "irreversible_action"@);
    text::push_if_adds(v3, c4, "destructive_pattern"@, "irreversible_action"@);
    text::push_if_adds(v4, c5, "suspicious_network"@, "irreversible_action"@);
    text::push_if_adds(v5, c6, "irreversible_action"@, "irreversible_action"@);
    assert(v6 == violations_of(context, raw_shell));
}

/// Whatever stands under one of the protected prefixes is dangerous, and nothing
/// else is.
pub proof fn protected_prefixes_are_dangerous(path: Seq<char>, prefix: Seq<char>, rest: Seq<char>)
    ensures
        prefix == "/etc"@ || prefix == "/boot"@ || prefix == "/sys"@ || prefix == "/proc"@ || prefix == "/dev"@ || prefix == "/root"@ || prefix == "/var/lib"@ ==> is_dangerous_path(prefix + rest),
        "/etc"@.is_prefix_of(path) ==> is_dangerous_path(path),
        "/boot"@.is_prefix_of(path) ==> is_dangerous_path(path),
        "/sys"@.is_prefix_of(path) ==> is_dangerous_path(path),
        "/proc"@.is_prefix_of(path) ==> is_dangerous_path(path),
        "/dev"@.is_prefix_of(path) ==> is_dangerous_path(path),
        "/root"@.is_prefix_of(path) ==> is_dangerous_path(path),
        "/var/lib"@.is_prefix_of(path) ==> is_dangerous_path(path),
        is_dangerous_path(path) ==> "/etc"@.is_prefix_of(path) || "/boot"@.is_prefix_of(path) || "/sys"@.is_prefix_of(path) || "/proc"@.is_prefix_of(path) || "/dev"@.is_prefix_of(path) || "/root"@.is_prefix_of(path) || "/var/lib"@.is_prefix_of(path),
{
    text::beginnings_are_prefixes(prefix + rest, prefix, rest);
    text::beginnings_are_prefixes(path, "/etc"@, rest);
    text::beginnings_are_prefixes(path, "/boot"@, rest);
    text::beginnings_are_prefixes(path, "/sys"@, rest);
    text::beginnings_are_prefixes(path, "/proc"@, rest);
    text::beginnings_are_prefixes(path, "/dev"@, rest);
    text::beginnings_are_prefixes(path, "/root"@, rest);
    text::beginnings_are_prefixes(path, "/var/lib"@, rest);
}

/// Every pattern of a raw shell command makes one, and nothing else does.
pub proof fn shell_patterns_are_raw_shell(action: Seq<char>)
    ensures
        regex_matches(r"rm\s+-rf"@, action) ==> is_raw_shell(action),
        regex_matches(r"mkfs"@, action) ==> is_raw_shell(action),
        regex_matches(r"dd\s+if="@, action) ==> is_raw_shell(action),
        regex_matches(r"chmod\s+777"@, action) ==> is_raw_shell(action),
        regex_matches(r"curl.+\|.+sh"@, action) ==> is_raw_shell(action),
        regex_matches(r"wget.+\|.+bash"@, action) ==> is_raw_shell(action),
        is_raw_shell(action) ==> exists|p: Seq<char>| #[trigger] regex_matches(p, action) && is_shell_pattern(p),
        forall|p: Seq<char>| is_shell_pattern(p) && #[trigger] regex_matches(p, action) ==> is_raw_shell(action),
{
}

/// A text that gains privileges, wherever it stands in an action, is escalated
/// or blocked.
pub proof fn privilege_markers_are_stopped(
    context: HALContext,
    raw_shell: bool,
    risk: int,
    confidence: int,
    before: Seq<char>,
    marker: Seq<char>,
    after: Seq<char>,
)
    requires
        marker == "sudo "@ || marker == "su "@ || marker == "setcap"@ || marker == "pkexec"@ || marker == "capsh"@,
        context.requested_action@ == before + marker + after,
    ensures
        is_privilege_escalation(context.requested_action@),
        decision_on(violations_of(context, raw_shell), risk, confidence) == HALDecision::Escalate
            || decision_on(violations_of(context, raw_shell), risk, confidence)
            == HALDecision::Block,
{
    text::occurrences_are_parts(context.requested_action@, before, marker, after);
    broken_rules_are_named(context, raw_shell);
}

/// A text that destroys the system or takes it down, wherever it stands in an
/// action, is blocked.
pub proof fn destructive_markers_are_blocked(
    context: HALContext,
    raw_shell: bool,
    risk: int,
    confidence: int,
    before: Seq<char>,
    marker: Seq<char>,
    after: Seq<char>,
)
    requires
        marker == "rm -rf /"@ || marker == ":(){ :|:& };:"@ || marker == "shutdown now"@ || marker == "reboot"@ || marker == "poweroff"@,
        context.requested_action@ == before + marker + after,
    ensures
        is_destructive(context.requested_action@),
        decision_on(violations_of(context, raw_shell), risk, confidence) == HALDecision::Block,
{
    text::occurrences_are_parts(context.requested_action@, before, marker, after);
    broken_rules_are_named(context, raw_shell);
}

/// A text that opens suspicious connections, wherever it stands in an action, is
/// reported, so that the action is never allowed without a notice.
pub proof fn network_markers_are_reported(
    context: HALContext,
    raw_shell: bool,
    risk: int,
    confidence: int,
    before: Seq<char>,
    marker: Seq<char>,
    after: Seq<char>,
)
    requires
        marker == "nc "@ || marker == "ncat "@ || marker == "socat "@ || marker == "0.0.0.0"@ || marker == "reverse_shell"@,
        context.requested_action@ == before + marker + after,
    ensures
        is_suspicious_network(context.requested_action@),
        violations_of(context, raw_shell).contains("suspicious_network"@),
        decision_on(violations_of(context, raw_shell), risk, confidence) != HALDecision::Allow,
{
    text::occurrences_are_parts(context.requested_action@, before, marker, after);
    broken_rules_are_named(context, raw_shell);
}

/// An action without any of the markers, on a path under none of the prefixes,
/// that is no shell command and can be undone breaks no rule.
pub proof fn harmless_actions_break_no_rule(context: HALContext, risk: int, confidence: int)
    requires
        !"/etc"@.is_prefix_of(context.target_resource@),
        !"/boot"@.is_prefix_of(context.target_resource@),
        !"/sys"@.is_prefix_of(context.target_resource@),
        !"/proc"@.is_prefix_of(context.target_resource@),
        !"/dev"@.is_prefix_of(context.target_resource@),
        !"/root"@.is_prefix_of(context.target_resource@),
        !"/var/lib"@.is_prefix_of(context.target_resource@),
        !text::occurs_in(context.requested_action@, "sudo "@),
        !text::occurs_in(context.requested_action@, "su "@),
        !text::occurs_in(context.requested_action@, "setcap"@),
        !text::occurs_in(context.requested_action@, "pkexec"@),
        !text::occurs_in(context.requested_action@, "capsh"@),
        !text::occurs_in(context.requested_action@, "rm -rf /"@),
        !text::occurs_in(context.requested_action@, ":(){ :|:& };:"@),
        !text::occurs_in(context.requested_action@, "shutdown now"@),
        !text::occurs_in(context.requested_action@, "reboot"@),
        !text::occurs_in(context.requested_action@, "poweroff"@),
        !text::occurs_in(context.requested_action@, "nc "@),
        !text::occurs_in(context.requested_action@, "ncat "@),
        !text::occurs_in(context.requested_action@, "socat "@),
        !text::occurs_in(context.requested_action@, "0.0.0.0"@),
        !text::occurs_in(context.requested_action@, "reverse_shell"@),
        context.severity != IntentSeverity::Critical,
        context.syscall_sensitivity != SyscallSensitivity::Irreversible,
        risk <= 700_000_000,
        confidence >= 250_000_000,
    ensures
        violations_of(context, false) == Seq::<Seq<char>>::empty(),
        decision_on(violations_of(context, false), risk, confidence) == HALDecision::Allow,
{
    protected_prefixes_are_dangerous(context.target_resource@, Seq::empty(), Seq::empty());
    broken_rules_are_named(context, false);
    assert(violations_of(context, false) =~= Seq::<Seq<char>>::empty());
}

/// What a validation decides, by its inputs: a destructive action is blocked,
/// and otherwise an attempt to gain privileges is escalated. Otherwise a risk
/// above 0.9 or a confidence below 0.25 blocks, a risk above 0.7 asks, a broken
/// rule is noticed, and only what breaks none is allowed.
pub proof fn validation_follows_its_inputs(
    r: HALResult,
    context: HALContext,
    raw_shell: bool,
    risk: Score,
    confidence: Score,
)
    requires
        is_validation(r, context, raw_shell, risk, confidence),
    ensures
        ({
            let destructive = is_destructive(context.requested_action@);
            let privileged = is_privilege_escalation(context.requested_action@);
            let hopeless = risk.nanos > 900_000_000 || confidence.nanos < 250_000_000;
            &&& r.decision == HALDecision::Block <==> destructive || (!privileged && hopeless)
            &&& r.decision == HALDecision::Escalate <==> !destructive && privileged
            &&& r.decision == HALDecision::Confirm <==> !destructive && !privileged && !hopeless
                && risk.nanos > 700_000_000
            &&& r.decision == HALDecision::Notify <==> !destructive && !privileged && !hopeless
                && risk.nanos <= 700_000_000 && r.violated_rules@.len() > 0
            &&& r.decision == HALDecision::Allow <==> r.violated_rules@.len() == 0 && risk.nanos
                <= 700_000_000 && confidence.nanos >= 250_000_000
        }),
        r.requires_user_prompt <==> r.decision == HALDecision::Confirm,
        r.escalation_required <==> r.decision == HALDecision::Block || r.decision
            == HALDecision::Escalate,
        r.computed_risk == risk,
        r.confidence == confidence,
        text::begins_with(r.audit_hash@, "validator:"@),
        text::begins_with(r.explanation@, "validated with "@),
{
    broken_rules_are_named(context, raw_shell);
    assert(text::texts(r.violated_rules@).len() == r.violated_rules@.len());
    let risk_text = score::score_digits(risk.nanos as int);
    let confidence_text = score::score_digits(confidence.nanos as int);
    text::beginnings_are_prefixes(
        r.audit_hash@,
        "validator:"@,
        risk_text + ":"@ + confidence_text,
    );
    assert(r.audit_hash@ =~= "validator:"@ + (risk_text + ":"@ + confidence_text));
    let count = text::decimal_digits(violations_of(context, raw_shell).len());
    text::beginnings_are_prefixes(r.explanation@, "validated with "@, count + " violations"@);
    assert(r.explanation@ =~= "validated with "@ + (count + " violations"@));
}

/// How strict a decision is.
pub open spec fn strictness(d: HALDecision) -> int {
    match d {
        HALDecision::Allow => 0,
        HALDecision::Notify => 1,
        HALDecision::Confirm => 2,
        HALDecision::Escalate => 3,
        HALDecision::Block => 3,
        _ => -1,
    }
}

/// More risk or less confidence never softens the decision on the same action.
pub proof fn more_risk_is_never_softer(
    context: HALContext,
    raw_shell: bool,
    risk: int,
    more_risk: int,
    confidence: int,
    less_confidence: int,
)
    requires
        risk <= more_risk,
        less_confidence <= confidence,
    ensures
        strictness(decision_on(violations_of(context, raw_shell), risk, confidence)) <= strictness(
            decision_on(violations_of(context, raw_shell), more_risk, less_confidence),
        ),
{
}

/// Taking the system down is the riskiest call, then tracing a process, mounting
/// and running a program; removing a file is riskier than an unnamed call, and
/// opening and reading are the least risky.
pub proof fn system_calls_are_ranked(syscall: Seq<char>)
    ensures
        syscall_risk_of("reboot"@) == 1_000_000_000,
        syscall_risk_of(syscall) == 1_000_000_000 ==> syscall == "reboot"@,
        syscall_risk_of(syscall) > 900_000_000 <==> syscall == "reboot"@ || syscall == "ptrace"@,
        syscall_risk_of(syscall) > 800_000_000 <==> syscall == "reboot"@ || syscall == "ptrace"@
            || syscall == "mount"@,
        syscall_risk_of(syscall) > 700_000_000 <==> syscall == "reboot"@ || syscall == "ptrace"@
            || syscall == "mount"@ || syscall == "execve"@,
        syscall_risk_of(syscall) > 500_000_000 <==> syscall == "reboot"@ || syscall == "ptrace"@
            || syscall == "mount"@ || syscall == "execve"@ || syscall == "unlink"@,
        syscall_risk_of(syscall) < 500_000_000 <==> syscall == "open"@ || syscall == "read"@,
        syscall_risk_of("ptrace"@) - syscall_risk_of("mount"@) == 50_000_000,
        syscall_risk_of("mount"@) - syscall_risk_of("execve"@) == 100_000_000,
        syscall_risk_of("execve"@) - syscall_risk_of("unlink"@) == 100_000_000,
        syscall_risk_of("reboot"@) - syscall_risk_of("ptrace"@) == 50_000_000,
        syscall_risk_of("unlink"@) - syscall_risk_of("open"@) == 500_000_000,
        syscall_risk_of("open"@) - syscall_risk_of("read"@) == 100_000_000,
{
    reveal_strlit("reboot");
    reveal_strlit("ptrace");
    reveal_strlit("mount");
    reveal_strlit("execve");
    reveal_strlit("unlink");
    reveal_strlit("open");
    reveal_strlit("read");
    assert("reboot"@[0] != "ptrace"@[0]);
    assert("reboot"@[0] != "execve"@[0]);
    assert("reboot"@[0] != "unlink"@[0]);
    assert("ptrace"@[0] != "execve"@[0]);
    assert("ptrace"@[0] != "unlink"@[0]);
    assert("execve"@[0] != "unlink"@[0]);
    assert("open"@[0] != "read"@[0]);
    assert("mount"@.len() == 5);
    assert("open"@.len() == 4);
    assert("read"@.len() == 4);
    assert("reboot"@.len() == 6);
    assert("ptrace"@.len() == 6);
    assert("execve"@.len() == 6);
    assert("unlink"@.len() == 6);
}

/// An action on the network needs the capability for it, whatever else it does;
/// one that only writes needs that for writing, and any other needs none. What
/// some capabilities cover, more of them cover too.
pub proof fn scope_asks_for_its_capability(
    few: Seq<Seq<char>>,
    many: Seq<Seq<char>>,
    before: Seq<char>,
    after: Seq<char>,
    action: Seq<char>,
)
    requires
        forall|c: Seq<char>| few.contains(c) ==> many.contains(c),
    ensures
        scope_covers(few, before + "network"@ + after) <==> few.contains("network.outbound"@),
        !text::occurs_in(before + "write"@ + after, "network"@) ==> (scope_covers(
            few,
            before + "write"@ + after,
        ) <==> few.contains("filesystem.write"@)),
        !text::occurs_in(action, "network"@) && !text::occurs_in(action, "write"@) ==> scope_covers(
            few,
            action,
        ),
        scope_covers(few, action) ==> scope_covers(many, action),
{
    text::occurrences_are_parts(action, before, "network"@, after);
    text::occurrences_are_parts(action, before, "write"@, after);
}

/// A validation says how many rules were broken, and its tag gives the risk and
/// the confidence.
pub proof fn validations_say(
    r: HALResult,
    context: HALContext,
    raw_shell: bool,
    risk: Score,
    confidence: Score,
)
    requires
        is_validation(r, context, raw_shell, risk, confidence),
    ensures
        r.explanation@ == "validated with "@ + text::decimal_digits(r.violated_rules@.len())
            + " violations"@,
        r.audit_hash@ == "validator:"@ + score::score_digits(risk.nanos as int) + ":"@
            + score::score_digits(confidence.nanos as int),
{
    assert(text::texts(r.violated_rules@).len() == r.violated_rules@.len());
}

} // verus!
