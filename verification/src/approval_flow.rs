//! The approval flow: agents ask before they act and wait for the answer.
//!
//! A connection is a state machine. The frame's length is checked, the request
//! is stepped to an answer or to a question for the user, and the user's
//! reply, or its absence, concludes it.

use vstd::prelude::*;
use vstd::string::StringExecFns;

use crate::clock::Timestamp;
use crate::digest::push_bytes;
use crate::json;
use crate::permissions;
use crate::score::Score;
use crate::text;

verus! {

/// A request from an agent, asking HAL to gate an action.
#[derive(Clone, Debug)]
pub struct GateRequest {
    /// Identifier of the request.
    pub request_id: u128,
    /// The agent that asks.
    pub agent: String,
    /// The action.
    pub action: String,
    /// The resource the action targets (file path, package name, etc.)
    pub target: String,
    /// Action-specific parameters, as a JSON text.
    pub parameters: String,
    /// True if the action was produced by AI-generated code.
    pub is_ai_generated: bool,
    /// The intent that triggered this action (for audit correlation).
    pub intent_id: Option<u128>,
}

/// HAL's response to a gate request.
#[derive(Clone, Copy, Debug, PartialEq, Eq, Structural)]
pub struct GateResponse {
    /// Identifier of the request.
    pub request_id: u128,
    /// Whether the action may run.
    pub approved: bool,
    /// Why.
    pub reason: GateReason,
    /// The score of the action.
    pub hal_score: Score,
    /// When the response was made.
    pub timestamp: Timestamp,
}

/// Why a request was approved or denied.
#[derive(Clone, Copy, Debug, PartialEq, Eq, Structural)]
pub enum GateReason {
    /// Approved by rule.
    AutoApproved,
    /// Approved by the user.
    UserApproved,
    /// Denied by rule.
    AutoDenied,
    /// Denied by the user.
    UserDenied,
    /// Denied because no answer came in time.
    TimeoutDeny,
    /// Denied because the request could not be read.
    HalError,
}

/// HAL's assessment of what to do with a request before showing UI.
#[derive(Clone, Copy, Debug, PartialEq, Eq, Structural)]
pub enum HalLevel {
    /// Score below 0.3: execute silently, write to audit log.
    Silent,
    /// Score from 0.3 to 0.6: show toast notification.
    Notify,
    /// Score from 0.6 to 0.8: show confirmation dialog, wait for user.
    Confirm,
    /// Score of 0.8 and more: full explanation, explicit approve or deny.
    Block,
}

/// The names of the agents that may ask.
pub const KNOWN_AGENTS: [&'static str; 7] = [
    "planner",
    "memory",
    "security",
    "scheduler",
    "file",
    "coding",
    "ui",
];

/// Whether an agent may ask.
pub open spec fn is_known(name: Seq<char>) -> bool {
    name == "planner"@ || name == "memory"@ || name == "security"@ || name == "scheduler"@ || name
        == "file"@ || name == "coding"@ || name == "ui"@
}

/// Whether an agent may ask.
pub fn is_known_agent(name: &str) -> (r: bool)
    ensures
        r == is_known(name@),
{
    text::same_text(name, "planner") || text::same_text(name, "memory") || text::same_text(
        name,
        "security",
    ) || text::same_text(name, "scheduler") || text::same_text(name, "file") || text::same_text(
        name,
        "coding",
    ) || text::same_text(name, "ui")
}

/// Whether a target is an absolute path outside the user's home.
pub open spec fn outside_home(target: Seq<char>, home: Seq<char>) -> bool {
    target.len() > 0 && !text::begins_with(target, home) && !text::begins_with(target, "~/"@)
        && text::begins_with(target, "/"@)
}

/// Whether a target is an absolute path outside the user's home.
pub fn is_outside_user_home(target: &str, home: &str) -> (r: bool)
    ensures
        r == outside_home(target@, home@),
{
    !target.is_empty() && !text::text_begins_with(target, home) && !text::text_begins_with(
        target,
        "~/",
    ) && text::text_begins_with(target, "/")
}

/// Whether an action always needs a confirmation.
pub open spec fn needs_confirmation(action: Seq<char>) -> bool {
    action == "install_package"@ || action == "modify_config"@ || action == "delete_file"@
}

/// Whether an action is worth a notice.
pub open spec fn worth_a_notice(action: Seq<char>) -> bool {
    action == "move_file"@ || action == "create_file"@ || action == "start_service"@
}

/// The level and the score, in billionths, of a request.
pub open spec fn level_of(req: GateRequest, home: Seq<char>) -> (HalLevel, int) {
    if !is_known(req.agent@) {
        (HalLevel::Block, 1_000_000_000)
    } else if req.action@ == "modify_hal"@ {
        (HalLevel::Block, 1_000_000_000)
    } else if req.action@ == "execute_binary"@ && req.is_ai_generated {
        (HalLevel::Block, 900_000_000)
    } else if outside_home(req.target@, home) {
        (HalLevel::Block, 850_000_000)
    } else if needs_confirmation(req.action@) || req.is_ai_generated {
        (
            HalLevel::Confirm,
            if req.action@ == "delete_file"@ {
                750_000_000
            } else {
                650_000_000
            },
        )
    } else if worth_a_notice(req.action@) {
        (HalLevel::Notify, 400_000_000)
    } else {
        (HalLevel::Silent, 150_000_000)
    }
}

/// The level and the score of a request, for a user with a given home.
pub fn compute_hal_level_v0(req: &GateRequest, home: &str) -> (r: (HalLevel, Score))
    ensures
        r.0 == level_of(*req, home@).0,
        r.1.nanos == level_of(*req, home@).1,
        is_known(req.agent@) && req.target@.len() > 0 && req.target@[0] == '/'
            && !home@.is_prefix_of(req.target@) ==> r.0 == HalLevel::Block && r.1.nanos
            >= 850_000_000,
{
    proof {
        outside_is_absolute_and_foreign(req.target@, home@);
    }
    let action = req.action.as_str();
    if !is_known_agent(req.agent.as_str()) {
        return (HalLevel::Block, Score::from_nanos(1_000_000_000));
    }
    if text::same_text(action, "modify_hal") {
        return (HalLevel::Block, Score::from_nanos(1_000_000_000));
    }
    if text::same_text(action, "execute_binary") && req.is_ai_generated {
        return (HalLevel::Block, Score::from_nanos(900_000_000));
    }
    if is_outside_user_home(req.target.as_str(), home) {
        return (HalLevel::Block, Score::from_nanos(850_000_000));
    }
    if text::same_text(action, "install_package") || text::same_text(action, "modify_config")
        || text::same_text(action, "delete_file") || req.is_ai_generated {
        let score = if text::same_text(action, "delete_file") {
            Score::from_nanos(750_000_000)
        } else {
            Score::from_nanos(650_000_000)
        };
        return (HalLevel::Confirm, score);
    }
    if text::same_text(action, "move_file") || text::same_text(action, "create_file")
        || text::same_text(action, "start_service") {
        return (HalLevel::Notify, Score::from_nanos(400_000_000));
    }
    (HalLevel::Silent, Score::from_nanos(150_000_000))
}

/// The longest message that is read, in bytes.
pub const MAX_MESSAGE: u32 = 65_536;

/// The number that four bytes denote, most significant first.
pub open spec fn big_endian(b: Seq<u8>) -> int {
    b[0] * 16_777_216 + b[1] * 65_536 + b[2] * 256 + b[3]
}

/// The length that a frame announces, or `None` where the message is too long
/// to be read.
pub fn message_length(len_buf: &[u8; 4]) -> (r: Option<u32>)
    ensures
        match r {
            Some(n) => n == big_endian(len_buf@) && n <= MAX_MESSAGE,
            None => big_endian(len_buf@) > MAX_MESSAGE,
        },
{
    let n: u32 = frame_length(len_buf);
    if n > MAX_MESSAGE {
        None
    } else {
        Some(n)
    }
}

/// The number that four bytes denote, most significant first.
pub fn frame_length(len_buf: &[u8; 4]) -> (n: u32)
    ensures
        n == big_endian(len_buf@),
{
    len_buf[0] as u32 * 16_777_216 + len_buf[1] as u32 * 65_536 + len_buf[2] as u32 * 256
        + len_buf[3] as u32
}

/// A payload behind its length in four bytes, most significant first; of a
/// longer length only the low 32 bits are sent.
pub fn frame(payload: &[u8]) -> (f: Vec<u8>)
    ensures
        f@.len() == payload@.len() + 4,
        f@.subrange(4, f@.len() as int) == payload@,
        big_endian(f@.subrange(0, 4)) == payload@.len() % 4_294_967_296,
{
    let n: u64 = payload.len() as u64 % 4_294_967_296;
    let b0: u8 = (n / 16_777_216) as u8;
    let b1: u8 = ((n / 65_536) % 256) as u8;
    let b2: u8 = ((n / 256) % 256) as u8;
    let b3: u8 = (n % 256) as u8;
    let mut f: Vec<u8> = Vec::new();
    f.push(b0);
    f.push(b1);
    f.push(b2);
    f.push(b3);
    let ghost head = f@;
    push_bytes(&mut f, payload);
    assert(f@.subrange(4, f@.len() as int) =~= payload@);
    assert(f@.subrange(0, 4) =~= head);
    f
}

/// What is decided about a request.
#[derive(Clone, Copy, Debug, PartialEq, Eq, Structural)]
pub struct GateVerdict {
    /// Whether the action may run.
    pub approved: bool,
    /// Why.
    pub reason: GateReason,
    /// The score of the action.
    pub score: Score,
}

/// What is written to the audit log about a request.
#[derive(Clone, Copy, Debug, PartialEq, Eq, Structural)]
pub struct GateAudit {
    /// The score of the action.
    pub score: Score,
    /// The level of the action.
    pub level: HalLevel,
    /// How it came out.
    pub outcome: GateOutcome,
    /// A remark.
    pub note: GateNote,
}

/// How a request came out.
#[derive(Clone, Copy, Debug, PartialEq, Eq, Structural)]
pub enum GateOutcome {
    /// Approved by rule.
    AutoApproved,
    /// Denied by rule.
    AutoDenied,
    /// Approved after a question.
    Approved,
    /// Denied after a question.
    Denied,
}

/// A remark on a request.
#[derive(Clone, Copy, Debug, PartialEq, Eq, Structural)]
pub enum GateNote {
    /// Nothing to remark.
    Empty,
    /// The agent is unknown.
    UnknownAgent,
    /// The agent tried to modify HAL.
    ModifyHalAttempt,
}

/// How the audit log writes a level.
pub open spec fn level_word(l: HalLevel) -> Seq<char> {
    match l {
        HalLevel::Silent => "silent"@,
        HalLevel::Notify => "notify"@,
        HalLevel::Confirm => "confirm"@,
        HalLevel::Block => "block"@,
    }
}

/// How the audit log writes an outcome.
pub open spec fn outcome_word(o: GateOutcome) -> Seq<char> {
    match o {
        GateOutcome::AutoApproved => "auto_approved"@,
        GateOutcome::AutoDenied => "auto_denied"@,
        GateOutcome::Approved => "approved"@,
        GateOutcome::Denied => "denied"@,
    }
}

/// How the audit log writes a remark.
pub open spec fn note_word(n: GateNote) -> Seq<char> {
    match n {
        GateNote::Empty => ""@,
        GateNote::UnknownAgent => "unknown_agent"@,
        GateNote::ModifyHalAttempt => "modify_hal_attempt"@,
    }
}

impl GateAudit {
    /// The level as the audit log writes it.
    pub fn level_label(&self) -> (r: &'static str)
        ensures
            r@ == level_word(self.level),
    {
        match self.level {
            HalLevel::Silent => "silent",
            HalLevel::Notify => "notify",
            HalLevel::Confirm => "confirm",
            HalLevel::Block => "block",
        }
    }

    /// The outcome as the audit log writes it.
    pub fn outcome_label(&self) -> (r: &'static str)
        ensures
            r@ == outcome_word(self.outcome),
    {
        match self.outcome {
            GateOutcome::AutoApproved => "auto_approved",
            GateOutcome::AutoDenied => "auto_denied",
            GateOutcome::Approved => "approved",
            GateOutcome::Denied => "denied",
        }
    }

    /// The remark as the audit log writes it.
    pub fn note_label(&self) -> (r: &'static str)
        ensures
            r@ == note_word(self.note),
    {
        match self.note {
            GateNote::Empty => "",
            GateNote::UnknownAgent => "unknown_agent",
            GateNote::ModifyHalAttempt => "modify_hal_attempt",
        }
    }
}

/// What to do next about a request.
#[derive(Clone, Copy, Debug, PartialEq, Eq, Structural)]
pub enum GateStep {
    /// Write the audit entry and answer.
    Answer {
        /// The answer.
        verdict: GateVerdict,
        /// The audit entry.
        audit: GateAudit,
    },
    /// Show a notice, write the audit entry and answer.
    NotifyThenAnswer {
        /// The answer.
        verdict: GateVerdict,
        /// The audit entry.
        audit: GateAudit,
    },
    /// Ask the user.
    AskUser {
        /// The level of the question.
        level: HalLevel,
        /// The score of the action.
        score: Score,
    },
}

/// The step for a request.
pub open spec fn step_of(req: GateRequest, home: Seq<char>) -> GateStep {
    let full = Score { nanos: 1_000_000_000 };
    if !is_known(req.agent@) {
        GateStep::Answer {
            verdict: GateVerdict { approved: false, reason: GateReason::AutoDenied, score: full },
            audit: GateAudit {
                score: full,
                level: HalLevel::Block,
                outcome: GateOutcome::AutoDenied,
                note: GateNote::UnknownAgent,
            },
        }
    } else if req.action@ == "modify_hal"@ {
        GateStep::Answer {
            verdict: GateVerdict { approved: false, reason: GateReason::AutoDenied, score: full },
            audit: GateAudit {
                score: full,
                level: HalLevel::Block,
                outcome: GateOutcome::AutoDenied,
                note: GateNote::ModifyHalAttempt,
            },
        }
    } else {
        let (level, nanos) = level_of(req, home);
        let score = Score { nanos: nanos as i64 };
        let verdict = GateVerdict { approved: true, reason: GateReason::AutoApproved, score };
        let audit = GateAudit {
            score,
            level,
            outcome: GateOutcome::AutoApproved,
            note: GateNote::Empty,
        };
        match level {
            HalLevel::Silent => GateStep::Answer { verdict, audit },
            HalLevel::Notify => GateStep::NotifyThenAnswer { verdict, audit },
            _ => GateStep::AskUser { level, score },
        }
    }
}

/// The step for a request of a user with a given home.
pub fn step(req: &GateRequest, home: &str) -> (s: GateStep)
    ensures
        s == step_of(*req, home@),
        is_known(req.agent@) && req.target@.len() > 0 && req.target@[0] == '/'
            && !home@.is_prefix_of(req.target@) ==> match s {
            GateStep::Answer { verdict, audit } => !verdict.approved,
            GateStep::NotifyThenAnswer { verdict, audit } => false,
            GateStep::AskUser { level, score } => level == HalLevel::Block && score.nanos
                >= 850_000_000,
        },
{
    proof {
        outside_is_absolute_and_foreign(req.target@, home@);
    }
    let full = Score::from_nanos(1_000_000_000);
    if !is_known_agent(req.agent.as_str()) {
        return GateStep::Answer {
            verdict: GateVerdict { approved: false, reason: GateReason::AutoDenied, score: full },
            audit: GateAudit {
                score: full,
                level: HalLevel::Block,
                outcome: GateOutcome::AutoDenied,
                note: GateNote::UnknownAgent,
            },
        };
    }
    if text::same_text(req.action.as_str(), "modify_hal") {
        return GateStep::Answer {
            verdict: GateVerdict { approved: false, reason: GateReason::AutoDenied, score: full },
            audit: GateAudit {
                score: full,
                level: HalLevel::Block,
                outcome: GateOutcome::AutoDenied,
                note: GateNote::ModifyHalAttempt,
            },
        };
    }
    let (level, score) = compute_hal_level_v0(req, home);
    let verdict = GateVerdict { approved: true, reason: GateReason::AutoApproved, score };
    let audit = GateAudit {
        score,
        level,
        outcome: GateOutcome::AutoApproved,
        note: GateNote::Empty,
    };
    match level {
        HalLevel::Silent => GateStep::Answer { verdict, audit },
        HalLevel::Notify => GateStep::NotifyThenAnswer { verdict, audit },
        HalLevel::Confirm | HalLevel::Block => GateStep::AskUser { level, score },
    }
}

/// What the user's reply, or its absence, makes of a question.
pub open spec fn conclusion_of(level: HalLevel, score: Score, reply: Option<bool>) -> (
    GateVerdict,
    GateAudit,
) {
    let approved = reply == Some(true);
    let reason = match reply {
        Some(true) => GateReason::UserApproved,
        Some(false) => GateReason::UserDenied,
        None => GateReason::TimeoutDeny,
    };
    (
        GateVerdict { approved, reason, score },
        GateAudit {
            score,
            level,
            outcome: if approved {
                GateOutcome::Approved
            } else {
                GateOutcome::Denied
            },
            note: GateNote::Empty,
        },
    )
}

/// Concludes a question: `reply` is whether the user allowed the action, or
/// `None` where no reply came.
pub fn conclude(level: HalLevel, score: Score, reply: Option<bool>) -> (r: (GateVerdict, GateAudit))
    ensures
        r == conclusion_of(level, score, reply),
{
    let (approved, reason) = match reply {
        Some(true) => (true, GateReason::UserApproved),
        Some(false) => (false, GateReason::UserDenied),
        None => (false, GateReason::TimeoutDeny),
    };
    let outcome = if approved {
        GateOutcome::Approved
    } else {
        GateOutcome::Denied
    };
    (
        GateVerdict { approved, reason, score },
        GateAudit { score, level, outcome, note: GateNote::Empty },
    )
}

/// What a dialog's reply says: `None` where it is no JSON, and otherwise
/// whether its member "approved" is true.
pub open spec fn reply_of(approved: Option<Option<bool>>) -> Option<bool> {
    match approved {
        None => None,
        Some(None) => Some(false),
        Some(Some(b)) => Some(b),
    }
}

/// Reads the reply from the member "approved" of a dialog's answer.
pub fn reply_from_member(approved: Option<Option<bool>>) -> (r: Option<bool>)
    ensures
        r == reply_of(approved),
{
    match approved {
        None => None,
        Some(None) => Some(false),
        Some(Some(b)) => Some(b),
    }
}

/// Reads a dialog's reply.
pub fn ui_reply(bytes: &[u8]) -> (r: Option<bool>)
    ensures
        r == reply_of(json::bool_member_of(bytes@, "approved"@)),
{
    reply_from_member(json::bool_member(bytes, "approved"))
}

/// Whether a line typed at the terminal, without white space at its ends, and
/// the same in lower case, allow an action.
pub fn line_allows(trimmed: &str, lower: &str) -> (r: bool)
    ensures
        r == (trimmed@ == "yes"@ || lower@ == "y"@),
{
    text::same_text(trimmed, "yes") || text::same_text(lower, "y")
}

/// Whether a line typed at the terminal allows an action.
pub fn terminal_reply(line: &str) -> (r: bool)
    ensures
        r == (text::trimmed(line@) == "yes"@ || text::lowercase(text::trimmed(line@)) == "y"@),
{
    let answer = text::trim(line);
    let lower = text::to_lowercase(answer.as_str());
    line_allows(answer.as_str(), lower.as_str())
}

/// The kind of dialog for a level.
pub fn dialog_kind(level: HalLevel) -> (r: &'static str)
    ensures
        r@ == (if level == HalLevel::Block {
            "block_dialog"@
        } else {
            "confirm_dialog"@
        }),
{
    if level == HalLevel::Block {
        "block_dialog"
    } else {
        "confirm_dialog"
    }
}

/// How a flag is written.
pub open spec fn flag_word(b: bool) -> Seq<char> {
    if b {
        "true"@
    } else {
        "false"@
    }
}

/// The question at the terminal.
pub open spec fn prompt_of(req: GateRequest, level: HalLevel) -> Seq<char> {
    "\n[HAL] "@ + (if level == HalLevel::Block {
        "BLOCK"@
    } else {
        "CONFIRM"@
    }) + " Request\n  Action: "@ + req.action@ + "\n  Target: "@ + req.target@ + "\n  Agent:  "@
        + req.agent@ + "\n  AI-generated: "@ + flag_word(req.is_ai_generated) + "\n"@ + (if level
        == HalLevel::Block {
        "\nType 'yes' to allow, anything else to deny: "@
    } else {
        "\n[y/N] Allow? "@
    })
}

/// The question at the terminal.
pub fn terminal_prompt(req: &GateRequest, level: HalLevel) -> (t: String)
    ensures
        t@ == prompt_of(*req, level),
{
    let mut t = String::from_str("\n[HAL] ");
    t.append(if level == HalLevel::Block {
        "BLOCK"
    } else {
        "CONFIRM"
    });
    t.append(" Request\n  Action: ");
    t.append(req.action.as_str());
    t.append("\n  Target: ");
    t.append(req.target.as_str());
    t.append("\n  Agent:  ");
    t.append(req.agent.as_str());
    t.append("\n  AI-generated: ");
    t.append(if req.is_ai_generated {
        "true"
    } else {
        "false"
    });
    t.append("\n");
    t.append(if level == HalLevel::Block {
        "\nType 'yes' to allow, anything else to deny: "
    } else {
        "\n[y/N] Allow? "
    });
    t
}

/// The response that carries a verdict.
pub fn response_at(request_id: u128, verdict: &GateVerdict, now: Timestamp) -> (r: GateResponse)
    ensures
        r == (GateResponse {
            request_id,
            approved: verdict.approved,
            reason: verdict.reason,
            hal_score: verdict.score,
            timestamp: now,
        }),
{
    GateResponse {
        request_id,
        approved: verdict.approved,
        reason: verdict.reason,
        hal_score: verdict.score,
        timestamp: now,
    }
}

/// The response that carries a verdict, made now.
pub fn response(request_id: u128, verdict: &GateVerdict) -> (r: GateResponse)
    ensures
        r.request_id == request_id,
        r.approved == verdict.approved,
        r.reason == verdict.reason,
        r.hal_score == verdict.score,
{
    response_at(request_id, verdict, Timestamp::now())
}

/// An approval, made now.
pub fn approve_response(id: u128, reason: GateReason, score: Score) -> (r: GateResponse)
    ensures
        r.request_id == id,
        r.approved,
        r.reason == reason,
        r.hal_score == score,
{
    response(id, &GateVerdict { approved: true, reason, score })
}

/// A denial, made now.
pub fn deny_response(id: u128, reason: GateReason, score: Score) -> (r: GateResponse)
    ensures
        r.request_id == id,
        !r.approved,
        r.reason == reason,
        r.hal_score == score,
{
    response(id, &GateVerdict { approved: false, reason, score })
}

/// The answer to a message that is too long or cannot be read.
pub fn unreadable_response() -> (r: GateResponse)
    ensures
        r.request_id == 0,
        !r.approved,
        r.reason == GateReason::HalError,
        r.hal_score.nanos == 1_000_000_000,
{
    deny_response(0, GateReason::HalError, Score::from_nanos(1_000_000_000))
}

/// A directory and a relative path below it, as one path.
pub open spec fn joined(dir: Seq<char>, rel: Seq<char>) -> Seq<char> {
    if dir.len() == 0 || dir.last() == '/' {
        dir + rel
    } else {
        dir + "/"@ + rel
    }
}

fn join_path(dir: &str, rel: &str) -> (r: String)
    ensures
        r@ == joined(dir@, rel@),
{
    let n: usize = dir.unicode_len();
    let mut p = String::from_str(dir);
    if n != 0 && dir.get_char(n - 1) != '/' {
        p.append("/");
    }
    p.append(rel);
    p
}

/// The approval daemon's sockets and files, and whether it keeps running.
#[derive(Clone, Debug)]
pub struct HalDaemon {
    /// The socket on which agents ask.
    pub socket_path: String,
    /// The socket for notices.
    pub notification_socket: String,
    /// The socket for dialogs.
    pub hal_ui_socket: String,
    /// The audit log.
    pub audit_log: String,
    /// Whether the daemon keeps running.
    pub running: bool,
}

impl HalDaemon {
    /// The daemon of a user with a given home, or of one without a home.
    pub fn new(home: Option<String>) -> (d: HalDaemon)
        ensures
            d.socket_path@ == "/run/cognos/hal.sock"@,
            d.notification_socket@ == "/run/cognos/notifications.sock"@,
            d.hal_ui_socket@ == "/run/cognos/hal-ui.sock"@,
            d.audit_log@ == joined(
                match home {
                    Some(h) => h@,
                    None => "/tmp"@,
                },
                ".cognos/audit.log"@,
            ),
            d.running,
    {
        let dir = match home {
            Some(h) => h,
            None => String::from_str("/tmp"),
        };
        HalDaemon {
            socket_path: String::from_str("/run/cognos/hal.sock"),
            notification_socket: String::from_str("/run/cognos/notifications.sock"),
            hal_ui_socket: String::from_str("/run/cognos/hal-ui.sock"),
            audit_log: join_path(dir.as_str(), ".cognos/audit.log"),
            running: true,
        }
    }

    /// Asks the daemon to stop.
    pub fn shutdown(&mut self)
        ensures
            *final(self) == (HalDaemon { running: false, ..*old(self) }),
    {
        self.running = false;
    }
}

/// An unknown agent and an attempt to modify HAL are denied at once with the
/// full score; the user is never asked about them.
pub proof fn security_events_are_denied(req: GateRequest, home: Seq<char>)
    requires
        !is_known(req.agent@) || req.action@ == "modify_hal"@,
    ensures
        step_of(req, home) matches GateStep::Answer { verdict, audit } && !verdict.approved
            && verdict.reason == GateReason::AutoDenied && verdict.score.nanos == 1_000_000_000
            && audit.outcome == GateOutcome::AutoDenied && audit.note != GateNote::Empty,
        level_of(req, home) == (HalLevel::Block, 1_000_000_000int),
{
}

/// Only actions that score below 0.6, and that no AI-generated code produced,
/// are approved without asking the user.
pub proof fn automatic_approvals_are_harmless(req: GateRequest, home: Seq<char>)
    ensures
        match step_of(req, home) {
            GateStep::Answer { verdict, audit } => verdict.approved ==> verdict.score.nanos
                < 300_000_000 && !req.is_ai_generated && !outside_home(req.target@, home),
            GateStep::NotifyThenAnswer { verdict, audit } => verdict.approved
                && verdict.score.nanos < 600_000_000 && !req.is_ai_generated && !outside_home(
                req.target@,
                home,
            ),
            GateStep::AskUser { level, score } => score.nanos >= 600_000_000,
        },
{
}

/// A question that gets no reply, or any reply but a yes, denies the action.
pub proof fn silence_denies(level: HalLevel, score: Score, reply: Option<bool>)
    ensures
        conclusion_of(level, score, reply).0.approved <==> reply == Some(true),
        reply is None ==> conclusion_of(level, score, reply).0.reason == GateReason::TimeoutDeny,
{
}

/// The level of a request is the band of its score.
pub proof fn levels_are_bands(req: GateRequest, home: Seq<char>)
    ensures
        ({
            let (level, score) = level_of(req, home);
            &&& level == HalLevel::Silent <==> score < 300_000_000
            &&& level == HalLevel::Notify <==> 300_000_000 <= score < 600_000_000
            &&& level == HalLevel::Confirm <==> 600_000_000 <= score < 800_000_000
            &&& level == HalLevel::Block <==> score >= 800_000_000
        }),
{
}

/// What is framed is read back: the announced length and the payload.
pub proof fn frames_read_back(payload: Seq<u8>, framed: Seq<u8>)
    requires
        payload.len() <= MAX_MESSAGE,
        framed.len() == payload.len() + 4,
        framed.subrange(4, framed.len() as int) == payload,
        big_endian(framed.subrange(0, 4)) == payload.len() % 4_294_967_296,
    ensures
        big_endian(framed.subrange(0, 4)) == payload.len(),
        framed.subrange(4, 4 + big_endian(framed.subrange(0, 4))) == payload,
{
}

/// A target that begins with a slash and not with the user's home is blocked
/// with a score of at least 0.85, and the user is asked about it before anything
/// is approved.
pub proof fn foreign_paths_need_the_user(
    req: GateRequest,
    home: Seq<char>,
    level: HalLevel,
    score: int,
)
    requires
        is_known(req.agent@),
        req.target@.len() > 0,
        req.target@[0] == '/',
        !home.is_prefix_of(req.target@),
        level_of(req, home) == (level, score),
    ensures
        level == HalLevel::Block,
        score >= 850_000_000,
        match step_of(req, home) {
            GateStep::Answer { verdict, audit } => !verdict.approved,
            GateStep::NotifyThenAnswer { verdict, audit } => false,
            GateStep::AskUser { level: asked, score: shown } => asked == HalLevel::Block
                && shown.nanos >= 850_000_000,
        },
        req.action@ != "modify_hal"@ ==> step_of(req, home) is AskUser,
{
    outside_is_absolute_and_foreign(req.target@, home);
}

/// A target lies outside the home exactly where it begins with a slash and does
/// not begin with the home.
pub proof fn outside_is_absolute_and_foreign(target: Seq<char>, home: Seq<char>)
    ensures
        outside_home(target, home) <==> target.len() > 0 && target[0] == '/'
            && !home.is_prefix_of(target),
{
    reveal_strlit("/");
    reveal_strlit("~/");
    text::beginnings_are_prefixes(target, home, Seq::empty());
    text::beginnings_are_prefixes(target, "/"@, Seq::empty());
    text::beginnings_are_prefixes(target, "~/"@, Seq::empty());
    if target.len() > 0 && target[0] == '/' {
        assert("/"@ =~= target.subrange(0, 1));
    }
    if "/"@.is_prefix_of(target) {
        assert(target[0] == target.subrange(0, 1)[0]);
    }
    if "~/"@.is_prefix_of(target) {
        assert(target[0] == target.subrange(0, 2)[0]);
    }
}

/// Those who may ask are the agents that have capabilities, except for the
/// coordinator, which only passes messages on.
pub proof fn askers_are_the_agents(name: Seq<char>)
    ensures
        is_known(name) <==> permissions::is_agent(name) && name != "coordinator"@,
        is_known(name) <==> exists|i: int| 0 <= i < 7 && (#[trigger] KNOWN_AGENTS[i])@ == name,
{
    let list = KNOWN_AGENTS;
    assert(list[0]@ == "planner"@);
    assert(list[1]@ == "memory"@);
    assert(list[2]@ == "security"@);
    assert(list[3]@ == "scheduler"@);
    assert(list[4]@ == "file"@);
    assert(list[5]@ == "coding"@);
    assert(list[6]@ == "ui"@);
    reveal_strlit("planner");
    reveal_strlit("memory");
    reveal_strlit("security");
    reveal_strlit("scheduler");
    reveal_strlit("file");
    reveal_strlit("coding");
    reveal_strlit("ui");
    reveal_strlit("coordinator");
    assert("planner"@.len() != "coordinator"@.len());
    assert("memory"@.len() != "coordinator"@.len());
    assert("security"@.len() != "coordinator"@.len());
    assert("scheduler"@.len() != "coordinator"@.len());
    assert("file"@.len() != "coordinator"@.len());
    assert("coding"@.len() != "coordinator"@.len());
    assert("ui"@.len() != "coordinator"@.len());
}

/// What is decided without the user, by the request alone: an unknown agent and
/// an attempt to modify HAL are denied, and what is approved comes from a known
/// agent, was not generated, stays at home and is none of the actions that
/// always need a confirmation.
pub proof fn only_harmless_requests_skip_the_user(req: GateRequest, home: Seq<char>)
    ensures
        ({
            let foreign = req.target@.len() > 0 && req.target@[0] == '/' && !home.is_prefix_of(
                req.target@,
            );
            let grave = req.action@ == "install_package"@ || req.action@ == "modify_config"@
                || req.action@ == "delete_file"@;
            let noted = req.action@ == "move_file"@ || req.action@ == "create_file"@ || req.action@
                == "start_service"@;
            let refused = !is_known(req.agent@) || req.action@ == "modify_hal"@;
            match step_of(req, home) {
                GateStep::Answer { verdict, audit } => {
                    &&& verdict.approved <==> !refused
                    &&& verdict.approved ==> !foreign && !grave && !noted && !req.is_ai_generated
                    &&& verdict.approved ==> verdict.score.nanos == 150_000_000 && verdict.reason
                        == GateReason::AutoApproved
                    &&& !verdict.approved ==> verdict.score.nanos == 1_000_000_000 && verdict.reason
                        == GateReason::AutoDenied
                    &&& audit.score == verdict.score
                    &&& verdict.approved <==> audit.outcome == GateOutcome::AutoApproved
                    &&& !verdict.approved <==> audit.outcome == GateOutcome::AutoDenied
                    &&& verdict.approved <==> audit.level == HalLevel::Silent
                    &&& !verdict.approved <==> audit.level == HalLevel::Block
                    &&& audit.note == GateNote::UnknownAgent <==> !is_known(req.agent@)
                    &&& audit.note == GateNote::ModifyHalAttempt <==> is_known(req.agent@)
                        && req.action@ == "modify_hal"@
                },
                GateStep::NotifyThenAnswer { verdict, audit } => {
                    &&& !refused && !foreign && !grave && noted && !req.is_ai_generated
                    &&& verdict.approved && verdict.reason == GateReason::AutoApproved
                    &&& verdict.score.nanos == 400_000_000
                    &&& audit.score == verdict.score && audit.level == HalLevel::Notify
                        && audit.outcome == GateOutcome::AutoApproved && audit.note
                        == GateNote::Empty
                },
                GateStep::AskUser { level, score } => {
                    &&& !refused
                    &&& foreign || grave || req.is_ai_generated
                    &&& level == HalLevel::Block <==> foreign || (req.action@ == "execute_binary"@
                        && req.is_ai_generated)
                    &&& level == HalLevel::Confirm <==> score.nanos < 800_000_000
                    &&& req.action@ == "execute_binary"@ && req.is_ai_generated ==> score.nanos
                        == 900_000_000
                    &&& foreign ==> score.nanos >= 850_000_000
                    &&& level == HalLevel::Block ==> score.nanos == 850_000_000 || (req.action@
                        == "execute_binary"@ && req.is_ai_generated)
                    &&& level == HalLevel::Confirm && req.action@ == "delete_file"@ ==> score.nanos
                        == 750_000_000
                    &&& level == HalLevel::Confirm && req.action@ != "delete_file"@ ==> score.nanos
                        == 650_000_000
                },
            }
        }),
{
    outside_is_absolute_and_foreign(req.target@, home);
    reveal_strlit("execute_binary");
    reveal_strlit("delete_file");
    assert("execute_binary"@.len() != "delete_file"@.len());
    reveal_strlit("modify_hal");
    assert("modify_hal"@.len() == 10);
}

/// A generated request never scores lower, and is never decided more freely,
/// than the same request made by hand.
pub proof fn generated_requests_are_never_freer(req: GateRequest, home: Seq<char>)
    requires
        !req.is_ai_generated,
    ensures
        level_of((GateRequest { is_ai_generated: true, ..req }), home).1 >= level_of(req, home).1,
        step_of(req, home) is AskUser ==> step_of(
            (GateRequest { is_ai_generated: true, ..req }),
            home,
        ) is AskUser,
        !(step_of((GateRequest { is_ai_generated: true, ..req }), home) matches GateStep::Answer {
            verdict,
            audit,
        } && verdict.approved),
        !(step_of((GateRequest { is_ai_generated: true, ..req }), home) is NotifyThenAnswer),
{
}

/// The reply decides: a yes approves, a no and silence deny, and the log and the
/// answer say which. The score and the level stay those of the question.
pub proof fn replies_decide(level: HalLevel, score: Score, reply: Option<bool>)
    ensures
        ({
            let (verdict, audit) = conclusion_of(level, score, reply);
            &&& verdict.approved <==> reply == Some(true)
            &&& verdict.reason == GateReason::UserApproved <==> reply == Some(true)
            &&& verdict.reason == GateReason::UserDenied <==> reply == Some(false)
            &&& verdict.reason == GateReason::TimeoutDeny <==> reply is None
            &&& audit.outcome == GateOutcome::Approved <==> verdict.approved
            &&& audit.outcome == GateOutcome::Denied <==> !verdict.approved
            &&& verdict.score == score && audit.score == score && audit.level == level
            &&& audit.note == GateNote::Empty
        }),
{
}

/// A dialog's reply is a yes exactly where its member says so, and none where it
/// could not be read.
pub proof fn only_a_true_member_is_a_yes(approved: Option<Option<bool>>)
    ensures
        reply_of(approved) == Some(true) <==> approved == Some(Some(true)),
        reply_of(approved) is None <==> approved is None,
{
}

/// The first byte of a length weighs most: it alone decides between two lengths
/// that differ in it, and the last one counts singly.
pub proof fn first_byte_weighs_most(a: Seq<u8>, b: Seq<u8>)
    requires
        a.len() == 4,
        b.len() == 4,
    ensures
        a[0] < b[0] ==> big_endian(a) < big_endian(b),
        a[0] == b[0] && a[1] < b[1] ==> big_endian(a) < big_endian(b),
        a[0] == b[0] && a[1] == b[1] && a[2] < b[2] ==> big_endian(a) < big_endian(b),
        a[0] == b[0] && a[1] == b[1] && a[2] == b[2] ==> big_endian(b) - big_endian(a) == b[3]
            - a[3],
        a[0] == b[0] && a[1] == b[1] && a[3] == b[3] ==> big_endian(b) - big_endian(a) == 256 * (
        b[2] - a[2]),
        a[0] == b[0] && a[2] == b[2] && a[3] == b[3] ==> big_endian(b) - big_endian(a) == 65_536 * (
        b[1] - a[1]),
        0 <= big_endian(a) <= 4_294_967_295,
        a[0] == 0 && a[1] == 0 && a[2] == 0 ==> big_endian(a) == a[3],
        big_endian(a) / 16_777_216 == a[0],
{
}

/// A message of up to 64 KiB is read and a longer one is not.
pub proof fn messages_are_limited()
    ensures
        MAX_MESSAGE == 64 * 1024,
{
}

/// The log's words for levels, outcomes and remarks tell them apart, and those
/// for the two levels that ask are the ones that a replay counts.
pub proof fn audit_words_tell_apart(
    a: HalLevel,
    b: HalLevel,
    o: GateOutcome,
    p: GateOutcome,
    m: GateNote,
    n: GateNote,
)
    ensures
        level_word(a) == level_word(b) ==> a == b,
        outcome_word(o) == outcome_word(p) ==> o == p,
        note_word(m) == note_word(n) ==> m == n,
        note_word(m).len() == 0 <==> m == GateNote::Empty,
        level_word(a) == "confirm"@ || level_word(a) == "block"@ <==> a == HalLevel::Confirm || a
            == HalLevel::Block,
        level_word(a) == "silent"@ <==> a == HalLevel::Silent,
        level_word(a) == "notify"@ <==> a == HalLevel::Notify,
        level_word(a) == "block"@ <==> a == HalLevel::Block,
        outcome_word(o) == "auto_"@ + "approved"@ <==> o == GateOutcome::AutoApproved,
        outcome_word(o) == "auto_"@ + "denied"@ <==> o == GateOutcome::AutoDenied,
        outcome_word(o) == "approved"@ <==> o == GateOutcome::Approved,
        outcome_word(o) == "denied"@ <==> o == GateOutcome::Denied,
        note_word(m) == "unknown_agent"@ <==> m == GateNote::UnknownAgent,
        note_word(m) == "modify_hal"@ + "_attempt"@ <==> m == GateNote::ModifyHalAttempt,
{
    reveal_strlit("silent");
    reveal_strlit("notify");
    reveal_strlit("confirm");
    reveal_strlit("block");
    reveal_strlit("auto_approved");
    reveal_strlit("auto_denied");
    reveal_strlit("auto_");
    reveal_strlit("approved");
    reveal_strlit("denied");
    reveal_strlit("");
    reveal_strlit("unknown_agent");
    reveal_strlit("modify_hal_attempt");
    reveal_strlit("modify_hal");
    reveal_strlit("_attempt");
    assert("auto_"@ + "approved"@ =~= "auto_approved"@);
    assert("auto_"@ + "denied"@ =~= "auto_denied"@);
    assert("modify_hal"@ + "_attempt"@ =~= "modify_hal_attempt"@);
    assert("silent"@[0] != "notify"@[0]);
    assert("silent"@.len() == 6);
    assert("confirm"@.len() == 7);
    assert("block"@.len() == 5);
    assert("auto_approved"@.len() == 13);
    assert("auto_denied"@.len() == 11);
    assert("approved"@.len() == 8);
    assert("denied"@.len() == 6);
    assert("unknown_agent"@.len() == 13);
    assert("modify_hal_attempt"@.len() == 18);
    assert(""@.len() == 0);
}

/// The question opens with how grave it is, shows the action, its target, the
/// agent and whether it was generated, and ends with how to allow it.
pub proof fn questions_show_the_request(req: GateRequest, level: HalLevel)
    ensures
        level == HalLevel::Block ==> text::begins_with(
            prompt_of(req, level),
            "\n[HAL] "@ + "BLOCK"@ + " Request\n  Action: "@ + req.action@,
        ),
        level != HalLevel::Block ==> text::begins_with(
            prompt_of(req, level),
            "\n[HAL] "@ + "CONFIRM"@ + " Request\n  Action: "@ + req.action@,
        ),
        text::occurs_in(
            prompt_of(req, level),
            "\n  Target: "@ + req.target@ + "\n  Agent:  "@ + req.agent@ + "\n  AI-generated: "@ + (
            if req.is_ai_generated {
                "true"@
            } else {
                "false"@
            }) + "\n"@,
        ),
        level == HalLevel::Block ==> text::occurs_in(
            prompt_of(req, level),
            "\n"@ + "\nType 'yes' to allow, anything else to deny: "@,
        ),
        level != HalLevel::Block ==> text::occurs_in(
            prompt_of(req, level),
            "\n"@ + "\n[y/N] Allow? "@,
        ),
{
    let p = prompt_of(req, level);
    let word = if level == HalLevel::Block {
        "BLOCK"@
    } else {
        "CONFIRM"@
    };
    let flag = flag_word(req.is_ai_generated);
    let ask = if level == HalLevel::Block {
        "\nType 'yes' to allow, anything else to deny: "@
    } else {
        "\n[y/N] Allow? "@
    };
    let head = "\n[HAL] "@ + word + " Request\n  Action: "@ + req.action@;
    let body = "\n  Target: "@ + req.target@ + "\n  Agent:  "@ + req.agent@
        + "\n  AI-generated: "@ + flag;
    let end = "\n"@ + ask;
    assert(p =~= head + (body + "\n"@ + ask));
    assert(p =~= head + (body + "\n"@) + ask);
    assert(p =~= (head + body) + end + Seq::empty());
    text::beginnings_are_prefixes(p, head, body + "\n"@ + ask);
    text::occurrences_are_parts(p, head, body + "\n"@, ask);
    text::occurrences_are_parts(p, head + body, end, Seq::empty());
}

/// A file under a directory is written with one slash between, and flags are
/// written as words.
pub proof fn names_are_joined_by_one_slash(dir: Seq<char>, rel: Seq<char>, b: bool)
    ensures
        dir.len() > 0 && dir.last() != '/' ==> joined(dir, rel) == dir + seq!['/'] + rel,
        dir.len() == 0 || dir.last() == '/' ==> joined(dir, rel) == dir + rel,
        b ==> flag_word(b) == "true"@,
        !b ==> flag_word(b) == "false"@,
{
    reveal_strlit("/");
    assert("/"@ =~= seq!['/']);
}

} // verus!
