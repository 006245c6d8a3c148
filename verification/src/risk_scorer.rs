//! Formal risk model for proposed actions.
//!
//! `R(A) = w1·Irreversibility(A) + w2·Scope(A) + w3·TrustContext(A)
//!         + w4·TimeAnomaly(A) + w5·VibeCodeFlag(A)
//!         - w6·UserHistory(A) - w7·PatternMatch(A)`
//!
//! The weights sum to one and every component lies in `[0, 1]`. The result is
//! clamped to `[0, 1]`; hard floors are applied last.

use vstd::prelude::*;
use vstd::string::StringExecFns;

use crate::score;
use crate::text;
use crate::clock::Timestamp;
use crate::score::div_floor;
use crate::score::unit_score;
use crate::score::Score;
use crate::score::SCALE;

verus! {

/// How reversible the action is.
#[derive(Clone, Copy, Debug, PartialEq, Eq, Structural)]
pub enum IrreversibilityLevel {
    /// Open app, read file: fully reversible.
    FullyReversible,
    /// Config change, moved file: reversible with effort.
    ReversibleWithEffort,
    /// Package install, permission grant: hard to reverse.
    HardToReverse,
    /// Delete, format, credential change: irreversible.
    Irreversible,
}

impl IrreversibilityLevel {
    /// The component's value in billionths.
    pub open spec fn level(self) -> int {
        match self {
            IrreversibilityLevel::FullyReversible => 0,
            IrreversibilityLevel::ReversibleWithEffort => 300_000_000,
            IrreversibilityLevel::HardToReverse => 700_000_000,
            IrreversibilityLevel::Irreversible => 1_000_000_000,
        }
    }

    /// The component's value.
    pub fn score(&self) -> (s: Score)
        ensures
            s.nanos == self.level(),
    {
        match self {
            IrreversibilityLevel::FullyReversible => Score::from_nanos(0),
            IrreversibilityLevel::ReversibleWithEffort => Score::from_nanos(300_000_000),
            IrreversibilityLevel::HardToReverse => Score::from_nanos(700_000_000),
            IrreversibilityLevel::Irreversible => Score::from_nanos(1_000_000_000),
        }
    }
}

/// How wide the blast radius of the action is.
#[derive(Clone, Copy, Debug, PartialEq, Eq, Structural)]
pub enum ScopeLevel {
    /// Single file in user home.
    SingleFileUserHome,
    /// Multiple files, single directory.
    MultipleFileSingleDir,
    /// System-wide, multiple users.
    SystemWide,
    /// Kernel-level, hardware-level.
    KernelLevel,
}

impl ScopeLevel {
    /// The component's value in billionths.
    pub open spec fn level(self) -> int {
        match self {
            ScopeLevel::SingleFileUserHome => 0,
            ScopeLevel::MultipleFileSingleDir => 300_000_000,
            ScopeLevel::SystemWide => 700_000_000,
            ScopeLevel::KernelLevel => 1_000_000_000,
        }
    }

    /// The component's value.
    pub fn score(&self) -> (s: Score)
        ensures
            s.nanos == self.level(),
    {
        match self {
            ScopeLevel::SingleFileUserHome => Score::from_nanos(0),
            ScopeLevel::MultipleFileSingleDir => Score::from_nanos(300_000_000),
            ScopeLevel::SystemWide => Score::from_nanos(700_000_000),
            ScopeLevel::KernelLevel => Score::from_nanos(1_000_000_000),
        }
    }
}

/// How trustworthy the source of the action is.
#[derive(Clone, Copy, Debug, PartialEq, Eq, Structural)]
pub enum TrustContextLevel {
    /// Known app, established behavior, signed source.
    KnownTrusted,
    /// Known app, minor behavioral anomaly.
    KnownAnomalous,
    /// New app, unverified behavior.
    NewApp,
    /// Unknown binary, behavioral red flag, unsigned.
    Unknown,
}

impl TrustContextLevel {
    /// The component's value in billionths.
    pub open spec fn level(self) -> int {
        match self {
            TrustContextLevel::KnownTrusted => 0,
            TrustContextLevel::KnownAnomalous => 400_000_000,
            TrustContextLevel::NewApp => 700_000_000,
            TrustContextLevel::Unknown => 1_000_000_000,
        }
    }

    /// The component's value.
    pub fn score(&self) -> (s: Score)
        ensures
            s.nanos == self.level(),
    {
        match self {
            TrustContextLevel::KnownTrusted => Score::from_nanos(0),
            TrustContextLevel::KnownAnomalous => Score::from_nanos(400_000_000),
            TrustContextLevel::NewApp => Score::from_nanos(700_000_000),
            TrustContextLevel::Unknown => Score::from_nanos(1_000_000_000),
        }
    }
}

/// Whether the action occurs at an unusual time.
#[derive(Clone, Copy, Debug, PartialEq, Eq, Structural)]
pub enum TimeAnomalyLevel {
    /// Action within established time patterns.
    Normal,
    /// Action outside normal hours but not unprecedented.
    UnusualHour,
    /// Unusual time and unusual scope combined.
    UnusualTimeAndScope,
}

impl TimeAnomalyLevel {
    /// The component's value in billionths.
    pub open spec fn level(self) -> int {
        match self {
            TimeAnomalyLevel::Normal => 0,
            TimeAnomalyLevel::UnusualHour => 500_000_000,
            TimeAnomalyLevel::UnusualTimeAndScope => 1_000_000_000,
        }
    }

    /// The component's value.
    pub fn score(&self) -> (s: Score)
        ensures
            s.nanos == self.level(),
    {
        match self {
            TimeAnomalyLevel::Normal => Score::from_nanos(0),
            TimeAnomalyLevel::UnusualHour => Score::from_nanos(500_000_000),
            TimeAnomalyLevel::UnusualTimeAndScope => Score::from_nanos(1_000_000_000),
        }
    }
}

/// Whether AI-generated code is involved.
#[derive(Clone, Copy, Debug, PartialEq, Eq, Structural)]
pub enum VibeFlagLevel {
    /// No AI-generated code involved.
    NoAiCode,
    /// AI-generated code, not yet human-reviewed.
    AiGeneratedUnreviewed,
    /// AI-generated code touching kernel or HAL-adjacent paths.
    AiGeneratedKernelAdjacent,
}

impl VibeFlagLevel {
    /// The component's value in billionths.
    pub open spec fn level(self) -> int {
        match self {
            VibeFlagLevel::NoAiCode => 0,
            VibeFlagLevel::AiGeneratedUnreviewed => 800_000_000,
            VibeFlagLevel::AiGeneratedKernelAdjacent => 1_000_000_000,
        }
    }

    /// The component's value.
    pub fn score(&self) -> (s: Score)
        ensures
            s.nanos == self.level(),
    {
        match self {
            VibeFlagLevel::NoAiCode => Score::from_nanos(0),
            VibeFlagLevel::AiGeneratedUnreviewed => Score::from_nanos(800_000_000),
            VibeFlagLevel::AiGeneratedKernelAdjacent => Score::from_nanos(1_000_000_000),
        }
    }
}

/// How many times the user has done this exact action before.
#[derive(Clone, Copy, Debug, PartialEq, Eq, Structural)]
pub enum UserHistoryLevel {
    /// Never done before.
    Never,
    /// Done fewer than 5 times.
    Rare,
    /// Done more than 20 times with consistent context.
    Frequent,
    /// Done more than 100 times in identical context (routine).
    Routine,
}

impl UserHistoryLevel {
    /// The component's value in billionths.
    pub open spec fn level(self) -> int {
        match self {
            UserHistoryLevel::Never => 0,
            UserHistoryLevel::Rare => 300_000_000,
            UserHistoryLevel::Frequent => 700_000_000,
            UserHistoryLevel::Routine => 1_000_000_000,
        }
    }

    /// The component's value.
    pub fn score(&self) -> (s: Score)
        ensures
            s.nanos == self.level(),
    {
        match self {
            UserHistoryLevel::Never => Score::from_nanos(0),
            UserHistoryLevel::Rare => Score::from_nanos(300_000_000),
            UserHistoryLevel::Frequent => Score::from_nanos(700_000_000),
            UserHistoryLevel::Routine => Score::from_nanos(1_000_000_000),
        }
    }
}

/// How closely this matches a learned behavioral pattern.
#[derive(Clone, Copy, Debug, PartialEq, Eq, Structural)]
pub enum PatternMatchLevel {
    /// No matching learned pattern.
    NoMatch,
    /// Partial pattern match.
    PartialMatch,
    /// Exact pattern match with high confidence.
    ExactMatch,
}

impl PatternMatchLevel {
    /// The component's value in billionths.
    pub open spec fn level(self) -> int {
        match self {
            PatternMatchLevel::NoMatch => 0,
            PatternMatchLevel::PartialMatch => 500_000_000,
            PatternMatchLevel::ExactMatch => 1_000_000_000,
        }
    }

    /// The component's value.
    pub fn score(&self) -> (s: Score)
        ensures
            s.nanos == self.level(),
    {
        match self {
            PatternMatchLevel::NoMatch => Score::from_nanos(0),
            PatternMatchLevel::PartialMatch => Score::from_nanos(500_000_000),
            PatternMatchLevel::ExactMatch => Score::from_nanos(1_000_000_000),
        }
    }
}

/// An action proposed by an agent, ready to be risk-scored.
#[derive(Clone, Debug)]
pub struct ProposedAction {
    /// The action name, e.g. "delete_file", "install_package".
    pub action_type: String,
    /// The target resource path or identifier.
    pub target: String,
    /// The agent proposing this action.
    pub agent: String,
    /// How reversible the action is.
    pub irreversibility: IrreversibilityLevel,
    /// How wide its blast radius is.
    pub scope: ScopeLevel,
    /// How trustworthy its source is.
    pub trust_context: TrustContextLevel,
    /// Whether it comes at an unusual time.
    pub time_anomaly: TimeAnomalyLevel,
    /// Whether AI-generated code is involved.
    pub vibe_flag: VibeFlagLevel,
    /// How often the user did this before.
    pub user_history: UserHistoryLevel,
    /// How closely it matches a learned pattern.
    pub pattern_match: PatternMatchLevel,
    /// Whether this action targets kernel-adjacent paths.
    pub is_kernel_adjacent: bool,
    /// Whether the action is a delete operation.
    pub is_delete: bool,
}

/// System context at the time of scoring.
#[derive(Clone, Debug)]
pub struct SystemContext {
    /// When the action is scored.
    pub current_time: Timestamp,
    /// The session it belongs to.
    pub session_id: String,
}

impl SystemContext {
    /// The context of an unnamed session at a given time.
    pub fn at(current_time: Timestamp) -> (c: SystemContext)
        ensures
            c.current_time == current_time,
            c.session_id@ == Seq::<char>::empty(),
    {
        SystemContext { current_time, session_id: String::new() }
    }
}

impl Default for SystemContext {
    fn default() -> (c: SystemContext)
        ensures
            c.session_id@ == Seq::<char>::empty(),
    {
        SystemContext::at(Timestamp::now())
    }
}

/// The output of the risk scorer.
#[derive(Clone, Debug)]
pub struct RiskScore {
    /// Final score in `[0, 1]`.
    pub score: Score,
    /// The HAL level this score maps to.
    pub level: RiskLevel,
    /// Plain-English explanation shown to the user in confirmation dialogs.
    pub explanation: String,
    /// Scores of each component, for auditing.
    pub components: ComponentScores,
}

/// Individual component scores for transparency and audit.
#[derive(Clone, Debug)]
pub struct ComponentScores {
    /// Irreversibility.
    pub irreversibility: Score,
    /// Scope.
    pub scope: Score,
    /// Trust context.
    pub trust_context: Score,
    /// Time anomaly.
    pub time_anomaly: Score,
    /// AI-generated code.
    pub vibe_flag: Score,
    /// User history.
    pub user_history: Score,
    /// Pattern match.
    pub pattern_match: Score,
    /// Whether a hard floor raised the score.
    pub hard_floor_applied: bool,
    /// The last hard floor that raised the score.
    pub hard_floor_reason: Option<String>,
}

/// The four HAL response levels.
#[derive(Clone, Copy, Debug, PartialEq, Eq, Structural)]
pub enum RiskLevel {
    /// `[0, 0.3)`: execute, write to audit log.
    Silent,
    /// `[0.3, 0.6)`: toast notification, undo window.
    Notify,
    /// `[0.6, 0.8)`: dialog with plain-English explanation.
    Confirm,
    /// `[0.8, 1]`: full breakdown, explicit approve or deny, mandatory audit.
    Block,
}

/// The response level of a score in billionths.
pub open spec fn level_of(score: int) -> RiskLevel {
    if score < 300_000_000 {
        RiskLevel::Silent
    } else if score < 600_000_000 {
        RiskLevel::Notify
    } else if score < 800_000_000 {
        RiskLevel::Confirm
    } else {
        RiskLevel::Block
    }
}

impl RiskLevel {
    /// The response level of a score.
    pub fn from_score(score: Score) -> (l: RiskLevel)
        ensures
            l == level_of(score.nanos as int),
    {
        if score.nanos < 300_000_000 {
            RiskLevel::Silent
        } else if score.nanos < 600_000_000 {
            RiskLevel::Notify
        } else if score.nanos < 800_000_000 {
            RiskLevel::Confirm
        } else {
            RiskLevel::Block
        }
    }
}

/// Weight of irreversibility, the single most important factor.
pub const W1_IRREVERSIBILITY: i64 = 250_000_000;

/// Weight of scope: blast radius matters almost as much.
pub const W2_SCOPE: i64 = 200_000_000;

/// Weight of trust context: an unverified source is a major risk signal.
pub const W3_TRUST_CONTEXT: i64 = 200_000_000;

/// Weight of time anomaly: useful, not primary.
pub const W4_TIME_ANOMALY: i64 = 100_000_000;

/// Weight of AI-generated code, which needs elevated scrutiny.
pub const W5_VIBE_FLAG: i64 = 100_000_000;

/// Weight of user history: established routines reduce risk.
pub const W6_USER_HISTORY: i64 = 100_000_000;

/// Weight of pattern match, the weakest signal.
pub const W7_PATTERN_MATCH: i64 = 50_000_000;

/// Least score of a delete action.
pub const DELETE_FLOOR: i64 = 500_000_000;

/// Least score of a kernel-adjacent action.
pub const KERNEL_FLOOR: i64 = 700_000_000;

/// Least score of an action with unreviewed AI-generated code.
pub const AI_CODE_FLOOR: i64 = 800_000_000;

/// The weighted sum of the components, in billionths, before clamping.
pub open spec fn raw_risk(a: ProposedAction) -> int {
    (W1_IRREVERSIBILITY * a.irreversibility.level() + W2_SCOPE * a.scope.level() + W3_TRUST_CONTEXT
        * a.trust_context.level() + W4_TIME_ANOMALY * a.time_anomaly.level() + W5_VIBE_FLAG
        * a.vibe_flag.level() - W6_USER_HISTORY * a.user_history.level() - W7_PATTERN_MATCH
        * a.pattern_match.level()) / SCALE as int
}

/// Whether the kernel floor concerns an action.
pub open spec fn kernel_floor_applies(a: ProposedAction) -> bool {
    a.is_kernel_adjacent || a.scope == ScopeLevel::KernelLevel
}

/// Whether the AI-code floor concerns an action.
pub open spec fn ai_floor_applies(a: ProposedAction) -> bool {
    a.vibe_flag != VibeFlagLevel::NoAiCode
}

/// `score`, raised to `floor` where the floor applies.
pub open spec fn floored(score: int, applies: bool, floor: int) -> int {
    if applies && score < floor {
        floor
    } else {
        score
    }
}

/// The clamped sum raised by the delete floor.
pub open spec fn after_delete_floor(a: ProposedAction) -> int {
    floored(score::unit_clamp(raw_risk(a)), a.is_delete, DELETE_FLOOR as int)
}

/// That, raised by the kernel floor.
pub open spec fn after_kernel_floor(a: ProposedAction) -> int {
    floored(after_delete_floor(a), kernel_floor_applies(a), KERNEL_FLOOR as int)
}

/// The final score of an action, in billionths.
pub open spec fn risk_of(a: ProposedAction) -> int {
    floored(after_kernel_floor(a), ai_floor_applies(a), AI_CODE_FLOOR as int)
}

/// The reason of the last hard floor that raised the score.
pub open spec fn floor_reason_of(a: ProposedAction) -> Option<Seq<char>> {
    if risk_of(a) != after_kernel_floor(a) {
        Some("Hard floor: AI-generated unreviewed code always ≥ 0.8"@)
    } else if after_kernel_floor(a) != after_delete_floor(a) {
        Some("Hard floor: kernel-adjacent actions always ≥ 0.7"@)
    } else if after_delete_floor(a) != score::unit_clamp(raw_risk(a)) {
        Some("Hard floor: delete actions always ≥ 0.5 regardless of history"@)
    } else {
        None
    }
}

/// A further sentence of an explanation, or nothing.
pub open spec fn sentence_if(present: bool, sentence: Seq<char>) -> Seq<char> {
    if present {
        " "@ + sentence
    } else {
        Seq::empty()
    }
}

/// How an explanation names a response level.
pub open spec fn level_label(level: RiskLevel) -> Seq<char> {
    match level {
        RiskLevel::Silent => "auto-approved"@,
        RiskLevel::Notify => "notification sent"@,
        RiskLevel::Confirm => "requires confirmation"@,
        RiskLevel::Block => "blocked — explicit approval required"@,
    }
}

/// The first sentence of an explanation.
pub open spec fn lead_of(a: ProposedAction) -> Seq<char> {
    a.action_type@ + " on '"@ + a.target@ + "': "@ + level_label(level_of(risk_of(a)))
        + " (score "@ + score::score_fixed2(risk_of(a)) + ")"@
}

/// The explanation of an action's score.
pub open spec fn explanation_of(a: ProposedAction) -> Seq<char> {
    lead_of(a)
        + sentence_if(
            a.irreversibility.level() >= 700_000_000,
            "This action is difficult or impossible to reverse."@,
        )
        + sentence_if(
            300_000_000 <= a.irreversibility.level() < 700_000_000,
            "Reversible, but not trivially so."@,
        )
        + sentence_if(
            a.scope.level() >= 700_000_000,
            "Affects system-wide or multiple-user scope."@,
        )
        + sentence_if(a.trust_context.level() >= 700_000_000, "Source is new or unverified."@)
        + sentence_if(
            a.vibe_flag.level() >= 800_000_000,
            "This action involves AI-generated code that has not been human-reviewed."@,
        )
        + sentence_if(
            a.time_anomaly.level() >= 500_000_000,
            "This action is occurring outside your normal usage patterns."@,
        )
        + sentence_if(
            a.user_history.level() >= 700_000_000,
            "You have done this "@ + (if a.user_history.level() >= 1_000_000_000 {
                "over 100"@
            } else {
                "over 20"@
            }) + " times before in similar context."@,
        )
        + (match floor_reason_of(a) {
            Some(reason) => " "@ + ("Note: "@ + reason),
            None => Seq::empty(),
        })
}

fn add_sentence(out: &mut String, present: bool, sentence: &str)
    ensures
        final(out)@ == old(out)@ + sentence_if(present, sentence@),
{
    if present {
        let ghost before = out@;
        out.append(" ");
        out.append(sentence);
        assert(out@ =~= before + (" "@ + sentence@));
    } else {
        assert(out@ =~= out@ + Seq::<char>::empty());
    }
}

fn describe_score_internal(
    action: &ProposedAction,
    score: Score,
    level: RiskLevel,
    floor_reason: &Option<String>,
) -> (r: String)
    requires
        score.nanos == risk_of(*action),
        level == level_of(risk_of(*action)),
        text::opt_text(*floor_reason) == floor_reason_of(*action),
    ensures
        r@ == explanation_of(*action),
{
    let label: &str = match level {
        RiskLevel::Silent => "auto-approved",
        RiskLevel::Notify => "notification sent",
        RiskLevel::Confirm => "requires confirmation",
        RiskLevel::Block => "blocked — explicit approval required",
    };
    let mut out = action.action_type.clone();
    out.append(" on '");
    out.append(action.target.as_str());
    out.append("': ");
    out.append(label);
    out.append(" (score ");
    let shown = score.to_fixed2();
    out.append(shown.as_str());
    out.append(")");

    let irreversibility: i64 = action.irreversibility.score().nanos;
    add_sentence(
        &mut out,
        irreversibility >= 700_000_000,
        "This action is difficult or impossible to reverse.",
    );
    add_sentence(
        &mut out,
        300_000_000 <= irreversibility && irreversibility < 700_000_000,
        "Reversible, but not trivially so.",
    );
    add_sentence(
        &mut out,
        action.scope.score().nanos >= 700_000_000,
        "Affects system-wide or multiple-user scope.",
    );
    add_sentence(
        &mut out,
        action.trust_context.score().nanos >= 700_000_000,
        "Source is new or unverified.",
    );
    add_sentence(
        &mut out,
        action.vibe_flag.score().nanos >= 800_000_000,
        "This action involves AI-generated code that has not been human-reviewed.",
    );
    add_sentence(
        &mut out,
        action.time_anomaly.score().nanos >= 500_000_000,
        "This action is occurring outside your normal usage patterns.",
    );
    let history: i64 = action.user_history.score().nanos;
    let mut habit = String::from_str("You have done this ");
    habit.append(if history >= 1_000_000_000 {
        "over 100"
    } else {
        "over 20"
    });
    habit.append(" times before in similar context.");
    add_sentence(&mut out, history >= 700_000_000, habit.as_str());
    match floor_reason {
        Some(reason) => {
            let mut note = String::from_str("Note: ");
            note.append(reason.as_str());
            add_sentence(&mut out, true, note.as_str());
        },
        None => {
            assert(out@ =~= out@ + Seq::<char>::empty());
        },
    }
    out
}

/// Computes the risk score `R(A)` of a proposed action.
///
/// Hard floors are applied after the formula and cannot be overridden.
pub fn score_action(action: &ProposedAction, _context: &SystemContext) -> (r: RiskScore)
    ensures
        r.score.nanos == risk_of(*action),
        r.score.is_unit(),
        r.level == level_of(risk_of(*action)),
        r.explanation@ == explanation_of(*action),
        r.components.irreversibility.nanos == action.irreversibility.level(),
        r.components.scope.nanos == action.scope.level(),
        r.components.trust_context.nanos == action.trust_context.level(),
        r.components.time_anomaly.nanos == action.time_anomaly.level(),
        r.components.vibe_flag.nanos == action.vibe_flag.level(),
        r.components.user_history.nanos == action.user_history.level(),
        r.components.pattern_match.nanos == action.pattern_match.level(),
        r.components.hard_floor_applied == (floor_reason_of(*action) is Some),
        text::opt_text(r.components.hard_floor_reason) == floor_reason_of(*action),
        action.scope == ScopeLevel::KernelLevel || action.is_kernel_adjacent ==> r.score.nanos
            >= 700_000_000 && (r.level == RiskLevel::Confirm || r.level == RiskLevel::Block),
        action.is_delete ==> r.score.nanos >= 500_000_000 && r.level != RiskLevel::Silent,
        action.vibe_flag != VibeFlagLevel::NoAiCode ==> r.score.nanos >= 800_000_000 && r.level
            == RiskLevel::Block,
        r.level == RiskLevel::Silent <==> r.score.nanos < 300_000_000,
        r.level == RiskLevel::Notify <==> 300_000_000 <= r.score.nanos < 600_000_000,
        r.level == RiskLevel::Confirm <==> 600_000_000 <= r.score.nanos < 800_000_000,
        r.level == RiskLevel::Block <==> r.score.nanos >= 800_000_000,
{
    let irreversibility = action.irreversibility.score();
    let scope = action.scope.score();
    let trust_context = action.trust_context.score();
    let time_anomaly = action.time_anomaly.score();
    let vibe_flag = action.vibe_flag.score();
    let user_history = action.user_history.score();
    let pattern_match = action.pattern_match.score();

    let sum: i128 = W1_IRREVERSIBILITY as i128 * irreversibility.nanos as i128 + W2_SCOPE as i128
        * scope.nanos as i128 + W3_TRUST_CONTEXT as i128 * trust_context.nanos as i128
        + W4_TIME_ANOMALY as i128 * time_anomaly.nanos as i128 + W5_VIBE_FLAG as i128
        * vibe_flag.nanos as i128 - W6_USER_HISTORY as i128 * user_history.nanos as i128
        - W7_PATTERN_MATCH as i128 * pattern_match.nanos as i128;
    let raw: i128 = div_floor(sum, SCALE as i128);
    let mut score = unit_score(raw);
    let mut floor_applied = false;
    let mut floor_reason: Option<String> = None;

    if action.is_delete && score.nanos < DELETE_FLOOR {
        score = Score::from_nanos(DELETE_FLOOR);
        floor_applied = true;
        floor_reason = Some(
            String::from_str("Hard floor: delete actions always ≥ 0.5 regardless of history"),
        );
    }
    if (action.is_kernel_adjacent || action.scope == ScopeLevel::KernelLevel) && score.nanos
        < KERNEL_FLOOR {
        score = Score::from_nanos(KERNEL_FLOOR);
        floor_applied = true;
        floor_reason = Some(
            String::from_str("Hard floor: kernel-adjacent actions always ≥ 0.7"),
        );
    }
    if action.vibe_flag != VibeFlagLevel::NoAiCode && score.nanos < AI_CODE_FLOOR {
        score = Score::from_nanos(AI_CODE_FLOOR);
        floor_applied = true;
        floor_reason = Some(
            String::from_str("Hard floor: AI-generated unreviewed code always ≥ 0.8"),
        );
    }
    let level = RiskLevel::from_score(score);
    let explanation = describe_score_internal(action, score, level, &floor_reason);
    RiskScore {
        score,
        level,
        explanation,
        components: ComponentScores {
            irreversibility,
            scope,
            trust_context,
            time_anomaly,
            vibe_flag,
            user_history,
            pattern_match,
            hard_floor_applied: floor_applied,
            hard_floor_reason: floor_reason,
        },
    }
}

/// The plain-English explanation of a score, as HAL's dialogs show it.
pub fn describe_score(score: &RiskScore) -> (r: String)
    ensures
        r@ == score.explanation@,
{
    score.explanation.clone()
}

/// The weights of the model sum to one.
pub proof fn weights_sum_to_one()
    ensures
        W1_IRREVERSIBILITY + W2_SCOPE + W3_TRUST_CONTEXT + W4_TIME_ANOMALY + W5_VIBE_FLAG
            + W6_USER_HISTORY + W7_PATTERN_MATCH == SCALE,
{
}

/// Every score lies in `[0, 1]`.
pub proof fn score_in_range(a: ProposedAction)
    ensures
        0 <= risk_of(a) <= SCALE,
{
}

/// No history and no pattern brings an action below its hard floors: a delete
/// scores at least 0.5, a kernel-adjacent action at least 0.7, and unreviewed
/// AI-generated code at least 0.8 and is always blocked.
pub proof fn hard_floors_hold(a: ProposedAction)
    ensures
        a.is_delete ==> risk_of(a) >= DELETE_FLOOR && level_of(risk_of(a)) != RiskLevel::Silent,
        kernel_floor_applies(a) ==> risk_of(a) >= KERNEL_FLOOR && (level_of(risk_of(a))
            == RiskLevel::Confirm || level_of(risk_of(a)) == RiskLevel::Block),
        ai_floor_applies(a) ==> risk_of(a) >= AI_CODE_FLOOR && level_of(risk_of(a))
            == RiskLevel::Block,
{
}

/// More history or a closer pattern match never raises the score of an
/// otherwise equal action.
pub proof fn history_never_raises(
    a: ProposedAction,
    history: UserHistoryLevel,
    pattern: PatternMatchLevel,
)
    requires
        history.level() >= a.user_history.level(),
        pattern.level() >= a.pattern_match.level(),
    ensures
        risk_of((ProposedAction { user_history: history, pattern_match: pattern, ..a })) <= risk_of(
            a,
        ),
{
    let b = ProposedAction { user_history: history, pattern_match: pattern, ..a };
    assert(raw_risk(b) <= raw_risk(a));
}

/// A less reversible, wider, less trusted or oddly timed action never scores
/// lower than an otherwise equal one.
pub proof fn risk_signals_never_lower(
    a: ProposedAction,
    irreversibility: IrreversibilityLevel,
    scope: ScopeLevel,
    trust: TrustContextLevel,
    time: TimeAnomalyLevel,
)
    requires
        irreversibility.level() >= a.irreversibility.level(),
        scope.level() >= a.scope.level(),
        trust.level() >= a.trust_context.level(),
        time.level() >= a.time_anomaly.level(),
    ensures
        risk_of(
            (ProposedAction {
                irreversibility,
                scope,
                trust_context: trust,
                time_anomaly: time,
                ..a
            }),
        ) >= risk_of(a),
{
    let b = ProposedAction {
        irreversibility,
        scope,
        trust_context: trust,
        time_anomaly: time,
        ..a
    };
    assert(raw_risk(b) >= raw_risk(a));
}

/// An explanation is never empty: it names the action and its target.
pub proof fn explanation_names_the_action(a: ProposedAction)
    ensures
        text::begins_with(explanation_of(a), a.action_type@ + " on '"@ + a.target@),
        explanation_of(a).len() > 0,
{
    broadcast use crate::text::begins_with_append;

    let named = a.action_type@ + " on '"@ + a.target@;
    assert(text::begins_with(named, named)) by {
        assert(named.subrange(0, named.len() as int) =~= named);
    }
    assert(named.len() > 0) by {
        reveal_strlit(" on '");
    }
}

/// A kernel-level action and a kernel-adjacent one score at least 0.7 and are
/// confirmed or blocked, whatever history and pattern say.
pub proof fn kernel_actions_are_confirmed(a: ProposedAction)
    requires
        a.scope == ScopeLevel::KernelLevel || a.is_kernel_adjacent,
    ensures
        risk_of(a) >= 700_000_000,
        level_of(risk_of(a)) == RiskLevel::Confirm || level_of(risk_of(a)) == RiskLevel::Block,
{
}

/// A delete scores at least 0.5 and never runs in silence.
pub proof fn deletes_are_announced(a: ProposedAction)
    requires
        a.is_delete,
    ensures
        risk_of(a) >= 500_000_000,
        level_of(risk_of(a)) != RiskLevel::Silent,
{
}

/// Generated code that nobody reviewed, near the kernel or not, scores at least
/// 0.8 and is blocked.
pub proof fn generated_code_is_blocked(a: ProposedAction)
    requires
        a.vibe_flag == VibeFlagLevel::AiGeneratedUnreviewed || a.vibe_flag
            == VibeFlagLevel::AiGeneratedKernelAdjacent,
    ensures
        risk_of(a) >= 800_000_000,
        level_of(risk_of(a)) == RiskLevel::Block,
{
}

/// The components of an action, each times its weight in hundredths.
pub open spec fn hundredfold_sum(a: ProposedAction) -> int {
    25 * a.irreversibility.level() + 20 * a.scope.level() + 20 * a.trust_context.level() + 10
        * a.time_anomaly.level() + 10 * a.vibe_flag.level() - 10 * a.user_history.level() - 5
        * a.pattern_match.level()
}

/// An action scores the weighted sum of its components within `[0, 1]`, or the
/// highest floor that it meets where that is more: 0.5 for a delete, 0.7 near
/// or in the kernel, 0.8 for generated code. No other action meets a floor, and
/// one is reported exactly where it raises the score.
pub proof fn score_is_the_sum_or_a_floor(a: ProposedAction)
    ensures
        ({
            let sum = score::clamp_int(hundredfold_sum(a), 0, 100_000_000_000);
            let floor = if a.vibe_flag != VibeFlagLevel::NoAiCode {
                800_000_000int
            } else if a.is_kernel_adjacent || a.scope == ScopeLevel::KernelLevel {
                700_000_000
            } else if a.is_delete {
                500_000_000
            } else {
                0
            };
            &&& risk_of(a) >= floor
            &&& 100 * risk_of(a) > sum - 100
            &&& risk_of(a) == floor || 100 * risk_of(a) <= sum
            &&& floor_reason_of(a) is Some <==> 100 * risk_of(a) > sum
        }),
{
    weights_are_hundredths(
        a.irreversibility.level(),
        a.scope.level(),
        a.trust_context.level(),
        a.time_anomaly.level(),
        a.vibe_flag.level(),
        a.user_history.level(),
        a.pattern_match.level(),
    );
    assert(100 * raw_risk(a) <= hundredfold_sum(a) < 100 * raw_risk(a) + 100);
}

proof fn weights_are_hundredths(i: int, s: int, t: int, m: int, v: int, u: int, p: int)
    ensures
        ({
            let x = (W1_IRREVERSIBILITY * i + W2_SCOPE * s + W3_TRUST_CONTEXT * t + W4_TIME_ANOMALY
                * m + W5_VIBE_FLAG * v - W6_USER_HISTORY * u - W7_PATTERN_MATCH * p) / SCALE as int;
            let sum = 25 * i + 20 * s + 20 * t + 10 * m + 10 * v - 10 * u - 5 * p;
            100 * x <= sum < 100 * x + 100
        }),
{
}

/// A reported floor is the one that set the score.
pub proof fn reported_floor_set_the_score(a: ProposedAction)
    ensures
        match floor_reason_of(a) {
            Some(reason) => {
                ||| risk_of(a) == 500_000_000 && a.is_delete && reason
                    == "Hard floor: delete actions always ≥ 0.5 regardless of history"@
                ||| risk_of(a) == 700_000_000 && (a.is_kernel_adjacent || a.scope
                    == ScopeLevel::KernelLevel) && reason
                    == "Hard floor: kernel-adjacent actions always ≥ 0.7"@
                ||| risk_of(a) == 800_000_000 && a.vibe_flag != VibeFlagLevel::NoAiCode && reason
                    == "Hard floor: AI-generated unreviewed code always ≥ 0.8"@
            },
            None => true,
        },
{
}

/// Marking an action as a delete or as kernel-adjacent changes nothing but its
/// floor: the marked action scores what the bare one does, or the floor where
/// that is more.
pub proof fn marks_only_raise_to_their_floor(a: ProposedAction)
    requires
        !a.is_delete,
        !a.is_kernel_adjacent,
    ensures
        risk_of((ProposedAction { is_delete: true, ..a })) == score::max_int(
            risk_of(a),
            500_000_000,
        ),
        risk_of((ProposedAction { is_kernel_adjacent: true, ..a })) == score::max_int(
            risk_of(a),
            700_000_000,
        ),
{
}

/// The name, the target and the agent of an action have no part in its score.
pub proof fn names_do_not_score(a: ProposedAction, b: ProposedAction)
    requires
        a.irreversibility == b.irreversibility,
        a.scope == b.scope,
        a.trust_context == b.trust_context,
        a.time_anomaly == b.time_anomaly,
        a.vibe_flag == b.vibe_flag,
        a.user_history == b.user_history,
        a.pattern_match == b.pattern_match,
        a.is_kernel_adjacent == b.is_kernel_adjacent,
        a.is_delete == b.is_delete,
    ensures
        risk_of(a) == risk_of(b),
        floor_reason_of(a) == floor_reason_of(b),
{
}

/// The value of a component tells its level.
pub proof fn component_values_tell_levels(a: ProposedAction)
    ensures
        a.irreversibility.level() == 0 <==> a.irreversibility
            == IrreversibilityLevel::FullyReversible,
        a.irreversibility.level() == 300_000_000 <==> a.irreversibility
            == IrreversibilityLevel::ReversibleWithEffort,
        a.irreversibility.level() == 700_000_000 <==> a.irreversibility
            == IrreversibilityLevel::HardToReverse,
        a.irreversibility.level() == 1_000_000_000 <==> a.irreversibility
            == IrreversibilityLevel::Irreversible,
        a.scope.level() == 0 <==> a.scope == ScopeLevel::SingleFileUserHome,
        a.scope.level() == 300_000_000 <==> a.scope == ScopeLevel::MultipleFileSingleDir,
        a.scope.level() == 700_000_000 <==> a.scope == ScopeLevel::SystemWide,
        a.scope.level() == 1_000_000_000 <==> a.scope == ScopeLevel::KernelLevel,
        a.trust_context.level() == 0 <==> a.trust_context == TrustContextLevel::KnownTrusted,
        a.trust_context.level() == 400_000_000 <==> a.trust_context
            == TrustContextLevel::KnownAnomalous,
        a.trust_context.level() == 700_000_000 <==> a.trust_context == TrustContextLevel::NewApp,
        a.trust_context.level() == 1_000_000_000 <==> a.trust_context == TrustContextLevel::Unknown,
        a.time_anomaly.level() == 0 <==> a.time_anomaly == TimeAnomalyLevel::Normal,
        a.time_anomaly.level() == 500_000_000 <==> a.time_anomaly == TimeAnomalyLevel::UnusualHour,
        a.time_anomaly.level() == 1_000_000_000 <==> a.time_anomaly
            == TimeAnomalyLevel::UnusualTimeAndScope,
        a.vibe_flag.level() == 0 <==> a.vibe_flag == VibeFlagLevel::NoAiCode,
        a.vibe_flag.level() == 800_000_000 <==> a.vibe_flag == VibeFlagLevel::AiGeneratedUnreviewed,
        a.vibe_flag.level() == 1_000_000_000 <==> a.vibe_flag
            == VibeFlagLevel::AiGeneratedKernelAdjacent,
        a.user_history.level() == 0 <==> a.user_history == UserHistoryLevel::Never,
        a.user_history.level() == 300_000_000 <==> a.user_history == UserHistoryLevel::Rare,
        a.user_history.level() == 700_000_000 <==> a.user_history == UserHistoryLevel::Frequent,
        a.user_history.level() == 1_000_000_000 <==> a.user_history == UserHistoryLevel::Routine,
        a.pattern_match.level() == 0 <==> a.pattern_match == PatternMatchLevel::NoMatch,
        a.pattern_match.level() == 500_000_000 <==> a.pattern_match
            == PatternMatchLevel::PartialMatch,
        a.pattern_match.level() == 1_000_000_000 <==> a.pattern_match
            == PatternMatchLevel::ExactMatch,
{
}

/// A higher score never gets a milder response, and each response starts at its
/// own score: 0.3 is announced, 0.6 confirmed and 0.8 blocked.
pub proof fn responses_follow_the_score(x: int, y: int)
    ensures
        level_of(x) == RiskLevel::Silent <==> x < 300_000_000,
        level_of(x) == RiskLevel::Block <==> x >= 800_000_000,
        level_of(x) == RiskLevel::Confirm <==> 600_000_000 <= x < 800_000_000,
        x <= y && level_of(y) == RiskLevel::Silent ==> level_of(x) == RiskLevel::Silent,
        x <= y && level_of(x) == RiskLevel::Block ==> level_of(y) == RiskLevel::Block,
        x <= y && level_of(x) == RiskLevel::Confirm ==> level_of(y) == RiskLevel::Confirm
            || level_of(y) == RiskLevel::Block,
{
}

/// The length of a sentence in an explanation, with the blank before it.
pub open spec fn room_for(present: bool, sentence: Seq<char>) -> int {
    if present {
        1 + sentence.len() as int
    } else {
        0
    }
}

/// An explanation ends its first sentence with the score, says what the level
/// means, and then holds the warnings that concern the action and nothing else.
pub proof fn explanation_holds_the_warnings(a: ProposedAction)
    ensures
        text::occurs_in(explanation_of(a), " (score "@ + score::score_fixed2(risk_of(a)) + ")"@),
        risk_of(a) < 300_000_000 ==> text::occurs_in(explanation_of(a), "': auto-approved"@),
        300_000_000 <= risk_of(a) < 600_000_000 ==> text::occurs_in(
            explanation_of(a),
            "': notification sent"@,
        ),
        600_000_000 <= risk_of(a) < 800_000_000 ==> text::occurs_in(
            explanation_of(a),
            "': requires confirmation"@,
        ),
        risk_of(a) >= 800_000_000 ==> text::occurs_in(
            explanation_of(a),
            "': blocked — explicit approval required"@,
        ),
        a.irreversibility == IrreversibilityLevel::HardToReverse || a.irreversibility
            == IrreversibilityLevel::Irreversible ==> text::occurs_in(
            explanation_of(a),
            "This action is difficult or impossible to reverse."@,
        ),
        a.irreversibility == IrreversibilityLevel::ReversibleWithEffort ==> text::occurs_in(
            explanation_of(a),
            "Reversible, but not trivially so."@,
        ),
        a.scope == ScopeLevel::SystemWide || a.scope == ScopeLevel::KernelLevel ==> text::occurs_in(
            explanation_of(a),
            "Affects system-wide or multiple-user scope."@,
        ),
        a.trust_context == TrustContextLevel::NewApp || a.trust_context
            == TrustContextLevel::Unknown ==> text::occurs_in(
            explanation_of(a),
            "Source is new or unverified."@,
        ),
        a.vibe_flag != VibeFlagLevel::NoAiCode ==> text::occurs_in(
            explanation_of(a),
            "This action involves AI-generated code that has not been human-reviewed."@,
        ),
        a.time_anomaly != TimeAnomalyLevel::Normal ==> text::occurs_in(
            explanation_of(a),
            "This action is occurring outside your normal usage patterns."@,
        ),
        a.user_history == UserHistoryLevel::Frequent ==> text::occurs_in(
            explanation_of(a),
            "You have done this over 20 times before in similar context."@,
        ),
        a.user_history == UserHistoryLevel::Routine ==> text::occurs_in(
            explanation_of(a),
            "You have done this over 100 times before in similar context."@,
        ),
        floor_reason_of(a) matches Some(reason) ==> text::occurs_in(
            explanation_of(a),
            "Note: "@ + reason,
        ),
{
    reveal_strlit("': ");
    reveal_strlit("auto-approved");
    reveal_strlit("notification sent");
    reveal_strlit("requires confirmation");
    reveal_strlit("blocked — explicit approval required");
    reveal_strlit("': auto-approved");
    reveal_strlit("': notification sent");
    reveal_strlit("': requires confirmation");
    reveal_strlit("': blocked — explicit approval required");
    reveal_strlit("You have done this ");
    reveal_strlit("over 20");
    reveal_strlit("over 100");
    reveal_strlit(" times before in similar context.");
    reveal_strlit("You have done this over 20 times before in similar context.");
    reveal_strlit("You have done this over 100 times before in similar context.");
    let named = a.action_type@ + " on '"@ + a.target@;
    let label = level_label(level_of(risk_of(a)));
    let shown = " (score "@ + score::score_fixed2(risk_of(a)) + ")"@;
    let lead = lead_of(a);
    assert("': "@ + "auto-approved"@ =~= "': auto-approved"@);
    assert("': "@ + "notification sent"@ =~= "': notification sent"@);
    assert("': "@ + "requires confirmation"@ =~= "': requires confirmation"@);
    assert("': "@ + "blocked — explicit approval required"@
        =~= "': blocked — explicit approval required"@);
    assert(lead =~= (named + "': "@ + label) + shown + Seq::empty());
    assert(lead =~= named + ("': "@ + label) + shown);
    text::occurrences_are_parts(lead, named + "': "@ + label, shown, Seq::empty());
    text::occurrences_are_parts(lead, named, "': "@ + label, shown);
    let habit20 = "You have done this "@ + "over 20"@ + " times before in similar context."@;
    let habit100 = "You have done this "@ + "over 100"@ + " times before in similar context."@;
    assert(habit20 =~= "You have done this over 20 times before in similar context."@);
    assert(habit100 =~= "You have done this over 100 times before in similar context."@);
    let s1 = "This action is difficult or impossible to reverse."@;
    let s2 = "Reversible, but not trivially so."@;
    let s3 = "Affects system-wide or multiple-user scope."@;
    let s4 = "Source is new or unverified."@;
    let s5 = "This action involves AI-generated code that has not been human-reviewed."@;
    let s6 = "This action is occurring outside your normal usage patterns."@;
    let s7 = if a.user_history.level() >= 1_000_000_000 {
        habit100
    } else {
        habit20
    };
    let b1 = a.irreversibility.level() >= 700_000_000;
    let b2 = 300_000_000 <= a.irreversibility.level() < 700_000_000;
    let b3 = a.scope.level() >= 700_000_000;
    let b4 = a.trust_context.level() >= 700_000_000;
    let b5 = a.vibe_flag.level() >= 800_000_000;
    let b6 = a.time_anomaly.level() >= 500_000_000;
    let b7 = a.user_history.level() >= 700_000_000;
    let e1 = lead + sentence_if(b1, s1);
    let e2 = e1 + sentence_if(b2, s2);
    let e3 = e2 + sentence_if(b3, s3);
    let e4 = e3 + sentence_if(b4, s4);
    let e5 = e4 + sentence_if(b5, s5);
    let e6 = e5 + sentence_if(b6, s6);
    let e7 = e6 + sentence_if(b7, s7);
    let note = match floor_reason_of(a) {
        Some(reason) => " "@ + ("Note: "@ + reason),
        None => Seq::empty(),
    };
    let e8 = e7 + note;
    assert(e8 == explanation_of(a));
    carried(lead, sentence_if(b1, s1), shown);
    carried(e1, sentence_if(b2, s2), shown);
    carried(e2, sentence_if(b3, s3), shown);
    carried(e3, sentence_if(b4, s4), shown);
    carried(e4, sentence_if(b5, s5), shown);
    carried(e5, sentence_if(b6, s6), shown);
    carried(e6, sentence_if(b7, s7), shown);
    carried(e7, note, shown);
    let said = "': "@ + label;
    carried(lead, sentence_if(b1, s1), said);
    carried(e1, sentence_if(b2, s2), said);
    carried(e2, sentence_if(b3, s3), said);
    carried(e3, sentence_if(b4, s4), said);
    carried(e4, sentence_if(b5, s5), said);
    carried(e5, sentence_if(b6, s6), said);
    carried(e6, sentence_if(b7, s7), said);
    carried(e7, note, said);
    added(lead, b1, s1);
    carried(e1, sentence_if(b2, s2), s1);
    carried(e2, sentence_if(b3, s3), s1);
    carried(e3, sentence_if(b4, s4), s1);
    carried(e4, sentence_if(b5, s5), s1);
    carried(e5, sentence_if(b6, s6), s1);
    carried(e6, sentence_if(b7, s7), s1);
    carried(e7, note, s1);
    added(e1, b2, s2);
    carried(e2, sentence_if(b3, s3), s2);
    carried(e3, sentence_if(b4, s4), s2);
    carried(e4, sentence_if(b5, s5), s2);
    carried(e5, sentence_if(b6, s6), s2);
    carried(e6, sentence_if(b7, s7), s2);
    carried(e7, note, s2);
    added(e2, b3, s3);
    carried(e3, sentence_if(b4, s4), s3);
    carried(e4, sentence_if(b5, s5), s3);
    carried(e5, sentence_if(b6, s6), s3);
    carried(e6, sentence_if(b7, s7), s3);
    carried(e7, note, s3);
    added(e3, b4, s4);
    carried(e4, sentence_if(b5, s5), s4);
    carried(e5, sentence_if(b6, s6), s4);
    carried(e6, sentence_if(b7, s7), s4);
    carried(e7, note, s4);
    added(e4, b5, s5);
    carried(e5, sentence_if(b6, s6), s5);
    carried(e6, sentence_if(b7, s7), s5);
    carried(e7, note, s5);
    added(e5, b6, s6);
    carried(e6, sentence_if(b7, s7), s6);
    carried(e7, note, s6);
    added(e6, b7, s7);
    carried(e7, note, s7);
    if floor_reason_of(a) is Some {
        let t = "Note: "@ + floor_reason_of(a)->0;
        added(e7, true, t);
    }
}

/// The warnings of an explanation take exactly their room: none is repeated and
/// none is there without cause.
pub proof fn explanation_holds_nothing_else(a: ProposedAction)
    ensures
        explanation_of(a).len() == (a.action_type@ + " on '"@ + a.target@ + "': "@ + level_label(
            level_of(risk_of(a)),
        ) + " (score "@ + score::score_fixed2(risk_of(a)) + ")"@).len() + room_for(
            a.irreversibility == IrreversibilityLevel::HardToReverse || a.irreversibility
                == IrreversibilityLevel::Irreversible,
            "This action is difficult or impossible to reverse."@,
        ) + room_for(
            a.irreversibility == IrreversibilityLevel::ReversibleWithEffort,
            "Reversible, but not trivially so."@,
        ) + room_for(
            a.scope == ScopeLevel::SystemWide || a.scope == ScopeLevel::KernelLevel,
            "Affects system-wide or multiple-user scope."@,
        ) + room_for(
            a.trust_context == TrustContextLevel::NewApp || a.trust_context
                == TrustContextLevel::Unknown,
            "Source is new or unverified."@,
        ) + room_for(
            a.vibe_flag != VibeFlagLevel::NoAiCode,
            "This action involves AI-generated code that has not been human-reviewed."@,
        ) + room_for(
            a.time_anomaly != TimeAnomalyLevel::Normal,
            "This action is occurring outside your normal usage patterns."@,
        ) + room_for(
            a.user_history == UserHistoryLevel::Frequent,
            "You have done this over 20 times before in similar context."@,
        ) + room_for(
            a.user_history == UserHistoryLevel::Routine,
            "You have done this over 100 times before in similar context."@,
        ) + (match floor_reason_of(a) {
            Some(reason) => room_for(true, "Note: "@ + reason),
            None => 0,
        }),
{
    reveal_strlit(" ");
    reveal_strlit("You have done this ");
    reveal_strlit("over 20");
    reveal_strlit("over 100");
    reveal_strlit(" times before in similar context.");
    reveal_strlit("You have done this over 20 times before in similar context.");
    reveal_strlit("You have done this over 100 times before in similar context.");
}

/// What a text holds it still holds with more behind it.
proof fn carried(e: Seq<char>, more: Seq<char>, part: Seq<char>)
    ensures
        text::occurs_in(e, part) ==> text::occurs_in(e + more, part),
{
    if text::occurs_in(e, part) {
        let i = choose|i: int| text::occurs_at(e, part, i);
        assert((e + more).subrange(i, i + part.len()) =~= e.subrange(i, i + part.len()));
        assert(text::occurs_at(e + more, part, i));
    }
}

/// A text holds a sentence that was added to it.
proof fn added(e: Seq<char>, present: bool, sentence: Seq<char>)
    ensures
        present ==> text::occurs_in(e + sentence_if(present, sentence), sentence),
{
    if present {
        let whole = e + sentence_if(present, sentence);
        text::occurrences_are_parts(whole, e + " "@, sentence, Seq::empty());
        assert(whole =~= (e + " "@) + sentence + Seq::empty());
    }
}

} // verus!
