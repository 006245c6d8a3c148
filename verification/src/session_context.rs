//! Per-user session data for trust and risk scoring.

use vstd::prelude::*;
use vstd::string::StringExecFns;

use crate::clock::Timestamp;
use crate::hal_types::SessionContext;
use crate::score;
use crate::score::div_floor;
use crate::score::unit_score;
use crate::score::Score;
use crate::score::SCALE;
use crate::text;

verus! {

/// The session engine.
pub struct SessionEngine;

/// How attentive a user is, in billionths.
pub open spec fn attention_of(idle_ms: int, focused: bool, fullscreen: bool) -> int {
    score::unit_clamp(
        1_000_000_000 - (if idle_ms > 60_000 {
            350_000_000int
        } else {
            0
        }) - (if idle_ms > 300_000 {
            450_000_000int
        } else {
            0
        }) - (if focused {
            0int
        } else {
            150_000_000
        }) + (if fullscreen {
            50_000_000int
        } else {
            0
        }),
    )
}

/// Whether an action needs a confirmation in a session.
pub open spec fn confirmation_needed(context: SessionContext, risk: int) -> bool {
    !context.user_present || context.user_attention_score.nanos < 350_000_000 || risk > 650_000_000
}

/// How stale a session is, in billionths: fully after ten minutes.
pub open spec fn staleness_of(idle_ms: int) -> int {
    score::unit_clamp((idle_ms * 5_000) / 3)
}

impl SessionEngine {
    /// The session of an attentive user.
    pub fn active(session_id: String, workspace: String, window_title: String) -> (c:
        SessionContext)
        ensures
            c.session_id == session_id,
            c.user_present,
            c.active_workspace == workspace,
            c.active_window_title == window_title,
            !c.requires_confirmation,
            c.user_attention_score.nanos == SCALE,
    {
        SessionContext {
            session_id,
            user_present: true,
            active_workspace: workspace,
            active_window_title: window_title,
            requires_confirmation: false,
            user_attention_score: Score::one(),
        }
    }

    /// A session without a user.
    pub fn unattended(session_id: String) -> (c: SessionContext)
        ensures
            c.session_id == session_id,
            !c.user_present,
            c.active_workspace@ == "none"@,
            c.active_window_title@ == "none"@,
            c.requires_confirmation,
            c.user_attention_score.nanos == 0,
    {
        SessionContext {
            session_id,
            user_present: false,
            active_workspace: String::from_str("none"),
            active_window_title: String::from_str("none"),
            requires_confirmation: true,
            user_attention_score: Score::zero(),
        }
    }

    /// How attentive a user is.
    pub fn compute_attention_score(idle_ms: i64, focused: bool, fullscreen: bool) -> (s: Score)
        ensures
            s.nanos == attention_of(idle_ms as int, focused, fullscreen),
    {
        let mut sum: i64 = 1_000_000_000;
        if idle_ms > 60_000 {
            sum = sum - 350_000_000;
        }
        if idle_ms > 300_000 {
            sum = sum - 450_000_000;
        }
        if !focused {
            sum = sum - 150_000_000;
        }
        if fullscreen {
            sum = sum + 50_000_000;
        }
        Score::from_nanos(sum).clamp_unit()
    }

    /// Whether an action needs a confirmation in a session.
    pub fn should_require_confirmation(context: &SessionContext, action_risk: Score) -> (r: bool)
        ensures
            r == confirmation_needed(*context, action_risk.nanos as int),
    {
        if !context.user_present {
            return true;
        }
        if context.user_attention_score.nanos < 350_000_000 {
            return true;
        }
        action_risk.nanos > 650_000_000
    }

    /// How stale a session is at a given time, both times in milliseconds.
    pub fn session_staleness_at(now_ms: i64, last_activity_ms: i64) -> (s: Score)
        ensures
            s.nanos == staleness_of(now_ms - last_activity_ms),
    {
        let delta: i128 = now_ms as i128 - last_activity_ms as i128;
        unit_score(div_floor(delta * 5_000, 3))
    }

    /// How stale a session is now.
    pub fn session_staleness(last_activity_ms: i64) -> (s: Score)
        ensures
            exists|now_ms: i64| s.nanos == #[trigger] staleness_of(now_ms - last_activity_ms),
    {
        SessionEngine::session_staleness_at(Timestamp::now().millis(), last_activity_ms)
    }

    /// By what a session modifies a confidence.
    pub fn confidence_modifier(context: &SessionContext) -> (s: Score)
        ensures
            s.nanos == score::unit_clamp(
                (100_000_000_000 - (if context.user_present {
                    0int
                } else {
                    45_000_000_000
                }) - (SCALE - context.user_attention_score.nanos) * 30) / 100,
            ),
    {
        let mut sum: i128 = 100_000_000_000;
        if !context.user_present {
            sum = sum - 45_000_000_000;
        }
        sum = sum - (SCALE as i128 - context.user_attention_score.nanos as i128) * 30;
        unit_score(div_floor(sum, 100))
    }

    /// Whether an action is dangerous without a user.
    pub fn dangerous_background_execution(context: &SessionContext, action_risk: Score) -> (r: bool)
        ensures
            r == (!context.user_present && action_risk.nanos > 700_000_000),
    {
        !context.user_present && action_risk.nanos > 700_000_000
    }

    /// Whether an action has to wait for the user.
    pub fn requires_user_presence(irreversible: bool, context: &SessionContext) -> (r: bool)
        ensures
            r == (irreversible && !context.user_present),
    {
        irreversible && !context.user_present
    }

    /// How well the workspace fits expectations.
    pub fn behavioral_consistency(expected_workspace: &str, current_workspace: &str) -> (s: Score)
        ensures
            s.nanos == (if expected_workspace@ == current_workspace@ {
                1_000_000_000int
            } else {
                450_000_000
            }),
    {
        if text::same_text(expected_workspace, current_workspace) {
            Score::one()
        } else {
            Score::from_nanos(450_000_000)
        }
    }

    /// How far the environment is trusted.
    pub fn environmental_trust(context: &SessionContext) -> (s: Score)
        ensures
            s.nanos == 1_000_000_000 - (if context.user_present {
                0int
            } else {
                500_000_000
            }) - (if text::occurs_in(context.active_window_title@, "unknown"@) {
                200_000_000int
            } else {
                0
            }),
            s.is_unit(),
    {
        let mut sum: i64 = 1_000_000_000;
        if !context.user_present {
            sum = sum - 500_000_000;
        }
        if text::text_contains(context.active_window_title.as_str(), "unknown") {
            sum = sum - 200_000_000;
        }
        Score::from_nanos(sum)
    }
}

/// Without a user every action needs a confirmation, whatever its risk.
pub proof fn absence_needs_confirmation(context: SessionContext, risk: int)
    requires
        !context.user_present,
    ensures
        confirmation_needed(context, risk),
{
}

/// The longer a user is idle, the less attentive they are and the staler their
/// session.
pub proof fn idleness_is_monotone(shorter: int, longer: int, focused: bool, fullscreen: bool)
    requires
        shorter <= longer,
    ensures
        attention_of(longer, focused, fullscreen) <= attention_of(shorter, focused, fullscreen),
        staleness_of(shorter) <= staleness_of(longer),
{
}

/// Attention in a focused window is full for a minute, 0.65 for five, and 0.2
/// after that; another window costs 0.15, and a full screen gains 0.05.
pub proof fn attention_fades_in_steps(idle_ms: int, focused: bool, fullscreen: bool)
    ensures
        idle_ms <= 60_000 ==> attention_of(idle_ms, true, fullscreen) == 1_000_000_000,
        60_000 < idle_ms <= 300_000 ==> attention_of(idle_ms, true, false) == 650_000_000,
        idle_ms > 300_000 ==> attention_of(idle_ms, true, false) == 200_000_000,
        idle_ms > 60_000 ==> attention_of(idle_ms, focused, true) == attention_of(
            idle_ms,
            focused,
            false,
        ) + 50_000_000,
        attention_of(idle_ms, false, false) == attention_of(idle_ms, true, false) - 150_000_000,
{
}

/// A session is wholly stale after ten minutes, not at all at its last activity,
/// and in proportion in between.
pub proof fn staleness_fills_ten_minutes(idle_ms: int)
    ensures
        staleness_of(idle_ms) == 1_000_000_000 <==> idle_ms >= 600_000,
        idle_ms <= 0 ==> staleness_of(idle_ms) == 0,
        0 <= idle_ms <= 600_000 ==> 5_000 * idle_ms - 3 < 3 * staleness_of(idle_ms) <= 5_000
            * idle_ms,
{
}

/// No confirmation is needed exactly where the user is there, pays at least 0.35
/// of attention, and the risk is at most 0.65.
pub proof fn attentive_users_run_small_risks(context: SessionContext, risk: int)
    ensures
        !confirmation_needed(context, risk) <==> context.user_present
            && context.user_attention_score.nanos >= 350_000_000 && risk <= 650_000_000,
{
}

} // verus!
