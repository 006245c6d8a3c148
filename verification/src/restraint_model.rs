//! Gating for the cognitive context preloader.
//!
//! A prediction surfaces only when the model is more than 85% confident, the
//! predicted action is low-intimacy, its domain was accepted by the user, and
//! time and context fit. When in doubt, stay invisible.

use vstd::prelude::*;
use vstd::string::StringExecFns;

use crate::score;
use crate::score::Score;
use crate::table::Table;
use crate::text;

verus! {

/// The confidence that a prediction has to exceed, in billionths.
pub const CONFIDENCE_THRESHOLD: i64 = 850_000_000;

/// Number of positive interactions needed before a domain unlocks.
pub const ACCEPTANCE_THRESHOLD: u32 = 3;

/// A prediction about what the user will do next.
#[derive(Clone, Debug)]
pub struct ContextPrediction {
    /// The predicted action.
    pub predicted_action: String,
    /// How sure the model is.
    pub confidence: Score,
    /// The domain of the action.
    pub domain: String,
    /// The files it concerns.
    pub file_paths: Vec<String>,
    /// What triggered the prediction.
    pub trigger_signal: String,
    /// Hour of day, 0 to 23.
    pub time_of_day: u8,
}

/// The restraint model's decision.
#[derive(Clone, Debug, PartialEq, Eq)]
pub enum PreloadDecision {
    /// Preload.
    Preload,
    /// Stay invisible.
    HoldBack {
        /// Why.
        reason: String,
    },
}

impl PreloadDecision {
    /// Whether the decision is to preload.
    pub fn is_preload(&self) -> (r: bool)
        ensures
            r == (self is Preload),
    {
        match self {
            PreloadDecision::Preload => true,
            PreloadDecision::HoldBack { reason: _ } => false,
        }
    }
}

/// Per-domain acceptance: whether predictions for a domain have earned the
/// right to surface.
#[derive(Debug)]
pub struct DomainAcceptance {
    /// Positive interactions by domain.
    positive_counts: Table<String, u32>,
    /// Domains the user has explicitly disabled.
    locked: Table<String, ()>,
}

impl Default for DomainAcceptance {
    fn default() -> (a: DomainAcceptance)
        ensures
            a.counts()@ == Map::<Seq<char>, u32>::empty(),
            a.locks()@ == Map::<Seq<char>, ()>::empty(),
    {
        DomainAcceptance { positive_counts: Table::new(), locked: Table::new() }
    }
}

impl DomainAcceptance {
    /// The number of acceptances by domain.
    pub closed spec fn counts(&self) -> Table<String, u32> {
        self.positive_counts
    }

    /// The locked domains.
    pub closed spec fn locks(&self) -> Table<String, ()> {
        self.locked
    }

    /// Number of positive interactions of a domain.
    pub open spec fn count(&self, domain: Seq<char>) -> int {
        if self.counts()@.dom().contains(domain) {
            self.counts()@[domain] as int
        } else {
            0
        }
    }

    /// Whether predictions of a domain may surface.
    pub open spec fn unlocked(&self, domain: Seq<char>) -> bool {
        !self.locks()@.dom().contains(domain) && self.count(domain) >= ACCEPTANCE_THRESHOLD
    }

    /// Whether predictions of a domain may surface.
    pub fn is_unlocked(&self, domain: &str) -> (r: bool)
        ensures
            r == self.unlocked(domain@),
    {
        if self.locked.contains_key(&domain.to_owned()) {
            return false;
        }
        self.acceptance_count(domain) >= ACCEPTANCE_THRESHOLD
    }

    /// Counts one positive interaction of a domain.
    pub fn record_acceptance(&mut self, domain: &str)
        requires
            old(self).count(domain@) < u32::MAX,
        ensures
            final(self).counts()@ == old(self).counts()@.insert(
                domain@,
                (old(self).count(domain@) + 1) as u32,
            ),
            final(self).count(domain@) == old(self).count(domain@) + 1,
            final(self).locks() == old(self).locks(),
    {
        let count: u32 = self.acceptance_count(domain);
        self.positive_counts.insert(domain.to_owned(), count + 1);
    }

    /// Disables a domain.
    pub fn lock(&mut self, domain: &str)
        ensures
            final(self).locks()@ == old(self).locks()@.insert(domain@, ()),
            final(self).counts() == old(self).counts(),
    {
        self.locked.insert(domain.to_owned(), ());
    }

    /// Enables a disabled domain again.
    pub fn unlock(&mut self, domain: &str)
        ensures
            final(self).locks()@ == old(self).locks()@.remove(domain@),
            final(self).counts() == old(self).counts(),
    {
        let _ = self.locked.remove(&domain.to_owned());
    }

    /// Number of positive interactions of a domain.
    pub fn acceptance_count(&self, domain: &str) -> (n: u32)
        ensures
            n == self.count(domain@),
    {
        match self.positive_counts.get_text(domain) {
            Some(n) => *n,
            None => 0,
        }
    }
}

/// Domains that are always held back.
pub open spec fn high_intimacy(domain: Seq<char>) -> bool {
    domain == "personal"@ || domain == "finance"@ || domain == "health"@ || domain == "private"@
}

/// Domains where late-night preloading is acceptable.
pub open spec fn night_ok(domain: Seq<char>) -> bool {
    domain == "coding"@ || domain == "work"@
}

/// Hours from 22 to 6.
pub open spec fn late_night(hour: u8) -> bool {
    hour >= 22 || hour <= 6
}

/// Whether an action, in lower case, reads content.
pub open spec fn reads_content(lower_action: Seq<char>) -> bool {
    text::occurs_in(lower_action, "read"@) || text::occurs_in(lower_action, "extract"@)
        || text::occurs_in(lower_action, "parse"@)
}

/// The first sensitive pattern in a path in lower case.
pub open spec fn sensitive_pattern(lower_path: Seq<char>) -> Option<Seq<char>> {
    if text::occurs_in(lower_path, "diary"@) {
        Some("diary"@)
    } else if text::occurs_in(lower_path, "journal"@) {
        Some("journal"@)
    } else if text::occurs_in(lower_path, "private"@) {
        Some("private"@)
    } else if text::occurs_in(lower_path, "personal"@) {
        Some("personal"@)
    } else if text::occurs_in(lower_path, ".kdbx"@) {
        Some(".kdbx"@)
    } else if text::occurs_in(lower_path, "password"@) {
        Some("password"@)
    } else if text::occurs_in(lower_path, "credential"@) {
        Some("credential"@)
    } else if text::occurs_in(lower_path, "therapy"@) {
        Some("therapy"@)
    } else if text::occurs_in(lower_path, "medical"@) {
        Some("medical"@)
    } else if text::occurs_in(lower_path, "secret"@) {
        Some("secret"@)
    } else {
        None
    }
}

/// The sensitive pattern of the first path, in lower case, that has one.
pub open spec fn first_sensitive(lower_paths: Seq<Seq<char>>) -> Option<Seq<char>>
    decreases lower_paths.len(),
{
    if lower_paths.len() == 0 {
        None
    } else if sensitive_pattern(lower_paths[0]) is Some {
        sensitive_pattern(lower_paths[0])
    } else {
        first_sensitive(lower_paths.drop_first())
    }
}

/// Decimal notation with at least two digits.
pub open spec fn two_digits(n: nat) -> Seq<char> {
    if n < 10 {
        "0"@ + text::decimal_digits(n)
    } else {
        text::decimal_digits(n)
    }
}

/// Why a prediction is held back, or `None` where it may surface, given its
/// paths and its action in lower case.
pub open spec fn hold_reason(
    p: ContextPrediction,
    lower_paths: Seq<Seq<char>>,
    lower_action: Seq<char>,
    acceptance: DomainAcceptance,
) -> Option<Seq<char>> {
    if p.confidence.nanos <= CONFIDENCE_THRESHOLD {
        Some(
            "Confidence "@ + score::score_fixed2(p.confidence.nanos as int)
                + " below threshold "@ + score::score_fixed2(CONFIDENCE_THRESHOLD as int),
        )
    } else if high_intimacy(p.domain@) {
        Some("Domain '"@ + p.domain@ + "' is always held back (high-intimacy)"@)
    } else if first_sensitive(lower_paths) is Some {
        Some(
            "File path contains sensitive pattern '"@ + first_sensitive(lower_paths)->0
                + "' — held back"@,
        )
    } else if late_night(p.time_of_day) && !night_ok(p.domain@) {
        Some(
            "Late night ("@ + two_digits(p.time_of_day as nat) + ":00) preload in domain '"@
                + p.domain@ + "' — held back"@,
        )
    } else if reads_content(lower_action) {
        Some("Predicted action reads file content — only app-open preloading is allowed"@)
    } else if !acceptance.unlocked(p.domain@) {
        Some(
            "Domain '"@ + p.domain@ + "' not yet unlocked ("@ + text::decimal_digits(
                acceptance.count(p.domain@) as nat,
            ) + "/"@ + text::decimal_digits(ACCEPTANCE_THRESHOLD as nat)
                + " positive interactions)"@,
        )
    } else {
        None
    }
}

/// The texts of strings in lower case.
pub open spec fn lowered(paths: Seq<String>) -> Seq<Seq<char>> {
    paths.map_values(|s: String| text::lowercase(s@))
}

/// Whether a decision stands for a reason to hold back, or for none.
pub open spec fn is_decision(d: PreloadDecision, reason: Option<Seq<char>>) -> bool {
    match reason {
        Some(t) => d matches PreloadDecision::HoldBack { reason: r } && r@ == t,
        None => d == PreloadDecision::Preload,
    }
}

fn find_sensitive(lower_path: &str) -> (r: Option<&'static str>)
    ensures
        match r {
            Some(p) => sensitive_pattern(lower_path@) == Some(p@),
            None => sensitive_pattern(lower_path@) is None,
        },
{
    if text::text_contains(lower_path, "diary") {
        Some("diary")
    } else if text::text_contains(lower_path, "journal") {
        Some("journal")
    } else if text::text_contains(lower_path, "private") {
        Some("private")
    } else if text::text_contains(lower_path, "personal") {
        Some("personal")
    } else if text::text_contains(lower_path, ".kdbx") {
        Some(".kdbx")
    } else if text::text_contains(lower_path, "password") {
        Some("password")
    } else if text::text_contains(lower_path, "credential") {
        Some("credential")
    } else if text::text_contains(lower_path, "therapy") {
        Some("therapy")
    } else if text::text_contains(lower_path, "medical") {
        Some("medical")
    } else if text::text_contains(lower_path, "secret") {
        Some("secret")
    } else {
        None
    }
}

fn find_first_sensitive(lower_paths: &Vec<String>) -> (r: Option<&'static str>)
    ensures
        match r {
            Some(p) => first_sensitive(text::texts(lower_paths@)) == Some(p@),
            None => first_sensitive(text::texts(lower_paths@)) is None,
        },
{
    let ghost all = text::texts(lower_paths@);
    let mut i: usize = 0;
    assert(all.skip(0) =~= all);
    while i < lower_paths.len()
        invariant
            i <= lower_paths@.len(),
            all == text::texts(lower_paths@),
            first_sensitive(all) == first_sensitive(all.skip(i as int)),
        decreases lower_paths@.len() - i,
    {
        assert(all.skip(i as int)[0] == lower_paths@[i as int]@);
        assert(all.skip(i as int).drop_first() =~= all.skip(i + 1));
        match find_sensitive(lower_paths[i].as_str()) {
            Some(p) => {
                return Some(p);
            },
            None => {},
        }
        i += 1;
    }
    None
}

/// The restraint model.
pub struct RestraintModel;

impl RestraintModel {
    /// Decides on a prediction of which the paths and the action are also given
    /// in lower case. The first failing condition holds it back.
    pub fn should_preload_lowered(
        prediction: &ContextPrediction,
        lower_paths: &Vec<String>,
        lower_action: &str,
        acceptance: &DomainAcceptance,
    ) -> (d: PreloadDecision)
        ensures
            is_decision(
                d,
                hold_reason(
                    *prediction,
                    text::texts(lower_paths@),
                    lower_action@,
                    *acceptance,
                ),
            ),
    {
        let domain = prediction.domain.as_str();
        if prediction.confidence.nanos <= CONFIDENCE_THRESHOLD {
            let mut reason = String::from_str("Confidence ");
            let shown = prediction.confidence.to_fixed2();
            reason.append(shown.as_str());
            reason.append(" below threshold ");
            let limit = Score::from_nanos(CONFIDENCE_THRESHOLD).to_fixed2();
            reason.append(limit.as_str());
            return PreloadDecision::HoldBack { reason };
        }
        if text::same_text(domain, "personal") || text::same_text(domain, "finance")
            || text::same_text(domain, "health") || text::same_text(domain, "private") {
            let mut reason = String::from_str("Domain '");
            reason.append(domain);
            reason.append("' is always held back (high-intimacy)");
            return PreloadDecision::HoldBack { reason };
        }
        match find_first_sensitive(lower_paths) {
            Some(pattern) => {
                let mut reason = String::from_str("File path contains sensitive pattern '");
                reason.append(pattern);
                reason.append("' — held back");
                return PreloadDecision::HoldBack { reason };
            },
            None => {},
        }
        let hour: u8 = prediction.time_of_day;
        if (hour >= 22 || hour <= 6) && !(text::same_text(domain, "coding") || text::same_text(
            domain,
            "work",
        )) {
            let mut reason = String::from_str("Late night (");
            if hour < 10 {
                let ghost before = reason@;
                let digits = text::decimal(hour as u64);
                reason.append("0");
                reason.append(digits.as_str());
                assert(reason@ =~= before + ("0"@ + digits@));
            } else {
                let digits = text::decimal(hour as u64);
                reason.append(digits.as_str());
            }
            reason.append(":00) preload in domain '");
            reason.append(domain);
            reason.append("' — held back");
            return PreloadDecision::HoldBack { reason };
        }
        if text::text_contains(lower_action, "read") || text::text_contains(lower_action, "extract")
            || text::text_contains(lower_action, "parse") {
            return PreloadDecision::HoldBack {
                reason: String::from_str(
                    "Predicted action reads file content — only app-open preloading is allowed",
                ),
            };
        }
        if !acceptance.is_unlocked(domain) {
            let count: u32 = acceptance.acceptance_count(domain);
            let mut reason = String::from_str("Domain '");
            reason.append(domain);
            reason.append("' not yet unlocked (");
            let n = text::decimal(count as u64);
            reason.append(n.as_str());
            reason.append("/");
            let limit = text::decimal(ACCEPTANCE_THRESHOLD as u64);
            reason.append(limit.as_str());
            reason.append(" positive interactions)");
            return PreloadDecision::HoldBack { reason };
        }
        PreloadDecision::Preload
    }

    /// Decides whether a prediction should be acted upon.
    pub fn should_preload(prediction: &ContextPrediction, acceptance: &DomainAcceptance) -> (d:
        PreloadDecision)
        ensures
            is_decision(
                d,
                hold_reason(
                    *prediction,
                    lowered(prediction.file_paths@),
                    text::lowercase(prediction.predicted_action@),
                    *acceptance,
                ),
            ),
    {
        let mut lower_paths: Vec<String> = Vec::new();
        let mut i: usize = 0;
        while i < prediction.file_paths.len()
            invariant
                i <= prediction.file_paths@.len(),
                lower_paths@.len() == i,
                forall|k: int|
                    0 <= k < i ==> (#[trigger] lower_paths@[k])@ == text::lowercase(
                        prediction.file_paths@[k]@,
                    ),
            decreases prediction.file_paths@.len() - i,
        {
            lower_paths.push(text::to_lowercase(prediction.file_paths[i].as_str()));
            i += 1;
        }
        assert(text::texts(lower_paths@) =~= lowered(prediction.file_paths@));
        let lower_action = text::to_lowercase(prediction.predicted_action.as_str());
        RestraintModel::should_preload_lowered(
            prediction,
            &lower_paths,
            lower_action.as_str(),
            acceptance,
        )
    }
}

/// A prediction surfaces only when its confidence exceeds the threshold, its
/// domain is not intimate and was unlocked by the user, no path is sensitive,
/// the hour fits the domain and no content is read; and then it does.
pub proof fn surfaces_iff_everything_fits(
    p: ContextPrediction,
    lower_paths: Seq<Seq<char>>,
    lower_action: Seq<char>,
    acceptance: DomainAcceptance,
)
    ensures
        hold_reason(p, lower_paths, lower_action, acceptance) is None <==> {
            &&& p.confidence.nanos > CONFIDENCE_THRESHOLD
            &&& !high_intimacy(p.domain@)
            &&& first_sensitive(lower_paths) is None
            &&& !late_night(p.time_of_day) || night_ok(p.domain@)
            &&& !reads_content(lower_action)
            &&& acceptance.unlocked(p.domain@)
        },
{
}

/// A path list is free of sensitive patterns exactly when each of its paths
/// is.
pub proof fn sensitive_iff_some_path(lower_paths: Seq<Seq<char>>)
    ensures
        first_sensitive(lower_paths) is Some <==> exists|i: int|
            0 <= i < lower_paths.len() && sensitive_pattern(#[trigger] lower_paths[i]) is Some,
    decreases lower_paths.len(),
{
    if lower_paths.len() > 0 {
        let rest = lower_paths.drop_first();
        sensitive_iff_some_path(rest);
        if first_sensitive(rest) is Some {
            let i = choose|i: int|
                0 <= i < rest.len() && sensitive_pattern(#[trigger] rest[i]) is Some;
            assert(lower_paths[i + 1] == rest[i]);
        }
        if exists|i: int|
            0 <= i < lower_paths.len() && sensitive_pattern(#[trigger] lower_paths[i]) is Some {
            let i = choose|i: int|
                0 <= i < lower_paths.len() && sensitive_pattern(#[trigger] lower_paths[i]) is Some;
            if i > 0 {
                assert(rest[i - 1] == lower_paths[i]);
            }
        }
    }
}

/// A locked domain is held back however often it was accepted.
pub proof fn locks_hold(acceptance: DomainAcceptance, domain: Seq<char>)
    requires
        acceptance.locks()@.dom().contains(domain),
    ensures
        !acceptance.unlocked(domain),
{
}

/// When a prediction surfaces, by its parts alone: the model is more than 0.85
/// sure, the domain is none of the intimate ones, no path is sensitive, the hour
/// is between seven and ten in the evening or the domain is coding or work, the
/// action reads nothing, and the user accepted the domain three times and did
/// not lock it.
pub proof fn surfaces_by_its_parts(
    p: ContextPrediction,
    lower_paths: Seq<Seq<char>>,
    lower_action: Seq<char>,
    acceptance: DomainAcceptance,
)
    ensures
        hold_reason(p, lower_paths, lower_action, acceptance) is None <==> {
            &&& p.confidence.nanos > 850_000_000
            &&& p.domain@ != "personal"@ && p.domain@ != "finance"@ && p.domain@ != "health"@
                && p.domain@ != "private"@
            &&& forall|i: int|
                0 <= i < lower_paths.len() ==> sensitive_pattern(#[trigger] lower_paths[i]) is None
            &&& 7 <= p.time_of_day <= 21 || p.domain@ == "coding"@ || p.domain@ == "work"@
            &&& !text::occurs_in(lower_action, "read"@) && !text::occurs_in(
                lower_action,
                "extract"@,
            ) && !text::occurs_in(lower_action, "parse"@)
            &&& !acceptance.locks()@.dom().contains(p.domain@)
            &&& acceptance.count(p.domain@) >= 3
        },
{
    sensitive_iff_some_path(lower_paths);
    reveal_strlit("personal");
    reveal_strlit("finance");
    reveal_strlit("health");
    reveal_strlit("private");
    reveal_strlit("coding");
    reveal_strlit("work");
}

/// Every sensitive word is found wherever it stands in a path, a path without
/// any is not sensitive, and what is reported stands in the path.
pub proof fn sensitive_words_are_found(
    path: Seq<char>,
    before: Seq<char>,
    word: Seq<char>,
    after: Seq<char>,
)
    ensures
        word == "diary"@ || word == "journal"@ || word == "private"@ || word == "personal"@ || word == ".kdbx"@ || word == "password"@ || word == "credential"@ || word == "therapy"@ || word == "medical"@ || word == "secret"@ ==> sensitive_pattern(before + word + after) is Some,
        !text::occurs_in(path, "diary"@) && !text::occurs_in(path, "journal"@) && !text::occurs_in(path, "private"@) && !text::occurs_in(path, "personal"@) && !text::occurs_in(path, ".kdbx"@) && !text::occurs_in(path, "password"@) && !text::occurs_in(path, "credential"@) && !text::occurs_in(path, "therapy"@) && !text::occurs_in(path, "medical"@) && !text::occurs_in(path, "secret"@) ==> sensitive_pattern(path) is None,
        sensitive_pattern(path) matches Some(w) ==> text::occurs_in(path, w) && (w == "diary"@ || w == "journal"@ || w == "private"@ || w == "personal"@ || w == ".kdbx"@ || w == "password"@ || w == "credential"@ || w == "therapy"@ || w == "medical"@ || w == "secret"@),
{
    text::occurrences_are_parts(path, before, word, after);
}

/// An action that reads, extracts or parses, anywhere in its name, is held back.
pub proof fn reading_words_are_found(before: Seq<char>, after: Seq<char>)
    ensures
        reads_content(before + "read"@ + after),
        reads_content(before + "extract"@ + after),
        reads_content(before + "parse"@ + after),
{
    text::occurrences_are_parts(before, before, "read"@, after);
    text::occurrences_are_parts(before, before, "extract"@, after);
    text::occurrences_are_parts(before, before, "parse"@, after);
}

/// A prediction that is not sure enough is told so first, an intimate domain
/// second, a sensitive path third.
pub proof fn reasons_name_the_first_fault(
    p: ContextPrediction,
    lower_paths: Seq<Seq<char>>,
    lower_action: Seq<char>,
    acceptance: DomainAcceptance,
)
    ensures
        hold_reason(p, lower_paths, lower_action, acceptance) matches Some(r) ==> {
            let sure = p.confidence.nanos > 850_000_000;
            &&& !sure ==> text::begins_with(
                r,
                "Confidence "@ + score::score_fixed2(p.confidence.nanos as int)
                    + " below threshold "@,
            )
            &&& sure && high_intimacy(p.domain@) ==> r == "Domain '"@ + p.domain@
                + "' is always held back (high-intimacy)"@
            &&& sure && !high_intimacy(p.domain@) && first_sensitive(lower_paths) is Some ==> r
                == "File path contains sensitive pattern '"@ + first_sensitive(lower_paths)->0
                + "' — held back"@
        },
{
    text::joined_reads(
        "Confidence "@ + score::score_fixed2(p.confidence.nanos as int) + " below threshold "@,
        score::score_fixed2(CONFIDENCE_THRESHOLD as int),
    );
}

/// Of a prediction with none of these faults, the hour is named next, the action
/// after it, and a domain that is not unlocked last.
pub proof fn later_reasons_follow(
    p: ContextPrediction,
    lower_paths: Seq<Seq<char>>,
    lower_action: Seq<char>,
    acceptance: DomainAcceptance,
)
    requires
        p.confidence.nanos > 850_000_000,
        !high_intimacy(p.domain@),
        first_sensitive(lower_paths) is None,
    ensures
        hold_reason(p, lower_paths, lower_action, acceptance) matches Some(r) ==> {
            let night = !(7 <= p.time_of_day <= 21) && p.domain@ != "coding"@ && p.domain@
                != "work"@;
            &&& night ==> r == "Late night ("@ + two_digits(p.time_of_day as nat)
                + ":00) preload in domain '"@ + p.domain@ + "' — held back"@
            &&& !night && reads_content(lower_action) ==> r
                == "Predicted action reads file content — only app-open preloading is allowed"@
            &&& !night && !reads_content(lower_action) ==> r == "Domain '"@ + p.domain@
                + "' not yet unlocked ("@ + text::decimal_digits(
                acceptance.count(p.domain@) as nat,
            ) + "/"@ + text::decimal_digits(3) + " positive interactions)"@
        },
{
}

/// Hours are written with two digits, and read back as they are.
pub proof fn hours_have_two_digits(n: nat)
    requires
        n < 100,
    ensures
        two_digits(n).len() == 2,
        text::number_of(two_digits(n)) == n,
{
    reveal_strlit("0");
    reveal_with_fuel(text::decimal_digits, 3);
    reveal_with_fuel(text::number_of, 4);
    let t = two_digits(n);
    if n < 10 {
        assert(t =~= seq!['0', text::digit_char(n)]);
        assert(t.drop_last() =~= seq!['0']);
        assert(t.drop_last().drop_last() =~= Seq::<char>::empty());
    } else {
        assert(t =~= seq![text::digit_char(n / 10), text::digit_char(n % 10)]);
        assert(t.drop_last() =~= seq![text::digit_char(n / 10)]);
        assert(t.drop_last().drop_last() =~= Seq::<char>::empty());
    }
}

/// A decision holds back exactly where there is a reason, and gives it.
pub proof fn decisions_give_their_reason(d: PreloadDecision, reason: Option<Seq<char>>)
    requires
        is_decision(d, reason),
    ensures
        d == PreloadDecision::Preload <==> reason is None,
        d matches PreloadDecision::HoldBack { reason: r } ==> reason == Some(r@),
{
}

/// What was never accepted counts nothing, and a domain is unlocked from the
/// third acceptance on, unless it is locked.
pub proof fn three_acceptances_unlock(a: DomainAcceptance, domain: Seq<char>)
    ensures
        !a.counts()@.dom().contains(domain) ==> a.count(domain) == 0 && !a.unlocked(domain),
        a.unlocked(domain) <==> a.count(domain) >= 3 && !a.locks()@.dom().contains(domain),
        a.counts()@.dom().contains(domain) ==> a.count(domain) == a.counts()@[domain],
{
}

} // verus!
