//! The last content-level filter on predictions: what is emotional, private,
//! unrequested or ill-timed is not surfaced.

use vstd::prelude::*;
use vstd::string::StringExecFns;

use crate::restraint_model;
use crate::restraint_model::ContextPrediction;
use crate::table::Table;
use crate::text;

verus! {

/// Reasons the firewall may block a prediction.
#[derive(Clone, Copy, Debug, PartialEq, Eq, Structural)]
pub enum BlockReason {
    /// The prediction contains emotional or intimate content.
    EmotionalContent,
    /// The prediction touches a private domain (health, finance, etc.).
    PrivateDomain,
    /// The prediction is in a domain the user has not opted into.
    UnrequestedDomain,
    /// The prediction is being surfaced at a time-inappropriate moment.
    TimeInappropriate,
}

impl BlockReason {
    /// Human-readable description shown in the audit log.
    pub fn description(&self) -> (r: &'static str)
        ensures
            r@ == (match *self {
                BlockReason::EmotionalContent => "prediction contains emotional/intimate content"@,
                BlockReason::PrivateDomain => "prediction touches a private domain"@,
                BlockReason::UnrequestedDomain => "prediction is in an unrequested domain"@,
                BlockReason::TimeInappropriate =>
                "prediction surfaced at a time-inappropriate moment"@,
            }),
    {
        match self {
            BlockReason::EmotionalContent => "prediction contains emotional/intimate content",
            BlockReason::PrivateDomain => "prediction touches a private domain",
            BlockReason::UnrequestedDomain => "prediction is in an unrequested domain",
            BlockReason::TimeInappropriate => "prediction surfaced at a time-inappropriate moment",
        }
    }
}

/// The firewall's verdict on a prediction.
#[derive(Clone, Copy, Debug, PartialEq, Eq, Structural)]
pub enum FirewallVerdict {
    /// Prediction may be surfaced as-is.
    Pass,
    /// Prediction must be blocked. The reason is kept for audit.
    Block(BlockReason),
    /// Prediction may be surfaced with sensitive fields stripped.
    Anonymize,
}

/// Whether a needle occurs in a text.
pub open spec fn some_occurs(needles: Seq<Seq<char>>, texts: Seq<Seq<char>>) -> bool {
    exists|i: int, j: int|
        0 <= i < needles.len() && 0 <= j < texts.len() && #[trigger] text::occurs_in(
            texts[j],
            needles[i],
        )
}

/// Whether one of some needles occurs in one of some texts.
pub fn any_occurs(needles: &Vec<String>, texts: &Vec<String>) -> (r: bool)
    ensures
        r == some_occurs(text::texts(needles@), text::texts(texts@)),
{
    let ghost ns = text::texts(needles@);
    let ghost ts = text::texts(texts@);
    let mut i: usize = 0;
    while i < needles.len()
        invariant
            i <= needles@.len(),
            ns == text::texts(needles@),
            ts == text::texts(texts@),
            forall|a: int, b: int|
                0 <= a < i && 0 <= b < ts.len() ==> !#[trigger] text::occurs_in(ts[b], ns[a]),
        decreases needles@.len() - i,
    {
        let mut j: usize = 0;
        while j < texts.len()
            invariant
                i < needles@.len(),
                j <= texts@.len(),
                ns == text::texts(needles@),
                ts == text::texts(texts@),
                forall|b: int| 0 <= b < j ==> !#[trigger] text::occurs_in(ts[b], ns[i as int]),
            decreases texts@.len() - j,
        {
            if text::text_contains(texts[j].as_str(), needles[i].as_str()) {
                assert(text::occurs_in(ts[j as int], ns[i as int]));
                return true;
            }
            assert(!text::occurs_in(ts[j as int], ns[i as int]));
            j += 1;
        }
        i += 1;
    }
    false
}

/// The texts of strings in lower case, to be filled one by one.
fn lower_all(v: &Vec<String>) -> (r: Vec<String>)
    ensures
        text::texts(r@) == restraint_model::lowered(v@),
{
    let mut r: Vec<String> = Vec::new();
    let mut i: usize = 0;
    while i < v.len()
        invariant
            i <= v@.len(),
            r@.len() == i,
            forall|k: int| 0 <= k < i ==> (#[trigger] r@[k])@ == text::lowercase(v@[k]@),
        decreases v@.len() - i,
    {
        r.push(text::to_lowercase(v[i].as_str()));
        i += 1;
    }
    assert(text::texts(r@) =~= restraint_model::lowered(v@));
    r
}

/// Marks emotional and intimate content by substrings.
#[derive(Clone, Debug)]
pub struct IntimacyClassifier {
    /// The substrings that mark such content.
    lexicon: Vec<String>,
}

/// The default lexicon.
pub open spec fn default_lexicon() -> Seq<Seq<char>> {
    seq![
        "diary"@,
        "journal"@,
        "love"@,
        "relationship"@,
        "therapy"@,
        "medical"@,
        "health"@,
        "password"@,
        "credential"@,
        "secret"@,
        "private"@,
        "personal"@,
        "finance"@,
        "bank"@,
        "kdbx"@,
        "emotion"@,
        "feeling"@,
    ]
}

/// The texts of a prediction that are searched, in lower case: its paths, its
/// action and its domain.
pub open spec fn searched(p: ContextPrediction) -> Seq<Seq<char>> {
    restraint_model::lowered(p.file_paths@).push(text::lowercase(p.predicted_action@)).push(
        text::lowercase(p.domain@),
    )
}

impl IntimacyClassifier {
    /// The texts that mark intimate content.
    pub closed spec fn marks_list(&self) -> Vec<String> {
        self.lexicon
    }

    /// Whether a prediction has a text that the lexicon marks, whatever the
    /// case.
    pub open spec fn marks(&self, p: ContextPrediction) -> bool {
        some_occurs(restraint_model::lowered(self.marks_list()@), searched(p))
    }

    /// A classifier with the default lexicon.
    pub fn new() -> (c: IntimacyClassifier)
        ensures
            text::texts(c.marks_list()@) == default_lexicon(),
    {
        let lexicon = vec![
            String::from_str("diary"),
            String::from_str("journal"),
            String::from_str("love"),
            String::from_str("relationship"),
            String::from_str("therapy"),
            String::from_str("medical"),
            String::from_str("health"),
            String::from_str("password"),
            String::from_str("credential"),
            String::from_str("secret"),
            String::from_str("private"),
            String::from_str("personal"),
            String::from_str("finance"),
            String::from_str("bank"),
            String::from_str("kdbx"),
            String::from_str("emotion"),
            String::from_str("feeling"),
        ];
        assert(text::texts(lexicon@) =~= default_lexicon());
        IntimacyClassifier { lexicon }
    }

    /// Whether a prediction has a text that the lexicon marks, whatever the
    /// case.
    pub fn is_intimate(&self, prediction: &ContextPrediction) -> (r: bool)
        ensures
            r == self.marks(*prediction),
    {
        let needles = lower_all(&self.lexicon);
        let mut texts = lower_all(&prediction.file_paths);
        let ghost paths = texts@;
        texts.push(text::to_lowercase(prediction.predicted_action.as_str()));
        texts.push(text::to_lowercase(prediction.domain.as_str()));
        assert(text::texts(texts@) =~= searched(*prediction)) by {
            assert forall|i: int| 0 <= i < paths.len() implies #[trigger] paths[i]@
                == restraint_model::lowered(prediction.file_paths@)[i] by {
                assert(text::texts(paths)[i] == paths[i]@);
            }
            assert(text::texts(paths).len() == paths.len());
        }
        any_occurs(&needles, &texts)
    }
}

/// Which domains may surface: those that are not private and that the user
/// opted into.
#[derive(Debug)]
pub struct DomainFilter {
    /// Domains the user has explicitly opted into.
    opted_in: Table<String, ()>,
    /// Domains always treated as private (never surfaced).
    always_private: Table<String, ()>,
}

/// The domains that are always private.
pub open spec fn is_private_domain(domain: Seq<char>) -> bool {
    domain == "personal"@ || domain == "finance"@ || domain == "health"@ || domain == "private"@
        || domain == "relationships"@ || domain == "therapy"@
}

impl DomainFilter {
    /// The domains that the user opted into.
    pub closed spec fn requested(&self) -> Table<String, ()> {
        self.opted_in
    }

    /// The domains that are always private.
    pub closed spec fn private_domains(&self) -> Table<String, ()> {
        self.always_private
    }

    /// A filter with the default private domains and none opted into.
    pub fn new() -> (f: DomainFilter)
        ensures
            f.requested()@ == Map::<Seq<char>, ()>::empty(),
            forall|d: Seq<char>| #[trigger]
                f.private_domains()@.dom().contains(d) <==> is_private_domain(d),
    {
        let mut private: Table<String, ()> = Table::new();
        private.insert(String::from_str("personal"), ());
        private.insert(String::from_str("finance"), ());
        private.insert(String::from_str("health"), ());
        private.insert(String::from_str("private"), ());
        private.insert(String::from_str("relationships"), ());
        private.insert(String::from_str("therapy"), ());
        DomainFilter { opted_in: Table::new(), always_private: private }
    }

    /// Opts into a domain.
    pub fn opt_in(&mut self, domain: &str)
        ensures
            final(self).requested()@ == old(self).requested()@.insert(domain@, ()),
            final(self).private_domains() == old(self).private_domains(),
    {
        self.opted_in.insert(domain.to_owned(), ());
    }

    /// Withdraws the opt-in for a domain.
    pub fn opt_out(&mut self, domain: &str)
        ensures
            final(self).requested()@ == old(self).requested()@.remove(domain@),
            final(self).private_domains() == old(self).private_domains(),
    {
        let _ = self.opted_in.remove(&domain.to_owned());
    }

    /// Whether a domain is always private.
    pub fn is_private(&self, domain: &str) -> (r: bool)
        ensures
            r == self.private_domains()@.dom().contains(domain@),
    {
        self.always_private.contains_key(&domain.to_owned())
    }

    /// Whether the user opted into a domain.
    pub fn is_opted_in(&self, domain: &str) -> (r: bool)
        ensures
            r == self.requested()@.dom().contains(domain@),
    {
        self.opted_in.contains_key(&domain.to_owned())
    }
}

/// The cognitive firewall.
#[derive(Debug)]
pub struct CognitiveFirewall {
    /// Marks emotional and intimate content.
    intimacy_classifier: IntimacyClassifier,
    /// Which domains may surface.
    domain_filter: DomainFilter,
}

/// The verdict on a prediction of which it is known whether it is intimate.
pub open spec fn verdict_of(
    p: ContextPrediction,
    intimate: bool,
    f: DomainFilter,
) -> FirewallVerdict {
    if intimate {
        FirewallVerdict::Block(BlockReason::EmotionalContent)
    } else if f.private_domains()@.dom().contains(p.domain@) {
        FirewallVerdict::Block(BlockReason::PrivateDomain)
    } else if !f.requested()@.dom().contains(p.domain@) {
        FirewallVerdict::Block(BlockReason::UnrequestedDomain)
    } else if restraint_model::late_night(p.time_of_day) && !restraint_model::night_ok(p.domain@) {
        FirewallVerdict::Block(BlockReason::TimeInappropriate)
    } else {
        FirewallVerdict::Pass
    }
}

impl CognitiveFirewall {
    /// The intimacy classifier.
    pub closed spec fn classifier(&self) -> IntimacyClassifier {
        self.intimacy_classifier
    }

    /// The domain filter.
    pub closed spec fn domains(&self) -> DomainFilter {
        self.domain_filter
    }

    /// A firewall with the defaults.
    pub fn new() -> (f: CognitiveFirewall)
        ensures
            text::texts(f.classifier().marks_list()@) == default_lexicon(),
            f.domains().requested()@ == Map::<Seq<char>, ()>::empty(),
            forall|d: Seq<char>| #[trigger]
                f.domains().private_domains()@.dom().contains(d) <==> is_private_domain(d),
    {
        CognitiveFirewall {
            intimacy_classifier: IntimacyClassifier::new(),
            domain_filter: DomainFilter::new(),
        }
    }

    /// The verdict on a prediction of which it is known whether it is intimate.
    pub fn filter_known(&self, prediction: &ContextPrediction, intimate: bool) -> (v:
        FirewallVerdict)
        ensures
            v == verdict_of(*prediction, intimate, self.domains()),
    {
        if intimate {
            return FirewallVerdict::Block(BlockReason::EmotionalContent);
        }
        let domain = prediction.domain.as_str();
        if self.domain_filter.is_private(domain) {
            return FirewallVerdict::Block(BlockReason::PrivateDomain);
        }
        if !self.domain_filter.is_opted_in(domain) {
            return FirewallVerdict::Block(BlockReason::UnrequestedDomain);
        }
        let hour: u8 = prediction.time_of_day;
        if (hour >= 22 || hour <= 6) && !text::same_text(domain, "coding") && !text::same_text(
            domain,
            "work",
        ) {
            return FirewallVerdict::Block(BlockReason::TimeInappropriate);
        }
        FirewallVerdict::Pass
    }

    /// The verdict on a prediction.
    pub fn filter(&self, prediction: &ContextPrediction) -> (v: FirewallVerdict)
        ensures
            v == verdict_of(
                *prediction,
                self.classifier().marks(*prediction),
                self.domains(),
            ),
    {
        let intimate = self.intimacy_classifier.is_intimate(prediction);
        self.filter_known(prediction, intimate)
    }

    /// The domain filter.
    pub fn domain_filter(&self) -> (f: &DomainFilter)
        ensures
            *f == self.domains(),
    {
        &self.domain_filter
    }

    /// The domain filter, to be changed.
    pub fn domain_filter_mut(&mut self) -> (f: &mut DomainFilter)
        ensures
            *f == old(self).domains(),
            final(self).domains() == *final(f),
            final(self).classifier() == old(self).classifier(),
    {
        &mut self.domain_filter
    }
}

/// "Stay invisible when in doubt": nothing intimate, private or unrequested
/// ever passes, and nothing is merely anonymized.
pub proof fn firewall_blocks_when_in_doubt(p: ContextPrediction, intimate: bool, f: DomainFilter)
    ensures
        verdict_of(p, intimate, f) == FirewallVerdict::Pass ==> !intimate
            && !f.private_domains()@.dom().contains(p.domain@) && f.requested()@.dom().contains(p.domain@),
        verdict_of(p, intimate, f) != FirewallVerdict::Anonymize,
{
}

/// A text that holds a word of the default lexicon, wherever it stands, is
/// found; texts that hold none are not.
pub proof fn intimate_words_are_found(
    texts: Seq<Seq<char>>,
    j: int,
    before: Seq<char>,
    word: Seq<char>,
    after: Seq<char>,
)
    ensures
        0 <= j < texts.len() && texts[j] == before + word + after && (word == "diary"@ || word == "journal"@ || word == "love"@ || word == "relationship"@ || word == "therapy"@ || word == "medical"@ || word == "health"@ || word == "password"@ || word == "credential"@ || word == "secret"@ || word == "private"@ || word == "personal"@ || word == "finance"@ || word == "bank"@ || word == "kdbx"@ || word == "emotion"@ || word == "feeling"@) ==> some_occurs(default_lexicon(), texts),
        (forall|i: int|
            0 <= i < texts.len() ==> (!text::occurs_in(#[trigger] texts[i], "diary"@) && !text::occurs_in(texts[i], "journal"@) && !text::occurs_in(texts[i], "love"@) && !text::occurs_in(texts[i], "relationship"@) && !text::occurs_in(texts[i], "therapy"@) && !text::occurs_in(texts[i], "medical"@) && !text::occurs_in(texts[i], "health"@) && !text::occurs_in(texts[i], "password"@) && !text::occurs_in(texts[i], "credential"@) && !text::occurs_in(texts[i], "secret"@) && !text::occurs_in(texts[i], "private"@) && !text::occurs_in(texts[i], "personal"@) && !text::occurs_in(texts[i], "finance"@) && !text::occurs_in(texts[i], "bank"@) && !text::occurs_in(texts[i], "kdbx"@) && !text::occurs_in(texts[i], "emotion"@) && !text::occurs_in(texts[i], "feeling"@))) ==> !some_occurs(default_lexicon(), texts),
{
    text::occurrences_are_parts(before, before, word, after);
    let l = default_lexicon();
    assert(l.len() == 17);
    assert(l[0] == "diary"@);
    assert(l[1] == "journal"@);
    assert(l[2] == "love"@);
    assert(l[3] == "relationship"@);
    assert(l[4] == "therapy"@);
    assert(l[5] == "medical"@);
    assert(l[6] == "health"@);
    assert(l[7] == "password"@);
    assert(l[8] == "credential"@);
    assert(l[9] == "secret"@);
    assert(l[10] == "private"@);
    assert(l[11] == "personal"@);
    assert(l[12] == "finance"@);
    assert(l[13] == "bank"@);
    assert(l[14] == "kdbx"@);
    assert(l[15] == "emotion"@);
    assert(l[16] == "feeling"@);
    if 0 <= j < texts.len() && texts[j] == before + word + after && (word == "diary"@ || word == "journal"@ || word == "love"@ || word == "relationship"@ || word == "therapy"@ || word == "medical"@ || word == "health"@ || word == "password"@ || word == "credential"@ || word == "secret"@ || word == "private"@ || word == "personal"@ || word == "finance"@ || word == "bank"@ || word == "kdbx"@ || word == "emotion"@ || word == "feeling"@) {
        let k = choose|k: int| 0 <= k < 17 && #[trigger] l[k] == word;
        assert(text::occurs_in(texts[j], l[k]));
    }
}

/// The private domains.
pub proof fn private_domains_are_six(domain: Seq<char>)
    ensures
        domain == "personal"@ || domain == "finance"@ || domain == "health"@ || domain == "private"@ || domain == "relationships"@ || domain == "therapy"@ <==> is_private_domain(domain),
        restraint_model::high_intimacy(domain) ==> is_private_domain(domain),
{
}

/// A prediction passes exactly where it is not intimate, its domain is asked for
/// and not private, and the hour is between seven and ten in the evening or the
/// domain is coding or work. What stops it is named, in this order.
pub proof fn verdict_by_its_parts(p: ContextPrediction, intimate: bool, f: DomainFilter)
    ensures
        ({
            let v = verdict_of(p, intimate, f);
            let private = f.private_domains()@.dom().contains(p.domain@);
            let asked = f.requested()@.dom().contains(p.domain@);
            let hour = 7 <= p.time_of_day <= 21 || p.domain@ == "coding"@ || p.domain@ == "work"@;
            &&& v == FirewallVerdict::Pass <==> !intimate && !private && asked && hour
            &&& v == FirewallVerdict::Block(BlockReason::EmotionalContent) <==> intimate
            &&& v == FirewallVerdict::Block(BlockReason::PrivateDomain) <==> !intimate && private
            &&& v == FirewallVerdict::Block(BlockReason::UnrequestedDomain) <==> !intimate
                && !private && !asked
            &&& v == FirewallVerdict::Block(BlockReason::TimeInappropriate) <==> !intimate
                && !private && asked && !hour
        }),
{
}

/// A prediction is marked where a word of the classifier, in lower case, stands
/// in one of its paths, its action or its domain, each in lower case.
pub proof fn marks_stand_somewhere(c: IntimacyClassifier, p: ContextPrediction, i: int, k: int)
    requires
        0 <= k < c.marks_list()@.len(),
    ensures
        text::occurs_in(
            text::lowercase(p.predicted_action@),
            text::lowercase(c.marks_list()@[k]@),
        ) ==> c.marks(p),
        text::occurs_in(text::lowercase(p.domain@), text::lowercase(c.marks_list()@[k]@))
            ==> c.marks(p),
        0 <= i < p.file_paths@.len() && text::occurs_in(
            text::lowercase(p.file_paths@[i]@),
            text::lowercase(c.marks_list()@[k]@),
        ) ==> c.marks(p),
{
    let s = searched(p);
    let l = restraint_model::lowered(c.marks_list()@);
    let n = p.file_paths@.len() as int;
    assert(s.len() == n + 2);
    assert(s[n] == text::lowercase(p.predicted_action@));
    assert(s[n + 1] == text::lowercase(p.domain@));
    assert(l[k] == text::lowercase(c.marks_list()@[k]@));
    if 0 <= i < n {
        assert(s[i] == text::lowercase(p.file_paths@[i]@));
    }
}

} // verus!
