//! Immutable principles governing AI behaviour.
//!
//! The constitution is the highest-authority policy layer. Its five articles
//! are fixed; an action that violates one is blocked whatever else holds.

use vstd::prelude::*;
use vstd::string::StringExecFns;

use crate::clock::Timestamp;

verus! {

/// An agent identifier.
pub type AgentId = String;

/// Identifier of a constitutional article.
pub type ArticleId = u32;

/// A single constitutional article.
#[derive(Clone, Debug)]
pub struct Article {
    /// Numeric id of the article. Stable across versions.
    pub id: ArticleId,
    /// The principle, in plain English.
    pub principle: String,
    /// Priority. Lower numbers are higher priority.
    pub priority: u32,
    /// Whether the article is immutable.
    pub immutable: bool,
}

/// The constitution's verdict on a proposed action.
#[derive(Clone, Copy, Debug, PartialEq, Eq, Structural)]
pub enum ConstitutionVerdict {
    /// The action does not violate any article.
    Compliant,
    /// The action violates the named article.
    Violates(ArticleId),
}

/// An action proposed for constitutional evaluation.
#[derive(Clone, Debug)]
pub struct ConstitutionAction {
    /// Agent proposing the action.
    pub agent: AgentId,
    /// Action name.
    pub action: String,
    /// Target resource path or identifier.
    pub target: String,
    /// When the action was proposed (for audit).
    pub proposed_at: Timestamp,
    /// Whether the action would modify HAL itself.
    pub touches_hal: bool,
    /// Whether the action would alter the audit chain.
    pub touches_audit: bool,
    /// Whether the action would change the autonomy level.
    pub touches_autonomy: bool,
    /// Whether the action withholds information from the user.
    pub withholds_information: bool,
    /// Whether the action overrides an explicit user preference.
    pub overrides_user: bool,
}

/// Whether an action violates the article with an id.
pub open spec fn violated(id: ArticleId, action: ConstitutionAction) -> bool {
    if id == 1 {
        action.touches_hal
    } else if id == 2 {
        action.withholds_information
    } else if id == 3 {
        action.touches_audit
    } else if id == 4 {
        action.touches_autonomy
    } else if id == 5 {
        action.overrides_user
    } else {
        false
    }
}

/// The verdict of articles in order: the first that is violated counts.
pub open spec fn verdict_of(articles: Seq<Article>, action: ConstitutionAction) -> ConstitutionVerdict
    decreases articles.len(),
{
    if articles.len() == 0 {
        ConstitutionVerdict::Compliant
    } else if violated(articles[0].id, action) {
        ConstitutionVerdict::Violates(articles[0].id)
    } else {
        verdict_of(articles.drop_first(), action)
    }
}

/// The principle of the article with an id from one to five.
pub open spec fn principle_of(id: int) -> Seq<char> {
    if id == 1 {
        "Never modify HAL. The Human Approval Layer is the trust root; modifying it (binaries, configs, runtime state) is forbidden under all conditions."@
    } else if id == 2 {
        "Never deceive the user. Withholding information, fabricating audit entries, or misrepresenting the system's state is forbidden."@
    } else if id == 3 {
        "Always preserve the audit chain. Tampering with, truncating, or rewriting the tamper-evident audit log is forbidden."@
    } else if id == 4 {
        "Never escalate autonomy without consent. Increasing the system's autonomy level requires explicit human approval; the system may not grant itself more authority."@
    } else {
        "Preserve user sovereignty. The user's explicit preferences and instructions take precedence over the system's own judgments, except where doing so would violate Articles 1-4."@
    }
}

/// Whether articles are the five of the constitution, in priority order.
pub open spec fn are_the_articles(articles: Seq<Article>) -> bool {
    articles.len() == 5 && forall|i: int|
        0 <= i < 5 ==> (#[trigger] articles[i]).id == i + 1 && articles[i].priority == i + 1
            && articles[i].immutable && articles[i].principle@ == principle_of(i + 1)
}

/// The autonomous constitution.
#[derive(Debug)]
pub struct AutonomousConstitution {
    /// The immutable articles, in priority order.
    pub articles: Vec<Article>,
}

impl Default for AutonomousConstitution {
    fn default() -> (c: AutonomousConstitution)
        ensures
            are_the_articles(c.articles@),
    {
        AutonomousConstitution::new()
    }
}

impl AutonomousConstitution {
    /// The constitution with its five articles.
    pub fn new() -> (c: AutonomousConstitution)
        ensures
            are_the_articles(c.articles@),
    {
        AutonomousConstitution { articles: default_articles() }
    }

    /// Evaluates an action. Articles are checked in order; the first violation
    /// wins.
    pub fn evaluate(&self, action: &ConstitutionAction) -> (v: ConstitutionVerdict)
        ensures
            v == verdict_of(self.articles@, *action),
    {
        let ghost all = self.articles@;
        let mut i: usize = 0;
        assert(all.skip(0) =~= all);
        while i < self.articles.len()
            invariant
                all == self.articles@,
                i <= all.len(),
                verdict_of(all, *action) == verdict_of(all.skip(i as int), *action),
            decreases all.len() - i,
        {
            assert(all.skip(i as int)[0] == all[i as int]);
            assert(all.skip(i as int).drop_first() =~= all.skip(i + 1));
            if AutonomousConstitution::violates(&self.articles[i], action) {
                return ConstitutionVerdict::Violates(self.articles[i].id);
            }
            i += 1;
        }
        ConstitutionVerdict::Compliant
    }

    /// The first article with an id.
    pub fn article(&self, id: ArticleId) -> (r: Option<&Article>)
        ensures
            match r {
                Some(a) => exists|i: int|
                    0 <= i < self.articles@.len() && #[trigger] self.articles@[i] == *a && a.id
                        == id && forall|j: int| 0 <= j < i ==> (#[trigger] self.articles@[j]).id
                        != id,
                None => forall|i: int|
                    0 <= i < self.articles@.len() ==> (#[trigger] self.articles@[i]).id != id,
            },
    {
        let mut i: usize = 0;
        while i < self.articles.len()
            invariant
                i <= self.articles@.len(),
                forall|j: int| 0 <= j < i ==> (#[trigger] self.articles@[j]).id != id,
            decreases self.articles@.len() - i,
        {
            if self.articles[i].id == id {
                return Some(&self.articles[i]);
            }
            i += 1;
        }
        None
    }

    fn violates(article: &Article, action: &ConstitutionAction) -> (r: bool)
        ensures
            r == violated(article.id, *action),
    {
        match article.id {
            1 => action.touches_hal,
            2 => action.withholds_information,
            3 => action.touches_audit,
            4 => action.touches_autonomy,
            5 => action.overrides_user,
            _ => false,
        }
    }

    /// Number of articles.
    pub fn len(&self) -> (n: usize)
        ensures
            n == self.articles@.len(),
    {
        self.articles.len()
    }

    /// Whether there are no articles.
    pub fn is_empty(&self) -> (r: bool)
        ensures
            r == (self.articles@.len() == 0),
    {
        self.articles.len() == 0
    }

    /// Whether all articles are still marked immutable.
    pub fn verify_immutability(&self) -> (r: bool)
        ensures
            r == (forall|i: int|
                0 <= i < self.articles@.len() ==> (#[trigger] self.articles@[i]).immutable),
    {
        let mut i: usize = 0;
        while i < self.articles.len()
            invariant
                i <= self.articles@.len(),
                forall|j: int| 0 <= j < i ==> (#[trigger] self.articles@[j]).immutable,
            decreases self.articles@.len() - i,
        {
            if !self.articles[i].immutable {
                return false;
            }
            i += 1;
        }
        true
    }
}

/// The five articles of the constitution.
pub fn default_articles() -> (v: Vec<Article>)
    ensures
        are_the_articles(v@),
{
    vec![
        Article {
            id: 1,
            principle: String::from_str(
                "Never modify HAL. The Human Approval Layer is the trust root; modifying it (binaries, configs, runtime state) is forbidden under all conditions.",
            ),
            priority: 1,
            immutable: true,
        },
        Article {
            id: 2,
            principle: String::from_str(
                "Never deceive the user. Withholding information, fabricating audit entries, or misrepresenting the system's state is forbidden.",
            ),
            priority: 2,
            immutable: true,
        },
        Article {
            id: 3,
            principle: String::from_str(
                "Always preserve the audit chain. Tampering with, truncating, or rewriting the tamper-evident audit log is forbidden.",
            ),
            priority: 3,
            immutable: true,
        },
        Article {
            id: 4,
            principle: String::from_str(
                "Never escalate autonomy without consent. Increasing the system's autonomy level requires explicit human approval; the system may not grant itself more authority.",
            ),
            priority: 4,
            immutable: true,
        },
        Article {
            id: 5,
            principle: String::from_str(
                "Preserve user sovereignty. The user's explicit preferences and instructions take precedence over the system's own judgments, except where doing so would violate Articles 1-4.",
            ),
            priority: 5,
            immutable: true,
        },
    ]
}

/// Errors returned by the constitution module.
#[derive(Clone, Copy, Debug, PartialEq, Eq, Structural)]
pub enum ConstitutionError {
    /// An attempt was made to amend or remove an article.
    AmendmentForbidden(ArticleId),
    /// The immutability self-check failed at boot.
    ImmutabilityCheckFailed,
}

/// The constitution stops every action that touches HAL, withholds
/// information, touches the audit chain, touches autonomy or overrides the
/// user, names the article of highest priority, and passes everything else.
pub proof fn constitution_protects(articles: Seq<Article>, action: ConstitutionAction)
    requires
        are_the_articles(articles),
    ensures
        verdict_of(articles, action) == (if action.touches_hal {
            ConstitutionVerdict::Violates(1)
        } else if action.withholds_information {
            ConstitutionVerdict::Violates(2)
        } else if action.touches_audit {
            ConstitutionVerdict::Violates(3)
        } else if action.touches_autonomy {
            ConstitutionVerdict::Violates(4)
        } else if action.overrides_user {
            ConstitutionVerdict::Violates(5)
        } else {
            ConstitutionVerdict::Compliant
        }),
{
    reveal_with_fuel(verdict_of, 6);
    let a1 = articles.drop_first();
    let a2 = a1.drop_first();
    let a3 = a2.drop_first();
    let a4 = a3.drop_first();
    assert(articles[0].id == 1);
    assert(a1[0] == articles[1]);
    assert(a2[0] == articles[2]);
    assert(a3[0] == articles[3]);
    assert(a4[0] == articles[4]);
}

/// The five articles, by what they open with: the approval layer, the user's
/// trust, the audit chain, autonomy, and the user's sovereignty.
pub proof fn articles_say(articles: Seq<Article>)
    requires
        are_the_articles(articles),
    ensures
        articles[0].principle@
            == "Never modify HAL. The Human Approval Layer is the trust root; modifying it (binaries, configs, runtime state) is forbidden under all conditions."@,
        articles[1].principle@
            == "Never deceive the user. Withholding information, fabricating audit entries, or misrepresenting the system's state is forbidden."@,
        articles[2].principle@
            == "Always preserve the audit chain. Tampering with, truncating, or rewriting the tamper-evident audit log is forbidden."@,
        articles[3].principle@
            == "Never escalate autonomy without consent. Increasing the system's autonomy level requires explicit human approval; the system may not grant itself more authority."@,
        articles[4].principle@
            == "Preserve user sovereignty. The user's explicit preferences and instructions take precedence over the system's own judgments, except where doing so would violate Articles 1-4."@,
        forall|i: int|
            0 <= i < 5 ==> (#[trigger] articles[i]).immutable && articles[i].id == i + 1
                && articles[i].priority == i + 1,
{
}

/// A verdict names an article that the action violates, and an action that
/// violates none is compliant, whatever articles there are.
pub proof fn verdicts_are_founded(articles: Seq<Article>, action: ConstitutionAction)
    ensures
        verdict_of(articles, action) matches ConstitutionVerdict::Violates(id) ==> exists|i: int|
            0 <= i < articles.len() && (#[trigger] articles[i]).id == id && violated(id, action),
        verdict_of(articles, action) == ConstitutionVerdict::Compliant ==> forall|i: int|
            0 <= i < articles.len() ==> !violated((#[trigger] articles[i]).id, action),
    decreases articles.len(),
{
    if articles.len() > 0 {
        let d = articles.drop_first();
        verdicts_are_founded(d, action);
        if violated(articles[0].id, action) {
            assert(articles[0].id == articles[0].id);
        } else {
            if verdict_of(d, action) is Violates {
                let id = verdict_of(d, action)->Violates_0;
                let i = choose|i: int|
                    0 <= i < d.len() && (#[trigger] d[i]).id == id && violated(id, action);
                assert(articles[i + 1] == d[i]);
            }
            if verdict_of(d, action) == ConstitutionVerdict::Compliant {
                assert forall|i: int| 0 <= i < articles.len() implies !violated(
                    (#[trigger] articles[i]).id,
                    action,
                ) by {
                    if i > 0 {
                        assert(d[i - 1] == articles[i]);
                    }
                }
            }
        }
    }
}

} // verus!
