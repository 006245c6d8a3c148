//! Gates attempts of agents to modify their own code: every change to a watched
//! path goes to human review.

use vstd::prelude::*;
use vstd::string::StringExecFns;

use crate::clock::Timestamp;
use crate::ident;
use crate::path;
use crate::path::FilePath;
use crate::table;
use crate::table::Table;
use crate::text;

verus! {

/// An agent identifier.
pub type AgentId = String;

/// Identifier of a pending rewrite request.
pub type RewriteRequestId = u128;

/// A request from an agent to modify a path.
#[derive(Clone, Debug)]
pub struct RewriteRequest {
    /// The path the agent wants to modify.
    pub target_path: String,
    /// The proposed diff, an opaque text.
    pub diff: String,
    /// The agent requesting the modification.
    pub agent: AgentId,
    /// The agent's stated reason for the modification.
    pub reason: String,
    /// When the request was made.
    pub requested_at: Timestamp,
}

/// The monitor's verdict on a rewrite request.
#[derive(Clone, Copy, Debug, PartialEq, Eq, Structural)]
pub enum RewriteVerdict {
    /// The request is denied outright.
    Deny,
    /// The request is allowed, but an audit entry must be written.
    AllowWithAudit,
    /// The request requires explicit human review before it can proceed.
    RequireHumanReview,
}

/// A request that waits for human review.
#[derive(Debug)]
pub struct PendingRequest {
    /// Its id.
    pub id: RewriteRequestId,
    /// What was asked for.
    pub request: RewriteRequest,
    /// The verdict.
    pub verdict: RewriteVerdict,
    /// When it was recorded.
    pub recorded_at: Timestamp,
}

/// Errors returned by the self-rewrite monitor.
#[derive(Clone, Debug)]
pub enum SelfRewriteError {
    /// A pending request was not found.
    NotFound(RewriteRequestId),
    /// A pending request was in a state that does not permit the action.
    InvalidState(RewriteRequestId),
    /// The requested path is not absolute.
    NonAbsoluteTarget(String),
}

impl SelfRewriteError {
    /// The error as one line.
    pub fn to_text(&self) -> (t: String)
        ensures
            t@ == (match *self {
                SelfRewriteError::NotFound(id) => "pending rewrite request not found: "@
                    + ident::uuid_digits(id),
                SelfRewriteError::InvalidState(id) => "pending request "@ + ident::uuid_digits(id)
                    + " in invalid state for action"@,
                SelfRewriteError::NonAbsoluteTarget(p) =>
                "rewrite target path must be absolute: "@ + p@,
            }),
    {
        match self {
            SelfRewriteError::NotFound(id) => {
                let digits = ident::uuid_text(*id);
                String::from_str("pending rewrite request not found: ").concat(digits.as_str())
            },
            SelfRewriteError::InvalidState(id) => {
                let mut t = String::from_str("pending request ");
                let digits = ident::uuid_text(*id);
                t.append(digits.as_str());
                t.append(" in invalid state for action");
                t
            },
            SelfRewriteError::NonAbsoluteTarget(p) => String::from_str(
                "rewrite target path must be absolute: ",
            ).concat(p.as_str()),
        }
    }
}

/// The path prefixes that are watched by default: agent and HAL code, their
/// configuration, models, capability manifests and the constitution.
pub const DEFAULT_WATCH_PATHS: [&'static str; 9] = [
    "/opt/cognos/agents",
    "/opt/cognos/hal",
    "/opt/cognos/cognitive_preloader",
    "/opt/cognos/intent-engine",
    "/etc/cognos/agents",
    "/etc/cognos/hal",
    "/var/lib/cognos/models",
    "/var/lib/cognos/capabilities",
    "/etc/cognos/constitution",
];

/// Whether a path prefix, given by its parts, is watched by default.
pub open spec fn is_default_watch(p: Seq<Seq<char>>) -> bool {
    p == path::parts("/opt/cognos/agents"@)
        || p == path::parts("/opt/cognos/hal"@)
        || p == path::parts("/opt/cognos/cognitive_preloader"@)
        || p == path::parts("/opt/cognos/intent-engine"@)
        || p == path::parts("/etc/cognos/agents"@)
        || p == path::parts("/etc/cognos/hal"@)
        || p == path::parts("/var/lib/cognos/models"@)
        || p == path::parts("/var/lib/cognos/capabilities"@)
        || p == path::parts("/etc/cognos/constitution"@)
}

/// The self-rewrite monitor.
#[derive(Debug)]
pub struct SelfRewriteMonitor {
    /// Path prefixes watched by the monitor.
    pub watch_paths: Table<FilePath, ()>,
    /// Rewrite requests awaiting human review.
    pub pending_requests: Table<RewriteRequestId, PendingRequest>,
}

impl Default for SelfRewriteMonitor {
    fn default() -> (m: SelfRewriteMonitor)
        ensures
            m.is_fresh(),
    {
        SelfRewriteMonitor::new()
    }
}

impl SelfRewriteMonitor {
    /// Whether the monitor is as it starts.
    pub open spec fn is_fresh(&self) -> bool {
        &&& forall|p: Seq<Seq<char>>| #[trigger]
            self.watch_paths@.dom().contains(p) <==> is_default_watch(p)
        &&& self.pending_requests@ == Map::<RewriteRequestId, PendingRequest>::empty()
    }

    /// Whether a path lies at or under a watched prefix.
    pub open spec fn watches(&self, target: Seq<char>) -> bool {
        exists|p: Seq<Seq<char>>| #[trigger]
            self.watch_paths@.dom().contains(p) && path::leads(p, path::parts(target))
    }

    /// A monitor with the default watch set.
    pub fn new() -> (m: SelfRewriteMonitor)
        ensures
            m.is_fresh(),
    {
        let mut watch: Table<FilePath, ()> = Table::new();
        watch.insert(FilePath(String::from_str("/opt/cognos/agents")), ());
        watch.insert(FilePath(String::from_str("/opt/cognos/hal")), ());
        watch.insert(FilePath(String::from_str("/opt/cognos/cognitive_preloader")), ());
        watch.insert(FilePath(String::from_str("/opt/cognos/intent-engine")), ());
        watch.insert(FilePath(String::from_str("/etc/cognos/agents")), ());
        watch.insert(FilePath(String::from_str("/etc/cognos/hal")), ());
        watch.insert(FilePath(String::from_str("/var/lib/cognos/models")), ());
        watch.insert(FilePath(String::from_str("/var/lib/cognos/capabilities")), ());
        watch.insert(FilePath(String::from_str("/etc/cognos/constitution")), ());
        SelfRewriteMonitor { watch_paths: watch, pending_requests: Table::new() }
    }

    /// Adds a path prefix to the watch set, unless it is there in whatever
    /// notation.
    pub fn watch(&mut self, path: String)
        ensures
            final(self).watch_paths@ == old(self).watch_paths@.insert(path::parts(path@), ()),
            final(self).pending_requests == old(self).pending_requests,
    {
        self.watch_paths.insert(FilePath(path), ());
    }

    /// The verdict on a rewrite request: a watched path needs human review, and
    /// the request is kept under an id with a time; any other is allowed with
    /// an audit entry.
    pub fn evaluate_rewrite_as(
        &mut self,
        request: RewriteRequest,
        id: RewriteRequestId,
        now: Timestamp,
    ) -> (v: RewriteVerdict)
        ensures
            final(self).watch_paths == old(self).watch_paths,
            if old(self).watches(request.target_path@) {
                &&& v == RewriteVerdict::RequireHumanReview
                &&& final(self).pending_requests@ == old(self).pending_requests@.insert(
                    id,
                    (PendingRequest {
                        id,
                        request,
                        verdict: RewriteVerdict::RequireHumanReview,
                        recorded_at: now,
                    }),
                )
            } else {
                &&& v == RewriteVerdict::AllowWithAudit
                &&& final(self).pending_requests == old(self).pending_requests
            },
    {
        if self.is_watched(request.target_path.as_str()) {
            let record = PendingRequest {
                id,
                request,
                verdict: RewriteVerdict::RequireHumanReview,
                recorded_at: now,
            };
            self.pending_requests.insert(id, record);
            RewriteVerdict::RequireHumanReview
        } else {
            RewriteVerdict::AllowWithAudit
        }
    }

    /// The verdict on a rewrite request, now; a request that needs human review
    /// is kept under a fresh id.
    pub fn evaluate_rewrite(&mut self, request: RewriteRequest) -> (v: RewriteVerdict)
        ensures
            final(self).watch_paths == old(self).watch_paths,
            if old(self).watches(request.target_path@) {
                &&& v == RewriteVerdict::RequireHumanReview
                &&& exists|r: PendingRequest|
                    ident::is_random_uuid(r.id) && r.request == request && r.verdict == v
                        && final(self).pending_requests@ == #[trigger] old(
                        self,
                    ).pending_requests@.insert(r.id, r)
            } else {
                &&& v == RewriteVerdict::AllowWithAudit
                &&& final(self).pending_requests == old(self).pending_requests
            },
    {
        let id: u128 = ident::new_uuid();
        let now = Timestamp::now();
        let ghost r = PendingRequest {
            id,
            request,
            verdict: RewriteVerdict::RequireHumanReview,
            recorded_at: now,
        };
        let v = self.evaluate_rewrite_as(request, id, now);
        proof {
            if old(self).watches(request.target_path@) {
                assert(self.pending_requests@ == old(self).pending_requests@.insert(r.id, r));
            }
        }
        v
    }

    /// Whether a path lies at or under a watched prefix.
    pub fn is_watched(&self, target: &str) -> (r: bool)
        ensures
            r == self.watches(target@),
    {
        let chars = text::chars_of(target);
        let ghost ids = self.watch_paths.ids();
        let n: usize = self.watch_paths.len();
        proof {
            table::order_lists_keys(self.watch_paths);
        }
        let mut i: usize = 0;
        while i < n
            invariant
                ids == self.watch_paths.ids(),
                n == ids.len(),
                i <= n,
                chars@ == target@,
                forall|j: int| 0 <= j < i ==> !path::leads(#[trigger] ids[j], path::parts(target@)),
            decreases n - i,
        {
            let prefix = self.watch_paths.key_at(i);
            let prefix_chars = text::chars_of(prefix.0.as_str());
            if path::is_under(&chars, &prefix_chars) {
                assert(self.watch_paths@.dom().contains(path::parts(prefix.0@)));
                return true;
            }
            i += 1;
        }
        assert forall|p: Seq<Seq<char>>| #[trigger]
            self.watch_paths@.dom().contains(p) implies !path::leads(p, path::parts(target@)) by {
            assert(ids.to_set().contains(p));
            let j = choose|j: int| 0 <= j < ids.len() && ids[j] == p;
            assert(ids[j] == p);
        }
        false
    }

    /// Number of rewrite requests pending human review.
    pub fn pending_count(&self) -> (n: usize)
        ensures
            n == self.pending_requests@.dom().len(),
    {
        self.pending_requests.len()
    }
}

/// Every path at or under a default prefix needs human review, as long as the
/// default prefixes are watched.
pub proof fn defaults_are_reviewed(
    m: SelfRewriteMonitor,
    prefix: Seq<char>,
    rest: Seq<char>,
)
    requires
        forall|p: Seq<Seq<char>>|
            is_default_watch(p) ==> #[trigger] m.watch_paths@.dom().contains(p),
        is_default_watch(path::parts(prefix)),
    ensures
        m.watches(prefix),
        m.watches(prefix + seq!['/'] + rest),
{
    assert(m.watch_paths@.dom().contains(path::parts(prefix)));
    path::under_itself(prefix, rest);
}

/// Watching a prefix covers exactly what lies at or under it, besides what was
/// covered before.
pub proof fn watching_only_grows(
    before: SelfRewriteMonitor,
    after: SelfRewriteMonitor,
    prefix: Seq<char>,
    target: Seq<char>,
)
    requires
        after.watch_paths@ == before.watch_paths@.insert(path::parts(prefix), ()),
    ensures
        after.watches(target) <==> before.watches(target) || path::lies_under(target, prefix),
{
    assert(after.watch_paths@.dom().contains(path::parts(prefix)));
    if before.watches(target) {
        let p = choose|p: Seq<Seq<char>>| #[trigger]
            before.watch_paths@.dom().contains(p) && path::leads(p, path::parts(target));
        assert(after.watch_paths@.dom().contains(p));
    }
    if after.watches(target) {
        let p = choose|p: Seq<Seq<char>>| #[trigger]
            after.watch_paths@.dom().contains(p) && path::leads(p, path::parts(target));
        assert(p == path::parts(prefix) || before.watch_paths@.dom().contains(p));
    }
}

/// What a new monitor watches: these nine places, all that lies under them, and
/// nothing else.
pub proof fn nine_places_are_watched(
    m: SelfRewriteMonitor,
    place: Seq<char>,
    rest: Seq<char>,
    target: Seq<char>,
)
    requires
        m.is_fresh(),
    ensures
        place == "/opt/cognos/agents"@ || place == "/opt/cognos/hal"@ || place == "/opt/cognos/cognitive_preloader"@ || place == "/opt/cognos/intent-engine"@ || place == "/etc/cognos/agents"@ || place == "/etc/cognos/hal"@ || place == "/var/lib/cognos/models"@ || place == "/var/lib/cognos/capabilities"@ || place == "/etc/cognos/constitution"@ ==> m.watches(place) && m.watches(place + seq!['/'] + rest),
        m.watches(target) ==> path::lies_under(target, "/opt/cognos/agents"@) || path::lies_under(target, "/opt/cognos/hal"@) || path::lies_under(target, "/opt/cognos/cognitive_preloader"@) || path::lies_under(target, "/opt/cognos/intent-engine"@) || path::lies_under(target, "/etc/cognos/agents"@) || path::lies_under(target, "/etc/cognos/hal"@) || path::lies_under(target, "/var/lib/cognos/models"@) || path::lies_under(target, "/var/lib/cognos/capabilities"@) || path::lies_under(target, "/etc/cognos/constitution"@),
        DEFAULT_WATCH_PATHS@.len() == 9,
        DEFAULT_WATCH_PATHS@[0]@ == "/opt/cognos/agents"@,
        DEFAULT_WATCH_PATHS@[1]@ == "/opt/cognos/hal"@,
        DEFAULT_WATCH_PATHS@[2]@ == "/opt/cognos/cognitive_preloader"@,
        DEFAULT_WATCH_PATHS@[3]@ == "/opt/cognos/intent-engine"@,
        DEFAULT_WATCH_PATHS@[4]@ == "/etc/cognos/agents"@,
        DEFAULT_WATCH_PATHS@[5]@ == "/etc/cognos/hal"@,
        DEFAULT_WATCH_PATHS@[6]@ == "/var/lib/cognos/models"@,
        DEFAULT_WATCH_PATHS@[7]@ == "/var/lib/cognos/capabilities"@,
        DEFAULT_WATCH_PATHS@[8]@ == "/etc/cognos/constitution"@,
{
    if place == "/opt/cognos/agents"@ || place == "/opt/cognos/hal"@ || place == "/opt/cognos/cognitive_preloader"@ || place == "/opt/cognos/intent-engine"@ || place == "/etc/cognos/agents"@ || place == "/etc/cognos/hal"@ || place == "/var/lib/cognos/models"@ || place == "/var/lib/cognos/capabilities"@ || place == "/etc/cognos/constitution"@ {
        assert(is_default_watch(path::parts(place)));
        defaults_are_reviewed(m, place, rest);
    }
    if m.watches(target) {
        let p = choose|p: Seq<Seq<char>>| #[trigger]
            m.watch_paths@.dom().contains(p) && path::leads(p, path::parts(target));
        assert(is_default_watch(p));
    }
}

} // verus!
