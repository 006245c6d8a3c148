//! Caches redundant HAL authority checks.
//!
//! Verdicts on reversible actions are kept in a bounded cache keyed by a
//! digest of the request. Irreversible actions are never cached. The whole
//! cache is dropped whenever policies, trust or capabilities change.

use vstd::prelude::*;
use vstd::string::StringExecFns;

use crate::clock;
use crate::clock::Timestamp;
use crate::digest;
use crate::ident;
use crate::json;
use crate::score::Score;
use crate::sequences;
use crate::table;
use crate::table::Key;
use crate::table::Table;
use crate::text;

verus! {

/// An agent identifier.
pub type AgentId = String;

/// Number of cached verdicts beyond which the oldest goes.
pub const DEFAULT_CACHE_CAPACITY: usize = 1024;

/// How long a cached verdict stays fresh, in seconds.
pub const DEFAULT_TTL_SECS: u64 = 60;

/// A HAL action request, in the minimal shape needed for compression.
#[derive(Clone, Debug)]
pub struct ActionRequest {
    /// Agent proposing the action.
    pub agent: AgentId,
    /// Action name, e.g. "open_file", "query_memory".
    pub action: String,
    /// Target resource path or identifier.
    pub target: String,
    /// Whether the action is irreversible (deletes, kernel writes, etc.).
    pub irreversible: bool,
    /// Parameters, as a JSON text, included in the digest.
    pub parameters: String,
}

/// A SHA-256 digest of an [`ActionRequest`], used as the cache key.
#[derive(Clone, Copy, Debug)]
pub struct ActionDigest(pub [u8; 32]);

impl Key for ActionDigest {
    type Id = Seq<u8>;

    open spec fn id(&self) -> Seq<u8> {
        self.0@
    }

    fn same(&self, other: &Self) -> (r: bool) {
        digest::same_digest(&self.0, &other.0)
    }
}

/// The digest of a request whose parameters have a given compact JSON text:
/// agent, action, target and parameters, separated by zero bytes.
pub open spec fn digest_of(
    agent: Seq<char>,
    action: Seq<char>,
    target: Seq<char>,
    parameters: Seq<char>,
) -> Seq<u8> {
    digest::sha256_of(
        vstd::utf8::encode_utf8(agent) + seq![0u8] + vstd::utf8::encode_utf8(action) + seq![0u8]
            + vstd::utf8::encode_utf8(target) + seq![0u8] + vstd::utf8::encode_utf8(parameters),
    )
}

/// The compact text of parameters; empty where they are no JSON.
pub open spec fn compact_or_empty(compact: Option<Seq<char>>) -> Seq<char> {
    match compact {
        Some(t) => t,
        None => Seq::empty(),
    }
}

/// The digest of a request.
pub open spec fn request_digest(req: ActionRequest) -> Seq<u8> {
    digest_of(
        req.agent@,
        req.action@,
        req.target@,
        compact_or_empty(json::compact_of(req.parameters@)),
    )
}

impl ActionDigest {
    /// The digest of a request whose parameters have a given compact JSON text.
    pub fn with_parameters(req: &ActionRequest, parameters: &str) -> (d: ActionDigest)
        ensures
            d.0@ == digest_of(req.agent@, req.action@, req.target@, parameters@),
    {
        let mut data: Vec<u8> = Vec::new();
        digest::push_bytes(&mut data, req.agent.as_str().as_bytes());
        assert(data@ =~= vstd::utf8::encode_utf8(req.agent@));
        data.push(0);
        assert(data@ =~= vstd::utf8::encode_utf8(req.agent@) + seq![0u8]);
        digest::push_bytes(&mut data, req.action.as_str().as_bytes());
        let ghost g1 = data@;
        data.push(0);
        assert(data@ =~= g1 + seq![0u8]);
        digest::push_bytes(&mut data, req.target.as_str().as_bytes());
        let ghost g2 = data@;
        data.push(0);
        assert(data@ =~= g2 + seq![0u8]);
        digest::push_bytes(&mut data, parameters.as_bytes());
        ActionDigest(digest::sha256(data.as_slice()))
    }

    /// The digest of a request: it covers agent, action, target and
    /// parameters, and not whether the action is irreversible.
    pub fn from_request(req: &ActionRequest) -> (d: ActionDigest)
        ensures
            d.0@ == request_digest(*req),
    {
        match json::compact(req.parameters.as_str()) {
            Some(t) => ActionDigest::with_parameters(req, t.as_str()),
            None => {
                let nothing = String::new();
                ActionDigest::with_parameters(req, nothing.as_str())
            },
        }
    }
}

/// A HAL verdict on an action.
#[derive(Debug)]
pub struct Verdict {
    /// Whether HAL permits the action.
    pub allowed: bool,
    /// Risk score at the time of evaluation.
    pub risk_score: Score,
    /// Human-readable reason for the verdict.
    pub reason: String,
    /// When the verdict was issued.
    pub issued_at: Timestamp,
}

impl Clone for Verdict {
    fn clone(&self) -> (r: Verdict)
        ensures
            r == *self,
    {
        Verdict {
            allowed: self.allowed,
            risk_score: self.risk_score,
            reason: self.reason.clone(),
            issued_at: self.issued_at,
        }
    }
}

/// A cached verdict.
#[derive(Clone, Debug)]
pub struct CachedVerdict {
    /// The underlying verdict.
    pub verdict: Verdict,
    /// The digest that was matched.
    pub digest: ActionDigest,
    /// When this cached entry was stored.
    pub cached_at: Timestamp,
    /// Number of times this cached entry has been hit.
    pub hit_count: u64,
}

/// Reasons the authority cache may be invalidated.
#[derive(Clone, Copy, Debug, PartialEq, Eq, Structural)]
pub enum InvalidationReason {
    /// The active policy set changed.
    PolicyChanged,
    /// The global trust state changed (e.g. user calibration update).
    TrustChanged,
    /// A capability was revoked from some agent.
    CapabilityRevoked,
    /// Operator-initiated manual flush.
    ManualFlush,
}

/// A bounded cache that drops its oldest entry when a new one does not fit.
#[derive(Debug)]
pub struct LruCache<K: Key, V> {
    inner: Table<K, V>,
    capacity: usize,
}

impl<K: Key, V> View for LruCache<K, V> {
    type V = Map<K::Id, V>;

    closed spec fn view(&self) -> Map<K::Id, V> {
        self.inner@
    }
}

impl<K: Key, V> LruCache<K, V> {
    /// The keys, oldest first.
    pub closed spec fn order(&self) -> Seq<K::Id> {
        self.inner.ids()
    }

    /// The number of entries that the cache is made for.
    pub closed spec fn limit(&self) -> nat {
        self.capacity as nat
    }

    /// A cache for a number of entries.
    pub fn new(capacity: usize) -> (c: LruCache<K, V>)
        ensures
            c@ == Map::<K::Id, V>::empty(),
            c.order() == Seq::<K::Id>::empty(),
            c.limit() == capacity,
    {
        LruCache { inner: Table::new(), capacity }
    }

    /// Inserts a pair. A new key that does not fit drops the oldest entry.
    pub fn insert(&mut self, key: K, value: V)
        ensures
            final(self).limit() == old(self).limit(),
            if old(self)@.dom().contains(key.id()) {
                &&& final(self)@ == old(self)@.insert(key.id(), value)
                &&& final(self).order() == old(self).order()
            } else if old(self).order().len() >= old(self).limit() && old(self).order().len() > 0 {
                &&& final(self)@ == old(self)@.remove(old(self).order()[0]).insert(key.id(), value)
                &&& final(self).order() == old(self).order().drop_first().push(key.id())
            } else {
                &&& final(self)@ == old(self)@.insert(key.id(), value)
                &&& final(self).order() == old(self).order().push(key.id())
            },
    {
        if !self.inner.contains_key(&key) {
            let n: usize = self.inner.len();
            if n >= self.capacity && n > 0 {
                let ghost ids = self.inner.ids();
                let _ = self.inner.remove_at(0);
                assert(ids.remove(0) =~= ids.drop_first());
            }
        }
        self.inner.insert(key, value);
    }

    /// The value of a key.
    pub fn get(&self, key: &K) -> (r: Option<&V>)
        ensures
            match r {
                Some(v) => self@.dom().contains(key.id()) && *v == self@[key.id()],
                None => !self@.dom().contains(key.id()),
            },
    {
        self.inner.get(key)
    }

    /// The value of a key, to be changed.
    pub fn get_mut(&mut self, key: &K) -> (r: Option<&mut V>)
        ensures
            final(self).limit() == old(self).limit(),
            match r {
                Some(v) => {
                    &&& old(self)@.dom().contains(key.id())
                    &&& *v == old(self)@[key.id()]
                    &&& final(self)@ == old(self)@.insert(key.id(), *final(v))
                    &&& final(self).order() == old(self).order()
                },
                None => {
                    &&& !old(self)@.dom().contains(key.id())
                    &&& final(self)@ == old(self)@
                    &&& final(self).order() == old(self).order()
                },
            },
    {
        self.inner.get_mut(key)
    }

    /// Number of entries.
    pub fn len(&self) -> (n: usize)
        ensures
            n == self.order().len(),
            n == self@.dom().len(),
    {
        self.inner.len()
    }

    /// Whether there are no entries.
    pub fn is_empty(&self) -> (r: bool)
        ensures
            r == (self.order().len() == 0),
    {
        self.inner.len() == 0
    }

    /// Removes every entry.
    pub fn clear(&mut self)
        ensures
            final(self)@ == Map::<K::Id, V>::empty(),
            final(self).order() == Seq::<K::Id>::empty(),
            final(self).limit() == old(self).limit(),
    {
        self.inner.clear();
    }
}

/// The order of a cache lists each of its keys exactly once.
pub proof fn order_lists_cached<K: Key, V>(c: LruCache<K, V>)
    ensures
        sequences::enumerates(c.order(), c@.dom()),
        c@.dom().len() == c.order().len(),
{
    table::order_lists_keys(c.inner);
}

/// A cached verdict with the number of its hits.
#[derive(Debug)]
pub struct CacheLine {
    /// The verdict.
    pub verdict: Verdict,
    /// How often it was hit.
    pub hits: u64,
}

/// The authority compressor.
#[derive(Debug)]
pub struct AuthorityCompressor {
    cache: LruCache<ActionDigest, CacheLine>,
    ttl_secs: u64,
}

/// Whether a verdict of an age in seconds is still fresh. A negative age
/// counts as a very great one, as its 64-bit pattern does.
pub open spec fn is_fresh(age: int, ttl: int) -> bool {
    if age >= 0 {
        age <= ttl
    } else {
        age + 18_446_744_073_709_551_616 <= ttl
    }
}

/// A count after one more, which stays at the greatest count.
pub open spec fn bumped(hits: u64) -> int {
    if hits == u64::MAX {
        u64::MAX as int
    } else {
        hits + 1
    }
}

/// The line that a lookup of a request finds at a time, with the hit counted:
/// none for an irreversible action, and none that is no longer fresh.
pub open spec fn hit_of(
    lines: Map<Seq<u8>, CacheLine>,
    ttl: int,
    request: ActionRequest,
    now: Timestamp,
) -> Option<CacheLine> {
    let d = request_digest(request);
    let line = lines[d];
    if !request.irreversible && lines.dom().contains(d) && is_fresh(
        clock::seconds_between(line.verdict.issued_at, now),
        ttl,
    ) {
        Some(CacheLine { verdict: line.verdict, hits: bumped(line.hits) as u64 })
    } else {
        None
    }
}

/// The order after an insertion: a new key goes to the end, and the oldest goes
/// where it does not fit.
pub open spec fn order_after<A>(order: Seq<A>, present: bool, limit: nat, key: A) -> Seq<A> {
    if present {
        order
    } else if order.len() >= limit && order.len() > 0 {
        order.drop_first().push(key)
    } else {
        order.push(key)
    }
}

/// The lines after a verdict on a request is stored.
pub open spec fn lines_after(
    lines: Map<Seq<u8>, CacheLine>,
    order: Seq<Seq<u8>>,
    limit: nat,
    request: ActionRequest,
    verdict: Verdict,
) -> Map<Seq<u8>, CacheLine> {
    let d = request_digest(request);
    let line = CacheLine { verdict, hits: 0 };
    if request.irreversible {
        lines
    } else if !lines.dom().contains(d) && order.len() >= limit && order.len() > 0 {
        lines.remove(order[0]).insert(d, line)
    } else {
        lines.insert(d, line)
    }
}

impl AuthorityCompressor {
    /// The cached verdicts by digest.
    pub closed spec fn lines(&self) -> Map<Seq<u8>, CacheLine> {
        self.cache@
    }

    /// The digests of cached verdicts, oldest first.
    pub closed spec fn order(&self) -> Seq<Seq<u8>> {
        self.cache.order()
    }

    /// The number of verdicts that the cache is made for.
    pub closed spec fn limit(&self) -> nat {
        self.cache.limit()
    }

    /// How long a verdict stays fresh, in seconds.
    pub closed spec fn ttl(&self) -> int {
        self.ttl_secs as int
    }

    /// A compressor with the default capacity and time to live.
    pub fn new() -> (c: AuthorityCompressor)
        ensures
            c.lines() == Map::<Seq<u8>, CacheLine>::empty(),
            c.order() == Seq::<Seq<u8>>::empty(),
            c.limit() == DEFAULT_CACHE_CAPACITY,
            c.ttl() == DEFAULT_TTL_SECS,
    {
        AuthorityCompressor::with_capacity_and_ttl(DEFAULT_CACHE_CAPACITY, DEFAULT_TTL_SECS)
    }

    /// A compressor with a given capacity and time to live in seconds.
    pub fn with_capacity_and_ttl(capacity: usize, ttl_secs: u64) -> (c: AuthorityCompressor)
        ensures
            c.lines() == Map::<Seq<u8>, CacheLine>::empty(),
            c.order() == Seq::<Seq<u8>>::empty(),
            c.limit() == capacity,
            c.ttl() == ttl_secs,
    {
        AuthorityCompressor { cache: LruCache::new(capacity), ttl_secs }
    }

    /// Looks a digest up at a given time: a fresh verdict is returned and its
    /// hit counted.
    pub fn lookup_at(&mut self, digest: ActionDigest, now: Timestamp) -> (r: Option<CachedVerdict>)
        ensures
            final(self).ttl() == old(self).ttl(),
            final(self).limit() == old(self).limit(),
            final(self).order() == old(self).order(),
            ({
                let d = digest.0@;
                let line = old(self).lines()[d];
                if old(self).lines().dom().contains(d) && is_fresh(
                    clock::seconds_between(line.verdict.issued_at, now),
                    old(self).ttl(),
                ) {
                    &&& r matches Some(hit)
                    &&& hit.verdict == line.verdict
                    &&& hit.digest == digest
                    &&& hit.cached_at == line.verdict.issued_at
                    &&& hit.hit_count == bumped(line.hits)
                    &&& final(self).lines() == old(self).lines().insert(
                        d,
                        (CacheLine { verdict: line.verdict, hits: hit.hit_count }),
                    )
                } else {
                    &&& r is None
                    &&& final(self).lines() == old(self).lines()
                }
            }),
    {
        let ttl: u64 = self.ttl_secs;
        let fresh = match self.cache.get(&digest) {
            Some(line) => {
                let age: i64 = now.seconds_since(&line.verdict.issued_at);
                if age >= 0 {
                    age as u64 <= ttl
                } else {
                    age as i128 + 18_446_744_073_709_551_616 <= ttl as i128
                }
            },
            None => false,
        };
        if !fresh {
            return None;
        }
        let ghost before = self.cache@;
        match self.cache.get_mut(&digest) {
            Some(line) => {
                if line.hits < u64::MAX {
                    line.hits = line.hits + 1;
                }
                Some(
                    CachedVerdict {
                        verdict: line.verdict.clone(),
                        digest,
                        cached_at: line.verdict.issued_at,
                        hit_count: line.hits,
                    },
                )
            },
            None => None,
        }
    }

    /// A cached verdict on a request, at a given time. There is none for an
    /// irreversible action.
    pub fn compress_at(&mut self, request: &ActionRequest, now: Timestamp) -> (r: Option<
        CachedVerdict,
    >)
        ensures
            final(self).ttl() == old(self).ttl(),
            final(self).limit() == old(self).limit(),
            final(self).order() == old(self).order(),
            match hit_of(old(self).lines(), old(self).ttl(), *request, now) {
                Some(line) => {
                    &&& r matches Some(hit)
                    &&& hit.verdict == line.verdict
                    &&& hit.digest.0@ == request_digest(*request)
                    &&& hit.cached_at == line.verdict.issued_at
                    &&& hit.hit_count == line.hits
                    &&& final(self).lines() == old(self).lines().insert(
                        request_digest(*request),
                        line,
                    )
                },
                None => {
                    &&& r is None
                    &&& final(self).lines() == old(self).lines()
                },
            },
    {
        if request.irreversible {
            return None;
        }
        self.lookup_at(ActionDigest::from_request(request), now)
    }

    /// A cached verdict on a request, now.
    pub fn compress(&mut self, request: &ActionRequest) -> (r: Option<CachedVerdict>)
        ensures
            final(self).ttl() == old(self).ttl(),
            final(self).limit() == old(self).limit(),
            final(self).order() == old(self).order(),
            request.irreversible ==> r is None,
            match r {
                Some(hit) => exists|now: Timestamp|
                    {
                        let found = #[trigger] hit_of(
                            old(self).lines(),
                            old(self).ttl(),
                            *request,
                            now,
                        );
                        &&& found matches Some(line)
                        &&& hit.verdict == line.verdict
                        &&& hit.digest.0@ == request_digest(*request)
                        &&& hit.cached_at == line.verdict.issued_at
                        &&& hit.hit_count == line.hits
                        &&& final(self).lines() == old(self).lines().insert(
                            request_digest(*request),
                            line,
                        )
                    },
                None => {
                    &&& final(self).lines() == old(self).lines()
                    &&& exists|now: Timestamp| #[trigger]
                        hit_of(old(self).lines(), old(self).ttl(), *request, now) is None
                },
            },
    {
        let now = Timestamp::now();
        self.compress_at(request, now)
    }

    /// Stores a fresh verdict on a request; one on an irreversible action is
    /// ignored. The count of its hits starts anew.
    pub fn store(&mut self, request: &ActionRequest, verdict: Verdict)
        ensures
            final(self).ttl() == old(self).ttl(),
            final(self).limit() == old(self).limit(),
            final(self).lines() == lines_after(
                old(self).lines(),
                old(self).order(),
                old(self).limit(),
                *request,
                verdict,
            ),
            final(self).order() == (if request.irreversible {
                old(self).order()
            } else {
                order_after(
                    old(self).order(),
                    old(self).lines().dom().contains(request_digest(*request)),
                    old(self).limit(),
                    request_digest(*request),
                )
            }),
    {
        if request.irreversible {
            return;
        }
        let digest = ActionDigest::from_request(request);
        self.cache.insert(digest, CacheLine { verdict, hits: 0 });
    }

    /// Drops the entire cache, whatever the reason.
    pub fn invalidate(&mut self, reason: InvalidationReason)
        ensures
            final(self).lines() == Map::<Seq<u8>, CacheLine>::empty(),
            final(self).order() == Seq::<Seq<u8>>::empty(),
            final(self).ttl() == old(self).ttl(),
            final(self).limit() == old(self).limit(),
    {
        self.cache.clear();
    }

    /// Number of cached verdicts.
    pub fn len(&self) -> (n: usize)
        ensures
            n == self.order().len(),
            n == self.lines().dom().len(),
    {
        self.cache.len()
    }

    /// Whether nothing is cached.
    pub fn is_empty(&self) -> (r: bool)
        ensures
            r == (self.order().len() == 0),
    {
        self.cache.is_empty()
    }
}

impl Default for AuthorityCompressor {
    fn default() -> (c: AuthorityCompressor)
        ensures
            c.lines() == Map::<Seq<u8>, CacheLine>::empty(),
            c.order() == Seq::<Seq<u8>>::empty(),
            c.limit() == DEFAULT_CACHE_CAPACITY,
            c.ttl() == DEFAULT_TTL_SECS,
    {
        AuthorityCompressor::new()
    }
}

/// Errors produced by the authority compressor.
#[derive(Clone, Debug)]
pub enum AuthorityCompressorError {
    /// Action could not be serialized for digesting.
    Serialization(String),
}

/// A fresh random correlation id for a cache-miss flow.
pub fn new_correlation_id() -> (id: u128)
    ensures
        ident::is_random_uuid(id),
{
    ident::new_uuid()
}

/// A cache never holds more entries than it is made for, or one where it is
/// made for none.
pub proof fn cache_is_bounded<A>(order: Seq<A>, present: bool, limit: nat, key: A)
    requires
        order.len() <= limit || order.len() <= 1,
    ensures
        ({
            let after = order_after(order, present, limit, key);
            after.len() <= limit || after.len() <= 1
        }),
{
}

/// A verdict that was stored comes back as long as it is fresh, with its first
/// hit counted, and never after the cache was dropped.
pub proof fn stored_verdicts_come_back(
    lines: Map<Seq<u8>, CacheLine>,
    order: Seq<Seq<u8>>,
    limit: nat,
    ttl: int,
    request: ActionRequest,
    verdict: Verdict,
    now: Timestamp,
)
    requires
        !request.irreversible,
    ensures
        hit_of(lines_after(lines, order, limit, request, verdict), ttl, request, now) == (
        if is_fresh(clock::seconds_between(verdict.issued_at, now), ttl) {
            Some(CacheLine { verdict, hits: 1 })
        } else {
            None
        }),
        hit_of(Map::<Seq<u8>, CacheLine>::empty(), ttl, request, now) is None,
{
}

/// An irreversible action is never cached: no verdict on it is stored, and none
/// is found.
pub proof fn irreversible_is_never_cached(
    lines: Map<Seq<u8>, CacheLine>,
    order: Seq<Seq<u8>>,
    limit: nat,
    ttl: int,
    request: ActionRequest,
    verdict: Verdict,
    now: Timestamp,
)
    requires
        request.irreversible,
    ensures
        lines_after(lines, order, limit, request, verdict) == lines,
        hit_of(lines, ttl, request, now) is None,
{
}

/// A new cache holds a verdict for a minute, and a thousand and twenty-four of
/// them.
pub proof fn default_cache_limits()
    ensures
        DEFAULT_TTL_SECS == 60,
        DEFAULT_CACHE_CAPACITY == 1024,
{
}

/// A verdict is fresh from its issue until its time is up; one that was issued
/// in the future is not.
pub proof fn freshness_runs_out(age: int, ttl: int)
    requires
        -9_223_372_036_854_775_808 <= age,
        0 <= ttl < 9_223_372_036_854_775_808,
    ensures
        is_fresh(age, ttl) <==> 0 <= age <= ttl,
{
}

/// What a lookup gives is the stored verdict, counted once more, of a request
/// that can be undone, while it is fresh; nothing else is ever given.
pub proof fn hits_are_stored_and_fresh(
    lines: Map<Seq<u8>, CacheLine>,
    ttl: int,
    request: ActionRequest,
    now: Timestamp,
)
    requires
        0 <= ttl,
    ensures
        hit_of(lines, ttl, request, now) matches Some(line) ==> {
            let d = request_digest(request);
            &&& !request.irreversible
            &&& lines.dom().contains(d)
            &&& line.verdict == lines[d].verdict
            &&& lines[d].hits < u64::MAX ==> line.hits == lines[d].hits + 1
            &&& clock::seconds_between(lines[d].verdict.issued_at, now) <= ttl
        },
        !request.irreversible && lines.dom().contains(request_digest(request)) && 0
            <= clock::seconds_between(lines[request_digest(request)].verdict.issued_at, now) <= ttl
            ==> hit_of(lines, ttl, request, now) is Some,
{
}

/// Storing a verdict replaces at most the oldest line, and only in a full cache.
pub proof fn storing_drops_only_the_oldest(
    lines: Map<Seq<u8>, CacheLine>,
    order: Seq<Seq<u8>>,
    limit: nat,
    request: ActionRequest,
    verdict: Verdict,
    k: Seq<u8>,
)
    requires
        k != request_digest(request),
        lines.dom().contains(k),
        order.len() < limit || (order.len() > 0 && k != order[0]),
    ensures
        lines_after(lines, order, limit, request, verdict).dom().contains(k),
        lines_after(lines, order, limit, request, verdict)[k] == lines[k],
{
}

/// To move text from the end of one part of a request to the start of the next
/// changes the digest, unless two byte strings are found with one digest.
pub proof fn parts_are_kept_apart(
    a: Seq<char>,
    x: Seq<char>,
    b: Seq<char>,
    t: Seq<char>,
    p: Seq<char>,
)
    requires
        vstd::utf8::encode_utf8(x).len() > 0,
        vstd::utf8::encode_utf8(x)[0] != 0,
    ensures
        digest_of(a + x, b, t, p) != digest_of(a, x + b, t, p) || exists|y: Seq<u8>, z: Seq<u8>|
            y != z && #[trigger] digest::sha256_of(y) == #[trigger] digest::sha256_of(z),
        digest_of(a, b + x, t, p) != digest_of(a, b, x + t, p) || exists|y: Seq<u8>, z: Seq<u8>|
            y != z && #[trigger] digest::sha256_of(y) == #[trigger] digest::sha256_of(z),
        digest_of(a, b, t + x, p) != digest_of(a, b, t, x + p) || exists|y: Seq<u8>, z: Seq<u8>|
            y != z && #[trigger] digest::sha256_of(y) == #[trigger] digest::sha256_of(z),
{
    let ea = vstd::utf8::encode_utf8(a);
    let ex = vstd::utf8::encode_utf8(x);
    let eb = vstd::utf8::encode_utf8(b);
    let et = vstd::utf8::encode_utf8(t);
    let ep = vstd::utf8::encode_utf8(p);
    let o = seq![0u8];
    text::encodings_join(a, x);
    text::encodings_join(x, b);
    text::encodings_join(b, x);
    text::encodings_join(x, t);
    text::encodings_join(t, x);
    text::encodings_join(x, p);
    let y1 = ea + ex + o + eb + o + et + o + ep;
    let z1 = ea + o + (ex + eb) + o + et + o + ep;
    assert(y1[ea.len() as int] == ex[0]);
    assert(z1[ea.len() as int] == 0);
    let y2 = ea + o + (eb + ex) + o + et + o + ep;
    let z2 = ea + o + eb + o + (ex + et) + o + ep;
    assert(y2[(ea.len() + 1 + eb.len()) as int] == ex[0]);
    assert(z2[(ea.len() + 1 + eb.len()) as int] == 0);
    let y3 = ea + o + eb + o + (et + ex) + o + ep;
    let z3 = ea + o + eb + o + et + o + (ex + ep);
    assert(y3[(ea.len() + 2 + eb.len() + et.len()) as int] == ex[0]);
    assert(z3[(ea.len() + 2 + eb.len() + et.len()) as int] == 0);
}

} // verus!
