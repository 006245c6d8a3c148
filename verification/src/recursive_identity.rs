//! Stable identities across self-improvement: an identity hash over
//! constitution, capabilities and audit head, and the lineage of forks.

use vstd::prelude::*;
use vstd::string::StringExecFns;

use crate::audit_chain;
use crate::clock::Timestamp;
use crate::digest;
use crate::text;

verus! {

/// An agent identifier.
pub type AgentId = String;

/// A SHA-256 identity hash.
#[derive(Clone, Copy, Debug, PartialEq, Eq, Hash)]
pub struct IdentityHash(pub [u8; 32]);

/// The bytes that begin what an identity hash covers:
/// `cognos-identity-v1` and a zero byte.
pub open spec fn identity_prefix() -> Seq<u8> {
    seq![
        99u8,
        111,
        103,
        110,
        111,
        115,
        45,
        105,
        100,
        101,
        110,
        116,
        105,
        116,
        121,
        45,
        118,
        49,
        0,
    ]
}

/// What an identity hash covers: the prefix, the constitution, the
/// capabilities and the audit head, with a zero byte behind each of the
/// middle two.
pub open spec fn identity_data(
    constitution: Seq<u8>,
    capabilities: Seq<u8>,
    audit_head: Seq<u8>,
) -> Seq<u8> {
    identity_prefix() + constitution + seq![0u8] + capabilities + seq![0u8] + audit_head
}

impl IdentityHash {
    /// The all-zero identity hash, which marks an identity that is not set.
    pub fn zero() -> (h: IdentityHash)
        ensures
            h.0@ == Seq::new(32, |i: int| 0u8),
    {
        let h = IdentityHash([0u8; 32]);
        assert(h.0@ =~= Seq::new(32, |i: int| 0u8));
        h
    }

    /// The identity hash of a constitution, capabilities and an audit head.
    pub fn compute(
        constitution_blob: &[u8],
        capabilities_blob: &[u8],
        audit_head: &[u8; 32],
    ) -> (h: IdentityHash)
        ensures
            h.0@ == digest::sha256_of(
                identity_data(constitution_blob@, capabilities_blob@, audit_head@),
            ),
    {
        let prefix: [u8; 19] = [
            99,
            111,
            103,
            110,
            111,
            115,
            45,
            105,
            100,
            101,
            110,
            116,
            105,
            116,
            121,
            45,
            118,
            49,
            0,
        ];
        let mut data: Vec<u8> = Vec::new();
        digest::push_bytes(&mut data, prefix.as_slice());
        assert(data@ =~= identity_prefix());
        digest::push_bytes(&mut data, constitution_blob);
        let ghost g1 = data@;
        data.push(0);
        assert(data@ =~= g1 + seq![0u8]);
        digest::push_bytes(&mut data, capabilities_blob);
        let ghost g2 = data@;
        data.push(0);
        assert(data@ =~= g2 + seq![0u8]);
        digest::push_bytes(&mut data, audit_head.as_slice());
        IdentityHash(digest::sha256(data.as_slice()))
    }

    /// Lower-case hexadecimal notation.
    pub fn to_text(&self) -> (t: String)
        ensures
            t@ == digest::hex_of(self.0@),
    {
        digest::hex_encode(self.0.as_slice())
    }

    /// Whether two hashes are the same.
    pub fn same(&self, other: &IdentityHash) -> (r: bool)
        ensures
            r == (self.0@ == other.0@),
    {
        digest::same_digest(&self.0, &other.0)
    }
}

/// The bytes of identity hashes, one by one.
pub open spec fn hashes(s: Seq<IdentityHash>) -> Seq<Seq<u8>> {
    Seq::new(s.len(), |i: int| s[i].0@)
}

/// Errors returned by the recursive identity module.
#[derive(Clone, Copy, Debug)]
pub enum IdentityError {
    /// The candidate identity hash did not match the expected one.
    Mismatch {
        /// The expected identity hash.
        expected: IdentityHash,
        /// The candidate identity hash.
        actual: IdentityHash,
    },
    /// The lineage chain is too deep (exceeds the configured maximum).
    LineageTooDeep {
        /// Current lineage depth.
        depth: usize,
        /// Configured maximum.
        max: usize,
    },
}

impl IdentityError {
    /// The error as one line.
    pub fn to_text(&self) -> (t: String)
        ensures
            t@ == (match *self {
                IdentityError::Mismatch { expected, actual } => "identity mismatch: expected "@
                    + digest::hex_of(expected.0@) + ", got "@ + digest::hex_of(actual.0@),
                IdentityError::LineageTooDeep { depth, max } => "lineage too deep: "@
                    + text::decimal_digits(depth as nat) + " >= max "@ + text::decimal_digits(
                    max as nat,
                ),
            }),
    {
        match self {
            IdentityError::Mismatch { expected, actual } => {
                let mut t = String::from_str("identity mismatch: expected ");
                let e = expected.to_text();
                t.append(e.as_str());
                t.append(", got ");
                let a = actual.to_text();
                t.append(a.as_str());
                t
            },
            IdentityError::LineageTooDeep { depth, max } => {
                let mut t = String::from_str("lineage too deep: ");
                let d = text::decimal(*depth as u64);
                t.append(d.as_str());
                t.append(" >= max ");
                let m = text::decimal(*max as u64);
                t.append(m.as_str());
                t
            },
        }
    }
}

/// The identity anchor for an agent, plus its full lineage.
#[derive(Debug)]
pub struct RecursiveIdentity {
    /// This agent's identity hash.
    pub identity_root: IdentityHash,
    /// The ancestor identity hashes, oldest first; the last one is the parent.
    pub lineage: Vec<IdentityHash>,
    /// When the root hash was last set.
    pub established_at: Timestamp,
}

impl RecursiveIdentity {
    /// Whether an identity is descended from an ancestor: it stands in the
    /// lineage or is the identity itself.
    pub open spec fn descends(&self, ancestor: Seq<u8>) -> bool {
        hashes(self.lineage@).contains(ancestor) || self.identity_root.0@ == ancestor
    }

    /// A root identity at a time.
    pub fn root_at(identity_root: IdentityHash, now: Timestamp) -> (i: RecursiveIdentity)
        ensures
            i.identity_root == identity_root,
            i.lineage@ == Seq::<IdentityHash>::empty(),
            i.established_at == now,
    {
        RecursiveIdentity { identity_root, lineage: Vec::new(), established_at: now }
    }

    /// A root identity, without ancestors, now.
    pub fn root(identity_root: IdentityHash) -> (i: RecursiveIdentity)
        ensures
            i.identity_root == identity_root,
            i.lineage@ == Seq::<IdentityHash>::empty(),
    {
        RecursiveIdentity::root_at(identity_root, Timestamp::now())
    }

    /// Whether a candidate hash is this identity.
    pub fn verify_identity(&self, candidate: IdentityHash) -> (r: Result<(), IdentityError>)
        ensures
            r is Ok <==> candidate.0@ == self.identity_root.0@,
            r matches Err(e) ==> e == (IdentityError::Mismatch {
                expected: self.identity_root,
                actual: candidate,
            }),
    {
        if candidate.same(&self.identity_root) {
            Ok(())
        } else {
            Err(IdentityError::Mismatch { expected: self.identity_root, actual: candidate })
        }
    }

    /// A fork of this identity at a time: its lineage is this lineage and this
    /// root. The fork keeps the root until it gets one of its own.
    pub fn fork_at(&mut self, now: Timestamp) -> (child: RecursiveIdentity)
        ensures
            *final(self) == *old(self),
            child.identity_root == old(self).identity_root,
            child.lineage@ == old(self).lineage@.push(old(self).identity_root),
            child.established_at == now,
    {
        let mut lineage: Vec<IdentityHash> = Vec::new();
        let mut i: usize = 0;
        while i < self.lineage.len()
            invariant
                i <= self.lineage@.len(),
                lineage@ == self.lineage@.take(i as int),
            decreases self.lineage@.len() - i,
        {
            lineage.push(self.lineage[i]);
            i += 1;
            assert(lineage@ =~= self.lineage@.take(i as int));
        }
        assert(self.lineage@.take(self.lineage@.len() as int) =~= self.lineage@);
        lineage.push(self.identity_root);
        RecursiveIdentity { identity_root: self.identity_root, lineage, established_at: now }
    }

    /// A fork of this identity, now.
    pub fn fork(&mut self) -> (child: RecursiveIdentity)
        ensures
            *final(self) == *old(self),
            child.identity_root == old(self).identity_root,
            child.lineage@ == old(self).lineage@.push(old(self).identity_root),
    {
        self.fork_at(Timestamp::now())
    }

    /// Sets the root at a time; a root that is the same changes nothing.
    pub fn set_root_at(&mut self, new_root: IdentityHash, now: Timestamp)
        ensures
            final(self).lineage == old(self).lineage,
            final(self).identity_root.0@ == new_root.0@,
            old(self).identity_root.0@ == new_root.0@ ==> *final(self) == *old(self),
            old(self).identity_root.0@ != new_root.0@ ==> final(self).established_at == now,
    {
        if !new_root.same(&self.identity_root) {
            self.identity_root = new_root;
            self.established_at = now;
        }
    }

    /// Sets the root, now; a root that is the same changes nothing.
    pub fn set_root(&mut self, new_root: IdentityHash)
        ensures
            final(self).lineage == old(self).lineage,
            final(self).identity_root.0@ == new_root.0@,
            old(self).identity_root.0@ == new_root.0@ ==> *final(self) == *old(self),
    {
        self.set_root_at(new_root, Timestamp::now());
    }

    /// The number of ancestors.
    pub fn lineage_depth(&self) -> (n: usize)
        ensures
            n == self.lineage@.len(),
    {
        self.lineage.len()
    }

    /// The immediate parent.
    pub fn parent(&self) -> (r: Option<IdentityHash>)
        ensures
            r == (if self.lineage@.len() == 0 {
                None::<IdentityHash>
            } else {
                Some(self.lineage@.last())
            }),
    {
        let n: usize = self.lineage.len();
        if n == 0 {
            None
        } else {
            Some(self.lineage[n - 1])
        }
    }

    /// Whether this identity is descended from an ancestor.
    pub fn is_descended_from(&self, ancestor: IdentityHash) -> (r: bool)
        ensures
            r == self.descends(ancestor.0@),
    {
        let ghost all = hashes(self.lineage@);
        let mut i: usize = 0;
        while i < self.lineage.len()
            invariant
                i <= self.lineage@.len(),
                all == hashes(self.lineage@),
                forall|j: int| 0 <= j < i ==> #[trigger] all[j] != ancestor.0@,
            decreases self.lineage@.len() - i,
        {
            if self.lineage[i].same(&ancestor) {
                assert(all[i as int] == ancestor.0@);
                return true;
            }
            assert(all[i as int] != ancestor.0@);
            i += 1;
        }
        self.identity_root.same(&ancestor)
    }
}

/// A fork is descended from the identity and from all that the identity is
/// descended from, and stays so whatever root it gets.
pub proof fn forks_keep_their_ancestry(
    parent: RecursiveIdentity,
    child: RecursiveIdentity,
    ancestor: Seq<u8>,
)
    requires
        child.lineage@ == parent.lineage@.push(parent.identity_root),
        parent.descends(ancestor),
    ensures
        child.descends(ancestor),
        child.lineage@.len() == parent.lineage@.len() + 1,
        child.lineage@.last() == parent.identity_root,
{
    let all = hashes(child.lineage@);
    let old_all = hashes(parent.lineage@);
    if old_all.contains(ancestor) {
        let i = choose|i: int| 0 <= i < old_all.len() && old_all[i] == ancestor;
        assert(all[i] == ancestor);
    } else {
        assert(all[all.len() - 1] == ancestor);
    }
}

/// Where the constitutions hold no zero byte, equal identity hashes mean equal
/// constitutions, capabilities and audit heads, or a SHA-256 collision.
pub proof fn same_hash_same_parts(
    c1: Seq<u8>,
    k1: Seq<u8>,
    h1: Seq<u8>,
    c2: Seq<u8>,
    k2: Seq<u8>,
    h2: Seq<u8>,
)
    requires
        h1.len() == 32,
        h2.len() == 32,
        forall|i: int| 0 <= i < c1.len() ==> c1[i] != 0,
        forall|i: int| 0 <= i < c2.len() ==> c2[i] != 0,
        digest::sha256_of(identity_data(c1, k1, h1)) == digest::sha256_of(
            identity_data(c2, k2, h2),
        ),
    ensures
        (c1 == c2 && k1 == k2 && h1 == h2) || audit_chain::collision(
            identity_data(c1, k1, h1),
            identity_data(c2, k2, h2),
        ),
{
    let d1 = identity_data(c1, k1, h1);
    let d2 = identity_data(c2, k2, h2);
    if d1 == d2 {
        let p = identity_prefix().len() as int;
        if c1.len() < c2.len() {
            assert(d1[p + c1.len()] == 0);
            assert(d2[p + c1.len()] == c2[c1.len() as int]);
        }
        if c2.len() < c1.len() {
            assert(d2[p + c2.len()] == 0);
            assert(d1[p + c2.len()] == c1[c2.len() as int]);
        }
        assert forall|i: int| 0 <= i < c1.len() implies c1[i] == c2[i] by {
            assert(d1[p + i] == c1[i]);
            assert(d2[p + i] == c2[i]);
        }
        assert(c1 =~= c2);
        let q = p + c1.len() + 1;
        assert(d1.len() == q + k1.len() + 1 + 32);
        assert(d2.len() == q + k2.len() + 1 + 32);
        assert forall|i: int| 0 <= i < k1.len() implies k1[i] == k2[i] by {
            assert(d1[q + i] == k1[i]);
            assert(d2[q + i] == k2[i]);
        }
        assert(k1 =~= k2);
        let r = q + k1.len() + 1;
        assert forall|i: int| 0 <= i < 32 implies h1[i] == h2[i] by {
            assert(d1[r + i] == h1[i]);
            assert(d2[r + i] == h2[i]);
        }
        assert(h1 =~= h2);
    }
}

/// What is hashed opens with the letters of `cognos-identity-v1` and a zero, and
/// the two texts after it each end in a zero.
pub proof fn identities_are_labelled(
    constitution: Seq<u8>,
    capabilities: Seq<u8>,
    audit_head: Seq<u8>,
)
    ensures
        ({
            let d = identity_data(constitution, capabilities, audit_head);
            let label = "cognos-identity-v1"@;
            let c = constitution.len() as int;
            let k = capabilities.len() as int;
            &&& label.len() == 18
            &&& forall|i: int| 0 <= i < 18 ==> #[trigger] d[i] as int == label[i] as int
            &&& d[18] == 0
            &&& d.subrange(19, 19 + c) == constitution
            &&& d[19 + c] == 0
            &&& d.subrange(20 + c, 20 + c + k) == capabilities
            &&& d[20 + c + k] == 0
            &&& d.subrange(21 + c + k, d.len() as int) == audit_head
        }),
{
    reveal_strlit("cognos-identity-v1");
    let d = identity_data(constitution, capabilities, audit_head);
    let p = identity_prefix();
    assert(p.len() == 19);
    let label = "cognos-identity-v1"@;
    assert forall|i: int| 0 <= i < 18 implies #[trigger] d[i] as int == label[i] as int by {
        assert(d[i] == p[i]);
    }
    let c = constitution.len() as int;
    let k = capabilities.len() as int;
    assert(d[18] == p[18]);
    assert(d.subrange(19, 19 + c) =~= constitution);
    assert(d.subrange(20 + c, 20 + c + k) =~= capabilities);
    assert(d.subrange(21 + c + k, d.len() as int) =~= audit_head);
}

/// Who descends from an identity: itself, and whoever names it in its lineage.
pub proof fn descent_is_named(r: RecursiveIdentity, i: int, ancestor: Seq<u8>)
    ensures
        r.descends(r.identity_root.0@),
        0 <= i < r.lineage@.len() ==> r.descends(r.lineage@[i].0@),
        r.descends(ancestor) ==> ancestor == r.identity_root.0@ || exists|k: int|
            0 <= k < r.lineage@.len() && (#[trigger] r.lineage@[k]).0@ == ancestor,
{
    let h = hashes(r.lineage@);
    if 0 <= i < r.lineage@.len() {
        assert(h[i] == r.lineage@[i].0@);
    }
    if r.descends(ancestor) && ancestor != r.identity_root.0@ {
        let k = choose|k: int| 0 <= k < h.len() && h[k] == ancestor;
        assert(r.lineage@[k].0@ == ancestor);
    }
}

} // verus!
