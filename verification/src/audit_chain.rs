//! Tamper-evident hash-chained audit log in memory.
//!
//! Each entry is hashed, with SHA-256, over the hash of the entry before it and
//! its own JSON text. The chain works on those texts: whoever appends or
//! verifies hands in each entry's serialization, or the error that
//! serializing it gave.

use vstd::prelude::*;
use vstd::string::StringExecFns;

use crate::clock::Timestamp;
use crate::digest;
use crate::digest::same_digest;
use crate::digest::sha256;
use crate::score::Score;
use crate::table::Table;
use crate::text;

verus! {

/// A single audit entry, before chaining.
#[derive(Debug)]
pub struct AuditEntry {
    /// Unique entry ID.
    pub id: u128,
    /// When it happened.
    pub ts: Timestamp,
    /// Acting agent.
    pub agent: String,
    /// Action performed.
    pub action: String,
    /// HAL risk score for this action, if scored.
    pub hal_score: Option<Score>,
    /// HAL level for this action, if scored.
    pub hal_level: Option<String>,
    /// Free-form metadata (target, intent_id, etc.).
    pub metadata: Table<String, String>,
}

/// An audit entry plus its chaining fields.
#[derive(Debug)]
pub struct ChainedEntry {
    /// Monotonic sequence number, starting at 0.
    pub seq: u64,
    /// Hash of the previous entry (genesis hash for the first).
    pub prev_hash: [u8; 32],
    /// The wrapped audit entry.
    pub entry: AuditEntry,
    /// SHA-256 of the previous hash followed by the entry's JSON text.
    pub entry_hash: [u8; 32],
}

/// Result of a chain verification pass.
#[derive(Clone, Debug)]
pub struct VerifyResult {
    /// True iff every link in the chain hashes correctly.
    pub valid: bool,
    /// If invalid, the sequence number of the first broken link.
    pub broken_at: Option<u64>,
    /// Human-readable error message, if invalid.
    pub error: Option<String>,
    /// Total number of entries inspected.
    pub entries_inspected: u64,
}

/// Errors returned by the audit chain.
#[derive(Clone, Debug)]
pub enum ChainError {
    /// An I/O error occurred while appending or exporting.
    Io(String),
    /// An entry failed to serialize.
    Serialize(String),
    /// The chain head hash did not match the expected value.
    HeadHashMismatch,
}

impl ChainError {
    /// The error as one line.
    pub fn to_text(&self) -> (t: String)
        ensures
            t@ == (match *self {
                ChainError::Io(e) => "audit chain I/O error: "@ + e@,
                ChainError::Serialize(e) => "audit chain serialization error: "@ + e@,
                ChainError::HeadHashMismatch => "chain head hash mismatch"@,
            }),
    {
        match self {
            ChainError::Io(e) => String::from_str("audit chain I/O error: ").concat(e.as_str()),
            ChainError::Serialize(e) => String::from_str(
                "audit chain serialization error: ",
            ).concat(e.as_str()),
            ChainError::HeadHashMismatch => String::from_str("chain head hash mismatch"),
        }
    }
}

/// The hash before the first entry.
pub open spec fn genesis() -> Seq<u8> {
    digest::sha256_of(vstd::utf8::encode_utf8("cognos-audit-v1"@))
}

/// The hash of an entry with a JSON text behind a given hash.
pub open spec fn link_hash(prev: Seq<u8>, json: Seq<char>) -> Seq<u8> {
    digest::sha256_of(prev + vstd::utf8::encode_utf8(json))
}

/// The hash that entry `i` has to continue.
pub open spec fn expected_prev(entries: Seq<ChainedEntry>, i: int) -> Seq<u8> {
    if i == 0 {
        genesis()
    } else {
        entries[i - 1].entry_hash@
    }
}

/// Whether entry `i` does not continue the hash before it.
pub open spec fn prev_broken(entries: Seq<ChainedEntry>, i: int) -> bool {
    entries[i].prev_hash@ != expected_prev(entries, i)
}

/// Whether entry `i`, with its serialization, breaks the chain.
pub open spec fn broken(
    entries: Seq<ChainedEntry>,
    jsons: Seq<Result<String, String>>,
    i: int,
) -> bool {
    prev_broken(entries, i) || match jsons[i] {
        Ok(json) => entries[i].entry_hash@ != link_hash(entries[i].prev_hash@, json@),
        Err(_) => true,
    }
}

/// Whether a chain verifies under serializations of its entries.
pub open spec fn verifies(entries: Seq<ChainedEntry>, jsons: Seq<Result<String, String>>) -> bool {
    jsons.len() == entries.len() && forall|i: int|
        0 <= i < entries.len() ==> !#[trigger] broken(entries, jsons, i)
}

/// The message for the broken entry `i`.
pub open spec fn breach_message(
    entries: Seq<ChainedEntry>,
    jsons: Seq<Result<String, String>>,
    i: int,
) -> Seq<char> {
    let seq = text::decimal_digits(entries[i].seq as nat);
    if prev_broken(entries, i) {
        "prev_hash mismatch at seq="@ + seq + " (expected "@ + digest::hex_of(
            expected_prev(entries, i),
        ) + ", got "@ + digest::hex_of(entries[i].prev_hash@) + ")"@
    } else {
        match jsons[i] {
            Ok(_) => "entry_hash mismatch at seq="@ + seq,
            Err(e) => "serialize error at seq="@ + seq + ": "@ + (
            "audit chain serialization error: "@ + e@),
        }
    }
}

/// Whether a result reports the first broken entry, or that there is none.
pub open spec fn is_report(
    r: VerifyResult,
    entries: Seq<ChainedEntry>,
    jsons: Seq<Result<String, String>>,
) -> bool {
    if verifies(entries, jsons) {
        r.valid && r.broken_at is None && r.error is None && r.entries_inspected == entries.len()
    } else {
        !r.valid && exists|i: int|
            {
                &&& 0 <= i < entries.len()
                &&& #[trigger] broken(entries, jsons, i)
                &&& forall|j: int| 0 <= j < i ==> !#[trigger] broken(entries, jsons, j)
                &&& r.broken_at == Some(entries[i].seq)
                &&& text::opt_text(r.error) == Some(breach_message(entries, jsons, i))
                &&& r.entries_inspected == i + 1
            }
    }
}

/// The in-memory hash-chained audit log.
#[derive(Debug)]
pub struct AuditChain {
    /// The entries, oldest first.
    entries: Vec<ChainedEntry>,
    /// The hash of the last entry, or the genesis hash.
    head_hash: [u8; 32],
}

/// Computes the hash before the first entry.
pub fn genesis_hash() -> (h: [u8; 32])
    ensures
        h@ == genesis(),
{
    sha256("cognos-audit-v1".as_bytes())
}

/// Computes the hash of an entry with a JSON text behind a given hash.
pub fn compute_hash(prev_hash: &[u8; 32], json: &str) -> (h: [u8; 32])
    ensures
        h@ == link_hash(prev_hash@, json@),
{
    let mut data: Vec<u8> = Vec::new();
    digest::push_bytes(&mut data, prev_hash.as_slice());
    digest::push_bytes(&mut data, json.as_bytes());
    assert(data@ =~= prev_hash@ + vstd::utf8::encode_utf8(json@));
    sha256(data.as_slice())
}

impl AuditChain {
    /// The entries, oldest first.
    pub closed spec fn links(&self) -> Vec<ChainedEntry> {
        self.entries
    }

    /// The hash of the last entry, or the genesis hash.
    pub closed spec fn head(&self) -> [u8; 32] {
        self.head_hash
    }

    /// Whether the head is the hash that the next entry has to continue.
    pub open spec fn head_fits(&self) -> bool {
        self.head()@ == expected_prev(self.links()@, self.links()@.len() as int)
    }

    /// An empty chain with the genesis head.
    pub fn new() -> (c: AuditChain)
        ensures
            c.links()@ == Seq::<ChainedEntry>::empty(),
            c.head()@ == genesis(),
    {
        AuditChain { entries: Vec::new(), head_hash: genesis_hash() }
    }

    /// Appends an entry with its serialization and returns its sequence number;
    /// an entry that did not serialize is refused.
    pub fn append(&mut self, entry: AuditEntry, json: Result<String, String>) -> (r: Result<
        u64,
        ChainError,
    >)
        ensures
            match json {
                Ok(text) => {
                    &&& r == Ok::<u64, ChainError>(old(self).links()@.len() as u64)
                    &&& final(self).links()@.len() == old(self).links()@.len() + 1
                    &&& final(self).links()@.drop_last() == old(self).links()@
                    &&& final(self).links()@.last().seq == old(self).links()@.len()
                    &&& final(self).links()@.last().entry == entry
                    &&& final(self).links()@.last().prev_hash@ == old(self).head()@
                    &&& final(self).links()@.last().entry_hash@ == link_hash(
                        old(self).head()@,
                        text@,
                    )
                    &&& final(self).head()@ == final(self).links()@.last().entry_hash@
                },
                Err(e) => {
                    &&& r == Err::<u64, ChainError>(ChainError::Serialize(e))
                    &&& *final(self) == *old(self)
                },
            },
    {
        let text = match json {
            Ok(text) => text,
            Err(e) => {
                return Err(ChainError::Serialize(e));
            },
        };
        let seq: u64 = self.entries.len() as u64;
        let prev_hash = self.head_hash;
        let entry_hash = compute_hash(&prev_hash, text.as_str());
        let ghost before = self.entries@;
        self.head_hash = entry_hash;
        self.entries.push(ChainedEntry { seq, prev_hash, entry, entry_hash });
        assert(self.entries@.drop_last() =~= before);
        Ok(seq)
    }

    /// Verifies the full chain end to end, under serializations of its entries
    /// in order.
    pub fn verify(&self, jsons: &Vec<Result<String, String>>) -> (r: VerifyResult)
        requires
            jsons@.len() == self.links()@.len(),
        ensures
            is_report(r, self.links()@, jsons@),
    {
        let ghost entries = self.entries@;
        let mut prev_hash = genesis_hash();
        let mut i: usize = 0;
        while i < self.entries.len()
            invariant
                entries == self.entries@,
                jsons@.len() == entries.len(),
                i <= entries.len(),
                prev_hash@ == expected_prev(entries, i as int),
                forall|j: int| 0 <= j < i ==> !#[trigger] broken(entries, jsons@, j),
            decreases entries.len() - i,
        {
            let chained = &self.entries[i];
            let seq_text = text::decimal(chained.seq);
            if !same_digest(&chained.prev_hash, &prev_hash) {
                let mut error = String::from_str("prev_hash mismatch at seq=");
                error.append(seq_text.as_str());
                error.append(" (expected ");
                let expected = digest::hex_encode(prev_hash.as_slice());
                error.append(expected.as_str());
                error.append(", got ");
                let got = digest::hex_encode(chained.prev_hash.as_slice());
                error.append(got.as_str());
                error.append(")");
                assert(broken(entries, jsons@, i as int));
                return VerifyResult {
                    valid: false,
                    broken_at: Some(chained.seq),
                    error: Some(error),
                    entries_inspected: i as u64 + 1,
                };
            }
            match &jsons[i] {
                Ok(json) => {
                    let recomputed = compute_hash(&chained.prev_hash, json.as_str());
                    if !same_digest(&recomputed, &chained.entry_hash) {
                        let mut error = String::from_str("entry_hash mismatch at seq=");
                        error.append(seq_text.as_str());
                        assert(broken(entries, jsons@, i as int));
                        return VerifyResult {
                            valid: false,
                            broken_at: Some(chained.seq),
                            error: Some(error),
                            entries_inspected: i as u64 + 1,
                        };
                    }
                    prev_hash = chained.entry_hash;
                },
                Err(e) => {
                    let mut error = String::from_str("serialize error at seq=");
                    error.append(seq_text.as_str());
                    error.append(": ");
                    let cause = ChainError::Serialize(e.clone()).to_text();
                    error.append(cause.as_str());
                    assert(broken(entries, jsons@, i as int));
                    return VerifyResult {
                        valid: false,
                        broken_at: Some(chained.seq),
                        error: Some(error),
                        entries_inspected: i as u64 + 1,
                    };
                },
            }
            assert(!broken(entries, jsons@, i as int));
            i += 1;
        }
        VerifyResult { valid: true, broken_at: None, error: None, entries_inspected: i as u64 }
    }

    /// The entries, oldest first.
    pub fn entries(&self) -> (r: &[ChainedEntry])
        ensures
            r@ == self.links()@,
    {
        self.entries.as_slice()
    }

    /// Current head hash (for cross-component attestation).
    pub fn head_hash(&self) -> (h: [u8; 32])
        ensures
            h@ == self.head()@,
    {
        self.head_hash
    }

    /// Number of entries in the chain.
    pub fn len(&self) -> (n: usize)
        ensures
            n == self.links()@.len(),
    {
        self.entries.len()
    }

    /// Whether the chain is empty.
    pub fn is_empty(&self) -> (r: bool)
        ensures
            r == (self.links()@.len() == 0),
    {
        self.entries.len() == 0
    }
}

/// Whether two different byte strings share a SHA-256 hash.
pub open spec fn collision(x: Seq<u8>, y: Seq<u8>) -> bool {
    x != y && digest::sha256_of(x) == digest::sha256_of(y)
}

/// What is appended verifies: a chain that verifies and whose head fits still
/// does both after an entry is appended with its serialization.
pub proof fn append_keeps_validity(
    before: AuditChain,
    after: AuditChain,
    jsons: Seq<Result<String, String>>,
    json: String,
)
    requires
        before.head_fits(),
        verifies(before.links()@, jsons),
        after.links()@.len() == before.links()@.len() + 1,
        after.links()@.drop_last() == before.links()@,
        after.links()@.last().prev_hash@ == before.head()@,
        after.links()@.last().entry_hash@ == link_hash(before.head()@, json@),
        after.head()@ == after.links()@.last().entry_hash@,
    ensures
        after.head_fits(),
        verifies(after.links()@, jsons.push(Ok(json))),
{
    let old_entries = before.entries@;
    let new_entries = after.entries@;
    let all = jsons.push(Ok(json));
    let n = old_entries.len() as int;
    assert forall|i: int| 0 <= i < new_entries.len() implies !#[trigger] broken(
        new_entries,
        all,
        i,
    ) by {
        if i < n {
            assert(new_entries.drop_last()[i] == new_entries[i]);
            if i > 0 {
                assert(new_entries.drop_last()[i - 1] == new_entries[i - 1]);
            }
            assert(!broken(old_entries, jsons, i));
        } else if i > 0 {
            assert(new_entries.drop_last()[i - 1] == new_entries[i - 1]);
        }
    }
}

/// A new chain verifies and its head fits.
pub proof fn empty_chain_verifies(c: AuditChain)
    requires
        c.links()@ == Seq::<ChainedEntry>::empty(),
        c.head()@ == genesis(),
    ensures
        c.head_fits(),
        verifies(c.links()@, Seq::empty()),
{
}

/// Tampering shows: two chains of equal length that both verify and end in the
/// same hash hold the same serialized entries, or else they exhibit two
/// different byte strings with the same SHA-256 hash.
pub proof fn same_head_same_history(
    a: Seq<ChainedEntry>,
    b: Seq<ChainedEntry>,
    ja: Seq<Result<String, String>>,
    jb: Seq<Result<String, String>>,
)
    requires
        a.len() == b.len(),
        a.len() > 0,
        verifies(a, ja),
        verifies(b, jb),
        a.last().entry_hash@ == b.last().entry_hash@,
    ensures
        (forall|i: int| 0 <= i < a.len() ==> (#[trigger] ja[i])->Ok_0@ == jb[i]->Ok_0@) || exists|
            x: Seq<u8>,
            y: Seq<u8>,
        | #[trigger] collision(x, y),
    decreases a.len(),
{
    let n = a.len() - 1;
    assert(!broken(a, ja, n));
    assert(!broken(b, jb, n));
    let x = a[n].prev_hash@ + vstd::utf8::encode_utf8(ja[n]->Ok_0@);
    let y = b[n].prev_hash@ + vstd::utf8::encode_utf8(jb[n]->Ok_0@);
    if x != y {
        assert(collision(x, y));
    } else {
        assert(a[n].prev_hash@ =~= x.subrange(0, 32));
        assert(b[n].prev_hash@ =~= y.subrange(0, 32));
        assert(vstd::utf8::encode_utf8(ja[n]->Ok_0@) =~= x.subrange(32, x.len() as int));
        assert(vstd::utf8::encode_utf8(jb[n]->Ok_0@) =~= y.subrange(32, y.len() as int));
        vstd::utf8::encode_utf8_decode_utf8(ja[n]->Ok_0@);
        vstd::utf8::encode_utf8_decode_utf8(jb[n]->Ok_0@);
        assert(ja[n]->Ok_0@ == jb[n]->Ok_0@);
        if n > 0 {
            let a0 = a.drop_last();
            let b0 = b.drop_last();
            let ja0 = ja.drop_last();
            let jb0 = jb.drop_last();
            assert forall|i: int| 0 <= i < a0.len() implies !#[trigger] broken(a0, ja0, i) by {
                assert(!broken(a, ja, i));
            }
            assert forall|i: int| 0 <= i < b0.len() implies !#[trigger] broken(b0, jb0, i) by {
                assert(!broken(b, jb, i));
            }
            same_head_same_history(a0, b0, ja0, jb0);
            if forall|i: int| 0 <= i < a0.len() ==> (#[trigger] ja0[i])->Ok_0@ == jb0[i]->Ok_0@ {
                assert forall|i: int| 0 <= i < a.len() implies (#[trigger] ja[i])->Ok_0@
                    == jb[i]->Ok_0@ by {
                    if i < n {
                        assert(ja0[i] == ja[i]);
                        assert(jb0[i] == jb[i]);
                        assert(ja0[i]->Ok_0@ == jb0[i]->Ok_0@);
                    }
                }
            }
        }
    }
}

/// A report is valid exactly where every entry names its predecessor's hash (the
/// first one the digest of `cognos-audit-v1`) and carries the digest of that
/// hash and its own text. Otherwise it names the first entry that does not, and
/// what is wrong with it.
pub proof fn report_names_the_first_break(
    r: VerifyResult,
    entries: Seq<ChainedEntry>,
    jsons: Seq<Result<String, String>>,
)
    requires
        jsons.len() == entries.len(),
        is_report(r, entries, jsons),
    ensures
        r.valid <==> forall|i: int|
            0 <= i < entries.len() ==> {
                &&& (#[trigger] entries[i]).prev_hash@ == (if i == 0 {
                    digest::sha256_of(vstd::utf8::encode_utf8("cognos-audit-v1"@))
                } else {
                    entries[i - 1].entry_hash@
                })
                &&& jsons[i] is Ok
                &&& entries[i].entry_hash@ == digest::sha256_of(
                    entries[i].prev_hash@ + vstd::utf8::encode_utf8(jsons[i]->Ok_0@),
                )
            },
        r.valid ==> r.broken_at is None && r.error is None && r.entries_inspected == entries.len(),
        !r.valid ==> {
            let i = r.entries_inspected - 1;
            &&& 0 <= i < entries.len()
            &&& r.broken_at == Some(entries[i].seq)
            &&& r.error is Some
            &&& forall|j: int| 0 < j < i ==> (#[trigger] entries[j]).prev_hash@ == entries[j
                - 1].entry_hash@
            &&& forall|j: int| 0 <= j < i ==> (#[trigger] jsons[j]) is Ok
        },
{
    if verifies(entries, jsons) {
        assert forall|i: int| 0 <= i < entries.len() implies !#[trigger] broken(
            entries,
            jsons,
            i,
        ) by {}
        assert forall|i: int| 0 <= i < entries.len() implies {
            &&& (#[trigger] entries[i]).prev_hash@ == (if i == 0 {
                digest::sha256_of(vstd::utf8::encode_utf8("cognos-audit-v1"@))
            } else {
                entries[i - 1].entry_hash@
            })
            &&& jsons[i] is Ok
            &&& entries[i].entry_hash@ == digest::sha256_of(
                entries[i].prev_hash@ + vstd::utf8::encode_utf8(jsons[i]->Ok_0@),
            )
        } by {
            assert(!broken(entries, jsons, i));
        }
    } else {
        let i = choose|i: int|
            {
                &&& 0 <= i < entries.len()
                &&& #[trigger] broken(entries, jsons, i)
                &&& forall|j: int| 0 <= j < i ==> !#[trigger] broken(entries, jsons, j)
                &&& r.broken_at == Some(entries[i].seq)
                &&& text::opt_text(r.error) == Some(breach_message(entries, jsons, i))
                &&& r.entries_inspected == i + 1
            };
        assert(broken(entries, jsons, i));
        let e = entries[i];
        assert forall|j: int| 0 < j < i implies (#[trigger] entries[j]).prev_hash@ == entries[j
            - 1].entry_hash@ by {
            assert(!broken(entries, jsons, j));
        }
        assert forall|j: int| 0 <= j < i implies (#[trigger] jsons[j]) is Ok by {
            assert(!broken(entries, jsons, j));
        }
    }
}

/// To change the text of one entry of a valid chain, or its hash, or the hash it
/// names, breaks the chain, unless two byte strings are found with one digest.
pub proof fn changes_break_the_chain(
    entries: Seq<ChainedEntry>,
    jsons: Seq<Result<String, String>>,
    i: int,
    other: String,
    changed: ChainedEntry,
)
    requires
        0 <= i < entries.len(),
        verifies(entries, jsons),
    ensures
        other@ != jsons[i]->Ok_0@ ==> !verifies(entries, jsons.update(i, Ok(other))) || exists|
            x: Seq<u8>,
            y: Seq<u8>,
        | #[trigger] collision(x, y),
        changed.entry_hash@ != entries[i].entry_hash@ && changed.prev_hash@ == entries[i].prev_hash@
            ==> !verifies(entries.update(i, changed), jsons),
        changed.prev_hash@ != entries[i].prev_hash@ ==> !verifies(
            entries.update(i, changed),
            jsons,
        ),
{
    assert(!broken(entries, jsons, i));
    let prev = entries[i].prev_hash@;
    if other@ != jsons[i]->Ok_0@ {
        let x = prev + vstd::utf8::encode_utf8(jsons[i]->Ok_0@);
        let y = prev + vstd::utf8::encode_utf8(other@);
        if x == y {
            assert(vstd::utf8::encode_utf8(jsons[i]->Ok_0@) =~= x.subrange(
                prev.len() as int,
                x.len() as int,
            ));
            assert(vstd::utf8::encode_utf8(other@) =~= y.subrange(
                prev.len() as int,
                y.len() as int,
            ));
            vstd::utf8::encode_utf8_decode_utf8(jsons[i]->Ok_0@);
            vstd::utf8::encode_utf8_decode_utf8(other@);
        } else if digest::sha256_of(x) == digest::sha256_of(y) {
            assert(collision(x, y));
        } else {
            assert(broken(entries, jsons.update(i, Ok(other)), i));
        }
    }
    let e = entries.update(i, changed);
    assert(e[i] == changed);
    assert(i > 0 ==> e[i - 1] == entries[i - 1]);
    if changed.prev_hash@ != entries[i].prev_hash@ {
        assert(broken(e, jsons, i));
    } else if changed.entry_hash@ != entries[i].entry_hash@ {
        assert(broken(e, jsons, i));
    }
}

/// What is said of a broken entry: which of the two hashes does not fit, or that
/// it could not be written down, always with the number of the entry.
pub proof fn breaches_are_worded(
    entries: Seq<ChainedEntry>,
    jsons: Seq<Result<String, String>>,
    i: int,
)
    requires
        0 <= i < entries.len(),
        i < jsons.len(),
    ensures
        ({
            let number = text::decimal_digits(entries[i].seq as nat);
            let before = if i == 0 {
                digest::sha256_of(vstd::utf8::encode_utf8("cognos-audit-v1"@))
            } else {
                entries[i - 1].entry_hash@
            };
            let m = breach_message(entries, jsons, i);
            &&& entries[i].prev_hash@ != before ==> m == "prev_hash mismatch at seq="@ + number
                + " (expected "@ + digest::hex_of(before) + ", got "@ + digest::hex_of(
                entries[i].prev_hash@,
            ) + ")"@
            &&& entries[i].prev_hash@ == before && jsons[i] is Ok ==> m
                == "entry_hash mismatch at seq="@ + number
            &&& entries[i].prev_hash@ == before && jsons[i] is Err ==> m
                == "serialize error at seq="@ + number + ": "@ + (
            "audit chain serialization error: "@ + jsons[i]->Err_0@)
        }),
{
}

} // verus!
