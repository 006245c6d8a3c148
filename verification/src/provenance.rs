//! Where actions come from: signatures, hash chains and lineage.

use vstd::prelude::*;

use crate::clock::Timestamp;
use crate::digest;
use crate::hal_types::ProvenanceConfidence;
use crate::hal_types::ProvenanceData;
use crate::score;
use crate::score::div_floor;
use crate::score::unit_score;
use crate::score::Score;
use crate::score::SCALE;
use crate::text;

verus! {

/// Whether a time is no further from another than the greatest skew.
pub open spec fn within_skew(now_ms: int, timestamp: int, max_skew_ms: int) -> bool {
    score::abs_int(now_ms - timestamp) <= max_skew_ms
}

/// The provenance engine.
pub struct ProvenanceEngine;

/// The low `n` bytes of an integer in two's complement, least significant
/// first.
pub open spec fn le_bytes(t: int, n: nat) -> Seq<u8>
    decreases n,
{
    if n == 0 {
        Seq::empty()
    } else {
        seq![(t % 256) as u8] + le_bytes(t / 256, (n - 1) as nat)
    }
}

/// The hash of a link: a parent's hash, a payload's hash and a time.
pub open spec fn chain_hash_of(parent: Seq<char>, payload: Seq<char>, timestamp: int) -> Seq<char> {
    digest::hex_of(
        digest::sha256_of(
            vstd::utf8::encode_utf8(parent) + vstd::utf8::encode_utf8(payload) + le_bytes(
                timestamp,
                8,
            ),
        ),
    )
}

fn push_le_bytes(out: &mut Vec<u8>, t: i64)
    ensures
        final(out)@ == old(out)@ + le_bytes(t as int, 8),
{
    let ghost before = out@;
    let mut rest: i128 = t as i128;
    let mut n: u8 = 8;
    let ghost mut done: Seq<u8> = Seq::empty();
    assert(done + le_bytes(t as int, 8) =~= le_bytes(t as int, 8));
    assert(out@ =~= before + done);
    while n > 0
        invariant
            n <= 8,
            -9_223_372_036_854_775_808 <= rest <= 9_223_372_036_854_775_807,
            out@ == before + done,
            done + le_bytes(rest as int, n as nat) == le_bytes(t as int, 8),
        decreases n,
    {
        let q: i128 = div_floor(rest, 256);
        let b: i128 = rest - q * 256;
        assert(b == rest as int % 256);
        out.push(b as u8);
        proof {
            let x = (rest as int % 256) as u8;
            assert(le_bytes(rest as int, n as nat) == seq![x] + le_bytes(
                q as int,
                (n - 1) as nat,
            ));
            assert(done + (seq![x] + le_bytes(q as int, (n - 1) as nat)) =~= done.push(x)
                + le_bytes(q as int, (n - 1) as nat));
            done = done.push(x);
            assert(out@ =~= before + done);
        }
        rest = q;
        n = n - 1;
    }
    assert(done =~= le_bytes(t as int, 8));
}

/// What the origin of an action is worth, in billionths.
pub open spec fn origin_score(p: ProvenanceData) -> int {
    (if p.signature_verified {
        400_000_000int
    } else {
        0
    }) + (if p.replay_checked {
        250_000_000int
    } else {
        0
    }) + (if p.certificate_fingerprint@.len() > 0 {
        200_000_000int
    } else {
        0
    }) + (if p.trust_chain_hash@.len() > 0 {
        150_000_000int
    } else {
        0
    })
}

/// Whether a capability of a chain speaks of delegation.
pub open spec fn delegates(chain: Seq<String>) -> bool {
    exists|i: int| 0 <= i < chain.len() && text::occurs_in((#[trigger] chain[i])@, "delegate"@)
}

impl ProvenanceEngine {
    /// How far a signature makes an origin believed.
    pub fn verify_signature(signature_verified: bool) -> (c: ProvenanceConfidence)
        ensures
            c == (if signature_verified {
                ProvenanceConfidence::Verified
            } else {
                ProvenanceConfidence::Forged
            }),
    {
        if signature_verified {
            ProvenanceConfidence::Verified
        } else {
            ProvenanceConfidence::Forged
        }
    }

    /// The hash of a link: SHA-256, in hexadecimal, over a parent's hash, a
    /// payload's hash and a time in eight bytes, least significant first.
    pub fn compute_chain_hash(parent_hash: &str, payload_hash: &str, timestamp: i64) -> (h: String)
        ensures
            h@ == chain_hash_of(parent_hash@, payload_hash@, timestamp as int),
    {
        let mut data: Vec<u8> = Vec::new();
        digest::push_bytes(&mut data, parent_hash.as_bytes());
        assert(data@ =~= vstd::utf8::encode_utf8(parent_hash@));
        digest::push_bytes(&mut data, payload_hash.as_bytes());
        push_le_bytes(&mut data, timestamp);
        let d = digest::sha256(data.as_slice());
        digest::hex_encode(d.as_slice())
    }

    /// Whether a link has the expected hash.
    pub fn validate_chain(
        expected_hash: &str,
        parent_hash: &str,
        payload_hash: &str,
        timestamp: i64,
    ) -> (r: bool)
        ensures
            r == (chain_hash_of(parent_hash@, payload_hash@, timestamp as int) == expected_hash@),
    {
        let computed = ProvenanceEngine::compute_chain_hash(parent_hash, payload_hash, timestamp);
        text::same_text(computed.as_str(), expected_hash)
    }

    /// Whether a time, in milliseconds, is no further from another than the
    /// greatest skew.
    pub fn replay_window_valid_at(now_ms: i64, timestamp: i64, max_skew_ms: i64) -> (r: bool)
        ensures
            r == within_skew(now_ms as int, timestamp as int, max_skew_ms as int),
    {
        let d: i128 = now_ms as i128 - timestamp as i128;
        let delta: i128 = if d < 0 {
            -d
        } else {
            d
        };
        delta <= max_skew_ms as i128
    }

    /// Whether a time, in milliseconds, is no further from now than the
    /// greatest skew. With a negative skew none is.
    pub fn replay_window_valid(timestamp: i64, max_skew_ms: i64) -> (r: bool)
        ensures
            max_skew_ms < 0 ==> !r,
            exists|now_ms: i64|
                r == #[trigger] within_skew(now_ms as int, timestamp as int, max_skew_ms as int),
    {
        ProvenanceEngine::replay_window_valid_at(Timestamp::now().millis(), timestamp, max_skew_ms)
    }

    /// What the origin of an action is worth.
    pub fn provenance_score(provenance: &ProvenanceData) -> (s: Score)
        ensures
            s.nanos == origin_score(*provenance),
            s.is_unit(),
    {
        let mut sum: i64 = 0;
        if provenance.signature_verified {
            sum = sum + 400_000_000;
        }
        if provenance.replay_checked {
            sum = sum + 250_000_000;
        }
        if !provenance.certificate_fingerprint.as_str().is_empty() {
            sum = sum + 200_000_000;
        }
        if !provenance.trust_chain_hash.as_str().is_empty() {
            sum = sum + 150_000_000;
        }
        Score::from_nanos(sum)
    }

    /// Whether an origin is forged.
    pub fn detect_forgery(provenance: &ProvenanceData) -> (r: bool)
        ensures
            r == (!provenance.signature_verified || provenance.confidence
                == ProvenanceConfidence::Forged),
    {
        !provenance.signature_verified || provenance.confidence == ProvenanceConfidence::Forged
    }

    /// How many links a lineage has.
    pub fn trust_lineage_depth(chain: &[String]) -> (n: usize)
        ensures
            n == chain@.len(),
    {
        chain.len()
    }

    /// How far an origin of some age, in milliseconds, is still believed: it
    /// loses 0.015 an hour.
    pub fn provenance_decay(age_ms: i64) -> (s: Score)
        ensures
            s.nanos == score::unit_clamp((SCALE * 6 - age_ms * 25) / 6),
    {
        let sum: i128 = SCALE as i128 * 6 - age_ms as i128 * 25;
        unit_score(div_floor(sum, 6))
    }

    /// Whether authority passes from one agent to another: it stays with the
    /// same agent, or a capability of the chain speaks of delegation.
    pub fn verify_authority_continuity(
        previous_agent: &str,
        current_agent: &str,
        capability_chain: &[String],
    ) -> (r: bool)
        ensures
            r == (previous_agent@ == current_agent@ || delegates(capability_chain@)),
    {
        if text::same_text(previous_agent, current_agent) {
            return true;
        }
        let mut i: usize = 0;
        while i < capability_chain.len()
            invariant
                i <= capability_chain@.len(),
                forall|k: int|
                    0 <= k < i ==> !text::occurs_in(
                        (#[trigger] capability_chain@[k])@,
                        "delegate"@,
                    ),
            decreases capability_chain@.len() - i,
        {
            if text::text_contains(capability_chain[i].as_str(), "delegate") {
                return true;
            }
            i += 1;
        }
        false
    }

    /// Whether a chain is broken between two hashes.
    pub fn detect_chain_break(parent_hash: &str, current_parent: &str) -> (r: bool)
        ensures
            r == (parent_hash@ != current_parent@),
    {
        !text::same_text(parent_hash, current_parent)
    }

    /// How far a lineage of some depth is believed: it loses 0.03 a link.
    pub fn confidence_from_lineage(lineage_depth: usize) -> (s: Score)
        ensures
            s.nanos == score::unit_clamp(SCALE - lineage_depth * 30_000_000),
    {
        unit_score(SCALE as i128 - lineage_depth as i128 * 30_000_000)
    }

    /// Whether an origin is signed and has a certificate.
    pub fn signed_origin_valid(provenance: &ProvenanceData) -> (r: bool)
        ensures
            r == (provenance.signature_verified && provenance.certificate_fingerprint@.len() > 0),
    {
        provenance.signature_verified && !provenance.certificate_fingerprint.as_str().is_empty()
    }
}

/// Belief in an origin never grows with its age or the depth of its lineage.
pub proof fn belief_only_decays(younger: int, older: int)
    requires
        younger <= older,
    ensures
        score::unit_clamp((SCALE * 6 - older * 25) / 6) <= score::unit_clamp(
            (SCALE * 6 - younger * 25) / 6,
        ),
        score::unit_clamp(SCALE - older * 30_000_000) <= score::unit_clamp(
            SCALE - younger * 30_000_000,
        ),
{
}

/// An origin without a verified signature is worth at most 0.6 and counts as
/// forged.
pub proof fn unsigned_origins_are_weak(p: ProvenanceData)
    requires
        !p.signature_verified,
    ensures
        origin_score(p) <= 600_000_000,
{
}

/// A verified signature is worth four tenths of an origin's score, a replay
/// check a quarter, a certificate a fifth and a chain hash the rest.
pub proof fn origin_parts_add_up(p: ProvenanceData)
    ensures
        origin_score((ProvenanceData { signature_verified: true, ..p })) == origin_score(
            (ProvenanceData { signature_verified: false, ..p }),
        ) + 400_000_000,
        origin_score((ProvenanceData { replay_checked: true, ..p })) == origin_score(
            (ProvenanceData { replay_checked: false, ..p }),
        ) + 250_000_000,
        p.signature_verified && p.replay_checked && p.certificate_fingerprint@.len() > 0
            ==> origin_score(p) == (if p.trust_chain_hash@.len() > 0 {
            1_000_000_000int
        } else {
            850_000_000
        }),
        p.signature_verified && p.replay_checked && p.certificate_fingerprint@.len() == 0
            ==> origin_score(p) == (if p.trust_chain_hash@.len() > 0 {
            800_000_000int
        } else {
            650_000_000
        }),
        0 <= origin_score(p) <= 1_000_000_000,
{
}

/// A time is within the window exactly where it is neither too far behind the
/// present nor too far ahead of it.
pub proof fn window_reaches_both_ways(now_ms: int, timestamp: int, max_skew_ms: int)
    ensures
        within_skew(now_ms, timestamp, max_skew_ms) <==> now_ms - max_skew_ms <= timestamp <= now_ms
            + max_skew_ms,
        max_skew_ms >= 0 ==> within_skew(now_ms, now_ms, max_skew_ms),
{
}

/// The bytes of a time, least significant first, give it back.
pub proof fn bytes_give_the_number_back(t: int, n: nat)
    ensures
        le_bytes(t, n).len() == n,
        n > 0 ==> le_bytes(t, n)[0] as int == t % 256,
        n > 1 ==> le_bytes(t, n)[1] as int == (t / 256) % 256,
        le_bytes(t, 8).len() == 8,
{
    reveal_with_fuel(le_bytes, 3);
    le_bytes_len(t, n);
    le_bytes_len(t, 8);
}

proof fn le_bytes_len(t: int, n: nat)
    ensures
        le_bytes(t, n).len() == n,
    decreases n,
{
    if n > 0 {
        le_bytes_len(t / 256, (n - 1) as nat);
    }
}

/// A chain hash is that of the parent, the payload and eight bytes of time, in
/// this order: two times that agree in these bytes, and no other change, keep it.
pub proof fn chain_hash_covers_its_parts(parent: Seq<char>, payload: Seq<char>, timestamp: int)
    ensures
        ({
            let data = vstd::utf8::encode_utf8(parent) + vstd::utf8::encode_utf8(payload)
                + le_bytes(timestamp, 8);
            &&& chain_hash_of(parent, payload, timestamp) == digest::hex_of(digest::sha256_of(data))
            &&& data.len() == vstd::utf8::encode_utf8(parent).len() + vstd::utf8::encode_utf8(
                payload,
            ).len() + 8
        }),
{
    bytes_give_the_number_back(timestamp, 8);
}

/// Authority passes on where a capability that delegates, however it is named
/// around that word, is in the chain, and not where none does.
pub proof fn delegation_is_found(
    chain: Seq<String>,
    i: int,
    before: Seq<char>,
    after: Seq<char>,
)
    ensures
        0 <= i < chain.len() && chain[i]@ == before + "delegate"@ + after ==> delegates(chain),
        (forall|j: int|
            0 <= j < chain.len() ==> !text::occurs_in((#[trigger] chain[j])@, "delegate"@))
            ==> !delegates(chain),
{
    text::occurrences_are_parts(before, before, "delegate"@, after);
}

} // verus!
