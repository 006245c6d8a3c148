//! The audit log: every action as one JSON line, tamper-evident through
//! chained SHA-256 hashes.
//!
//! The log works on entries and on their JSON texts. An entry is sealed with
//! the hash of the tip before it followed by its own JSON text, written while
//! its hash field is still empty.

use vstd::prelude::*;
use vstd::string::StringExecFns;

use crate::clock::Timestamp;
use crate::digest;
use crate::score::Score;
use crate::text;

verus! {

/// Size beyond which the log is rotated, in bytes.
pub const MAX_LOG_SIZE_BYTES: u64 = 52_428_800;

/// Number of rotated files that are kept.
pub const MAX_ROTATED_FILES: u32 = 5;

/// Time after which pending entries are written, in milliseconds.
pub const FLUSH_INTERVAL_MS: u64 = 100;

/// Number of pending entries at which they are written.
pub const FLUSH_ENTRY_COUNT: usize = 50;

/// A single audit log entry.
#[derive(Clone, Debug)]
pub struct AuditEntry {
    /// When it happened.
    pub ts: Timestamp,
    /// Agent that performed the action.
    pub agent: String,
    /// Action performed.
    pub action: String,
    /// Outcome: "success", "denied" or "error".
    pub outcome: String,
    /// Target file, path, or resource.
    pub target: Option<String>,
    /// HAL risk score for this action.
    pub hal_score: Option<Score>,
    /// HAL level: "silent", "notify", "confirm" or "block".
    pub hal_level: Option<String>,
    /// Intent ID that triggered this action.
    pub intent_id: Option<u128>,
    /// Whether the action can be undone.
    pub reversible: Option<bool>,
    /// Human-readable note.
    pub note: Option<String>,
    /// Error message if the outcome is "error".
    pub error_message: Option<String>,
    /// Session ID.
    pub session: Option<String>,
    /// Tamper-evident chain hash.
    pub chain_hash: String,
}

/// Filter for querying log entries; an absent field matches everything.
#[derive(Clone, Debug)]
pub struct AuditFilter {
    /// The agent.
    pub agent: Option<String>,
    /// The action.
    pub action: Option<String>,
    /// The earliest time.
    pub since: Option<Timestamp>,
    /// The intent.
    pub intent_id: Option<u128>,
    /// The level.
    pub hal_level: Option<String>,
    /// A part of the target.
    pub target_contains: Option<String>,
}

impl Default for AuditFilter {
    fn default() -> (f: AuditFilter)
        ensures
            f.agent is None,
            f.action is None,
            f.since is None,
            f.intent_id is None,
            f.hal_level is None,
            f.target_contains is None,
    {
        AuditFilter {
            agent: None,
            action: None,
            since: None,
            intent_id: None,
            hal_level: None,
            target_contains: None,
        }
    }
}

/// Result of a verification pass.
#[derive(Clone, Debug)]
pub struct VerifyResult {
    /// Whether the whole log verifies.
    pub valid: bool,
    /// The line, counted from one, of the first entry that does not.
    pub broken_at: Option<u64>,
    /// A message.
    pub error: Option<String>,
}

/// The tip of an empty log.
pub open spec fn initial_tip() -> Seq<char> {
    digest::hex_of(digest::sha256_of(vstd::utf8::encode_utf8("cognos-audit-v1"@)))
}

/// The hash that seals an entry with a JSON text behind a tip.
pub open spec fn seal_of(tip: Seq<char>, json: Seq<char>) -> Seq<char> {
    digest::hex_of(digest::sha256_of(vstd::utf8::encode_utf8(tip + json)))
}

/// Computes the tip of an empty log.
pub fn initial_hash() -> (h: String)
    ensures
        h@ == initial_tip(),
{
    let d = digest::sha256("cognos-audit-v1".as_bytes());
    digest::hex_encode(d.as_slice())
}

/// Computes the hash that seals an entry with a JSON text behind a tip.
pub fn seal(tip: &str, json: &str) -> (h: String)
    ensures
        h@ == seal_of(tip@, json@),
{
    let data = String::from_str(tip).concat(json);
    let d = digest::sha256(data.as_str().as_bytes());
    digest::hex_encode(d.as_slice())
}

/// Whether an optional text is as wanted, where something is wanted.
pub open spec fn wanted(want: Option<String>, have: Option<Seq<char>>) -> bool {
    want matches Some(w) ==> have == Some(w@)
}

/// Whether an entry passes a filter.
pub open spec fn passes(e: AuditEntry, f: AuditFilter) -> bool {
    &&& wanted(f.agent, Some(e.agent@))
    &&& wanted(f.action, Some(e.action@))
    &&& f.since matches Some(since) ==> e.ts.nanos >= since.nanos
    &&& f.intent_id matches Some(id) ==> e.intent_id == Some(id)
    &&& wanted(f.hal_level, text::opt_text(e.hal_level))
    &&& f.target_contains matches Some(needle) ==> text::occurs_in(
        match e.target {
            Some(t) => t@,
            None => Seq::empty(),
        },
        needle@,
    )
}

/// A line of the log: an entry with its JSON text under an empty hash, or
/// `None` where the line is no entry.
pub type LogLine = Option<(AuditEntry, String)>;

/// The entry of a line that holds one.
pub open spec fn entry_of(line: LogLine) -> AuditEntry {
    (line->0).0
}

/// The JSON text of a line that holds an entry.
pub open spec fn json_of(line: LogLine) -> Seq<char> {
    (line->0).1@
}

/// The tip before line `i`: the hash of the last entry above it.
pub open spec fn tip_before(lines: Seq<LogLine>, i: int) -> Seq<char>
    decreases i,
{
    if i <= 0 {
        initial_tip()
    } else {
        match lines[i - 1] {
            Some((e, _)) => e.chain_hash@,
            None => tip_before(lines, i - 1),
        }
    }
}

/// Whether line `i` holds an entry whose hash does not seal it.
pub open spec fn broken(lines: Seq<LogLine>, i: int) -> bool {
    match lines[i] {
        Some((e, json)) => e.chain_hash@ != seal_of(tip_before(lines, i), json@),
        None => false,
    }
}

/// Whether every entry of a log is sealed.
pub open spec fn verifies(lines: Seq<LogLine>) -> bool {
    forall|i: int| 0 <= i < lines.len() ==> !#[trigger] broken(lines, i)
}

/// The message for a broken line `i`.
pub open spec fn breach_message(lines: Seq<LogLine>, i: int) -> Seq<char> {
    let e = entry_of(lines[i]);
    "Chain broken at entry "@ + text::decimal_digits((i + 1) as nat) + " (agent="@ + e.agent@
        + ", action="@ + e.action@ + ")"@
}

/// Whether a result reports the first broken line, or that there is none.
pub open spec fn is_report(r: VerifyResult, lines: Seq<LogLine>) -> bool {
    if verifies(lines) {
        r.valid && r.broken_at is None && r.error is None
    } else {
        !r.valid && exists|i: int|
            {
                &&& 0 <= i < lines.len()
                &&& #[trigger] broken(lines, i)
                &&& forall|j: int| 0 <= j < i ==> !#[trigger] broken(lines, j)
                &&& r.broken_at == Some((i + 1) as u64)
                &&& text::opt_text(r.error) == Some(breach_message(lines, i))
            }
    }
}

/// The audit log's state: the tip of the chain and the entries that are not
/// written yet.
#[derive(Debug)]
pub struct AuditLog {
    /// The hash of the last sealed entry.
    pub previous_hash: String,
    /// Sealed entries that are not written yet, oldest first.
    pub pending: Vec<AuditEntry>,
}

fn clone_opt(o: Option<&str>) -> (r: Option<String>)
    ensures
        text::opt_text(r) == opt_str(o),
{
    match o {
        Some(s) => Some(String::from_str(s)),
        None => None,
    }
}

/// The text of an optional string slice.
pub open spec fn opt_str(o: Option<&str>) -> Option<Seq<char>> {
    match o {
        Some(s) => Some(s@),
        None => None,
    }
}

impl AuditLog {
    /// The log whose saved tip has a given text, of which it is known whether
    /// it is blank; `None` stands for a tip that could not be read.
    pub fn open_known(tip: Option<&str>, blank: bool) -> (l: AuditLog)
        ensures
            l.previous_hash@ == (if tip is Some && !blank {
                tip->0@
            } else {
                initial_tip()
            }),
            l.pending@ == Seq::<AuditEntry>::empty(),
    {
        let previous_hash = match tip {
            Some(t) => if blank {
                initial_hash()
            } else {
                String::from_str(t)
            },
            None => initial_hash(),
        };
        AuditLog { previous_hash, pending: Vec::new() }
    }

    /// The log whose saved tip has a given text; a blank or missing tip starts
    /// a new chain.
    pub fn open(tip: Option<&str>) -> (l: AuditLog)
        ensures
            l.previous_hash@ == (if tip is Some && text::trimmed(tip->0@).len() > 0 {
                tip->0@
            } else {
                initial_tip()
            }),
            l.pending@ == Seq::<AuditEntry>::empty(),
    {
        let blank = match tip {
            Some(t) => {
                let trimmed = text::trim(t);
                trimmed.as_str().is_empty()
            },
            None => true,
        };
        AuditLog::open_known(tip, blank)
    }

    /// An entry, made now, that is not sealed yet.
    pub fn build_entry(
        agent: &str,
        action: &str,
        outcome: &str,
        target: Option<&str>,
        hal_score: Option<Score>,
        hal_level: Option<&str>,
        intent_id: Option<u128>,
        reversible: Option<bool>,
        note: Option<&str>,
        session: Option<&str>,
    ) -> (e: AuditEntry)
        ensures
            e.agent@ == agent@,
            e.action@ == action@,
            e.outcome@ == outcome@,
            text::opt_text(e.target) == opt_str(target),
            e.hal_score == hal_score,
            text::opt_text(e.hal_level) == opt_str(hal_level),
            e.intent_id == intent_id,
            e.reversible == reversible,
            text::opt_text(e.note) == opt_str(note),
            e.error_message is None,
            text::opt_text(e.session) == opt_str(session),
            e.chain_hash@ == Seq::<char>::empty(),
    {
        AuditLog::build_entry_at(
            Timestamp::now(),
            agent,
            action,
            outcome,
            target,
            hal_score,
            hal_level,
            intent_id,
            reversible,
            note,
            session,
        )
    }

    /// An entry at a given time that is not sealed yet.
    pub fn build_entry_at(
        now: Timestamp,
        agent: &str,
        action: &str,
        outcome: &str,
        target: Option<&str>,
        hal_score: Option<Score>,
        hal_level: Option<&str>,
        intent_id: Option<u128>,
        reversible: Option<bool>,
        note: Option<&str>,
        session: Option<&str>,
    ) -> (e: AuditEntry)
        ensures
            e.ts == now,
            e.agent@ == agent@,
            e.action@ == action@,
            e.outcome@ == outcome@,
            text::opt_text(e.target) == opt_str(target),
            e.hal_score == hal_score,
            text::opt_text(e.hal_level) == opt_str(hal_level),
            e.intent_id == intent_id,
            e.reversible == reversible,
            text::opt_text(e.note) == opt_str(note),
            e.error_message is None,
            text::opt_text(e.session) == opt_str(session),
            e.chain_hash@ == Seq::<char>::empty(),
    {
        AuditEntry {
            ts: now,
            agent: String::from_str(agent),
            action: String::from_str(action),
            outcome: String::from_str(outcome),
            target: clone_opt(target),
            hal_score,
            hal_level: clone_opt(hal_level),
            intent_id,
            reversible,
            note: clone_opt(note),
            error_message: None,
            session: clone_opt(session),
            chain_hash: String::new(),
        }
    }

    /// Seals an entry with its JSON text and appends it. Returns whether the
    /// pending entries are due to be written, given how long ago that last
    /// happened.
    pub fn append(&mut self, entry: AuditEntry, entry_json: &str, since_flush_ms: u64) -> (due:
        bool)
        ensures
            final(self).previous_hash@ == seal_of(old(self).previous_hash@, entry_json@),
            final(self).pending@.len() == old(self).pending@.len() + 1,
            final(self).pending@.drop_last() == old(self).pending@,
            final(self).pending@.last() == (AuditEntry {
                chain_hash: final(self).previous_hash,
                ..entry
            }),
            due == (final(self).pending@.len() >= FLUSH_ENTRY_COUNT || since_flush_ms
                >= FLUSH_INTERVAL_MS),
    {
        let hash = seal(self.previous_hash.as_str(), entry_json);
        let mut sealed = entry;
        sealed.chain_hash = hash.clone();
        self.previous_hash = hash;
        let ghost before = self.pending@;
        self.pending.push(sealed);
        assert(self.pending@.drop_last() =~= before);
        self.pending.len() >= FLUSH_ENTRY_COUNT || since_flush_ms >= FLUSH_INTERVAL_MS
    }

    /// Hands out the pending entries, oldest first, to be written.
    pub fn flush(&mut self) -> (entries: Vec<AuditEntry>)
        ensures
            entries@ == old(self).pending@,
            final(self).pending@ == Seq::<AuditEntry>::empty(),
            final(self).previous_hash == old(self).previous_hash,
    {
        let mut entries: Vec<AuditEntry> = Vec::new();
        std::mem::swap(&mut entries, &mut self.pending);
        entries
    }

    /// Whether a log of a given size is to be rotated before it is written.
    pub fn needs_rotation(size: u64) -> (r: bool)
        ensures
            r == (size > MAX_LOG_SIZE_BYTES),
    {
        size > MAX_LOG_SIZE_BYTES
    }

    /// The renamings of a rotation, in order: from which number to which, where
    /// zero stands for the log itself.
    pub fn rotation_plan() -> (plan: Vec<(u32, u32)>)
        ensures
            plan@.len() == MAX_ROTATED_FILES,
            forall|i: int|
                0 <= i < MAX_ROTATED_FILES ==> (#[trigger] plan@[i]).0 == MAX_ROTATED_FILES - 1 - i
                    && plan@[i].1 == plan@[i].0 + 1,
    {
        let mut plan: Vec<(u32, u32)> = Vec::new();
        let mut i: u32 = MAX_ROTATED_FILES;
        while i > 0
            invariant
                i <= MAX_ROTATED_FILES,
                plan@.len() == MAX_ROTATED_FILES - i,
                forall|k: int|
                    0 <= k < plan@.len() ==> (#[trigger] plan@[k]).0 == MAX_ROTATED_FILES - 1 - k
                        && plan@[k].1 == plan@[k].0 + 1,
            decreases i,
        {
            i = i - 1;
            plan.push((i, i + 1));
        }
        plan
    }

    /// Whether an entry passes a filter.
    pub fn matches_filter(entry: &AuditEntry, filter: &AuditFilter) -> (r: bool)
        ensures
            r == passes(*entry, *filter),
    {
        if let Some(agent) = &filter.agent {
            if !text::same_text(entry.agent.as_str(), agent.as_str()) {
                return false;
            }
        }
        if let Some(action) = &filter.action {
            if !text::same_text(entry.action.as_str(), action.as_str()) {
                return false;
            }
        }
        if let Some(since) = &filter.since {
            if entry.ts.nanos < since.nanos {
                return false;
            }
        }
        if let Some(id) = &filter.intent_id {
            match &entry.intent_id {
                Some(have) => {
                    if *have != *id {
                        return false;
                    }
                },
                None => {
                    return false;
                },
            }
        }
        if let Some(level) = &filter.hal_level {
            match &entry.hal_level {
                Some(have) => {
                    if !text::same_text(have.as_str(), level.as_str()) {
                        return false;
                    }
                },
                None => {
                    return false;
                },
            }
        }
        if let Some(needle) = &filter.target_contains {
            match &entry.target {
                Some(target) => {
                    if !text::text_contains(target.as_str(), needle.as_str()) {
                        return false;
                    }
                },
                None => {
                    let nothing = String::new();
                    if !text::text_contains(nothing.as_str(), needle.as_str()) {
                        return false;
                    }
                },
            }
        }
        true
    }

    /// The entries that pass a filter, in order.
    pub fn query(entries: Vec<AuditEntry>, filter: &AuditFilter) -> (r: Vec<AuditEntry>)
        ensures
            r@ == entries@.filter(|e: AuditEntry| passes(e, *filter)),
    {
        let ghost all = entries@;
        let ghost keep = |e: AuditEntry| passes(e, *filter);
        let mut r: Vec<AuditEntry> = Vec::new();
        proof {
            reveal(Seq::filter);
        }
        for e in it: entries
            invariant
                it.seq() == all,
                keep == (|e: AuditEntry| passes(e, *filter)),
                r@ == all.take(it.index()).filter(keep),
        {
            proof {
                reveal(Seq::filter);
                let next = all.take(it.index() + 1);
                assert(next.drop_last() =~= all.take(it.index()));
                assert(next.last() == e);
            }
            if AuditLog::matches_filter(&e, filter) {
                r.push(e);
            }
        }
        assert(all.take(all.len() as int) =~= all);
        r
    }

    /// Verifies the chain over the lines of a log. Lines that are no entries
    /// are passed over.
    pub fn verify(lines: &Vec<LogLine>) -> (r: VerifyResult)
        ensures
            is_report(r, lines@),
    {
        let mut prev_hash = initial_hash();
        let mut i: usize = 0;
        while i < lines.len()
            invariant
                i <= lines@.len(),
                prev_hash@ == tip_before(lines@, i as int),
                forall|j: int| 0 <= j < i ==> !#[trigger] broken(lines@, j),
            decreases lines@.len() - i,
        {
            match &lines[i] {
                Some((entry, json)) => {
                    let expected = seal(prev_hash.as_str(), json.as_str());
                    if !text::same_text(entry.chain_hash.as_str(), expected.as_str()) {
                        let mut error = String::from_str("Chain broken at entry ");
                        let number = text::decimal(i as u64 + 1);
                        error.append(number.as_str());
                        error.append(" (agent=");
                        error.append(entry.agent.as_str());
                        error.append(", action=");
                        error.append(entry.action.as_str());
                        error.append(")");
                        assert(broken(lines@, i as int));
                        return VerifyResult {
                            valid: false,
                            broken_at: Some(i as u64 + 1),
                            error: Some(error),
                        };
                    }
                    prev_hash = entry.chain_hash.clone();
                },
                None => {},
            }
            assert(!broken(lines@, i as int));
            i += 1;
        }
        VerifyResult { valid: true, broken_at: None, error: None }
    }

    /// The report on a log that could not be read.
    pub fn unreadable(error: String) -> (r: VerifyResult)
        ensures
            !r.valid,
            r.broken_at is None,
            r.error == Some(error),
    {
        VerifyResult { valid: false, broken_at: None, error: Some(error) }
    }

    /// Forgets the pending entries and starts a new chain.
    pub fn wipe(&mut self)
        ensures
            final(self).pending@ == Seq::<AuditEntry>::empty(),
            final(self).previous_hash@ == initial_tip(),
    {
        self.pending = Vec::new();
        self.previous_hash = initial_hash();
    }
}

/// What `chrono` writes for a time in the format `%Y-%m-%dT%H:%M:%S`.
pub uninterp spec fn log_time_of(nanos: int) -> Seq<char>;

/// Calls `chrono::DateTime::from_timestamp_nanos`, which is defined for every
/// 64-bit number, and `DateTime::format` with `%Y-%m-%dT%H:%M:%S`. Claimed:
/// the text depends on the time alone.
#[verifier::external_body]
fn log_time(t: &Timestamp) -> (r: String)
    ensures
        r@ == log_time_of(t.nanos as int),
{
    chrono::DateTime::from_timestamp_nanos(t.nanos).format("%Y-%m-%dT%H:%M:%S").to_string()
}

/// `s` with blanks behind it, up to a width.
pub open spec fn padded(s: Seq<char>, width: nat) -> Seq<char>
    decreases width - s.len(),
{
    if s.len() >= width {
        s
    } else {
        padded(s.push(' '), width)
    }
}

/// A row of the printed table.
pub open spec fn row_of(
    time: Seq<char>,
    agent: Seq<char>,
    action: Seq<char>,
    outcome: Seq<char>,
    target: Seq<char>,
) -> Seq<char> {
    padded(time, 26) + " "@ + padded(agent, 12) + " "@ + padded(action, 20) + " "@ + padded(
        outcome,
        12,
    ) + " "@ + target
}

fn push_padded(out: &mut String, s: &str, width: usize)
    ensures
        final(out)@ == old(out)@ + padded(s@, width as nat),
{
    let ghost before = out@;
    out.append(s);
    let mut n: usize = s.unicode_len();
    let ghost mut shown = s@;
    proof {
        reveal_strlit(" ");
    }
    while n < width
        invariant
            n == shown.len(),
            out@ == before + shown,
            padded(s@, width as nat) == padded(shown, width as nat),
            " "@ == seq![' '],
        decreases width - n,
    {
        out.append(" ");
        proof {
            assert(shown.push(' ') =~= shown + " "@);
            assert(before + shown.push(' ') =~= (before + shown) + " "@);
            shown = shown.push(' ');
        }
        n += 1;
    }
}

/// A row of the printed table.
pub fn table_row(time: &str, agent: &str, action: &str, outcome: &str, target: &str) -> (r: String)
    ensures
        r@ == row_of(time@, agent@, action@, outcome@, target@),
{
    let mut r = String::new();
    push_padded(&mut r, time, 26);
    assert(r@ =~= padded(time@, 26));
    r.append(" ");
    push_padded(&mut r, agent, 12);
    r.append(" ");
    push_padded(&mut r, action, 20);
    r.append(" ");
    push_padded(&mut r, outcome, 12);
    r.append(" ");
    r.append(target);
    r
}

/// The heading of the printed table.
pub fn table_header() -> (r: String)
    ensures
        r@ == row_of("TIMESTAMP"@, "AGENT"@, "ACTION"@, "OUTCOME"@, "TARGET"@),
{
    table_row("TIMESTAMP", "AGENT", "ACTION", "OUTCOME", "TARGET")
}

/// The row of an entry.
pub fn entry_row(e: &AuditEntry) -> (r: String)
    ensures
        r@ == row_of(
            log_time_of(e.ts.nanos as int),
            e.agent@,
            e.action@,
            e.outcome@,
            match e.target {
                Some(t) => t@,
                None => "—"@,
            },
        ),
{
    let time = log_time(&e.ts);
    let target: &str = match &e.target {
        Some(t) => t.as_str(),
        None => "—",
    };
    table_row(time.as_str(), e.agent.as_str(), e.action.as_str(), e.outcome.as_str(), target)
}

/// The tip before a line does not depend on the lines from there on.
proof fn tip_prefix(a: Seq<LogLine>, b: Seq<LogLine>, i: int)
    requires
        0 <= i <= a.len(),
        i <= b.len(),
        forall|j: int| 0 <= j < i ==> a[j] == b[j],
    ensures
        tip_before(a, i) == tip_before(b, i),
    decreases i,
{
    if i > 0 {
        tip_prefix(a, b, i - 1);
    }
}

/// What is appended verifies: if a log verifies and ends at a tip, then it
/// still does with an entry that was sealed behind that tip, whose hash is the
/// new tip.
pub proof fn append_keeps_validity(lines: Seq<LogLine>, e: AuditEntry, json: String)
    requires
        verifies(lines),
        e.chain_hash@ == seal_of(tip_before(lines, lines.len() as int), json@),
    ensures
        verifies(lines.push(Some((e, json)))),
        tip_before(lines.push(Some((e, json))), (lines.len() + 1) as int) == e.chain_hash@,
{
    let all = lines.push(Some((e, json)));
    assert forall|i: int| 0 <= i < all.len() implies !#[trigger] broken(all, i) by {
        tip_prefix(lines, all, i);
        if i < lines.len() {
            assert(!broken(lines, i));
            assert(all[i] == lines[i]);
        }
    }
}

/// Whether two different byte strings share a SHA-256 hash.
pub open spec fn collision(x: Seq<u8>, y: Seq<u8>) -> bool {
    x != y && digest::sha256_of(x) == digest::sha256_of(y)
}

proof fn hex_injective(a: Seq<u8>, b: Seq<u8>)
    requires
        digest::hex_of(a) == digest::hex_of(b),
    ensures
        a == b,
{
    let ha = digest::hex_of(a);
    let hb = digest::hex_of(b);
    assert(ha.len() == 2 * a.len());
    assert(hb.len() == 2 * b.len());
    assert forall|i: int| 0 <= i < a.len() implies a[i] == b[i] by {
        let x = a[i] as int;
        let y = b[i] as int;
        assert(ha[2 * i] == digest::hex_digit(x / 16));
        assert(hb[2 * i] == digest::hex_digit(y / 16));
        assert(ha[2 * i + 1] == digest::hex_digit(x % 16));
        assert(hb[2 * i + 1] == digest::hex_digit(y % 16));
        digits_differ(x / 16, y / 16);
        digits_differ(x % 16, y % 16);
    }
    assert(a =~= b);
}

proof fn digits_differ(m: int, n: int)
    requires
        0 <= m < 16,
        0 <= n < 16,
        digest::hex_digit(m) == digest::hex_digit(n),
    ensures
        m == n,
{
    let dm = if m < 10 {
        48 + m
    } else {
        87 + m
    };
    let dn = if n < 10 {
        48 + n
    } else {
        87 + n
    };
    assert(digest::hex_digit(m) as int == dm);
    assert(digest::hex_digit(n) as int == dn);
}

/// Tampering shows: if the same hash seals two entries behind tips of equal
/// length, then the tips and the entries' JSON texts are the same, or else two
/// different byte strings share a SHA-256 hash.
pub proof fn seals_are_tamper_evident(
    tip_a: Seq<char>,
    json_a: Seq<char>,
    tip_b: Seq<char>,
    json_b: Seq<char>,
)
    requires
        tip_a.len() == tip_b.len(),
        seal_of(tip_a, json_a) == seal_of(tip_b, json_b),
    ensures
        (tip_a == tip_b && json_a == json_b) || exists|x: Seq<u8>, y: Seq<u8>|
            #[trigger] collision(x, y),
{
    let x = vstd::utf8::encode_utf8(tip_a + json_a);
    let y = vstd::utf8::encode_utf8(tip_b + json_b);
    hex_injective(digest::sha256_of(x), digest::sha256_of(y));
    if x != y {
        assert(collision(x, y));
    } else {
        vstd::utf8::encode_utf8_decode_utf8(tip_a + json_a);
        vstd::utf8::encode_utf8_decode_utf8(tip_b + json_b);
        let n = tip_a.len() as int;
        assert((tip_a + json_a).subrange(0, n) =~= tip_a);
        assert((tip_b + json_b).subrange(0, n) =~= tip_b);
        assert((tip_a + json_a).subrange(n, n + json_a.len()) =~= json_a);
        assert((tip_b + json_b).subrange(n, n + json_b.len()) =~= json_b);
    }
}

/// Tampering shows in a whole log: two logs of equal length without unreadable
/// lines, with hashes of equal length, that both verify and end in the same
/// hash hold the same JSON texts, or else two different byte strings share a
/// SHA-256 hash.
pub proof fn same_tip_same_log(a: Seq<LogLine>, b: Seq<LogLine>)
    requires
        a.len() == b.len(),
        forall|i: int|
            0 <= i < a.len() ==> (#[trigger] a[i]) is Some && b[i] is Some && entry_of(
                a[i],
            ).chain_hash@.len() == entry_of(b[i]).chain_hash@.len(),
        verifies(a),
        verifies(b),
        tip_before(a, a.len() as int) == tip_before(b, b.len() as int),
    ensures
        (forall|i: int| 0 <= i < a.len() ==> json_of(#[trigger] a[i]) == json_of(b[i])) || exists|
            x: Seq<u8>,
            y: Seq<u8>,
        | #[trigger] collision(x, y),
    decreases a.len(),
{
    if a.len() > 0 {
        let n = a.len() - 1;
        assert(!broken(a, n));
        assert(!broken(b, n));
        let a0 = a.drop_last();
        let b0 = b.drop_last();
        tip_prefix(a, a0, n);
        tip_prefix(b, b0, n);
        assert(a[n] is Some);
        if n > 0 {
            assert(a[n - 1] is Some);
        }
        seals_are_tamper_evident(
            tip_before(a, n),
            json_of(a[n]),
            tip_before(b, n),
            json_of(b[n]),
        );
        if !(exists|x: Seq<u8>, y: Seq<u8>| #[trigger] collision(x, y)) {
            assert forall|i: int| 0 <= i < a0.len() implies !#[trigger] broken(a0, i) by {
                assert(!broken(a, i));
                tip_prefix(a, a0, i);
            }
            assert forall|i: int| 0 <= i < b0.len() implies !#[trigger] broken(b0, i) by {
                assert(!broken(b, i));
                tip_prefix(b, b0, i);
            }
            assert forall|i: int| 0 <= i < a0.len() implies (#[trigger] a0[i]) is Some
                && b0[i] is Some && entry_of(a0[i]).chain_hash@.len() == entry_of(
                b0[i],
            ).chain_hash@.len() by {
                assert(a[i] is Some);
            }
            same_tip_same_log(a0, b0);
            assert forall|i: int| 0 <= i < a.len() implies json_of(#[trigger] a[i]) == json_of(
                b[i],
            ) by {
                if i < n {
                    assert(a0[i] == a[i]);
                    assert(b0[i] == b[i]);
                }
            }
        }
    }
}

/// The log and the chain start from the same value.
pub proof fn log_starts_where_the_chain_does()
    ensures
        initial_tip() == digest::hex_of(crate::audit_chain::genesis()),
        initial_tip() == digest::hex_of(
            digest::sha256_of(vstd::utf8::encode_utf8("cognos-audit-v1"@)),
        ),
{
}

/// How large a log may grow, how many old ones are kept, and how often it is
/// written out: fifty mebibytes, five files, a tenth of a second or fifty
/// entries.
pub proof fn log_limits()
    ensures
        MAX_LOG_SIZE_BYTES == 50 * 1024 * 1024,
        MAX_ROTATED_FILES == 5,
        FLUSH_INTERVAL_MS * 10 == 1_000,
        FLUSH_ENTRY_COUNT == 50,
{
}

/// A report on a log where every line is an entry is valid exactly where every
/// entry carries the digest of what the one before it carries (the first one, of
/// the starting value) and its own text. Otherwise the number of the first entry
/// that does not, counted from one, is named.
pub proof fn report_names_the_first_break(r: VerifyResult, lines: Seq<LogLine>)
    requires
        lines.len() < u64::MAX,
        forall|i: int| 0 <= i < lines.len() ==> (#[trigger] lines[i]) is Some,
        is_report(r, lines),
    ensures
        r.valid <==> forall|i: int|
            0 <= i < lines.len() ==> entry_of(#[trigger] lines[i]).chain_hash@ == digest::hex_of(
                digest::sha256_of(
                    vstd::utf8::encode_utf8(
                        (if i == 0 {
                            digest::hex_of(
                                digest::sha256_of(vstd::utf8::encode_utf8("cognos-audit-v1"@)),
                            )
                        } else {
                            entry_of(lines[i - 1]).chain_hash@
                        }) + json_of(lines[i]),
                    ),
                ),
            ),
        r.valid ==> r.broken_at is None && r.error is None,
        !r.valid ==> r.broken_at is Some && 1 <= r.broken_at->0 <= lines.len() && text::opt_text(
            r.error,
        ) == Some(
            "Chain broken at entry "@ + text::decimal_digits(r.broken_at->0 as nat) + " (agent="@
                + entry_of(lines[r.broken_at->0 - 1]).agent@ + ", action="@ + entry_of(
                lines[r.broken_at->0 - 1],
            ).action@ + ")"@,
        ),
{
    assert forall|i: int| 0 <= i < lines.len() implies (broken(lines, i) <==> entry_of(
        #[trigger] lines[i],
    ).chain_hash@ != seal_of(
        if i == 0 {
            initial_tip()
        } else {
            entry_of(lines[i - 1]).chain_hash@
        },
        json_of(lines[i]),
    )) by {
        reveal_with_fuel(tip_before, 2);
        if i > 0 {
            assert(lines[i - 1] is Some);
        }
    }
    if verifies(lines) {
        assert forall|i: int| 0 <= i < lines.len() implies !broken(lines, i) && (
        #[trigger] lines[i]) is Some by {}
    } else {
        let i = choose|i: int|
            {
                &&& 0 <= i < lines.len()
                &&& #[trigger] broken(lines, i)
                &&& forall|j: int| 0 <= j < i ==> !#[trigger] broken(lines, j)
                &&& r.broken_at == Some((i + 1) as u64)
                &&& text::opt_text(r.error) == Some(breach_message(lines, i))
            };
        assert(broken(lines, i));
        assert(lines[i] is Some);
    }
}

/// A filter without conditions passes every entry, and each condition alone
/// passes the entries that meet it and no others.
pub proof fn filters_ask_for_what_they_name(e: AuditEntry, f: AuditFilter)
    ensures
        f.agent is None && f.action is None && f.since is None && f.intent_id is None
            && f.hal_level is None && f.target_contains is None ==> passes(e, f),
        passes(e, f) ==> {
            &&& f.agent is Some ==> e.agent@ == f.agent->0@
            &&& f.action is Some ==> e.action@ == f.action->0@
            &&& f.since is Some ==> e.ts.nanos >= f.since->0.nanos
            &&& f.intent_id is Some ==> e.intent_id == f.intent_id
            &&& f.hal_level is Some ==> e.hal_level is Some && e.hal_level->0@ == f.hal_level->0@
            &&& f.target_contains is Some && f.target_contains->0@.len() > 0 ==> e.target is Some
                && text::occurs_in(e.target->0@, f.target_contains->0@)
        },
        f.action is None && f.since is None && f.intent_id is None && f.hal_level is None
            && f.target_contains is None && f.agent is Some && e.agent@ == f.agent->0@ ==> passes(
            e,
            f,
        ),
        f.agent is None && f.since is None && f.intent_id is None && f.hal_level is None
            && f.target_contains is None && f.action is Some && e.action@ == f.action->0@
            ==> passes(e, f),
        f.agent is None && f.action is None && f.intent_id is None && f.hal_level is None
            && f.target_contains is None && f.since is Some && e.ts.nanos >= f.since->0.nanos
            ==> passes(e, f),
        f.agent is None && f.action is None && f.since is None && f.hal_level is None
            && f.target_contains is None && f.intent_id is Some && e.intent_id == f.intent_id
            ==> passes(e, f),
        f.agent is None && f.action is None && f.since is None && f.intent_id is None
            && f.target_contains is None && f.hal_level is Some && e.hal_level is Some
            && e.hal_level->0@ == f.hal_level->0@ ==> passes(e, f),
        f.agent is None && f.action is None && f.since is None && f.intent_id is None
            && f.hal_level is None && f.target_contains is Some && e.target is Some
            && text::occurs_in(e.target->0@, f.target_contains->0@) ==> passes(e, f),
{
}

/// A column is filled with blanks to its width; what is longer stays whole.
pub proof fn columns_are_filled(s: Seq<char>, width: nat)
    ensures
        padded(s, width).len() == (if s.len() >= width {
            s.len()
        } else {
            width
        }),
        padded(s, width).take(s.len() as int) == s,
        forall|i: int| s.len() <= i < padded(s, width).len() ==> #[trigger] padded(s, width)[i]
            == ' ',
    decreases width - s.len(),
{
    if s.len() < width {
        let t = s.push(' ');
        columns_are_filled(t, width);
        let p = padded(s, width);
        assert(p.take(t.len() as int) =~= t);
        assert(p.take(s.len() as int) =~= t.take(s.len() as int));
        assert(t.take(s.len() as int) =~= s);
        assert(p[s.len() as int] == p.take(t.len() as int)[s.len() as int]);
    } else {
        assert(s.take(s.len() as int) =~= s);
    }
}

/// In a row whose parts fit, the agent stands in column 27, the action in column
/// 40, the outcome in column 61 and the target in column 74.
pub proof fn rows_are_aligned(
    time: Seq<char>,
    agent: Seq<char>,
    action: Seq<char>,
    outcome: Seq<char>,
    target: Seq<char>,
)
    requires
        time.len() <= 26,
        agent.len() <= 12,
        action.len() <= 20,
        outcome.len() <= 12,
    ensures
        ({
            let row = row_of(time, agent, action, outcome, target);
            &&& row.subrange(0, 26) == padded(time, 26)
            &&& row[26] == ' '
            &&& row.subrange(27, 39) == padded(agent, 12)
            &&& row[39] == ' '
            &&& row.subrange(40, 60) == padded(action, 20)
            &&& row[60] == ' '
            &&& row.subrange(61, 73) == padded(outcome, 12)
            &&& row[73] == ' '
            &&& row.subrange(74, row.len() as int) == target
        }),
{
    columns_are_filled(time, 26);
    columns_are_filled(agent, 12);
    columns_are_filled(action, 20);
    columns_are_filled(outcome, 12);
    reveal_strlit(" ");
    let row = row_of(time, agent, action, outcome, target);
    assert(row.subrange(0, 26) =~= padded(time, 26));
    assert(row.subrange(27, 39) =~= padded(agent, 12));
    assert(row.subrange(40, 60) =~= padded(action, 20));
    assert(row.subrange(61, 73) =~= padded(outcome, 12));
    assert(row.subrange(74, row.len() as int) =~= target);
}

} // verus!
