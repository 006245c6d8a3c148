//! Snapshots of HAL's governed state that survive reboots and crashes.
//!
//! A snapshot is written to a temporary file beside its target and renamed
//! over it; the engine names that file and judges what is read back.

use vstd::prelude::*;
use vstd::string::StringExecFns;

use crate::clock::Timestamp;
use crate::ident;

verus! {

/// An agent identifier.
pub type AgentId = String;

/// A snapshot of HAL's governed state at a moment in time.
#[derive(Clone, Debug)]
pub struct Snapshot {
    /// SHA-256 hash of the audit chain head at snapshot time.
    pub audit_head: [u8; 32],
    /// Serialized trust state, as a JSON text.
    pub trust_state: String,
    /// Serialized reputation state, as a JSON text.
    pub reputation_state: String,
    /// Current autonomy level (e.g. "Supervised", "Advisory", ...).
    pub autonomy_level: String,
    /// When the snapshot was captured.
    pub timestamp: Timestamp,
}

impl Snapshot {
    /// Whether the snapshot is the empty one.
    pub open spec fn is_empty_snapshot(&self) -> bool {
        &&& self.audit_head@ == Seq::new(32, |i: int| 0u8)
        &&& self.trust_state@ == "{}"@
        &&& self.reputation_state@ == "{}"@
        &&& self.autonomy_level@ == "Supervised"@
    }

    /// The empty snapshot at a time.
    pub fn empty_at(timestamp: Timestamp) -> (s: Snapshot)
        ensures
            s.is_empty_snapshot(),
            s.timestamp == timestamp,
    {
        let audit_head = [0u8; 32];
        assert(audit_head@ =~= Seq::new(32, |i: int| 0u8));
        Snapshot {
            audit_head,
            trust_state: String::from_str("{}"),
            reputation_state: String::from_str("{}"),
            autonomy_level: String::from_str("Supervised"),
            timestamp,
        }
    }

    /// The empty snapshot, now.
    pub fn empty() -> (s: Snapshot)
        ensures
            s.is_empty_snapshot(),
    {
        Snapshot::empty_at(Timestamp::now())
    }
}

/// Where snapshots go and how often.
#[derive(Clone, Debug)]
pub struct ContinuityEngine {
    /// Filesystem path to the snapshot file.
    pub snapshot_path: String,
    /// Snapshot interval in seconds.
    pub interval_secs: i64,
}

/// Errors returned by the continuity engine.
#[derive(Clone, Debug)]
pub enum ContinuityError {
    /// No snapshot file exists at the configured path.
    NotFound,
    /// Snapshot file could not be read.
    Read(String),
    /// Snapshot file could not be parsed.
    Deserialize(String),
    /// Snapshot could not be serialized.
    Serialize(String),
    /// Snapshot file could not be written or renamed.
    Write(String),
    /// The configured snapshot path is invalid.
    Path(String),
}

impl ContinuityError {
    /// The error as one line.
    pub fn to_text(&self) -> (t: String)
        ensures
            t@ == (match *self {
                ContinuityError::NotFound => "no snapshot file at configured path"@,
                ContinuityError::Read(e) => "failed to read snapshot: "@ + e@,
                ContinuityError::Deserialize(e) => "failed to deserialize snapshot: "@ + e@,
                ContinuityError::Serialize(e) => "failed to serialize snapshot: "@ + e@,
                ContinuityError::Write(e) => "failed to write snapshot: "@ + e@,
                ContinuityError::Path(e) => "invalid snapshot path: "@ + e@,
            }),
    {
        match self {
            ContinuityError::NotFound => String::from_str("no snapshot file at configured path"),
            ContinuityError::Read(e) => String::from_str("failed to read snapshot: ").concat(
                e.as_str(),
            ),
            ContinuityError::Deserialize(e) => String::from_str(
                "failed to deserialize snapshot: ",
            ).concat(e.as_str()),
            ContinuityError::Serialize(e) => String::from_str(
                "failed to serialize snapshot: ",
            ).concat(e.as_str()),
            ContinuityError::Write(e) => String::from_str("failed to write snapshot: ").concat(
                e.as_str(),
            ),
            ContinuityError::Path(e) => String::from_str("invalid snapshot path: ").concat(
                e.as_str(),
            ),
        }
    }
}

/// The name of the temporary file for a snapshot file's name, or for a
/// snapshot without one, and an identifier.
pub open spec fn tmp_name_of(file_name: Option<&str>, id: u128) -> Seq<char> {
    "."@ + (match file_name {
        Some(n) => n@,
        None => "snapshot"@,
    }) + "."@ + ident::uuid_simple_digits(id) + ".tmp"@
}

impl ContinuityEngine {
    /// An engine for a path with an interval of a minute.
    pub fn new(snapshot_path: String) -> (e: ContinuityEngine)
        ensures
            e.snapshot_path == snapshot_path,
            e.interval_secs == 60,
    {
        ContinuityEngine { snapshot_path, interval_secs: 60 }
    }

    /// An engine for a path with a given interval in seconds.
    pub fn with_interval(snapshot_path: String, interval_secs: i64) -> (e: ContinuityEngine)
        ensures
            e.snapshot_path == snapshot_path,
            e.interval_secs == interval_secs,
    {
        ContinuityEngine { snapshot_path, interval_secs }
    }

    /// The name of the temporary file for an identifier.
    pub fn tmp_name_with(file_name: Option<&str>, id: u128) -> (t: String)
        ensures
            t@ == tmp_name_of(file_name, id),
    {
        let mut t = String::from_str(".");
        t.append(match file_name {
            Some(n) => n,
            None => "snapshot",
        });
        t.append(".");
        let digits = ident::uuid_simple_text(id);
        t.append(digits.as_str());
        t.append(".tmp");
        t
    }

    /// A fresh name for a temporary file.
    pub fn tmp_name(file_name: Option<&str>) -> (t: String)
        ensures
            exists|id: u128|
                ident::is_random_uuid(id) && t@ == #[trigger] tmp_name_of(file_name, id),
    {
        let id: u128 = ident::new_uuid();
        let t = ContinuityEngine::tmp_name_with(file_name, id);
        assert(t@ == tmp_name_of(file_name, id));
        t
    }

    /// What restoring gives: nothing is found where there is no file, and
    /// otherwise what reading and parsing it gave.
    pub fn restore(exists_file: bool, loaded: Result<Snapshot, ContinuityError>) -> (r: Result<
        Snapshot,
        ContinuityError,
    >)
        ensures
            r == (if exists_file {
                loaded
            } else {
                Err::<Snapshot, ContinuityError>(ContinuityError::NotFound)
            }),
    {
        if exists_file {
            loaded
        } else {
            Err(ContinuityError::NotFound)
        }
    }
}

/// The name of a temporary file is hidden, begins with the name of the file it
/// stands for, and ends in `.tmp`.
pub proof fn temporary_files_are_hidden(name: &str, id: u128)
    ensures
        tmp_name_of(Some(name), id) == "."@ + name@ + "."@ + ident::uuid_simple_digits(id)
            + ".tmp"@,
        tmp_name_of(None, id) == "."@ + "snapshot"@ + "."@ + ident::uuid_simple_digits(id)
            + ".tmp"@,
        tmp_name_of(Some(name), id)[0] == '.',
{
    reveal_strlit(".");
}

/// An empty snapshot: thirty-two zero bytes, two empty objects, and supervision.
pub proof fn empty_snapshots_are_blank(s: Snapshot, i: int)
    requires
        s.is_empty_snapshot(),
    ensures
        s.audit_head@.len() == 32,
        0 <= i < 32 ==> s.audit_head@[i] == 0,
        s.trust_state@ == "{}"@,
        s.reputation_state@ == "{}"@,
        s.autonomy_level@ == "Supervised"@,
{
}

} // verus!
