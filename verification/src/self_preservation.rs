//! Protection of the HAL's own files: known-good hashes, and a lockdown when
//! they no longer match.
//!
//! The engine judges contents that its caller has read: a file that could not
//! be read is absent from them.

use vstd::prelude::*;
use vstd::string::StringExecFns;

use crate::clock;
use crate::clock::Timestamp;
use crate::digest;
use crate::path;
use crate::path::FilePath;
use crate::table;
use crate::table::Table;
use crate::text;

verus! {

/// Errors returned by the self-preservation module.
#[derive(Clone, Debug)]
pub enum TamperError {
    /// A watched file's hash does not match its baseline.
    HashMismatch {
        /// Path of the modified file.
        path: String,
        /// Expected SHA-256 (hex).
        expected: String,
        /// Actual SHA-256 (hex).
        actual: String,
    },
    /// A watched file is missing.
    MissingFile(String),
    /// A watcher could not be installed.
    WatcherInstall(String, String),
    /// The HAL is in lockdown and cannot process requests.
    LockedDown(Timestamp),
}

/// The text of an error.
pub open spec fn error_text(e: TamperError) -> Seq<char> {
    match e {
        TamperError::HashMismatch { path, expected, actual } => "integrity check failed for "@
            + path@ + ": expected "@ + expected@ + ", got "@ + actual@,
        TamperError::MissingFile(path) => "watched file missing: "@ + path@,
        TamperError::WatcherInstall(path, cause) => "watcher install failed for "@ + path@ + ": "@
            + cause@,
        TamperError::LockedDown(since) => "HAL is in lockdown since "@ + clock::display_of(
            since.nanos as int,
        ) + " — human review required"@,
    }
}

impl TamperError {
    /// The error as one line.
    pub fn to_text(&self) -> (t: String)
        ensures
            t@ == error_text(*self),
    {
        match self {
            TamperError::HashMismatch { path, expected, actual } => {
                let mut t = String::from_str("integrity check failed for ");
                t.append(path.as_str());
                t.append(": expected ");
                t.append(expected.as_str());
                t.append(", got ");
                t.append(actual.as_str());
                t
            },
            TamperError::MissingFile(path) => String::from_str("watched file missing: ").concat(
                path.as_str(),
            ),
            TamperError::WatcherInstall(path, cause) => {
                let mut t = String::from_str("watcher install failed for ");
                t.append(path.as_str());
                t.append(": ");
                t.append(cause.as_str());
                t
            },
            TamperError::LockedDown(since) => {
                let mut t = String::from_str("HAL is in lockdown since ");
                let time = clock::display_text(since);
                t.append(time.as_str());
                t.append(" — human review required");
                t
            },
        }
    }
}

/// The lockdown state of the HAL.
#[derive(Clone, Copy, Debug, PartialEq, Eq, Structural)]
pub enum LockdownState {
    /// HAL is operating normally.
    Normal,
    /// HAL is in lockdown. All gated actions are denied; only human-initiated
    /// review operations may proceed.
    LockedDown,
}

impl Default for LockdownState {
    fn default() -> (s: LockdownState)
        ensures
            s == LockdownState::Normal,
    {
        LockdownState::Normal
    }
}

/// Recorded hash for a watched path.
#[derive(Clone, Debug)]
pub struct IntegrityRecord {
    /// The watched path.
    pub path: String,
    /// Expected SHA-256 hash (hex).
    pub expected_hash: String,
    /// When the baseline was recorded.
    pub baseline_at: Timestamp,
    /// Whether a watcher is installed for this path.
    pub watched: bool,
}

/// The SHA-256 of contents in hexadecimal notation.
pub open spec fn content_hash(bytes: Seq<u8>) -> Seq<char> {
    digest::hex_of(digest::sha256_of(bytes))
}

/// Whether a record is the baseline of a path with given contents at a time.
pub open spec fn is_baseline(
    r: IntegrityRecord,
    path: Seq<char>,
    bytes: Seq<u8>,
    now: Timestamp,
) -> bool {
    r.path@ == path && r.expected_hash@ == content_hash(bytes) && r.baseline_at == now && !r.watched
}

/// Whether the contents of a record's file hash to its baseline.
pub open spec fn intact(r: IntegrityRecord, contents: Map<Seq<Seq<char>>, Vec<u8>>) -> bool {
    contents.dom().contains(path::parts(r.path@)) && content_hash(contents[path::parts(r.path@)]@) == r.expected_hash@
}

/// Whether an error is what is wrong with a record that is not intact.
pub open spec fn is_tamper_report(
    e: TamperError,
    r: IntegrityRecord,
    contents: Map<Seq<Seq<char>>, Vec<u8>>,
) -> bool {
    if contents.dom().contains(path::parts(r.path@)) {
        e matches TamperError::HashMismatch { path, expected, actual } && path@ == r.path@
            && expected@ == r.expected_hash@ && actual@ == content_hash(contents[path::parts(r.path@)]@)
    } else {
        e matches TamperError::MissingFile(path) && path@ == r.path@
    }
}

/// Whether a list of paths names a path, in whatever notation.
pub open spec fn lists(paths: Seq<String>, path: Seq<char>) -> bool {
    exists|i: int|
        0 <= i < paths.len() && path::parts((#[trigger] paths[i])@) == path::parts(path)
}

/// The self-preservation engine.
#[derive(Debug)]
pub struct SelfPreservation {
    /// Known-good hashes for HAL-critical files, by path.
    integrity_hashes: Table<FilePath, IntegrityRecord>,
    /// Paths registered for watching.
    watchers: Vec<String>,
    /// Current lockdown state.
    lockdown: LockdownState,
}

impl Default for SelfPreservation {
    fn default() -> (s: SelfPreservation)
        ensures
            s.is_fresh(),
    {
        SelfPreservation {
            integrity_hashes: Table::new(),
            watchers: Vec::new(),
            lockdown: LockdownState::Normal,
        }
    }
}

impl SelfPreservation {
    /// The known-good hashes, by path.
    pub closed spec fn baselines(&self) -> Table<FilePath, IntegrityRecord> {
        self.integrity_hashes
    }

    /// The paths registered for watching.
    pub closed spec fn watched_paths(&self) -> Vec<String> {
        self.watchers
    }

    /// The lockdown state.
    pub closed spec fn lock_state(&self) -> LockdownState {
        self.lockdown
    }

    /// Whether the engine is as it starts.
    pub open spec fn is_fresh(&self) -> bool {
        &&& self.baselines()@ == Map::<Seq<Seq<char>>, IntegrityRecord>::empty()
        &&& self.watched_paths()@ == Seq::<String>::empty()
        &&& self.lock_state() == LockdownState::Normal
    }

    /// Whether every registered file is intact.
    pub open spec fn all_intact(&self, contents: Map<Seq<Seq<char>>, Vec<u8>>) -> bool {
        forall|p: Seq<Seq<char>>| #[trigger]
            self.baselines()@.dom().contains(p) ==> intact(self.baselines()@[p], contents)
    }

    /// Whether the record at a place of the order is the first that is not
    /// intact.
    pub open spec fn first_tampered(&self, contents: Map<Seq<Seq<char>>, Vec<u8>>, k: int) -> bool {
        let ids = self.baselines().ids();
        &&& 0 <= k < ids.len()
        &&& !intact(self.baselines()@[ids[k]], contents)
        &&& forall|j: int|
            0 <= j < k ==> intact(self.baselines()@[#[trigger] ids[j]], contents)
    }

    /// An engine without baselines.
    pub fn new() -> (s: SelfPreservation)
        ensures
            s.is_fresh(),
    {
        SelfPreservation::default()
    }

    /// The SHA-256 of contents in hexadecimal notation; contents that could not
    /// be read are an error.
    pub fn hash_file(path: &str, contents: Option<&Vec<u8>>) -> (r: Result<String, TamperError>)
        ensures
            match contents {
                Some(bytes) => r matches Ok(h) && h@ == content_hash(bytes@),
                None => r matches Err(TamperError::MissingFile(p)) && p@ == path@,
            },
    {
        match contents {
            Some(bytes) => {
                let d = digest::sha256(bytes.as_slice());
                Ok(digest::hex_encode(d.as_slice()))
            },
            None => Err(TamperError::MissingFile(path.to_owned())),
        }
    }

    /// Registers a path with its contents as the baseline at a time; contents
    /// that could not be read are an error.
    pub fn register_path_at(&mut self, path: String, contents: Option<&Vec<u8>>, now: Timestamp)
     -> (r: Result<(), TamperError>)
        ensures
            match contents {
                Some(bytes) => {
                    &&& r is Ok
                    &&& final(self).baselines()@.dom().contains(path::parts(path@))
                    &&& is_baseline(final(self).baselines()@[path::parts(path@)], path@, bytes@, now)
                    &&& final(self).baselines()@ == old(self).baselines()@.insert(
                        path::parts(path@),
                        final(self).baselines()@[path::parts(path@)],
                    )
                },
                None => {
                    &&& r matches Err(TamperError::MissingFile(p)) && p@ == path@
                    &&& final(self).baselines() == old(self).baselines()
                },
            },
            final(self).watched_paths() == old(self).watched_paths(),
            final(self).lock_state() == old(self).lock_state(),
    {
        let hash = match SelfPreservation::hash_file(path.as_str(), contents) {
            Ok(h) => h,
            Err(e) => {
                return Err(e);
            },
        };
        let record = IntegrityRecord {
            path: path.clone(),
            expected_hash: hash,
            baseline_at: now,
            watched: false,
        };
        self.integrity_hashes.insert(FilePath(path), record);
        Ok(())
    }

    /// Registers a path with its contents as the baseline, now.
    pub fn register_path(&mut self, path: String, contents: Option<&Vec<u8>>) -> (r: Result<
        (),
        TamperError,
    >)
        ensures
            match contents {
                Some(bytes) => {
                    &&& r is Ok
                    &&& final(self).baselines()@.dom().contains(path::parts(path@))
                    &&& is_baseline(
                        final(self).baselines()@[path::parts(path@)],
                        path@,
                        bytes@,
                        final(self).baselines()@[path::parts(path@)].baseline_at,
                    )
                    &&& final(self).baselines()@ == old(self).baselines()@.insert(
                        path::parts(path@),
                        final(self).baselines()@[path::parts(path@)],
                    )
                },
                None => {
                    &&& r matches Err(TamperError::MissingFile(p)) && p@ == path@
                    &&& final(self).baselines() == old(self).baselines()
                },
            },
            final(self).watched_paths() == old(self).watched_paths(),
            final(self).lock_state() == old(self).lock_state(),
    {
        self.register_path_at(path, contents, Timestamp::now())
    }

    /// Registers a path for watching, once.
    pub fn watch_path(&mut self, path: String)
        ensures
            final(self).watched_paths()@ == (if lists(old(self).watched_paths()@, path@) {
                old(self).watched_paths()@
            } else {
                old(self).watched_paths()@.push(path)
            }),
            final(self).baselines() == old(self).baselines(),
            final(self).lock_state() == old(self).lock_state(),
    {
        let mut i: usize = 0;
        while i < self.watchers.len()
            invariant
                i <= self.watchers@.len(),
                self.watchers == old(self).watchers,
                self.integrity_hashes == old(self).integrity_hashes,
                self.lockdown == old(self).lockdown,
                forall|j: int|
                    0 <= j < i ==> path::parts((#[trigger] self.watchers@[j])@) != path::parts(path@),
            decreases self.watchers@.len() - i,
        {
            if path::same_path(self.watchers[i].as_str(), path.as_str()) {
                return ;
            }
            i += 1;
        }
        self.watchers.push(path);
    }

    /// Checks the contents of all registered paths against their baselines, and
    /// reports the first that fails, in the order of registration.
    pub fn verify_integrity(&self, contents: &Table<FilePath, Vec<u8>>) -> (r: Result<
        (),
        TamperError,
    >)
        ensures
            r is Ok <==> self.all_intact(contents@),
            r matches Err(e) ==> exists|k: int| #[trigger]
                self.first_tampered(contents@, k) && is_tamper_report(
                    e,
                    self.baselines()@[self.baselines().ids()[k]],
                    contents@,
                ),
    {
        let ghost ids = self.integrity_hashes.ids();
        let n: usize = self.integrity_hashes.len();
        proof {
            table::order_lists_keys(self.integrity_hashes);
        }
        let mut i: usize = 0;
        while i < n
            invariant
                ids == self.integrity_hashes.ids(),
                n == ids.len(),
                i <= n,
                forall|j: int|
                    0 <= j < i ==> intact(
                        self.integrity_hashes@[#[trigger] ids[j]],
                        contents@,
                    ),
            decreases n - i,
        {
            let record = self.integrity_hashes.value_at(i);
            let actual = match SelfPreservation::hash_file(
                record.path.as_str(),
                contents.get(&FilePath(record.path.clone())),
            ) {
                Ok(h) => h,
                Err(e) => {
                    assert(self.first_tampered(contents@, i as int));
                    assert(!self.all_intact(contents@)) by {
                        assert(self.integrity_hashes@.dom().contains(ids[i as int]));
                    }
                    return Err(e);
                },
            };
            if !text::same_text(actual.as_str(), record.expected_hash.as_str()) {
                assert(self.first_tampered(contents@, i as int));
                assert(!self.all_intact(contents@)) by {
                    assert(self.integrity_hashes@.dom().contains(ids[i as int]));
                }
                return Err(
                    TamperError::HashMismatch {
                        path: record.path.clone(),
                        expected: record.expected_hash.clone(),
                        actual,
                    },
                );
            }
            i += 1;
        }
        assert forall|p: Seq<Seq<char>>| #[trigger]
            self.integrity_hashes@.dom().contains(p) implies intact(
            self.integrity_hashes@[p],
            contents@,
        ) by {
            assert(ids.to_set().contains(p));
            let j = choose|j: int| 0 <= j < ids.len() && ids[j] == p;
            assert(ids[j] == p);
        }
        Ok(())
    }

    /// Enters lockdown, and returns the state.
    pub fn emergency_lockdown(&mut self) -> (s: LockdownState)
        ensures
            s == LockdownState::LockedDown,
            final(self).lock_state() == LockdownState::LockedDown,
            final(self).baselines() == old(self).baselines(),
            final(self).watched_paths() == old(self).watched_paths(),
    {
        if self.lockdown == LockdownState::Normal {
            self.lockdown = LockdownState::LockedDown;
        }
        self.lockdown
    }

    /// Releases the lockdown, and returns the state. The caller sees to it that
    /// a human asked for it.
    pub fn release_lockdown(&mut self) -> (s: LockdownState)
        ensures
            s == LockdownState::Normal,
            final(self).lock_state() == LockdownState::Normal,
            final(self).baselines() == old(self).baselines(),
            final(self).watched_paths() == old(self).watched_paths(),
    {
        self.lockdown = LockdownState::Normal;
        self.lockdown
    }

    /// Current lockdown state.
    pub fn lockdown_state(&self) -> (s: LockdownState)
        ensures
            s == self.lock_state(),
    {
        self.lockdown
    }

    /// The integrity records.
    pub fn integrity_records(&self) -> (t: &Table<FilePath, IntegrityRecord>)
        ensures
            *t == self.baselines(),
    {
        &self.integrity_hashes
    }

    /// The paths registered for watching.
    pub fn watchers(&self) -> (w: &[String])
        ensures
            w@ == self.watched_paths()@,
    {
        self.watchers.as_slice()
    }
}

/// A file that was just registered is intact as long as its contents stay, and
/// contents that verify hash to the baseline.
pub proof fn baseline_is_intact(
    r: IntegrityRecord,
    path: Seq<char>,
    bytes: Seq<u8>,
    now: Timestamp,
    contents: Map<Seq<Seq<char>>, Vec<u8>>,
)
    requires
        is_baseline(r, path, bytes, now),
        contents.dom().contains(path::parts(path)),
    ensures
        contents[path::parts(path)]@ == bytes ==> intact(r, contents),
        intact(r, contents) ==> content_hash(contents[path::parts(path)]@) == content_hash(bytes),
{
}

/// A file is intact exactly where it is there and its digest is the recorded
/// one. What is reported of one that is not tells which of the two failed.
pub proof fn tampering_is_told_apart(
    r: IntegrityRecord,
    contents: Map<Seq<Seq<char>>, Vec<u8>>,
    e: TamperError,
)
    requires
        is_tamper_report(e, r, contents),
        !intact(r, contents),
    ensures
        e is MissingFile <==> !contents.dom().contains(path::parts(r.path@)),
        e is HashMismatch ==> e->expected@ != e->actual@ && e->expected@ == r.expected_hash@
            && e->actual@ == digest::hex_of(
            digest::sha256_of(contents[path::parts(r.path@)]@),
        ),
        e is HashMismatch || e is MissingFile,
{
}

/// How an error is worded.
pub proof fn errors_are_worded(e: TamperError)
    ensures
        e is HashMismatch ==> error_text(e) == "integrity check failed for "@
            + e->HashMismatch_path@ + ": expected "@ + e->expected@ + ", got "@ + e->actual@,
        e is MissingFile ==> error_text(e) == "watched file missing: "@ + e->MissingFile_0@,
        e is WatcherInstall ==> error_text(e) == "watcher install failed for "@
            + e->WatcherInstall_0@ + ": "@ + e->WatcherInstall_1@,
        e is LockedDown ==> error_text(e) == "HAL is in lockdown since "@ + clock::display_of(
            e->LockedDown_0.nanos as int,
        ) + " — human review required"@,
{
}

/// Everything is intact exactly where no record is first found tampered with.
pub proof fn intact_or_first_tampered(
    m: SelfPreservation,
    contents: Map<Seq<Seq<char>>, Vec<u8>>,
    k: int,
    j: int,
)
    ensures
        m.first_tampered(contents, k) && 0 <= j < k ==> intact(
            m.baselines()@[m.baselines().ids()[j]],
            contents,
        ),
        m.first_tampered(contents, k) && m.first_tampered(contents, j) ==> k == j,
{
}

} // verus!
