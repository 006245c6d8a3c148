//! Recovery points of HAL's governed state, and rollback to them.

use vstd::prelude::*;
use vstd::string::StringExecFns;

use crate::clock;
use crate::clock::Timestamp;
use crate::digest;
use crate::ident;
use crate::window;

verus! {

/// An agent identifier.
pub type AgentId = String;

/// Identifier of a recovery point.
pub type RecoveryPointId = u128;

/// Number of recovery points that are kept unless configured otherwise.
pub const DEFAULT_MAX_POINTS: usize = 32;

/// A mark of HAL's governed state at a moment in time.
#[derive(Clone, Debug)]
pub struct RecoveryPoint {
    /// Unique id of this recovery point.
    pub id: RecoveryPointId,
    /// When the point was captured.
    pub timestamp: Timestamp,
    /// SHA-256 hash of the governed-state blob at capture time.
    pub hash: [u8; 32],
    /// Human-readable description of what HAL state this captures.
    pub description: String,
}

/// Whether a point marks a state blob with a description.
pub open spec fn marks(p: RecoveryPoint, description: Seq<char>, blob: Seq<u8>) -> bool {
    p.description@ == description && p.hash@ == digest::sha256_of(blob)
}

impl RecoveryPoint {
    /// A recovery point of an id and a time.
    pub fn with_id(
        id: RecoveryPointId,
        timestamp: Timestamp,
        description: String,
        state_blob: &[u8],
    ) -> (p: RecoveryPoint)
        ensures
            p.id == id,
            p.timestamp == timestamp,
            marks(p, description@, state_blob@),
    {
        RecoveryPoint { id, timestamp, hash: digest::sha256(state_blob), description }
    }

    /// A fresh recovery point, now.
    pub fn new(description: String, state_blob: &[u8]) -> (p: RecoveryPoint)
        ensures
            ident::is_random_uuid(p.id),
            marks(p, description@, state_blob@),
    {
        RecoveryPoint::with_id(ident::new_uuid(), Timestamp::now(), description, state_blob)
    }
}

/// The current governed state of HAL.
#[derive(Clone, Debug)]
pub struct RecoveryState {
    /// Human-readable label for the current state.
    pub label: String,
    /// Free-form blob representing the governed state.
    pub blob: Vec<u8>,
}

impl Default for RecoveryState {
    fn default() -> (s: RecoveryState)
        ensures
            s.label@ == Seq::<char>::empty(),
            s.blob@ == Seq::<u8>::empty(),
    {
        RecoveryState { label: String::new(), blob: Vec::new() }
    }
}

/// Policy governing when and how rollback is permitted.
#[derive(Clone, Copy, Debug, PartialEq, Eq, Structural)]
pub enum RollbackPolicy {
    /// Rollback is permitted without restriction (dev/test only).
    Unrestricted,
    /// Rollback requires the approval of a human. The default. The kernel takes
    /// no approval token: the caller obtains the approval before it restores.
    RequiresHumanApproval,
    /// Rollback is forbidden; the system must be rebuilt from a fresh
    /// installation.
    Forbidden,
}

impl Default for RollbackPolicy {
    fn default() -> (p: RollbackPolicy)
        ensures
            p == RollbackPolicy::RequiresHumanApproval,
    {
        RollbackPolicy::RequiresHumanApproval
    }
}

/// Errors returned by the recovery kernel.
#[derive(Clone, Debug)]
pub enum RecoveryError {
    /// No recovery point with the given id was found.
    NotFound {
        /// The id.
        id: RecoveryPointId,
    },
    /// The rollback policy forbids restoration.
    RollbackForbidden,
    /// The recovery-point state blob could not be loaded or verified.
    VerificationFailed(String),
    /// A human-approval token was required but not supplied.
    HumanApprovalRequired,
}

impl RecoveryError {
    /// The error as one line.
    pub fn to_text(&self) -> (t: String)
        ensures
            t@ == (match *self {
                RecoveryError::NotFound { id } => "recovery point not found: "@
                    + ident::uuid_digits(id),
                RecoveryError::RollbackForbidden => "rollback is forbidden by current policy"@,
                RecoveryError::VerificationFailed(e) => "state blob verification failed: "@ + e@,
                RecoveryError::HumanApprovalRequired => "human approval required for rollback"@,
            }),
    {
        match self {
            RecoveryError::NotFound { id } => {
                let digits = ident::uuid_text(*id);
                String::from_str("recovery point not found: ").concat(digits.as_str())
            },
            RecoveryError::RollbackForbidden => String::from_str(
                "rollback is forbidden by current policy",
            ),
            RecoveryError::VerificationFailed(e) => String::from_str(
                "state blob verification failed: ",
            ).concat(e.as_str()),
            RecoveryError::HumanApprovalRequired => String::from_str(
                "human approval required for rollback",
            ),
        }
    }
}

/// Whether the point at a place is the first of an id.
pub open spec fn is_first(points: Seq<RecoveryPoint>, id: RecoveryPointId, k: int) -> bool {
    &&& 0 <= k < points.len()
    &&& points[k].id == id
    &&& forall|i: int| 0 <= i < k ==> (#[trigger] points[i]).id != id
}

/// Whether a point of an id is kept.
pub open spec fn has_point(points: Seq<RecoveryPoint>, id: RecoveryPointId) -> bool {
    exists|i: int| 0 <= i < points.len() && (#[trigger] points[i]).id == id
}

/// The description of a checkpoint of a label at a time.
pub open spec fn checkpoint_text(now: Timestamp, label: Seq<char>) -> Seq<char> {
    "checkpoint @ "@ + clock::rfc3339_of(now.nanos as int) + " (label="@ + label + ")"@
}

/// The recovery kernel: maintains recovery points and mediates rollback.
#[derive(Debug)]
pub struct RecoveryKernel {
    /// Recovery points, oldest first.
    pub recovery_points: Vec<RecoveryPoint>,
    /// Current governed state.
    pub current_state: RecoveryState,
    /// Active rollback policy.
    pub rollback_policy: RollbackPolicy,
    /// Maximum number of recovery points to keep.
    pub max_points: usize,
}

impl RecoveryKernel {
    /// A kernel with the default policy and capacity.
    pub fn new() -> (k: RecoveryKernel)
        ensures
            k.recovery_points@ == Seq::<RecoveryPoint>::empty(),
            k.current_state.label@ == Seq::<char>::empty(),
            k.current_state.blob@ == Seq::<u8>::empty(),
            k.rollback_policy == RollbackPolicy::RequiresHumanApproval,
            k.max_points == DEFAULT_MAX_POINTS,
    {
        RecoveryKernel {
            recovery_points: Vec::new(),
            current_state: RecoveryState::default(),
            rollback_policy: RollbackPolicy::default(),
            max_points: DEFAULT_MAX_POINTS,
        }
    }

    /// Captures a recovery point of an id and a time at the current state; the
    /// oldest points go where there are too many.
    pub fn checkpoint_as(&mut self, id: RecoveryPointId, now: Timestamp)
        ensures
            exists|p: RecoveryPoint| #[trigger]
                marks(
                    p,
                    checkpoint_text(now, old(self).current_state.label@),
                    old(self).current_state.blob@,
                ) && p.id == id && p.timestamp == now && final(self).recovery_points@
                    == window::keep_last(
                    old(self).recovery_points@.push(p),
                    old(self).max_points as nat,
                ),
            final(self).current_state == old(self).current_state,
            final(self).rollback_policy == old(self).rollback_policy,
            final(self).max_points == old(self).max_points,
    {
        let mut description = String::from_str("checkpoint @ ");
        let time = clock::rfc3339(&now);
        description.append(time.as_str());
        description.append(" (label=");
        description.append(self.current_state.label.as_str());
        description.append(")");
        let point = RecoveryPoint::with_id(
            id,
            now,
            description,
            self.current_state.blob.as_slice(),
        );
        let ghost captured = point;
        let mut points: Vec<RecoveryPoint> = Vec::new();
        std::mem::swap(&mut self.recovery_points, &mut points);
        points.push(point);
        let ghost all = points@;
        let bound: usize = self.max_points;
        let ghost mut dropped: int = 0;
        assert(all.subrange(0, all.len() as int) =~= all);
        while points.len() > bound
            invariant
                0 <= dropped <= all.len(),
                points@ == all.subrange(dropped, all.len() as int),
                points@.len() == all.len() - dropped,
                dropped > 0 ==> points@.len() >= bound,
            decreases points@.len(),
        {
            let _ = points.remove(0);
            proof {
                dropped = dropped + 1;
            }
            assert(points@ =~= all.subrange(dropped, all.len() as int));
        }
        assert(points@ =~= window::keep_last(all, bound as nat));
        self.recovery_points = points;
        assert(marks(
            captured,
            checkpoint_text(now, old(self).current_state.label@),
            old(self).current_state.blob@,
        ));
    }

    /// Captures a recovery point at the current state, now, and returns its id.
    pub fn checkpoint(&mut self) -> (id: RecoveryPointId)
        ensures
            ident::is_random_uuid(id),
            exists|p: RecoveryPoint, now: Timestamp| #[trigger]
                marks(
                    p,
                    checkpoint_text(now, old(self).current_state.label@),
                    old(self).current_state.blob@,
                ) && p.id == id && p.timestamp == now && final(self).recovery_points@
                    == window::keep_last(
                    old(self).recovery_points@.push(p),
                    old(self).max_points as nat,
                ),
            final(self).current_state == old(self).current_state,
            final(self).rollback_policy == old(self).rollback_policy,
            final(self).max_points == old(self).max_points,
    {
        let id: u128 = ident::new_uuid();
        self.checkpoint_as(id, Timestamp::now());
        id
    }

    fn find(&self, id: RecoveryPointId) -> (r: Option<usize>)
        ensures
            match r {
                Some(k) => is_first(self.recovery_points@, id, k as int),
                None => !has_point(self.recovery_points@, id),
            },
    {
        let mut i: usize = 0;
        while i < self.recovery_points.len()
            invariant
                i <= self.recovery_points@.len(),
                forall|j: int| 0 <= j < i ==> (#[trigger] self.recovery_points@[j]).id != id,
            decreases self.recovery_points@.len() - i,
        {
            if self.recovery_points[i].id == id {
                return Some(i);
            }
            i += 1;
        }
        None
    }

    /// Whether the state can be restored to a point: it is refused where
    /// rollback is forbidden or the point is not kept. No approval token is asked
    /// for, and nothing is changed.
    pub fn restore(&mut self, id: RecoveryPointId) -> (r: Result<(), RecoveryError>)
        ensures
            r == (if old(self).rollback_policy == RollbackPolicy::Forbidden {
                Err::<(), RecoveryError>(RecoveryError::RollbackForbidden)
            } else if has_point(old(self).recovery_points@, id) {
                Ok(())
            } else {
                Err(RecoveryError::NotFound { id })
            }),
            *final(self) == *old(self),
    {
        match self.rollback_policy {
            RollbackPolicy::Forbidden => {
                return Err(RecoveryError::RollbackForbidden);
            },
            _ => {},
        }
        match self.find(id) {
            Some(_) => Ok(()),
            None => Err(RecoveryError::NotFound { id }),
        }
    }

    /// The active rollback policy.
    pub fn rollback_policy(&self) -> (p: RollbackPolicy)
        ensures
            p == self.rollback_policy,
    {
        self.rollback_policy
    }

    /// Sets the rollback policy.
    pub fn set_rollback_policy(&mut self, policy: RollbackPolicy)
        ensures
            final(self).rollback_policy == policy,
            final(self).recovery_points == old(self).recovery_points,
            final(self).current_state == old(self).current_state,
            final(self).max_points == old(self).max_points,
    {
        self.rollback_policy = policy;
    }

    /// The first recovery point of an id.
    pub fn point(&self, id: RecoveryPointId) -> (r: Option<&RecoveryPoint>)
        ensures
            match r {
                Some(p) => exists|k: int| #[trigger]
                    is_first(self.recovery_points@, id, k) && *p == self.recovery_points@[k],
                None => !has_point(self.recovery_points@, id),
            },
    {
        match self.find(id) {
            Some(k) => {
                assert(is_first(self.recovery_points@, id, k as int));
                Some(&self.recovery_points[k])
            },
            None => None,
        }
    }

    /// Number of recovery points kept.
    pub fn len(&self) -> (n: usize)
        ensures
            n == self.recovery_points@.len(),
    {
        self.recovery_points.len()
    }

    /// Whether no recovery point is kept.
    pub fn is_empty(&self) -> (r: bool)
        ensures
            r == (self.recovery_points@.len() == 0),
    {
        self.recovery_points.len() == 0
    }
}

impl Default for RecoveryKernel {
    fn default() -> (k: RecoveryKernel)
        ensures
            k.recovery_points@ == Seq::<RecoveryPoint>::empty(),
            k.current_state.label@ == Seq::<char>::empty(),
            k.current_state.blob@ == Seq::<u8>::empty(),
            k.rollback_policy == RollbackPolicy::RequiresHumanApproval,
            k.max_points == DEFAULT_MAX_POINTS,
    {
        RecoveryKernel::new()
    }
}

/// A point that was just captured can be restored, unless no point is kept.
pub proof fn checkpoint_can_be_restored(
    before: Seq<RecoveryPoint>,
    p: RecoveryPoint,
    bound: nat,
)
    requires
        bound > 0,
    ensures
        has_point(window::keep_last(before.push(p), bound), p.id),
        window::keep_last(before.push(p), bound).len() <= bound,
{
    let after = window::keep_last(before.push(p), bound);
    assert(after[after.len() - 1] == p);
}

/// The last thirty-two points are kept, and a checkpoint is described by its
/// time and its label.
pub proof fn checkpoints_are_described(now: Timestamp, label: Seq<char>)
    ensures
        DEFAULT_MAX_POINTS == 32,
        checkpoint_text(now, label) == "checkpoint @ "@ + clock::rfc3339_of(now.nanos as int)
            + " (label="@ + label + ")"@,
{
}

/// A point is found by its name exactly where one carries it, the oldest first,
/// and it marks what was saved by its digest.
pub proof fn points_are_found_by_name(
    points: Seq<RecoveryPoint>,
    id: RecoveryPointId,
    k: int,
    description: Seq<char>,
    blob: Seq<u8>,
    other: Seq<u8>,
)
    ensures
        is_first(points, id, k) ==> has_point(points, id) && points[k].id == id && forall|i: int|
            0 <= i < points.len() && (#[trigger] points[i]).id == id ==> k <= i,
        0 <= k < points.len() ==> has_point(points, points[k].id),
        0 <= k < points.len() && marks(points[k], description, blob) && marks(
            points[k],
            description,
            other,
        ) ==> digest::sha256_of(blob) == digest::sha256_of(other),
{
}

} // verus!
