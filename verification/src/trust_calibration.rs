//! Per-user tuning of how often HAL interrupts.
//!
//! Each class of action has a threshold that feedback moves. A threshold never
//! leaves the range from the class's floor to one.

use vstd::prelude::*;
use vstd::string::StringExecFns;

use crate::clock::Timestamp;
use crate::score;
use crate::score::max_i64;
use crate::score::min_i64;
use crate::score::Score;
use crate::score::SCALE;
use crate::table::Key;
use crate::table::Table;
use crate::text;

verus! {

/// The distinct classes of action HAL can interrupt for.
#[derive(Clone, Copy, Debug, PartialEq, Eq, Structural, Hash)]
pub enum ActionClass {
    /// Deleting files.
    FileDelete,
    /// Moving files.
    FileMove,
    /// Installing packages.
    PackageInstall,
    /// Launching applications.
    AppLaunch,
    /// Changing the system's configuration.
    SystemConfig,
    /// Changing the network.
    NetworkChange,
    /// Touching the kernel's surroundings.
    KernelAdjacent,
    /// Running AI-generated code.
    AiGeneratedCode,
}

impl Key for ActionClass {
    type Id = ActionClass;

    open spec fn id(&self) -> ActionClass {
        *self
    }

    fn same(&self, other: &Self) -> (r: bool) {
        *self == *other
    }
}

/// The threshold of a new install, in billionths.
pub open spec fn default_of(c: ActionClass) -> int {
    match c {
        ActionClass::FileDelete => 400_000_000,
        ActionClass::FileMove => 250_000_000,
        ActionClass::PackageInstall => 500_000_000,
        ActionClass::AppLaunch => 100_000_000,
        ActionClass::SystemConfig => 600_000_000,
        ActionClass::NetworkChange => 600_000_000,
        ActionClass::KernelAdjacent => 800_000_000,
        ActionClass::AiGeneratedCode => 800_000_000,
    }
}

/// The floor below which a threshold can never go, in billionths.
pub open spec fn floor_of(c: ActionClass) -> int {
    match c {
        ActionClass::KernelAdjacent => 600_000_000,
        ActionClass::AiGeneratedCode => 600_000_000,
        _ => 100_000_000,
    }
}

/// The name of a class.
pub open spec fn class_name(c: ActionClass) -> Seq<char> {
    match c {
        ActionClass::FileDelete => "FileDelete"@,
        ActionClass::FileMove => "FileMove"@,
        ActionClass::PackageInstall => "PackageInstall"@,
        ActionClass::AppLaunch => "AppLaunch"@,
        ActionClass::SystemConfig => "SystemConfig"@,
        ActionClass::NetworkChange => "NetworkChange"@,
        ActionClass::KernelAdjacent => "KernelAdjacent"@,
        ActionClass::AiGeneratedCode => "AiGeneratedCode"@,
    }
}

/// No two classes share a name.
pub proof fn class_names_differ(a: ActionClass, b: ActionClass)
    ensures
        class_name(a) == class_name(b) ==> a == b,
{
    reveal_strlit("FileDelete");
    reveal_strlit("FileMove");
    reveal_strlit("PackageInstall");
    reveal_strlit("AppLaunch");
    reveal_strlit("SystemConfig");
    reveal_strlit("NetworkChange");
    reveal_strlit("KernelAdjacent");
    reveal_strlit("AiGeneratedCode");
    assert("FileDelete"@.len() == 10);
    assert("FileMove"@.len() == 8);
    assert("PackageInstall"@.len() == 14);
    assert("AppLaunch"@.len() == 9);
    assert("SystemConfig"@.len() == 12);
    assert("NetworkChange"@.len() == 13);
    assert("KernelAdjacent"@.len() == 14);
    assert("AiGeneratedCode"@.len() == 15);
    assert("PackageInstall"@[0] != "KernelAdjacent"@[0]);
}

impl ActionClass {
    /// The threshold of a new install.
    pub fn default_threshold(&self) -> (s: Score)
        ensures
            s.nanos == default_of(*self),
    {
        match self {
            ActionClass::FileDelete => Score::from_nanos(400_000_000),
            ActionClass::FileMove => Score::from_nanos(250_000_000),
            ActionClass::PackageInstall => Score::from_nanos(500_000_000),
            ActionClass::AppLaunch => Score::from_nanos(100_000_000),
            ActionClass::SystemConfig => Score::from_nanos(600_000_000),
            ActionClass::NetworkChange => Score::from_nanos(600_000_000),
            ActionClass::KernelAdjacent => Score::from_nanos(800_000_000),
            ActionClass::AiGeneratedCode => Score::from_nanos(800_000_000),
        }
    }

    /// The floor below which a threshold can never go.
    pub fn minimum_threshold(&self) -> (s: Score)
        ensures
            s.nanos == floor_of(*self),
    {
        match self {
            ActionClass::KernelAdjacent => Score::from_nanos(600_000_000),
            ActionClass::AiGeneratedCode => Score::from_nanos(600_000_000),
            _ => Score::from_nanos(100_000_000),
        }
    }

    /// The name of the class.
    pub fn name(&self) -> (r: &'static str)
        ensures
            r@ == class_name(*self),
    {
        match self {
            ActionClass::FileDelete => "FileDelete",
            ActionClass::FileMove => "FileMove",
            ActionClass::PackageInstall => "PackageInstall",
            ActionClass::AppLaunch => "AppLaunch",
            ActionClass::SystemConfig => "SystemConfig",
            ActionClass::NetworkChange => "NetworkChange",
            ActionClass::KernelAdjacent => "KernelAdjacent",
            ActionClass::AiGeneratedCode => "AiGeneratedCode",
        }
    }

    /// The class of a name.
    pub fn from_name(name: &str) -> (r: Option<ActionClass>)
        ensures
            match r {
                Some(c) => class_name(c) == name@,
                None => forall|c: ActionClass| #[trigger] class_name(c) != name@,
            },
    {
        if text::same_text(name, "FileDelete") {
            Some(ActionClass::FileDelete)
        } else if text::same_text(name, "FileMove") {
            Some(ActionClass::FileMove)
        } else if text::same_text(name, "PackageInstall") {
            Some(ActionClass::PackageInstall)
        } else if text::same_text(name, "AppLaunch") {
            Some(ActionClass::AppLaunch)
        } else if text::same_text(name, "SystemConfig") {
            Some(ActionClass::SystemConfig)
        } else if text::same_text(name, "NetworkChange") {
            Some(ActionClass::NetworkChange)
        } else if text::same_text(name, "KernelAdjacent") {
            Some(ActionClass::KernelAdjacent)
        } else if text::same_text(name, "AiGeneratedCode") {
            Some(ActionClass::AiGeneratedCode)
        } else {
            None
        }
    }
}

/// User feedback on a HAL interrupt.
#[derive(Clone, Copy, Debug, PartialEq, Eq, Structural)]
pub enum Feedback {
    /// "That interruption was unnecessary": lower the threshold of this class.
    UnnecessaryInterrupt,
    /// "This was the right call": no change.
    CorrectInterrupt,
    /// "Always ask me about this": raise the threshold to 0.9.
    AlwaysAskForThis,
}

impl Feedback {
    /// The name of the feedback.
    pub fn name(&self) -> (r: &'static str)
        ensures
            r@ == (match *self {
                Feedback::UnnecessaryInterrupt => "UnnecessaryInterrupt"@,
                Feedback::CorrectInterrupt => "CorrectInterrupt"@,
                Feedback::AlwaysAskForThis => "AlwaysAskForThis"@,
            }),
    {
        match self {
            Feedback::UnnecessaryInterrupt => "UnnecessaryInterrupt",
            Feedback::CorrectInterrupt => "CorrectInterrupt",
            Feedback::AlwaysAskForThis => "AlwaysAskForThis",
        }
    }
}

/// A single calibration change, for the audit log.
#[derive(Clone, Copy, Debug, PartialEq, Eq, Structural)]
pub struct CalibrationEvent {
    /// When it happened.
    pub timestamp: Timestamp,
    /// The class that was calibrated.
    pub action_class: ActionClass,
    /// The feedback.
    pub feedback: Feedback,
    /// The threshold before.
    pub old_threshold: Score,
    /// The threshold after.
    pub new_threshold: Score,
}

/// The threshold of a class after feedback, in billionths.
pub open spec fn adjusted(c: ActionClass, old_threshold: int, feedback: Feedback) -> int {
    match feedback {
        Feedback::UnnecessaryInterrupt => score::max_int(old_threshold - 50_000_000, floor_of(c)),
        Feedback::CorrectInterrupt => old_threshold,
        Feedback::AlwaysAskForThis => 900_000_000,
    }
}

/// Per-user trust calibration: the threshold of every class.
pub struct TrustCalibration {
    thresholds: Table<ActionClass, Score>,
}

/// The position of the last saved threshold of a class.
pub open spec fn last_saved(saved: Seq<(String, Score)>, c: ActionClass) -> int
    decreases saved.len(),
{
    if saved.len() == 0 {
        -1
    } else if saved.last().0@ == class_name(c) {
        saved.len() - 1
    } else {
        last_saved(saved.drop_last(), c)
    }
}

/// The threshold of a class after loading saved thresholds, in billionths: the
/// saved one within the class's range, or else the default.
pub open spec fn restored(saved: Seq<(String, Score)>, c: ActionClass) -> int {
    let i = last_saved(saved, c);
    if i < 0 {
        default_of(c)
    } else {
        score::clamp_int(saved[i].1.nanos as int, floor_of(c), SCALE as int)
    }
}

/// Whether a list holds thresholds by the names of their classes, each class
/// once and in order.
pub open spec fn saves(
    saved: Seq<(String, Score)>,
    thresholds: spec_fn(ActionClass) -> int,
) -> bool {
    &&& saved.len() == class_list().len()
    &&& forall|j: int|
        0 <= j < saved.len() ==> (#[trigger] saved[j]).0@ == class_name(class_list()[j])
            && saved[j].1.nanos == thresholds(class_list()[j])
}

spec fn in_range(m: Map<ActionClass, Score>, c: ActionClass) -> bool {
    m.dom().contains(c) && floor_of(c) <= m[c].nanos <= SCALE
}

spec fn bound_to(m: Map<ActionClass, Score>, c: ActionClass, nanos: int) -> bool {
    m.dom().contains(c) && m[c].nanos == nanos
}

impl TrustCalibration {
    #[verifier::type_invariant]
    spec fn inv(self) -> bool {
        forall|c: ActionClass| #[trigger] in_range(self.thresholds@, c)
    }

    /// The threshold of a class, in billionths.
    pub closed spec fn threshold(&self, c: ActionClass) -> int {
        self.thresholds@[c].nanos as int
    }

    fn default_thresholds() -> (t: Table<ActionClass, Score>)
        ensures
            forall|c: ActionClass| #[trigger] bound_to(t@, c, default_of(c)),
    {
        let mut t: Table<ActionClass, Score> = Table::new();
        t.insert(ActionClass::FileDelete, ActionClass::FileDelete.default_threshold());
        t.insert(ActionClass::FileMove, ActionClass::FileMove.default_threshold());
        t.insert(ActionClass::PackageInstall, ActionClass::PackageInstall.default_threshold());
        t.insert(ActionClass::AppLaunch, ActionClass::AppLaunch.default_threshold());
        t.insert(ActionClass::SystemConfig, ActionClass::SystemConfig.default_threshold());
        t.insert(ActionClass::NetworkChange, ActionClass::NetworkChange.default_threshold());
        t.insert(ActionClass::KernelAdjacent, ActionClass::KernelAdjacent.default_threshold());
        t.insert(ActionClass::AiGeneratedCode, ActionClass::AiGeneratedCode.default_threshold());
        t
    }

    /// The calibration of a new install.
    pub fn new() -> (c: TrustCalibration)
        ensures
            forall|k: ActionClass| #[trigger] c.threshold(k) == default_of(k),
    {
        let t = TrustCalibration::default_thresholds();
        assert forall|c: ActionClass| #[trigger] in_range(t@, c) by {
            assert(bound_to(t@, c, default_of(c)));
        }
        let c = TrustCalibration { thresholds: t };
        assert forall|k: ActionClass| #[trigger] c.threshold(k) == default_of(k) by {
            assert(bound_to(t@, k, default_of(k)));
        }
        c
    }

    /// The calibration that saved thresholds give: names that no class has are
    /// passed over, missing classes get their defaults, and every threshold is
    /// brought into its class's range.
    pub fn load_persisted(saved: &Vec<(String, Score)>) -> (c: TrustCalibration)
        ensures
            forall|k: ActionClass| #[trigger] c.threshold(k) == restored(saved@, k),
    {
        let mut t = TrustCalibration::default_thresholds();
        let mut i: usize = 0;
        assert(saved@.take(0) =~= Seq::<(String, Score)>::empty());
        assert forall|k: ActionClass| #[trigger] bound_to(t@, k, restored(saved@.take(0), k)) by {
            assert(bound_to(t@, k, default_of(k)));
        }
        while i < saved.len()
            invariant
                i <= saved@.len(),
                forall|k: ActionClass|
                    #[trigger] bound_to(t@, k, restored(saved@.take(i as int), k)),
            decreases saved@.len() - i,
        {
            let ghost before = t@;
            let ghost head = saved@.take(i as int);
            let ghost next = saved@.take(i + 1);
            assert(next.drop_last() =~= head);
            assert(next.last() == saved@[i as int]);
            let class = ActionClass::from_name(saved[i].0.as_str());
            match class {
                Some(c) => {
                    let lifted: i64 = max_i64(saved[i].1.nanos, c.minimum_threshold().nanos);
                    let value = Score::from_nanos(min_i64(lifted, SCALE));
                    t.insert(c, value);
                    assert forall|k: ActionClass| #[trigger] bound_to(t@, k, restored(next, k)) by {
                        class_names_differ(c, k);
                        last_saved_bounds(head, k);
                        assert(bound_to(before, k, restored(head, k)));
                    }
                },
                None => {
                    assert forall|k: ActionClass| #[trigger] bound_to(t@, k, restored(next, k)) by {
                        last_saved_bounds(head, k);
                        assert(bound_to(before, k, restored(head, k)));
                    }
                },
            }
            i += 1;
        }
        assert(saved@.take(saved@.len() as int) =~= saved@);
        assert forall|c: ActionClass| #[trigger] in_range(t@, c) by {
            assert(bound_to(t@, c, restored(saved@, c)));
        }
        let c = TrustCalibration { thresholds: t };
        assert forall|k: ActionClass| #[trigger] c.threshold(k) == restored(saved@, k) by {
            assert(bound_to(t@, k, restored(saved@, k)));
        }
        c
    }

    /// The thresholds by class name, to be saved.
    pub fn to_persisted(&self) -> (saved: Vec<(String, Score)>)
        ensures
            saves(saved@, |k: ActionClass| self.threshold(k)),
            forall|k: ActionClass| #[trigger] restored(saved@, k) == self.threshold(k),
    {
        let classes = all_classes();
        let mut saved: Vec<(String, Score)> = Vec::new();
        let mut i: usize = 0;
        while i < classes.len()
            invariant
                classes@ == class_list(),
                i <= 8,
                saved@.len() == i,
                forall|j: int|
                    0 <= j < i ==> (#[trigger] saved@[j]).0@ == class_name(class_list()[j])
                        && saved@[j].1.nanos == self.threshold(class_list()[j]),
            decreases 8 - i,
        {
            let name = String::from_str(classes[i].name());
            let value = self.get_threshold(&classes[i]);
            saved.push((name, value));
            i += 1;
        }
        proof {
            use_type_invariant(self);
            assert forall|k: ActionClass| #[trigger] restored(saved@, k) == self.threshold(k) by {
                assert(in_range(self.thresholds@, k));
                saved_thresholds_survive(saved@, |c: ActionClass| self.threshold(c), k);
            }
        }
        saved
    }

    /// Records user feedback at a given time: adjusts the threshold of the
    /// class and returns the event for the audit log.
    pub fn record_feedback_at(
        &mut self,
        action_class: ActionClass,
        feedback: Feedback,
        now: Timestamp,
    ) -> (e: CalibrationEvent)
        ensures
            final(self).threshold(action_class) == adjusted(
                action_class,
                old(self).threshold(action_class),
                feedback,
            ),
            forall|k: ActionClass|
                k != action_class ==> #[trigger] final(self).threshold(k) == old(self).threshold(k),
            e.timestamp == now,
            e.action_class == action_class,
            e.feedback == feedback,
            e.old_threshold.nanos == old(self).threshold(action_class),
            e.new_threshold.nanos == final(self).threshold(action_class),
    {
        let before = self.get_threshold(&action_class);
        let floor = action_class.minimum_threshold();
        proof {
            use_type_invariant(&*self);
            assert(in_range(self.thresholds@, action_class));
        }
        let after = match feedback {
            Feedback::UnnecessaryInterrupt => Score::from_nanos(
                max_i64(before.nanos - 50_000_000, floor.nanos),
            ),
            Feedback::CorrectInterrupt => before,
            Feedback::AlwaysAskForThis => Score::from_nanos(900_000_000),
        };
        let ghost old_map = self.thresholds@;
        let mut t: Table<ActionClass, Score> = TrustCalibration::default_thresholds();
        assert forall|c: ActionClass| #[trigger] in_range(t@, c) by {
            assert(bound_to(t@, c, default_of(c)));
        }
        std::mem::swap(&mut t, &mut self.thresholds);
        t.insert(action_class, after);
        assert forall|c: ActionClass| #[trigger] in_range(t@, c) by {
            assert(in_range(old_map, c));
        }
        self.thresholds = t;
        proof {
            assert forall|k: ActionClass| k != action_class implies #[trigger] self.threshold(k)
                == old(self).threshold(k) by {
                assert(old_map[k] == self.thresholds@[k]);
            }
        }
        CalibrationEvent {
            timestamp: now,
            action_class,
            feedback,
            old_threshold: before,
            new_threshold: after,
        }
    }

    /// Records user feedback now.
    pub fn record_feedback(&mut self, action_class: ActionClass, feedback: Feedback) -> (e:
        CalibrationEvent)
        ensures
            final(self).threshold(action_class) == adjusted(
                action_class,
                old(self).threshold(action_class),
                feedback,
            ),
            forall|k: ActionClass|
                k != action_class ==> #[trigger] final(self).threshold(k) == old(self).threshold(k),
            e.action_class == action_class,
            e.feedback == feedback,
            e.old_threshold.nanos == old(self).threshold(action_class),
            e.new_threshold.nanos == final(self).threshold(action_class),
    {
        self.record_feedback_at(action_class, feedback, Timestamp::now())
    }

    /// The threshold of a class. HAL interrupts when an action's risk score
    /// reaches it.
    pub fn get_threshold(&self, action_class: &ActionClass) -> (s: Score)
        ensures
            s.nanos == self.threshold(*action_class),
            floor_of(*action_class) <= s.nanos <= SCALE,
    {
        proof {
            use_type_invariant(self);
            assert(in_range(self.thresholds@, *action_class));
        }
        match self.thresholds.get(action_class) {
            Some(s) => *s,
            None => action_class.default_threshold(),
        }
    }

    /// All current thresholds, for display: each class once.
    pub fn all_thresholds(&self) -> (r: Vec<(ActionClass, Score)>)
        ensures
            r@.len() == 8,
            forall|j: int|
                0 <= j < 8 ==> (#[trigger] r@[j]).0 == class_list()[j] && r@[j].1.nanos
                    == self.threshold(class_list()[j]),
    {
        let classes = all_classes();
        let mut r: Vec<(ActionClass, Score)> = Vec::new();
        let mut i: usize = 0;
        while i < classes.len()
            invariant
                classes@ == class_list(),
                i <= 8,
                r@.len() == i,
                forall|j: int|
                    0 <= j < i ==> (#[trigger] r@[j]).0 == class_list()[j] && r@[j].1.nanos
                        == self.threshold(class_list()[j]),
            decreases 8 - i,
        {
            let c = classes[i];
            let value = self.get_threshold(&c);
            r.push((c, value));
            i += 1;
        }
        r
    }
}

/// All classes.
pub open spec fn class_list() -> Seq<ActionClass> {
    seq![
        ActionClass::FileDelete,
        ActionClass::FileMove,
        ActionClass::PackageInstall,
        ActionClass::AppLaunch,
        ActionClass::SystemConfig,
        ActionClass::NetworkChange,
        ActionClass::KernelAdjacent,
        ActionClass::AiGeneratedCode,
    ]
}

fn all_classes() -> (v: Vec<ActionClass>)
    ensures
        v@ == class_list(),
{
    let v = vec![
        ActionClass::FileDelete,
        ActionClass::FileMove,
        ActionClass::PackageInstall,
        ActionClass::AppLaunch,
        ActionClass::SystemConfig,
        ActionClass::NetworkChange,
        ActionClass::KernelAdjacent,
        ActionClass::AiGeneratedCode,
    ];
    assert(v@ =~= class_list());
    v
}

proof fn last_saved_bounds(saved: Seq<(String, Score)>, c: ActionClass)
    ensures
        -1 <= last_saved(saved, c) < saved.len(),
    decreases saved.len(),
{
    if saved.len() > 0 {
        last_saved_bounds(saved.drop_last(), c);
    }
}

proof fn last_saved_at(saved: Seq<(String, Score)>, c: ActionClass, i: int)
    requires
        0 <= i < saved.len(),
        saved[i].0@ == class_name(c),
        forall|j: int| i < j < saved.len() ==> (#[trigger] saved[j]).0@ != class_name(c),
    ensures
        last_saved(saved, c) == i,
    decreases saved.len(),
{
    if i < saved.len() - 1 {
        assert(saved[saved.len() - 1].0@ != class_name(c));
        assert forall|j: int| i < j < saved.len() - 1 implies (
        #[trigger] saved.drop_last()[j]).0@ != class_name(c) by {
            assert(saved[j].0@ != class_name(c));
        }
        last_saved_at(saved.drop_last(), c, i);
    }
}

proof fn listed_once(saved: Seq<(String, Score)>, c: ActionClass)
    requires
        saved.len() == 8,
        forall|j: int| 0 <= j < 8 ==> (#[trigger] saved[j]).0@ == class_name(class_list()[j]),
    ensures
        ({
            let i = last_saved(saved, c);
            0 <= i < 8 && class_list()[i] == c
        }),
{
    let l = class_list();
    let i: int = match c {
        ActionClass::FileDelete => 0,
        ActionClass::FileMove => 1,
        ActionClass::PackageInstall => 2,
        ActionClass::AppLaunch => 3,
        ActionClass::SystemConfig => 4,
        ActionClass::NetworkChange => 5,
        ActionClass::KernelAdjacent => 6,
        ActionClass::AiGeneratedCode => 7,
    };
    assert(l[i] == c);
    assert(saved[i].0@ == class_name(c));
    assert forall|j: int| i < j < saved.len() implies (#[trigger] saved[j]).0@ != class_name(
        c,
    ) by {
        class_names_differ(l[j], c);
    }
    last_saved_at(saved, c, i);
}

/// However often an interruption is called unnecessary, and whatever else is
/// said, a threshold stays between its class's floor and one.
pub proof fn feedback_respects_floors(c: ActionClass, threshold: int, feedback: Feedback)
    requires
        floor_of(c) <= threshold <= SCALE,
    ensures
        floor_of(c) <= adjusted(c, threshold, feedback) <= SCALE,
{
}

/// "Unnecessary" never raises a threshold, and lowers it strictly above the
/// floor; "correct" leaves it; "always ask" sets it to 0.9.
pub proof fn feedback_effects(c: ActionClass, threshold: int)
    requires
        floor_of(c) <= threshold <= SCALE,
    ensures
        adjusted(c, threshold, Feedback::UnnecessaryInterrupt) <= threshold,
        threshold > floor_of(c) ==> adjusted(c, threshold, Feedback::UnnecessaryInterrupt)
            < threshold,
        adjusted(c, threshold, Feedback::CorrectInterrupt) == threshold,
        adjusted(c, threshold, Feedback::AlwaysAskForThis) == 900_000_000,
{
}

/// Defaults start at or above the floors, which for kernel-adjacent actions
/// and AI-generated code are at 0.6.
pub proof fn defaults_are_conservative(c: ActionClass)
    ensures
        floor_of(c) <= default_of(c) <= SCALE,
        default_of(ActionClass::KernelAdjacent) >= 600_000_000,
        default_of(ActionClass::AiGeneratedCode) >= 600_000_000,
        default_of(ActionClass::FileDelete) >= 300_000_000,
{
}

/// Loading what was saved gives the same thresholds back.
pub proof fn saved_thresholds_survive(
    saved: Seq<(String, Score)>,
    thresholds: spec_fn(ActionClass) -> int,
    c: ActionClass,
)
    requires
        saves(saved, thresholds),
        floor_of(c) <= thresholds(c) <= SCALE,
    ensures
        restored(saved, c) == thresholds(c),
{
    listed_once(saved, c);
}

/// The thresholds of a new installation, from the mildest class to the gravest:
/// launching 0.1, moving 0.25, deleting 0.4, installing 0.5, configuration and
/// network 0.6, kernel and generated code 0.8. The last two keep at least 0.6
/// whatever the feedback, every other class 0.1.
pub proof fn graver_classes_start_higher(c: ActionClass)
    ensures
        default_of(c) == 100_000_000 <==> c == ActionClass::AppLaunch,
        default_of(c) == 250_000_000 <==> c == ActionClass::FileMove,
        default_of(c) == 400_000_000 <==> c == ActionClass::FileDelete,
        default_of(c) == 500_000_000 <==> c == ActionClass::PackageInstall,
        default_of(c) == 600_000_000 <==> c == ActionClass::SystemConfig || c
            == ActionClass::NetworkChange,
        default_of(c) == 800_000_000 <==> c == ActionClass::KernelAdjacent || c
            == ActionClass::AiGeneratedCode,
        floor_of(c) == 600_000_000 <==> c == ActionClass::KernelAdjacent || c
            == ActionClass::AiGeneratedCode,
        floor_of(c) != 600_000_000 ==> floor_of(c) == 100_000_000,
{
}

/// A needless interruption lowers the threshold by 0.05, down to the floor of
/// its class and no further; repeated, it never undercuts the floor.
pub proof fn needless_interruptions_lower_by_a_twentieth(c: ActionClass, threshold: int)
    requires
        threshold >= floor_of(c),
    ensures
        threshold - 50_000_000 >= floor_of(c) ==> adjusted(
            c,
            threshold,
            Feedback::UnnecessaryInterrupt,
        ) == threshold - 50_000_000,
        threshold - 50_000_000 < floor_of(c) ==> adjusted(
            c,
            threshold,
            Feedback::UnnecessaryInterrupt,
        ) == floor_of(c),
        c == ActionClass::KernelAdjacent || c == ActionClass::AiGeneratedCode ==> adjusted(
            c,
            threshold,
            Feedback::UnnecessaryInterrupt,
        ) >= 600_000_000,
{
}

/// A class is saved under its own name and read back under no other.
pub proof fn classes_are_saved_by_name(c: ActionClass)
    ensures
        class_name(c) == "FileDelete"@ <==> c == ActionClass::FileDelete,
        class_name(c) == "FileMove"@ <==> c == ActionClass::FileMove,
        class_name(c) == "PackageInstall"@ <==> c == ActionClass::PackageInstall,
        class_name(c) == "AppLaunch"@ <==> c == ActionClass::AppLaunch,
        class_name(c) == "SystemConfig"@ <==> c == ActionClass::SystemConfig,
        class_name(c) == "NetworkChange"@ <==> c == ActionClass::NetworkChange,
        class_name(c) == "KernelAdjacent"@ <==> c == ActionClass::KernelAdjacent,
        class_name(c) == "AiGeneratedCode"@ <==> c == ActionClass::AiGeneratedCode,
{
    class_names_differ(c, ActionClass::FileDelete);
    class_names_differ(c, ActionClass::FileMove);
    class_names_differ(c, ActionClass::PackageInstall);
    class_names_differ(c, ActionClass::AppLaunch);
    class_names_differ(c, ActionClass::SystemConfig);
    class_names_differ(c, ActionClass::NetworkChange);
    class_names_differ(c, ActionClass::KernelAdjacent);
    class_names_differ(c, ActionClass::AiGeneratedCode);
}

/// A saved threshold is brought into the range of its class: never below the
/// floor and never above one; what was not saved keeps its default.
pub proof fn restored_thresholds_are_in_range(saved: Seq<(String, Score)>, c: ActionClass)
    ensures
        floor_of(c) <= restored(saved, c) <= 1_000_000_000,
        last_saved(saved, c) < 0 ==> restored(saved, c) == default_of(c),
        (forall|i: int| 0 <= i < saved.len() ==> (#[trigger] saved[i]).0@ != class_name(c))
            ==> restored(saved, c) == default_of(c),
{
    last_saved_is_last(saved, c);
}

/// The place of the last saved threshold of a class.
proof fn last_saved_is_last(saved: Seq<(String, Score)>, c: ActionClass)
    ensures
        -1 <= last_saved(saved, c) < saved.len(),
        last_saved(saved, c) >= 0 ==> saved[last_saved(saved, c)].0@ == class_name(c),
        forall|i: int|
            last_saved(saved, c) < i < saved.len() ==> (#[trigger] saved[i]).0@ != class_name(c),
    decreases saved.len(),
{
    if saved.len() > 0 {
        last_saved_is_last(saved.drop_last(), c);
        let d = saved.drop_last();
        assert forall|i: int| last_saved(saved, c) < i < saved.len() implies (
        #[trigger] saved[i]).0@ != class_name(c) by {
            if i < saved.len() - 1 {
                assert(d[i] == saved[i]);
            }
        }
    }
}

/// A demand to be asked always sets the threshold to 0.9, and a right
/// interruption leaves it.
pub proof fn feedback_sets_or_keeps(c: ActionClass, threshold: int)
    ensures
        adjusted(c, threshold, Feedback::AlwaysAskForThis) == 900_000_000,
        adjusted(c, threshold, Feedback::CorrectInterrupt) == threshold,
{
}

/// Every class is saved, each once.
pub proof fn every_class_is_saved(c: ActionClass)
    ensures
        class_list().len() == 8,
        class_list().contains(c),
        class_list().no_duplicates(),
{
    let l = class_list();
    assert(l[0] == ActionClass::FileDelete);
    assert(l[1] == ActionClass::FileMove);
    assert(l[2] == ActionClass::PackageInstall);
    assert(l[3] == ActionClass::AppLaunch);
    assert(l[4] == ActionClass::SystemConfig);
    assert(l[5] == ActionClass::NetworkChange);
    assert(l[6] == ActionClass::KernelAdjacent);
    assert(l[7] == ActionClass::AiGeneratedCode);
}

} // verus!
