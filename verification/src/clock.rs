//! Points in time.

use vstd::prelude::*;

use crate::score::div_floor;

verus! {

/// Nanoseconds in a second.
pub const NANOS_PER_SECOND: i64 = 1_000_000_000;

/// A point in time, in nanoseconds since the Unix epoch.
#[derive(Clone, Copy, Debug, PartialEq, Eq, Structural, Hash)]
pub struct Timestamp {
    /// Nanoseconds since 1970-01-01 00:00:00 UTC.
    pub nanos: i64,
}

/// Quotient rounded toward zero, for a positive divisor.
pub open spec fn div_toward_zero(a: int, b: int) -> int {
    if a >= 0 {
        a / b
    } else {
        -((-a) / b)
    }
}

/// Nanoseconds from `earlier` to `later`.
pub open spec fn nanos_between(earlier: Timestamp, later: Timestamp) -> int {
    later.nanos - earlier.nanos
}

/// Whole seconds from `earlier` to `later`; a started second does not count.
pub open spec fn seconds_between(earlier: Timestamp, later: Timestamp) -> int {
    div_toward_zero(nanos_between(earlier, later), NANOS_PER_SECOND as int)
}

fn quotient(a: i128, b: i128) -> (q: i128)
    requires
        b > 0,
        a > i128::MIN,
    ensures
        q == div_toward_zero(a as int, b as int),
        -abs(a as int) <= q <= abs(a as int),
{
    if a >= 0 {
        proof {
            quotient_small(a as int, b as int);
        }
        a / b
    } else {
        proof {
            quotient_small(-(a as int), b as int);
        }
        -((-a) / b)
    }
}

spec fn abs(a: int) -> int {
    if a < 0 {
        -a
    } else {
        a
    }
}

proof fn quotient_small(a: int, b: int)
    requires
        a >= 0,
        b > 0,
    ensures
        0 <= a / b <= a,
{
    assert(0 <= a / b <= a) by (nonlinear_arith)
        requires
            a >= 0,
            b > 0,
    ;
}

impl Timestamp {
    /// The time `nanos` nanoseconds after the epoch.
    pub fn from_nanos(nanos: i64) -> (t: Timestamp)
        ensures
            t.nanos == nanos,
    {
        Timestamp { nanos }
    }

    /// The time that a clock shows; one past the range of the type, which has
    /// no number of nanoseconds, is the last one.
    pub fn from_clock(nanos: Option<i64>) -> (t: Timestamp)
        ensures
            t.nanos == (match nanos {
                Some(n) => n,
                None => i64::MAX,
            }),
    {
        match nanos {
            Some(n) => Timestamp { nanos: n },
            None => Timestamp { nanos: i64::MAX },
        }
    }

    /// The present time, as `from_clock` makes it of what the machine's clock
    /// shows. Nothing is said of which time that is.
    pub fn now() -> Timestamp {
        Timestamp::from_clock(utc_now_nanos())
    }

    /// Whole milliseconds since the epoch, rounded down.
    pub fn millis(&self) -> (m: i64)
        ensures
            m == self.nanos as int / 1_000_000,
    {
        let q: i128 = div_floor(self.nanos as i128, 1_000_000);
        assert(-9_300_000_000_000 <= q <= 9_300_000_000_000);
        q as i64
    }

    /// Nanoseconds from `earlier` to `self`.
    pub fn nanos_since(&self, earlier: &Timestamp) -> (d: i128)
        ensures
            d == nanos_between(*earlier, *self),
    {
        self.nanos as i128 - earlier.nanos as i128
    }

    /// Whole seconds from `earlier` to `self`, rounded toward zero.
    pub fn seconds_since(&self, earlier: &Timestamp) -> (d: i64)
        ensures
            d == seconds_between(*earlier, *self),
    {
        let d: i128 = self.nanos_since(earlier);
        let q: i128 = quotient(d, NANOS_PER_SECOND as i128);
        assert(-36_893_488_147 <= q <= 36_893_488_147);
        q as i64
    }
}

/// Calls `chrono::Utc::now` and `DateTime::timestamp_nanos_opt`, which gives
/// `None` when the clock stands past the range of 64-bit nanoseconds. Nothing
/// is claimed of the result: it is the machine's clock. The call panics when
/// that clock stands before the epoch.
#[verifier::external_body]
fn utc_now_nanos() -> Option<i64> {
    chrono::Utc::now().timestamp_nanos_opt()
}

/// What `chrono::DateTime::<Utc>::to_rfc3339` returns for a number of
/// nanoseconds since the epoch.
pub uninterp spec fn rfc3339_of(nanos: int) -> Seq<char>;

/// Calls `chrono::DateTime::from_timestamp_nanos`, which is defined for every
/// 64-bit number, and `to_rfc3339`. Claimed: the text depends on the time
/// alone.
#[verifier::external_body]
pub(crate) fn rfc3339(t: &Timestamp) -> (r: String)
    ensures
        r@ == rfc3339_of(t.nanos as int),
{
    chrono::DateTime::from_timestamp_nanos(t.nanos).to_rfc3339()
}

/// What `Display` writes for a `chrono::DateTime<Utc>`, by its nanoseconds
/// since the epoch.
pub uninterp spec fn display_of(nanos: int) -> Seq<char>;

/// Calls `chrono::DateTime::from_timestamp_nanos` and formats the time with
/// `Display`. Claimed: the text depends on the time alone.
#[verifier::external_body]
pub(crate) fn display_text(t: &Timestamp) -> (r: String)
    ensures
        r@ == display_of(t.nanos as int),
{
    chrono::DateTime::from_timestamp_nanos(t.nanos).to_string()
}

/// What `Debug` writes for a `chrono::DateTime<Utc>`, by its nanoseconds since
/// the epoch.
pub uninterp spec fn debug_of(nanos: int) -> Seq<char>;

/// Calls `chrono::DateTime::from_timestamp_nanos` and formats the time with
/// `Debug`. Claimed: the text depends on the time alone.
#[verifier::external_body]
pub(crate) fn debug_text(t: &Timestamp) -> (r: String)
    ensures
        r@ == debug_of(t.nanos as int),
{
    format!("{:?}", chrono::DateTime::from_timestamp_nanos(t.nanos))
}

/// Whole seconds, of a thousand million nanoseconds each; backwards they count
/// below zero.
pub proof fn seconds_are_whole(earlier: Timestamp, later: Timestamp)
    ensures
        later.nanos >= earlier.nanos ==> seconds_between(earlier, later) * 1_000_000_000
            <= later.nanos - earlier.nanos < (seconds_between(earlier, later) + 1) * 1_000_000_000,
        seconds_between(earlier, later) == -seconds_between(later, earlier),
{
}

} // verus!
