//! Points in time, with second and nanosecond, inside the range that a calendar
//! date can be given for.
use vstd::prelude::*;

verus! {

/// The first second that has a calendar date: the start of the year -262143.
pub const FIRST_SECOND: i64 = -8_334_601_228_800;

/// The last second that has a calendar date: the end of the year 262142.
pub const LAST_SECOND: i64 = 8_210_266_876_799;

pub const NANOS_PER_SECOND: u32 = 1_000_000_000;

/// Whether a second and a nanosecond make a point in time.
pub open spec fn is_instant(secs: int, nanos: int) -> bool {
    FIRST_SECOND <= secs <= LAST_SECOND && 0 <= nanos < NANOS_PER_SECOND
}

/// A point in time, in UTC: seconds since the start of 1970 and nanoseconds into
/// that second.
#[derive(Clone, Copy, Debug, PartialEq, Eq, Structural)]
pub struct Timestamp {
    secs: i64,
    nanos: u32,
}

/// What a point in time is.
pub struct InstantView {
    pub secs: int,
    pub nanos: int,
}

impl View for Timestamp {
    type V = InstantView;

    closed spec fn view(&self) -> InstantView {
        InstantView { secs: self.secs as int, nanos: self.nanos as int }
    }
}

impl InstantView {
    /// Strictly after another point in time.
    pub open spec fn after(self, other: InstantView) -> bool {
        self.secs > other.secs || (self.secs == other.secs && self.nanos > other.nanos)
    }

    /// Whole seconds from `earlier` to this point, cut toward zero.
    pub open spec fn seconds_since(self, earlier: InstantView) -> int {
        let nanos = (self.secs - earlier.secs) * 1_000_000_000 + (self.nanos - earlier.nanos);
        if nanos >= 0 {
            nanos / 1_000_000_000
        } else {
            -((-nanos) / 1_000_000_000)
        }
    }

    pub open spec fn plus_seconds(self, n: int) -> InstantView {
        InstantView { secs: self.secs + n, nanos: self.nanos }
    }

    /// Milliseconds since the start of 1970.
    pub open spec fn millis(self) -> int {
        self.secs * 1000 + self.nanos / 1_000_000
    }
}

/// Whether a point in time is one that the clock can read: it has a calendar date and
/// is not before 1970.
pub open spec fn is_reading(t: InstantView) -> bool {
    is_instant(t.secs, t.nanos) && t.secs >= 0
}

/// The text that `chrono::DateTime::to_rfc3339` gives for a point in time.
pub uninterp spec fn rfc3339_text(secs: int, nanos: int) -> Seq<char>;

/// Reads the clock with `chrono::Utc::now`, as seconds and nanoseconds. What comes
/// back is a point in time at or after the start of 1970: a clock that is set before
/// that stops the program. Nothing else is claimed of it.
#[verifier::external_body]
fn read_clock() -> (r: (i64, u32))
    ensures
        is_instant(r.0 as int, r.1 as int),
        r.0 >= 0,
{
    let now = chrono::Utc::now();
    (now.timestamp(), now.timestamp_subsec_nanos())
}

/// Calls `chrono::DateTime::from_timestamp`, which knows the seconds that have a
/// calendar date and no others.
#[verifier::external_body]
fn dated(secs: i64, nanos: u32) -> (r: Option<(i64, u32)>)
    requires
        nanos < NANOS_PER_SECOND,
    ensures
        r == (if FIRST_SECOND <= secs <= LAST_SECOND {
            Some((secs, nanos))
        } else {
            None
        }),
{
    let date = chrono::DateTime::from_timestamp(secs, nanos);
    date.map(|t| (t.timestamp(), t.timestamp_subsec_nanos()))
}

/// Calls `chrono::DateTime::checked_add_signed` with a number of whole seconds: the
/// seconds move by that number and the nanoseconds stay, unless the sum has no
/// calendar date.
#[verifier::external_body]
fn add_seconds(secs: i64, nanos: u32, n: u32) -> (r: Option<(i64, u32)>)
    requires
        is_instant(secs as int, nanos as int),
    ensures
        r == (if secs + n <= LAST_SECOND {
            Some(((secs + n) as i64, nanos))
        } else {
            None
        }),
{
    let date = chrono::DateTime::from_timestamp(secs, nanos);
    let sum = date.and_then(|t| t.checked_add_signed(chrono::Duration::seconds(n.into())));
    sum.map(|t| (t.timestamp(), t.timestamp_subsec_nanos()))
}

/// Subtracts two points in time with chrono and takes `num_seconds` of the
/// difference, which is cut toward zero.
#[verifier::external_body]
fn subtract(late_secs: i64, late_nanos: u32, early_secs: i64, early_nanos: u32) -> (r: i64)
    requires
        is_instant(late_secs as int, late_nanos as int),
        is_instant(early_secs as int, early_nanos as int),
    ensures
        r == (InstantView { secs: late_secs as int, nanos: late_nanos as int }).seconds_since(
            InstantView { secs: early_secs as int, nanos: early_nanos as int },
        ),
{
    let late = chrono::DateTime::from_timestamp(late_secs, late_nanos).unwrap();
    let early = chrono::DateTime::from_timestamp(early_secs, early_nanos).unwrap();
    (late - early).num_seconds()
}

/// Calls `chrono::DateTime::timestamp_millis`: a thousand times the seconds, and the
/// whole milliseconds of the rest.
#[verifier::external_body]
fn count_millis(secs: i64, nanos: u32) -> (r: i64)
    requires
        is_instant(secs as int, nanos as int),
    ensures
        r == (InstantView { secs: secs as int, nanos: nanos as int }).millis(),
{
    chrono::DateTime::from_timestamp(secs, nanos).unwrap().timestamp_millis()
}

/// Calls `chrono::DateTime::to_rfc3339`. The text is named, not described: it is a
/// function of the point in time alone.
#[verifier::external_body]
fn format_rfc3339(secs: i64, nanos: u32) -> (r: String)
    requires
        is_instant(secs as int, nanos as int),
    ensures
        r@ == rfc3339_text(secs as int, nanos as int),
{
    chrono::DateTime::from_timestamp(secs, nanos).unwrap().to_rfc3339()
}

impl Timestamp {
    #[verifier::type_invariant]
    spec fn has_date(self) -> bool {
        is_instant(self.secs as int, self.nanos as int)
    }

    /// The current time.
    pub fn now() -> (r: Timestamp)
        ensures
            is_reading(r@),
    {
        let (secs, nanos) = read_clock();
        Timestamp { secs, nanos }
    }

    /// The point in time with these seconds and nanoseconds, if it has a date.
    pub fn at(secs: i64, nanos: u32) -> (r: Option<Timestamp>)
        ensures
            r is Some <==> is_instant(secs as int, nanos as int),
            r matches Some(t) ==> t@ == (InstantView { secs: secs as int, nanos: nanos as int }),
    {
        if nanos >= NANOS_PER_SECOND {
            return None;
        }
        match dated(secs, nanos) {
            Some((secs, nanos)) => Some(Timestamp { secs, nanos }),
            None => None,
        }
    }

    pub fn seconds(&self) -> (r: i64)
        ensures
            r == self@.secs,
            is_instant(self@.secs, self@.nanos),
    {
        proof {
            use_type_invariant(self);
        }
        self.secs
    }

    pub fn nanoseconds(&self) -> (r: u32)
        ensures
            r == self@.nanos,
            is_instant(self@.secs, self@.nanos),
    {
        proof {
            use_type_invariant(self);
        }
        self.nanos
    }

    /// `n` seconds later, if that has a date.
    pub fn plus(&self, n: u32) -> (r: Option<Timestamp>)
        ensures
            r is Some <==> self@.secs + n <= LAST_SECOND,
            r matches Some(t) ==> t@ == self@.plus_seconds(n as int),
    {
        proof {
            use_type_invariant(self);
        }
        match add_seconds(self.secs, self.nanos, n) {
            Some((secs, nanos)) => Some(Timestamp { secs, nanos }),
            None => None,
        }
    }

    /// Whether this point in time is strictly after another.
    pub fn is_after(&self, other: &Timestamp) -> (r: bool)
        ensures
            r == self@.after(other@),
    {
        self.secs > other.secs || (self.secs == other.secs && self.nanos > other.nanos)
    }

    /// Whole seconds from `earlier` to this point in time, cut toward zero.
    pub fn seconds_since(&self, earlier: &Timestamp) -> (r: i64)
        ensures
            r == self@.seconds_since(earlier@),
    {
        proof {
            use_type_invariant(self);
            use_type_invariant(earlier);
        }
        subtract(self.secs, self.nanos, earlier.secs, earlier.nanos)
    }

    /// Milliseconds since the start of 1970.
    pub fn millis(&self) -> (r: i64)
        ensures
            r == self@.millis(),
    {
        proof {
            use_type_invariant(self);
        }
        count_millis(self.secs, self.nanos)
    }

    /// The date and time as RFC 3339 has them.
    pub fn rfc3339(&self) -> (r: String)
        ensures
            r@ == rfc3339_text(self@.secs, self@.nanos),
    {
        proof {
            use_type_invariant(self);
        }
        format_rfc3339(self.secs, self.nanos)
    }
}

} // verus!
