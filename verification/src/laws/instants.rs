//! Points in time.
use crate::clock::Timestamp;
use vstd::prelude::*;

verus! {

/// A point in time is made of a second that has a date and of nanoseconds below a
/// second, and gives them back.
pub proof fn law_instant_made(
    secs: i64,
    nanos: u32,
    r: Option<Timestamp>,
    s: i64,
    n: u32,
)
    requires
        call_ensures(Timestamp::at, (secs, nanos), r),
        r matches Some(t) ==> call_ensures(Timestamp::seconds, (&t,), s) && call_ensures(
            Timestamp::nanoseconds,
            (&t,),
            n,
        ),
    ensures
        r is Some <==> -8_334_601_228_800 <= secs <= 8_210_266_876_799 && nanos < 1_000_000_000,
        r is Some ==> s == secs && n == nanos,
{
}

/// The clock reads a time that has a date and is not before 1970.
pub proof fn law_clock_read(t: Timestamp)
    requires
        call_ensures(Timestamp::now, (), t),
    ensures
        0 <= t@.secs <= 8_210_266_876_799,
        0 <= t@.nanos < 1_000_000_000,
{
}

/// Some seconds later is later by as many seconds: after the point unless there are
/// none, and as far from it as was added, and it counts a thousand milliseconds for each.
pub proof fn law_seconds_added(
    t: &Timestamp,
    n: u32,
    r: Option<Timestamp>,
    later: &Timestamp,
    since: i64,
    before: i64,
    after: bool,
    not_after: bool,
    millis: i64,
    more: i64,
)
    requires
        call_ensures(Timestamp::plus, (t, n), r),
        r matches Some(u) ==> *later == u,
        call_ensures(Timestamp::seconds_since, (later, t), since),
        call_ensures(Timestamp::seconds_since, (t, later), before),
        call_ensures(Timestamp::is_after, (later, t), after),
        call_ensures(Timestamp::is_after, (t, later), not_after),
        call_ensures(Timestamp::millis, (t,), millis),
        call_ensures(Timestamp::millis, (later,), more),
    ensures
        r is Some <==> t@.secs + n <= 8_210_266_876_799,
        r is Some ==> {
            &&& since == n
            &&& before == -n
            &&& after <==> n > 0
            &&& !not_after
            &&& more == millis + 1000 * n
        },
{
}

/// Of two points in time, one is after the other or they are the same; the order is that
/// of the seconds, and within a second that of the nanoseconds.
pub proof fn law_instants_ordered(t: &Timestamp, u: &Timestamp, after: bool, before: bool)
    requires
        call_ensures(Timestamp::is_after, (t, u), after),
        call_ensures(Timestamp::is_after, (u, t), before),
    ensures
        !(after && before),
        !after && !before ==> t@.secs == u@.secs && t@.nanos == u@.nanos,
        t@.secs > u@.secs ==> after,
        t@.secs == u@.secs ==> (after <==> t@.nanos > u@.nanos),
{
}

/// The seconds between two points in time are whole, cut toward zero: the same both
/// ways but for the sign, and not off by a second.
pub proof fn law_seconds_between(t: &Timestamp, u: &Timestamp, since: i64, back: i64, millis: i64)
    requires
        call_ensures(Timestamp::seconds_since, (t, u), since),
        call_ensures(Timestamp::seconds_since, (u, t), back),
        call_ensures(Timestamp::millis, (t,), millis),
    ensures
        since == -back,
        ({
            let apart = (t@.secs - u@.secs) * 1_000_000_000 + (t@.nanos - u@.nanos);
            &&& apart >= 0 ==> since * 1_000_000_000 <= apart < (since + 1) * 1_000_000_000
            &&& apart <= 0 ==> (since - 1) * 1_000_000_000 < apart <= since * 1_000_000_000
        }),
        ({
            let nanos = t@.secs * 1_000_000_000 + t@.nanos;
            millis * 1_000_000 <= nanos < (millis + 1) * 1_000_000
        }),
{
}

} // verus!
