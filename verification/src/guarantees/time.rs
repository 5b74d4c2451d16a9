//! When a deadline has come.
use vstd::prelude::*;

use crate::deadline::Deadline;
use crate::deadline::Timespec;

verus! {

/// A deadline is not exceeded as long as the clock shows an earlier second, or the same second
/// and an earlier nanosecond, and is exceeded from then on. Within the infinite past and the
/// infinite future the nanoseconds make no difference.
pub proof fn deadline_comes_at_its_moment(
    spec: Timespec,
    deadline: Deadline,
    now: Timespec,
    exceeded: bool,
)
    requires
        call_ensures(Deadline::new, (spec,), deadline),
        call_ensures(Deadline::exceeded, (&deadline, now), exceeded),
    ensures
        now.tv_sec < spec.tv_sec ==> !exceeded,
        now.tv_sec > spec.tv_sec ==> exceeded,
        now.tv_sec == spec.tv_sec && i64::MIN < now.tv_sec < i64::MAX ==> (exceeded <==> now.tv_nsec
            >= spec.tv_nsec),
        now.tv_sec == spec.tv_sec && (now.tv_sec == i64::MIN || now.tv_sec == i64::MAX)
            ==> exceeded,
{
}

/// What holds of a new deadline holds of every one: only the moment it falls on counts.
pub proof fn deadline_is_held_against_its_moment(deadline: &Deadline, now: Timespec, exceeded: bool)
    requires
        call_ensures(Deadline::exceeded, (deadline, now), exceeded),
    ensures
        deadline.at().clock_type is Realtime,
        now.tv_sec < deadline.at().tv_sec ==> !exceeded,
        now.tv_sec > deadline.at().tv_sec ==> exceeded,
        now.tv_sec == deadline.at().tv_sec && i64::MIN < now.tv_sec < i64::MAX ==> (exceeded
            <==> now.tv_nsec >= deadline.at().tv_nsec),
        now.tv_sec == deadline.at().tv_sec && (now.tv_sec == i64::MIN || now.tv_sec == i64::MAX)
            ==> exceeded,
{
}

/// Counted in nanoseconds, a deadline is exceeded exactly if the clock has reached it.
pub proof fn deadline_comes_by_the_nanosecond(
    spec: Timespec,
    deadline: Deadline,
    now: Timespec,
    exceeded: bool,
)
    requires
        i64::MIN < spec.tv_sec < i64::MAX,
        i64::MIN < now.tv_sec < i64::MAX,
        0 <= spec.tv_nsec < 1_000_000_000,
        0 <= now.tv_nsec < 1_000_000_000,
        call_ensures(Deadline::new, (spec,), deadline),
        call_ensures(Deadline::exceeded, (&deadline, now), exceeded),
    ensures
        exceeded <==> now.tv_sec * 1_000_000_000 + now.tv_nsec >= spec.tv_sec * 1_000_000_000
            + spec.tv_nsec,
{
}

/// A moment comes before another if its second does, or, within a second that is not infinitely
/// distant, its nanosecond. Neither of two moments comes before the other only if they are the
/// same, or in the same infinite distance.
pub proof fn moments_come_in_order(a: Timespec, b: Timespec, a_first: bool, b_first: bool)
    requires
        call_ensures(Timespec::is_before, (&a, &b), a_first),
        call_ensures(Timespec::is_before, (&b, &a), b_first),
    ensures
        a.tv_sec < b.tv_sec ==> a_first,
        a.tv_sec > b.tv_sec ==> !a_first,
        a.tv_sec == b.tv_sec && i64::MIN < a.tv_sec < i64::MAX ==> (a_first <==> a.tv_nsec
            < b.tv_nsec),
        a.tv_sec == b.tv_sec && (a.tv_sec == i64::MIN || a.tv_sec == i64::MAX) ==> !a_first,
        !(a_first && b_first),
        !a_first && !b_first ==> a.tv_sec == b.tv_sec && (a.tv_nsec == b.tv_nsec || a.tv_sec
            == i64::MIN || a.tv_sec == i64::MAX),
{
}

/// A deadline is made of a moment on the real-time clock, and stays there.
pub proof fn deadline_is_on_the_real_time_clock(spec: Timespec, deadline: Deadline)
    requires
        call_ensures(Deadline::new, (spec,), deadline),
    ensures
        deadline.at() == spec,
        deadline.at().clock_type is Realtime,
{
}

/// Every moment on the real-time clock can be a deadline, and be held against one; and any two
/// moments on one clock can be held against each other.
pub proof fn deadline_asks_only_for_the_clock(deadline: Deadline, moment: Timespec)
    requires
        moment.clock_type is Realtime,
    ensures
        forall|a: &Timespec, b: &Timespec|
            a.clock_type == b.clock_type ==> #[trigger] call_requires(
                Timespec::is_before,
                (a, b),
            ),
        call_requires(Deadline::new, (moment,)),
        call_requires(Deadline::exceeded, (&deadline, moment)),
{
}

} // verus!
