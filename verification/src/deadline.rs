//! The time by which a call is to be answered.
use vstd::prelude::*;

verus! {

/// The clocks that a moment can be on.
#[derive(Clone, Copy, Debug, PartialEq, Eq, Structural)]
pub enum ClockType {
    /// A clock that is never set back, with an arbitrary zero.
    Monotonic,
    /// The time of day, counted from the epoch.
    Realtime,
    /// A clock for fine measurements.
    Precise,
    /// No clock: a length of time.
    Timespan,
}

/// A moment on a clock: seconds, and nanoseconds into that second. The least and the greatest
/// number of seconds stand for the infinite past and future.
#[derive(Clone, Copy, Debug, PartialEq, Eq, Structural)]
pub struct Timespec {
    pub tv_sec: i64,
    pub tv_nsec: i32,
    pub clock_type: ClockType,
}

impl Timespec {
    /// Whether the moment is at an infinite distance.
    pub open spec fn is_infinite(self) -> bool {
        self.tv_sec == i64::MIN || self.tv_sec == i64::MAX
    }

    /// Whether the moment is on the real-time clock.
    pub open spec fn is_real_time(self) -> bool {
        self.clock_type is Realtime
    }

    /// Whether this moment comes before the other, on the same clock. The nanoseconds of an
    /// infinitely distant moment carry no meaning.
    pub open spec fn before(self, other: Timespec) -> bool
        recommends
            self.clock_type == other.clock_type,
    {
        ||| self.tv_sec < other.tv_sec
        ||| self.tv_sec == other.tv_sec && !self.is_infinite() && self.tv_nsec < other.tv_nsec
    }

    /// Whether this moment comes before the other, on the same clock.
    pub fn is_before(&self, other: &Timespec) -> (r: bool)
        requires
            self.clock_type == other.clock_type,
        ensures
            r == self.before(*other),
    {
        if self.tv_sec != other.tv_sec {
            self.tv_sec < other.tv_sec
        } else {
            self.tv_sec != i64::MIN && self.tv_sec != i64::MAX && self.tv_nsec < other.tv_nsec
        }
    }
}

/// The time by which a call is to be answered, on the real-time clock.
#[derive(Clone, Copy, Debug, PartialEq, Eq, Structural)]
pub struct Deadline {
    spec: Timespec,
}

impl Deadline {
    /// The moment the deadline falls on.
    pub closed spec fn at(self) -> Timespec {
        self.spec
    }

    /// Every deadline is on the real-time clock.
    #[verifier::type_invariant]
    pub open spec fn on_real_time(self) -> bool {
        self.at().is_real_time()
    }

    /// The deadline that falls on this moment, which has been brought to the real-time clock.
    pub fn new(spec: Timespec) -> (deadline: Deadline)
        requires
            spec.is_real_time(),
        ensures
            deadline.at() == spec,
            deadline.at().is_real_time(),
    {
        Deadline { spec }
    }

    /// Whether the deadline has come, with the real-time clock at `now`.
    pub fn exceeded(&self, now: Timespec) -> (r: bool)
        requires
            now.is_real_time(),
        ensures
            self.at().is_real_time(),
            r == !now.before(self.at()),
    {
        proof {
            use_type_invariant(self);
        }
        !now.is_before(&self.spec)
    }
}

/// A deadline that has come stays so: it is exceeded at every moment that is not before one at
/// which it was exceeded.
pub proof fn exceeded_for_good(deadline: Deadline, now: Timespec, later: Timespec)
    requires
        !now.before(deadline.at()),
        !later.before(now),
    ensures
        !later.before(deadline.at()),
{
}

/// A deadline is exceeded at the very moment it falls on.
pub proof fn exceeded_on_the_moment(deadline: Deadline)
    ensures
        !deadline.at().before(deadline.at()),
{
}

/// A deadline in the infinite future is not exceeded at any finite moment.
pub proof fn infinite_deadline_never_comes(deadline: Deadline, now: Timespec)
    requires
        deadline.at().tv_sec == i64::MAX,
        !now.is_infinite(),
    ensures
        now.before(deadline.at()),
{
}

} // verus!
