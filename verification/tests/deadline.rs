use grpc_server::deadline::{ClockType, Deadline, Timespec};

fn at(tv_sec: i64, tv_nsec: i32) -> Timespec {
    Timespec { tv_sec, tv_nsec, clock_type: ClockType::Realtime }
}

#[test]
fn deadline_is_exceeded_on_the_moment_and_after() {
    let deadline = Deadline::new(at(10, 5));
    assert!(!deadline.exceeded(at(9, 999_999_999)));
    assert!(!deadline.exceeded(at(10, 4)));
    assert!(deadline.exceeded(at(10, 5)));
    assert!(deadline.exceeded(at(10, 6)));
    assert!(deadline.exceeded(at(11, 0)));
}

#[test]
fn deadline_before_the_epoch() {
    let deadline = Deadline::new(at(-3, 500));
    assert!(!deadline.exceeded(at(-4, 900)));
    assert!(!deadline.exceeded(at(-3, 499)));
    assert!(deadline.exceeded(at(-3, 500)));
    assert!(deadline.exceeded(at(0, 0)));
}

#[test]
fn infinite_deadlines() {
    assert!(!Deadline::new(at(i64::MAX, 0)).exceeded(at(i64::MAX - 1, 999_999_999)));
    assert!(Deadline::new(at(i64::MIN, 0)).exceeded(at(i64::MIN + 1, 0)));
    // The nanoseconds of an infinitely distant moment carry no meaning.
    assert!(Deadline::new(at(i64::MAX, 7)).exceeded(at(i64::MAX, 0)));
    assert!(Deadline::new(at(i64::MIN, 7)).exceeded(at(i64::MIN, 0)));
}

#[test]
fn is_before_is_strict() {
    assert!(at(1, 2).is_before(&at(1, 3)));
    assert!(!at(1, 3).is_before(&at(1, 3)));
    assert!(!at(1, 4).is_before(&at(1, 3)));
    assert!(at(0, 9).is_before(&at(1, 3)));
}

#[test]
fn moments_of_another_clock_are_ordered_alike() {
    let a = Timespec { tv_sec: 1, tv_nsec: 2, clock_type: ClockType::Monotonic };
    let b = Timespec { tv_sec: 1, tv_nsec: 3, clock_type: ClockType::Monotonic };
    assert!(a.is_before(&b));
    assert!(!b.is_before(&a));
}
