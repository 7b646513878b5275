use pk_auto_push::waiting::{
    notify, DefaultWaiter, IntelligentWait, Interval, Notice, WaitingGaveUp,
};

fn usual_waiter() -> DefaultWaiter {
    DefaultWaiter::new(
        Interval::from_secs(7),
        Interval::from_secs(5 * 60),
        Interval::from_secs(30 * 60),
        10,
    )
}

#[test]
fn interval_is_seconds_and_nanoseconds() {
    let span = Interval::new(3, 250_000_000);
    assert_eq!(span.as_secs(), 3);
    assert_eq!(span.subsec_nanos(), 250_000_000);
    assert_eq!(Interval::from_secs(9), Interval::new(9, 0));
    assert_eq!(Interval::from_secs(0).as_secs(), 0);
    assert_eq!(Interval::new(u64::MAX, 999_999_999).as_secs(), u64::MAX);
}

#[test]
fn interval_times_a_factor_carries_into_the_seconds() {
    let span = Interval::new(1, 500_000_000);
    assert_eq!(span.checked_mul(3), Some(Interval::new(4, 500_000_000)));
    assert_eq!(span.checked_mul(0), Some(Interval::from_secs(0)));
    assert_eq!(span.checked_mul(1), Some(span));
    assert_eq!(
        Interval::new(0, 999_999_999).checked_mul(u32::MAX),
        Some(Interval::new(4_294_967_290, 705_032_705))
    );
}

#[test]
fn interval_times_a_factor_stops_at_the_longest_interval() {
    assert_eq!(Interval::from_secs(u64::MAX).checked_mul(1), Some(Interval::from_secs(u64::MAX)));
    assert_eq!(Interval::from_secs(u64::MAX).checked_mul(2), None);
    assert_eq!(Interval::new(u64::MAX, 500_000_000).checked_mul(2), None);
    assert_eq!(
        Interval::new(u64::MAX / 2, 500_000_000).checked_mul(2),
        Some(Interval::new(u64::MAX, 0))
    );
    assert_eq!(Interval::new(u64::MAX / 2 + 1, 0).checked_mul(2), None);
}

#[test]
fn success_waits_the_success_interval() {
    let mut waiter = usual_waiter();
    assert_eq!(waiter.success(), Interval::from_secs(7));
    assert_eq!(waiter.success(), Interval::from_secs(7));
}

#[test]
fn skipped_waits_the_skipped_interval() {
    let mut waiter = usual_waiter();
    assert_eq!(waiter.skipped(), Interval::from_secs(1800));
    assert_eq!(waiter.skipped(), Interval::from_secs(1800));
}

#[test]
fn rate_limits_in_a_row_wait_one_success_interval_more_each() {
    let mut waiter = usual_waiter();
    assert_eq!(waiter.limit_reached(), Interval::from_secs(14));
    assert_eq!(waiter.limit_reached(), Interval::from_secs(21));
    assert_eq!(waiter.limit_reached(), Interval::from_secs(28));
}

#[test]
fn rate_limits_never_give_up() {
    let mut waiter = usual_waiter();
    let mut last = Interval::from_secs(0);
    for count in 1..=1000u64 {
        assert!(waiter.can_take(Notice::LimitReached));
        last = waiter.limit_reached();
        assert_eq!(last, Interval::from_secs(7 * (count + 1)));
    }
    assert_eq!(last, Interval::from_secs(7007));
}

#[test]
fn errors_in_a_row_wait_longer_until_the_maximum_is_exceeded() {
    let mut waiter = usual_waiter();
    let mut previous = Interval::from_secs(0);
    for count in 1..=10u64 {
        assert!(waiter.can_take(Notice::Error));
        let wait = waiter.error().expect("no giving up within the maximum");
        assert_eq!(wait, Interval::from_secs(300 * (count + 1)));
        assert!(wait.as_secs() > previous.as_secs());
        previous = wait;
    }
    assert_eq!(previous, Interval::from_secs(3300));
    assert!(waiter.can_take(Notice::Error));
    assert_eq!(waiter.error(), Err(WaitingGaveUp::Errors(11)));
    assert_eq!(waiter.error(), Err(WaitingGaveUp::Errors(12)));
}

#[test]
fn first_error_waits_twice_the_error_interval() {
    let mut waiter = usual_waiter();
    assert_eq!(waiter.error(), Ok(Interval::from_secs(600)));
}

#[test]
fn no_retry_allowed_gives_up_at_the_first_error() {
    let mut waiter =
        DefaultWaiter::new(Interval::from_secs(1), Interval::from_secs(2), Interval::from_secs(3), 0);
    assert_eq!(waiter.error(), Err(WaitingGaveUp::Errors(1)));
}

#[test]
fn one_retry_allowed_gives_up_at_the_second_error() {
    let mut waiter =
        DefaultWaiter::new(Interval::from_secs(1), Interval::from_secs(2), Interval::from_secs(3), 1);
    assert_eq!(waiter.error(), Ok(Interval::from_secs(4)));
    assert_eq!(waiter.error(), Err(WaitingGaveUp::Errors(2)));
}

#[test]
fn success_makes_the_next_waits_the_first_ones_again() {
    let mut waiter = usual_waiter();
    let first_limit = usual_waiter().limit_reached();
    let first_error = usual_waiter().error();
    waiter.limit_reached();
    waiter.limit_reached();
    assert_eq!(waiter.error(), Ok(Interval::from_secs(600)));
    assert_eq!(waiter.error(), Ok(Interval::from_secs(900)));
    assert_eq!(waiter.success(), Interval::from_secs(7));
    assert_eq!(waiter.limit_reached(), first_limit);
    assert_eq!(waiter.error(), first_error);
    assert_eq!(first_limit, Interval::from_secs(14));
    assert_eq!(first_error, Ok(Interval::from_secs(600)));
}

#[test]
fn skipped_makes_the_next_waits_the_first_ones_again() {
    let mut waiter = usual_waiter();
    for _ in 0..10 {
        waiter.error().expect("within the maximum");
    }
    waiter.limit_reached();
    assert_eq!(waiter.skipped(), Interval::from_secs(1800));
    assert_eq!(waiter.error(), Ok(Interval::from_secs(600)));
    assert_eq!(waiter.limit_reached(), Interval::from_secs(14));
}

#[test]
fn success_after_giving_up_allows_errors_again() {
    let mut waiter =
        DefaultWaiter::new(Interval::from_secs(1), Interval::from_secs(2), Interval::from_secs(3), 1);
    assert_eq!(waiter.error(), Ok(Interval::from_secs(4)));
    assert_eq!(waiter.error(), Err(WaitingGaveUp::Errors(2)));
    waiter.success();
    assert_eq!(waiter.error(), Ok(Interval::from_secs(4)));
}

#[test]
fn rate_limits_and_errors_are_counted_apart() {
    let mut waiter = usual_waiter();
    assert_eq!(waiter.limit_reached(), Interval::from_secs(14));
    assert_eq!(waiter.error(), Ok(Interval::from_secs(600)));
    assert_eq!(waiter.limit_reached(), Interval::from_secs(21));
    assert_eq!(waiter.error(), Ok(Interval::from_secs(900)));
}

#[test]
fn zero_intervals_wait_no_time() {
    let mut waiter =
        DefaultWaiter::new(Interval::from_secs(0), Interval::from_secs(0), Interval::from_secs(0), 3);
    assert_eq!(waiter.limit_reached(), Interval::from_secs(0));
    assert_eq!(waiter.error(), Ok(Interval::from_secs(0)));
    assert_eq!(waiter.error(), Ok(Interval::from_secs(0)));
}

#[test]
fn a_wait_too_long_to_hold_is_told_beforehand() {
    let long = Interval::from_secs(u64::MAX / 2 + 1);
    let waiter = DefaultWaiter::new(long, long, long, 10);
    assert!(!waiter.can_take(Notice::LimitReached));
    assert!(!waiter.can_take(Notice::Error));
    let short = Interval::from_secs(u64::MAX / 2);
    let mut waiter = DefaultWaiter::new(short, short, short, 10);
    assert!(waiter.can_take(Notice::LimitReached));
    assert!(waiter.can_take(Notice::Error));
    assert_eq!(waiter.limit_reached(), Interval::from_secs(u64::MAX - 1));
    assert_eq!(waiter.error(), Ok(Interval::from_secs(u64::MAX - 1)));
    assert!(!waiter.can_take(Notice::LimitReached));
    assert!(!waiter.can_take(Notice::Error));
}

#[test]
fn giving_up_needs_no_wait_to_fit() {
    let long = Interval::from_secs(u64::MAX);
    let mut waiter = DefaultWaiter::new(long, long, long, 0);
    assert!(waiter.can_take(Notice::Error));
    assert_eq!(waiter.error(), Err(WaitingGaveUp::Errors(1)));
    assert!(!waiter.can_take(Notice::LimitReached));
}

#[test]
fn success_and_skipped_can_always_be_told() {
    let long = Interval::new(u64::MAX, 999_999_999);
    let waiter = DefaultWaiter::new(long, long, long, u32::MAX);
    assert!(waiter.can_take(Notice::Success));
    assert!(waiter.can_take(Notice::Skipped));
    assert!(!waiter.can_take(Notice::LimitReached));
    assert!(!waiter.can_take(Notice::Error));
}

#[test]
fn notify_tells_the_waiter_of_each_event() {
    let mut waiter = usual_waiter();
    assert_eq!(notify(&mut waiter, Notice::LimitReached), Ok(Interval::from_secs(14)));
    assert_eq!(notify(&mut waiter, Notice::LimitReached), Ok(Interval::from_secs(21)));
    assert_eq!(notify(&mut waiter, Notice::Error), Ok(Interval::from_secs(600)));
    assert_eq!(notify(&mut waiter, Notice::Success), Ok(Interval::from_secs(7)));
    assert_eq!(notify(&mut waiter, Notice::LimitReached), Ok(Interval::from_secs(14)));
    assert_eq!(notify(&mut waiter, Notice::Skipped), Ok(Interval::from_secs(1800)));
    assert_eq!(notify(&mut waiter, Notice::Error), Ok(Interval::from_secs(600)));
}

#[test]
fn notify_hands_the_giving_up_on() {
    let mut waiter =
        DefaultWaiter::new(Interval::from_secs(1), Interval::from_secs(2), Interval::from_secs(3), 1);
    assert_eq!(notify(&mut waiter, Notice::Error), Ok(Interval::from_secs(4)));
    assert_eq!(notify(&mut waiter, Notice::Error), Err(WaitingGaveUp::Errors(2)));
    assert_eq!(notify(&mut waiter, Notice::Skipped), Ok(Interval::from_secs(3)));
    assert_eq!(notify(&mut waiter, Notice::Error), Ok(Interval::from_secs(4)));
}

/// A waiter of another make: always the same wait, and no patience with errors.
struct Impatient(u32);

impl IntelligentWait for Impatient {
    fn accepts(&self, _notice: Notice) -> bool {
        true
    }

    fn answers(
        &self,
        _notice: Notice,
        _after: &Self,
        _answer: Result<Interval, WaitingGaveUp>,
    ) -> bool {
        true
    }

    fn can_take(&self, _notice: Notice) -> bool {
        true
    }

    fn success(&mut self) -> Interval {
        self.0 = 0;
        Interval::from_secs(1)
    }

    fn skipped(&mut self) -> Interval {
        self.0 = 0;
        Interval::from_secs(1)
    }

    fn limit_reached(&mut self) -> Interval {
        Interval::from_secs(1)
    }

    fn error(&mut self) -> Result<Interval, WaitingGaveUp> {
        self.0 += 1;
        Err(WaitingGaveUp::Errors(self.0))
    }
}

#[test]
fn notify_works_with_any_waiter() {
    let mut waiter = Impatient(0);
    assert_eq!(notify(&mut waiter, Notice::Success), Ok(Interval::from_secs(1)));
    assert_eq!(notify(&mut waiter, Notice::LimitReached), Ok(Interval::from_secs(1)));
    assert_eq!(notify(&mut waiter, Notice::Error), Err(WaitingGaveUp::Errors(1)));
    assert_eq!(notify(&mut waiter, Notice::Error), Err(WaitingGaveUp::Errors(2)));
    assert_eq!(notify(&mut waiter, Notice::Skipped), Ok(Interval::from_secs(1)));
    assert_eq!(notify(&mut waiter, Notice::Error), Err(WaitingGaveUp::Errors(1)));
}
