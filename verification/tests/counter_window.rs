use token_rate_limit::{Counter, Rate};

const SECOND: u128 = 1_000_000_000;
const MINUTE: u128 = 60 * SECOND;

#[test]
fn rate_keeps_its_numbers() {
    let rate = Rate::new(3, MINUTE);
    assert_eq!(rate.num(), 3);
    assert_eq!(rate.per(), MINUTE);
}

#[test]
fn rate_of_zero_requests_is_refused() {
    assert!(Rate::try_new(0, MINUTE).is_none());
}

#[test]
fn rate_over_no_time_is_refused() {
    assert!(Rate::try_new(3, 0).is_none());
}

#[test]
fn rate_of_one_request_per_nanosecond_is_accepted() {
    let rate = Rate::try_new(1, 1).unwrap();
    assert_eq!(rate.num(), 1);
    assert_eq!(rate.per(), 1);
}

#[test]
fn fresh_counter_holds_the_whole_quota() {
    let rate = Rate::new(5, MINUTE);
    let counter = Counter::new(&rate, 17);
    assert_eq!(counter.remaining(), 5);
    assert_eq!(counter.window_start(), 17);
}

#[test]
fn consume_takes_one_unit_until_none_is_left() {
    let rate = Rate::new(2, MINUTE);
    let mut counter = Counter::new(&rate, 0);
    assert!(counter.try_consume());
    assert_eq!(counter.remaining(), 1);
    assert!(counter.try_consume());
    assert_eq!(counter.remaining(), 0);
    assert!(!counter.try_consume());
    assert_eq!(counter.remaining(), 0);
}

#[test]
fn window_is_kept_up_to_its_last_instant() {
    let rate = Rate::new(3, MINUTE);
    let mut counter = Counter::new(&rate, 100);
    assert!(counter.try_consume());
    counter.renew(&rate, 100 + MINUTE);
    assert_eq!(counter.remaining(), 2);
    assert_eq!(counter.window_start(), 100);
}

#[test]
fn window_is_renewed_one_instant_after_its_end() {
    let rate = Rate::new(3, MINUTE);
    let mut counter = Counter::new(&rate, 100);
    assert!(counter.try_consume());
    assert!(counter.try_consume());
    counter.renew(&rate, 100 + MINUTE + 1);
    assert_eq!(counter.remaining(), 3);
    assert_eq!(counter.window_start(), 100 + MINUTE);
}

#[test]
fn renewal_lands_on_the_grid_of_windows() {
    let rate = Rate::new(3, MINUTE);
    let mut counter = Counter::new(&rate, 7 * SECOND);
    // 125.3 s after the start: two whole windows and 5.3 s have passed.
    let now = 7 * SECOND + 125 * SECOND + 300_000_000;
    counter.renew(&rate, now);
    assert_eq!(counter.remaining(), 3);
    assert_eq!(counter.window_start(), 7 * SECOND + 2 * MINUTE);
}

#[test]
fn renewal_at_a_whole_number_of_windows_starts_at_now() {
    let rate = Rate::new(3, MINUTE);
    let mut counter = Counter::new(&rate, 0);
    counter.renew(&rate, 2 * MINUTE);
    assert_eq!(counter.window_start(), 2 * MINUTE);
}

#[test]
fn reading_before_the_window_counts_as_its_start() {
    let rate = Rate::new(3, MINUTE);
    let mut counter = Counter::new(&rate, 10 * MINUTE);
    assert!(counter.serve(&rate, 5));
    assert_eq!(counter.remaining(), 2);
    assert_eq!(counter.window_start(), 10 * MINUTE);
    assert_eq!(counter.wait(&rate, 5), MINUTE);
}

#[test]
fn wait_is_the_rest_of_the_window() {
    let rate = Rate::new(3, MINUTE);
    let counter = Counter::new(&rate, 100);
    assert_eq!(counter.wait(&rate, 100), MINUTE);
    assert_eq!(counter.wait(&rate, 100 + 20 * SECOND), 40 * SECOND);
    assert_eq!(counter.wait(&rate, 100 + MINUTE), 0);
    assert_eq!(counter.wait(&rate, 100 + MINUTE + 1), 0);
}

#[test]
fn serve_renews_and_then_consumes() {
    let rate = Rate::new(2, MINUTE);
    let mut counter = Counter::new(&rate, 0);
    assert!(counter.serve(&rate, 1));
    assert!(counter.serve(&rate, 2));
    assert!(!counter.serve(&rate, 3));
    assert_eq!(counter.remaining(), 0);
    assert!(counter.serve(&rate, MINUTE + 1));
    assert_eq!(counter.remaining(), 1);
    assert_eq!(counter.window_start(), MINUTE);
}

#[test]
fn spent_counter_never_goes_below_zero() {
    let rate = Rate::new(1, MINUTE);
    let mut counter = Counter::new(&rate, 0);
    assert!(counter.serve(&rate, 0));
    let mut now: u128 = 0;
    while now <= MINUTE {
        assert!(!counter.serve(&rate, now));
        assert_eq!(counter.remaining(), 0);
        assert_eq!(counter.window_start(), 0);
        now += SECOND;
    }
}

#[test]
fn admissions_in_one_window_never_exceed_the_quota() {
    let rate = Rate::new(7, MINUTE);
    let mut counter = Counter::new(&rate, 0);
    let mut admitted = 0;
    let mut now: u128 = 0;
    while now <= MINUTE {
        if counter.serve(&rate, now) {
            admitted += 1;
        }
        now += SECOND / 4;
    }
    assert_eq!(admitted, 7);
}

#[test]
fn largest_readings_do_not_overflow() {
    let rate = Rate::new(usize::MAX, u128::MAX);
    let mut counter = Counter::new(&rate, 0);
    assert!(counter.serve(&rate, u128::MAX));
    assert_eq!(counter.remaining(), usize::MAX - 1);
    assert_eq!(counter.window_start(), 0);
    let small = Rate::new(1, 1);
    let mut late = Counter::new(&small, 0);
    assert!(late.serve(&small, u128::MAX));
    assert_eq!(late.window_start(), u128::MAX);
    assert_eq!(late.remaining(), 0);
}
