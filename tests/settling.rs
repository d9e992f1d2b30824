use robot_motion::settling::Tolerances;

fn linear() -> Tolerances {
    Tolerances::new()
        .error_tolerance(10)
        .velocity_tolerance(5)
        .tolerance_duration(100)
        .timeout(2000)
}

#[test]
fn settles_after_band_held_for_duration() {
    let mut t = linear();
    assert!(!t.check(3, 1, 1000));
    assert!(!t.check(3, 1, 1050));
    assert!(t.check(3, 1, 1100));
    assert_eq!(t.in_band_since, Some(1000));
    assert_eq!(t.started_at, Some(1000));
}

#[test]
fn leaving_band_restarts_duration() {
    let mut t = linear();
    assert!(!t.check(3, 1, 0));
    assert!(!t.check(30, 1, 60));
    assert_eq!(t.in_band_since, None);
    assert!(!t.check(3, 1, 120));
    assert!(!t.check(3, 1, 200));
    assert!(t.check(3, 1, 220));
}

#[test]
fn band_is_strict_and_symmetric() {
    let mut t = Tolerances::new().error_tolerance(10).velocity_tolerance(5);
    assert!(!t.check(10, 0, 0));
    assert!(!t.check(-10, 0, 0));
    assert!(!t.check(0, 5, 0));
    assert!(!t.check(0, -5, 0));
    assert!(t.check(-9, -4, 0));
}

#[test]
fn velocity_out_of_band_prevents_settling() {
    let mut t = linear();
    assert!(!t.check(0, 50, 0));
    assert!(!t.check(0, 50, 1000));
}

#[test]
fn timeout_forces_settling() {
    let mut t = linear();
    assert!(!t.check(500, 50, 10));
    assert!(!t.check(500, 50, 2009));
    assert!(t.check(500, 50, 2010));
    assert!(t.check(500, 50, 5000));
}

#[test]
fn no_duration_settles_on_first_in_band_sample() {
    let mut t = Tolerances::new().error_tolerance(10);
    assert!(t.check(1, 1_000_000, 7));
}

#[test]
fn zero_or_negative_tolerance_never_in_band() {
    let mut t = Tolerances::new().error_tolerance(0);
    assert!(!t.check(0, 0, 0));
    let mut t = Tolerances::new().error_tolerance(i64::MIN);
    assert!(!t.check(i64::MIN, 0, 0));
}

#[test]
fn settled_stays_settled_while_in_band() {
    let mut t = linear();
    let mut now = 0;
    let mut settled = false;
    while now < 1000 {
        let r = t.check(2, -2, now);
        assert!(!settled || r);
        settled = r;
        now += 10;
    }
    assert!(settled);
}

#[test]
fn clock_reading_earlier_counts_as_no_time() {
    let mut t = linear();
    assert!(!t.check(1, 1, 500));
    assert!(!t.check(1, 1, 400));
}
