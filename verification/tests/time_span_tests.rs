use pomodorotimer::time_span::TimeSpan;

#[test]
fn seconds_and_nanoseconds_of_a_span() {
    let span = TimeSpan::new(3, 250_000_000).unwrap();
    assert_eq!(span.as_secs(), 3);
    assert_eq!(span.subsec_nanos(), 250_000_000);
    assert_eq!(span.as_nanos(), 3_250_000_000);
    assert_eq!(span, TimeSpan::from_millis(3250));
}

#[test]
fn units_of_a_span() {
    assert_eq!(TimeSpan::from_secs(1).as_nanos(), 1_000_000_000);
    assert_eq!(TimeSpan::from_millis(1).as_nanos(), 1_000_000);
    assert_eq!(TimeSpan::from_millis(u64::MAX).as_secs(), u64::MAX / 1000);
    assert_eq!(TimeSpan::from_millis(u64::MAX).subsec_nanos(), 615_000_000);
    assert_eq!(TimeSpan::from_secs(u64::MAX).as_secs(), u64::MAX);
}

#[test]
fn whole_seconds_among_the_nanoseconds_are_carried() {
    let span = TimeSpan::new(1, 2_500_000_000).unwrap();
    assert_eq!(span.as_secs(), 3);
    assert_eq!(span.subsec_nanos(), 500_000_000);
    assert_eq!(TimeSpan::new(0, u32::MAX).unwrap().as_nanos(), 4_294_967_295);
}

#[test]
fn no_span_is_longer_than_the_longest() {
    assert_eq!(TimeSpan::new(u64::MAX, 999_999_999), Some(TimeSpan::max_value()));
    assert_eq!(TimeSpan::new(u64::MAX, 1_000_000_000), None);
    assert_eq!(TimeSpan::new(u64::MAX - 4, u32::MAX).unwrap().as_secs(), u64::MAX);
    assert_eq!(TimeSpan::new(u64::MAX - 3, u32::MAX), None);
    assert_eq!(TimeSpan::max_value().as_secs(), u64::MAX);
    assert_eq!(TimeSpan::max_value().subsec_nanos(), 999_999_999);
    assert_eq!(TimeSpan::max_value().as_nanos(), 18_446_744_073_709_551_615_999_999_999);
}

#[test]
fn zero_is_the_empty_span() {
    assert!(TimeSpan::zero().is_zero());
    assert!(TimeSpan::from_secs(0).is_zero());
    assert!(!TimeSpan::new(0, 1).unwrap().is_zero());
    assert!(!TimeSpan::from_secs(1).is_zero());
    assert_eq!(TimeSpan::zero().as_nanos(), 0);
}

#[test]
fn spans_are_ordered_by_length() {
    let short = TimeSpan::new(1, 999_999_999).unwrap();
    let long = TimeSpan::from_secs(2);
    assert!(short.lt(&long));
    assert!(short.le(&long));
    assert!(!long.lt(&short));
    assert!(!long.le(&short));
    assert!(!long.lt(&long));
    assert!(long.le(&long));
    assert!(long.same(&TimeSpan::from_millis(2000)));
    assert!(!long.same(&short));
}

#[test]
fn sums_carry_and_stop_at_the_longest_span() {
    let a = TimeSpan::new(1, 600_000_000).unwrap();
    let b = TimeSpan::new(2, 700_000_000).unwrap();
    assert_eq!(a.checked_add(&b), TimeSpan::new(4, 300_000_000));
    assert_eq!(a.saturating_add(&b), TimeSpan::from_millis(4300));

    let nearly = TimeSpan::new(u64::MAX, 999_999_998).unwrap();
    let one = TimeSpan::new(0, 1).unwrap();
    assert_eq!(nearly.checked_add(&one), Some(TimeSpan::max_value()));
    assert_eq!(TimeSpan::max_value().checked_add(&one), None);
    assert_eq!(TimeSpan::max_value().saturating_add(&one), TimeSpan::max_value());
    assert_eq!(TimeSpan::max_value().checked_add(&TimeSpan::zero()), Some(TimeSpan::max_value()));
    assert_eq!(
        TimeSpan::max_value().saturating_add(&TimeSpan::max_value()),
        TimeSpan::max_value()
    );
}

#[test]
fn differences_borrow_and_stop_at_zero() {
    let a = TimeSpan::new(4, 300_000_000).unwrap();
    let b = TimeSpan::new(2, 700_000_000).unwrap();
    assert_eq!(a.saturating_sub(&b), TimeSpan::new(1, 600_000_000).unwrap());
    assert_eq!(b.saturating_sub(&a), TimeSpan::zero());
    assert_eq!(a.saturating_sub(&a), TimeSpan::zero());
    assert_eq!(TimeSpan::max_value().saturating_sub(&TimeSpan::zero()), TimeSpan::max_value());
}

#[test]
fn clock_shows_minutes_and_seconds() {
    assert_eq!(TimeSpan::from_secs(20 * 60).clock(), (20, 0));
    assert_eq!(TimeSpan::from_secs(5 * 60 + 7).clock(), (5, 7));
    assert_eq!(TimeSpan::from_millis(59_999).clock(), (0, 59));
    assert_eq!(TimeSpan::from_secs(3600).clock(), (60, 0));
    assert_eq!(TimeSpan::zero().clock(), (0, 0));
}
