use object_store::instant::Timestamp;

#[test]
fn order_is_by_seconds_then_nanoseconds() {
    let a = Timestamp::new(10, 5);
    let b = Timestamp::new(10, 6);
    let c = Timestamp::new(11, 0);
    assert!(a.is_before(&b));
    assert!(b.is_before(&c));
    assert!(a.is_before(&c));
    assert!(!a.is_before(&a));
    assert!(!b.is_before(&a));
    assert!(c.is_after(&a));
    assert!(!a.is_after(&a));
    assert!(Timestamp::new(-1, 999_999_999).is_before(&Timestamp::new(0, 0)));
}

#[test]
fn adding_seconds() {
    let t = Timestamp::new(100, 7);
    assert_eq!(t.add_seconds(30), Timestamp::new(130, 7));
    assert_eq!(t.add_seconds(-130), Timestamp::new(-30, 7));
    assert_eq!(t.checked_add_seconds(30), Some(Timestamp::new(130, 7)));
    assert_eq!(t.checked_add_seconds(i64::MAX), None);
    assert_eq!(Timestamp::new(-100, 0).checked_add_seconds(i64::MIN), None);
    assert_eq!(
        Timestamp::new(0, 0).checked_add_seconds(i64::MAX),
        Some(Timestamp::new(i64::MAX, 0))
    );
}

#[test]
fn elapsed_time_is_measured_to_the_nanosecond() {
    let start = Timestamp::new(1_000, 500);
    assert!(!Timestamp::new(1_060, 500).is_later_by_more_than(&start, 60));
    assert!(Timestamp::new(1_060, 501).is_later_by_more_than(&start, 60));
    assert!(!Timestamp::new(1_060, 0).is_later_by_more_than(&start, 60));
    assert!(Timestamp::new(1_061, 0).is_later_by_more_than(&start, 60));
    assert!(!Timestamp::new(900, 0).is_later_by_more_than(&start, 60));
    assert!(Timestamp::new(i64::MAX, 0).is_later_by_more_than(&Timestamp::new(i64::MIN, 0), 60));
    assert!(!Timestamp::new(i64::MIN, 0).is_later_by_more_than(&Timestamp::new(i64::MAX, 0), 60));
}

#[test]
fn rfc3339_text() {
    assert_eq!(Timestamp::new(0, 0).to_rfc3339().as_deref(), Some("1970-01-01T00:00:00+00:00"));
    assert_eq!(
        Timestamp::new(1_704_067_200, 0).to_rfc3339().as_deref(),
        Some("2024-01-01T00:00:00+00:00")
    );
    assert_eq!(
        Timestamp::new(1_704_067_200, 500_000_000).to_rfc3339().as_deref(),
        Some("2024-01-01T00:00:00.500+00:00")
    );
    assert_eq!(
        Timestamp::new(-1, 0).to_rfc3339().as_deref(),
        Some("1969-12-31T23:59:59+00:00")
    );
    assert_eq!(Timestamp::new(i64::MAX, 0).to_rfc3339(), None);
    assert_eq!(Timestamp::new(0, 2_000_000_000).to_rfc3339(), None);
}

#[test]
fn rfc2822_text() {
    assert_eq!(
        Timestamp::new(0, 0).to_rfc2822().as_deref(),
        Some("Thu, 1 Jan 1970 00:00:00 +0000")
    );
    assert_eq!(
        Timestamp::new(1_704_067_200, 0).to_rfc2822().as_deref(),
        Some("Mon, 1 Jan 2024 00:00:00 +0000")
    );
    assert_eq!(
        Timestamp::new(253_402_300_799, 0).to_rfc2822().as_deref(),
        Some("Fri, 31 Dec 9999 23:59:59 +0000")
    );
    assert_eq!(Timestamp::new(253_402_300_800, 0).to_rfc2822(), None);
    assert_eq!(
        Timestamp::new(-62_167_219_200, 0).to_rfc2822().as_deref(),
        Some("Sat, 1 Jan 0000 00:00:00 +0000")
    );
    assert_eq!(Timestamp::new(-62_167_219_201, 0).to_rfc2822(), None);
    assert_eq!(Timestamp::new(0, 2_000_000_000).to_rfc2822(), None);
}

#[test]
fn representable_instants() {
    assert!(Timestamp::new(0, 0).is_representable());
    assert!(Timestamp::new(253_402_300_800, 0).is_representable());
    assert!(!Timestamp::new(i64::MAX, 0).is_representable());
    assert!(!Timestamp::new(i64::MIN, 0).is_representable());
    assert!(!Timestamp::new(0, 1_000_000_000).is_representable());
    assert!(Timestamp::new(59, 1_000_000_000).is_representable());
}
