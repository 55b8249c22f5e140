use oliviabot::time::{Timestamp, NANOS_PER_SEC};

#[test]
fn a_second_has_a_billion_nanoseconds() {
    assert_eq!(NANOS_PER_SEC, 1_000_000_000);
}

#[test]
fn timestamp_is_made_of_seconds_and_nanoseconds() {
    assert_eq!(Timestamp::from_parts(0, 0), Timestamp { unix_nanos: 0 });
    assert_eq!(Timestamp::from_parts(1, 5), Timestamp { unix_nanos: 1_000_000_005 });
    assert_eq!(
        Timestamp::from_parts(1_700_000_000, 123_456_789),
        Timestamp { unix_nanos: 1_700_000_000_123_456_789 }
    );
    assert_eq!(Timestamp::from_parts(-1, 999_999_999), Timestamp { unix_nanos: -1 });
    assert_eq!(Timestamp::from_parts(-2, 0), Timestamp { unix_nanos: -2_000_000_000 });
    assert_eq!(
        Timestamp::from_parts(i64::MIN, 0),
        Timestamp { unix_nanos: i64::MIN as i128 * 1_000_000_000 }
    );
    assert_eq!(
        Timestamp::from_parts(i64::MAX, u32::MAX),
        Timestamp { unix_nanos: i64::MAX as i128 * 1_000_000_000 + u32::MAX as i128 }
    );
}

#[test]
fn timestamp_splits_into_seconds_and_nanoseconds() {
    assert_eq!(Timestamp { unix_nanos: 0 }.parts(), Some((0, 0)));
    assert_eq!(Timestamp { unix_nanos: 999_999_999 }.parts(), Some((0, 999_999_999)));
    assert_eq!(Timestamp { unix_nanos: 1_000_000_000 }.parts(), Some((1, 0)));
    assert_eq!(
        Timestamp { unix_nanos: 1_700_000_000_123_456_789 }.parts(),
        Some((1_700_000_000, 123_456_789))
    );
}

#[test]
fn timestamp_before_the_epoch_counts_seconds_down() {
    assert_eq!(Timestamp { unix_nanos: -1 }.parts(), Some((-1, 999_999_999)));
    assert_eq!(Timestamp { unix_nanos: -1_000_000_000 }.parts(), Some((-1, 0)));
    assert_eq!(Timestamp { unix_nanos: -1_000_000_001 }.parts(), Some((-2, 999_999_999)));
    assert_eq!(Timestamp { unix_nanos: -1_999_999_999 }.parts(), Some((-2, 1)));
}

#[test]
fn timestamp_parts_agree_with_euclidean_division() {
    let mut n: i128 = -7_000_000_000_123;
    for _ in 0..200 {
        let parts = Timestamp { unix_nanos: n }.parts().expect("seconds that fit");
        assert_eq!(parts.0 as i128, n.div_euclid(1_000_000_000));
        assert_eq!(parts.1 as i128, n.rem_euclid(1_000_000_000));
        assert_eq!(Timestamp::from_parts(parts.0, parts.1), Timestamp { unix_nanos: n });
        n = n.wrapping_mul(-3).wrapping_add(987_654_321_987);
        n %= 9_000_000_000_000_000_000_000_000_000;
    }
}

#[test]
fn timestamp_with_seconds_that_do_not_fit_has_no_parts() {
    let most = i64::MAX as i128 * 1_000_000_000 + 999_999_999;
    let least = i64::MIN as i128 * 1_000_000_000;
    assert_eq!(Timestamp { unix_nanos: most }.parts(), Some((i64::MAX, 999_999_999)));
    assert_eq!(Timestamp { unix_nanos: most + 1 }.parts(), None);
    assert_eq!(Timestamp { unix_nanos: least }.parts(), Some((i64::MIN, 0)));
    assert_eq!(Timestamp { unix_nanos: least - 1 }.parts(), None);
    assert_eq!(Timestamp { unix_nanos: i128::MAX }.parts(), None);
    assert_eq!(Timestamp { unix_nanos: i128::MIN }.parts(), None);
}
