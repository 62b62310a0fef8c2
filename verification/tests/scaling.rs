use fixed_timestamp::scale::clamp_u128_to_u64;
use fixed_timestamp::scale::nanoseconds_to_timestamp_value;
use fixed_timestamp::scale::pow10_u128;
use fixed_timestamp::scale::scale_u128;
use fixed_timestamp::scale::timestamp_value_to_nanoseconds;
use fixed_timestamp::timestamp::TimestampTryScaleError;
use fixed_timestamp::Timestamp;

#[test]
fn pow10_boundary() {
    assert_eq!(
        pow10_u128(38),
        Some(100_000_000_000_000_000_000_000_000_000_000_000_000u128)
    );
    assert_eq!(pow10_u128(39), None);
}

#[test]
fn pow10_small_values() {
    assert_eq!(pow10_u128(0), Some(1));
    assert_eq!(pow10_u128(1), Some(10));
    assert_eq!(pow10_u128(9), Some(1_000_000_000));
}

#[test]
fn scale_zero_diff_is_identity() {
    assert_eq!(scale_u128(0, 0), Some(0));
    assert_eq!(scale_u128(5, 0), Some(5));
    assert_eq!(scale_u128(u128::MAX, 0), Some(u128::MAX));
}

#[test]
fn scale_division_underflows_to_zero() {
    assert_eq!(scale_u128(5, -100), Some(0));
    assert_eq!(scale_u128(u128::MAX, -39), Some(0));
}

#[test]
fn scale_multiplication_overflow() {
    assert_eq!(scale_u128(10, 40), None);
    assert_eq!(scale_u128(0, 40), Some(0));
    assert_eq!(scale_u128(u128::MAX, 1), None);
}

#[test]
fn scale_exact_values() {
    assert_eq!(scale_u128(7, 3), Some(7000));
    assert_eq!(scale_u128(1500, -3), Some(1));
    assert_eq!(scale_u128(1999, -3), Some(1));
    assert_eq!(scale_u128(4, 38), None);
    assert_eq!(
        scale_u128(3, 38),
        Some(300_000_000_000_000_000_000_000_000_000_000_000_000u128)
    );
}

#[test]
fn clamp_boundaries() {
    assert_eq!(clamp_u128_to_u64(0), 0);
    assert_eq!(clamp_u128_to_u64(u64::MAX as u128), u64::MAX);
    assert_eq!(clamp_u128_to_u64(u64::MAX as u128 + 1), u64::MAX);
    assert_eq!(clamp_u128_to_u64(u128::MAX), u64::MAX);
}

#[test]
fn nanosecond_bridge_is_scaling() {
    assert_eq!(timestamp_value_to_nanoseconds(1, 0), Some(1_000_000_000));
    assert_eq!(timestamp_value_to_nanoseconds(1_000_000_000, -9), Some(1_000_000_000));
    assert_eq!(nanoseconds_to_timestamp_value(1_000_000_000, 0), Some(1));
    assert_eq!(nanoseconds_to_timestamp_value(1_000_000_000, -9), Some(1_000_000_000));
}

#[test]
fn try_scale_round_trip_within_bound() {
    let t = Timestamp::new(5, 0);
    let fine = t.try_scale(-3).unwrap();
    assert_eq!(fine, Timestamp::new(5000, -3));
    let back = fine.try_scale(0).unwrap();
    assert_eq!(back, t);
}

#[test]
fn try_scale_truncates_towards_coarser() {
    let t = Timestamp::new(1999, -3);
    let coarse = t.try_scale(0).unwrap();
    assert_eq!(coarse, Timestamp::new(1, 0));
    let back = coarse.try_scale(-3).unwrap();
    assert_eq!(back, Timestamp::new(1000, -3));
}

#[test]
fn try_scale_reports_scale_failure() {
    let t = Timestamp::new(10, 40);
    assert_eq!(
        t.try_scale(0),
        Err(TimestampTryScaleError::ScaleFailed {
            value: 10,
            power_in: 40,
            power_out: 0,
        })
    );
}

#[test]
fn try_scale_reports_narrowing_failure() {
    let t = Timestamp::new(u64::MAX, 0);
    assert_eq!(
        t.try_scale(-3),
        Err(TimestampTryScaleError::TryFromFailed {
            value: u64::MAX as u128 * 1000,
            power_out: -3,
        })
    );
}

#[test]
fn try_scale_error_messages() {
    let scale_failed = TimestampTryScaleError::ScaleFailed {
        value: 10,
        power_in: 40,
        power_out: 0,
    };
    assert_eq!(
        scale_failed.message().as_str(),
        "failed to scale timestamp value 10 from power 40 to 0"
    );
    let narrow_failed = TimestampTryScaleError::TryFromFailed {
        value: 18446744073709551615000,
        power_out: -3,
    };
    assert_eq!(
        narrow_failed.message().as_str(),
        "scaled timestamp value 18446744073709551615000 does not fit target power -3"
    );
}

#[test]
fn timestamp_accessors() {
    let mut t = Timestamp::new(17, -3);
    assert_eq!(t.value(), 17);
    assert_eq!(t.as_unix_millis(), 17);
    t.set_value(18);
    assert_eq!(t.into_value(), 18);
}
