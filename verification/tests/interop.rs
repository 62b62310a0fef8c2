use fixed_timestamp::duration::duration_to_timestamp;
use fixed_timestamp::duration::nanoseconds_to_duration;
use fixed_timestamp::duration::timestamp_from_unix_nanos;
use fixed_timestamp::duration::timestamp_to_duration;
use fixed_timestamp::interop_chrono::timestamp_from_nanos_opt;
use fixed_timestamp::interop_chrono::timestamp_to_date_time_nanos;
use fixed_timestamp::interop_chrono::ConvertTimestampToDateTimeError;
use fixed_timestamp::interop_time::timestamp_from_offset_date_time;
use fixed_timestamp::interop_time::timestamp_to_offset_date_time;
use fixed_timestamp::interop_time::ConvertTimestampToOffsetDateTimeError;
use fixed_timestamp::EpochDuration;
use fixed_timestamp::Timestamp;

#[test]
fn duration_bridge_one_second() {
    let t = Timestamp::new(1_000_000_000, -9);
    let d = timestamp_to_duration(&t);
    assert_eq!(d, EpochDuration::new(1, 0));
    let back = duration_to_timestamp(&d, -9);
    assert_eq!(back, t);
}

#[test]
fn duration_bridge_saturates_to_u64_max() {
    let d = EpochDuration::new(u64::MAX, 999_999_999);
    let t = duration_to_timestamp(&d, -9);
    assert_eq!(t, Timestamp::new(u64::MAX, -9));
}

#[test]
fn duration_from_overlong_nanos_saturates() {
    let d = nanoseconds_to_duration(u128::MAX);
    assert_eq!(d, EpochDuration::saturated());
    assert_eq!(d.secs, u64::MAX);
    assert_eq!(d.nanos, 999_999_999);
}

#[test]
fn duration_splits_seconds_and_remainder() {
    let d = nanoseconds_to_duration(2_500_000_001);
    assert_eq!(d, EpochDuration::new(2, 500_000_001));
    assert_eq!(d.as_nanos(), 2_500_000_001);
}

#[test]
fn unix_nanos_clamp_at_epoch() {
    assert_eq!(timestamp_from_unix_nanos(-100, -9), Timestamp::new(0, -9));
    assert_eq!(timestamp_from_unix_nanos(0, 0), Timestamp::new(0, 0));
    assert_eq!(
        timestamp_from_unix_nanos(1_500_000_000, -9),
        Timestamp::new(1_500_000_000, -9)
    );
    assert_eq!(timestamp_from_unix_nanos(1_999_999_999, 0), Timestamp::new(1, 0));
}

#[test]
fn offset_date_time_round_trip() {
    let t = Timestamp::new(1_546_300_800, 0);
    let dt = timestamp_to_offset_date_time(&t).unwrap();
    assert_eq!(dt.unix_timestamp_nanos(), 1_546_300_800_000_000_000);
    let back = timestamp_from_offset_date_time(&dt, 0);
    assert_eq!(back, t);
}

#[test]
fn offset_date_time_scale_failure() {
    let t = Timestamp::new(1, 30);
    assert_eq!(
        timestamp_to_offset_date_time(&t),
        Err(ConvertTimestampToOffsetDateTimeError::ScaleFailed { value: 1, power: 30 })
    );
}

#[test]
fn offset_date_time_nanos_out_of_signed_range() {
    let t = Timestamp::new(2_000_000_000_000_000_000, 11);
    assert_eq!(
        timestamp_to_offset_date_time(&t),
        Err(ConvertTimestampToOffsetDateTimeError::NanosecondsInvalid {
            nanos: 200_000_000_000_000_000_000_000_000_000_000_000_000u128,
        })
    );
}

#[test]
fn offset_date_time_accepts_last_calendar_second() {
    let t = Timestamp::new(253_402_300_799, 0);
    let dt = timestamp_to_offset_date_time(&t).unwrap();
    assert_eq!(dt.unix_timestamp_nanos(), 253_402_300_799_000_000_000);
}

#[test]
fn offset_date_time_rejects_just_past_last_calendar_second() {
    let t = Timestamp::new(253_402_300_800, 0);
    assert_eq!(
        timestamp_to_offset_date_time(&t),
        Err(ConvertTimestampToOffsetDateTimeError::FromUnixTimestampNanosFailed {
            nanos: 253_402_300_800_000_000_000,
        })
    );
}

#[test]
fn offset_date_time_constructor_rejects_far_future() {
    let t = Timestamp::new(4_000_000_000_000_000_000, 0);
    assert_eq!(
        timestamp_to_offset_date_time(&t),
        Err(ConvertTimestampToOffsetDateTimeError::FromUnixTimestampNanosFailed {
            nanos: 4_000_000_000_000_000_000_000_000_000i128,
        })
    );
}

#[test]
fn calendar_constructor_bounds_match_time_crate() {
    assert!(time::OffsetDateTime::from_unix_timestamp_nanos(-377_705_116_800_000_000_000).is_ok());
    assert!(time::OffsetDateTime::from_unix_timestamp_nanos(-377_705_116_800_000_000_001).is_err());
    assert!(time::OffsetDateTime::from_unix_timestamp_nanos(253_402_300_799_999_999_999).is_ok());
    assert!(time::OffsetDateTime::from_unix_timestamp_nanos(253_402_300_800_000_000_000).is_err());
}

#[test]
fn offset_date_time_error_messages() {
    let scale_failed = ConvertTimestampToOffsetDateTimeError::ScaleFailed { value: 1, power: 30 };
    assert_eq!(
        scale_failed.message().as_str(),
        "failed to scale timestamp value 1 with power 30 to nanoseconds"
    );
    let invalid = ConvertTimestampToOffsetDateTimeError::NanosecondsInvalid { nanos: 7 };
    assert_eq!(
        invalid.message().as_str(),
        "nanosecond value 7 is out of range for OffsetDateTime"
    );
    let rejected =
        ConvertTimestampToOffsetDateTimeError::FromUnixTimestampNanosFailed { nanos: -13 };
    assert_eq!(
        rejected.message().as_str(),
        "failed to build OffsetDateTime from -13 nanoseconds"
    );
}

#[test]
fn date_time_nanos_round_trip() {
    let t = Timestamp::new(1_500_000_000, -9);
    let nanos = timestamp_to_date_time_nanos(&t).unwrap();
    assert_eq!(nanos, 1_500_000_000);
    let dt = chrono::DateTime::from_timestamp_nanos(nanos);
    let back = timestamp_from_nanos_opt(dt.timestamp_nanos_opt(), dt.timestamp(), -9);
    assert_eq!(back, t);
}

#[test]
fn date_time_nanos_failures() {
    let overflow = Timestamp::new(1, 30);
    assert_eq!(
        timestamp_to_date_time_nanos(&overflow),
        Err(ConvertTimestampToDateTimeError::ScaleFailed { value: 1, power: 30 })
    );
    let out_of_range = Timestamp::new(10_000_000_000, 0);
    assert_eq!(
        timestamp_to_date_time_nanos(&out_of_range),
        Err(ConvertTimestampToDateTimeError::NanosecondsInvalid {
            nanos: 10_000_000_000_000_000_000,
        })
    );
}

#[test]
fn date_time_error_messages() {
    let scale_failed = ConvertTimestampToDateTimeError::ScaleFailed { value: 3, power: -40 };
    assert_eq!(
        scale_failed.message().as_str(),
        "failed to scale timestamp value 3 with power -40 to nanoseconds"
    );
    let invalid = ConvertTimestampToDateTimeError::NanosecondsInvalid { nanos: 11 };
    assert_eq!(
        invalid.message().as_str(),
        "nanosecond value 11 is out of range for DateTime"
    );
}

#[test]
fn nanos_opt_fallback_saturates_by_sign() {
    assert_eq!(timestamp_from_nanos_opt(None, -5, 0), Timestamp::new(0, 0));
    assert_eq!(timestamp_from_nanos_opt(None, 0, -3), Timestamp::new(0, -3));
    assert_eq!(timestamp_from_nanos_opt(None, 5, 0), Timestamp::new(u64::MAX, 0));
    assert_eq!(
        timestamp_from_nanos_opt(Some(2_000_000_000), 0, -9),
        Timestamp::new(2_000_000_000, -9)
    );
}

#[test]
fn chrono_far_past_clamps_to_epoch() {
    let dt = chrono::DateTime::from_timestamp_nanos(-2_208_936_075_000_000_000);
    let t = timestamp_from_nanos_opt(dt.timestamp_nanos_opt(), dt.timestamp(), -3);
    assert_eq!(t, Timestamp::new(0, -3));
}
