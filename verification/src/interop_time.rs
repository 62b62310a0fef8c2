//! Conversions between a [`Timestamp`] and the `time` crate's
//! `OffsetDateTime`.
//!
//! The incoming direction never fails: instants at or before the epoch clamp
//! to zero and overlarge mantissas saturate, as the duration bridge does. The
//! outgoing direction is fallible and reports which stage failed — the
//! decimal rescale, the range check against signed nanoseconds, or the
//! calendar type's own constructor — and succeeds exactly when the instant's
//! nanosecond count is one the calendar type represents.

use crate::duration::timestamp_from_unix_nanos;
use crate::duration::timestamp_of_unix_nanos;
use crate::format::decimal_digits;
use crate::format::fixed_point_chars;
use crate::format::push_decimal;
use crate::format::push_fixed_point;
use crate::scale::scale_spec;
use crate::scale::timestamp_value_to_nanoseconds;
use crate::timestamp::Timestamp;
use vstd::prelude::*;
use vstd::string::StringExecFns;

verus! {

#[verifier::external_type_specification]
#[verifier::external_body]
pub struct ExOffsetDateTime(time::OffsetDateTime);

#[verifier::external_type_specification]
#[verifier::external_body]
pub struct ExComponentRange(time::error::ComponentRange);

/// The instant's signed Unix nanosecond count: what
/// `time::OffsetDateTime::unix_timestamp_nanos` returns, a function of the
/// calendar value alone.
pub uninterp spec fn odt_unix_nanos(dt: time::OffsetDateTime) -> i128;

/// The Unix timestamp of the earliest calendar instant, midnight opening
/// year -9999: the first whole second the calendar type represents.
pub const MIN_OFFSET_DATE_TIME_SECONDS: i64 = -377_705_116_800;

/// The Unix timestamp of the last whole second of year 9999: the last whole
/// second the calendar type represents.
pub const MAX_OFFSET_DATE_TIME_SECONDS: i64 = 253_402_300_799;

/// Whether the calendar type can represent a signed Unix nanosecond count:
/// the whole second it falls in (rounding towards minus infinity) must lie
/// within the representable years.
pub open spec fn offset_date_time_accepts(nanos: i128) -> bool {
    MIN_OFFSET_DATE_TIME_SECONDS <= nanos / 1_000_000_000 <= MAX_OFFSET_DATE_TIME_SECONDS
}

/// Relies on `time::OffsetDateTime::unix_timestamp_nanos`: the instant as a
/// signed count of Unix nanoseconds, a pure function of the calendar value,
/// named [`odt_unix_nanos`].
#[verifier::external_body]
pub(crate) fn offset_date_time_unix_nanos(dt: &time::OffsetDateTime) -> (n: i128)
    ensures
        n == odt_unix_nanos(*dt),
{
    dt.unix_timestamp_nanos()
}

/// Relies on `time::OffsetDateTime::from_unix_timestamp_nanos`: builds the
/// instant whose Unix nanosecond count is exactly `nanos`, succeeding if and
/// only if the count's whole second lies within the calendar years the crate
/// represents (-9999 through 9999 under its default features), and reporting
/// a `ComponentRange` error otherwise.
#[verifier::external_body]
pub(crate) fn offset_date_time_from_unix_nanos(nanos: i128) -> (r: Result<
    time::OffsetDateTime,
    time::error::ComponentRange,
>)
    ensures
        r is Ok <==> offset_date_time_accepts(nanos),
        r matches Ok(dt) ==> odt_unix_nanos(dt) == nanos,
{
    time::OffsetDateTime::from_unix_timestamp_nanos(nanos)
}

/// Why [`timestamp_to_offset_date_time`] failed: the rescale to nanoseconds
/// overflowed, the count does not fit a signed nanosecond value, or the
/// calendar type rejected the count as out of its range.
#[derive(Copy, Clone, Debug, PartialEq, Eq, Structural)]
#[allow(inconsistent_fields)]
pub enum ConvertTimestampToOffsetDateTimeError {
    ScaleFailed { value: u128, power: i32 },
    NanosecondsInvalid { nanos: u128 },
    FromUnixTimestampNanosFailed { nanos: i128 },
}

/// The stage of [`timestamp_to_offset_date_time`] this library decides: the
/// signed nanosecond count handed to the calendar type's constructor, or the
/// error naming the stage that failed before the constructor was reached.
pub open spec fn offset_date_time_nanos_spec(t: Timestamp) -> Result<
    i128,
    ConvertTimestampToOffsetDateTimeError,
> {
    match scale_spec(t.value as u128, t.power + 9) {
        None => Err(
            (ConvertTimestampToOffsetDateTimeError::ScaleFailed {
                value: t.value as u128,
                power: t.power,
            }),
        ),
        Some(nanos) => if nanos > i128::MAX {
            Err((ConvertTimestampToOffsetDateTimeError::NanosecondsInvalid { nanos }))
        } else {
            Ok(nanos as i128)
        },
    }
}

/// Convert a timestamp into an `OffsetDateTime`, reporting the stage that
/// failed: this direction validates rather than saturates. It succeeds
/// exactly when the instant's nanosecond count both fits a signed count and
/// falls within the calendar type's representable years, and the calendar
/// value then carries exactly that count.
pub fn timestamp_to_offset_date_time(t: &Timestamp) -> (r: Result<
    time::OffsetDateTime,
    ConvertTimestampToOffsetDateTimeError,
>)
    ensures
        offset_date_time_nanos_spec(*t) is Err ==> r == Err::<
            time::OffsetDateTime,
            ConvertTimestampToOffsetDateTimeError,
        >(offset_date_time_nanos_spec(*t).unwrap_err()),
        offset_date_time_nanos_spec(*t) matches Ok(nanos) ==> {
            &&& r is Ok <==> offset_date_time_accepts(nanos)
            &&& (r matches Ok(dt) ==> odt_unix_nanos(dt) == nanos)
            &&& !offset_date_time_accepts(nanos) ==> r == Err::<
                time::OffsetDateTime,
                ConvertTimestampToOffsetDateTimeError,
            >((ConvertTimestampToOffsetDateTimeError::FromUnixTimestampNanosFailed { nanos }))
        },
{
    let value_u128: u128 = t.value as u128;
    let nanos_u128: u128 = match timestamp_value_to_nanoseconds(value_u128, t.power) {
        Some(nanos) => nanos,
        None => {
            return Err(
                ConvertTimestampToOffsetDateTimeError::ScaleFailed {
                    value: value_u128,
                    power: t.power,
                },
            );
        },
    };
    if nanos_u128 > i128::MAX as u128 {
        return Err(ConvertTimestampToOffsetDateTimeError::NanosecondsInvalid { nanos: nanos_u128 });
    }
    let nanos_i128: i128 = nanos_u128 as i128;
    match offset_date_time_from_unix_nanos(nanos_i128) {
        Ok(dt) => Ok(dt),
        Err(_) => Err(
            ConvertTimestampToOffsetDateTimeError::FromUnixTimestampNanosFailed {
                nanos: nanos_i128,
            },
        ),
    }
}

/// Convert an `OffsetDateTime` into a timestamp under the given exponent,
/// clamping and saturating (never failing): the result is the saturating
/// conversion of the instant's Unix nanosecond count.
pub fn timestamp_from_offset_date_time(dt: &time::OffsetDateTime, power: i32) -> (t: Timestamp)
    ensures
        t == timestamp_of_unix_nanos(odt_unix_nanos(*dt), power),
        t.power == power,
{
    let nanos: i128 = offset_date_time_unix_nanos(dt);
    timestamp_from_unix_nanos(nanos, power)
}

/// What [`ConvertTimestampToOffsetDateTimeError::message`] returns: the
/// diagnostic line for each failure, with the offending values in decimal.
pub open spec fn offset_date_time_error_chars(e: ConvertTimestampToOffsetDateTimeError) -> Seq<
    char,
> {
    match e {
        ConvertTimestampToOffsetDateTimeError::ScaleFailed { value, power } => "failed to scale timestamp value "@
            + decimal_digits(value as nat) + " with power "@ + fixed_point_chars(power as int, 0)
            + " to nanoseconds"@,
        ConvertTimestampToOffsetDateTimeError::NanosecondsInvalid { nanos } => "nanosecond value "@
            + decimal_digits(nanos as nat) + " is out of range for OffsetDateTime"@,
        ConvertTimestampToOffsetDateTimeError::FromUnixTimestampNanosFailed { nanos } => "failed to build OffsetDateTime from "@
            + fixed_point_chars(nanos as int, 0) + " nanoseconds"@,
    }
}

impl ConvertTimestampToOffsetDateTimeError {
    /// A human-readable description of the failure.
    pub fn message(&self) -> (r: String)
        ensures
            r@ == offset_date_time_error_chars(*self),
    {
        let mut s = String::new();
        match *self {
            ConvertTimestampToOffsetDateTimeError::ScaleFailed { value, power } => {
                s.append("failed to scale timestamp value ");
                push_decimal(&mut s, value);
                s.append(" with power ");
                push_fixed_point(&mut s, power as i128, 0);
                s.append(" to nanoseconds");
            },
            ConvertTimestampToOffsetDateTimeError::NanosecondsInvalid { nanos } => {
                s.append("nanosecond value ");
                push_decimal(&mut s, nanos);
                s.append(" is out of range for OffsetDateTime");
            },
            ConvertTimestampToOffsetDateTimeError::FromUnixTimestampNanosFailed { nanos } => {
                s.append("failed to build OffsetDateTime from ");
                push_fixed_point(&mut s, nanos, 0);
                s.append(" nanoseconds");
            },
        }
        proof {
            assert(s@ =~= offset_date_time_error_chars(*self));
        }
        s
    }
}

} // verus!
