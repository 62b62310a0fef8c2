//! Conversions between a [`Timestamp`] and a calendar instant expressed the
//! way the `chrono` crate reports one: a signed 64-bit Unix nanosecond count
//! when the instant fits that range, and a signed whole-second count
//! otherwise.
//!
//! `chrono`'s calendar type is generic over a time-zone trait, which keeps
//! the type itself outside what this library can declare; the conversions
//! here therefore work on the plain values that type reports and returns,
//! and the thin calls that read or build the calendar value live with the
//! caller. The incoming direction never fails: instants at or before the
//! epoch clamp to zero, instants past the signed nanosecond range saturate
//! by the sign of their second count, and overlarge mantissas saturate to
//! `u64::MAX`. The outgoing direction is fallible and reports which stage
//! failed: the decimal rescale, or the range check against the signed 64-bit
//! nanosecond count that the calendar type's total constructor accepts.

use crate::duration::timestamp_of_unix_nanos;
use crate::format::decimal_digits;
use crate::format::fixed_point_chars;
use crate::format::push_decimal;
use crate::format::push_fixed_point;
use crate::scale::scale_spec;
use crate::scale::timestamp_value_to_nanoseconds;
use crate::timestamp::Timestamp;
use vstd::prelude::*;
use vstd::string::StringExecFns;

verus! {

/// What [`timestamp_from_nanos_opt`] returns: the saturating conversion of
/// the nanosecond count when it is known, else zero or `u64::MAX` by the
/// sign of the instant's whole-second count.
pub open spec fn timestamp_of_nanos_opt(
    nanos_opt: Option<i64>,
    fallback_secs: i64,
    power: i32,
) -> Timestamp {
    match nanos_opt {
        Some(nanos) => timestamp_of_unix_nanos(nanos as i128, power),
        None => if fallback_secs <= 0 {
            Timestamp { value: 0, power }
        } else {
            Timestamp { value: u64::MAX, power }
        },
    }
}

/// Convert a calendar instant into a timestamp under the given exponent,
/// clamping and saturating (never failing). `nanos_opt` is the instant's
/// Unix nanosecond count where that fits an `i64`; `fallback_secs`, read
/// only when it does not, is the instant's whole-second count, whose sign
/// picks the saturation boundary.
pub fn timestamp_from_nanos_opt(nanos_opt: Option<i64>, fallback_secs: i64, power: i32) -> (t:
    Timestamp)
    ensures
        t == timestamp_of_nanos_opt(nanos_opt, fallback_secs, power),
        t.power == power,
{
    match nanos_opt {
        Some(nanos) => crate::duration::timestamp_from_unix_nanos(nanos as i128, power),
        None => {
            if fallback_secs <= 0 {
                Timestamp { value: 0, power }
            } else {
                Timestamp { value: u64::MAX, power }
            }
        },
    }
}

/// Why [`timestamp_to_date_time_nanos`] failed: the rescale to nanoseconds
/// overflowed, or the count does not fit the calendar type's signed 64-bit
/// nanosecond range.
#[derive(Copy, Clone, Debug, PartialEq, Eq, Structural)]
pub enum ConvertTimestampToDateTimeError {
    ScaleFailed { value: u128, power: i32 },
    NanosecondsInvalid { nanos: u128 },
}

/// What [`timestamp_to_date_time_nanos`] returns: the signed nanosecond
/// count for the calendar type's total constructor, or the error naming the
/// stage that failed.
pub open spec fn date_time_nanos_spec(t: Timestamp) -> Result<
    i64,
    ConvertTimestampToDateTimeError,
> {
    match scale_spec(t.value as u128, t.power + 9) {
        None => Err(
            (ConvertTimestampToDateTimeError::ScaleFailed {
                value: t.value as u128,
                power: t.power,
            }),
        ),
        Some(nanos) => if nanos > i64::MAX {
            Err((ConvertTimestampToDateTimeError::NanosecondsInvalid { nanos }))
        } else {
            Ok(nanos as i64)
        },
    }
}

/// Convert a timestamp into the signed Unix nanosecond count a calendar
/// instant is built from, reporting the stage that failed: this direction
/// validates rather than saturates, and succeeds exactly when the instant's
/// nanosecond count fits an `i64`.
pub fn timestamp_to_date_time_nanos(t: &Timestamp) -> (r: Result<
    i64,
    ConvertTimestampToDateTimeError,
>)
    ensures
        r == date_time_nanos_spec(*t),
{
    let value_u128: u128 = t.value as u128;
    let nanos_u128: u128 = match timestamp_value_to_nanoseconds(value_u128, t.power) {
        Some(nanos) => nanos,
        None => {
            return Err(
                ConvertTimestampToDateTimeError::ScaleFailed { value: value_u128, power: t.power },
            );
        },
    };
    if nanos_u128 > i64::MAX as u128 {
        return Err(ConvertTimestampToDateTimeError::NanosecondsInvalid { nanos: nanos_u128 });
    }
    Ok(nanos_u128 as i64)
}

/// What [`ConvertTimestampToDateTimeError::message`] returns: the diagnostic
/// line for each failure, with the offending values in decimal.
pub open spec fn date_time_error_chars(e: ConvertTimestampToDateTimeError) -> Seq<char> {
    match e {
        ConvertTimestampToDateTimeError::ScaleFailed { value, power } => "failed to scale timestamp value "@
            + decimal_digits(value as nat) + " with power "@ + fixed_point_chars(power as int, 0)
            + " to nanoseconds"@,
        ConvertTimestampToDateTimeError::NanosecondsInvalid { nanos } => "nanosecond value "@
            + decimal_digits(nanos as nat) + " is out of range for DateTime"@,
    }
}

impl ConvertTimestampToDateTimeError {
    /// A human-readable description of the failure.
    pub fn message(&self) -> (r: String)
        ensures
            r@ == date_time_error_chars(*self),
    {
        let mut s = String::new();
        match *self {
            ConvertTimestampToDateTimeError::ScaleFailed { value, power } => {
                s.append("failed to scale timestamp value ");
                push_decimal(&mut s, value);
                s.append(" with power ");
                push_fixed_point(&mut s, power as i128, 0);
                s.append(" to nanoseconds");
            },
            ConvertTimestampToDateTimeError::NanosecondsInvalid { nanos } => {
                s.append("nanosecond value ");
                push_decimal(&mut s, nanos);
                s.append(" is out of range for DateTime");
            },
        }
        proof {
            assert(s@ =~= date_time_error_chars(*self));
        }
        s
    }
}

} // verus!
