//! The fixed-point timestamp value type: a `u64` mantissa paired with a
//! base-10 exponent, standing for `value * 10^power` seconds since the Unix
//! epoch.
//!
//! The exponent is an ordinary field rather than a type parameter, so two
//! timestamps are the same instant only when both the mantissa and the
//! exponent agree; comparing mantissas across different exponents is
//! meaningful only after [`Timestamp::try_scale`] has brought them to a
//! common exponent.

use crate::format::decimal_digits;
use crate::format::fixed_point_chars;
use crate::format::format_fixed_point;
use crate::format::push_decimal;
use crate::format::push_fixed_point;
use crate::scale::scale_spec;
use crate::scale::scale_u128;
use vstd::prelude::*;
use vstd::string::StringExecFns;

verus! {

/// Fixed-point Unix timestamp: `value * 10^power` seconds since the epoch.
///
/// - `value`: the mantissa.
/// - `power`: the base-10 exponent (e.g. `-3` for milliseconds).
#[derive(Copy, Clone, Debug, PartialEq, Eq, Hash, Structural)]
pub struct Timestamp {
    pub value: u64,
    pub power: i32,
}

/// Why [`Timestamp::try_scale`] failed: either the decimal rescale itself
/// overflows, or the correctly scaled result does not fit the mantissa type.
#[derive(Copy, Clone, Debug, PartialEq, Eq, Structural)]
pub enum TimestampTryScaleError {
    ScaleFailed { value: u128, power_in: i32, power_out: i32 },
    TryFromFailed { value: u128, power_out: i32 },
}

/// What [`Timestamp::try_scale`] returns: the mantissa moved by the exponent
/// difference, narrowed back into `u64`, or the error naming the stage that
/// failed.
pub open spec fn try_scale_spec(t: Timestamp, power_out: i32) -> Result<
    Timestamp,
    TimestampTryScaleError,
> {
    let diff = t.power - power_out;
    match scale_spec(t.value as u128, diff) {
        None => Err(
            (TimestampTryScaleError::ScaleFailed {
                value: t.value as u128,
                power_in: t.power,
                power_out,
            }),
        ),
        Some(scaled) => if scaled > u64::MAX {
            Err((TimestampTryScaleError::TryFromFailed { value: scaled, power_out }))
        } else {
            Ok((Timestamp { value: scaled as u64, power: power_out }))
        },
    }
}

impl Timestamp {
    /// Wrap a raw mantissa under the given exponent, unchanged.
    pub fn new(value: u64, power: i32) -> (t: Timestamp)
        ensures
            t.value == value,
            t.power == power,
    {
        Timestamp { value, power }
    }

    /// Unwrap the mantissa, consuming the timestamp.
    pub fn into_value(self) -> (v: u64)
        ensures
            v == self.value,
    {
        self.value
    }

    /// Read the mantissa.
    pub fn value(&self) -> (v: u64)
        ensures
            v == self.value,
    {
        self.value
    }

    /// Replace the mantissa, keeping the exponent.
    pub fn set_value(&mut self, value: u64)
        ensures
            final(self).value == value,
            final(self).power == old(self).power,
    {
        self.value = value;
    }

    /// The mantissa of a millisecond timestamp is its count of Unix
    /// milliseconds.
    pub fn as_unix_millis(&self) -> (r: u64)
        requires
            self.power == -3,
        ensures
            r == self.value,
    {
        self.value
    }

    /// Rescale to another exponent: multiply the mantissa when moving to a
    /// finer exponent, divide (truncating) when moving to a coarser one.
    pub fn try_scale(self, power_out: i32) -> (r: Result<Timestamp, TimestampTryScaleError>)
        ensures
            r == try_scale_spec(self, power_out),
    {
        let value_u128: u128 = self.value as u128;
        let diff: i64 = self.power as i64 - power_out as i64;
        let scaled: u128 = match scale_u128(value_u128, diff) {
            Some(scaled) => scaled,
            None => {
                return Err(
                    TimestampTryScaleError::ScaleFailed {
                        value: value_u128,
                        power_in: self.power,
                        power_out,
                    },
                );
            },
        };
        if scaled > u64::MAX as u128 {
            return Err(TimestampTryScaleError::TryFromFailed { value: scaled, power_out });
        }
        Ok(Timestamp { value: scaled as u64, power: power_out })
    }

    /// The exact decimal rendering of the instant in seconds: the mantissa
    /// with the decimal point placed according to the exponent.
    pub fn render(&self) -> (r: String)
        ensures
            r@ == fixed_point_chars(self.value as int, self.power as int),
    {
        format_fixed_point(self.value as i128, self.power)
    }
}

/// Law: rescaling to a finer exponent multiplies and so loses nothing;
/// rescaling the result back to the original exponent returns the original
/// timestamp. (Rescaling to a coarser exponent first truncates, so that
/// direction round-trips only when no digits were cut.)
pub proof fn lemma_try_scale_round_trip(t: Timestamp, power_out: i32)
    requires
        power_out <= t.power,
        try_scale_spec(t, power_out) is Ok,
    ensures
        try_scale_spec(try_scale_spec(t, power_out).unwrap(), t.power) == Ok::<
            Timestamp,
            TimestampTryScaleError,
        >(t),
{
    let diff = t.power - power_out;
    let w = try_scale_spec(t, power_out).unwrap();
    crate::scale::lemma_scale_round_trip(t.value as u128, diff);
    assert(scale_spec(w.value as u128, -diff) == Some(t.value as u128));
}

/// What [`TimestampTryScaleError::message`] returns: the diagnostic line for
/// each failure, with the offending values rendered in decimal.
pub open spec fn try_scale_error_chars(e: TimestampTryScaleError) -> Seq<char> {
    match e {
        TimestampTryScaleError::ScaleFailed { value, power_in, power_out } => "failed to scale timestamp value "@
            + decimal_digits(value as nat) + " from power "@ + fixed_point_chars(power_in as int, 0)
            + " to "@ + fixed_point_chars(power_out as int, 0),
        TimestampTryScaleError::TryFromFailed { value, power_out } => "scaled timestamp value "@
            + decimal_digits(value as nat) + " does not fit target power "@ + fixed_point_chars(
            power_out as int,
            0,
        ),
    }
}

impl TimestampTryScaleError {
    /// A human-readable description of the failure.
    pub fn message(&self) -> (r: String)
        ensures
            r@ == try_scale_error_chars(*self),
    {
        let mut s = String::new();
        match *self {
            TimestampTryScaleError::ScaleFailed { value, power_in, power_out } => {
                s.append("failed to scale timestamp value ");
                push_decimal(&mut s, value);
                s.append(" from power ");
                push_fixed_point(&mut s, power_in as i128, 0);
                s.append(" to ");
                push_fixed_point(&mut s, power_out as i128, 0);
            },
            TimestampTryScaleError::TryFromFailed { value, power_out } => {
                s.append("scaled timestamp value ");
                push_decimal(&mut s, value);
                s.append(" does not fit target power ");
                push_fixed_point(&mut s, power_out as i128, 0);
            },
        }
        proof {
            assert(s@ =~= try_scale_error_chars(*self));
        }
        s
    }
}

} // verus!
