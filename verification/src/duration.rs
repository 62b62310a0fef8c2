//! The duration-since-epoch bridge: a canonical seconds-plus-nanoseconds
//! representation, and the saturating conversions between it and a
//! fixed-point [`Timestamp`].
//!
//! Both directions are total: a nanosecond count too large for the duration
//! saturates to [`EpochDuration::saturated`], and a duration whose rescaled
//! mantissa does not fit `u64` saturates to `u64::MAX`. Neither direction
//! errors or wraps.

use crate::scale::nanoseconds_to_timestamp_value;
use crate::scale::scale_spec;
use crate::scale::timestamp_value_to_nanoseconds;
use crate::timestamp::Timestamp;
use vstd::prelude::*;

verus! {

/// Nanoseconds in one second.
pub const NANOS_PER_SECOND: u32 = 1_000_000_000;

/// A span of time since the Unix epoch: whole seconds plus a sub-second
/// nanosecond remainder below [`NANOS_PER_SECOND`].
#[derive(Copy, Clone, Debug, PartialEq, Eq, Hash, Structural)]
pub struct EpochDuration {
    pub secs: u64,
    pub nanos: u32,
}

/// The canonical form: the nanosecond remainder stays below one second.
pub open spec fn duration_canonical(d: EpochDuration) -> bool {
    d.nanos < NANOS_PER_SECOND
}

/// The total nanosecond count a duration stands for.
pub open spec fn duration_total_nanos(d: EpochDuration) -> nat {
    (d.secs * (NANOS_PER_SECOND as nat) + d.nanos) as nat
}

/// What [`nanoseconds_to_duration`] returns: the count split into seconds
/// and remainder, or the largest representable duration when the seconds
/// overflow a `u64`.
pub open spec fn duration_from_total_nanos(total_ns: nat) -> EpochDuration {
    if total_ns / (NANOS_PER_SECOND as nat) > u64::MAX {
        EpochDuration { secs: u64::MAX, nanos: (NANOS_PER_SECOND - 1) as u32 }
    } else {
        EpochDuration {
            secs: (total_ns / (NANOS_PER_SECOND as nat)) as u64,
            nanos: (total_ns % (NANOS_PER_SECOND as nat)) as u32,
        }
    }
}

impl EpochDuration {
    /// Pair whole seconds with a sub-second nanosecond remainder.
    pub fn new(secs: u64, nanos: u32) -> (d: EpochDuration)
        requires
            nanos < NANOS_PER_SECOND,
        ensures
            d.secs == secs,
            d.nanos == nanos,
            duration_canonical(d),
    {
        EpochDuration { secs, nanos }
    }

    /// The largest representable duration: every saturating conversion tops
    /// out here.
    pub fn saturated() -> (d: EpochDuration)
        ensures
            d.secs == u64::MAX,
            d.nanos == NANOS_PER_SECOND - 1,
            duration_canonical(d),
    {
        EpochDuration { secs: u64::MAX, nanos: NANOS_PER_SECOND - 1 }
    }

    /// The total nanosecond count: seconds scaled up, plus the remainder.
    pub fn as_nanos(&self) -> (r: u128)
        ensures
            r == duration_total_nanos(*self),
    {
        proof {
            vstd::arithmetic::mul::lemma_mul_inequality(
                self.secs as int,
                u64::MAX as int,
                NANOS_PER_SECOND as int,
            );
        }
        (self.secs as u128) * (NANOS_PER_SECOND as u128) + (self.nanos as u128)
    }
}

/// Split a total nanosecond count into a duration, saturating when the
/// seconds overflow a `u64`.
pub fn nanoseconds_to_duration(total_ns: u128) -> (d: EpochDuration)
    ensures
        d == duration_from_total_nanos(total_ns as nat),
        duration_canonical(d),
{
    let secs: u128 = total_ns / (NANOS_PER_SECOND as u128);
    let nanos: u32 = (total_ns % (NANOS_PER_SECOND as u128)) as u32;
    if secs > u64::MAX as u128 {
        return EpochDuration::saturated();
    }
    EpochDuration { secs: secs as u64, nanos }
}

/// What [`timestamp_to_duration`] returns: the mantissa rescaled to
/// nanoseconds (saturating to the largest count when that overflows), then
/// split into seconds and remainder.
pub open spec fn duration_of_timestamp(t: Timestamp) -> EpochDuration {
    match scale_spec(t.value as u128, t.power + 9) {
        Some(total_ns) => duration_from_total_nanos(total_ns as nat),
        None => duration_from_total_nanos(u128::MAX as nat),
    }
}

/// Convert a timestamp to the duration since the epoch it stands for,
/// saturating (never failing) when the nanosecond count overflows.
pub fn timestamp_to_duration(t: &Timestamp) -> (d: EpochDuration)
    ensures
        d == duration_of_timestamp(*t),
        duration_canonical(d),
{
    let value_u128: u128 = t.value as u128;
    let total_ns: u128 = match timestamp_value_to_nanoseconds(value_u128, t.power) {
        Some(total_ns) => total_ns,
        None => u128::MAX,
    };
    nanoseconds_to_duration(total_ns)
}

/// What [`duration_to_timestamp`] returns: the total nanosecond count moved
/// to the target exponent, clamped into the mantissa's `u64` range.
pub open spec fn timestamp_of_duration(d: EpochDuration, power: i32) -> Timestamp {
    let scaled = match scale_spec((duration_total_nanos(d)) as u128, -9 - power) {
        Some(scaled) => scaled,
        None => u128::MAX,
    };
    if scaled > u64::MAX {
        Timestamp { value: u64::MAX, power }
    } else {
        Timestamp { value: scaled as u64, power }
    }
}

/// What [`timestamp_from_unix_nanos`] returns: zero for an instant at or
/// before the epoch, otherwise the nanosecond count moved to the target
/// exponent and clamped into the mantissa's `u64` range.
pub open spec fn timestamp_of_unix_nanos(nanos: i128, power: i32) -> Timestamp {
    if nanos <= 0 {
        Timestamp { value: 0, power }
    } else {
        let scaled = match scale_spec(nanos as u128, -9 - power) {
            Some(scaled) => scaled,
            None => u128::MAX,
        };
        if scaled > u64::MAX {
            Timestamp { value: u64::MAX, power }
        } else {
            Timestamp { value: scaled as u64, power }
        }
    }
}

/// Convert a signed Unix nanosecond count into a timestamp under the given
/// exponent: non-positive instants clamp to zero, overlarge mantissas to
/// `u64::MAX` (never failing).
pub fn timestamp_from_unix_nanos(nanos: i128, power: i32) -> (t: Timestamp)
    ensures
        t == timestamp_of_unix_nanos(nanos, power),
        t.power == power,
{
    if nanos <= 0 {
        return Timestamp { value: 0, power };
    }
    let scaled: u128 = match nanoseconds_to_timestamp_value(nanos as u128, power) {
        Some(scaled) => scaled,
        None => u128::MAX,
    };
    Timestamp { value: crate::scale::clamp_u128_to_u64(scaled), power }
}

/// Convert a duration since the epoch into a timestamp under the given
/// exponent, clamping the mantissa into `u64` by saturation (never failing).
pub fn duration_to_timestamp(d: &EpochDuration, power: i32) -> (t: Timestamp)
    requires
        duration_canonical(*d),
    ensures
        t == timestamp_of_duration(*d, power),
        t.power == power,
{
    let total_ns: u128 = d.as_nanos();
    let scaled: u128 = match nanoseconds_to_timestamp_value(total_ns, power) {
        Some(scaled) => scaled,
        None => u128::MAX,
    };
    Timestamp { value: crate::scale::clamp_u128_to_u64(scaled), power }
}

} // verus!
