//! The decimal scaling engine: powers of ten over `u128`, and rescaling a
//! mantissa between base-10 exponents.
//!
//! `scale_u128(value, diff)` computes `value * 10^diff` (for `diff > 0`,
//! checked) or `value / 10^(-diff)` (for `diff < 0`, truncating), returning
//! `None` exactly when a nonzero value would overflow `u128`. An exponent
//! magnitude above [`MAX_POW10_EXP`] means the factor itself overflows: a
//! multiplication by it fails (unless the value is zero), while a division by
//! it underflows to zero, which is a representable answer.

use vstd::arithmetic::div_mod::lemma_div_by_multiple;
use vstd::prelude::*;

verus! {

/// The largest exponent `e` such that `10^e` fits in a `u128`.
pub const MAX_POW10_EXP: u32 = 38;

/// `10^e` as a mathematical natural number.
pub open spec fn pow10(e: nat) -> nat
    decreases e,
{
    if e == 0 {
        1
    } else {
        10 * pow10((e - 1) as nat)
    }
}

/// What [`pow10_u128`] returns: `10^e`, or `None` past [`MAX_POW10_EXP`].
pub open spec fn pow10_opt(e: nat) -> Option<u128> {
    if e <= MAX_POW10_EXP {
        Some(pow10(e) as u128)
    } else {
        None
    }
}

/// What [`scale_u128`] returns: the mantissa moved `diff` decimal places up
/// (checked multiplication) or `-diff` places down (truncating division).
pub open spec fn scale_spec(value: u128, diff: int) -> Option<u128> {
    if diff == 0 {
        Some(value)
    } else if diff > 0 {
        if diff > MAX_POW10_EXP {
            if value == 0 {
                Some(0u128)
            } else {
                None
            }
        } else if value * pow10(diff as nat) > u128::MAX {
            None
        } else {
            Some((value * pow10(diff as nat)) as u128)
        }
    } else {
        if -diff > MAX_POW10_EXP {
            Some(0u128)
        } else {
            Some((value as nat / pow10((-diff) as nat)) as u128)
        }
    }
}

pub broadcast proof fn lemma_pow10_positive(e: nat)
    ensures
        #[trigger] pow10(e) >= 1,
    decreases e,
{
    if e > 0 {
        lemma_pow10_positive((e - 1) as nat);
    }
}

pub proof fn lemma_pow10_increases(a: nat, b: nat)
    requires
        a <= b,
    ensures
        pow10(a) <= pow10(b),
    decreases b,
{
    if a < b {
        lemma_pow10_increases(a, (b - 1) as nat);
        lemma_pow10_positive((b - 1) as nat);
    }
}

/// `10^38` written out, so that bounds on every smaller power follow.
pub proof fn lemma_pow10_38_value()
    ensures
        pow10(38) == 100_000_000_000_000_000_000_000_000_000_000_000_000,
{
    reveal_with_fuel(pow10, 39);
}

/// `10^exp`, or `None` when the power does not fit in a `u128`.
pub fn pow10_u128(exp: u32) -> (r: Option<u128>)
    ensures
        r == pow10_opt(exp as nat),
{
    if exp > MAX_POW10_EXP {
        return None;
    }
    proof {
        lemma_pow10_38_value();
    }
    let mut result: u128 = 1;
    let mut i: u32 = 0;
    while i < exp
        invariant
            i <= exp <= MAX_POW10_EXP,
            result == pow10(i as nat),
            pow10(38) == 100_000_000_000_000_000_000_000_000_000_000_000_000,
        decreases exp - i,
    {
        proof {
            lemma_pow10_increases((i + 1) as nat, 38);
        }
        result = result * 10;
        i = i + 1;
    }
    Some(result)
}

/// Rescale a `u128` mantissa by `diff` decimal places: multiply for positive
/// `diff`, keep for zero, divide (truncating) for negative. `None` exactly
/// when the multiplication overflows on a nonzero value.
pub fn scale_u128(value: u128, diff: i64) -> (r: Option<u128>)
    ensures
        r == scale_spec(value, diff as int),
        diff == 0 ==> r == Some(value),
{
    if diff == 0 {
        return Some(value);
    }

    if diff > 0 {
        let exp: u64 = diff as u64;
        if exp > MAX_POW10_EXP as u64 {
            return if value == 0 {
                Some(0)
            } else {
                None
            };
        }
        let factor: u128 = match pow10_u128(exp as u32) {
            Some(f) => f,
            None => {
                return None;
            },
        };
        proof {
            lemma_pow10_38_value();
            lemma_pow10_increases(exp as nat, 38);
        }
        return value.checked_mul(factor);
    }

    let exp: u64 = if diff == i64::MIN {
        i64::MAX as u64 + 1
    } else {
        (-diff) as u64
    };
    if exp > MAX_POW10_EXP as u64 {
        return Some(0);
    }
    let factor: u128 = match pow10_u128(exp as u32) {
        Some(f) => f,
        None => {
            return Some(0);
        },
    };
    proof {
        lemma_pow10_38_value();
        lemma_pow10_increases(exp as nat, 38);
        lemma_pow10_positive(exp as nat);
    }
    Some(value / factor)
}

/// `value`, clamped into the range of a `u64`.
pub fn clamp_u128_to_u64(value: u128) -> (r: u64)
    ensures
        value <= u64::MAX ==> r == value,
        value > u64::MAX ==> r == u64::MAX,
{
    if value > u64::MAX as u128 {
        u64::MAX
    } else {
        value as u64
    }
}

/// Total nanoseconds represented by a mantissa under `power`: seconds are
/// `value * 10^power`, so nanoseconds are the mantissa moved `power + 9`
/// decimal places.
pub fn timestamp_value_to_nanoseconds(value: u128, power: i32) -> (r: Option<u128>)
    ensures
        r == scale_spec(value, power + 9),
{
    scale_u128(value, power as i64 + 9)
}

/// The mantissa under `power` representing a total nanosecond count: the
/// inverse direction of [`timestamp_value_to_nanoseconds`].
pub fn nanoseconds_to_timestamp_value(total_ns: u128, power: i32) -> (r: Option<u128>)
    ensures
        r == scale_spec(total_ns, -9 - power),
{
    scale_u128(total_ns, -9 - power as i64)
}

/// Law: rescaling in the multiplying direction loses nothing, so scaling by
/// `diff >= 0` and then by `-diff` returns the original mantissa. (The
/// dividing direction truncates, so the converse does not hold in general.)
pub proof fn lemma_scale_round_trip(value: u128, diff: int)
    requires
        diff >= 0,
        scale_spec(value, diff) is Some,
    ensures
        scale_spec(scale_spec(value, diff).unwrap(), -diff) == Some(value),
{
    if diff == 0 {
    } else if diff > MAX_POW10_EXP {
        assert(value == 0);
        assert(scale_spec(value, diff) == Some(0u128));
    } else {
        let f = pow10(diff as nat) as int;
        lemma_pow10_positive(diff as nat);
        let w = value * pow10(diff as nat);
        assert(w <= u128::MAX);
        lemma_div_by_multiple(value as int, f);
        assert((value as int * f) / f == value as int);
    }
}

/// Law: the two nanosecond bridges invert each other in the multiplying
/// direction: for `power >= -9`, a mantissa that reaches its nanosecond
/// count without overflow is reproduced exactly by the way back. (For
/// exponents finer than nanoseconds the forward direction truncates, so the
/// way back recovers only the surviving digits.)
pub proof fn lemma_nanosecond_bridge_round_trip(value: u128, power: i32)
    requires
        power >= -9,
        scale_spec(value, power + 9) is Some,
    ensures
        scale_spec(scale_spec(value, power + 9).unwrap(), -9 - power) == Some(value),
{
    lemma_scale_round_trip(value, power + 9);
}

} // verus!
