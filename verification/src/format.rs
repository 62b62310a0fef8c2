//! The textual formatter: renders an integer mantissa under a base-10
//! exponent as an exact decimal string, using integer arithmetic only.
//!
//! The rendering is a lossless projection of the mantissa under the decimal
//! point implied by the exponent: a non-negative exponent appends that many
//! zeros, a negative exponent splits off that many trailing digits as a
//! fractional part (zero-padded on the left when the mantissa is short).
//! No rounding happens anywhere.

use vstd::arithmetic::div_mod::lemma_div_is_strictly_smaller;
use vstd::math::abs;
use vstd::prelude::*;
use vstd::string::StrSliceExecFns;
use vstd::string::StringExecFns;

verus! {

/// The decimal digit character for a single digit value.
pub open spec fn digit_char(d: nat) -> char {
    if d == 0 {
        '0'
    } else if d == 1 {
        '1'
    } else if d == 2 {
        '2'
    } else if d == 3 {
        '3'
    } else if d == 4 {
        '4'
    } else if d == 5 {
        '5'
    } else if d == 6 {
        '6'
    } else if d == 7 {
        '7'
    } else if d == 8 {
        '8'
    } else {
        '9'
    }
}

/// The decimal digits of `n`, most significant first, with no leading zeros
/// (except for `n == 0`, which is the single digit `0`).
pub open spec fn decimal_digits(n: nat) -> Seq<char>
    decreases n,
{
    if n < 10 {
        seq![digit_char(n)]
    } else {
        decimal_digits(n / 10) + seq![digit_char(n % 10)]
    }
}

/// `count` zero characters.
pub open spec fn zero_chars(count: nat) -> Seq<char> {
    Seq::new(count, |i: int| '0')
}

/// The exact decimal rendering of `value * 10^power`: sign, then the digits
/// of the magnitude with the decimal point placed according to `power`.
pub open spec fn fixed_point_chars(value: int, power: int) -> Seq<char> {
    let sign = if value < 0 {
        seq!['-']
    } else {
        Seq::<char>::empty()
    };
    let digits = decimal_digits(abs(value));
    if power == 0 {
        sign + digits
    } else if power > 0 {
        sign + digits + zero_chars(power as nat)
    } else {
        let frac_len = -power;
        if digits.len() > frac_len {
            sign + digits.subrange(0, digits.len() - frac_len) + seq!['.'] + digits.subrange(
                digits.len() - frac_len,
                digits.len() as int,
            )
        } else {
            sign + seq!['0', '.'] + zero_chars((frac_len - digits.len()) as nat) + digits
        }
    }
}

/// The one-character string for a single decimal digit.
fn digit_str(d: u8) -> (s: &'static str)
    requires
        d < 10,
    ensures
        s@ == seq![digit_char(d as nat)],
{
    proof {
        reveal_strlit("0");
        reveal_strlit("1");
        reveal_strlit("2");
        reveal_strlit("3");
        reveal_strlit("4");
        reveal_strlit("5");
        reveal_strlit("6");
        reveal_strlit("7");
        reveal_strlit("8");
        reveal_strlit("9");
    }
    let s: &'static str = match d {
        0 => "0",
        1 => "1",
        2 => "2",
        3 => "3",
        4 => "4",
        5 => "5",
        6 => "6",
        7 => "7",
        8 => "8",
        _ => "9",
    };
    proof {
        assert(s@ =~= seq![digit_char(d as nat)]);
    }
    s
}

/// Append the decimal digits of `n`, most significant first.
pub fn push_decimal(s: &mut String, n: u128)
    ensures
        final(s)@ == old(s)@ + decimal_digits(n as nat),
    decreases n,
{
    if n >= 10 {
        proof {
            lemma_div_is_strictly_smaller(n as int, 10);
        }
        push_decimal(s, n / 10);
    }
    let d: u8 = (n % 10) as u8;
    s.append(digit_str(d));
    proof {
        assert(s@ =~= old(s)@ + decimal_digits(n as nat));
    }
}

/// Append `count` zero characters.
pub fn write_zeros(s: &mut String, count: usize)
    ensures
        final(s)@ == old(s)@ + zero_chars(count as nat),
{
    let mut i: usize = 0;
    while i < count
        invariant
            i <= count,
            s@ == old(s)@ + zero_chars(i as nat),
        decreases count - i,
    {
        proof {
            reveal_strlit("0");
        }
        s.append("0");
        i = i + 1;
        proof {
            assert(s@ =~= old(s)@ + zero_chars(i as nat));
        }
    }
}

/// Append the exact decimal rendering of `value * 10^power`.
pub fn push_fixed_point(s: &mut String, value: i128, power: i32)
    ensures
        final(s)@ == old(s)@ + fixed_point_chars(value as int, power as int),
{
    proof {
        reveal_strlit("-");
        reveal_strlit(".");
        reveal_strlit("0.");
    }
    if value < 0 {
        s.append("-");
    }
    let mag: u128 = if value >= 0 {
        value as u128
    } else {
        ((-(value + 1)) as u128) + 1
    };
    proof {
        assert(mag as nat == abs(value as int));
    }
    let mut digits = String::new();
    push_decimal(&mut digits, mag);
    if power == 0 {
        s.append(digits.as_str());
    } else if power > 0 {
        s.append(digits.as_str());
        write_zeros(s, power as usize);
    } else {
        let frac_len: usize = if power == i32::MIN {
            i32::MAX as usize + 1
        } else {
            (-power) as usize
        };
        let digits_len: usize = digits.as_str().unicode_len();
        if digits_len > frac_len {
            let split: usize = digits_len - frac_len;
            s.append(digits.as_str().substring_char(0, split));
            s.append(".");
            s.append(digits.as_str().substring_char(split, digits_len));
        } else {
            s.append("0.");
            write_zeros(s, frac_len - digits_len);
            s.append(digits.as_str());
        }
    }
    proof {
        assert(s@ =~= old(s)@ + fixed_point_chars(value as int, power as int));
    }
}

/// The exact decimal rendering of `value * 10^power` as a fresh string.
pub fn format_fixed_point(value: i128, power: i32) -> (r: String)
    ensures
        r@ == fixed_point_chars(value as int, power as int),
{
    let mut s = String::new();
    push_fixed_point(&mut s, value, power);
    s
}

} // verus!
