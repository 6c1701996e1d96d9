//! The response payload: the estimated weight formatted to two decimal
//! places.
//!
//! The weight rational is rounded to a whole number of hundredths of a
//! gram — to the nearest, with ties away from zero — and rendered as a
//! decimal string with exactly two fractional digits, a leading minus
//! sign when the weight is negative.

use crate::rational::{fits_i128, Rat};
use crate::volume::abs_int;
use crate::WeightError;
use vstd::prelude::*;
use vstd::string::StringExecFns;

verus! {

/// The decimal digit character for `d` in 0..10.
pub open spec fn digit_char(d: int) -> char {
    if d == 0 {
        '0'
    } else if d == 1 {
        '1'
    } else if d == 2 {
        '2'
    } else if d == 3 {
        '3'
    } else if d == 4 {
        '4'
    } else if d == 5 {
        '5'
    } else if d == 6 {
        '6'
    } else if d == 7 {
        '7'
    } else if d == 8 {
        '8'
    } else {
        '9'
    }
}

/// The decimal digits of `n`, most significant first.
pub open spec fn dec_digits(n: nat) -> Seq<char>
    decreases n,
{
    if n < 10 {
        seq![digit_char(n as int)]
    } else {
        dec_digits(n / 10).push(digit_char((n % 10) as int))
    }
}

/// The number of hundredths in `num / den`, for positive `den`: rounded
/// to the nearest whole number, ties away from zero, on the magnitude.
pub open spec fn rounded_hundredths(num: int, den: int) -> int {
    (200 * abs_int(num) + den) / (2 * den)
}

/// The weight `num / den` rendered with two decimal places.
pub open spec fn formatted_weight(num: int, den: int) -> Seq<char> {
    let h = rounded_hundredths(num, den);
    let sign: Seq<char> = if num < 0 {
        seq!['-']
    } else {
        Seq::empty()
    };
    sign + dec_digits((h / 100) as nat) + seq!['.'] + seq![
        digit_char((h % 100) / 10),
        digit_char((h % 100) % 10),
    ]
}

/// The intermediate values of the formatting computation fit in 128
/// bits.
pub open spec fn format_fits(num: int, den: int) -> bool {
    &&& num > i128::MIN
    &&& fits_i128(200 * abs_int(num))
    &&& fits_i128(200 * abs_int(num) + den)
    &&& fits_i128(2 * den)
}

/// The one-character string for the digit `d`.
fn digit_str(d: u8) -> (s: &'static str)
    requires
        d < 10,
    ensures
        s@ =~= seq![digit_char(d as int)],
{
    proof {
        reveal_strlit("0");
        reveal_strlit("1");
        reveal_strlit("2");
        reveal_strlit("3");
        reveal_strlit("4");
        reveal_strlit("5");
        reveal_strlit("6");
        reveal_strlit("7");
        reveal_strlit("8");
        reveal_strlit("9");
    }
    match d {
        0 => "0",
        1 => "1",
        2 => "2",
        3 => "3",
        4 => "4",
        5 => "5",
        6 => "6",
        7 => "7",
        8 => "8",
        _ => "9",
    }
}

/// Appends the decimal digits of `n`, most significant first.
fn push_decimal(n: u128, out: &mut String)
    ensures
        final (out)@ == old(out)@ + dec_digits(n as nat),
    decreases n,
{
    if n < 10 {
        out.append(digit_str(n as u8));
    } else {
        push_decimal(n / 10, out);
        out.append(digit_str((n % 10) as u8));
    }
}

/// The payload handed back to callers: the weight in grams as a string
/// with two decimal places.
#[derive(Clone, Debug)]
pub struct WeightResponse {
    pub weight_grams: String,
}

impl WeightResponse {
    /// Formats the weight to two decimal places, or reports overflow
    /// when an intermediate of the rounding does not fit in 128 bits.
    pub fn from_weight(w: &Rat) -> (r: Result<WeightResponse, WeightError>)
        requires
            w.wf(),
        ensures
            r is Ok <==> format_fits(w@.num, w@.den),
            r matches Ok(resp) ==> resp.weight_grams@ == formatted_weight(w@.num, w@.den),
            r is Err ==> r == Err::<WeightResponse, WeightError>(WeightError::ArithmeticOverflow),
    {
        if w.num == i128::MIN {
            return Err(WeightError::ArithmeticOverflow);
        }
        let a = if w.num < 0 {
            -w.num
        } else {
            w.num
        };
        let n200 = match a.checked_mul(200) {
            Some(v) => v,
            None => {
                return Err(WeightError::ArithmeticOverflow);
            },
        };
        let top = match n200.checked_add(w.den) {
            Some(v) => v,
            None => {
                return Err(WeightError::ArithmeticOverflow);
            },
        };
        let bot = match w.den.checked_mul(2) {
            Some(v) => v,
            None => {
                return Err(WeightError::ArithmeticOverflow);
            },
        };
        proof {
            assert(bot as int == 2 * (w@.den)) by {
                vstd::arithmetic::mul::lemma_mul_is_commutative(w@.den, 2);
            }
        }
        let h = top / bot;
        let mut s = String::new();
        if w.num < 0 {
            proof {
                reveal_strlit("-");
            }
            s.append("-");
        }
        push_decimal((h / 100) as u128, &mut s);
        proof {
            reveal_strlit(".");
        }
        s.append(".");
        let frac = (h % 100) as u8;
        s.append(digit_str(frac / 10));
        s.append(digit_str(frac % 10));
        proof {
            let hs = rounded_hundredths(w@.num, w@.den);
            assert(h as int == hs);
            assert(s@ =~= formatted_weight(w@.num, w@.den));
        }
        Ok(WeightResponse { weight_grams: s })
    }
}

} // verus!
