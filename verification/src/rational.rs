//! Exact rational arithmetic over 128-bit integers.
//!
//! Every real-valued quantity of the pipeline (volume, scale factor,
//! density, weight) is carried as a [`Rat`], a fraction of two `i128`
//! values with a positive denominator. The mathematical value of a `Rat`
//! is its view, a [`Frac`]: the same fraction over unbounded integers.
//! Multiplication is checked; `None` reports that a product does not fit
//! in 128 bits.

use vstd::arithmetic::mul::{
    lemma_mul_inequality, lemma_mul_is_associative, lemma_mul_is_commutative,
    lemma_mul_is_distributive_add_other_way, lemma_mul_nonnegative, lemma_mul_strict_inequality,
    lemma_mul_strictly_positive,
};
use vstd::prelude::*;

verus! {

/// The mathematical value of a rational quantity: a numerator and a
/// denominator, both unbounded integers. A well-formed fraction has a
/// positive denominator, so the sign lives in the numerator.
pub struct Frac {
    pub num: int,
    pub den: int,
}

/// A fraction is well-formed when its denominator is positive.
pub open spec fn frac_wf(a: Frac) -> bool {
    a.den > 0
}

/// The exact product of two fractions.
pub open spec fn frac_mul(a: Frac, b: Frac) -> Frac {
    Frac { num: a.num * b.num, den: a.den * b.den }
}

/// The exact sum of two fractions, over the common denominator.
pub open spec fn frac_add(a: Frac, b: Frac) -> Frac {
    Frac { num: a.num * b.den + b.num * a.den, den: a.den * b.den }
}

/// The exact difference of two fractions, over the common denominator.
pub open spec fn frac_sub(a: Frac, b: Frac) -> Frac {
    Frac { num: a.num * b.den - b.num * a.den, den: a.den * b.den }
}

/// The integer `n` as a fraction.
pub open spec fn frac_of_int(n: int) -> Frac {
    Frac { num: n, den: 1 }
}

/// Two fractions denote the same rational number (cross-multiplication;
/// meaningful for well-formed fractions).
pub open spec fn frac_eq(a: Frac, b: Frac) -> bool {
    a.num * b.den == b.num * a.den
}

/// `a` denotes a rational no greater than `b` (for well-formed fractions).
pub open spec fn frac_le(a: Frac, b: Frac) -> bool {
    a.num * b.den <= b.num * a.den
}

/// `a` denotes a rational strictly below `b` (for well-formed fractions).
pub open spec fn frac_lt(a: Frac, b: Frac) -> bool {
    a.num * b.den < b.num * a.den
}

/// `x` fits in a 128-bit signed integer.
pub open spec fn fits_i128(x: int) -> bool {
    i128::MIN <= x <= i128::MAX
}

/// An exact rational number: numerator and positive denominator, each held
/// in an `i128`. Its mathematical value is the [`Frac`] of the same parts.
#[derive(Clone, Copy, Debug)]
pub struct Rat {
    pub num: i128,
    pub den: i128,
}

impl View for Rat {
    type V = Frac;

    open spec fn view(&self) -> Frac {
        Frac { num: self.num as int, den: self.den as int }
    }
}

impl Rat {
    /// The denominator is positive.
    pub open spec fn wf(&self) -> bool {
        frac_wf(self@)
    }

    /// The fraction `num / den`.
    pub fn new(num: i128, den: i128) -> (r: Rat)
        requires
            den > 0,
        ensures
            r.wf(),
            r@ == (Frac { num: num as int, den: den as int }),
    {
        Rat { num, den }
    }

    /// The integer `n` as a rational.
    pub fn from_int(n: i128) -> (r: Rat)
        ensures
            r.wf(),
            r@ == frac_of_int(n as int),
    {
        Rat { num: n, den: 1 }
    }

    /// The exact product, or `None` when a product of numerators or of
    /// denominators does not fit in an `i128`.
    pub fn checked_mul(&self, other: &Rat) -> (r: Option<Rat>)
        requires
            self.wf(),
            other.wf(),
        ensures
            r is Some <==> fits_i128(self@.num * other@.num) && fits_i128(
                self@.den * other@.den,
            ),
            r matches Some(v) ==> v.wf() && v@ == frac_mul(self@, other@),
    {
        let num = match self.num.checked_mul(other.num) {
            Some(n) => n,
            None => {
                return None;
            },
        };
        let den = match self.den.checked_mul(other.den) {
            Some(d) => d,
            None => {
                return None;
            },
        };
        proof {
            lemma_mul_strictly_positive(self.den as int, other.den as int);
        }
        Some(Rat { num, den })
    }

    /// The exact sum over the common denominator, or `None` when an
    /// intermediate product or the summed numerator does not fit in an
    /// `i128`.
    pub fn checked_add(&self, other: &Rat) -> (r: Option<Rat>)
        requires
            self.wf(),
            other.wf(),
        ensures
            r is Some <==> fits_i128(self@.num * other@.den) && fits_i128(other@.num * self@.den)
                && fits_i128(self@.num * other@.den + other@.num * self@.den) && fits_i128(
                self@.den * other@.den,
            ),
            r matches Some(v) ==> v.wf() && v@ == frac_add(self@, other@),
    {
        let p = match self.num.checked_mul(other.den) {
            Some(n) => n,
            None => {
                return None;
            },
        };
        let q = match other.num.checked_mul(self.den) {
            Some(n) => n,
            None => {
                return None;
            },
        };
        let num = match p.checked_add(q) {
            Some(n) => n,
            None => {
                return None;
            },
        };
        let den = match self.den.checked_mul(other.den) {
            Some(d) => d,
            None => {
                return None;
            },
        };
        proof {
            lemma_mul_strictly_positive(self.den as int, other.den as int);
        }
        Some(Rat { num, den })
    }
}

/// Rearrangement of a product of four factors:
/// `(w * x) * (y * z) == (w * y) * (x * z)`.
proof fn lemma_mul_medial(w: int, x: int, y: int, z: int)
    ensures
        (w * x) * (y * z) == (w * y) * (x * z),
{
    broadcast use lemma_mul_is_associative, lemma_mul_is_commutative;

}

/// Rearrangement of a product of four factors:
/// `(w * x) * (y * z) == (w * z) * (y * x)`.
proof fn lemma_mul_medial_swap(w: int, x: int, y: int, z: int)
    ensures
        (w * x) * (y * z) == (w * z) * (y * x),
{
    broadcast use lemma_mul_is_associative, lemma_mul_is_commutative;

}

/// The product of well-formed fractions is well-formed.
pub proof fn lemma_frac_mul_wf(a: Frac, b: Frac)
    requires
        frac_wf(a),
        frac_wf(b),
    ensures
        frac_wf(frac_mul(a, b)),
{
    lemma_mul_strictly_positive(a.den, b.den);
}

/// The sum of well-formed fractions is well-formed.
pub proof fn lemma_frac_add_wf(a: Frac, b: Frac)
    requires
        frac_wf(a),
        frac_wf(b),
    ensures
        frac_wf(frac_add(a, b)),
{
    lemma_mul_strictly_positive(a.den, b.den);
}

/// Multiplication of fractions is commutative.
pub proof fn lemma_frac_mul_comm(a: Frac, b: Frac)
    ensures
        frac_mul(a, b) == frac_mul(b, a),
{
    lemma_mul_is_commutative(a.num, b.num);
    lemma_mul_is_commutative(a.den, b.den);
}

/// Multiplying on the right by a non-negative fraction preserves order.
pub proof fn lemma_frac_mul_le_right(a: Frac, b: Frac, c: Frac)
    requires
        frac_wf(a),
        frac_wf(b),
        frac_wf(c),
        frac_le(a, b),
        c.num >= 0,
    ensures
        frac_le(frac_mul(a, c), frac_mul(b, c)),
{
    lemma_mul_medial(a.num, c.num, b.den, c.den);
    lemma_mul_medial(b.num, c.num, a.den, c.den);
    lemma_mul_nonnegative(c.num, c.den);
    lemma_mul_inequality(a.num * b.den, b.num * a.den, c.num * c.den);
}

/// Multiplying on the right by a positive fraction preserves strict
/// order.
pub proof fn lemma_frac_mul_lt_right(a: Frac, b: Frac, c: Frac)
    requires
        frac_wf(a),
        frac_wf(b),
        frac_wf(c),
        frac_lt(a, b),
        c.num > 0,
    ensures
        frac_lt(frac_mul(a, c), frac_mul(b, c)),
{
    lemma_mul_medial(a.num, c.num, b.den, c.den);
    lemma_mul_medial(b.num, c.num, a.den, c.den);
    lemma_mul_strictly_positive(c.num, c.den);
    lemma_mul_strict_inequality(a.num * b.den, b.num * a.den, c.num * c.den);
    lemma_mul_is_commutative(a.num * b.den, c.num * c.den);
    lemma_mul_is_commutative(b.num * a.den, c.num * c.den);
}

/// Multiplying on the left by a non-negative fraction preserves order.
pub proof fn lemma_frac_mul_le_left(c: Frac, a: Frac, b: Frac)
    requires
        frac_wf(a),
        frac_wf(b),
        frac_wf(c),
        frac_le(a, b),
        c.num >= 0,
    ensures
        frac_le(frac_mul(c, a), frac_mul(c, b)),
{
    lemma_frac_mul_comm(c, a);
    lemma_frac_mul_comm(c, b);
    lemma_frac_mul_le_right(a, b, c);
}

/// Multiplying on the left by a positive fraction preserves strict
/// order.
pub proof fn lemma_frac_mul_lt_left(c: Frac, a: Frac, b: Frac)
    requires
        frac_wf(a),
        frac_wf(b),
        frac_wf(c),
        frac_lt(a, b),
        c.num > 0,
    ensures
        frac_lt(frac_mul(c, a), frac_mul(c, b)),
{
    lemma_frac_mul_comm(c, a);
    lemma_frac_mul_comm(c, b);
    lemma_frac_mul_lt_right(a, b, c);
}

/// Adding the same fraction on the left preserves order.
pub proof fn lemma_frac_add_le(k: Frac, a: Frac, b: Frac)
    requires
        frac_wf(k),
        frac_wf(a),
        frac_wf(b),
        frac_le(a, b),
    ensures
        frac_le(frac_add(k, a), frac_add(k, b)),
{
    lemma_mul_is_distributive_add_other_way(k.den * b.den, k.num * a.den, a.num * k.den);
    lemma_mul_is_distributive_add_other_way(k.den * a.den, k.num * b.den, b.num * k.den);
    lemma_mul_medial(k.num, a.den, k.den, b.den);
    lemma_mul_medial(k.num, b.den, k.den, a.den);
    lemma_mul_is_commutative(a.den, b.den);
    lemma_mul_medial_swap(a.num, k.den, k.den, b.den);
    lemma_mul_medial_swap(b.num, k.den, k.den, a.den);
    lemma_mul_nonnegative(k.den, k.den);
    lemma_mul_inequality(a.num * b.den, b.num * a.den, k.den * k.den);
}

/// Adding the same fraction on the left preserves strict order.
pub proof fn lemma_frac_add_lt(k: Frac, a: Frac, b: Frac)
    requires
        frac_wf(k),
        frac_wf(a),
        frac_wf(b),
        frac_lt(a, b),
    ensures
        frac_lt(frac_add(k, a), frac_add(k, b)),
{
    lemma_mul_is_distributive_add_other_way(k.den * b.den, k.num * a.den, a.num * k.den);
    lemma_mul_is_distributive_add_other_way(k.den * a.den, k.num * b.den, b.num * k.den);
    lemma_mul_medial(k.num, a.den, k.den, b.den);
    lemma_mul_medial(k.num, b.den, k.den, a.den);
    lemma_mul_is_commutative(a.den, b.den);
    lemma_mul_medial_swap(a.num, k.den, k.den, b.den);
    lemma_mul_medial_swap(b.num, k.den, k.den, a.den);
    lemma_mul_strictly_positive(k.den, k.den);
    lemma_mul_strict_inequality(a.num * b.den, b.num * a.den, k.den * k.den);
    lemma_mul_is_commutative(a.num * b.den, k.den * k.den);
    lemma_mul_is_commutative(b.num * a.den, k.den * k.den);
}

} // verus!
