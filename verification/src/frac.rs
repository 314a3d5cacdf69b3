//! Exact rational scalars for the camera state.
//!
//! The camera keeps its zoom factor and offsets as fractions of two `i64`
//! values instead of floating-point numbers, so every update the controller
//! makes is an exact arithmetic step that contracts can state precisely.

use vstd::prelude::*;

verus! {

/// An exact rational number `num / den`; well-formed values keep `den > 0`.
#[derive(Clone, Copy, Debug, PartialEq, Eq, Structural)]
pub struct Frac {
    pub num: i64,
    pub den: i64,
}

/// The mathematical image of a `Frac`: the same fraction over unbounded integers.
pub ghost struct FracModel {
    pub num: int,
    pub den: int,
}

impl View for Frac {
    type V = FracModel;

    open spec fn view(&self) -> FracModel {
        FracModel { num: self.num as int, den: self.den as int }
    }
}

/// A fraction is well-formed when its denominator is strictly positive.
pub open spec fn frac_wf(a: FracModel) -> bool {
    a.den > 0
}

/// Whether both components of an exact result fit back into a `Frac`.
pub open spec fn frac_in_range(a: FracModel) -> bool {
    &&& i64::MIN <= a.num <= i64::MAX
    &&& a.den <= i64::MAX
}

/// Exact sum of two fractions, over the common denominator.
pub open spec fn frac_add(a: FracModel, b: FracModel) -> FracModel {
    FracModel { num: a.num * b.den + b.num * a.den, den: a.den * b.den }
}

/// Exact difference of two fractions, over the common denominator.
pub open spec fn frac_sub(a: FracModel, b: FracModel) -> FracModel {
    FracModel { num: a.num * b.den - b.num * a.den, den: a.den * b.den }
}

/// Exact negation.
pub open spec fn frac_neg(a: FracModel) -> FracModel {
    FracModel { num: -a.num, den: a.den }
}

/// Exact quotient `a / b`; the sign moves to the numerator so that a
/// well-formed divisor with a nonzero numerator yields a well-formed result.
pub open spec fn frac_div(a: FracModel, b: FracModel) -> FracModel {
    if b.num >= 0 {
        FracModel { num: a.num * b.den, den: a.den * b.num }
    } else {
        FracModel { num: -(a.num * b.den), den: -(a.den * b.num) }
    }
}

/// Two fractions denote the same rational value (cross multiplication).
pub open spec fn frac_eq(a: FracModel, b: FracModel) -> bool {
    a.num * b.den == b.num * a.den
}

impl Frac {
    /// Well-formedness of the executable value.
    pub open spec fn wf(self) -> bool {
        frac_wf(self@)
    }

    /// Builds the fraction `num / den`.
    pub fn new(num: i64, den: i64) -> (r: Frac)
        requires
            den > 0,
        ensures
            r.num == num,
            r.den == den,
            r.wf(),
    {
        Frac { num, den }
    }

    /// Builds the whole number `n`.
    pub fn from_int(n: i64) -> (r: Frac)
        ensures
            r.num == n,
            r.den == 1,
            r.wf(),
    {
        Frac { num: n, den: 1 }
    }

    /// Exact addition; the caller guarantees the exact result is representable.
    pub fn plus(self, other: Frac) -> (r: Frac)
        requires
            self.wf(),
            other.wf(),
            frac_in_range(frac_add(self@, other@)),
        ensures
            r@ == frac_add(self@, other@),
            r.wf(),
    {
        proof {
            lemma_frac_pair_bounds(self@, other@);
        }
        let num_wide: i128 = self.num as i128 * other.den as i128 + other.num as i128 * self.den as i128;
        let den_wide: i128 = self.den as i128 * other.den as i128;
        Frac { num: num_wide as i64, den: den_wide as i64 }
    }

    /// Exact subtraction; the caller guarantees the exact result is representable.
    pub fn minus(self, other: Frac) -> (r: Frac)
        requires
            self.wf(),
            other.wf(),
            frac_in_range(frac_sub(self@, other@)),
        ensures
            r@ == frac_sub(self@, other@),
            r.wf(),
    {
        proof {
            lemma_frac_pair_bounds(self@, other@);
        }
        let num_wide: i128 = self.num as i128 * other.den as i128 - other.num as i128 * self.den as i128;
        let den_wide: i128 = self.den as i128 * other.den as i128;
        Frac { num: num_wide as i64, den: den_wide as i64 }
    }

    /// Exact division; the divisor must be nonzero and the caller guarantees
    /// the exact result is representable.
    pub fn div_by(self, other: Frac) -> (r: Frac)
        requires
            self.wf(),
            other.wf(),
            other.num != 0,
            frac_in_range(frac_div(self@, other@)),
        ensures
            r@ == frac_div(self@, other@),
            r.wf(),
    {
        proof {
            lemma_frac_pair_bounds(self@, other@);
            lemma_div_den_sign(self@, other@);
        }
        let num_cross: i128 = self.num as i128 * other.den as i128;
        let den_cross: i128 = self.den as i128 * other.num as i128;
        if other.num >= 0 {
            Frac { num: num_cross as i64, den: den_cross as i64 }
        } else {
            Frac { num: (-num_cross) as i64, den: (-den_cross) as i64 }
        }
    }

    /// Addition that reports instead of requiring: `None` exactly when the
    /// exact sum does not fit back into a `Frac`.
    pub fn try_plus(self, other: Frac) -> (r: Option<Frac>)
        requires
            self.wf(),
            other.wf(),
        ensures
            r is Some <==> frac_in_range(frac_add(self@, other@)),
            r is Some ==> r.unwrap()@ == frac_add(self@, other@) && r.unwrap().wf(),
    {
        proof {
            lemma_frac_pair_bounds(self@, other@);
        }
        let num_wide: i128 = self.num as i128 * other.den as i128 + other.num as i128 * self.den as i128;
        let den_wide: i128 = self.den as i128 * other.den as i128;
        if num_wide < i64::MIN as i128 || num_wide > i64::MAX as i128 || den_wide > i64::MAX as i128 {
            None
        } else {
            Some(Frac { num: num_wide as i64, den: den_wide as i64 })
        }
    }

    /// Subtraction that reports instead of requiring: `None` exactly when the
    /// exact difference does not fit back into a `Frac`.
    pub fn try_minus(self, other: Frac) -> (r: Option<Frac>)
        requires
            self.wf(),
            other.wf(),
        ensures
            r is Some <==> frac_in_range(frac_sub(self@, other@)),
            r is Some ==> r.unwrap()@ == frac_sub(self@, other@) && r.unwrap().wf(),
    {
        proof {
            lemma_frac_pair_bounds(self@, other@);
        }
        let num_wide: i128 = self.num as i128 * other.den as i128 - other.num as i128 * self.den as i128;
        let den_wide: i128 = self.den as i128 * other.den as i128;
        if num_wide < i64::MIN as i128 || num_wide > i64::MAX as i128 || den_wide > i64::MAX as i128 {
            None
        } else {
            Some(Frac { num: num_wide as i64, den: den_wide as i64 })
        }
    }

    /// Division that reports instead of requiring: `None` exactly when the
    /// divisor is zero or the exact quotient does not fit back into a `Frac`.
    pub fn try_div(self, other: Frac) -> (r: Option<Frac>)
        requires
            self.wf(),
            other.wf(),
        ensures
            r is Some <==> other.num != 0 && frac_in_range(frac_div(self@, other@)),
            r is Some ==> r.unwrap()@ == frac_div(self@, other@) && r.unwrap().wf(),
    {
        if other.num == 0 {
            return None;
        }
        proof {
            lemma_frac_pair_bounds(self@, other@);
            lemma_div_den_sign(self@, other@);
        }
        let num_cross: i128 = self.num as i128 * other.den as i128;
        let den_cross: i128 = self.den as i128 * other.num as i128;
        let (num_wide, den_wide): (i128, i128) = if other.num >= 0 {
            (num_cross, den_cross)
        } else {
            (-num_cross, -den_cross)
        };
        if num_wide < i64::MIN as i128 || num_wide > i64::MAX as i128 || den_wide > i64::MAX as i128 {
            None
        } else {
            Some(Frac { num: num_wide as i64, den: den_wide as i64 })
        }
    }
}

/// Bounds on the cross products of two well-formed fractions: every product of
/// a numerator with the other denominator, and the product of the
/// denominators, stays well inside `i128`, and the denominator product is
/// positive.
proof fn lemma_frac_pair_bounds(a: FracModel, b: FracModel) by (nonlinear_arith)
    requires
        frac_wf(a),
        frac_wf(b),
        i64::MIN <= a.num <= i64::MAX,
        i64::MIN <= b.num <= i64::MAX,
        a.den <= i64::MAX,
        b.den <= i64::MAX,
    ensures
        -0x4000_0000_0000_0000_0000_0000_0000_0000 < a.num * b.den < 0x4000_0000_0000_0000_0000_0000_0000_0000,
        -0x4000_0000_0000_0000_0000_0000_0000_0000 < b.num * a.den < 0x4000_0000_0000_0000_0000_0000_0000_0000,
        0 < a.den * b.den < 0x4000_0000_0000_0000_0000_0000_0000_0000,
{
}

/// The denominator of a quotient has the sign of the divisor's numerator, and
/// the dividend's denominator times the divisor's numerator stays inside `i128`.
proof fn lemma_div_den_sign(a: FracModel, b: FracModel) by (nonlinear_arith)
    requires
        frac_wf(a),
        frac_wf(b),
        i64::MIN <= b.num <= i64::MAX,
        a.den <= i64::MAX,
    ensures
        -0x4000_0000_0000_0000_0000_0000_0000_0000 < a.den * b.num < 0x4000_0000_0000_0000_0000_0000_0000_0000,
        b.num > 0 ==> a.den * b.num > 0,
        b.num < 0 ==> a.den * b.num < 0,
{
}

/// Dividing a well-formed fraction by one with a nonzero numerator yields a
/// well-formed fraction.
pub proof fn lemma_div_wf(a: FracModel, b: FracModel)
    requires
        frac_wf(a),
        frac_wf(b),
        b.num != 0,
    ensures
        frac_wf(frac_div(a, b)),
{
    if b.num > 0 {
        assert(a.den * b.num > 0) by (nonlinear_arith)
            requires
                a.den > 0,
                b.num > 0,
        ;
    } else {
        assert(a.den * b.num < 0) by (nonlinear_arith)
            requires
                a.den > 0,
                b.num < 0,
        ;
    }
}

/// `a` after `n` exact additions of `b`.
pub open spec fn frac_add_iter(a: FracModel, b: FracModel, n: nat) -> FracModel
    decreases n,
{
    if n == 0 {
        a
    } else {
        frac_add(frac_add_iter(a, b, (n - 1) as nat), b)
    }
}

/// The closed form of `n` additions of `b` to `a`: `a + n*b` over the common
/// denominator, in one step.
pub open spec fn frac_add_scaled(a: FracModel, b: FracModel, n: nat) -> FracModel {
    FracModel { num: a.num * b.den + n * b.num * a.den, den: a.den * b.den }
}

/// The closed form of `n` subtractions of `b` from `a`: `a - n*b` over the
/// common denominator, in one step.
pub open spec fn frac_sub_scaled(a: FracModel, b: FracModel, n: nat) -> FracModel {
    FracModel { num: a.num * b.den - n * b.num * a.den, den: a.den * b.den }
}

/// Law: `n` exact additions of the same fraction `b` to `a` denote the same
/// rational value as the single step `a + n*b`.
pub proof fn lemma_frac_add_iter_value(a: FracModel, b: FracModel, n: nat)
    requires
        frac_wf(a),
        frac_wf(b),
    ensures
        frac_wf(frac_add_iter(a, b, n)),
        frac_eq(frac_add_iter(a, b, n), frac_add_scaled(a, b, n)),
    decreases n,
{
    if n == 0 {
        assert(a.num * (a.den * b.den) == (a.num * b.den + 0 * b.num * a.den) * a.den)
            by (nonlinear_arith);
    } else {
        let p = frac_add_iter(a, b, (n - 1) as nat);
        lemma_frac_add_iter_value(a, b, (n - 1) as nat);
        let q = frac_add(p, b);
        assert(p.den * b.den > 0) by (nonlinear_arith)
            requires
                p.den > 0,
                b.den > 0,
        ;
        let ghost k = (n - 1) as int;
        let ghost m = a.num * b.den + k * b.num * a.den;
        // Induction hypothesis, in the shape the steps below use.
        assert(p.num * (a.den * b.den) == m * p.den);
        lemma_iter_step_expand(p.num, p.den, b.num, b.den, a.den);
        // Rewrite under the hypothesis: only congruence, no new products.
        assert(b.den * (p.num * (a.den * b.den)) == b.den * (m * p.den));
        lemma_iter_step_refold(m, p.den, b.num, b.den, a.den);
        lemma_iter_step_count(k, b.num, a.den, a.num, b.den);
        assert(frac_eq(q, frac_add_scaled(a, b, n)));
    }
}

/// Ring identity: pulling one factor of the common denominator out of the sum.
proof fn lemma_iter_step_expand(pn: int, pd: int, bn: int, bd: int, ad: int)
    by (nonlinear_arith)
    ensures
        (pn * bd + bn * pd) * (ad * bd) == bd * (pn * (ad * bd)) + bn * pd * (ad * bd),
{
}

/// Ring identity: folding the sum back over the new denominator.
proof fn lemma_iter_step_refold(m: int, pd: int, bn: int, bd: int, ad: int)
    by (nonlinear_arith)
    ensures
        bd * (m * pd) + bn * pd * (ad * bd) == (m + bn * ad) * (pd * bd),
{
}

/// Ring identity: one more copy of the step joins the scaled count.
proof fn lemma_iter_step_count(k: int, bn: int, ad: int, an: int, bd: int)
    by (nonlinear_arith)
    ensures
        (an * bd + k * bn * ad) + bn * ad == an * bd + (k + 1) * bn * ad,
{
}

/// Subtracting `b` is the same exact step as adding `-b`.
pub proof fn lemma_sub_is_add_neg(a: FracModel, b: FracModel)
    ensures
        frac_sub(a, b) == frac_add(a, frac_neg(b)),
{
    assert(-b.num * a.den == -(b.num * a.den)) by (nonlinear_arith);
}

/// The closed form of repeated subtraction is the closed form of repeated
/// addition of the negated step.
pub proof fn lemma_sub_scaled_is_add_neg_scaled(a: FracModel, b: FracModel, n: nat)
    ensures
        frac_sub_scaled(a, b, n) == frac_add_scaled(a, frac_neg(b), n),
{
    assert(n * -b.num * a.den == -(n * b.num * a.den)) by (nonlinear_arith);
}

} // verus!
