//! Algebraic laws of the integer complex operations, stated over the
//! models that their contracts use.
use vstd::prelude::*;
use vstd::arithmetic::div_mod::{lemma_div_multiples_vanish, lemma_fundamental_div_mod};

use crate::model::{
    difference, div_toward_zero, is_zero, norm_sqr, product, quotient, quotient_im_numerator,
    quotient_re_numerator, sum,
};
use crate::ops::lemma_norm_sqr_positive;
use crate::Complex;

verus! {

/// Addition is commutative: `a + b == b + a`.
pub proof fn lemma_add_commutative(a: Complex<i64>, b: Complex<i64>)
    ensures
        sum(a@, b@) == sum(b@, a@),
{
}

/// Addition is associative: `(a + b) + c == a + (b + c)`.
pub proof fn lemma_add_associative(a: Complex<i64>, b: Complex<i64>, c: Complex<i64>)
    ensures
        sum(sum(a@, b@), c@) == sum(a@, sum(b@, c@)),
{
}

/// Subtracting what was added gives back the start: `(a + b) - b == a`.
pub proof fn lemma_add_then_sub(a: Complex<i64>, b: Complex<i64>)
    ensures
        difference(sum(a@, b@), b@) == a@,
{
}

/// Multiplication is commutative: `a * b == b * a`.
pub proof fn lemma_mul_commutative(a: Complex<i64>, b: Complex<i64>)
    ensures
        product(a@, b@) == product(b@, a@),
{
    assert(a.re * b.re == b.re * a.re) by (nonlinear_arith);
    assert(a.im * b.im == b.im * a.im) by (nonlinear_arith);
    assert(a.im * b.re + a.re * b.im == b.im * a.re + b.re * a.im) by (nonlinear_arith);
}

/// Dividing by a positive `d` something that `d` divides rounds nothing off.
pub proof fn lemma_div_toward_zero_exact(n: int, d: int)
    requires
        d > 0,
        n % d == 0,
    ensures
        div_toward_zero(n, d) * d == n,
{
    let q = n / d;
    lemma_fundamental_div_mod(n, d);
    assert(n == d * q);
    if n < 0 {
        assert(-n == d * (-q)) by (nonlinear_arith)
            requires
                n == d * q,
        ;
        lemma_div_multiples_vanish(-q, d);
    }
    assert(q * d == d * q) by (nonlinear_arith);
}

/// Division undone by multiplication: `(a / b) * b == a` for every non-zero
/// `b` whose squared magnitude divides both numerators of `a / b`, so that
/// the division rounds nothing off.
pub proof fn lemma_div_then_mul(a: Complex<i64>, b: Complex<i64>)
    requires
        !is_zero(b@),
        quotient_re_numerator(a@, b@) % norm_sqr(b@) == 0,
        quotient_im_numerator(a@, b@) % norm_sqr(b@) == 0,
    ensures
        product(quotient(a@, b@), b@) == a@,
{
    let x = a@;
    let y = b@;
    let d = norm_sqr(y);
    let n1 = quotient_re_numerator(x, y);
    let n2 = quotient_im_numerator(x, y);
    lemma_norm_sqr_positive(y);
    lemma_div_toward_zero_exact(n1, d);
    lemma_div_toward_zero_exact(n2, d);
    let q1 = div_toward_zero(n1, d);
    let q2 = div_toward_zero(n2, d);
    let (xr, xi, yr, yi) = (x.re, x.im, y.re, y.im);
    assert(q1 * yr - q2 * yi == xr) by (nonlinear_arith)
        requires
            q1 * d == n1,
            q2 * d == n2,
            d == yr * yr + yi * yi,
            n1 == xr * yr + xi * yi,
            n2 == xi * yr - xr * yi,
            d > 0,
    {
        assert((q1 * yr - q2 * yi) * d == xr * d);
    }
    assert(q2 * yr + q1 * yi == xi) by (nonlinear_arith)
        requires
            q1 * d == n1,
            q2 * d == n2,
            d == yr * yr + yi * yi,
            n1 == xr * yr + xi * yi,
            n2 == xi * yr - xr * yi,
            d > 0,
    {
        assert((q2 * yr + q1 * yi) * d == xi * d);
    }
}

} // verus!
