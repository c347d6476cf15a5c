//! The four arithmetic operations on integer complex numbers.
//!
//! Each result equals its formula over mathematical integers. Overflow of
//! `i64` is ruled out by `requires`; dividing by `0 + 0i` is reported as
//! [`ComplexError::DivisionByZero`].
use vstd::prelude::*;

use crate::model::{difference, fits, fits_i64, is_zero, norm_sqr, product, quotient, quotient_im_numerator, quotient_re_numerator, sum};
use crate::{Complex, ComplexError};

verus! {

impl Complex<i64> {
    /// `(a + i b) + (c + i d) == (a + c) + i (b + d)`
    pub fn add(self, rhs: Self) -> (r: Self)
        requires
            fits(sum(self@, rhs@)),
        ensures
            r@ == sum(self@, rhs@),
    {
        Complex::new(self.re + rhs.re, self.im + rhs.im)
    }

    /// `(a + i b) - (c + i d) == (a - c) + i (b - d)`
    pub fn sub(self, rhs: Self) -> (r: Self)
        requires
            fits(difference(self@, rhs@)),
        ensures
            r@ == difference(self@, rhs@),
    {
        Complex::new(self.re - rhs.re, self.im - rhs.im)
    }

    /// `(a + i b) * (c + i d) == (a*c - b*d) + i (b*c + a*d)`
    ///
    /// Each of the four partial products is computed from the original
    /// operands, and must be a value of `i64` as well as the result.
    pub fn mul(self, rhs: Self) -> (r: Self)
        requires
            fits_i64(self.re * rhs.re),
            fits_i64(self.im * rhs.im),
            fits_i64(self.im * rhs.re),
            fits_i64(self.re * rhs.im),
            fits(product(self@, rhs@)),
        ensures
            r@ == product(self@, rhs@),
    {
        let re = self.re * rhs.re - self.im * rhs.im;
        let im = self.im * rhs.re + self.re * rhs.im;
        Complex::new(re, im)
    }

    /// `(a + i b) / (c + i d) == [(a*c + b*d) + i (b*c - a*d)] / (c*c + d*d)`,
    /// each part rounded toward zero.
    ///
    /// Fails with `DivisionByZero` exactly when `rhs` is `0 + 0i`. The
    /// partial products, the denominator and the two numerators must be
    /// values of `i64`.
    pub fn div(self, rhs: Self) -> (r: Result<Self, ComplexError>)
        requires
            fits_i64(rhs.re * rhs.re),
            fits_i64(rhs.im * rhs.im),
            fits_i64(norm_sqr(rhs@)),
            fits_i64(self.re * rhs.re),
            fits_i64(self.im * rhs.im),
            fits_i64(self.im * rhs.re),
            fits_i64(self.re * rhs.im),
            fits_i64(quotient_re_numerator(self@, rhs@)),
            fits_i64(quotient_im_numerator(self@, rhs@)),
        ensures
            is_zero(rhs@) ==> r == Err::<Self, ComplexError>(ComplexError::DivisionByZero),
            !is_zero(rhs@) ==> (r matches Ok(q) && q@ == quotient(self@, rhs@)),
    {
        if rhs.re == 0 && rhs.im == 0 {
            return Err(ComplexError::DivisionByZero);
        }
        let deno = rhs.re * rhs.re + rhs.im * rhs.im;
        let re_num = self.re * rhs.re + self.im * rhs.im;
        let im_num = self.im * rhs.re - self.re * rhs.im;
        proof {
            lemma_norm_sqr_positive(rhs@);
        }
        Ok(Complex::new(re_num / deno, im_num / deno))
    }
}

/// A non-zero value has a positive squared magnitude.
pub proof fn lemma_norm_sqr_positive(y: Complex<int>)
    requires
        !is_zero(y),
    ensures
        norm_sqr(y) > 0,
{
    assert(y.re * y.re >= 0) by (nonlinear_arith);
    assert(y.im * y.im >= 0) by (nonlinear_arith);
    if y.re != 0 {
        assert(y.re * y.re > 0) by (nonlinear_arith)
            requires
                y.re != 0,
        ;
    } else {
        assert(y.im * y.im > 0) by (nonlinear_arith)
            requires
                y.im != 0,
        ;
    }
}

} // verus!
