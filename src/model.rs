//! The mathematical meaning of integer complex numbers: each
//! `Complex<i64>` stands for a `Complex<int>`, and each operation for a
//! formula over unbounded integers.
use vstd::prelude::*;

use crate::Complex;

verus! {

impl View for Complex<i64> {
    type V = Complex<int>;

    open spec fn view(&self) -> Complex<int> {
        Complex { re: self.re as int, im: self.im as int }
    }
}

/// `true` when `x` is a value of `i64`.
pub open spec fn fits_i64(x: int) -> bool {
    i64::MIN <= x <= i64::MAX
}

/// `true` when both parts of `z` are values of `i64`.
pub open spec fn fits(z: Complex<int>) -> bool {
    fits_i64(z.re) && fits_i64(z.im)
}

/// `true` for `0 + 0i`.
pub open spec fn is_zero(z: Complex<int>) -> bool {
    z.re == 0 && z.im == 0
}

/// `(a + i b) + (c + i d) == (a + c) + i (b + d)`
pub open spec fn sum(x: Complex<int>, y: Complex<int>) -> Complex<int> {
    Complex { re: x.re + y.re, im: x.im + y.im }
}

/// `(a + i b) - (c + i d) == (a - c) + i (b - d)`
pub open spec fn difference(x: Complex<int>, y: Complex<int>) -> Complex<int> {
    Complex { re: x.re - y.re, im: x.im - y.im }
}

/// `(a + i b) * (c + i d) == (a*c - b*d) + i (b*c + a*d)`
pub open spec fn product(x: Complex<int>, y: Complex<int>) -> Complex<int> {
    Complex { re: x.re * y.re - x.im * y.im, im: x.im * y.re + x.re * y.im }
}

/// The squared magnitude `c*c + d*d` of `c + i d`.
pub open spec fn norm_sqr(y: Complex<int>) -> int {
    y.re * y.re + y.im * y.im
}

/// The real part of `(a + i b) * conj(c + i d)`, that is `a*c + b*d`.
pub open spec fn quotient_re_numerator(x: Complex<int>, y: Complex<int>) -> int {
    x.re * y.re + x.im * y.im
}

/// The imaginary part of `(a + i b) * conj(c + i d)`, that is `b*c - a*d`.
pub open spec fn quotient_im_numerator(x: Complex<int>, y: Complex<int>) -> int {
    x.im * y.re - x.re * y.im
}

/// Division by a positive `d`, rounding toward zero as `i64`'s `/` does.
pub open spec fn div_toward_zero(n: int, d: int) -> int
    recommends
        d > 0,
{
    if n >= 0 {
        n / d
    } else {
        -((-n) / d)
    }
}

/// `(a + i b) / (c + i d)`: the product with the conjugate `c - i d`,
/// each part divided by `c*c + d*d` and rounded toward zero.
pub open spec fn quotient(x: Complex<int>, y: Complex<int>) -> Complex<int> {
    Complex {
        re: div_toward_zero(quotient_re_numerator(x, y), norm_sqr(y)),
        im: div_toward_zero(quotient_im_numerator(x, y), norm_sqr(y)),
    }
}

} // verus!
