use complex::Complex;
use complex::ComplexError;

#[test]
fn test_struct() {
    let result: Complex<f64> = Complex { re: 1.0, im: 2.0 };
    assert_eq!(result.re, 1.0);
    assert_eq!(result.im, 2.0);
}

#[test]
fn test_add() {
    let c1 = Complex::new(1i64, 2);
    let c2 = Complex::new(2i64, 3);
    let result = c1.add(c2);
    assert_eq!(result.re, 3);
    assert_eq!(result.im, 5);
}

#[test]
fn test_sub() {
    let c1 = Complex::new(1i64, 2);
    let c2 = Complex::new(2i64, 3);
    let result = c2.sub(c1);
    assert_eq!(result.re, 1);
    assert_eq!(result.im, 1);
}

#[test]
fn test_mul() {
    let c1 = Complex::new(1i64, 2);
    let c2 = Complex::new(2i64, 3);
    let result = c2.mul(c1);
    assert_eq!(result.re, -4);
    assert_eq!(result.im, 7);

    let c1 = Complex::new(-1i64, 2);
    let c2 = Complex::new(2i64, 3);
    let result = c2.mul(c1);
    assert_eq!(result.re, -8);
    assert_eq!(result.im, 1);
}

#[test]
fn new_keeps_both_parts() {
    let c = Complex::new(-7i64, 11);
    assert_eq!(c.re, -7);
    assert_eq!(c.im, 11);
    let f = Complex::new(0.5f32, -1.25f32);
    assert_eq!(f.re, 0.5);
    assert_eq!(f.im, -1.25);
}

#[test]
fn equality_is_by_parts() {
    assert_eq!(Complex::new(3i64, 4), Complex::new(3i64, 4));
    assert_ne!(Complex::new(3i64, 4), Complex::new(4i64, 3));
    let a = Complex::new(5i64, 6);
    let b = a;
    assert_eq!(a, b);
}

#[test]
fn add_is_commutative_and_associative() {
    let a = Complex::new(1i64, -2);
    let b = Complex::new(-30i64, 40);
    let c = Complex::new(7i64, 9);
    assert_eq!(a.add(b), b.add(a));
    assert_eq!(a.add(b).add(c), a.add(b.add(c)));
    assert_eq!(a.add(b), Complex::new(-29, 38));
}

#[test]
fn add_then_sub_gives_back_the_start() {
    let a = Complex::new(12i64, -5);
    let b = Complex::new(-100i64, 3);
    assert_eq!(a.add(b).sub(b), a);
}

#[test]
fn mul_is_commutative() {
    let a = Complex::new(2i64, 3);
    let b = Complex::new(1i64, 2);
    assert_eq!(a.mul(b), Complex::new(-4, 7));
    assert_eq!(b.mul(a), Complex::new(-4, 7));
}

#[test]
fn mul_by_i_squared_is_minus_one() {
    let i = Complex::new(0i64, 1);
    assert_eq!(i.mul(i), Complex::new(-1, 0));
}

#[test]
fn mul_at_the_edge_of_i64() {
    let big = Complex::new(i64::MAX, 0);
    let one = Complex::new(1i64, 0);
    assert_eq!(big.mul(one), big);
}

#[test]
fn div_exact() {
    let a = Complex::new(-4i64, 7);
    let b = Complex::new(1i64, 2);
    assert_eq!(a.div(b), Ok(Complex::new(2, 3)));
}

#[test]
fn div_rounds_each_part_toward_zero() {
    // (1+2i)/(2+3i): numerators 8 and 1 over the denominator 13
    let a = Complex::new(1i64, 2);
    let b = Complex::new(2i64, 3);
    assert_eq!(a.div(b), Ok(Complex::new(0, 0)));
    let a = Complex::new(26i64, 3);
    assert_eq!(a.div(b), Ok(Complex::new(4, -5)));
    let a = Complex::new(-9i64, 2);
    assert_eq!(a.div(Complex::new(2, 0)), Ok(Complex::new(-4, 1)));
}

#[test]
fn div_by_zero_is_an_error() {
    let a = Complex::new(1i64, 2);
    assert_eq!(a.div(Complex::new(0, 0)), Err(ComplexError::DivisionByZero));
    assert_eq!(
        Complex::new(0i64, 0).div(Complex::new(0, 0)),
        Err(ComplexError::DivisionByZero)
    );
}

#[test]
fn div_then_mul_gives_back_the_start() {
    let a = Complex::new(-4i64, 7);
    let b = Complex::new(1i64, 2);
    let q = a.div(b).unwrap();
    assert_eq!(q.mul(b), a);
}
