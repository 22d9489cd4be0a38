use std::ops::{Add, Mul, Sub};
use tlib::interpolation::{
    bez, bez2, bez3, binomial, cbez, lerp, n, qbez, Bezier, CubicBezier, Interpolation, Linear,
    QuadraticBezier,
};
use tlib::pow::Numeric;

#[derive(Debug, Clone, Copy, PartialEq)]
struct Scalar(f64);

impl Numeric for Scalar {
    fn zero_spec() -> Self {
        Scalar(0.0)
    }
    fn one_spec() -> Self {
        Scalar(1.0)
    }
    fn plus_spec(self, rhs: Self) -> Self {
        self.plus(&rhs)
    }
    fn minus_spec(self, rhs: Self) -> Self {
        self.minus(&rhs)
    }
    fn times_spec(self, rhs: Self) -> Self {
        self.times(&rhs)
    }
    fn divided_by_spec(self, rhs: Self) -> Self {
        self.divided_by(&rhs)
    }
    fn inverse_spec(self) -> Self {
        self.inverse()
    }
    fn less_than_spec(self, rhs: Self) -> bool {
        self.less_than(&rhs)
    }
    fn plus_associative(_: Self, _: Self, _: Self) {}
    fn plus_zero(_: Self) {}
    fn times_associative(_: Self, _: Self, _: Self) {}
    fn times_one(_: Self) {}
    fn zero() -> Self {
        Scalar(0.0)
    }
    fn one() -> Self {
        Scalar(1.0)
    }
    fn plus(&self, rhs: &Self) -> Self {
        Scalar(self.0 + rhs.0)
    }
    fn minus(&self, rhs: &Self) -> Self {
        Scalar(self.0 - rhs.0)
    }
    fn times(&self, rhs: &Self) -> Self {
        Scalar(self.0 * rhs.0)
    }
    fn divided_by(&self, rhs: &Self) -> Self {
        Scalar(self.0 / rhs.0)
    }
    fn inverse(&self) -> Self {
        Scalar(1.0 / self.0)
    }
    fn less_than(&self, rhs: &Self) -> bool {
        self.0 < rhs.0
    }
}

#[derive(Debug, Copy, Clone, PartialEq)]
struct Point {
    x: f64,
    y: f64,
}

impl Point {
    fn new(x: f64, y: f64) -> Self {
        Self { x, y }
    }

    fn newi(x: i32, y: i32) -> Self {
        Self::new(x as f64, y as f64)
    }

    fn less_than(&self, x: f64, y: f64) -> bool {
        self.x < x && self.y < y
    }
}

impl Add for Point {
    type Output = Self;

    fn add(self, rhs: Self) -> Self {
        Self { x: self.x + rhs.x, y: self.y + rhs.y }
    }
}

impl Sub for Point {
    type Output = Self;

    fn sub(self, rhs: Self) -> Self {
        Self { x: self.x - rhs.x, y: self.y - rhs.y }
    }
}

impl Mul<Scalar> for Point {
    type Output = Self;

    fn mul(self, rhs: Scalar) -> Self {
        Self { x: self.x * rhs.0, y: self.y * rhs.0 }
    }
}

#[test]
fn test_lerp() {
    let a = Point::newi(5, 0);
    let b = Point::newi(17, -12);
    assert_eq!(Point::newi(13, -8), lerp(a, b, Scalar(2.0 / 3.0)));
}

#[test]
fn lerp_at_the_ends() {
    let a = Point::newi(5, 0);
    let b = Point::newi(17, -12);
    assert_eq!(lerp(a, b, Scalar(0.0)), a);
    assert_eq!(lerp(a, b, Scalar(1.0)), b);
    assert_eq!(Linear::new(a, b).eval(Scalar(0.5)), Point::newi(11, -6));
    assert_eq!(a - b, Point::newi(-12, 12));
}

#[test]
fn test_qbez() {
    let a = Point::newi(5, 0);
    let b = Point::newi(17, -12);
    let c = Point::newi(3, 0);
    assert_eq!(
        lerp(lerp(a, b, Scalar(0.75)), lerp(b, c, Scalar(0.75)), Scalar(0.75)),
        qbez(a, b, c, Scalar(0.75))
    );
}

#[test]
fn test_cubez() {
    let a = Point::newi(5, 0);
    let b = Point::newi(17, -12);
    let c = Point::newi(3, 0);
    let d = Point::newi(3, -100);
    assert_eq!(
        lerp(qbez(a, b, c, Scalar(0.2)), qbez(b, c, d, Scalar(0.2)), Scalar(0.2)),
        cbez(a, b, c, d, Scalar(0.2))
    );
}

#[test]
fn curves_at_the_ends_and_in_the_middle() {
    let a = Point::newi(0, 0);
    let b = Point::newi(4, 8);
    let c = Point::newi(8, 0);
    let d = Point::newi(12, 8);
    assert_eq!(bez2(a, b, c, Scalar(0.0)), a);
    assert_eq!(bez2(a, b, c, Scalar(1.0)), c);
    // 0.25 * a + 0.5 * b + 0.25 * c
    assert_eq!(bez2(a, b, c, Scalar(0.5)), Point::newi(4, 4));
    assert_eq!(QuadraticBezier::new(a, b, c).eval(Scalar(0.5)), Point::newi(4, 4));
    assert_eq!(bez3(a, b, c, d, Scalar(0.0)), a);
    assert_eq!(bez3(a, b, c, d, Scalar(1.0)), d);
    // 0.125 * a + 0.375 * b + 0.375 * c + 0.125 * d
    assert_eq!(bez3(a, b, c, d, Scalar(0.5)), Point::newi(6, 4));
    assert_eq!(CubicBezier::new(a, b, c, d).eval(Scalar(0.5)), Point::newi(6, 4));
}

#[test]
fn n_counts_ones() {
    assert_eq!(n::<Scalar>(1), Scalar(1.0));
    assert_eq!(n::<Scalar>(3), Scalar(3.0));
    assert_eq!(n::<i64>(7), 7);
}

#[test]
fn test_nbez() {
    let a = Point::newi(5, 0);
    let b = Point::newi(17, -12);
    let c = Point::newi(3, 0);
    let d = Point::newi(3, -23);
    let e = Point::newi(4, 5);
    assert_eq!(lerp(a, b, Scalar(0.6)), bez(a, &[], b, Scalar(0.6)));
    assert_eq!(qbez(a, b, c, Scalar(0.6)), bez(a, &[b], c, Scalar(0.6)));
    assert_eq!(cbez(a, b, c, d, Scalar(0.6)), bez(a, &[b, c], d, Scalar(0.6)));
    let r = bez(a, &[b, c, d], e, Scalar(0.6));
    let ctrl = lerp(cbez(a, b, c, d, Scalar(0.6)), cbez(b, c, d, e, Scalar(0.6)), Scalar(0.6));
    // small rounding errors should not make the test fail
    assert!((r - ctrl).less_than(0.00000001, 0.00000001));
}

#[test]
fn bezier_of_higher_order() {
    let a = Point::newi(0, 0);
    let b = Point::newi(16, 0);
    let c = Point::newi(0, 16);
    let d = Point::newi(16, 16);
    let e = Point::newi(32, 32);
    assert_eq!(bez(a, &[b, c, d], e, Scalar(0.0)), a);
    assert_eq!(bez(a, &[b, c, d], e, Scalar(1.0)), e);
    // (a + 4 b + 6 c + 4 d + e) / 16
    assert_eq!(Bezier::new(a, &[b, c, d], e).eval(Scalar(0.5)), Point::newi(10, 12));
}

#[test]
fn binomial_coefficients() {
    assert_eq!(binomial(0, 0), 1);
    assert_eq!(binomial(1, 0), 1);
    assert_eq!(binomial(1, 1), 1);
    assert_eq!(binomial(2, 1), 2);
    assert_eq!(binomial(3, 2), 3);
    assert_eq!(binomial(4, 2), 6);
    assert_eq!(binomial(5, 3), 10);
    assert_eq!(binomial(6, 3), 20);
    assert_eq!(binomial(10, 4), 210);
    assert_eq!(binomial(10, 10), 1);
    assert_eq!(binomial(20, 10), 184756);
}
