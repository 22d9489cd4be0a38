use tlib::pow::{
    from_integer, mul_by_add, newton_step, pow, pow_fraction, powi, powi_ref, root, Abs, Integer, Numeric,
    PowError, PowPrecision, Rational, RootError,
};

/// A floating-point base.
#[derive(Debug, Clone, Copy, PartialEq)]
struct Real(f64);

impl Numeric for Real {
    fn zero_spec() -> Self {
        Real(0.0)
    }
    fn one_spec() -> Self {
        Real(1.0)
    }
    fn plus_spec(self, rhs: Self) -> Self {
        self.plus(&rhs)
    }
    fn minus_spec(self, rhs: Self) -> Self {
        self.minus(&rhs)
    }
    fn times_spec(self, rhs: Self) -> Self {
        self.times(&rhs)
    }
    fn divided_by_spec(self, rhs: Self) -> Self {
        self.divided_by(&rhs)
    }
    fn inverse_spec(self) -> Self {
        self.inverse()
    }
    fn less_than_spec(self, rhs: Self) -> bool {
        self.less_than(&rhs)
    }
    fn plus_associative(_: Self, _: Self, _: Self) {}
    fn plus_zero(_: Self) {}
    fn times_associative(_: Self, _: Self, _: Self) {}
    fn times_one(_: Self) {}
    fn zero() -> Self {
        Real(0.0)
    }
    fn one() -> Self {
        Real(1.0)
    }
    fn plus(&self, rhs: &Self) -> Self {
        Real(self.0 + rhs.0)
    }
    fn minus(&self, rhs: &Self) -> Self {
        Real(self.0 - rhs.0)
    }
    fn times(&self, rhs: &Self) -> Self {
        Real(self.0 * rhs.0)
    }
    fn divided_by(&self, rhs: &Self) -> Self {
        Real(self.0 / rhs.0)
    }
    fn inverse(&self) -> Self {
        Real(1.0 / self.0)
    }
    fn less_than(&self, rhs: &Self) -> bool {
        self.0 < rhs.0
    }
}

impl Abs for Real {
    type Output = Real;

    fn abs_spec(&self) -> Real {
        self.abs()
    }

    fn abs(&self) -> Real {
        Real(self.0.abs())
    }
}

/// An exact base: integers with wrapping arithmetic.
#[derive(Debug, Clone, Copy, PartialEq)]
struct Whole(i64);

impl Numeric for Whole {
    fn zero_spec() -> Self {
        Whole(0)
    }
    fn one_spec() -> Self {
        Whole(1)
    }
    fn plus_spec(self, rhs: Self) -> Self {
        self.plus(&rhs)
    }
    fn minus_spec(self, rhs: Self) -> Self {
        self.minus(&rhs)
    }
    fn times_spec(self, rhs: Self) -> Self {
        self.times(&rhs)
    }
    fn divided_by_spec(self, rhs: Self) -> Self {
        self.divided_by(&rhs)
    }
    fn inverse_spec(self) -> Self {
        self.inverse()
    }
    fn less_than_spec(self, rhs: Self) -> bool {
        self.less_than(&rhs)
    }
    fn plus_associative(_: Self, _: Self, _: Self) {}
    fn plus_zero(_: Self) {}
    fn times_associative(_: Self, _: Self, _: Self) {}
    fn times_one(_: Self) {}
    fn zero() -> Self {
        Whole(0)
    }
    fn one() -> Self {
        Whole(1)
    }
    fn plus(&self, rhs: &Self) -> Self {
        Whole(self.0.wrapping_add(rhs.0))
    }
    fn minus(&self, rhs: &Self) -> Self {
        Whole(self.0.wrapping_sub(rhs.0))
    }
    fn times(&self, rhs: &Self) -> Self {
        Whole(self.0.wrapping_mul(rhs.0))
    }
    fn divided_by(&self, rhs: &Self) -> Self {
        Whole(if rhs.0 == 0 { 0 } else { self.0.wrapping_div(rhs.0) })
    }
    fn inverse(&self) -> Self {
        Whole(if self.0 == 0 { 0 } else { 1 / self.0 })
    }
    fn less_than(&self, rhs: &Self) -> bool {
        self.0 < rhs.0
    }
}

impl Abs for Whole {
    type Output = Whole;

    fn abs_spec(&self) -> Whole {
        self.abs()
    }

    fn abs(&self) -> Whole {
        Whole(self.0.wrapping_abs())
    }
}

/// A fraction of two machine integers. It is kept as it was written.
#[derive(Debug, Clone, Copy, PartialEq)]
struct Fraction(i32, i32);

impl Rational for Fraction {
    type Int = i32;

    fn numer_spec(&self) -> i32 {
        self.0
    }
    fn denom_spec(&self) -> i32 {
        self.1
    }
    fn reduced_spec(self) -> Self {
        self
    }
    fn numer(&self) -> i32 {
        self.0
    }
    fn denom(&self) -> i32 {
        self.1
    }
    fn reduced(self) -> Self {
        self
    }
}

fn real_precision(eps: f64) -> PowPrecision<Real> {
    let mut p = PowPrecision::new();
    p.set(Real(eps));
    p
}

#[test]
fn powi_is_repeated_multiplication() {
    assert_eq!(powi(Whole(3), 5i32), Whole(243));
    assert_eq!(powi(Whole(2), 10u8), Whole(1024));
    assert_eq!(powi(Whole(-2), 3i64), Whole(-8));
    assert_eq!(powi(Whole(7), 1usize), Whole(7));
    assert_eq!(powi(Whole(7), 2usize), Whole(49));
    let mut expected = Whole(1);
    for e in 0..20u32 {
        assert_eq!(powi(Whole(3), e), expected);
        assert_eq!(powi_ref(&Whole(3), &e), expected);
        expected = expected.times(&Whole(3));
    }
}

#[test]
fn powi_of_machine_integers() {
    assert_eq!(powi(3i64, 5i32), 243);
    assert_eq!(powi(3i64, 5u8), 243);
    assert_eq!(powi(-2i64, 63u8), i64::MIN);
    // The arithmetic wraps: 2^64 is 0 modulo 2^64.
    assert_eq!(powi(2i64, 64u8), 0);
    assert_eq!(powi(3i64, 41u64), 3i64.wrapping_pow(41));
    assert_eq!(powi(0i64, 0i32), 1);
    assert_eq!(powi(1i64, -7i32), 1);
    assert_eq!(powi(-1i64, -7i32), -1);
    // The quotient 1 / 32 of integers is zero.
    assert_eq!(powi(2i64, -5i32), 0);
    assert_eq!(powi(0i64, -5i32), 0);
}

#[test]
fn machine_integers_as_bases() {
    assert_eq!(<i64 as Numeric>::zero(), 0);
    assert_eq!(<i64 as Numeric>::one(), 1);
    assert_eq!(Numeric::plus(&i64::MAX, &1), i64::MIN);
    assert_eq!(Numeric::minus(&i64::MIN, &1), i64::MAX);
    assert_eq!(Numeric::times(&i64::MAX, &2), -2);
    assert_eq!(Numeric::divided_by(&-7i64, &2), -3);
    assert_eq!(Numeric::divided_by(&7i64, &0), 0);
    assert_eq!(Numeric::divided_by(&i64::MIN, &-1), 0);
    assert_eq!(Numeric::inverse(&1i64), 1);
    assert_eq!(Numeric::inverse(&-1i64), -1);
    assert_eq!(Numeric::inverse(&5i64), 0);
    assert_eq!(Numeric::inverse(&0i64), 0);
    assert!(Numeric::less_than(&-1i64, &0) && !Numeric::less_than(&0i64, &0));
    assert_eq!(Abs::abs(&-5i64), 5);
    assert_eq!(Abs::abs(&5i64), 5);
    assert_eq!(Abs::abs(&i64::MIN), i64::MIN);
}

#[test]
fn narrow_machine_integers_wrap_too() {
    assert_eq!(powi(3i8, 4u8), 81);
    assert_eq!(powi(3i8, 5u8), 243u8 as i8);
    assert_eq!(powi(2i16, 15u8), i16::MIN);
    assert_eq!(powi(-3i32, 3u8), -27);
    assert_eq!(Numeric::times(&100i8, &3), 44);
    assert_eq!(Numeric::plus(&i16::MAX, &1), i16::MIN);
    assert_eq!(Numeric::minus(&i32::MIN, &1), i32::MAX);
    assert_eq!(Numeric::divided_by(&i8::MIN, &-1), 0);
    assert_eq!(Abs::abs(&-7i32), 7);
    assert_eq!(Abs::abs(&i8::MIN), i8::MIN);
}

#[test]
fn root_of_machine_integers() {
    let mut p: PowPrecision<i64> = PowPrecision::new();
    p.set(1);
    // 1 -> 1 + (8 / 1 - 1) / 3 = 3 -> 3 + (8 / 9 - 3) / 3 = 2 -> 2 + 0
    assert_eq!(root(8i64, 3i32, &p), Ok(2));
    assert_eq!(root(12i64, 1u8, &p), Ok(12));
    assert_eq!(pow(-5i64, Fraction(1, 1), &p), Ok(-5));
    assert_eq!(pow(4i64, Fraction(3, 1), &p), Ok(64));
}

#[test]
fn powi_to_zero_is_one() {
    assert_eq!(powi(Whole(3), 0i32), Whole(1));
    assert_eq!(powi(Whole(0), 0i32), Whole(1));
    assert_eq!(powi(Real(0.0), 0u64), Real(1.0));
    assert_eq!(powi(Real(-17.5), 0i8), Real(1.0));
}

#[test]
fn powi_to_negative_is_inverse() {
    assert_eq!(powi(Real(2.0), -3i32), Real(0.125));
    assert_eq!(powi(Real(2.0), -1i32), Real(0.5));
    assert_eq!(powi(Real(4.0), -2i64), Real(1.0 / powi(Real(4.0), 2i64).0));
    assert_eq!(powi(Whole(1), -5i32), Whole(1));
    assert_eq!(powi(Real(2.0), i8::MIN + 1), Real(1.0 / 2f64.powi(127)));
}

#[test]
fn mul_by_add_is_repeated_addition() {
    assert_eq!(mul_by_add(&Whole(7), &0u32), Whole(0));
    assert_eq!(mul_by_add(&Whole(7), &1u32), Whole(7));
    assert_eq!(mul_by_add(&Whole(7), &6u32), Whole(42));
    assert_eq!(mul_by_add(&Whole(-3), &13i64), Whole(-39));
    assert_eq!(mul_by_add(&Real(1.0), &3i32), Real(3.0));
    assert_eq!(from_integer::<Real, u8>(&200), Real(200.0));
    assert_eq!(from_integer::<i64, i64>(&1_000_003), 1_000_003);
    assert_eq!(from_integer::<i64, u16>(&0), 0);
}

#[test]
fn root_cube_of_eight() {
    let p = real_precision(1e-9);
    let r = root(Real(8.0), 3i32, &p).unwrap();
    assert!((r.0 - 2.0).abs() < 1e-8);
}

#[test]
fn root_even_of_negative_is_refused() {
    let p = real_precision(1e-9);
    assert_eq!(
        root(Real(-4.0), 2i32, &p),
        Err(RootError::PowError(PowError::EvenRootOfNegativeNumber))
    );
    // The test on the sign comes first, and zero is even.
    assert_eq!(
        root(Real(-4.0), 0i32, &p),
        Err(RootError::PowError(PowError::EvenRootOfNegativeNumber))
    );
    // No precision is needed to refuse.
    assert_eq!(
        root(Real(-4.0), 2i32, &PowPrecision::new()),
        Err(RootError::PowError(PowError::EvenRootOfNegativeNumber))
    );
}

#[test]
fn root_zeroth_is_refused() {
    let p = real_precision(1e-9);
    assert_eq!(root(Real(4.0), 0i32, &p), Err(RootError::ZerothRoot));
    assert_eq!(root(Real(0.0), 0u8, &p), Err(RootError::ZerothRoot));
    assert_eq!(root(Real(4.0), 0i32, &PowPrecision::new()), Err(RootError::ZerothRoot));
}

#[test]
fn root_negative_index_is_refused() {
    let p = real_precision(1e-9);
    assert_eq!(root(Real(4.0), -2i32, &p), Err(RootError::NegativethRoot));
    assert_eq!(root(Real(-4.0), -3i32, &p), Err(RootError::NegativethRoot));
}

#[test]
fn root_without_precision_is_refused() {
    let p: PowPrecision<Real> = PowPrecision::new();
    assert_eq!(root(Real(8.0), 3i32, &p), Err(RootError::PowError(PowError::UnsetPrecision)));
}

#[test]
fn root_odd_of_negative() {
    let p = real_precision(1e-9);
    let r = root(Real(-27.0), 3i32, &p).unwrap();
    assert!((r.0 + 3.0).abs() < 1e-8);
}

/// The iteration is bounded here, which the unbounded Newton loop is not: with
/// a limit that is too small, or a precision that no correction can get below,
/// the root is given up with `DidNotConverge`.
#[test]
fn root_gives_up_at_the_iteration_limit() {
    let mut p = real_precision(1e-9);
    p.set_iteration_limit(2);
    assert_eq!(root(Real(8.0), 3i32, &p), Err(RootError::PowError(PowError::DidNotConverge)));
    p.set_iteration_limit(0);
    assert_eq!(root(Real(1.0), 1i32, &p), Err(RootError::PowError(PowError::DidNotConverge)));
    let mut never = real_precision(0.0);
    never.set_iteration_limit(1000);
    assert_eq!(
        root(Real(8.0), 3i32, &never),
        Err(RootError::PowError(PowError::DidNotConverge))
    );
    p.set_iteration_limit(1000);
    assert!(root(Real(8.0), 3i32, &p).is_ok());
}

#[test]
fn newton_step_applies_the_correction() {
    // x = 8, n = 3, res = 1: delta = (8 / 1 - 1) / 3 = 7 / 3.
    let (next, done) = newton_step(&Real(8.0), &2i32, &Real(3.0), &Real(1e-9), &Real(1.0));
    assert_eq!(next, Real(1.0 + 7.0 / 3.0));
    assert!(!done);
    // x = 8, n = 3, res = 2: delta = (8 / 4 - 2) / 3 = 0.
    let (next, done) = newton_step(&Real(8.0), &2i32, &Real(3.0), &Real(1e-9), &Real(2.0));
    assert_eq!(next, Real(2.0));
    assert!(done);
}

#[test]
fn pow_to_one_is_the_base() {
    let p = real_precision(1e-9);
    assert_eq!(pow(Real(8.0), Fraction(1, 1), &p), Ok(Real(8.0)));
    assert_eq!(pow(Real(0.5), Fraction(1, 1), &p), Ok(Real(0.5)));
    let mut exact = PowPrecision::new();
    exact.set(Whole(1));
    assert_eq!(pow(Whole(12), Fraction(1, 1), &exact), Ok(Whole(12)));
    assert_eq!(pow(Whole(-5), Fraction(1, 1), &exact), Ok(Whole(-5)));
}

#[test]
fn pow_two_thirds_of_eight() {
    let p = real_precision(1e-9);
    let r = pow(Real(8.0), Fraction(2, 3), &p).unwrap();
    assert!((r.0 - 4.0).abs() < 1e-6);
}

#[test]
fn pow_to_zero_is_one() {
    let p = real_precision(1e-9);
    assert_eq!(pow(Real(8.0), Fraction(0, 1), &p), Ok(Real(1.0)));
}

#[test]
fn pow_normalizes_the_signs() {
    let p = real_precision(1e-9);
    // 1 / -2 is worked on as -1 / 2: the root of 1/4.
    let r = pow(Real(4.0), Fraction(1, -2), &p).unwrap();
    assert!((r.0 - 0.5).abs() < 1e-6);
    let q = pow_fraction(Real(4.0), -1i32, 2i32, &p).unwrap();
    assert_eq!(r, q);
}

#[test]
fn pow_without_precision_is_refused() {
    let p: PowPrecision<Real> = PowPrecision::new();
    assert_eq!(pow(Real(8.0), Fraction(2, 3), &p), Err(PowError::UnsetPrecision));
    assert_eq!(pow(Real(8.0), Fraction(1, 1), &p), Err(PowError::UnsetPrecision));
}

#[test]
fn pow_even_root_of_negative_is_refused() {
    let p = real_precision(1e-9);
    assert_eq!(pow(Real(-8.0), Fraction(1, 2), &p), Err(PowError::EvenRootOfNegativeNumber));
    let unset: PowPrecision<Real> = PowPrecision::new();
    assert_eq!(pow(Real(-8.0), Fraction(1, 2), &unset), Err(PowError::EvenRootOfNegativeNumber));
}

#[test]
fn pow_gives_up_at_the_iteration_limit() {
    let mut p = real_precision(1e-9);
    p.set_iteration_limit(1);
    assert_eq!(pow(Real(8.0), Fraction(2, 3), &p), Err(PowError::DidNotConverge));
}

#[test]
fn precision_set_returns_the_previous_value() {
    let mut p: PowPrecision<Real> = PowPrecision::new();
    assert_eq!(p.get(), None);
    assert_eq!(p.iteration_limit(), u64::MAX);
    assert_eq!(p.set(Real(1e-3)), None);
    assert_eq!(p.get(), Some(&Real(1e-3)));
    assert_eq!(p.set(Real(1e-6)), Some(Real(1e-3)));
    assert_eq!(p.get(), Some(&Real(1e-6)));
    assert_eq!(p.iteration_limit(), u64::MAX);
}

#[test]
fn precision_get_mut_adjusts_in_place() {
    let mut p: PowPrecision<Real> = PowPrecision::new();
    assert!(p.get_mut().is_none());
    p.set(Real(1e-3));
    if let Some(v) = p.get_mut() {
        *v = Real(1e-4);
    }
    assert_eq!(p.get(), Some(&Real(1e-4)));
}

#[test]
fn precision_is_kept_per_type() {
    let mut reals: PowPrecision<Real> = PowPrecision::new();
    let wholes: PowPrecision<Whole> = PowPrecision::new();
    reals.set(Real(1e-9));
    assert_eq!(wholes.get(), None);
    assert_eq!(
        root(Whole(8), 3i32, &wholes),
        Err(RootError::PowError(PowError::UnsetPrecision))
    );
}

#[test]
fn integer_capabilities_of_primitives() {
    assert_eq!(<i32 as Integer>::zero(), 0);
    assert_eq!(<i32 as Integer>::one(), 1);
    assert_eq!(<u8 as Integer>::two(), 2);
    assert_eq!(<i128 as Integer>::two(), 2);
    assert!(Integer::is_zero(&0u64) && !Integer::is_zero(&3u64));
    assert!(Integer::is_one(&1i16) && !Integer::is_one(&0i16) && !Integer::is_one(&-1i16));
    assert!(Integer::is_even(&-4i32) && !Integer::is_even(&-3i32));
    assert!(Integer::is_odd(&-3i32) && !Integer::is_odd(&0i32));
    assert!(Integer::is_odd(&7usize) && Integer::is_even(&8usize));
    assert!(Integer::is_positive(&5i8) && !Integer::is_positive(&0i8) && !Integer::is_positive(&-5i8));
    assert!(Integer::is_negative(&-5i64) && !Integer::is_negative(&0i64));
    assert!(Integer::is_positive(&5u16) && !Integer::is_positive(&0u16));
    assert!(!Integer::is_negative(&5u32) && !Integer::is_negative(&0u32));
    assert!(Integer::less_than(&-1i32, &0i32) && !Integer::less_than(&3u8, &3u8));
    assert_eq!(Integer::plus(&3i32, &4i32), 7);
    assert_eq!(Integer::minus(&3i32, &4i32), -1);
    assert_eq!(Integer::negated(&3isize), -3);
    assert_eq!(Integer::negated(&0u8), 0);
    assert_eq!(Integer::divided_by(&7u32, &2u32), 3);
    assert_eq!(Integer::divided_by(&7i32, &2i32), 3);
}
