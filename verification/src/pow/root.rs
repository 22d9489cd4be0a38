use crate::pow::multiple::{from_integer, multiple};
use crate::pow::powi::{powi, powi_ref, powi_spec};
use crate::pow::precision::PowPrecision;
use crate::pow::traits::{Abs, Integer, Numeric, Rational};
use vstd::prelude::*;

verus! {

/// What a rational power can fail with.
#[derive(Debug, Copy, Clone, PartialEq, Eq)]
pub enum PowError {
    /// `root` and `pow` need a precision set for the type of the base.
    UnsetPrecision,
    /// An even root is only defined for numbers that are not negative.
    EvenRootOfNegativeNumber,
    /// The iteration limit was reached before the correction fell below the
    /// precision.
    DidNotConverge,
}

/// What a root can fail with.
#[derive(Debug, Copy, Clone, PartialEq, Eq)]
pub enum RootError {
    PowError(PowError),
    /// A zeroth root cannot exist: it would be the exponent 1/0.
    ZerothRoot,
    /// A negative root index is not supported.
    NegativethRoot,
}

/// The correction that one Newton step for the `n`-th root of `x` adds to the
/// approximation `res`: `(x / res^(n - 1) - res) / n`.
pub open spec fn newton_delta<T: Numeric>(x: T, n: int, res: T) -> T {
    x.divided_by_spec(powi_spec(res, n - 1)).minus_spec(res).divided_by_spec(
        multiple(T::one_spec(), n as nat),
    )
}

/// Whether the correction is small enough for the iteration to stop.
pub open spec fn within_precision<T: Numeric + Abs<Output = T>>(delta: T, precision: T) -> bool {
    delta.abs_spec().less_than_spec(precision)
}

/// The Newton iteration from the approximation `res` with `steps` steps left:
/// the first approximation whose correction was within the precision, with
/// that correction applied, or nothing when the steps run out before.
pub open spec fn newton_search<T: Numeric + Abs<Output = T>>(
    x: T,
    n: int,
    precision: T,
    res: T,
    steps: nat,
) -> Option<T>
    decreases steps,
{
    if steps == 0 {
        None
    } else {
        let delta = newton_delta(x, n, res);
        if within_precision(delta, precision) {
            Some(res.plus_spec(delta))
        } else {
            newton_search(x, n, precision, res.plus_spec(delta), (steps - 1) as nat)
        }
    }
}

/// The `n`-th root of `x`, or the reason why there is none. The conditions are
/// tested in this order: an even root of a negative number, a zeroth root, a
/// negative root index, a missing precision; then the iteration starts at one.
pub open spec fn root_spec<T: Numeric + Abs<Output = T>>(
    x: T,
    n: int,
    precision: Option<T>,
    limit: nat,
) -> Result<T, RootError> {
    if x.less_than_spec(T::zero_spec()) && n % 2 == 0 {
        Err(RootError::PowError(PowError::EvenRootOfNegativeNumber))
    } else if n == 0 {
        Err(RootError::ZerothRoot)
    } else if n < 0 {
        Err(RootError::NegativethRoot)
    } else {
        match precision {
            None => Err(RootError::PowError(PowError::UnsetPrecision)),
            Some(p) => match newton_search(x, n, p, T::one_spec(), limit) {
                Some(r) => Ok(r),
                None => Err(RootError::PowError(PowError::DidNotConverge)),
            },
        }
    }
}

/// One Newton step for the `n`-th root of `x` from the approximation `res`,
/// where `n_minus_one` is `n - 1` and `n_as_base` is `n` in the type of the
/// base. Returns the next approximation and whether the iteration stops there.
pub fn newton_step<T: Numeric + Abs<Output = T>, E: Integer>(
    x: &T,
    n_minus_one: &E,
    n_as_base: &T,
    precision: &T,
    res: &T,
) -> (r: (T, bool))
    requires
        n_minus_one.value() >= 0,
        *n_as_base == multiple(T::one_spec(), (n_minus_one.value() + 1) as nat),
    ensures
        r.0 == res.plus_spec(newton_delta(*x, n_minus_one.value() + 1, *res)),
        r.1 == within_precision(newton_delta(*x, n_minus_one.value() + 1, *res), *precision),
{
    let delta = x.divided_by(&powi_ref(res, n_minus_one)).minus(res).divided_by(n_as_base);
    let done = delta.abs().less_than(precision);
    (res.plus(&delta), done)
}

/// The `n`-th root of `x` by Newton's iteration, with one as the first guess.
///
/// The iteration stops as soon as the magnitude of a correction is below the
/// precision set for the type of `x`, and returns the approximation with that
/// correction applied. It gives up with `DidNotConverge` after as many steps as
/// the iteration limit of `precision` allows. The root index enters the
/// correction in the type of the base, as the sum of that many ones.
pub fn root<T: Numeric + Abs<Output = T>, E: Integer>(x: T, n: E, precision: &PowPrecision<T>) -> (r:
    Result<T, RootError>)
    ensures
        r == root_spec(
            x,
            n.value(),
            precision.spec_get(),
            precision.spec_iteration_limit() as nat,
        ),
{
    if x.less_than(&T::zero()) && n.is_even() {
        return Err(RootError::PowError(PowError::EvenRootOfNegativeNumber));
    } else if n.is_zero() {
        return Err(RootError::ZerothRoot);
    } else if n.is_negative() {
        return Err(RootError::NegativethRoot);
    }
    let prec: &T = match precision.get() {
        Some(p) => p,
        None => {
            return Err(RootError::PowError(PowError::UnsetPrecision));
        },
    };
    let one = E::one();
    proof {
        E::small_representable();
        n.value_is_representable();
        E::representable_between(0, n.value() - 1, n.value());
    }
    let n_minus_one = n.minus(&one);
    let n_as_base: T = from_integer(&n);
    let mut res = T::one();
    let mut steps: u64 = precision.iteration_limit();
    while steps > 0
        invariant
            n.value() > 0,
            !(x.less_than_spec(T::zero_spec()) && n.value() % 2 == 0),
            precision.spec_get() == Some(*prec),
            n_minus_one.value() == n.value() - 1,
            n_as_base == multiple(T::one_spec(), n.value() as nat),
            newton_search(x, n.value(), *prec, res, steps as nat) == newton_search(
                x,
                n.value(),
                *prec,
                T::one_spec(),
                precision.spec_iteration_limit() as nat,
            ),
        decreases steps,
    {
        let (next, done) = newton_step(&x, &n_minus_one, &n_as_base, prec, &res);
        if done {
            return Ok(next);
        }
        res = next;
        steps = steps - 1;
    }
    Err(RootError::PowError(PowError::DidNotConverge))
}

/// The numerator and the denominator that `pow` works on: where the
/// denominator is negative and the numerator positive, both are negated, so
/// that a negative exponent has its sign in the numerator.
pub open spec fn normalized_exponent(numer: int, denom: int) -> (int, int) {
    if denom < 0 && numer > 0 {
        (-numer, -denom)
    } else {
        (numer, denom)
    }
}

/// Whether `x` to the power `numer / denom` is a root that can be asked for:
/// after the signs are normalised, the root index is positive, or the root is
/// an even one of a negative number (which is reported as an error).
pub open spec fn pow_defined<T: Numeric>(x: T, numer: int, denom: int) -> bool {
    let (nu, de) = normalized_exponent(numer, denom);
    de > 0 || (powi_spec(x, nu).less_than_spec(T::zero_spec()) && de % 2 == 0)
}

/// Whether the integer type `I` can hold what `pow` negates on the way.
pub open spec fn pow_negatable<I: Integer>(numer: int, denom: int) -> bool {
    &&& (numer < 0 || (numer > 0 && denom < 0)) ==> I::representable(-numer)
    &&& (numer > 0 && denom < 0) ==> I::representable(-denom)
}

/// `x` to the power `numer / denom`: the integer power to the normalised
/// numerator, then the root to the normalised denominator.
pub open spec fn pow_spec<T: Numeric + Abs<Output = T>>(
    x: T,
    numer: int,
    denom: int,
    precision: Option<T>,
    limit: nat,
) -> Result<T, PowError> {
    let (nu, de) = normalized_exponent(numer, denom);
    match root_spec(powi_spec(x, nu), de, precision, limit) {
        Ok(v) => Ok(v),
        Err(RootError::PowError(e)) => Err(e),
        Err(_) => arbitrary(),
    }
}

/// `x` to the power `numer / denom`, for a numerator and a denominator as the
/// reduced exponent gives them.
pub fn pow_fraction<T: Numeric + Abs<Output = T>, I: Integer>(
    x: T,
    numer: I,
    denom: I,
    precision: &PowPrecision<T>,
) -> (r: Result<T, PowError>)
    requires
        pow_defined(x, numer.value(), denom.value()),
        pow_negatable::<I>(numer.value(), denom.value()),
    ensures
        r == pow_spec(
            x,
            numer.value(),
            denom.value(),
            precision.spec_get(),
            precision.spec_iteration_limit() as nat,
        ),
{
    let mut nu = numer;
    let mut de = denom;
    proof {
        numer.value_is_representable();
    }
    if de.is_negative() && nu.is_positive() {
        nu = nu.negated();
        de = de.negated();
    }
    match root(powi(x, nu), de, precision) {
        Ok(v) => Ok(v),
        Err(RootError::PowError(e)) => Err(e),
        Err(_) => {
            proof {
                assert(false);
            }
            vstd::pervasive::unreached()
        },
    }
}

/// Exponentiation to any rational exponent.
///
/// The exponent is reduced first; its numerator and denominator then have
/// their signs normalised, the base is raised to the numerator and the root to
/// the denominator is taken of that.
pub fn pow<T: Numeric + Abs<Output = T>, E: Rational<Int = I>, I: Integer>(
    x: T,
    exp: E,
    precision: &PowPrecision<T>,
) -> (r: Result<T, PowError>)
    requires
        pow_defined(x, exp.reduced_spec().numer_spec().value(), exp.reduced_spec().denom_spec().value()),
        pow_negatable::<I>(exp.reduced_spec().numer_spec().value(), exp.reduced_spec().denom_spec().value()),
    ensures
        r == pow_spec(
            x,
            exp.reduced_spec().numer_spec().value(),
            exp.reduced_spec().denom_spec().value(),
            precision.spec_get(),
            precision.spec_iteration_limit() as nat,
        ),
{
    let exp = exp.reduced();
    let nu = exp.numer();
    let de = exp.denom();
    pow_fraction(x, nu, de, precision)
}

/// An even root of a negative number is refused, whatever the precision: the
/// sign is tested before anything else.
pub proof fn lemma_root_even_of_negative<T: Numeric + Abs<Output = T>>(
    x: T,
    n: int,
    precision: Option<T>,
    limit: nat,
)
    requires
        x.less_than_spec(T::zero_spec()),
        n % 2 == 0,
    ensures
        root_spec(x, n, precision, limit) == Err::<T, RootError>(
            RootError::PowError(PowError::EvenRootOfNegativeNumber),
        ),
{
}

/// The zeroth root of a number that is not negative is refused as such. (Of a
/// negative number it is refused as an even root: zero is even.)
pub proof fn lemma_root_zeroth<T: Numeric + Abs<Output = T>>(
    x: T,
    precision: Option<T>,
    limit: nat,
)
    requires
        !x.less_than_spec(T::zero_spec()),
    ensures
        root_spec(x, 0, precision, limit) == Err::<T, RootError>(RootError::ZerothRoot),
{
}

/// A negative root index is refused as such, unless the even root of a
/// negative number was asked for.
pub proof fn lemma_root_negative_index<T: Numeric + Abs<Output = T>>(
    x: T,
    n: int,
    precision: Option<T>,
    limit: nat,
)
    requires
        n < 0,
        !(x.less_than_spec(T::zero_spec()) && n % 2 == 0),
    ensures
        root_spec(x, n, precision, limit) == Err::<T, RootError>(RootError::NegativethRoot),
{
}

/// Without a precision, a rational power whose root can be asked for, and is
/// not the even root of a negative number, is refused with `UnsetPrecision`.
pub proof fn lemma_pow_unset_precision<T: Numeric + Abs<Output = T>>(
    x: T,
    numer: int,
    denom: int,
    limit: nat,
)
    requires
        pow_defined(x, numer, denom),
        !(powi_spec(x, normalized_exponent(numer, denom).0).less_than_spec(T::zero_spec())
            && normalized_exponent(numer, denom).1 % 2 == 0),
    ensures
        pow_spec(x, numer, denom, None, limit) == Err::<T, PowError>(PowError::UnsetPrecision),
{
}

/// What the arithmetic has to get exactly right at `x` for the first root of
/// `x` to be `x` itself: dividing by one changes nothing, a value minus itself
/// is zero, and one plus what `x` exceeds one by is `x`.
pub open spec fn exact_around_one<T: Numeric>(x: T) -> bool {
    let one = T::one_spec();
    &&& x.divided_by_spec(one) == x
    &&& x.minus_spec(one).divided_by_spec(one) == x.minus_spec(one)
    &&& one.plus_spec(x.minus_spec(one)) == x
    &&& x.minus_spec(x) == T::zero_spec()
    &&& T::zero_spec().divided_by_spec(one) == T::zero_spec()
}

/// The power to the exponent 1/1 is the base itself, where the arithmetic is
/// exact at the base, the precision admits a correction of zero, and two
/// iterations are allowed.
pub proof fn lemma_pow_unit_exponent<T: Numeric + Abs<Output = T>>(x: T, precision: T, limit: nat)
    requires
        exact_around_one(x),
        within_precision(T::zero_spec(), precision),
        limit >= 2,
    ensures
        pow_spec(x, 1, 1, Some(precision), limit) == Ok::<T, PowError>(x),
{
    let one = T::one_spec();
    T::times_one(x);
    T::plus_zero(one);
    T::plus_zero(x);
    assert(powi_spec(x, 1) == x) by {
        assert(crate::pow::powi::power(x, 1) == x.times_spec(crate::pow::powi::power(x, 0)));
    }
    assert(multiple(one, 1) == one) by {
        assert(multiple(one, 1) == one.plus_spec(multiple(one, 0)));
    }
    assert(powi_spec(one, 0) == one);
    assert(powi_spec(x, 0) == one);
    let first = newton_delta(x, 1, one);
    assert(first == x.minus_spec(one));
    assert(one.plus_spec(first) == x);
    assert(newton_delta(x, 1, x) == T::zero_spec());
    assert(newton_search(x, 1, precision, x, (limit - 1) as nat) == Some(x));
    assert(newton_search(x, 1, precision, one, limit) == Some(x));
}

} // verus!
