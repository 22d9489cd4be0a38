use crate::pow::traits::{Integer, Numeric};
use vstd::prelude::*;

verus! {

/// The `e`-fold product `b * (b * (... * 1))`.
pub open spec fn power<T: Numeric>(b: T, e: nat) -> T
    decreases e,
{
    if e == 0 {
        T::one_spec()
    } else {
        b.times_spec(power(b, (e - 1) as nat))
    }
}

/// `b` raised to any integer: the repeated product for `e >= 0`, and the
/// inverse of the repeated product of `-e` factors for `e < 0`.
pub open spec fn powi_spec<T: Numeric>(b: T, e: int) -> T {
    if e >= 0 {
        power(b, e as nat)
    } else {
        power(b, (-e) as nat).inverse_spec()
    }
}

/// Powers add up: `b^(m + n) == b^m * b^n`.
pub proof fn lemma_power_sum<T: Numeric>(b: T, m: nat, n: nat)
    ensures
        power(b, m + n) == power(b, m).times_spec(power(b, n)),
    decreases m,
{
    if m == 0 {
        T::times_one(power(b, n));
    } else {
        lemma_power_sum(b, (m - 1) as nat, n);
        assert((m + n - 1) as nat == (m - 1) as nat + n);
        T::times_associative(b, power(b, (m - 1) as nat), power(b, n));
    }
}

/// Squaring the base halves the exponent: `(b * b)^k == b^(2k)`.
pub proof fn lemma_power_of_square<T: Numeric>(b: T, k: nat)
    ensures
        power(b.times_spec(b), k) == power(b, 2 * k),
    decreases k,
{
    if k > 0 {
        lemma_power_of_square(b, (k - 1) as nat);
        let rest = power(b, (2 * k - 2) as nat);
        assert(power(b, (2 * k - 1) as nat) == b.times_spec(rest));
        assert(power(b, 2 * k) == b.times_spec(b.times_spec(rest)));
        T::times_associative(b, b, rest);
        assert((2 * (k - 1)) as nat == (2 * k - 2) as nat);
    }
}

/// Exponentiation by squaring of `base` to an exponent of at least two.
fn powi_squaring<T: Numeric, E: Integer>(base: &T, exp: &E) -> (r: T)
    requires
        exp.value() >= 2,
    ensures
        r == power(*base, exp.value() as nat),
{
    let one = E::one();
    proof {
        E::small_representable();
    }
    let two = E::two();
    let mut fac = T::one();
    let mut e: E;
    proof {
        T::times_one(*base);
        T::times_one(power(*base, exp.value() as nat));
        lemma_power_of_square(*base, (exp.value() / 2) as nat);
        one.value_is_representable();
        exp.value_is_representable();
        E::representable_between(1, exp.value() - 1, exp.value());
    }
    if exp.is_even() {
        e = exp.divided_by(&two);
    } else {
        fac = fac.times(base);
        e = exp.minus(&one).divided_by(&two);
        proof {
            lemma_power_sum(*base, 1, (exp.value() - 1) as nat);
            assert(power(*base, 1) == base.times_spec(power(*base, 0)));
        }
    }
    let mut res = base.times(base);
    while one.less_than(&e)
        invariant
            one.value() == 1,
            two.value() == 2,
            e.value() >= 1,
            fac.times_spec(power(res, e.value() as nat)) == power(*base, exp.value() as nat),
        decreases e.value(),
    {
        proof {
            one.value_is_representable();
            e.value_is_representable();
            E::representable_between(1, e.value() - 1, e.value());
        }
        if e.is_even() {
            proof {
                lemma_power_of_square(res, (e.value() / 2) as nat);
            }
            res = res.times(&res);
            e = e.divided_by(&two);
        } else {
            proof {
                let rest = power(res, (e.value() - 1) as nat);
                assert(power(res, e.value() as nat) == res.times_spec(rest));
                T::times_associative(fac, res, rest);
            }
            fac = fac.times(&res);
            e = e.minus(&one);
        }
    }
    proof {
        assert(power(res, 1) == res.times_spec(power(res, 0)));
        T::times_one(res);
    }
    fac.times(&res)
}

/// Exponentiation with an integer power, of a base that is only borrowed: the
/// same as `powi`, but for the exponent one, where the base is multiplied by
/// one to have a value of its own.
pub fn powi_ref<T: Numeric, E: Integer>(base: &T, exp: &E) -> (r: T)
    requires
        exp.value() < 0 ==> E::representable(-exp.value()),
    ensures
        r == powi_spec(*base, exp.value()),
    decreases (if exp.value() < 0 { 1int } else { 0int }),
{
    if exp.is_zero() {
        T::one()
    } else if exp.is_negative() {
        let positive = exp.negated();
        powi_ref(base, &positive).inverse()
    } else if exp.is_one() {
        proof {
            T::times_one(*base);
            assert(power(*base, 1) == base.times_spec(power(*base, 0)));
        }
        T::one().times(base)
    } else {
        powi_squaring(base, exp)
    }
}

/// Exponentiation with integer powers, by squaring.
///
/// Every exponent is handled: zero gives one, a negative exponent gives the
/// inverse of the power to its magnitude, one gives the base unchanged. The
/// one demand is that the exponent type can hold that magnitude.
pub fn powi<T: Numeric, E: Integer>(base: T, exp: E) -> (r: T)
    requires
        exp.value() < 0 ==> E::representable(-exp.value()),
    ensures
        r == powi_spec(base, exp.value()),
        exp.value() == 0 ==> r == T::one_spec(),
    decreases (if exp.value() < 0 { 1int } else { 0int }),
{
    if exp.is_zero() {
        return T::one();
    } else if exp.is_negative() {
        return powi(base, exp.negated()).inverse();
    } else if exp.is_one() {
        proof {
            T::times_one(base);
            assert(power(base, 1) == base.times_spec(power(base, 0)));
        }
        return base;
    }
    powi_squaring(&base, &exp)
}

/// A power to a negative exponent is the inverse of the power to its magnitude.
pub proof fn lemma_powi_negative<T: Numeric>(b: T, e: int)
    requires
        e > 0,
    ensures
        powi_spec(b, -e) == powi_spec(b, e).inverse_spec(),
{
}

/// Any base to the power zero is one.
pub proof fn lemma_powi_zero<T: Numeric>(b: T)
    ensures
        powi_spec(b, 0) == T::one_spec(),
{
}

/// For a non-negative exponent the power is the repeated product, built one
/// factor at a time.
pub proof fn lemma_powi_repeated_product<T: Numeric>(b: T, e: int)
    requires
        e >= 0,
    ensures
        powi_spec(b, e) == power(b, e as nat),
        powi_spec(b, e + 1) == b.times_spec(powi_spec(b, e)),
{
}

} // verus!
