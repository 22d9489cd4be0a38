use crate::pow::traits::{Integer, Numeric};
use vstd::prelude::*;

verus! {

/// The `n`-fold sum `t + (t + (... + 0))`.
pub open spec fn multiple<T: Numeric>(t: T, n: nat) -> T
    decreases n,
{
    if n == 0 {
        T::zero_spec()
    } else {
        t.plus_spec(multiple(t, (n - 1) as nat))
    }
}

/// Multiples add up: `(m + n) t == m t + n t`.
pub proof fn lemma_multiple_sum<T: Numeric>(t: T, m: nat, n: nat)
    ensures
        multiple(t, m + n) == multiple(t, m).plus_spec(multiple(t, n)),
    decreases m,
{
    if m == 0 {
        T::plus_zero(multiple(t, n));
    } else {
        lemma_multiple_sum(t, (m - 1) as nat, n);
        assert((m + n - 1) as nat == (m - 1) as nat + n);
        T::plus_associative(t, multiple(t, (m - 1) as nat), multiple(t, n));
    }
}

/// Doubling the summand halves the count: `k (t + t) == (2k) t`.
pub proof fn lemma_multiple_of_double<T: Numeric>(t: T, k: nat)
    ensures
        multiple(t.plus_spec(t), k) == multiple(t, 2 * k),
    decreases k,
{
    if k > 0 {
        lemma_multiple_of_double(t, (k - 1) as nat);
        let rest = multiple(t, (2 * k - 2) as nat);
        assert(multiple(t, (2 * k - 1) as nat) == t.plus_spec(rest));
        assert(multiple(t, 2 * k) == t.plus_spec(t.plus_spec(rest)));
        T::plus_associative(t, t, rest);
        assert((2 * (k - 1)) as nat == (2 * k - 2) as nat);
    }
}

/// Multiplies `t` by the non-negative integer `n` with additions alone, by
/// doubling: the number of additions grows with the logarithm of `n`.
pub fn mul_by_add<T: Numeric, E: Integer>(t: &T, n: &E) -> (r: T)
    requires
        n.value() >= 0,
    ensures
        r == multiple(*t, n.value() as nat),
{
    let one = E::one();
    if n.is_zero() {
        return T::zero();
    }
    if !one.less_than(n) {
        proof {
            T::plus_zero(*t);
            assert(multiple(*t, 1) == t.plus_spec(multiple(*t, 0)));
        }
        return T::zero().plus(t);
    }
    proof {
        E::small_representable();
    }
    let two = E::two();
    let mut acc = T::zero();
    let mut k: E;
    proof {
        T::plus_zero(*t);
        T::plus_zero(multiple(*t, n.value() as nat));
        lemma_multiple_of_double(*t, (n.value() / 2) as nat);
        one.value_is_representable();
        n.value_is_representable();
        E::representable_between(1, n.value() - 1, n.value());
    }
    if n.is_even() {
        k = n.divided_by(&two);
    } else {
        acc = acc.plus(t);
        k = n.minus(&one).divided_by(&two);
        proof {
            lemma_multiple_sum(*t, 1, (n.value() - 1) as nat);
            assert(multiple(*t, 1) == t.plus_spec(multiple(*t, 0)));
        }
    }
    let mut res = t.plus(t);
    while one.less_than(&k)
        invariant
            one.value() == 1,
            two.value() == 2,
            k.value() >= 1,
            acc.plus_spec(multiple(res, k.value() as nat)) == multiple(*t, n.value() as nat),
        decreases k.value(),
    {
        proof {
            one.value_is_representable();
            k.value_is_representable();
            E::representable_between(1, k.value() - 1, k.value());
        }
        if k.is_even() {
            proof {
                lemma_multiple_of_double(res, (k.value() / 2) as nat);
            }
            res = res.plus(&res);
            k = k.divided_by(&two);
        } else {
            proof {
                let rest = multiple(res, (k.value() - 1) as nat);
                assert(multiple(res, k.value() as nat) == res.plus_spec(rest));
                T::plus_associative(acc, res, rest);
            }
            acc = acc.plus(&res);
            k = k.minus(&one);
        }
    }
    proof {
        assert(multiple(res, 1) == res.plus_spec(multiple(res, 0)));
        T::plus_zero(res);
    }
    acc.plus(&res)
}

/// The non-negative integer `n` in the type of a base: the sum of `n` ones.
pub fn from_integer<T: Numeric, E: Integer>(n: &E) -> (r: T)
    requires
        n.value() >= 0,
    ensures
        r == multiple(T::one_spec(), n.value() as nat),
{
    mul_by_add(&T::one(), n)
}

} // verus!
