use vstd::prelude::*;

verus! {

/// The capability set of an exponent: a type that stands for mathematical
/// integers and offers ordering, zero and one, parity tests, negation,
/// subtraction and division.
///
/// Every value stands for exactly one integer, [`Integer::value`], and the
/// integers that the type can hold form an interval that contains 0, 1 and 2.
/// Operations whose exact result the type cannot hold are left out by their
/// preconditions, so no implementation has to wrap or panic.
pub trait Integer: Sized {
    /// The mathematical integer that this value stands for.
    spec fn value(&self) -> int;

    /// Whether the type has a value that stands for `v`.
    spec fn representable(v: int) -> bool;

    /// Every value stands for an integer that the type can hold.
    proof fn value_is_representable(&self)
        ensures
            Self::representable(self.value()),
    ;

    /// The integers that the type can hold form an interval.
    proof fn representable_between(lo: int, mid: int, hi: int)
        requires
            Self::representable(lo),
            Self::representable(hi),
            lo <= mid <= hi,
        ensures
            Self::representable(mid),
    ;

    /// The type can hold 0, 1 and 2.
    proof fn small_representable()
        ensures
            Self::representable(0),
            Self::representable(1),
            Self::representable(2),
    ;

    /// The additive identity.
    fn zero() -> (r: Self)
        ensures
            r.value() == 0,
    ;

    /// The multiplicative identity.
    fn one() -> (r: Self)
        ensures
            r.value() == 1,
    ;

    fn is_zero(&self) -> (r: bool)
        ensures
            r == (self.value() == 0),
    ;

    fn is_one(&self) -> (r: bool)
        ensures
            r == (self.value() == 1),
    ;

    /// Strict ordering by the integers that the values stand for.
    fn less_than(&self, other: &Self) -> (r: bool)
        ensures
            r == (self.value() < other.value()),
    ;

    fn plus(&self, other: &Self) -> (r: Self)
        requires
            Self::representable(self.value() + other.value()),
        ensures
            r.value() == self.value() + other.value(),
    ;

    fn minus(&self, other: &Self) -> (r: Self)
        requires
            Self::representable(self.value() - other.value()),
        ensures
            r.value() == self.value() - other.value(),
    ;

    fn negated(&self) -> (r: Self)
        requires
            Self::representable(-self.value()),
        ensures
            r.value() == -self.value(),
    ;

    /// Division of a non-negative value by a positive one, rounding down.
    fn divided_by(&self, other: &Self) -> (r: Self)
        requires
            self.value() >= 0,
            other.value() > 0,
        ensures
            r.value() == self.value() / other.value(),
    ;

    /// Parity cannot be derived from the other operations: each type supplies it.
    fn is_even(&self) -> (r: bool)
        ensures
            r == (self.value() % 2 == 0),
    ;

    fn is_positive(&self) -> (r: bool)
        ensures
            r == (self.value() > 0),
    {
        Self::zero().less_than(self)
    }

    fn is_negative(&self) -> (r: bool)
        ensures
            r == (self.value() < 0),
    {
        self.less_than(&Self::zero())
    }

    /// One plus one. That the type can hold it is what `small_representable`
    /// states of every implementation.
    fn two() -> (r: Self)
        requires
            Self::representable(2),
        ensures
            r.value() == 2,
    {
        Self::one().plus(&Self::one())
    }

    fn is_odd(&self) -> (r: bool)
        ensures
            r == (self.value() % 2 != 0),
    {
        !self.is_even()
    }
}

/// The capability set of a base: a numeric type with an additive and a
/// multiplicative identity, the four arithmetic operations, multiplicative
/// inversion and a strict ordering.
///
/// The operations are total and deterministic: each returns exactly what its
/// `_spec` counterpart names. Addition and multiplication are associative and
/// have `zero` and `one` as their identities; nothing else is asked of the
/// arithmetic, in particular neither commutativity nor that `inverse` or
/// `divided_by` undo a multiplication.
pub trait Numeric: Sized {
    spec fn zero_spec() -> Self;

    spec fn one_spec() -> Self;

    spec fn plus_spec(self, rhs: Self) -> Self;

    spec fn minus_spec(self, rhs: Self) -> Self;

    spec fn times_spec(self, rhs: Self) -> Self;

    spec fn divided_by_spec(self, rhs: Self) -> Self;

    spec fn inverse_spec(self) -> Self;

    spec fn less_than_spec(self, rhs: Self) -> bool;

    proof fn plus_associative(a: Self, b: Self, c: Self)
        ensures
            a.plus_spec(b).plus_spec(c) == a.plus_spec(b.plus_spec(c)),
    ;

    proof fn plus_zero(a: Self)
        ensures
            a.plus_spec(Self::zero_spec()) == a,
            Self::zero_spec().plus_spec(a) == a,
    ;

    proof fn times_associative(a: Self, b: Self, c: Self)
        ensures
            a.times_spec(b).times_spec(c) == a.times_spec(b.times_spec(c)),
    ;

    proof fn times_one(a: Self)
        ensures
            a.times_spec(Self::one_spec()) == a,
            Self::one_spec().times_spec(a) == a,
    ;

    fn zero() -> (r: Self)
        ensures
            r == Self::zero_spec(),
    ;

    fn one() -> (r: Self)
        ensures
            r == Self::one_spec(),
    ;

    fn plus(&self, rhs: &Self) -> (r: Self)
        ensures
            r == self.plus_spec(*rhs),
    ;

    fn minus(&self, rhs: &Self) -> (r: Self)
        ensures
            r == self.minus_spec(*rhs),
    ;

    fn times(&self, rhs: &Self) -> (r: Self)
        ensures
            r == self.times_spec(*rhs),
    ;

    fn divided_by(&self, rhs: &Self) -> (r: Self)
        ensures
            r == self.divided_by_spec(*rhs),
    ;

    /// The multiplicative inverse.
    fn inverse(&self) -> (r: Self)
        ensures
            r == self.inverse_spec(),
    ;

    fn less_than(&self, rhs: &Self) -> (r: bool)
        ensures
            r == self.less_than_spec(*rhs),
    ;
}

/// Magnitude of a value, in a type that can be compared with a precision.
pub trait Abs {
    type Output;

    spec fn abs_spec(&self) -> Self::Output;

    fn abs(&self) -> (r: Self::Output)
        ensures
            r == self.abs_spec(),
    ;
}

/// A rational number: a numerator over a denominator.
pub trait Rational: Sized {
    type Int: Integer;

    spec fn numer_spec(&self) -> Self::Int;

    spec fn denom_spec(&self) -> Self::Int;

    /// The value that `reduced` gives.
    spec fn reduced_spec(self) -> Self;

    fn numer(&self) -> (r: Self::Int)
        ensures
            r == self.numer_spec(),
    ;

    fn denom(&self) -> (r: Self::Int)
        ensures
            r == self.denom_spec(),
    ;

    /// An equivalent representation of the same number. Lowest terms are not
    /// asked for; the numerator and the denominator of the result are what the
    /// power functions work on.
    fn reduced(self) -> (r: Self)
        ensures
            r == self.reduced_spec(),
    ;
}

} // verus!
