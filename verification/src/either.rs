use vstd::prelude::*;

verus! {

/// A value that is one of two types.
#[derive(Debug, Copy, Clone, Eq, PartialEq)]
pub enum Either<A, B> {
    A(A),
    B(B),
}

impl<A, B> Either<A, B> {
    /// Moves into the `A` value. Only an `A` may be unwrapped this way.
    pub fn unwrap_a(self) -> (r: A)
        requires
            self is A,
        ensures
            self == Either::<A, B>::A(r),
    {
        match self {
            Either::A(x) => x,
            Either::B(_) => {
                proof {
                    assert(false);
                }
                vstd::pervasive::unreached()
            },
        }
    }

    /// Moves into the `B` value. Only a `B` may be unwrapped this way.
    pub fn unwrap_b(self) -> (r: B)
        requires
            self is B,
        ensures
            self == Either::<A, B>::B(r),
    {
        match self {
            Either::B(x) => x,
            Either::A(_) => {
                proof {
                    assert(false);
                }
                vstd::pervasive::unreached()
            },
        }
    }

    /// Converts from `Either<A, B>` to `Either<&A, &B>`.
    pub fn as_ref(&self) -> (r: Either<&A, &B>)
        ensures
            match *self {
                Either::A(a) => r == Either::<&A, &B>::A(&a),
                Either::B(b) => r == Either::<&A, &B>::B(&b),
            },
    {
        match self {
            Either::A(a) => Either::A(a),
            Either::B(b) => Either::B(b),
        }
    }

    /// Converts from `Either<A, B>` to `Either<&mut A, &mut B>`.
    pub fn as_mut(&mut self) -> (r: Either<&mut A, &mut B>)
        ensures
            match r {
                Either::A(a) => *old(self) == Either::<A, B>::A(*a) && *final(self)
                    == Either::<A, B>::A(*final(a)),
                Either::B(b) => *old(self) == Either::<A, B>::B(*b) && *final(self)
                    == Either::<A, B>::B(*final(b)),
            },
    {
        match self {
            Either::A(a) => Either::A(a),
            Either::B(b) => Either::B(b),
        }
    }

    /// Returns true on an `A` and false on a `B`.
    pub fn is_a(&self) -> (r: bool)
        ensures
            r == (self is A),
    {
        match self {
            Either::A(_) => true,
            _ => false,
        }
    }

    /// Returns true on a `B` and false on an `A`.
    pub fn is_b(&self) -> (r: bool)
        ensures
            r == (self is B),
    {
        !self.is_a()
    }

    /// Maps `A(x)` to `Some(x)` and `B(_)` to `None`.
    pub fn some_a(self) -> (r: Option<A>)
        ensures
            r == match self {
                Either::A(x) => Some(x),
                Either::B(_) => None::<A>,
            },
    {
        match self {
            Either::A(x) => Some(x),
            _ => None,
        }
    }

    /// Maps `B(x)` to `Some(x)` and `A(_)` to `None`.
    pub fn some_b(self) -> (r: Option<B>)
        ensures
            r == match self {
                Either::B(x) => Some(x),
                Either::A(_) => None::<B>,
            },
    {
        match self {
            Either::B(x) => Some(x),
            _ => None,
        }
    }

    /// Applies `f_a` to the inside of an `A` and `f_b` to the inside of a `B`.
    pub fn map<T, U, F1: FnMut(A) -> T, F2: FnMut(B) -> U>(self, mut f_a: F1, mut f_b: F2) -> (r:
        Either<T, U>)
        requires
            match self {
                Either::A(x) => f_a.requires((x,)),
                Either::B(x) => f_b.requires((x,)),
            },
        ensures
            match self {
                Either::A(x) => r is A && f_a.ensures((x,), r->A_0),
                Either::B(x) => r is B && f_b.ensures((x,), r->B_0),
            },
    {
        match self {
            Either::A(x) => Either::A(f_a(x)),
            Either::B(x) => Either::B(f_b(x)),
        }
    }

    /// Applies `f` to the inside of an `A` and leaves a `B` as it is.
    pub fn map_a<T, F: FnMut(A) -> T>(self, mut f: F) -> (r: Either<T, B>)
        requires
            match self {
                Either::A(x) => f.requires((x,)),
                Either::B(_) => true,
            },
        ensures
            match self {
                Either::A(x) => r is A && f.ensures((x,), r->A_0),
                Either::B(x) => r == Either::<T, B>::B(x),
            },
    {
        match self {
            Either::A(x) => Either::A(f(x)),
            Either::B(x) => Either::B(x),
        }
    }

    /// Applies `f` to the inside of a `B` and leaves an `A` as it is.
    pub fn map_b<T, F: FnMut(B) -> T>(self, mut f: F) -> (r: Either<A, T>)
        requires
            match self {
                Either::A(_) => true,
                Either::B(x) => f.requires((x,)),
            },
        ensures
            match self {
                Either::A(x) => r == Either::<A, T>::A(x),
                Either::B(x) => r is B && f.ensures((x,), r->B_0),
            },
    {
        match self {
            Either::A(x) => Either::A(x),
            Either::B(x) => Either::B(f(x)),
        }
    }

    /// Like `map`, but borrows `self`.
    pub fn map_ref<T, U, F1: FnMut(&A) -> T, F2: FnMut(&B) -> U>(
        &self,
        mut f_a: F1,
        mut f_b: F2,
    ) -> (r: Either<T, U>)
        requires
            match *self {
                Either::A(x) => f_a.requires((&x,)),
                Either::B(x) => f_b.requires((&x,)),
            },
        ensures
            match *self {
                Either::A(x) => r is A && f_a.ensures((&x,), r->A_0),
                Either::B(x) => r is B && f_b.ensures((&x,), r->B_0),
            },
    {
        match self {
            Either::A(x) => Either::A(f_a(x)),
            Either::B(x) => Either::B(f_b(x)),
        }
    }

    /// Like `map_a`, but borrows `self` and clones a `B` value.
    pub fn map_ref_a<T, F: FnMut(&A) -> T>(&self, mut f: F) -> (r: Either<T, B>) where B: Clone
        requires
            match *self {
                Either::A(x) => f.requires((&x,)),
                Either::B(_) => true,
            },
        ensures
            match *self {
                Either::A(x) => r is A && f.ensures((&x,), r->A_0),
                Either::B(x) => r is B && cloned(x, r->B_0),
            },
    {
        match self {
            Either::A(x) => Either::A(f(x)),
            Either::B(x) => Either::B(x.clone()),
        }
    }

    /// Like `map_b`, but borrows `self` and clones an `A` value.
    pub fn map_ref_b<T, F: FnMut(&B) -> T>(&self, mut f: F) -> (r: Either<A, T>) where A: Clone
        requires
            match *self {
                Either::A(_) => true,
                Either::B(x) => f.requires((&x,)),
            },
        ensures
            match *self {
                Either::A(x) => r is A && cloned(x, r->A_0),
                Either::B(x) => r is B && f.ensures((&x,), r->B_0),
            },
    {
        match self {
            Either::A(x) => Either::A(x.clone()),
            Either::B(x) => Either::B(f(x)),
        }
    }
}

impl<A> Either<A, A> {
    /// Collapses an `Either<A, A>` into the `A` that it holds.
    pub fn collapse(self) -> (r: A)
        ensures
            r == match self {
                Either::A(x) => x,
                Either::B(x) => x,
            },
    {
        match self {
            Either::A(x) => x,
            Either::B(x) => x,
        }
    }
}

} // verus!
