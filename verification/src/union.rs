use vstd::prelude::*;

verus! {

/// A value that is one of two types.
#[derive(Debug, Copy, Clone, Eq, PartialEq)]
pub enum Union<A, B> {
    A(A),
    B(B),
}

impl<A, B> Union<A, B> {
    /// Moves into the `A` value. Only an `A` may be unwrapped this way.
    pub fn unwrap_a(self) -> (r: A)
        requires
            self is A,
        ensures
            self == Union::<A, B>::A(r),
    {
        match self {
            Union::A(x) => x,
            Union::B(_) => {
                proof {
                    assert(false);
                }
                vstd::pervasive::unreached()
            },
        }
    }

    /// Moves into the `B` value. Only a `B` may be unwrapped this way.
    pub fn unwrap_b(self) -> (r: B)
        requires
            self is B,
        ensures
            self == Union::<A, B>::B(r),
    {
        match self {
            Union::B(x) => x,
            Union::A(_) => {
                proof {
                    assert(false);
                }
                vstd::pervasive::unreached()
            },
        }
    }

    /// Converts from `Union<A, B>` to `Union<&A, &B>`.
    pub fn as_ref(&self) -> (r: Union<&A, &B>)
        ensures
            match *self {
                Union::A(a) => r == Union::<&A, &B>::A(&a),
                Union::B(b) => r == Union::<&A, &B>::B(&b),
            },
    {
        match self {
            Union::A(a) => Union::A(a),
            Union::B(b) => Union::B(b),
        }
    }

    /// Converts from `Union<A, B>` to `Union<&mut A, &mut B>`.
    pub fn as_mut(&mut self) -> (r: Union<&mut A, &mut B>)
        ensures
            match r {
                Union::A(a) => *old(self) == Union::<A, B>::A(*a) && *final(self)
                    == Union::<A, B>::A(*final(a)),
                Union::B(b) => *old(self) == Union::<A, B>::B(*b) && *final(self)
                    == Union::<A, B>::B(*final(b)),
            },
    {
        match self {
            Union::A(a) => Union::A(a),
            Union::B(b) => Union::B(b),
        }
    }

    /// Returns true on an `A` and false on a `B`.
    pub fn is_a(&self) -> (r: bool)
        ensures
            r == (self is A),
    {
        match self {
            Union::A(_) => true,
            _ => false,
        }
    }

    /// Returns true on a `B` and false on an `A`.
    pub fn is_b(&self) -> (r: bool)
        ensures
            r == (self is B),
    {
        !self.is_a()
    }

    /// Maps `A(x)` to `Some(x)` and `B(_)` to `None`.
    pub fn some_a(self) -> (r: Option<A>)
        ensures
            r == match self {
                Union::A(x) => Some(x),
                Union::B(_) => None::<A>,
            },
    {
        match self {
            Union::A(x) => Some(x),
            _ => None,
        }
    }

    /// Maps `B(x)` to `Some(x)` and `A(_)` to `None`.
    pub fn some_b(self) -> (r: Option<B>)
        ensures
            r == match self {
                Union::B(x) => Some(x),
                Union::A(_) => None::<B>,
            },
    {
        match self {
            Union::B(x) => Some(x),
            _ => None,
        }
    }

    /// Applies `f_a` to the inside of an `A` and `f_b` to the inside of a `B`.
    pub fn map<T, U, F1: FnMut(A) -> T, F2: FnMut(B) -> U>(self, mut f_a: F1, mut f_b: F2) -> (r:
        Union<T, U>)
        requires
            match self {
                Union::A(x) => f_a.requires((x,)),
                Union::B(x) => f_b.requires((x,)),
            },
        ensures
            match self {
                Union::A(x) => r is A && f_a.ensures((x,), r->A_0),
                Union::B(x) => r is B && f_b.ensures((x,), r->B_0),
            },
    {
        match self {
            Union::A(x) => Union::A(f_a(x)),
            Union::B(x) => Union::B(f_b(x)),
        }
    }

    /// Applies `f` to the inside of an `A` and leaves a `B` as it is.
    pub fn map_a<T, F: FnMut(A) -> T>(self, mut f: F) -> (r: Union<T, B>)
        requires
            match self {
                Union::A(x) => f.requires((x,)),
                Union::B(_) => true,
            },
        ensures
            match self {
                Union::A(x) => r is A && f.ensures((x,), r->A_0),
                Union::B(x) => r == Union::<T, B>::B(x),
            },
    {
        match self {
            Union::A(x) => Union::A(f(x)),
            Union::B(x) => Union::B(x),
        }
    }

    /// Applies `f` to the inside of a `B` and leaves an `A` as it is.
    pub fn map_b<T, F: FnMut(B) -> T>(self, mut f: F) -> (r: Union<A, T>)
        requires
            match self {
                Union::A(_) => true,
                Union::B(x) => f.requires((x,)),
            },
        ensures
            match self {
                Union::A(x) => r == Union::<A, T>::A(x),
                Union::B(x) => r is B && f.ensures((x,), r->B_0),
            },
    {
        match self {
            Union::A(x) => Union::A(x),
            Union::B(x) => Union::B(f(x)),
        }
    }

    /// Like `map`, but borrows `self`.
    pub fn map_ref<T, U, F1: FnMut(&A) -> T, F2: FnMut(&B) -> U>(
        &self,
        mut f_a: F1,
        mut f_b: F2,
    ) -> (r: Union<T, U>)
        requires
            match *self {
                Union::A(x) => f_a.requires((&x,)),
                Union::B(x) => f_b.requires((&x,)),
            },
        ensures
            match *self {
                Union::A(x) => r is A && f_a.ensures((&x,), r->A_0),
                Union::B(x) => r is B && f_b.ensures((&x,), r->B_0),
            },
    {
        match self {
            Union::A(x) => Union::A(f_a(x)),
            Union::B(x) => Union::B(f_b(x)),
        }
    }

    /// Like `map_a`, but borrows `self` and clones a `B` value.
    pub fn map_ref_a<T, F: FnMut(&A) -> T>(&self, mut f: F) -> (r: Union<T, B>) where B: Clone
        requires
            match *self {
                Union::A(x) => f.requires((&x,)),
                Union::B(_) => true,
            },
        ensures
            match *self {
                Union::A(x) => r is A && f.ensures((&x,), r->A_0),
                Union::B(x) => r is B && cloned(x, r->B_0),
            },
    {
        match self {
            Union::A(x) => Union::A(f(x)),
            Union::B(x) => Union::B(x.clone()),
        }
    }

    /// Like `map_b`, but borrows `self` and clones an `A` value.
    pub fn map_ref_b<T, F: FnMut(&B) -> T>(&self, mut f: F) -> (r: Union<A, T>) where A: Clone
        requires
            match *self {
                Union::A(_) => true,
                Union::B(x) => f.requires((&x,)),
            },
        ensures
            match *self {
                Union::A(x) => r is A && cloned(x, r->A_0),
                Union::B(x) => r is B && f.ensures((&x,), r->B_0),
            },
    {
        match self {
            Union::A(x) => Union::A(x.clone()),
            Union::B(x) => Union::B(f(x)),
        }
    }
}

impl<A> Union<A, A> {
    /// Collapses an `Union<A, A>` into the `A` that it holds.
    pub fn collapse(self) -> (r: A)
        ensures
            r == match self {
                Union::A(x) => x,
                Union::B(x) => x,
            },
    {
        match self {
            Union::A(x) => x,
            Union::B(x) => x,
        }
    }
}

} // verus!
