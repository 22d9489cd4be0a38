use vstd::prelude::*;

verus! {

/// A value of one of two types, with accessors in the style of `Option`.
#[derive(Debug, Copy, Clone, Eq, PartialEq)]
pub enum Union<A, B> {
    A(A),
    B(B),
}

impl<A, B> Union<A, B> {
    /// Moves into the `A` value. Only an `A` may be unwrapped this way.
    pub fn unwrap_a(self) -> (r: A)
        requires
            self is A,
        ensures
            self == Union::<A, B>::A(r),
    {
        match self {
            Union::A(x) => x,
            Union::B(_) => {
                proof {
                    assert(false);
                }
                vstd::pervasive::unreached()
            },
        }
    }

    /// Moves into the `B` value. Only a `B` may be unwrapped this way.
    pub fn unwrap_b(self) -> (r: B)
        requires
            self is B,
        ensures
            self == Union::<A, B>::B(r),
    {
        match self {
            Union::B(x) => x,
            Union::A(_) => {
                proof {
                    assert(false);
                }
                vstd::pervasive::unreached()
            },
        }
    }

    /// A mutable reference to the `A` value. Only an `A` has one.
    pub fn a_mut(&mut self) -> (r: &mut A)
        requires
            *old(self) is A,
        ensures
            *old(self) == Union::<A, B>::A(*r),
            *final(self) == Union::<A, B>::A(*final(r)),
    {
        match self {
            Union::A(x) => x,
            Union::B(_) => {
                proof {
                    assert(false);
                }
                vstd::pervasive::unreached()
            },
        }
    }

    /// A mutable reference to the `B` value. Only a `B` has one.
    pub fn b_mut(&mut self) -> (r: &mut B)
        requires
            *old(self) is B,
        ensures
            *old(self) == Union::<A, B>::B(*r),
            *final(self) == Union::<A, B>::B(*final(r)),
    {
        match self {
            Union::B(x) => x,
            Union::A(_) => {
                proof {
                    assert(false);
                }
                vstd::pervasive::unreached()
            },
        }
    }

    /// Returns true on an `A` and false on a `B`.
    pub fn is_a(&self) -> (r: bool)
        ensures
            r == (self is A),
    {
        match self {
            Union::A(_) => true,
            _ => false,
        }
    }

    /// Returns true on a `B` and false on an `A`.
    pub fn is_b(&self) -> (r: bool)
        ensures
            r == (self is B),
    {
        !self.is_a()
    }

    /// Maps `A(x)` to `Some(&x)` and `B(_)` to `None`.
    pub fn to_option_a(&self) -> (r: Option<&A>)
        ensures
            r == match *self {
                Union::A(x) => Some(&x),
                Union::B(_) => None::<&A>,
            },
    {
        match self {
            Union::A(x) => Some(x),
            _ => None,
        }
    }

    /// Maps `B(x)` to `Some(&x)` and `A(_)` to `None`.
    pub fn to_option_b(&self) -> (r: Option<&B>)
        ensures
            r == match *self {
                Union::B(x) => Some(&x),
                Union::A(_) => None::<&B>,
            },
    {
        match self {
            Union::B(x) => Some(x),
            _ => None,
        }
    }

    /// Maps `A(x)` to `Some(x)` and `B(_)` to `None`.
    pub fn into_option_a(self) -> (r: Option<A>)
        ensures
            r == match self {
                Union::A(x) => Some(x),
                Union::B(_) => None::<A>,
            },
    {
        match self {
            Union::A(x) => Some(x),
            _ => None,
        }
    }

    /// Maps `B(x)` to `Some(x)` and `A(_)` to `None`.
    pub fn into_option_b(self) -> (r: Option<B>)
        ensures
            r == match self {
                Union::B(x) => Some(x),
                Union::A(_) => None::<B>,
            },
    {
        match self {
            Union::B(x) => Some(x),
            _ => None,
        }
    }

    /// Applies `f` to the inside of an `A` and leaves a `B` as it is.
    pub fn map_a<T, F: FnMut(A) -> T>(self, mut f: F) -> (r: Union<T, B>)
        requires
            match self {
                Union::A(x) => f.requires((x,)),
                Union::B(_) => true,
            },
        ensures
            match self {
                Union::A(x) => r is A && f.ensures((x,), r->A_0),
                Union::B(x) => r == Union::<T, B>::B(x),
            },
    {
        match self {
            Union::A(x) => Union::A(f(x)),
            Union::B(x) => Union::B(x),
        }
    }

    /// Applies `f` to the inside of a `B` and leaves an `A` as it is.
    pub fn map_b<T, F: FnMut(B) -> T>(self, mut f: F) -> (r: Union<A, T>)
        requires
            match self {
                Union::A(_) => true,
                Union::B(x) => f.requires((x,)),
            },
        ensures
            match self {
                Union::A(x) => r == Union::<A, T>::A(x),
                Union::B(x) => r is B && f.ensures((x,), r->B_0),
            },
    {
        match self {
            Union::A(x) => Union::A(x),
            Union::B(x) => Union::B(f(x)),
        }
    }

    /// Applies `f_a` to the inside of an `A` and `f_b` to the inside of a `B`.
    pub fn map<T, U, F1: FnMut(A) -> T, F2: FnMut(B) -> U>(self, mut f_a: F1, mut f_b: F2) -> (r:
        Union<T, U>)
        requires
            match self {
                Union::A(x) => f_a.requires((x,)),
                Union::B(x) => f_b.requires((x,)),
            },
        ensures
            match self {
                Union::A(x) => r is A && f_a.ensures((x,), r->A_0),
                Union::B(x) => r is B && f_b.ensures((x,), r->B_0),
            },
    {
        match self {
            Union::A(x) => Union::A(f_a(x)),
            Union::B(x) => Union::B(f_b(x)),
        }
    }
}

impl<A> Union<A, A> {
    /// Collapses a `Union<A, A>` into the `A` that it holds.
    pub fn collapse(self) -> (r: A)
        ensures
            r == match self {
                Union::A(x) => x,
                Union::B(x) => x,
            },
    {
        match self {
            Union::A(x) => x,
            Union::B(x) => x,
        }
    }
}

impl<A: Clone, B: Clone> Union<A, B> {
    /// A union of the same variant that holds a clone of the inner value.
    pub fn cloned(&self) -> (r: Union<A, B>)
        ensures
            match *self {
                Union::A(x) => r is A && cloned(x, r->A_0),
                Union::B(x) => r is B && cloned(x, r->B_0),
            },
    {
        match self {
            Union::A(x) => Union::A(x.clone()),
            Union::B(x) => Union::B(x.clone()),
        }
    }
}

} // verus!
