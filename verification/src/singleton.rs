use vstd::prelude::*;

verus! {

/// A cell that can be initialised only once.
///
/// It starts empty; the first `init` stores a value, and every later `init`
/// leaves the stored value as it is.
#[derive(Debug, Copy, Clone, Eq, PartialEq, Ord, PartialOrd)]
pub struct Singleton<T> {
    inner: Option<T>,
}

impl<T> Singleton<T> {
    /// The stored value, if the singleton is initialised.
    pub closed spec fn view(&self) -> Option<T> {
        self.inner
    }

    /// Creates a new, uninitialised singleton.
    pub fn new() -> (r: Self)
        ensures
            r@ == None::<T>,
    {
        Self { inner: None }
    }

    /// Stores the value if the singleton is not initialised yet, and does
    /// nothing if it is. Returns whether the value was stored.
    pub fn init(&mut self, t: T) -> (r: bool)
        ensures
            r == (old(self)@ is None),
            final(self)@ == if r {
                Some(t)
            } else {
                old(self)@
            },
    {
        match self.inner {
            None => {
                self.inner = Some(t);
                true
            },
            _ => false,
        }
    }

    /// Returns whether the singleton is initialised.
    pub fn is_initialized(&self) -> (r: bool)
        ensures
            r == (self@ is Some),
    {
        self.inner.is_some()
    }

    /// Converts to an `Option`, cloning the stored value.
    pub fn to_option(&self) -> (r: Option<T>) where T: Clone
        ensures
            match self@ {
                Some(v) => r is Some && cloned(v, r->Some_0),
                None => r is None,
            },
    {
        match &self.inner {
            Some(v) => Some(v.clone()),
            None => None,
        }
    }

    /// Converts into an `Option`.
    pub fn into_option(self) -> (r: Option<T>)
        ensures
            r == self@,
    {
        self.inner
    }

    /// Moves the value out of an initialised singleton.
    pub fn unwrap(self) -> (r: T)
        requires
            self@ is Some,
        ensures
            self@ == Some(r),
    {
        self.inner.unwrap()
    }

    /// Moves the value out of an initialised singleton. The message names
    /// what the caller relies on.
    pub fn expect(self, msg: &str) -> (r: T)
        requires
            self@ is Some,
        ensures
            self@ == Some(r),
    {
        self.inner.unwrap()
    }

    /// A reference to the value of an initialised singleton.
    pub fn inner(&self) -> (r: &T)
        requires
            self@ is Some,
        ensures
            self@ == Some(*r),
    {
        self.inner.as_ref().unwrap()
    }

    /// A mutable reference to the value of an initialised singleton.
    pub fn inner_mut(&mut self) -> (r: &mut T)
        requires
            old(self)@ is Some,
        ensures
            old(self)@ == Some(*r),
            final(self)@ == Some(*final(r)),
    {
        match &mut self.inner {
            Some(v) => v,
            None => {
                proof {
                    assert(false);
                }
                vstd::pervasive::unreached()
            },
        }
    }

    /// Converts from `Singleton<T>` to `Singleton<&T>`.
    pub fn as_ref(&self) -> (r: Singleton<&T>)
        ensures
            r@ == match self@ {
                Some(v) => Some(&v),
                None => None::<&T>,
            },
    {
        Singleton { inner: self.inner.as_ref() }
    }

    /// Converts from `Singleton<T>` to `Singleton<&mut T>`.
    pub fn as_mut(&mut self) -> (r: Singleton<&mut T>)
        ensures
            match r@ {
                Some(v) => old(self)@ == Some(*v) && final(self)@ == Some(*final(v)),
                None => old(self)@ == None::<T> && final(self)@ == None::<T>,
            },
    {
        Singleton { inner: self.inner.as_mut() }
    }

    /// Applies `f` to the stored value, if there is one.
    pub fn map<F: FnMut(T) -> U, U>(self, mut f: F) -> (r: Singleton<U>)
        requires
            self@ is Some ==> f.requires((self@->Some_0,)),
        ensures
            match self@ {
                Some(v) => r@ is Some && f.ensures((v,), r@->Some_0),
                None => r@ is None,
            },
    {
        match self.inner {
            Some(t) => Singleton { inner: Some(f(t)) },
            None => Singleton { inner: None },
        }
    }

    /// Like `map`, but changes `self` in place.
    pub fn map_in_place<F: FnMut(T) -> T>(&mut self, mut f: F)
        requires
            old(self)@ is Some ==> f.requires((old(self)@->Some_0,)),
        ensures
            match old(self)@ {
                Some(v) => final(self)@ is Some && f.ensures((v,), final(self)@->Some_0),
                None => final(self)@ is None,
            },
    {
        let inner = match self.inner.take() {
            Some(t) => Some(f(t)),
            None => None,
        };
        self.inner = inner;
    }
}

impl<T: Clone> Singleton<&T> {
    /// Maps a `Singleton<&T>` to a `Singleton<T>` by cloning the contents.
    pub fn cloned(&self) -> (r: Singleton<T>)
        ensures
            match self@ {
                Some(v) => r@ is Some && cloned(*v, r@->Some_0),
                None => r@ is None,
            },
    {
        match self.inner {
            Some(v) => Singleton { inner: Some(v.clone()) },
            None => Singleton { inner: None },
        }
    }
}

impl<T: Copy> Singleton<&T> {
    /// Maps a `Singleton<&T>` to a `Singleton<T>` by copying the contents.
    pub fn copied(&self) -> (r: Singleton<T>)
        ensures
            r@ == match self@ {
                Some(v) => Some(*v),
                None => None::<T>,
            },
    {
        match self.inner {
            Some(v) => Singleton { inner: Some(*v) },
            None => Singleton { inner: None },
        }
    }
}

} // verus!
