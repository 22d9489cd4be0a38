use vstd::prelude::*;

verus! {

/// The convergence tolerance of the root iteration for one numeric type `T`,
/// together with the number of iterations that a root may take.
///
/// The entry of a type is absent until it is set, and a set overwrites: there
/// is no protection against a second initialisation. The iteration limit
/// starts at `u64::MAX`, which no computation reaches in practice.
pub struct PowPrecision<T> {
    value: Option<T>,
    limit: u64,
}

impl<T> PowPrecision<T> {
    /// The stored precision, if one was set.
    pub closed spec fn spec_get(&self) -> Option<T> {
        self.value
    }

    /// The most iterations that a root may take.
    pub closed spec fn spec_iteration_limit(&self) -> u64 {
        self.limit
    }

    /// The registry after `t` was set: `t` is stored, the limit is kept.
    pub closed spec fn after_set(self, t: T) -> Self {
        PowPrecision { value: Some(t), limit: self.limit }
    }

    /// A registry with no precision set.
    pub fn new() -> (r: Self)
        ensures
            r.spec_get() == None::<T>,
            r.spec_iteration_limit() == u64::MAX,
    {
        PowPrecision { value: None, limit: u64::MAX }
    }

    /// Stores `t` and returns the value that was stored before, if any.
    pub fn set(&mut self, t: T) -> (r: Option<T>)
        ensures
            r == old(self).spec_get(),
            *final(self) == old(self).after_set(t),
            final(self).spec_get() == Some(t),
            final(self).spec_iteration_limit() == old(self).spec_iteration_limit(),
    {
        let previous = self.value.take();
        self.value = Some(t);
        previous
    }

    /// The stored precision, if one was set.
    pub fn get(&self) -> (r: Option<&T>)
        ensures
            r == match self.spec_get() {
                Some(v) => Some(&v),
                None => None::<&T>,
            },
    {
        self.value.as_ref()
    }

    /// The stored precision for adjustment in place, if one was set.
    pub fn get_mut(&mut self) -> (r: Option<&mut T>)
        ensures
            match r {
                Some(v) => old(self).spec_get() == Some(*v) && final(self).spec_get() == Some(
                    *final(v),
                ),
                None => old(self).spec_get() == None::<T> && final(self).spec_get() == None::<T>,
            },
            final(self).spec_iteration_limit() == old(self).spec_iteration_limit(),
    {
        self.value.as_mut()
    }

    /// The most iterations that a root may take.
    pub fn iteration_limit(&self) -> (r: u64)
        ensures
            r == self.spec_iteration_limit(),
    {
        self.limit
    }

    /// Bounds the iterations that a root may take.
    pub fn set_iteration_limit(&mut self, limit: u64)
        ensures
            final(self).spec_iteration_limit() == limit,
            final(self).spec_get() == old(self).spec_get(),
    {
        self.limit = limit;
    }

    /// What was set is what is stored, and a set keeps the iteration limit.
    pub proof fn lemma_after_set(self, t: T)
        ensures
            self.after_set(t).spec_get() == Some(t),
            self.after_set(t).spec_iteration_limit() == self.spec_iteration_limit(),
    {
    }

    /// Of two sets in a row, the second returns the value of the first as the
    /// previous one, and what is stored afterwards is the value of the second.
    pub proof fn lemma_set_twice(self, first: T, second: T)
        ensures
            self.after_set(first).spec_get() == Some(first),
            self.after_set(first).after_set(second).spec_get() == Some(second),
    {
    }
}

} // verus!
