use std::ops::{Add, Div, Mul, Sub};
use vstd::prelude::*;
use vstd::std_specs::ops::{AddSpec, DivSpec, MulSpec, SubSpec};

verus! {

/// Whether a clone of a `T` is always equal to the value it was made from.
pub open spec fn clone_is_faithful<T: Clone>() -> bool {
    forall|a: T, b: T| cloned(a, b) ==> a == b
}

/// Whether the operators that `lerp` uses accept its operands, and return what
/// their specifications name.
pub open spec fn lerp_defined<A, B, C, D, T>(a: A, b: B, t: T) -> bool where
    A: Sub<B, Output = C>,
    B: Clone + Add<D>,
    C: Mul<T, Output = D>,
 {
    &&& clone_is_faithful::<B>()
    &&& <A as SubSpec<B>>::obeys_sub_spec()
    &&& <C as MulSpec<T>>::obeys_mul_spec()
    &&& <B as AddSpec<D>>::obeys_add_spec()
    &&& a.sub_req(b)
    &&& a.sub_spec(b).mul_req(t)
    &&& b.add_req(a.sub_spec(b).mul_spec(t))
}

/// Linear interpolation: `b + (a - b) * t`.
pub fn lerp<A, B, C, D, T>(a: A, b: B, t: T) -> (r: B::Output) where
    A: Sub<B, Output = C>,
    B: Clone + Add<D>,
    C: Mul<T, Output = D>,

    requires
        lerp_defined(a, b, t),
    ensures
        r == b.add_spec(a.sub_spec(b).mul_spec(t)),
{
    let base = b.clone();
    assert(cloned(b, base));
    base + (a - b) * t
}

/// A linear map of one range onto another.
pub struct MapRange<T> {
    before_range_start: T,
    before_range_len: T,
    after_range_start: T,
    after_range_len: T,
}

impl<T> MapRange<T> {
    /// Where the range that is mapped starts.
    pub closed spec fn before_start(&self) -> T {
        self.before_range_start
    }

    /// How long the range that is mapped is.
    pub closed spec fn before_len(&self) -> T {
        self.before_range_len
    }

    /// Where the range that is mapped onto starts.
    pub closed spec fn after_start(&self) -> T {
        self.after_range_start
    }

    /// How long the range that is mapped onto is.
    pub closed spec fn after_len(&self) -> T {
        self.after_range_len
    }

    /// Whether the operators of `T` accept every operation that mapping
    /// `point` is made of, and return what their specifications name.
    pub open spec fn eval_defined(&self, point: T) -> bool where
        T: Add<Output = T> + Sub<Output = T> + Mul<Output = T> + Div<Output = T>,
     {
        &&& <T as AddSpec>::obeys_add_spec()
        &&& <T as SubSpec>::obeys_sub_spec()
        &&& <T as MulSpec>::obeys_mul_spec()
        &&& <T as DivSpec>::obeys_div_spec()
        &&& point.sub_req(self.before_start())
        &&& point.sub_spec(self.before_start()).div_req(self.before_len())
        &&& self.after_len().mul_req(
            point.sub_spec(self.before_start()).div_spec(self.before_len()),
        )
        &&& self.after_len().mul_spec(
            point.sub_spec(self.before_start()).div_spec(self.before_len()),
        ).add_req(self.after_start())
    }

    /// The image of `point`: its share of the first range, laid onto the
    /// second: `after_len * ((point - before_start) / before_len) + after_start`.
    pub open spec fn eval_spec(&self, point: T) -> T where
        T: Add<Output = T> + Sub<Output = T> + Mul<Output = T> + Div<Output = T>,
     {
        self.after_len().mul_spec(
            point.sub_spec(self.before_start()).div_spec(self.before_len()),
        ).add_spec(self.after_start())
    }

    /// The map that takes the range from `before.0` to `before.1` onto the
    /// range from `after.0` to `after.1`.
    pub fn from_start_end(before: (T, T), after: (T, T)) -> (r: Self) where
        T: Sub<Output = T> + Clone,

        requires
            clone_is_faithful::<T>(),
            <T as SubSpec>::obeys_sub_spec(),
            before.1.sub_req(before.0),
            after.1.sub_req(after.0),
        ensures
            r.before_start() == before.0,
            r.before_len() == before.1.sub_spec(before.0),
            r.after_start() == after.0,
            r.after_len() == after.1.sub_spec(after.0),
    {
        let before_start = before.0.clone();
        let after_start = after.0.clone();
        assert(cloned(before.0, before_start) && cloned(after.0, after_start));
        Self {
            before_range_start: before_start,
            before_range_len: before.1 - before.0,
            after_range_start: after_start,
            after_range_len: after.1 - after.0,
        }
    }

    /// The map that takes the range of length `before.1` from `before.0` onto
    /// the range of length `after.1` from `after.0`.
    pub fn from_start_len(before: (T, T), after: (T, T)) -> (r: Self)
        ensures
            r.before_start() == before.0,
            r.before_len() == before.1,
            r.after_start() == after.0,
            r.after_len() == after.1,
    {
        Self {
            before_range_start: before.0,
            before_range_len: before.1,
            after_range_start: after.0,
            after_range_len: after.1,
        }
    }

    /// Maps a point. The map is kept, at the price of `T: Clone`.
    pub fn eval(&self, point: T) -> (r: T) where
        T: Add<Output = T> + Sub<Output = T> + Mul<Output = T> + Div<Output = T> + Clone,

        requires
            clone_is_faithful::<T>(),
            self.eval_defined(point),
        ensures
            r == self.eval_spec(point),
    {
        let before_start = self.before_range_start.clone();
        let before_len = self.before_range_len.clone();
        let after_len = self.after_range_len.clone();
        let after_start = self.after_range_start.clone();
        assert(cloned(self.before_range_start, before_start) && cloned(
            self.before_range_len,
            before_len,
        ) && cloned(self.after_range_len, after_len) && cloned(
            self.after_range_start,
            after_start,
        ));
        let perc = (point - before_start) / before_len;
        after_len * perc + after_start
    }

    /// Maps a point. The map is used up, and `T` need not be `Clone`.
    pub fn into_eval(self, point: T) -> (r: T) where
        T: Add<Output = T> + Sub<Output = T> + Mul<Output = T> + Div<Output = T>,

        requires
            self.eval_defined(point),
        ensures
            r == self.eval_spec(point),
    {
        let perc = (point - self.before_range_start) / self.before_range_len;
        self.after_range_len * perc + self.after_range_start
    }
}

} // verus!
