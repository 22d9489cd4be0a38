use crate::vec_zip::{min, reversed};
use vstd::prelude::*;

verus! {

/// Pairs the items of two `Vec`s from their ends: the last with the last, and
/// so on towards the front, as far as both have items. The pairs come in the
/// order of the items.
pub fn zip<T, U>(a: Vec<T>, b: Vec<U>) -> (r: Vec<(T, U)>)
    ensures
        r@.len() == min(a@.len() as int, b@.len() as int),
        forall|at: int|
            0 <= at < r@.len() ==> r@[at] == (
                a@[a@.len() - r@.len() + at],
                b@[b@.len() - r@.len() + at],
            ),
{
    let mut a = a;
    let mut b = b;
    let ghost a0 = a@;
    let ghost b0 = b@;
    let mut rev: Vec<(T, U)> = Vec::new();
    while a.len() > 0 && b.len() > 0
        invariant
            a@ == a0.subrange(0, a@.len() as int),
            b@ == b0.subrange(0, b@.len() as int),
            rev@.len() + a@.len() == a0.len(),
            rev@.len() + b@.len() == b0.len(),
            forall|k: int|
                0 <= k < rev@.len() ==> rev@[k] == (a0[a0.len() - 1 - k], b0[b0.len() - 1 - k]),
        decreases a.len(),
    {
        let x = a.pop().unwrap();
        let y = b.pop().unwrap();
        rev.push((x, y));
    }
    reversed(rev)
}

/// Makes two `Vec`s out of one `Vec` of pairs.
pub fn unzip<T, U>(v: Vec<(T, U)>) -> (r: (Vec<T>, Vec<U>))
    ensures
        r.0@.len() == v@.len(),
        r.1@.len() == v@.len(),
        forall|at: int| 0 <= at < v@.len() ==> (#[trigger] r.0@[at]) == v@[at].0,
        forall|at: int| 0 <= at < v@.len() ==> (#[trigger] r.1@[at]) == v@[at].1,
{
    crate::vec_zip::unzip(v)
}

/// `zip` as a method of the first `Vec`.
pub trait VecZipTrait<T, U> {
    fn zip(self, other: Vec<U>) -> Vec<(T, U)>;
}

/// `unzip` as a method of the `Vec` of pairs.
pub trait VecUnzipTrait<T, U> {
    fn unzip(self) -> (Vec<T>, Vec<U>);
}

impl<T, U> VecZipTrait<T, U> for Vec<T> {
    fn zip(self, other: Vec<U>) -> (r: Vec<(T, U)>)
        ensures
            r@.len() == min(self@.len() as int, other@.len() as int),
            forall|at: int|
                0 <= at < r@.len() ==> r@[at] == (
                    self@[self@.len() - r@.len() + at],
                    other@[other@.len() - r@.len() + at],
                ),
    {
        zip(self, other)
    }
}

impl<T, U> VecUnzipTrait<T, U> for Vec<(T, U)> {
    fn unzip(self) -> (r: (Vec<T>, Vec<U>))
        ensures
            r.0@.len() == self@.len(),
            r.1@.len() == self@.len(),
            forall|at: int| 0 <= at < self@.len() ==> (#[trigger] r.0@[at]) == self@[at].0,
            forall|at: int| 0 <= at < self@.len() ==> (#[trigger] r.1@[at]) == self@[at].1,
    {
        unzip(self)
    }
}

} // verus!
