use vstd::prelude::*;

verus! {

/// The smaller of two lengths.
pub open spec fn min(x: int, y: int) -> int {
    if x <= y {
        x
    } else {
        y
    }
}

/// The items of `v` in the opposite order.
pub fn reversed<T>(v: Vec<T>) -> (r: Vec<T>)
    ensures
        r@ == v@.reverse(),
{
    let mut v = v;
    let ghost all = v@;
    let mut r: Vec<T> = Vec::new();
    while v.len() > 0
        invariant
            v@ == all.subrange(0, v@.len() as int),
            v@.len() + r@.len() == all.len(),
            forall|k: int| 0 <= k < r@.len() ==> r@[k] == all[all.len() - 1 - k],
        decreases v.len(),
    {
        let x = v.pop().unwrap();
        r.push(x);
    }
    assert(r@ =~= all.reverse());
    r
}

/// Makes one `Vec` of pairs out of two `Vec`s: the item at each index is the
/// pair of their items at that index. The result is as long as the shorter.
pub fn zip<A, B>(a: Vec<A>, b: Vec<B>) -> (r: Vec<(A, B)>)
    ensures
        r@.len() == min(a@.len() as int, b@.len() as int),
        forall|at: int| 0 <= at < r@.len() ==> r@[at] == (a@[at], b@[at]),
{
    let mut a = a;
    let mut b = b;
    let ghost a0 = a@;
    let ghost b0 = b@;
    let mut n: usize = a.len();
    if b.len() < n {
        n = b.len();
    }
    a.truncate(n);
    b.truncate(n);
    let mut rev: Vec<(A, B)> = Vec::new();
    while a.len() > 0
        invariant
            n == min(a0.len() as int, b0.len() as int),
            a@ == a0.subrange(0, a@.len() as int),
            b@ == b0.subrange(0, b@.len() as int),
            b@.len() == a@.len(),
            rev@.len() + a@.len() == n,
            forall|k: int| 0 <= k < rev@.len() ==> rev@[k] == (a0[n - 1 - k], b0[n - 1 - k]),
        decreases a.len(),
    {
        let x_a = a.pop().unwrap();
        let x_b = b.pop().unwrap();
        rev.push((x_a, x_b));
    }
    reversed(rev)
}

/// Makes two `Vec`s out of one `Vec` of pairs: each holds, at every index,
/// one side of the pair at that index.
pub fn unzip<A, B>(v: Vec<(A, B)>) -> (r: (Vec<A>, Vec<B>))
    ensures
        r.0@.len() == v@.len(),
        r.1@.len() == v@.len(),
        forall|at: int| 0 <= at < v@.len() ==> (#[trigger] r.0@[at]) == v@[at].0,
        forall|at: int| 0 <= at < v@.len() ==> (#[trigger] r.1@[at]) == v@[at].1,
{
    let mut v = v;
    let ghost all = v@;
    let mut rev_a: Vec<A> = Vec::new();
    let mut rev_b: Vec<B> = Vec::new();
    while v.len() > 0
        invariant
            v@ == all.subrange(0, v@.len() as int),
            rev_a@.len() + v@.len() == all.len(),
            rev_b@.len() + v@.len() == all.len(),
            forall|k: int|
                0 <= k < rev_a@.len() ==> (#[trigger] rev_a@[k]) == all[all.len() - 1 - k].0,
            forall|k: int|
                0 <= k < rev_b@.len() ==> (#[trigger] rev_b@[k]) == all[all.len() - 1 - k].1,
        decreases v.len(),
    {
        let (x_a, x_b) = v.pop().unwrap();
        rev_a.push(x_a);
        rev_b.push(x_b);
    }
    (reversed(rev_a), reversed(rev_b))
}

/// Like `zip`, with 3 `Vec`s.
pub fn zip3<A, B, C>(a: Vec<A>, b: Vec<B>, c: Vec<C>) -> (r: Vec<(A, B, C)>)
    ensures
        r@.len() <= a@.len(),
        r@.len() <= b@.len(),
        r@.len() <= c@.len(),
        r@.len() == a@.len() || r@.len() == b@.len() || r@.len() == c@.len(),
        forall|at: int|
            0 <= at < r@.len() ==> r@[at] == (a@[at], b@[at], c@[at]),
{
    let tail = zip(b, c);
    let mut pairs = zip(a, tail);
    let ghost all = pairs@;
    let mut rev: Vec<(A, B, C)> = Vec::new();
    while pairs.len() > 0
        invariant
            pairs@ == all.subrange(0, pairs@.len() as int),
            rev@.len() + pairs@.len() == all.len(),
            forall|k: int|
                0 <= k < rev@.len() ==> rev@[k] == (
                    all[all.len() - 1 - k].0,
                    all[all.len() - 1 - k].1.0,
                    all[all.len() - 1 - k].1.1,
                ),
        decreases pairs.len(),
    {
        let (head, rest) = pairs.pop().unwrap();
        rev.push((head, rest.0, rest.1));
    }
    reversed(rev)
}

/// Like `unzip`, with 3 `Vec`s.
pub fn unzip3<A, B, C>(v: Vec<(A, B, C)>) -> (r: (Vec<A>, Vec<B>, Vec<C>))
    ensures
        r.0@.len() == v@.len(),
        r.1@.len() == v@.len(),
        r.2@.len() == v@.len(),
        forall|at: int| 0 <= at < v@.len() ==> (#[trigger] r.0@[at]) == v@[at].0,
        forall|at: int| 0 <= at < v@.len() ==> (#[trigger] r.1@[at]) == v@[at].1,
        forall|at: int| 0 <= at < v@.len() ==> (#[trigger] r.2@[at]) == v@[at].2,
{
    let mut v = v;
    let ghost all = v@;
    let mut rev_a: Vec<A> = Vec::new();
    let mut rev_b: Vec<B> = Vec::new();
    let mut rev_c: Vec<C> = Vec::new();
    while v.len() > 0
        invariant
            v@ == all.subrange(0, v@.len() as int),
            rev_a@.len() + v@.len() == all.len(),
            rev_b@.len() + v@.len() == all.len(),
            rev_c@.len() + v@.len() == all.len(),
            forall|k: int|
                0 <= k < rev_a@.len() ==> (#[trigger] rev_a@[k]) == all[all.len() - 1 - k].0,
            forall|k: int|
                0 <= k < rev_b@.len() ==> (#[trigger] rev_b@[k]) == all[all.len() - 1 - k].1,
            forall|k: int|
                0 <= k < rev_c@.len() ==> (#[trigger] rev_c@[k]) == all[all.len() - 1 - k].2,
        decreases v.len(),
    {
        let (x_a, x_b, x_c) = v.pop().unwrap();
        rev_a.push(x_a);
        rev_b.push(x_b);
        rev_c.push(x_c);
    }
    (reversed(rev_a), reversed(rev_b), reversed(rev_c))
}

/// Like `zip`, with 4 `Vec`s.
pub fn zip4<A, B, C, D>(a: Vec<A>, b: Vec<B>, c: Vec<C>, d: Vec<D>) -> (r: Vec<(A, B, C, D)>)
    ensures
        r@.len() <= a@.len(),
        r@.len() <= b@.len(),
        r@.len() <= c@.len(),
        r@.len() <= d@.len(),
        r@.len() == a@.len() || r@.len() == b@.len() || r@.len() == c@.len()
            || r@.len() == d@.len(),
        forall|at: int|
            0 <= at < r@.len() ==> r@[at] == (a@[at], b@[at], c@[at], d@[at]),
{
    let tail = zip3(b, c, d);
    let mut pairs = zip(a, tail);
    let ghost all = pairs@;
    let mut rev: Vec<(A, B, C, D)> = Vec::new();
    while pairs.len() > 0
        invariant
            pairs@ == all.subrange(0, pairs@.len() as int),
            rev@.len() + pairs@.len() == all.len(),
            forall|k: int|
                0 <= k < rev@.len() ==> rev@[k] == (
                    all[all.len() - 1 - k].0,
                    all[all.len() - 1 - k].1.0,
                    all[all.len() - 1 - k].1.1,
                    all[all.len() - 1 - k].1.2,
                ),
        decreases pairs.len(),
    {
        let (head, rest) = pairs.pop().unwrap();
        rev.push((head, rest.0, rest.1, rest.2));
    }
    reversed(rev)
}

/// Like `unzip`, with 4 `Vec`s.
pub fn unzip4<A, B, C, D>(v: Vec<(A, B, C, D)>) -> (r: (Vec<A>, Vec<B>, Vec<C>, Vec<D>))
    ensures
        r.0@.len() == v@.len(),
        r.1@.len() == v@.len(),
        r.2@.len() == v@.len(),
        r.3@.len() == v@.len(),
        forall|at: int| 0 <= at < v@.len() ==> (#[trigger] r.0@[at]) == v@[at].0,
        forall|at: int| 0 <= at < v@.len() ==> (#[trigger] r.1@[at]) == v@[at].1,
        forall|at: int| 0 <= at < v@.len() ==> (#[trigger] r.2@[at]) == v@[at].2,
        forall|at: int| 0 <= at < v@.len() ==> (#[trigger] r.3@[at]) == v@[at].3,
{
    let mut v = v;
    let ghost all = v@;
    let mut rev_a: Vec<A> = Vec::new();
    let mut rev_b: Vec<B> = Vec::new();
    let mut rev_c: Vec<C> = Vec::new();
    let mut rev_d: Vec<D> = Vec::new();
    while v.len() > 0
        invariant
            v@ == all.subrange(0, v@.len() as int),
            rev_a@.len() + v@.len() == all.len(),
            rev_b@.len() + v@.len() == all.len(),
            rev_c@.len() + v@.len() == all.len(),
            rev_d@.len() + v@.len() == all.len(),
            forall|k: int|
                0 <= k < rev_a@.len() ==> (#[trigger] rev_a@[k]) == all[all.len() - 1 - k].0,
            forall|k: int|
                0 <= k < rev_b@.len() ==> (#[trigger] rev_b@[k]) == all[all.len() - 1 - k].1,
            forall|k: int|
                0 <= k < rev_c@.len() ==> (#[trigger] rev_c@[k]) == all[all.len() - 1 - k].2,
            forall|k: int|
                0 <= k < rev_d@.len() ==> (#[trigger] rev_d@[k]) == all[all.len() - 1 - k].3,
        decreases v.len(),
    {
        let (x_a, x_b, x_c, x_d) = v.pop().unwrap();
        rev_a.push(x_a);
        rev_b.push(x_b);
        rev_c.push(x_c);
        rev_d.push(x_d);
    }
    (reversed(rev_a), reversed(rev_b), reversed(rev_c), reversed(rev_d))
}

/// Like `zip`, with 5 `Vec`s.
pub fn zip5<A, B, C, D, E>(
    a: Vec<A>,
    b: Vec<B>,
    c: Vec<C>,
    d: Vec<D>,
    e: Vec<E>,
) -> (r: Vec<(A, B, C, D, E)>)
    ensures
        r@.len() <= a@.len(),
        r@.len() <= b@.len(),
        r@.len() <= c@.len(),
        r@.len() <= d@.len(),
        r@.len() <= e@.len(),
        r@.len() == a@.len() || r@.len() == b@.len() || r@.len() == c@.len()
            || r@.len() == d@.len() || r@.len() == e@.len(),
        forall|at: int|
            0 <= at < r@.len() ==> r@[at] == (a@[at], b@[at], c@[at], d@[at], e@[at]),
{
    let tail = zip4(b, c, d, e);
    let mut pairs = zip(a, tail);
    let ghost all = pairs@;
    let mut rev: Vec<(A, B, C, D, E)> = Vec::new();
    while pairs.len() > 0
        invariant
            pairs@ == all.subrange(0, pairs@.len() as int),
            rev@.len() + pairs@.len() == all.len(),
            forall|k: int|
                0 <= k < rev@.len() ==> rev@[k] == (
                    all[all.len() - 1 - k].0,
                    all[all.len() - 1 - k].1.0,
                    all[all.len() - 1 - k].1.1,
                    all[all.len() - 1 - k].1.2,
                    all[all.len() - 1 - k].1.3,
                ),
        decreases pairs.len(),
    {
        let (head, rest) = pairs.pop().unwrap();
        rev.push((head, rest.0, rest.1, rest.2, rest.3));
    }
    reversed(rev)
}

/// Like `unzip`, with 5 `Vec`s.
pub fn unzip5<A, B, C, D, E>(v: Vec<(A, B, C, D, E)>) -> (r: (
    Vec<A>,
    Vec<B>,
    Vec<C>,
    Vec<D>,
    Vec<E>,
))
    ensures
        r.0@.len() == v@.len(),
        r.1@.len() == v@.len(),
        r.2@.len() == v@.len(),
        r.3@.len() == v@.len(),
        r.4@.len() == v@.len(),
        forall|at: int| 0 <= at < v@.len() ==> (#[trigger] r.0@[at]) == v@[at].0,
        forall|at: int| 0 <= at < v@.len() ==> (#[trigger] r.1@[at]) == v@[at].1,
        forall|at: int| 0 <= at < v@.len() ==> (#[trigger] r.2@[at]) == v@[at].2,
        forall|at: int| 0 <= at < v@.len() ==> (#[trigger] r.3@[at]) == v@[at].3,
        forall|at: int| 0 <= at < v@.len() ==> (#[trigger] r.4@[at]) == v@[at].4,
{
    let mut v = v;
    let ghost all = v@;
    let mut rev_a: Vec<A> = Vec::new();
    let mut rev_b: Vec<B> = Vec::new();
    let mut rev_c: Vec<C> = Vec::new();
    let mut rev_d: Vec<D> = Vec::new();
    let mut rev_e: Vec<E> = Vec::new();
    while v.len() > 0
        invariant
            v@ == all.subrange(0, v@.len() as int),
            rev_a@.len() + v@.len() == all.len(),
            rev_b@.len() + v@.len() == all.len(),
            rev_c@.len() + v@.len() == all.len(),
            rev_d@.len() + v@.len() == all.len(),
            rev_e@.len() + v@.len() == all.len(),
            forall|k: int|
                0 <= k < rev_a@.len() ==> (#[trigger] rev_a@[k]) == all[all.len() - 1 - k].0,
            forall|k: int|
                0 <= k < rev_b@.len() ==> (#[trigger] rev_b@[k]) == all[all.len() - 1 - k].1,
            forall|k: int|
                0 <= k < rev_c@.len() ==> (#[trigger] rev_c@[k]) == all[all.len() - 1 - k].2,
            forall|k: int|
                0 <= k < rev_d@.len() ==> (#[trigger] rev_d@[k]) == all[all.len() - 1 - k].3,
            forall|k: int|
                0 <= k < rev_e@.len() ==> (#[trigger] rev_e@[k]) == all[all.len() - 1 - k].4,
        decreases v.len(),
    {
        let (x_a, x_b, x_c, x_d, x_e) = v.pop().unwrap();
        rev_a.push(x_a);
        rev_b.push(x_b);
        rev_c.push(x_c);
        rev_d.push(x_d);
        rev_e.push(x_e);
    }
    (reversed(rev_a), reversed(rev_b), reversed(rev_c), reversed(rev_d), reversed(rev_e))
}

/// Like `zip`, with 6 `Vec`s.
pub fn zip6<A, B, C, D, E, F>(
    a: Vec<A>,
    b: Vec<B>,
    c: Vec<C>,
    d: Vec<D>,
    e: Vec<E>,
    f: Vec<F>,
) -> (r: Vec<(A, B, C, D, E, F)>)
    ensures
        r@.len() <= a@.len(),
        r@.len() <= b@.len(),
        r@.len() <= c@.len(),
        r@.len() <= d@.len(),
        r@.len() <= e@.len(),
        r@.len() <= f@.len(),
        r@.len() == a@.len() || r@.len() == b@.len() || r@.len() == c@.len()
            || r@.len() == d@.len() || r@.len() == e@.len() || r@.len() == f@.len(),
        forall|at: int|
            0 <= at < r@.len() ==> r@[at] == (a@[at], b@[at], c@[at], d@[at], e@[at], f@[at]),
{
    let tail = zip5(b, c, d, e, f);
    let mut pairs = zip(a, tail);
    let ghost all = pairs@;
    let mut rev: Vec<(A, B, C, D, E, F)> = Vec::new();
    while pairs.len() > 0
        invariant
            pairs@ == all.subrange(0, pairs@.len() as int),
            rev@.len() + pairs@.len() == all.len(),
            forall|k: int|
                0 <= k < rev@.len() ==> rev@[k] == (
                    all[all.len() - 1 - k].0,
                    all[all.len() - 1 - k].1.0,
                    all[all.len() - 1 - k].1.1,
                    all[all.len() - 1 - k].1.2,
                    all[all.len() - 1 - k].1.3,
                    all[all.len() - 1 - k].1.4,
                ),
        decreases pairs.len(),
    {
        let (head, rest) = pairs.pop().unwrap();
        rev.push((head, rest.0, rest.1, rest.2, rest.3, rest.4));
    }
    reversed(rev)
}

/// Like `unzip`, with 6 `Vec`s.
pub fn unzip6<A, B, C, D, E, F>(v: Vec<(A, B, C, D, E, F)>) -> (r: (
    Vec<A>,
    Vec<B>,
    Vec<C>,
    Vec<D>,
    Vec<E>,
    Vec<F>,
))
    ensures
        r.0@.len() == v@.len(),
        r.1@.len() == v@.len(),
        r.2@.len() == v@.len(),
        r.3@.len() == v@.len(),
        r.4@.len() == v@.len(),
        r.5@.len() == v@.len(),
        forall|at: int| 0 <= at < v@.len() ==> (#[trigger] r.0@[at]) == v@[at].0,
        forall|at: int| 0 <= at < v@.len() ==> (#[trigger] r.1@[at]) == v@[at].1,
        forall|at: int| 0 <= at < v@.len() ==> (#[trigger] r.2@[at]) == v@[at].2,
        forall|at: int| 0 <= at < v@.len() ==> (#[trigger] r.3@[at]) == v@[at].3,
        forall|at: int| 0 <= at < v@.len() ==> (#[trigger] r.4@[at]) == v@[at].4,
        forall|at: int| 0 <= at < v@.len() ==> (#[trigger] r.5@[at]) == v@[at].5,
{
    let mut v = v;
    let ghost all = v@;
    let mut rev_a: Vec<A> = Vec::new();
    let mut rev_b: Vec<B> = Vec::new();
    let mut rev_c: Vec<C> = Vec::new();
    let mut rev_d: Vec<D> = Vec::new();
    let mut rev_e: Vec<E> = Vec::new();
    let mut rev_f: Vec<F> = Vec::new();
    while v.len() > 0
        invariant
            v@ == all.subrange(0, v@.len() as int),
            rev_a@.len() + v@.len() == all.len(),
            rev_b@.len() + v@.len() == all.len(),
            rev_c@.len() + v@.len() == all.len(),
            rev_d@.len() + v@.len() == all.len(),
            rev_e@.len() + v@.len() == all.len(),
            rev_f@.len() + v@.len() == all.len(),
            forall|k: int|
                0 <= k < rev_a@.len() ==> (#[trigger] rev_a@[k]) == all[all.len() - 1 - k].0,
            forall|k: int|
                0 <= k < rev_b@.len() ==> (#[trigger] rev_b@[k]) == all[all.len() - 1 - k].1,
            forall|k: int|
                0 <= k < rev_c@.len() ==> (#[trigger] rev_c@[k]) == all[all.len() - 1 - k].2,
            forall|k: int|
                0 <= k < rev_d@.len() ==> (#[trigger] rev_d@[k]) == all[all.len() - 1 - k].3,
            forall|k: int|
                0 <= k < rev_e@.len() ==> (#[trigger] rev_e@[k]) == all[all.len() - 1 - k].4,
            forall|k: int|
                0 <= k < rev_f@.len() ==> (#[trigger] rev_f@[k]) == all[all.len() - 1 - k].5,
        decreases v.len(),
    {
        let (x_a, x_b, x_c, x_d, x_e, x_f) = v.pop().unwrap();
        rev_a.push(x_a);
        rev_b.push(x_b);
        rev_c.push(x_c);
        rev_d.push(x_d);
        rev_e.push(x_e);
        rev_f.push(x_f);
    }
    (
        reversed(rev_a),
        reversed(rev_b),
        reversed(rev_c),
        reversed(rev_d),
        reversed(rev_e),
        reversed(rev_f),
    )
}

/// Like `zip`, with 7 `Vec`s.
pub fn zip7<A, B, C, D, E, F, G>(
    a: Vec<A>,
    b: Vec<B>,
    c: Vec<C>,
    d: Vec<D>,
    e: Vec<E>,
    f: Vec<F>,
    g: Vec<G>,
) -> (r: Vec<(A, B, C, D, E, F, G)>)
    ensures
        r@.len() <= a@.len(),
        r@.len() <= b@.len(),
        r@.len() <= c@.len(),
        r@.len() <= d@.len(),
        r@.len() <= e@.len(),
        r@.len() <= f@.len(),
        r@.len() <= g@.len(),
        r@.len() == a@.len() || r@.len() == b@.len() || r@.len() == c@.len()
            || r@.len() == d@.len() || r@.len() == e@.len() || r@.len() == f@.len()
            || r@.len() == g@.len(),
        forall|at: int|
            0 <= at < r@.len() ==> r@[at] == (
                a@[at],
                b@[at],
                c@[at],
                d@[at],
                e@[at],
                f@[at],
                g@[at],
            ),
{
    let tail = zip6(b, c, d, e, f, g);
    let mut pairs = zip(a, tail);
    let ghost all = pairs@;
    let mut rev: Vec<(A, B, C, D, E, F, G)> = Vec::new();
    while pairs.len() > 0
        invariant
            pairs@ == all.subrange(0, pairs@.len() as int),
            rev@.len() + pairs@.len() == all.len(),
            forall|k: int|
                0 <= k < rev@.len() ==> rev@[k] == (
                    all[all.len() - 1 - k].0,
                    all[all.len() - 1 - k].1.0,
                    all[all.len() - 1 - k].1.1,
                    all[all.len() - 1 - k].1.2,
                    all[all.len() - 1 - k].1.3,
                    all[all.len() - 1 - k].1.4,
                    all[all.len() - 1 - k].1.5,
                ),
        decreases pairs.len(),
    {
        let (head, rest) = pairs.pop().unwrap();
        rev.push((head, rest.0, rest.1, rest.2, rest.3, rest.4, rest.5));
    }
    reversed(rev)
}

/// Like `unzip`, with 7 `Vec`s.
pub fn unzip7<A, B, C, D, E, F, G>(v: Vec<(A, B, C, D, E, F, G)>) -> (r: (
    Vec<A>,
    Vec<B>,
    Vec<C>,
    Vec<D>,
    Vec<E>,
    Vec<F>,
    Vec<G>,
))
    ensures
        r.0@.len() == v@.len(),
        r.1@.len() == v@.len(),
        r.2@.len() == v@.len(),
        r.3@.len() == v@.len(),
        r.4@.len() == v@.len(),
        r.5@.len() == v@.len(),
        r.6@.len() == v@.len(),
        forall|at: int| 0 <= at < v@.len() ==> (#[trigger] r.0@[at]) == v@[at].0,
        forall|at: int| 0 <= at < v@.len() ==> (#[trigger] r.1@[at]) == v@[at].1,
        forall|at: int| 0 <= at < v@.len() ==> (#[trigger] r.2@[at]) == v@[at].2,
        forall|at: int| 0 <= at < v@.len() ==> (#[trigger] r.3@[at]) == v@[at].3,
        forall|at: int| 0 <= at < v@.len() ==> (#[trigger] r.4@[at]) == v@[at].4,
        forall|at: int| 0 <= at < v@.len() ==> (#[trigger] r.5@[at]) == v@[at].5,
        forall|at: int| 0 <= at < v@.len() ==> (#[trigger] r.6@[at]) == v@[at].6,
{
    let mut v = v;
    let ghost all = v@;
    let mut rev_a: Vec<A> = Vec::new();
    let mut rev_b: Vec<B> = Vec::new();
    let mut rev_c: Vec<C> = Vec::new();
    let mut rev_d: Vec<D> = Vec::new();
    let mut rev_e: Vec<E> = Vec::new();
    let mut rev_f: Vec<F> = Vec::new();
    let mut rev_g: Vec<G> = Vec::new();
    while v.len() > 0
        invariant
            v@ == all.subrange(0, v@.len() as int),
            rev_a@.len() + v@.len() == all.len(),
            rev_b@.len() + v@.len() == all.len(),
            rev_c@.len() + v@.len() == all.len(),
            rev_d@.len() + v@.len() == all.len(),
            rev_e@.len() + v@.len() == all.len(),
            rev_f@.len() + v@.len() == all.len(),
            rev_g@.len() + v@.len() == all.len(),
            forall|k: int|
                0 <= k < rev_a@.len() ==> (#[trigger] rev_a@[k]) == all[all.len() - 1 - k].0,
            forall|k: int|
                0 <= k < rev_b@.len() ==> (#[trigger] rev_b@[k]) == all[all.len() - 1 - k].1,
            forall|k: int|
                0 <= k < rev_c@.len() ==> (#[trigger] rev_c@[k]) == all[all.len() - 1 - k].2,
            forall|k: int|
                0 <= k < rev_d@.len() ==> (#[trigger] rev_d@[k]) == all[all.len() - 1 - k].3,
            forall|k: int|
                0 <= k < rev_e@.len() ==> (#[trigger] rev_e@[k]) == all[all.len() - 1 - k].4,
            forall|k: int|
                0 <= k < rev_f@.len() ==> (#[trigger] rev_f@[k]) == all[all.len() - 1 - k].5,
            forall|k: int|
                0 <= k < rev_g@.len() ==> (#[trigger] rev_g@[k]) == all[all.len() - 1 - k].6,
        decreases v.len(),
    {
        let (x_a, x_b, x_c, x_d, x_e, x_f, x_g) = v.pop().unwrap();
        rev_a.push(x_a);
        rev_b.push(x_b);
        rev_c.push(x_c);
        rev_d.push(x_d);
        rev_e.push(x_e);
        rev_f.push(x_f);
        rev_g.push(x_g);
    }
    (
        reversed(rev_a),
        reversed(rev_b),
        reversed(rev_c),
        reversed(rev_d),
        reversed(rev_e),
        reversed(rev_f),
        reversed(rev_g),
    )
}

/// Like `zip`, with 8 `Vec`s.
pub fn zip8<A, B, C, D, E, F, G, H>(
    a: Vec<A>,
    b: Vec<B>,
    c: Vec<C>,
    d: Vec<D>,
    e: Vec<E>,
    f: Vec<F>,
    g: Vec<G>,
    h: Vec<H>,
) -> (r: Vec<(A, B, C, D, E, F, G, H)>)
    ensures
        r@.len() <= a@.len(),
        r@.len() <= b@.len(),
        r@.len() <= c@.len(),
        r@.len() <= d@.len(),
        r@.len() <= e@.len(),
        r@.len() <= f@.len(),
        r@.len() <= g@.len(),
        r@.len() <= h@.len(),
        r@.len() == a@.len() || r@.len() == b@.len() || r@.len() == c@.len()
            || r@.len() == d@.len() || r@.len() == e@.len() || r@.len() == f@.len()
            || r@.len() == g@.len() || r@.len() == h@.len(),
        forall|at: int|
            0 <= at < r@.len() ==> r@[at] == (
                a@[at],
                b@[at],
                c@[at],
                d@[at],
                e@[at],
                f@[at],
                g@[at],
                h@[at],
            ),
{
    let tail = zip7(b, c, d, e, f, g, h);
    let mut pairs = zip(a, tail);
    let ghost all = pairs@;
    let mut rev: Vec<(A, B, C, D, E, F, G, H)> = Vec::new();
    while pairs.len() > 0
        invariant
            pairs@ == all.subrange(0, pairs@.len() as int),
            rev@.len() + pairs@.len() == all.len(),
            forall|k: int|
                0 <= k < rev@.len() ==> rev@[k] == (
                    all[all.len() - 1 - k].0,
                    all[all.len() - 1 - k].1.0,
                    all[all.len() - 1 - k].1.1,
                    all[all.len() - 1 - k].1.2,
                    all[all.len() - 1 - k].1.3,
                    all[all.len() - 1 - k].1.4,
                    all[all.len() - 1 - k].1.5,
                    all[all.len() - 1 - k].1.6,
                ),
        decreases pairs.len(),
    {
        let (head, rest) = pairs.pop().unwrap();
        rev.push((head, rest.0, rest.1, rest.2, rest.3, rest.4, rest.5, rest.6));
    }
    reversed(rev)
}

/// Like `unzip`, with 8 `Vec`s.
pub fn unzip8<A, B, C, D, E, F, G, H>(v: Vec<(A, B, C, D, E, F, G, H)>) -> (r: (
    Vec<A>,
    Vec<B>,
    Vec<C>,
    Vec<D>,
    Vec<E>,
    Vec<F>,
    Vec<G>,
    Vec<H>,
))
    ensures
        r.0@.len() == v@.len(),
        r.1@.len() == v@.len(),
        r.2@.len() == v@.len(),
        r.3@.len() == v@.len(),
        r.4@.len() == v@.len(),
        r.5@.len() == v@.len(),
        r.6@.len() == v@.len(),
        r.7@.len() == v@.len(),
        forall|at: int| 0 <= at < v@.len() ==> (#[trigger] r.0@[at]) == v@[at].0,
        forall|at: int| 0 <= at < v@.len() ==> (#[trigger] r.1@[at]) == v@[at].1,
        forall|at: int| 0 <= at < v@.len() ==> (#[trigger] r.2@[at]) == v@[at].2,
        forall|at: int| 0 <= at < v@.len() ==> (#[trigger] r.3@[at]) == v@[at].3,
        forall|at: int| 0 <= at < v@.len() ==> (#[trigger] r.4@[at]) == v@[at].4,
        forall|at: int| 0 <= at < v@.len() ==> (#[trigger] r.5@[at]) == v@[at].5,
        forall|at: int| 0 <= at < v@.len() ==> (#[trigger] r.6@[at]) == v@[at].6,
        forall|at: int| 0 <= at < v@.len() ==> (#[trigger] r.7@[at]) == v@[at].7,
{
    let mut v = v;
    let ghost all = v@;
    let mut rev_a: Vec<A> = Vec::new();
    let mut rev_b: Vec<B> = Vec::new();
    let mut rev_c: Vec<C> = Vec::new();
    let mut rev_d: Vec<D> = Vec::new();
    let mut rev_e: Vec<E> = Vec::new();
    let mut rev_f: Vec<F> = Vec::new();
    let mut rev_g: Vec<G> = Vec::new();
    let mut rev_h: Vec<H> = Vec::new();
    while v.len() > 0
        invariant
            v@ == all.subrange(0, v@.len() as int),
            rev_a@.len() + v@.len() == all.len(),
            rev_b@.len() + v@.len() == all.len(),
            rev_c@.len() + v@.len() == all.len(),
            rev_d@.len() + v@.len() == all.len(),
            rev_e@.len() + v@.len() == all.len(),
            rev_f@.len() + v@.len() == all.len(),
            rev_g@.len() + v@.len() == all.len(),
            rev_h@.len() + v@.len() == all.len(),
            forall|k: int|
                0 <= k < rev_a@.len() ==> (#[trigger] rev_a@[k]) == all[all.len() - 1 - k].0,
            forall|k: int|
                0 <= k < rev_b@.len() ==> (#[trigger] rev_b@[k]) == all[all.len() - 1 - k].1,
            forall|k: int|
                0 <= k < rev_c@.len() ==> (#[trigger] rev_c@[k]) == all[all.len() - 1 - k].2,
            forall|k: int|
                0 <= k < rev_d@.len() ==> (#[trigger] rev_d@[k]) == all[all.len() - 1 - k].3,
            forall|k: int|
                0 <= k < rev_e@.len() ==> (#[trigger] rev_e@[k]) == all[all.len() - 1 - k].4,
            forall|k: int|
                0 <= k < rev_f@.len() ==> (#[trigger] rev_f@[k]) == all[all.len() - 1 - k].5,
            forall|k: int|
                0 <= k < rev_g@.len() ==> (#[trigger] rev_g@[k]) == all[all.len() - 1 - k].6,
            forall|k: int|
                0 <= k < rev_h@.len() ==> (#[trigger] rev_h@[k]) == all[all.len() - 1 - k].7,
        decreases v.len(),
    {
        let (x_a, x_b, x_c, x_d, x_e, x_f, x_g, x_h) = v.pop().unwrap();
        rev_a.push(x_a);
        rev_b.push(x_b);
        rev_c.push(x_c);
        rev_d.push(x_d);
        rev_e.push(x_e);
        rev_f.push(x_f);
        rev_g.push(x_g);
        rev_h.push(x_h);
    }
    (
        reversed(rev_a),
        reversed(rev_b),
        reversed(rev_c),
        reversed(rev_d),
        reversed(rev_e),
        reversed(rev_f),
        reversed(rev_g),
        reversed(rev_h),
    )
}

/// Like `zip`, with 9 `Vec`s.
pub fn zip9<A, B, C, D, E, F, G, H, I>(
    a: Vec<A>,
    b: Vec<B>,
    c: Vec<C>,
    d: Vec<D>,
    e: Vec<E>,
    f: Vec<F>,
    g: Vec<G>,
    h: Vec<H>,
    i: Vec<I>,
) -> (r: Vec<(A, B, C, D, E, F, G, H, I)>)
    ensures
        r@.len() <= a@.len(),
        r@.len() <= b@.len(),
        r@.len() <= c@.len(),
        r@.len() <= d@.len(),
        r@.len() <= e@.len(),
        r@.len() <= f@.len(),
        r@.len() <= g@.len(),
        r@.len() <= h@.len(),
        r@.len() <= i@.len(),
        r@.len() == a@.len() || r@.len() == b@.len() || r@.len() == c@.len()
            || r@.len() == d@.len() || r@.len() == e@.len() || r@.len() == f@.len()
            || r@.len() == g@.len() || r@.len() == h@.len() || r@.len() == i@.len(),
        forall|at: int|
            0 <= at < r@.len() ==> r@[at] == (
                a@[at],
                b@[at],
                c@[at],
                d@[at],
                e@[at],
                f@[at],
                g@[at],
                h@[at],
                i@[at],
            ),
{
    let tail = zip8(b, c, d, e, f, g, h, i);
    let mut pairs = zip(a, tail);
    let ghost all = pairs@;
    let mut rev: Vec<(A, B, C, D, E, F, G, H, I)> = Vec::new();
    while pairs.len() > 0
        invariant
            pairs@ == all.subrange(0, pairs@.len() as int),
            rev@.len() + pairs@.len() == all.len(),
            forall|k: int|
                0 <= k < rev@.len() ==> rev@[k] == (
                    all[all.len() - 1 - k].0,
                    all[all.len() - 1 - k].1.0,
                    all[all.len() - 1 - k].1.1,
                    all[all.len() - 1 - k].1.2,
                    all[all.len() - 1 - k].1.3,
                    all[all.len() - 1 - k].1.4,
                    all[all.len() - 1 - k].1.5,
                    all[all.len() - 1 - k].1.6,
                    all[all.len() - 1 - k].1.7,
                ),
        decreases pairs.len(),
    {
        let (head, rest) = pairs.pop().unwrap();
        rev.push((head, rest.0, rest.1, rest.2, rest.3, rest.4, rest.5, rest.6, rest.7));
    }
    reversed(rev)
}

/// Like `unzip`, with 9 `Vec`s.
pub fn unzip9<A, B, C, D, E, F, G, H, I>(v: Vec<(A, B, C, D, E, F, G, H, I)>) -> (r: (
    Vec<A>,
    Vec<B>,
    Vec<C>,
    Vec<D>,
    Vec<E>,
    Vec<F>,
    Vec<G>,
    Vec<H>,
    Vec<I>,
))
    ensures
        r.0@.len() == v@.len(),
        r.1@.len() == v@.len(),
        r.2@.len() == v@.len(),
        r.3@.len() == v@.len(),
        r.4@.len() == v@.len(),
        r.5@.len() == v@.len(),
        r.6@.len() == v@.len(),
        r.7@.len() == v@.len(),
        r.8@.len() == v@.len(),
        forall|at: int| 0 <= at < v@.len() ==> (#[trigger] r.0@[at]) == v@[at].0,
        forall|at: int| 0 <= at < v@.len() ==> (#[trigger] r.1@[at]) == v@[at].1,
        forall|at: int| 0 <= at < v@.len() ==> (#[trigger] r.2@[at]) == v@[at].2,
        forall|at: int| 0 <= at < v@.len() ==> (#[trigger] r.3@[at]) == v@[at].3,
        forall|at: int| 0 <= at < v@.len() ==> (#[trigger] r.4@[at]) == v@[at].4,
        forall|at: int| 0 <= at < v@.len() ==> (#[trigger] r.5@[at]) == v@[at].5,
        forall|at: int| 0 <= at < v@.len() ==> (#[trigger] r.6@[at]) == v@[at].6,
        forall|at: int| 0 <= at < v@.len() ==> (#[trigger] r.7@[at]) == v@[at].7,
        forall|at: int| 0 <= at < v@.len() ==> (#[trigger] r.8@[at]) == v@[at].8,
{
    let mut v = v;
    let ghost all = v@;
    let mut rev_a: Vec<A> = Vec::new();
    let mut rev_b: Vec<B> = Vec::new();
    let mut rev_c: Vec<C> = Vec::new();
    let mut rev_d: Vec<D> = Vec::new();
    let mut rev_e: Vec<E> = Vec::new();
    let mut rev_f: Vec<F> = Vec::new();
    let mut rev_g: Vec<G> = Vec::new();
    let mut rev_h: Vec<H> = Vec::new();
    let mut rev_i: Vec<I> = Vec::new();
    while v.len() > 0
        invariant
            v@ == all.subrange(0, v@.len() as int),
            rev_a@.len() + v@.len() == all.len(),
            rev_b@.len() + v@.len() == all.len(),
            rev_c@.len() + v@.len() == all.len(),
            rev_d@.len() + v@.len() == all.len(),
            rev_e@.len() + v@.len() == all.len(),
            rev_f@.len() + v@.len() == all.len(),
            rev_g@.len() + v@.len() == all.len(),
            rev_h@.len() + v@.len() == all.len(),
            rev_i@.len() + v@.len() == all.len(),
            forall|k: int|
                0 <= k < rev_a@.len() ==> (#[trigger] rev_a@[k]) == all[all.len() - 1 - k].0,
            forall|k: int|
                0 <= k < rev_b@.len() ==> (#[trigger] rev_b@[k]) == all[all.len() - 1 - k].1,
            forall|k: int|
                0 <= k < rev_c@.len() ==> (#[trigger] rev_c@[k]) == all[all.len() - 1 - k].2,
            forall|k: int|
                0 <= k < rev_d@.len() ==> (#[trigger] rev_d@[k]) == all[all.len() - 1 - k].3,
            forall|k: int|
                0 <= k < rev_e@.len() ==> (#[trigger] rev_e@[k]) == all[all.len() - 1 - k].4,
            forall|k: int|
                0 <= k < rev_f@.len() ==> (#[trigger] rev_f@[k]) == all[all.len() - 1 - k].5,
            forall|k: int|
                0 <= k < rev_g@.len() ==> (#[trigger] rev_g@[k]) == all[all.len() - 1 - k].6,
            forall|k: int|
                0 <= k < rev_h@.len() ==> (#[trigger] rev_h@[k]) == all[all.len() - 1 - k].7,
            forall|k: int|
                0 <= k < rev_i@.len() ==> (#[trigger] rev_i@[k]) == all[all.len() - 1 - k].8,
        decreases v.len(),
    {
        let (x_a, x_b, x_c, x_d, x_e, x_f, x_g, x_h, x_i) = v.pop().unwrap();
        rev_a.push(x_a);
        rev_b.push(x_b);
        rev_c.push(x_c);
        rev_d.push(x_d);
        rev_e.push(x_e);
        rev_f.push(x_f);
        rev_g.push(x_g);
        rev_h.push(x_h);
        rev_i.push(x_i);
    }
    (
        reversed(rev_a),
        reversed(rev_b),
        reversed(rev_c),
        reversed(rev_d),
        reversed(rev_e),
        reversed(rev_f),
        reversed(rev_g),
        reversed(rev_h),
        reversed(rev_i),
    )
}

/// Like `zip`, with 10 `Vec`s.
pub fn zip10<A, B, C, D, E, F, G, H, I, J>(
    a: Vec<A>,
    b: Vec<B>,
    c: Vec<C>,
    d: Vec<D>,
    e: Vec<E>,
    f: Vec<F>,
    g: Vec<G>,
    h: Vec<H>,
    i: Vec<I>,
    j: Vec<J>,
) -> (r: Vec<(A, B, C, D, E, F, G, H, I, J)>)
    ensures
        r@.len() <= a@.len(),
        r@.len() <= b@.len(),
        r@.len() <= c@.len(),
        r@.len() <= d@.len(),
        r@.len() <= e@.len(),
        r@.len() <= f@.len(),
        r@.len() <= g@.len(),
        r@.len() <= h@.len(),
        r@.len() <= i@.len(),
        r@.len() <= j@.len(),
        r@.len() == a@.len() || r@.len() == b@.len() || r@.len() == c@.len()
            || r@.len() == d@.len() || r@.len() == e@.len() || r@.len() == f@.len()
            || r@.len() == g@.len() || r@.len() == h@.len() || r@.len() == i@.len()
            || r@.len() == j@.len(),
        forall|at: int|
            0 <= at < r@.len() ==> r@[at] == (
                a@[at],
                b@[at],
                c@[at],
                d@[at],
                e@[at],
                f@[at],
                g@[at],
                h@[at],
                i@[at],
                j@[at],
            ),
{
    let tail = zip9(b, c, d, e, f, g, h, i, j);
    let mut pairs = zip(a, tail);
    let ghost all = pairs@;
    let mut rev: Vec<(A, B, C, D, E, F, G, H, I, J)> = Vec::new();
    while pairs.len() > 0
        invariant
            pairs@ == all.subrange(0, pairs@.len() as int),
            rev@.len() + pairs@.len() == all.len(),
            forall|k: int|
                0 <= k < rev@.len() ==> rev@[k] == (
                    all[all.len() - 1 - k].0,
                    all[all.len() - 1 - k].1.0,
                    all[all.len() - 1 - k].1.1,
                    all[all.len() - 1 - k].1.2,
                    all[all.len() - 1 - k].1.3,
                    all[all.len() - 1 - k].1.4,
                    all[all.len() - 1 - k].1.5,
                    all[all.len() - 1 - k].1.6,
                    all[all.len() - 1 - k].1.7,
                    all[all.len() - 1 - k].1.8,
                ),
        decreases pairs.len(),
    {
        let (head, rest) = pairs.pop().unwrap();
        rev.push((head, rest.0, rest.1, rest.2, rest.3, rest.4, rest.5, rest.6, rest.7, rest.8));
    }
    reversed(rev)
}

/// Like `unzip`, with 10 `Vec`s.
pub fn unzip10<A, B, C, D, E, F, G, H, I, J>(v: Vec<(A, B, C, D, E, F, G, H, I, J)>) -> (r: (
    Vec<A>,
    Vec<B>,
    Vec<C>,
    Vec<D>,
    Vec<E>,
    Vec<F>,
    Vec<G>,
    Vec<H>,
    Vec<I>,
    Vec<J>,
))
    ensures
        r.0@.len() == v@.len(),
        r.1@.len() == v@.len(),
        r.2@.len() == v@.len(),
        r.3@.len() == v@.len(),
        r.4@.len() == v@.len(),
        r.5@.len() == v@.len(),
        r.6@.len() == v@.len(),
        r.7@.len() == v@.len(),
        r.8@.len() == v@.len(),
        r.9@.len() == v@.len(),
        forall|at: int| 0 <= at < v@.len() ==> (#[trigger] r.0@[at]) == v@[at].0,
        forall|at: int| 0 <= at < v@.len() ==> (#[trigger] r.1@[at]) == v@[at].1,
        forall|at: int| 0 <= at < v@.len() ==> (#[trigger] r.2@[at]) == v@[at].2,
        forall|at: int| 0 <= at < v@.len() ==> (#[trigger] r.3@[at]) == v@[at].3,
        forall|at: int| 0 <= at < v@.len() ==> (#[trigger] r.4@[at]) == v@[at].4,
        forall|at: int| 0 <= at < v@.len() ==> (#[trigger] r.5@[at]) == v@[at].5,
        forall|at: int| 0 <= at < v@.len() ==> (#[trigger] r.6@[at]) == v@[at].6,
        forall|at: int| 0 <= at < v@.len() ==> (#[trigger] r.7@[at]) == v@[at].7,
        forall|at: int| 0 <= at < v@.len() ==> (#[trigger] r.8@[at]) == v@[at].8,
        forall|at: int| 0 <= at < v@.len() ==> (#[trigger] r.9@[at]) == v@[at].9,
{
    let mut v = v;
    let ghost all = v@;
    let mut rev_a: Vec<A> = Vec::new();
    let mut rev_b: Vec<B> = Vec::new();
    let mut rev_c: Vec<C> = Vec::new();
    let mut rev_d: Vec<D> = Vec::new();
    let mut rev_e: Vec<E> = Vec::new();
    let mut rev_f: Vec<F> = Vec::new();
    let mut rev_g: Vec<G> = Vec::new();
    let mut rev_h: Vec<H> = Vec::new();
    let mut rev_i: Vec<I> = Vec::new();
    let mut rev_j: Vec<J> = Vec::new();
    while v.len() > 0
        invariant
            v@ == all.subrange(0, v@.len() as int),
            rev_a@.len() + v@.len() == all.len(),
            rev_b@.len() + v@.len() == all.len(),
            rev_c@.len() + v@.len() == all.len(),
            rev_d@.len() + v@.len() == all.len(),
            rev_e@.len() + v@.len() == all.len(),
            rev_f@.len() + v@.len() == all.len(),
            rev_g@.len() + v@.len() == all.len(),
            rev_h@.len() + v@.len() == all.len(),
            rev_i@.len() + v@.len() == all.len(),
            rev_j@.len() + v@.len() == all.len(),
            forall|k: int|
                0 <= k < rev_a@.len() ==> (#[trigger] rev_a@[k]) == all[all.len() - 1 - k].0,
            forall|k: int|
                0 <= k < rev_b@.len() ==> (#[trigger] rev_b@[k]) == all[all.len() - 1 - k].1,
            forall|k: int|
                0 <= k < rev_c@.len() ==> (#[trigger] rev_c@[k]) == all[all.len() - 1 - k].2,
            forall|k: int|
                0 <= k < rev_d@.len() ==> (#[trigger] rev_d@[k]) == all[all.len() - 1 - k].3,
            forall|k: int|
                0 <= k < rev_e@.len() ==> (#[trigger] rev_e@[k]) == all[all.len() - 1 - k].4,
            forall|k: int|
                0 <= k < rev_f@.len() ==> (#[trigger] rev_f@[k]) == all[all.len() - 1 - k].5,
            forall|k: int|
                0 <= k < rev_g@.len() ==> (#[trigger] rev_g@[k]) == all[all.len() - 1 - k].6,
            forall|k: int|
                0 <= k < rev_h@.len() ==> (#[trigger] rev_h@[k]) == all[all.len() - 1 - k].7,
            forall|k: int|
                0 <= k < rev_i@.len() ==> (#[trigger] rev_i@[k]) == all[all.len() - 1 - k].8,
            forall|k: int|
                0 <= k < rev_j@.len() ==> (#[trigger] rev_j@[k]) == all[all.len() - 1 - k].9,
        decreases v.len(),
    {
        let (x_a, x_b, x_c, x_d, x_e, x_f, x_g, x_h, x_i, x_j) = v.pop().unwrap();
        rev_a.push(x_a);
        rev_b.push(x_b);
        rev_c.push(x_c);
        rev_d.push(x_d);
        rev_e.push(x_e);
        rev_f.push(x_f);
        rev_g.push(x_g);
        rev_h.push(x_h);
        rev_i.push(x_i);
        rev_j.push(x_j);
    }
    (
        reversed(rev_a),
        reversed(rev_b),
        reversed(rev_c),
        reversed(rev_d),
        reversed(rev_e),
        reversed(rev_f),
        reversed(rev_g),
        reversed(rev_h),
        reversed(rev_i),
        reversed(rev_j),
    )
}

/// `zip` as a method of the first `Vec`.
pub trait VecZipTrait<T, U> {
    fn zip(self, other: Vec<U>) -> Vec<(T, U)>;
}

/// `unzip` as a method of the `Vec` of pairs.
pub trait VecUnzipTrait<T, U> {
    fn unzip(self) -> (Vec<T>, Vec<U>);
}

impl<T, U> VecZipTrait<T, U> for Vec<T> {
    fn zip(self, other: Vec<U>) -> (r: Vec<(T, U)>)
        ensures
            r@.len() == min(self@.len() as int, other@.len() as int),
            forall|at: int| 0 <= at < r@.len() ==> r@[at] == (self@[at], other@[at]),
    {
        zip(self, other)
    }
}

impl<T, U> VecUnzipTrait<T, U> for Vec<(T, U)> {
    fn unzip(self) -> (r: (Vec<T>, Vec<U>))
        ensures
            r.0@.len() == self@.len(),
            r.1@.len() == self@.len(),
            forall|at: int| 0 <= at < self@.len() ==> (#[trigger] r.0@[at]) == self@[at].0,
            forall|at: int| 0 <= at < self@.len() ==> (#[trigger] r.1@[at]) == self@[at].1,
    {
        unzip(self)
    }
}

} // verus!
