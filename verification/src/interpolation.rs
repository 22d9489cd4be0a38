use crate::linear::clone_is_faithful;
use crate::pow::multiple::{lemma_multiple_sum, mul_by_add, multiple};
use crate::pow::powi::{power, powi_ref};
use crate::pow::traits::Numeric;
use std::ops::{Add, Mul};
use vstd::prelude::*;
use vstd::std_specs::ops::{AddSpec, MulSpec};

verus! {

/// `1 - t`.
pub open spec fn one_minus_spec<T: Numeric>(t: T) -> T {
    T::one_spec().minus_spec(t)
}

fn one_minus<T: Numeric>(t: &T) -> (r: T)
    ensures
        r == one_minus_spec(*t),
{
    T::one().minus(t)
}

/// The positive integer `count` as a `T`: the sum of `count` ones.
pub fn n<T: Numeric>(count: usize) -> (r: T)
    requires
        count != 0,
    ensures
        r == multiple(T::one_spec(), count as nat),
{
    let mut acc = T::one();
    let mut done: usize = 1;
    proof {
        T::plus_zero(T::one_spec());
        assert(multiple(T::one_spec(), 1) == T::one_spec().plus_spec(multiple(T::one_spec(), 0)));
    }
    while done < count
        invariant
            1 <= done <= count,
            acc == multiple(T::one_spec(), done as nat),
            multiple(T::one_spec(), 1) == T::one_spec(),
        decreases count - done,
    {
        proof {
            lemma_multiple_sum(T::one_spec(), done as nat, 1);
        }
        acc = acc.plus(&T::one());
        done = done + 1;
    }
    acc
}

/// Whether the operators of `P` return what their specifications name.
pub open spec fn point_operators_obey<T, P: Add<Output = P> + Mul<T, Output = P>>() -> bool {
    <P as AddSpec>::obeys_add_spec() && <P as MulSpec<T>>::obeys_mul_spec()
}

/// Whether `P` accepts the sum of the products `p * s` and `q * t`.
pub open spec fn weighted_sum_defined<T, P: Add<Output = P> + Mul<T, Output = P>>(
    p: P,
    s: T,
    q: P,
    t: T,
) -> bool {
    p.mul_req(s) && q.mul_req(t) && p.mul_spec(s).add_req(q.mul_spec(t))
}

/// Whether `P` accepts the product `q * t` and its sum with `sum`.
pub open spec fn next_term_defined<T, P: Add<Output = P> + Mul<T, Output = P>>(
    sum: P,
    q: P,
    t: T,
) -> bool {
    q.mul_req(t) && sum.add_req(q.mul_spec(t))
}

/// The point at `t` on the line from `start` (at zero) to `end` (at one):
/// `start * (1 - t) + end * t`.
pub open spec fn lerp_spec<T: Numeric, P: Add<Output = P> + Mul<T, Output = P>>(
    start: P,
    end: P,
    t: T,
) -> P {
    start.mul_spec(one_minus_spec(t)).add_spec(end.mul_spec(t))
}

/// Whether the operators of `P` accept every operation that the evaluation at
/// `t` of the line from `start` to `end` is made of.
pub open spec fn lerp_defined<T: Numeric, P: Add<Output = P> + Mul<T, Output = P>>(
    start: P,
    end: P,
    t: T,
) -> bool {
    point_operators_obey::<T, P>() && weighted_sum_defined(start, one_minus_spec(t), end, t)
}

/// The weight of the control point of a quadratic curve at `t`:
/// `2 * (1 - t) * t`.
pub open spec fn quadratic_weight<T: Numeric>(t: T) -> T {
    multiple(T::one_spec(), 2).times_spec(one_minus_spec(t)).times_spec(t)
}

/// The point at `t` on the quadratic curve:
/// `start * (1 - t)^2 + control * (2 * (1 - t) * t) + end * t^2`.
pub open spec fn bez2_spec<T: Numeric, P: Add<Output = P> + Mul<T, Output = P>>(
    start: P,
    control: P,
    end: P,
    t: T,
) -> P {
    start.mul_spec(power(one_minus_spec(t), 2)).add_spec(
        control.mul_spec(quadratic_weight(t)),
    ).add_spec(end.mul_spec(power(t, 2)))
}

/// Whether the operators of `P` accept every operation that the evaluation of
/// the quadratic curve at `t` is made of.
pub open spec fn bez2_defined<T: Numeric, P: Add<Output = P> + Mul<T, Output = P>>(
    start: P,
    control: P,
    end: P,
    t: T,
) -> bool {
    &&& point_operators_obey::<T, P>()
    &&& weighted_sum_defined(start, power(one_minus_spec(t), 2), control, quadratic_weight(t))
    &&& next_term_defined(
        start.mul_spec(power(one_minus_spec(t), 2)).add_spec(control.mul_spec(quadratic_weight(t))),
        end,
        power(t, 2),
    )
}

/// The weight of the first control point of a cubic curve at `t`:
/// `3 * (1 - t)^2 * t`.
pub open spec fn cubic_weight_first<T: Numeric>(t: T) -> T {
    multiple(T::one_spec(), 3).times_spec(power(one_minus_spec(t), 2)).times_spec(t)
}

/// The weight of the second control point of a cubic curve at `t`:
/// `3 * (1 - t) * t^2`.
pub open spec fn cubic_weight_second<T: Numeric>(t: T) -> T {
    multiple(T::one_spec(), 3).times_spec(one_minus_spec(t)).times_spec(power(t, 2))
}

/// The sum of the first three terms of the cubic curve at `t`.
pub open spec fn bez3_head<T: Numeric, P: Add<Output = P> + Mul<T, Output = P>>(
    start: P,
    control1: P,
    control2: P,
    t: T,
) -> P {
    start.mul_spec(power(one_minus_spec(t), 3)).add_spec(
        control1.mul_spec(cubic_weight_first(t)),
    ).add_spec(control2.mul_spec(cubic_weight_second(t)))
}

/// The point at `t` on the cubic curve: `start * (1 - t)^3 + control1 *
/// (3 * (1 - t)^2 * t) + control2 * (3 * (1 - t) * t^2) + end * t^3`.
pub open spec fn bez3_spec<T: Numeric, P: Add<Output = P> + Mul<T, Output = P>>(
    start: P,
    control1: P,
    control2: P,
    end: P,
    t: T,
) -> P {
    bez3_head(start, control1, control2, t).add_spec(end.mul_spec(power(t, 3)))
}

/// Whether the operators of `P` accept every operation that the evaluation of
/// the cubic curve at `t` is made of.
pub open spec fn bez3_defined<T: Numeric, P: Add<Output = P> + Mul<T, Output = P>>(
    start: P,
    control1: P,
    control2: P,
    end: P,
    t: T,
) -> bool {
    &&& point_operators_obey::<T, P>()
    &&& weighted_sum_defined(
        start,
        power(one_minus_spec(t), 3),
        control1,
        cubic_weight_first(t),
    )
    &&& next_term_defined(
        start.mul_spec(power(one_minus_spec(t), 3)).add_spec(
            control1.mul_spec(cubic_weight_first(t)),
        ),
        control2,
        cubic_weight_second(t),
    )
    &&& next_term_defined(bez3_head(start, control1, control2, t), end, power(t, 3))
}

/// An interpolation: a curve of points over a parameter that runs from zero
/// to one.
pub trait Interpolation<T>: Sized {
    /// The type of a point of the interpolation.
    type Point: Add<Output = Self::Point> + Mul<T, Output = Self::Point>;

    /// Whether the operators of the points accept the evaluation at `t`.
    spec fn eval_defined(self, t: T) -> bool;

    /// The point at `t`.
    spec fn eval_spec(self, t: T) -> Self::Point;

    /// The point of the interpolation at `t` (between zero and one).
    fn eval(self, t: T) -> (r: Self::Point)
        requires
            self.eval_defined(t),
        ensures
            r == self.eval_spec(t),
    ;
}

/// A linear interpolation between two points.
pub struct Linear<P> {
    pub start: P,
    pub end: P,
}

impl<P> Linear<P> {
    pub fn new(start: P, end: P) -> (r: Self)
        ensures
            r == (Linear { start, end }),
    {
        Self { start, end }
    }
}

impl<T: Numeric, P: Add<Output = P> + Mul<T, Output = P>> Interpolation<T> for Linear<P> {
    type Point = P;

    open spec fn eval_defined(self, t: T) -> bool {
        lerp_defined(self.start, self.end, t)
    }

    open spec fn eval_spec(self, t: T) -> P {
        lerp_spec(self.start, self.end, t)
    }

    fn eval(self, t: T) -> (r: P) {
        let u = one_minus(&t);
        self.start * u + self.end * t
    }
}

/// A quadratic Bezier interpolation: two end points and one control point.
pub struct QuadraticBezier<P> {
    pub start: P,
    pub control: P,
    pub end: P,
}

impl<P> QuadraticBezier<P> {
    pub fn new(start: P, control: P, end: P) -> (r: Self)
        ensures
            r == (QuadraticBezier { start, control, end }),
    {
        Self { start, control, end }
    }
}

impl<T: Numeric, P: Add<Output = P> + Mul<T, Output = P>> Interpolation<T> for QuadraticBezier<P> {
    type Point = P;

    open spec fn eval_defined(self, t: T) -> bool {
        bez2_defined(self.start, self.control, self.end, t)
    }

    open spec fn eval_spec(self, t: T) -> P {
        bez2_spec(self.start, self.control, self.end, t)
    }

    fn eval(self, t: T) -> (r: P) {
        let u = one_minus(&t);
        let t2 = powi_ref(&t, &2usize);
        let u2 = powi_ref(&u, &2usize);
        let weight = n::<T>(2).times(&u).times(&t);
        self.start * u2 + self.control * weight + self.end * t2
    }
}

/// A cubic Bezier interpolation: two end points and two control points.
pub struct CubicBezier<P> {
    pub start: P,
    pub control1: P,
    pub control2: P,
    pub end: P,
}

impl<P> CubicBezier<P> {
    pub fn new(start: P, control1: P, control2: P, end: P) -> (r: Self)
        ensures
            r == (CubicBezier { start, control1, control2, end }),
    {
        Self { start, control1, control2, end }
    }
}

impl<T: Numeric, P: Add<Output = P> + Mul<T, Output = P>> Interpolation<T> for CubicBezier<P> {
    type Point = P;

    open spec fn eval_defined(self, t: T) -> bool {
        bez3_defined(self.start, self.control1, self.control2, self.end, t)
    }

    open spec fn eval_spec(self, t: T) -> P {
        bez3_spec(self.start, self.control1, self.control2, self.end, t)
    }

    fn eval(self, t: T) -> (r: P) {
        let u = one_minus(&t);
        let t2 = powi_ref(&t, &2usize);
        let t3 = powi_ref(&t, &3usize);
        let u2 = powi_ref(&u, &2usize);
        let u3 = powi_ref(&u, &3usize);
        let first = n::<T>(3).times(&u2).times(&t);
        let second = n::<T>(3).times(&u).times(&t2);
        self.start * u3 + self.control1 * first + self.control2 * second + self.end * t3
    }
}

/// Linear interpolation: a shortcut for quick usage.
pub fn lerp<T: Numeric, P: Add<Output = P> + Mul<T, Output = P>>(start: P, end: P, t: T) -> (r: P)
    requires
        lerp_defined(start, end, t),
    ensures
        r == lerp_spec(start, end, t),
{
    Linear::new(start, end).eval(t)
}

/// Quadratic Bezier interpolation: a shortcut for quick usage.
pub fn bez2<T: Numeric, P: Add<Output = P> + Mul<T, Output = P>>(
    start: P,
    control: P,
    end: P,
    t: T,
) -> (r: P)
    requires
        bez2_defined(start, control, end, t),
    ensures
        r == bez2_spec(start, control, end, t),
{
    QuadraticBezier::new(start, control, end).eval(t)
}

/// Quadratic Bezier interpolation: the same as `bez2`.
pub fn qbez<T: Numeric, P: Add<Output = P> + Mul<T, Output = P>>(
    start: P,
    control: P,
    end: P,
    t: T,
) -> (r: P)
    requires
        bez2_defined(start, control, end, t),
    ensures
        r == bez2_spec(start, control, end, t),
{
    bez2(start, control, end, t)
}

/// Cubic Bezier interpolation: a shortcut for quick usage.
pub fn bez3<T: Numeric, P: Add<Output = P> + Mul<T, Output = P>>(
    start: P,
    control1: P,
    control2: P,
    end: P,
    t: T,
) -> (r: P)
    requires
        bez3_defined(start, control1, control2, end, t),
    ensures
        r == bez3_spec(start, control1, control2, end, t),
{
    CubicBezier::new(start, control1, control2, end).eval(t)
}

/// Cubic Bezier interpolation: the same as `bez3`.
pub fn cbez<T: Numeric, P: Add<Output = P> + Mul<T, Output = P>>(
    start: P,
    control1: P,
    control2: P,
    end: P,
    t: T,
) -> (r: P)
    requires
        bez3_defined(start, control1, control2, end, t),
    ensures
        r == bez3_spec(start, control1, control2, end, t),
{
    bez3(start, control1, control2, end, t)
}

/// The binomial coefficient "`n` choose `k`", by Pascal's rule.
pub open spec fn binomial_spec(n: nat, k: nat) -> nat
    decreases n,
{
    if k == 0 {
        1
    } else if n == 0 {
        0
    } else {
        binomial_spec((n - 1) as nat, (k - 1) as nat) + binomial_spec((n - 1) as nat, k)
    }
}

/// There is no way to choose more than there is.
pub proof fn lemma_binomial_beyond(n: nat, k: nat)
    requires
        k > n,
    ensures
        binomial_spec(n, k) == 0,
    decreases n,
{
    if n > 0 {
        lemma_binomial_beyond((n - 1) as nat, (k - 1) as nat);
        lemma_binomial_beyond((n - 1) as nat, k);
    }
}

/// There is one way to choose all.
pub proof fn lemma_binomial_all(n: nat)
    ensures
        binomial_spec(n, n) == 1,
    decreases n,
{
    if n > 0 {
        lemma_binomial_all((n - 1) as nat);
        lemma_binomial_beyond((n - 1) as nat, n);
    }
}

/// To choose `k` is to leave `n - k`.
pub proof fn lemma_binomial_symmetric(n: nat, k: nat)
    requires
        k <= n,
    ensures
        binomial_spec(n, k) == binomial_spec(n, (n - k) as nat),
    decreases n,
{
    if k == 0 {
        lemma_binomial_all(n);
    } else if k == n {
        lemma_binomial_all(n);
    } else {
        lemma_binomial_symmetric((n - 1) as nat, (k - 1) as nat);
        lemma_binomial_symmetric((n - 1) as nat, k);
    }
}

/// Computes the binomial coefficient "`n` choose `k`".
pub fn binomial(n: usize, k: usize) -> (r: usize)
    requires
        k <= n,
        binomial_spec(n as nat, k as nat) <= usize::MAX,
    ensures
        r == binomial_spec(n as nat, k as nat),
    decreases n,
{
    let half = n / 2;
    let k = if k > half {
        proof {
            lemma_binomial_symmetric(n as nat, k as nat);
        }
        n - k
    } else {
        k
    };
    proof {
        reveal_with_fuel(binomial_spec, 7);
    }
    if n <= 1 || k == 0 {
        1
    } else if n == 2 {
        2
    } else if n == 3 {
        3
    } else if n == 4 {
        if k == 1 {
            4
        } else {
            6
        }
    } else if n == 5 {
        if k == 1 {
            5
        } else {
            10
        }
    } else {
        binomial(n - 1, k - 1) + binomial(n - 1, k)
    }
}

/// The weight of the point with index `k` among the `n` points before the
/// end point of a curve, at `t`: "`n` choose `k`" times `(1 - t)^(n - k) * t^k`,
/// the factor taken by repeated addition.
pub open spec fn bezier_weight<T: Numeric>(n: nat, k: nat, t: T) -> T {
    multiple(
        power(one_minus_spec(t), (n - k) as nat).times_spec(power(t, k)),
        binomial_spec(n, k),
    )
}

/// The sum of the end point's term, `end * t^n`, and the terms of the first
/// `count` of the `points` before it.
pub open spec fn bezier_sum<T: Numeric, P: Add<Output = P> + Mul<T, Output = P>>(
    points: Seq<P>,
    end: P,
    t: T,
    count: nat,
) -> P
    decreases count,
{
    if count == 0 {
        end.mul_spec(power(t, points.len()))
    } else {
        bezier_sum(points, end, t, (count - 1) as nat).add_spec(
            points[count - 1].mul_spec(bezier_weight(points.len(), (count - 1) as nat, t)),
        )
    }
}

/// Whether the operators of `P` accept the first `count` terms of the sum.
pub open spec fn bezier_sum_defined<T: Numeric, P: Add<Output = P> + Mul<T, Output = P>>(
    points: Seq<P>,
    end: P,
    t: T,
    count: nat,
) -> bool
    decreases count,
{
    if count == 0 {
        end.mul_req(power(t, points.len()))
    } else {
        &&& bezier_sum_defined(points, end, t, (count - 1) as nat)
        &&& binomial_spec(points.len(), (count - 1) as nat) <= usize::MAX
        &&& next_term_defined(
            bezier_sum(points, end, t, (count - 1) as nat),
            points[count - 1],
            bezier_weight(points.len(), (count - 1) as nat, t),
        )
    }
}

/// The point at `t` on the curve from `start` to `end` with these control
/// points: the line, the quadratic or the cubic curve for up to two control
/// points, and the sum of all weighted points beyond.
pub open spec fn bez_spec<T: Numeric, P: Add<Output = P> + Mul<T, Output = P>>(
    start: P,
    control: Seq<P>,
    end: P,
    t: T,
) -> P {
    if control.len() == 0 {
        lerp_spec(start, end, t)
    } else if control.len() == 1 {
        bez2_spec(start, control[0], end, t)
    } else if control.len() == 2 {
        bez3_spec(start, control[0], control[1], end, t)
    } else {
        bezier_sum(seq![start] + control, end, t, control.len() + 1)
    }
}

/// Whether the operators of `P` accept every operation that the evaluation of
/// the curve at `t` is made of, and the coefficients fit the machine.
pub open spec fn bez_defined<T: Numeric, P: Clone + Add<Output = P> + Mul<T, Output = P>>(
    start: P,
    control: Seq<P>,
    end: P,
    t: T,
) -> bool {
    &&& clone_is_faithful::<P>()
    &&& if control.len() == 0 {
        lerp_defined(start, end, t)
    } else if control.len() == 1 {
        bez2_defined(start, control[0], end, t)
    } else if control.len() == 2 {
        bez3_defined(start, control[0], control[1], end, t)
    } else {
        &&& point_operators_obey::<T, P>()
        &&& control.len() < usize::MAX
        &&& bezier_sum_defined(seq![start] + control, end, t, control.len() + 1)
    }
}

/// A Bezier interpolation of any order: two end points and the control
/// points between them.
pub struct Bezier<'a, P> {
    pub start: P,
    pub control_points: &'a [P],
    pub end: P,
}

impl<'a, P> Bezier<'a, P> {
    pub fn new(start: P, control_points: &'a [P], end: P) -> (r: Self)
        ensures
            r == (Bezier { start, control_points, end }),
    {
        Self { start, control_points, end }
    }
}

/// The term of the point with index `k` among the `n` points before the end
/// point, added to `sum`.
fn add_bezier_term<T: Numeric, P: Add<Output = P> + Mul<T, Output = P>>(
    sum: P,
    point: P,
    n: usize,
    k: usize,
    u: &T,
    t: &T,
) -> (r: P)
    requires
        k <= n,
        point_operators_obey::<T, P>(),
        *u == one_minus_spec(*t),
        binomial_spec(n as nat, k as nat) <= usize::MAX,
        next_term_defined(sum, point, bezier_weight(n as nat, k as nat, *t)),
    ensures
        r == sum.add_spec(point.mul_spec(bezier_weight(n as nat, k as nat, *t))),
{
    let coefficient = binomial(n, k);
    let rest = n - k;
    let weight = mul_by_add(&powi_ref(u, &rest).times(&powi_ref(t, &k)), &coefficient);
    sum + point * weight
}

impl<'a, T: Numeric, P: Clone + Add<Output = P> + Mul<T, Output = P>> Interpolation<T> for Bezier<
    'a,
    P,
> {
    type Point = P;

    open spec fn eval_defined(self, t: T) -> bool {
        bez_defined(self.start, self.control_points@, self.end, t)
    }

    open spec fn eval_spec(self, t: T) -> P {
        bez_spec(self.start, self.control_points@, self.end, t)
    }

    fn eval(self, t: T) -> (r: P) {
        let c = self.control_points;
        if c.len() == 0 {
            lerp(self.start, self.end, t)
        } else if c.len() == 1 {
            let c0 = c[0].clone();
            assert(cloned(c[0], c0));
            bez2(self.start, c0, self.end, t)
        } else if c.len() == 2 {
            let c0 = c[0].clone();
            let c1 = c[1].clone();
            assert(cloned(c[0], c0) && cloned(c[1], c1));
            bez3(self.start, c0, c1, self.end, t)
        } else {
            let n = c.len() + 1;
            let u = one_minus(&t);
            let ghost points = seq![self.start] + c@;
            let ghost end = self.end;
            proof {
                assert(points.len() == n);
                assert(points[0] == self.start);
                lemma_bezier_defined_prefix(points, end, t, n as nat, 0);
                lemma_bezier_defined_prefix(points, end, t, n as nat, 1);
            }
            let mut res = self.end * powi_ref(&t, &n);
            assert(res == bezier_sum(points, end, t, 0));
            res = add_bezier_term(res, self.start, n, 0, &u, &t);
            assert(res == bezier_sum(points, end, t, 1));
            let mut k: usize = 1;
            while k < n
                invariant
                    1 <= k <= n,
                    n == c@.len() + 1,
                    points.len() == n,
                    points =~= seq![points[0]] + c@,
                    u == one_minus_spec(t),
                    clone_is_faithful::<P>(),
                    point_operators_obey::<T, P>(),
                    bezier_sum_defined(points, end, t, n as nat),
                    res == bezier_sum(points, end, t, k as nat),
                decreases n - k,
            {
                let p = c[k - 1].clone();
                proof {
                    assert(cloned(c[k - 1], p));
                    assert(points[k as int] == c@[k - 1]);
                    lemma_bezier_defined_prefix(points, end, t, n as nat, (k + 1) as nat);
                }
                res = add_bezier_term(res, p, n, k, &u, &t);
                k = k + 1;
            }
            res
        }
    }
}

/// Where the first `count` terms are accepted, so are the first `fewer`.
pub proof fn lemma_bezier_defined_prefix<T: Numeric, P: Add<Output = P> + Mul<T, Output = P>>(
    points: Seq<P>,
    end: P,
    t: T,
    count: nat,
    fewer: nat,
)
    requires
        fewer <= count,
        bezier_sum_defined(points, end, t, count),
    ensures
        bezier_sum_defined(points, end, t, fewer),
    decreases count,
{
    if fewer < count {
        lemma_bezier_defined_prefix(points, end, t, (count - 1) as nat, fewer);
    }
}

/// Bezier interpolation of any order: a shortcut for quick usage.
pub fn bez<T: Numeric, P: Clone + Add<Output = P> + Mul<T, Output = P>>(
    start: P,
    control_points: &[P],
    end: P,
    t: T,
) -> (r: P)
    requires
        bez_defined(start, control_points@, end, t),
    ensures
        r == bez_spec(start, control_points@, end, t),
{
    Bezier::new(start, control_points, end).eval(t)
}

} // verus!
