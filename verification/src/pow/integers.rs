use crate::pow::traits::Integer;
use vstd::prelude::*;

verus! {

/// The primitive integer types. For each of them num-traits defines `Zero` and
/// `One` with the literals 0 and 1, and the tests `is_zero` and `is_one` as the
/// comparison with that literal.
trait Primitive: Sized {
    /// The integer that the machine value holds.
    spec fn integral(&self) -> int;
}

/// Calls `num_traits::Zero::zero` for a primitive integer type: the result is
/// the literal 0 of that type.
#[verifier::external_body]
fn primitive_zero<P: Primitive + num_traits::Zero>() -> (r: P)
    ensures
        r.integral() == 0,
{
    <P as num_traits::Zero>::zero()
}

/// Calls `num_traits::One::one` for a primitive integer type: the result is
/// the literal 1 of that type.
#[verifier::external_body]
fn primitive_one<P: Primitive + num_traits::One>() -> (r: P)
    ensures
        r.integral() == 1,
{
    <P as num_traits::One>::one()
}

/// Calls `num_traits::Zero::is_zero` on a primitive integer: the result tells
/// whether the value equals the literal 0.
#[verifier::external_body]
fn primitive_is_zero<P: Primitive + num_traits::Zero>(p: &P) -> (r: bool)
    ensures
        r == (p.integral() == 0),
{
    num_traits::Zero::is_zero(p)
}

/// Calls `num_traits::One::is_one` on a primitive integer: the result tells
/// whether the value equals the literal 1.
#[verifier::external_body]
fn primitive_is_one<P: Primitive + num_traits::One + PartialEq>(p: &P) -> (r: bool)
    ensures
        r == (p.integral() == 1),
{
    num_traits::One::is_one(p)
}

impl Primitive for i8 {
    spec fn integral(&self) -> int {
        *self as int
    }
}

impl Integer for i8 {
    open spec fn value(&self) -> int {
        *self as int
    }

    open spec fn representable(v: int) -> bool {
        i8::MIN <= v <= i8::MAX
    }

    proof fn value_is_representable(&self) {
    }

    proof fn representable_between(lo: int, mid: int, hi: int) {
    }

    proof fn small_representable() {
    }

    fn zero() -> (r: Self) {
        primitive_zero::<i8>()
    }

    fn one() -> (r: Self) {
        primitive_one::<i8>()
    }

    fn is_zero(&self) -> (r: bool) {
        primitive_is_zero(self)
    }

    fn is_one(&self) -> (r: bool) {
        primitive_is_one(self)
    }

    fn less_than(&self, other: &Self) -> (r: bool) {
        *self < *other
    }

    fn plus(&self, other: &Self) -> (r: Self) {
        *self + *other
    }

    fn minus(&self, other: &Self) -> (r: Self) {
        *self - *other
    }

    fn negated(&self) -> (r: Self) {
        -*self
    }

    fn divided_by(&self, other: &Self) -> (r: Self) {
        *self / *other
    }

    fn is_even(&self) -> (r: bool) {
        *self % 2 == 0
    }
}

impl Primitive for i16 {
    spec fn integral(&self) -> int {
        *self as int
    }
}

impl Integer for i16 {
    open spec fn value(&self) -> int {
        *self as int
    }

    open spec fn representable(v: int) -> bool {
        i16::MIN <= v <= i16::MAX
    }

    proof fn value_is_representable(&self) {
    }

    proof fn representable_between(lo: int, mid: int, hi: int) {
    }

    proof fn small_representable() {
    }

    fn zero() -> (r: Self) {
        primitive_zero::<i16>()
    }

    fn one() -> (r: Self) {
        primitive_one::<i16>()
    }

    fn is_zero(&self) -> (r: bool) {
        primitive_is_zero(self)
    }

    fn is_one(&self) -> (r: bool) {
        primitive_is_one(self)
    }

    fn less_than(&self, other: &Self) -> (r: bool) {
        *self < *other
    }

    fn plus(&self, other: &Self) -> (r: Self) {
        *self + *other
    }

    fn minus(&self, other: &Self) -> (r: Self) {
        *self - *other
    }

    fn negated(&self) -> (r: Self) {
        -*self
    }

    fn divided_by(&self, other: &Self) -> (r: Self) {
        *self / *other
    }

    fn is_even(&self) -> (r: bool) {
        *self % 2 == 0
    }
}

impl Primitive for i32 {
    spec fn integral(&self) -> int {
        *self as int
    }
}

impl Integer for i32 {
    open spec fn value(&self) -> int {
        *self as int
    }

    open spec fn representable(v: int) -> bool {
        i32::MIN <= v <= i32::MAX
    }

    proof fn value_is_representable(&self) {
    }

    proof fn representable_between(lo: int, mid: int, hi: int) {
    }

    proof fn small_representable() {
    }

    fn zero() -> (r: Self) {
        primitive_zero::<i32>()
    }

    fn one() -> (r: Self) {
        primitive_one::<i32>()
    }

    fn is_zero(&self) -> (r: bool) {
        primitive_is_zero(self)
    }

    fn is_one(&self) -> (r: bool) {
        primitive_is_one(self)
    }

    fn less_than(&self, other: &Self) -> (r: bool) {
        *self < *other
    }

    fn plus(&self, other: &Self) -> (r: Self) {
        *self + *other
    }

    fn minus(&self, other: &Self) -> (r: Self) {
        *self - *other
    }

    fn negated(&self) -> (r: Self) {
        -*self
    }

    fn divided_by(&self, other: &Self) -> (r: Self) {
        *self / *other
    }

    fn is_even(&self) -> (r: bool) {
        *self % 2 == 0
    }
}

impl Primitive for i64 {
    spec fn integral(&self) -> int {
        *self as int
    }
}

impl Integer for i64 {
    open spec fn value(&self) -> int {
        *self as int
    }

    open spec fn representable(v: int) -> bool {
        i64::MIN <= v <= i64::MAX
    }

    proof fn value_is_representable(&self) {
    }

    proof fn representable_between(lo: int, mid: int, hi: int) {
    }

    proof fn small_representable() {
    }

    fn zero() -> (r: Self) {
        primitive_zero::<i64>()
    }

    fn one() -> (r: Self) {
        primitive_one::<i64>()
    }

    fn is_zero(&self) -> (r: bool) {
        primitive_is_zero(self)
    }

    fn is_one(&self) -> (r: bool) {
        primitive_is_one(self)
    }

    fn less_than(&self, other: &Self) -> (r: bool) {
        *self < *other
    }

    fn plus(&self, other: &Self) -> (r: Self) {
        *self + *other
    }

    fn minus(&self, other: &Self) -> (r: Self) {
        *self - *other
    }

    fn negated(&self) -> (r: Self) {
        -*self
    }

    fn divided_by(&self, other: &Self) -> (r: Self) {
        *self / *other
    }

    fn is_even(&self) -> (r: bool) {
        *self % 2 == 0
    }
}

impl Primitive for i128 {
    spec fn integral(&self) -> int {
        *self as int
    }
}

impl Integer for i128 {
    open spec fn value(&self) -> int {
        *self as int
    }

    open spec fn representable(v: int) -> bool {
        i128::MIN <= v <= i128::MAX
    }

    proof fn value_is_representable(&self) {
    }

    proof fn representable_between(lo: int, mid: int, hi: int) {
    }

    proof fn small_representable() {
    }

    fn zero() -> (r: Self) {
        primitive_zero::<i128>()
    }

    fn one() -> (r: Self) {
        primitive_one::<i128>()
    }

    fn is_zero(&self) -> (r: bool) {
        primitive_is_zero(self)
    }

    fn is_one(&self) -> (r: bool) {
        primitive_is_one(self)
    }

    fn less_than(&self, other: &Self) -> (r: bool) {
        *self < *other
    }

    fn plus(&self, other: &Self) -> (r: Self) {
        *self + *other
    }

    fn minus(&self, other: &Self) -> (r: Self) {
        *self - *other
    }

    fn negated(&self) -> (r: Self) {
        -*self
    }

    fn divided_by(&self, other: &Self) -> (r: Self) {
        *self / *other
    }

    fn is_even(&self) -> (r: bool) {
        *self % 2 == 0
    }
}

impl Primitive for isize {
    spec fn integral(&self) -> int {
        *self as int
    }
}

impl Integer for isize {
    open spec fn value(&self) -> int {
        *self as int
    }

    open spec fn representable(v: int) -> bool {
        isize::MIN <= v <= isize::MAX
    }

    proof fn value_is_representable(&self) {
    }

    proof fn representable_between(lo: int, mid: int, hi: int) {
    }

    proof fn small_representable() {
    }

    fn zero() -> (r: Self) {
        primitive_zero::<isize>()
    }

    fn one() -> (r: Self) {
        primitive_one::<isize>()
    }

    fn is_zero(&self) -> (r: bool) {
        primitive_is_zero(self)
    }

    fn is_one(&self) -> (r: bool) {
        primitive_is_one(self)
    }

    fn less_than(&self, other: &Self) -> (r: bool) {
        *self < *other
    }

    fn plus(&self, other: &Self) -> (r: Self) {
        *self + *other
    }

    fn minus(&self, other: &Self) -> (r: Self) {
        *self - *other
    }

    fn negated(&self) -> (r: Self) {
        -*self
    }

    fn divided_by(&self, other: &Self) -> (r: Self) {
        *self / *other
    }

    fn is_even(&self) -> (r: bool) {
        *self % 2 == 0
    }
}

impl Primitive for u8 {
    spec fn integral(&self) -> int {
        *self as int
    }
}

impl Integer for u8 {
    open spec fn value(&self) -> int {
        *self as int
    }

    open spec fn representable(v: int) -> bool {
        u8::MIN <= v <= u8::MAX
    }

    proof fn value_is_representable(&self) {
    }

    proof fn representable_between(lo: int, mid: int, hi: int) {
    }

    proof fn small_representable() {
    }

    fn zero() -> (r: Self) {
        primitive_zero::<u8>()
    }

    fn one() -> (r: Self) {
        primitive_one::<u8>()
    }

    fn is_zero(&self) -> (r: bool) {
        primitive_is_zero(self)
    }

    fn is_one(&self) -> (r: bool) {
        primitive_is_one(self)
    }

    fn less_than(&self, other: &Self) -> (r: bool) {
        *self < *other
    }

    fn plus(&self, other: &Self) -> (r: Self) {
        *self + *other
    }

    fn minus(&self, other: &Self) -> (r: Self) {
        *self - *other
    }

    fn negated(&self) -> (r: Self) {
        0 - *self
    }

    fn divided_by(&self, other: &Self) -> (r: Self) {
        *self / *other
    }

    fn is_even(&self) -> (r: bool) {
        *self % 2 == 0
    }

    fn is_positive(&self) -> (r: bool) {
        *self != 0
    }

    fn is_negative(&self) -> (r: bool) {
        false
    }
}

impl Primitive for u16 {
    spec fn integral(&self) -> int {
        *self as int
    }
}

impl Integer for u16 {
    open spec fn value(&self) -> int {
        *self as int
    }

    open spec fn representable(v: int) -> bool {
        u16::MIN <= v <= u16::MAX
    }

    proof fn value_is_representable(&self) {
    }

    proof fn representable_between(lo: int, mid: int, hi: int) {
    }

    proof fn small_representable() {
    }

    fn zero() -> (r: Self) {
        primitive_zero::<u16>()
    }

    fn one() -> (r: Self) {
        primitive_one::<u16>()
    }

    fn is_zero(&self) -> (r: bool) {
        primitive_is_zero(self)
    }

    fn is_one(&self) -> (r: bool) {
        primitive_is_one(self)
    }

    fn less_than(&self, other: &Self) -> (r: bool) {
        *self < *other
    }

    fn plus(&self, other: &Self) -> (r: Self) {
        *self + *other
    }

    fn minus(&self, other: &Self) -> (r: Self) {
        *self - *other
    }

    fn negated(&self) -> (r: Self) {
        0 - *self
    }

    fn divided_by(&self, other: &Self) -> (r: Self) {
        *self / *other
    }

    fn is_even(&self) -> (r: bool) {
        *self % 2 == 0
    }

    fn is_positive(&self) -> (r: bool) {
        *self != 0
    }

    fn is_negative(&self) -> (r: bool) {
        false
    }
}

impl Primitive for u32 {
    spec fn integral(&self) -> int {
        *self as int
    }
}

impl Integer for u32 {
    open spec fn value(&self) -> int {
        *self as int
    }

    open spec fn representable(v: int) -> bool {
        u32::MIN <= v <= u32::MAX
    }

    proof fn value_is_representable(&self) {
    }

    proof fn representable_between(lo: int, mid: int, hi: int) {
    }

    proof fn small_representable() {
    }

    fn zero() -> (r: Self) {
        primitive_zero::<u32>()
    }

    fn one() -> (r: Self) {
        primitive_one::<u32>()
    }

    fn is_zero(&self) -> (r: bool) {
        primitive_is_zero(self)
    }

    fn is_one(&self) -> (r: bool) {
        primitive_is_one(self)
    }

    fn less_than(&self, other: &Self) -> (r: bool) {
        *self < *other
    }

    fn plus(&self, other: &Self) -> (r: Self) {
        *self + *other
    }

    fn minus(&self, other: &Self) -> (r: Self) {
        *self - *other
    }

    fn negated(&self) -> (r: Self) {
        0 - *self
    }

    fn divided_by(&self, other: &Self) -> (r: Self) {
        *self / *other
    }

    fn is_even(&self) -> (r: bool) {
        *self % 2 == 0
    }

    fn is_positive(&self) -> (r: bool) {
        *self != 0
    }

    fn is_negative(&self) -> (r: bool) {
        false
    }
}

impl Primitive for u64 {
    spec fn integral(&self) -> int {
        *self as int
    }
}

impl Integer for u64 {
    open spec fn value(&self) -> int {
        *self as int
    }

    open spec fn representable(v: int) -> bool {
        u64::MIN <= v <= u64::MAX
    }

    proof fn value_is_representable(&self) {
    }

    proof fn representable_between(lo: int, mid: int, hi: int) {
    }

    proof fn small_representable() {
    }

    fn zero() -> (r: Self) {
        primitive_zero::<u64>()
    }

    fn one() -> (r: Self) {
        primitive_one::<u64>()
    }

    fn is_zero(&self) -> (r: bool) {
        primitive_is_zero(self)
    }

    fn is_one(&self) -> (r: bool) {
        primitive_is_one(self)
    }

    fn less_than(&self, other: &Self) -> (r: bool) {
        *self < *other
    }

    fn plus(&self, other: &Self) -> (r: Self) {
        *self + *other
    }

    fn minus(&self, other: &Self) -> (r: Self) {
        *self - *other
    }

    fn negated(&self) -> (r: Self) {
        0 - *self
    }

    fn divided_by(&self, other: &Self) -> (r: Self) {
        *self / *other
    }

    fn is_even(&self) -> (r: bool) {
        *self % 2 == 0
    }

    fn is_positive(&self) -> (r: bool) {
        *self != 0
    }

    fn is_negative(&self) -> (r: bool) {
        false
    }
}

impl Primitive for u128 {
    spec fn integral(&self) -> int {
        *self as int
    }
}

impl Integer for u128 {
    open spec fn value(&self) -> int {
        *self as int
    }

    open spec fn representable(v: int) -> bool {
        u128::MIN <= v <= u128::MAX
    }

    proof fn value_is_representable(&self) {
    }

    proof fn representable_between(lo: int, mid: int, hi: int) {
    }

    proof fn small_representable() {
    }

    fn zero() -> (r: Self) {
        primitive_zero::<u128>()
    }

    fn one() -> (r: Self) {
        primitive_one::<u128>()
    }

    fn is_zero(&self) -> (r: bool) {
        primitive_is_zero(self)
    }

    fn is_one(&self) -> (r: bool) {
        primitive_is_one(self)
    }

    fn less_than(&self, other: &Self) -> (r: bool) {
        *self < *other
    }

    fn plus(&self, other: &Self) -> (r: Self) {
        *self + *other
    }

    fn minus(&self, other: &Self) -> (r: Self) {
        *self - *other
    }

    fn negated(&self) -> (r: Self) {
        0 - *self
    }

    fn divided_by(&self, other: &Self) -> (r: Self) {
        *self / *other
    }

    fn is_even(&self) -> (r: bool) {
        *self % 2 == 0
    }

    fn is_positive(&self) -> (r: bool) {
        *self != 0
    }

    fn is_negative(&self) -> (r: bool) {
        false
    }
}

impl Primitive for usize {
    spec fn integral(&self) -> int {
        *self as int
    }
}

impl Integer for usize {
    open spec fn value(&self) -> int {
        *self as int
    }

    open spec fn representable(v: int) -> bool {
        usize::MIN <= v <= usize::MAX
    }

    proof fn value_is_representable(&self) {
    }

    proof fn representable_between(lo: int, mid: int, hi: int) {
    }

    proof fn small_representable() {
    }

    fn zero() -> (r: Self) {
        primitive_zero::<usize>()
    }

    fn one() -> (r: Self) {
        primitive_one::<usize>()
    }

    fn is_zero(&self) -> (r: bool) {
        primitive_is_zero(self)
    }

    fn is_one(&self) -> (r: bool) {
        primitive_is_one(self)
    }

    fn less_than(&self, other: &Self) -> (r: bool) {
        *self < *other
    }

    fn plus(&self, other: &Self) -> (r: Self) {
        *self + *other
    }

    fn minus(&self, other: &Self) -> (r: Self) {
        *self - *other
    }

    fn negated(&self) -> (r: Self) {
        0 - *self
    }

    fn divided_by(&self, other: &Self) -> (r: Self) {
        *self / *other
    }

    fn is_even(&self) -> (r: bool) {
        *self % 2 == 0
    }

    fn is_positive(&self) -> (r: bool) {
        *self != 0
    }

    fn is_negative(&self) -> (r: bool) {
        false
    }
}

} // verus!
