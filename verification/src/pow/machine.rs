use crate::pow::root::{exact_around_one, lemma_pow_unit_exponent, pow_spec, PowError};
use crate::pow::traits::{Abs, Numeric};
use vstd::arithmetic::div_mod::{
    lemma_fundamental_div_mod, lemma_mod_multiples_vanish, lemma_mul_mod_noop_general,
    lemma_small_mod,
};
use vstd::prelude::*;
use vstd::wrapping::{i16_specs, i32_specs, i64_specs, i8_specs};

verus! {

/// The number of values of an `i8`.
pub open spec fn range_i8() -> int {
    0x100
}

/// Cropping keeps the remainder: `signed_crop(v)` and `v` differ by a multiple
/// of the range.
proof fn lemma_crop_is_congruent_i8(v: int)
    ensures
        (i8_specs::signed_crop(v) as int) % range_i8() == v % range_i8(),
        i8_specs::signed_crop(v) as int == v % range_i8() || i8_specs::signed_crop(v) as int == v
            % range_i8() - range_i8(),
{
    let r = v % range_i8();
    assert(0 <= r < range_i8()) by {
        lemma_fundamental_div_mod(v, range_i8());
        vstd::arithmetic::div_mod::lemma_mod_bound(v, range_i8());
    }
    if r > i8::MAX as int {
        assert(i8_specs::signed_crop(v) as int == r - range_i8());
        lemma_mod_multiples_vanish(-1, r, range_i8());
        lemma_small_mod(r as nat, range_i8() as nat);
    } else {
        assert(i8_specs::signed_crop(v) as int == r);
        lemma_small_mod(r as nat, range_i8() as nat);
    }
}

/// A value in the range of an `i8` is what cropping leaves of it.
proof fn lemma_crop_of_small_i8(v: int)
    requires
        i8::MIN <= v <= i8::MAX,
    ensures
        i8_specs::signed_crop(v) as int == v,
{
    if v >= 0 {
        lemma_small_mod(v as nat, range_i8() as nat);
    } else {
        lemma_mod_multiples_vanish(1, v, range_i8());
        lemma_small_mod((v + range_i8()) as nat, range_i8() as nat);
    }
}

/// Two integers with the same remainder are cropped to the same value.
proof fn lemma_crop_by_remainder_i8(u: int, v: int)
    requires
        u % range_i8() == v % range_i8(),
    ensures
        i8_specs::signed_crop(u) == i8_specs::signed_crop(v),
{
}

/// Wrapping addition is addition followed by cropping.
proof fn lemma_wrapping_add_is_crop_i8(a: i8, b: i8)
    ensures
        i8_specs::wrapping_add(a, b) == i8_specs::signed_crop(a + b),
{
    let s = a + b;
    if s > i8::MAX as int {
        lemma_crop_of_small_i8(s - range_i8());
        lemma_mod_multiples_vanish(-1, s, range_i8());
        lemma_crop_by_remainder_i8(s - range_i8(), s);
    } else if s < i8::MIN as int {
        lemma_crop_of_small_i8(s + range_i8());
        lemma_mod_multiples_vanish(1, s, range_i8());
        lemma_crop_by_remainder_i8(s + range_i8(), s);
    } else {
        lemma_crop_of_small_i8(s);
    }
}

/// The machine integers with wrapping arithmetic: sums, differences and
/// products are taken modulo 2^8, which keeps addition and multiplication
/// associative. A division by zero, and the one quotient that does not fit,
/// give zero.
impl Numeric for i8 {
    open spec fn zero_spec() -> Self {
        0
    }

    open spec fn one_spec() -> Self {
        1
    }

    open spec fn plus_spec(self, rhs: Self) -> Self {
        i8_specs::wrapping_add(self, rhs)
    }

    open spec fn minus_spec(self, rhs: Self) -> Self {
        i8_specs::wrapping_sub(self, rhs)
    }

    open spec fn times_spec(self, rhs: Self) -> Self {
        i8_specs::wrapping_mul(self, rhs)
    }

    open spec fn divided_by_spec(self, rhs: Self) -> Self {
        match self.checked_div(rhs) {
            Some(q) => q,
            None => 0,
        }
    }

    open spec fn inverse_spec(self) -> Self {
        1i8.divided_by_spec(self)
    }

    open spec fn less_than_spec(self, rhs: Self) -> bool {
        self < rhs
    }

    proof fn plus_associative(a: Self, b: Self, c: Self) {
        let ab = i8_specs::wrapping_add(a, b);
        let bc = i8_specs::wrapping_add(b, c);
        lemma_wrapping_add_is_crop_i8(a, b);
        lemma_wrapping_add_is_crop_i8(b, c);
        lemma_wrapping_add_is_crop_i8(ab, c);
        lemma_wrapping_add_is_crop_i8(a, bc);
        lemma_crop_is_congruent_i8(a + b);
        lemma_crop_is_congruent_i8(b + c);
        assert((ab + c) % range_i8() == (a + b + c) % range_i8()) by {
            if ab as int == (a + b) % range_i8() - range_i8() {
                lemma_mod_multiples_vanish(-1, (a + b) % range_i8() + c, range_i8());
            }
            vstd::arithmetic::div_mod::lemma_add_mod_noop(a + b, c as int, range_i8());
            vstd::arithmetic::div_mod::lemma_add_mod_noop((a + b) % range_i8(), c as int, range_i8());
            vstd::arithmetic::div_mod::lemma_mod_twice(a + b, range_i8());
        }
        assert((a + bc) % range_i8() == (a + b + c) % range_i8()) by {
            if bc as int == (b + c) % range_i8() - range_i8() {
                lemma_mod_multiples_vanish(-1, a + (b + c) % range_i8(), range_i8());
            }
            vstd::arithmetic::div_mod::lemma_add_mod_noop(a as int, b + c, range_i8());
            vstd::arithmetic::div_mod::lemma_add_mod_noop(a as int, (b + c) % range_i8(), range_i8());
            vstd::arithmetic::div_mod::lemma_mod_twice(b + c, range_i8());
        }
        lemma_crop_by_remainder_i8(ab + c, a + bc);
    }

    proof fn plus_zero(a: Self) {
    }

    proof fn times_associative(a: Self, b: Self, c: Self) {
        let ab = i8_specs::signed_crop(a * b);
        let bc = i8_specs::signed_crop(b * c);
        lemma_crop_is_congruent_i8(a * b);
        lemma_crop_is_congruent_i8(b * c);
        lemma_mul_mod_noop_general(ab as int, c as int, range_i8());
        lemma_mul_mod_noop_general(a * b, c as int, range_i8());
        lemma_mul_mod_noop_general(a as int, bc as int, range_i8());
        lemma_mul_mod_noop_general(a as int, b * c, range_i8());
        assert((a * b) * c == a * (b * c)) by (nonlinear_arith);
        lemma_crop_by_remainder_i8(ab * c, a * bc);
    }

    proof fn times_one(a: Self) {
        assert(a * 1 == a && 1 * a == a) by (nonlinear_arith);
        lemma_crop_of_small_i8(a as int);
    }

    fn zero() -> (r: Self) {
        0
    }

    fn one() -> (r: Self) {
        1
    }

    fn plus(&self, rhs: &Self) -> (r: Self) {
        self.wrapping_add(*rhs)
    }

    fn minus(&self, rhs: &Self) -> (r: Self) {
        self.wrapping_sub(*rhs)
    }

    fn times(&self, rhs: &Self) -> (r: Self) {
        self.wrapping_mul(*rhs)
    }

    fn divided_by(&self, rhs: &Self) -> (r: Self) {
        match self.checked_div(*rhs) {
            Some(q) => q,
            None => 0,
        }
    }

    fn inverse(&self) -> (r: Self) {
        match 1i8.checked_div(*self) {
            Some(q) => q,
            None => 0,
        }
    }

    fn less_than(&self, rhs: &Self) -> (r: bool) {
        *self < *rhs
    }
}

/// The magnitude of a machine integer; that of the least one, which has no
/// positive counterpart, is the least one itself.
impl Abs for i8 {
    type Output = i8;

    open spec fn abs_spec(&self) -> i8 {
        if *self < 0 {
            i8_specs::wrapping_sub(0, *self)
        } else {
            *self
        }
    }

    fn abs(&self) -> (r: i8) {
        if *self < 0 {
            0i8.wrapping_sub(*self)
        } else {
            *self
        }
    }
}


/// The number of values of an `i16`.
pub open spec fn range_i16() -> int {
    0x1_0000
}

/// Cropping keeps the remainder: `signed_crop(v)` and `v` differ by a multiple
/// of the range.
proof fn lemma_crop_is_congruent_i16(v: int)
    ensures
        (i16_specs::signed_crop(v) as int) % range_i16() == v % range_i16(),
        i16_specs::signed_crop(v) as int == v % range_i16() || i16_specs::signed_crop(v) as int == v
            % range_i16() - range_i16(),
{
    let r = v % range_i16();
    assert(0 <= r < range_i16()) by {
        lemma_fundamental_div_mod(v, range_i16());
        vstd::arithmetic::div_mod::lemma_mod_bound(v, range_i16());
    }
    if r > i16::MAX as int {
        assert(i16_specs::signed_crop(v) as int == r - range_i16());
        lemma_mod_multiples_vanish(-1, r, range_i16());
        lemma_small_mod(r as nat, range_i16() as nat);
    } else {
        assert(i16_specs::signed_crop(v) as int == r);
        lemma_small_mod(r as nat, range_i16() as nat);
    }
}

/// A value in the range of an `i16` is what cropping leaves of it.
proof fn lemma_crop_of_small_i16(v: int)
    requires
        i16::MIN <= v <= i16::MAX,
    ensures
        i16_specs::signed_crop(v) as int == v,
{
    if v >= 0 {
        lemma_small_mod(v as nat, range_i16() as nat);
    } else {
        lemma_mod_multiples_vanish(1, v, range_i16());
        lemma_small_mod((v + range_i16()) as nat, range_i16() as nat);
    }
}

/// Two integers with the same remainder are cropped to the same value.
proof fn lemma_crop_by_remainder_i16(u: int, v: int)
    requires
        u % range_i16() == v % range_i16(),
    ensures
        i16_specs::signed_crop(u) == i16_specs::signed_crop(v),
{
}

/// Wrapping addition is addition followed by cropping.
proof fn lemma_wrapping_add_is_crop_i16(a: i16, b: i16)
    ensures
        i16_specs::wrapping_add(a, b) == i16_specs::signed_crop(a + b),
{
    let s = a + b;
    if s > i16::MAX as int {
        lemma_crop_of_small_i16(s - range_i16());
        lemma_mod_multiples_vanish(-1, s, range_i16());
        lemma_crop_by_remainder_i16(s - range_i16(), s);
    } else if s < i16::MIN as int {
        lemma_crop_of_small_i16(s + range_i16());
        lemma_mod_multiples_vanish(1, s, range_i16());
        lemma_crop_by_remainder_i16(s + range_i16(), s);
    } else {
        lemma_crop_of_small_i16(s);
    }
}

/// The machine integers with wrapping arithmetic: sums, differences and
/// products are taken modulo 2^16, which keeps addition and multiplication
/// associative. A division by zero, and the one quotient that does not fit,
/// give zero.
impl Numeric for i16 {
    open spec fn zero_spec() -> Self {
        0
    }

    open spec fn one_spec() -> Self {
        1
    }

    open spec fn plus_spec(self, rhs: Self) -> Self {
        i16_specs::wrapping_add(self, rhs)
    }

    open spec fn minus_spec(self, rhs: Self) -> Self {
        i16_specs::wrapping_sub(self, rhs)
    }

    open spec fn times_spec(self, rhs: Self) -> Self {
        i16_specs::wrapping_mul(self, rhs)
    }

    open spec fn divided_by_spec(self, rhs: Self) -> Self {
        match self.checked_div(rhs) {
            Some(q) => q,
            None => 0,
        }
    }

    open spec fn inverse_spec(self) -> Self {
        1i16.divided_by_spec(self)
    }

    open spec fn less_than_spec(self, rhs: Self) -> bool {
        self < rhs
    }

    proof fn plus_associative(a: Self, b: Self, c: Self) {
        let ab = i16_specs::wrapping_add(a, b);
        let bc = i16_specs::wrapping_add(b, c);
        lemma_wrapping_add_is_crop_i16(a, b);
        lemma_wrapping_add_is_crop_i16(b, c);
        lemma_wrapping_add_is_crop_i16(ab, c);
        lemma_wrapping_add_is_crop_i16(a, bc);
        lemma_crop_is_congruent_i16(a + b);
        lemma_crop_is_congruent_i16(b + c);
        assert((ab + c) % range_i16() == (a + b + c) % range_i16()) by {
            if ab as int == (a + b) % range_i16() - range_i16() {
                lemma_mod_multiples_vanish(-1, (a + b) % range_i16() + c, range_i16());
            }
            vstd::arithmetic::div_mod::lemma_add_mod_noop(a + b, c as int, range_i16());
            vstd::arithmetic::div_mod::lemma_add_mod_noop((a + b) % range_i16(), c as int, range_i16());
            vstd::arithmetic::div_mod::lemma_mod_twice(a + b, range_i16());
        }
        assert((a + bc) % range_i16() == (a + b + c) % range_i16()) by {
            if bc as int == (b + c) % range_i16() - range_i16() {
                lemma_mod_multiples_vanish(-1, a + (b + c) % range_i16(), range_i16());
            }
            vstd::arithmetic::div_mod::lemma_add_mod_noop(a as int, b + c, range_i16());
            vstd::arithmetic::div_mod::lemma_add_mod_noop(a as int, (b + c) % range_i16(), range_i16());
            vstd::arithmetic::div_mod::lemma_mod_twice(b + c, range_i16());
        }
        lemma_crop_by_remainder_i16(ab + c, a + bc);
    }

    proof fn plus_zero(a: Self) {
    }

    proof fn times_associative(a: Self, b: Self, c: Self) {
        let ab = i16_specs::signed_crop(a * b);
        let bc = i16_specs::signed_crop(b * c);
        lemma_crop_is_congruent_i16(a * b);
        lemma_crop_is_congruent_i16(b * c);
        lemma_mul_mod_noop_general(ab as int, c as int, range_i16());
        lemma_mul_mod_noop_general(a * b, c as int, range_i16());
        lemma_mul_mod_noop_general(a as int, bc as int, range_i16());
        lemma_mul_mod_noop_general(a as int, b * c, range_i16());
        assert((a * b) * c == a * (b * c)) by (nonlinear_arith);
        lemma_crop_by_remainder_i16(ab * c, a * bc);
    }

    proof fn times_one(a: Self) {
        assert(a * 1 == a && 1 * a == a) by (nonlinear_arith);
        lemma_crop_of_small_i16(a as int);
    }

    fn zero() -> (r: Self) {
        0
    }

    fn one() -> (r: Self) {
        1
    }

    fn plus(&self, rhs: &Self) -> (r: Self) {
        self.wrapping_add(*rhs)
    }

    fn minus(&self, rhs: &Self) -> (r: Self) {
        self.wrapping_sub(*rhs)
    }

    fn times(&self, rhs: &Self) -> (r: Self) {
        self.wrapping_mul(*rhs)
    }

    fn divided_by(&self, rhs: &Self) -> (r: Self) {
        match self.checked_div(*rhs) {
            Some(q) => q,
            None => 0,
        }
    }

    fn inverse(&self) -> (r: Self) {
        match 1i16.checked_div(*self) {
            Some(q) => q,
            None => 0,
        }
    }

    fn less_than(&self, rhs: &Self) -> (r: bool) {
        *self < *rhs
    }
}

/// The magnitude of a machine integer; that of the least one, which has no
/// positive counterpart, is the least one itself.
impl Abs for i16 {
    type Output = i16;

    open spec fn abs_spec(&self) -> i16 {
        if *self < 0 {
            i16_specs::wrapping_sub(0, *self)
        } else {
            *self
        }
    }

    fn abs(&self) -> (r: i16) {
        if *self < 0 {
            0i16.wrapping_sub(*self)
        } else {
            *self
        }
    }
}


/// The number of values of an `i32`.
pub open spec fn range_i32() -> int {
    0x1_0000_0000
}

/// Cropping keeps the remainder: `signed_crop(v)` and `v` differ by a multiple
/// of the range.
proof fn lemma_crop_is_congruent_i32(v: int)
    ensures
        (i32_specs::signed_crop(v) as int) % range_i32() == v % range_i32(),
        i32_specs::signed_crop(v) as int == v % range_i32() || i32_specs::signed_crop(v) as int == v
            % range_i32() - range_i32(),
{
    let r = v % range_i32();
    assert(0 <= r < range_i32()) by {
        lemma_fundamental_div_mod(v, range_i32());
        vstd::arithmetic::div_mod::lemma_mod_bound(v, range_i32());
    }
    if r > i32::MAX as int {
        assert(i32_specs::signed_crop(v) as int == r - range_i32());
        lemma_mod_multiples_vanish(-1, r, range_i32());
        lemma_small_mod(r as nat, range_i32() as nat);
    } else {
        assert(i32_specs::signed_crop(v) as int == r);
        lemma_small_mod(r as nat, range_i32() as nat);
    }
}

/// A value in the range of an `i32` is what cropping leaves of it.
proof fn lemma_crop_of_small_i32(v: int)
    requires
        i32::MIN <= v <= i32::MAX,
    ensures
        i32_specs::signed_crop(v) as int == v,
{
    if v >= 0 {
        lemma_small_mod(v as nat, range_i32() as nat);
    } else {
        lemma_mod_multiples_vanish(1, v, range_i32());
        lemma_small_mod((v + range_i32()) as nat, range_i32() as nat);
    }
}

/// Two integers with the same remainder are cropped to the same value.
proof fn lemma_crop_by_remainder_i32(u: int, v: int)
    requires
        u % range_i32() == v % range_i32(),
    ensures
        i32_specs::signed_crop(u) == i32_specs::signed_crop(v),
{
}

/// Wrapping addition is addition followed by cropping.
proof fn lemma_wrapping_add_is_crop_i32(a: i32, b: i32)
    ensures
        i32_specs::wrapping_add(a, b) == i32_specs::signed_crop(a + b),
{
    let s = a + b;
    if s > i32::MAX as int {
        lemma_crop_of_small_i32(s - range_i32());
        lemma_mod_multiples_vanish(-1, s, range_i32());
        lemma_crop_by_remainder_i32(s - range_i32(), s);
    } else if s < i32::MIN as int {
        lemma_crop_of_small_i32(s + range_i32());
        lemma_mod_multiples_vanish(1, s, range_i32());
        lemma_crop_by_remainder_i32(s + range_i32(), s);
    } else {
        lemma_crop_of_small_i32(s);
    }
}

/// The machine integers with wrapping arithmetic: sums, differences and
/// products are taken modulo 2^32, which keeps addition and multiplication
/// associative. A division by zero, and the one quotient that does not fit,
/// give zero.
impl Numeric for i32 {
    open spec fn zero_spec() -> Self {
        0
    }

    open spec fn one_spec() -> Self {
        1
    }

    open spec fn plus_spec(self, rhs: Self) -> Self {
        i32_specs::wrapping_add(self, rhs)
    }

    open spec fn minus_spec(self, rhs: Self) -> Self {
        i32_specs::wrapping_sub(self, rhs)
    }

    open spec fn times_spec(self, rhs: Self) -> Self {
        i32_specs::wrapping_mul(self, rhs)
    }

    open spec fn divided_by_spec(self, rhs: Self) -> Self {
        match self.checked_div(rhs) {
            Some(q) => q,
            None => 0,
        }
    }

    open spec fn inverse_spec(self) -> Self {
        1i32.divided_by_spec(self)
    }

    open spec fn less_than_spec(self, rhs: Self) -> bool {
        self < rhs
    }

    proof fn plus_associative(a: Self, b: Self, c: Self) {
        let ab = i32_specs::wrapping_add(a, b);
        let bc = i32_specs::wrapping_add(b, c);
        lemma_wrapping_add_is_crop_i32(a, b);
        lemma_wrapping_add_is_crop_i32(b, c);
        lemma_wrapping_add_is_crop_i32(ab, c);
        lemma_wrapping_add_is_crop_i32(a, bc);
        lemma_crop_is_congruent_i32(a + b);
        lemma_crop_is_congruent_i32(b + c);
        assert((ab + c) % range_i32() == (a + b + c) % range_i32()) by {
            if ab as int == (a + b) % range_i32() - range_i32() {
                lemma_mod_multiples_vanish(-1, (a + b) % range_i32() + c, range_i32());
            }
            vstd::arithmetic::div_mod::lemma_add_mod_noop(a + b, c as int, range_i32());
            vstd::arithmetic::div_mod::lemma_add_mod_noop((a + b) % range_i32(), c as int, range_i32());
            vstd::arithmetic::div_mod::lemma_mod_twice(a + b, range_i32());
        }
        assert((a + bc) % range_i32() == (a + b + c) % range_i32()) by {
            if bc as int == (b + c) % range_i32() - range_i32() {
                lemma_mod_multiples_vanish(-1, a + (b + c) % range_i32(), range_i32());
            }
            vstd::arithmetic::div_mod::lemma_add_mod_noop(a as int, b + c, range_i32());
            vstd::arithmetic::div_mod::lemma_add_mod_noop(a as int, (b + c) % range_i32(), range_i32());
            vstd::arithmetic::div_mod::lemma_mod_twice(b + c, range_i32());
        }
        lemma_crop_by_remainder_i32(ab + c, a + bc);
    }

    proof fn plus_zero(a: Self) {
    }

    proof fn times_associative(a: Self, b: Self, c: Self) {
        let ab = i32_specs::signed_crop(a * b);
        let bc = i32_specs::signed_crop(b * c);
        lemma_crop_is_congruent_i32(a * b);
        lemma_crop_is_congruent_i32(b * c);
        lemma_mul_mod_noop_general(ab as int, c as int, range_i32());
        lemma_mul_mod_noop_general(a * b, c as int, range_i32());
        lemma_mul_mod_noop_general(a as int, bc as int, range_i32());
        lemma_mul_mod_noop_general(a as int, b * c, range_i32());
        assert((a * b) * c == a * (b * c)) by (nonlinear_arith);
        lemma_crop_by_remainder_i32(ab * c, a * bc);
    }

    proof fn times_one(a: Self) {
        assert(a * 1 == a && 1 * a == a) by (nonlinear_arith);
        lemma_crop_of_small_i32(a as int);
    }

    fn zero() -> (r: Self) {
        0
    }

    fn one() -> (r: Self) {
        1
    }

    fn plus(&self, rhs: &Self) -> (r: Self) {
        self.wrapping_add(*rhs)
    }

    fn minus(&self, rhs: &Self) -> (r: Self) {
        self.wrapping_sub(*rhs)
    }

    fn times(&self, rhs: &Self) -> (r: Self) {
        self.wrapping_mul(*rhs)
    }

    fn divided_by(&self, rhs: &Self) -> (r: Self) {
        match self.checked_div(*rhs) {
            Some(q) => q,
            None => 0,
        }
    }

    fn inverse(&self) -> (r: Self) {
        match 1i32.checked_div(*self) {
            Some(q) => q,
            None => 0,
        }
    }

    fn less_than(&self, rhs: &Self) -> (r: bool) {
        *self < *rhs
    }
}

/// The magnitude of a machine integer; that of the least one, which has no
/// positive counterpart, is the least one itself.
impl Abs for i32 {
    type Output = i32;

    open spec fn abs_spec(&self) -> i32 {
        if *self < 0 {
            i32_specs::wrapping_sub(0, *self)
        } else {
            *self
        }
    }

    fn abs(&self) -> (r: i32) {
        if *self < 0 {
            0i32.wrapping_sub(*self)
        } else {
            *self
        }
    }
}


/// The number of values of an `i64`.
pub open spec fn range_i64() -> int {
    0x1_0000_0000_0000_0000
}

/// Cropping keeps the remainder: `signed_crop(v)` and `v` differ by a multiple
/// of the range.
proof fn lemma_crop_is_congruent_i64(v: int)
    ensures
        (i64_specs::signed_crop(v) as int) % range_i64() == v % range_i64(),
        i64_specs::signed_crop(v) as int == v % range_i64() || i64_specs::signed_crop(v) as int == v
            % range_i64() - range_i64(),
{
    let r = v % range_i64();
    assert(0 <= r < range_i64()) by {
        lemma_fundamental_div_mod(v, range_i64());
        vstd::arithmetic::div_mod::lemma_mod_bound(v, range_i64());
    }
    if r > i64::MAX as int {
        assert(i64_specs::signed_crop(v) as int == r - range_i64());
        lemma_mod_multiples_vanish(-1, r, range_i64());
        lemma_small_mod(r as nat, range_i64() as nat);
    } else {
        assert(i64_specs::signed_crop(v) as int == r);
        lemma_small_mod(r as nat, range_i64() as nat);
    }
}

/// A value in the range of an `i64` is what cropping leaves of it.
proof fn lemma_crop_of_small_i64(v: int)
    requires
        i64::MIN <= v <= i64::MAX,
    ensures
        i64_specs::signed_crop(v) as int == v,
{
    if v >= 0 {
        lemma_small_mod(v as nat, range_i64() as nat);
    } else {
        lemma_mod_multiples_vanish(1, v, range_i64());
        lemma_small_mod((v + range_i64()) as nat, range_i64() as nat);
    }
}

/// Two integers with the same remainder are cropped to the same value.
proof fn lemma_crop_by_remainder_i64(u: int, v: int)
    requires
        u % range_i64() == v % range_i64(),
    ensures
        i64_specs::signed_crop(u) == i64_specs::signed_crop(v),
{
}

/// Wrapping addition is addition followed by cropping.
proof fn lemma_wrapping_add_is_crop_i64(a: i64, b: i64)
    ensures
        i64_specs::wrapping_add(a, b) == i64_specs::signed_crop(a + b),
{
    let s = a + b;
    if s > i64::MAX as int {
        lemma_crop_of_small_i64(s - range_i64());
        lemma_mod_multiples_vanish(-1, s, range_i64());
        lemma_crop_by_remainder_i64(s - range_i64(), s);
    } else if s < i64::MIN as int {
        lemma_crop_of_small_i64(s + range_i64());
        lemma_mod_multiples_vanish(1, s, range_i64());
        lemma_crop_by_remainder_i64(s + range_i64(), s);
    } else {
        lemma_crop_of_small_i64(s);
    }
}

/// The machine integers with wrapping arithmetic: sums, differences and
/// products are taken modulo 2^64, which keeps addition and multiplication
/// associative. A division by zero, and the one quotient that does not fit,
/// give zero.
impl Numeric for i64 {
    open spec fn zero_spec() -> Self {
        0
    }

    open spec fn one_spec() -> Self {
        1
    }

    open spec fn plus_spec(self, rhs: Self) -> Self {
        i64_specs::wrapping_add(self, rhs)
    }

    open spec fn minus_spec(self, rhs: Self) -> Self {
        i64_specs::wrapping_sub(self, rhs)
    }

    open spec fn times_spec(self, rhs: Self) -> Self {
        i64_specs::wrapping_mul(self, rhs)
    }

    open spec fn divided_by_spec(self, rhs: Self) -> Self {
        match self.checked_div(rhs) {
            Some(q) => q,
            None => 0,
        }
    }

    open spec fn inverse_spec(self) -> Self {
        1i64.divided_by_spec(self)
    }

    open spec fn less_than_spec(self, rhs: Self) -> bool {
        self < rhs
    }

    proof fn plus_associative(a: Self, b: Self, c: Self) {
        let ab = i64_specs::wrapping_add(a, b);
        let bc = i64_specs::wrapping_add(b, c);
        lemma_wrapping_add_is_crop_i64(a, b);
        lemma_wrapping_add_is_crop_i64(b, c);
        lemma_wrapping_add_is_crop_i64(ab, c);
        lemma_wrapping_add_is_crop_i64(a, bc);
        lemma_crop_is_congruent_i64(a + b);
        lemma_crop_is_congruent_i64(b + c);
        assert((ab + c) % range_i64() == (a + b + c) % range_i64()) by {
            if ab as int == (a + b) % range_i64() - range_i64() {
                lemma_mod_multiples_vanish(-1, (a + b) % range_i64() + c, range_i64());
            }
            vstd::arithmetic::div_mod::lemma_add_mod_noop(a + b, c as int, range_i64());
            vstd::arithmetic::div_mod::lemma_add_mod_noop((a + b) % range_i64(), c as int, range_i64());
            vstd::arithmetic::div_mod::lemma_mod_twice(a + b, range_i64());
        }
        assert((a + bc) % range_i64() == (a + b + c) % range_i64()) by {
            if bc as int == (b + c) % range_i64() - range_i64() {
                lemma_mod_multiples_vanish(-1, a + (b + c) % range_i64(), range_i64());
            }
            vstd::arithmetic::div_mod::lemma_add_mod_noop(a as int, b + c, range_i64());
            vstd::arithmetic::div_mod::lemma_add_mod_noop(a as int, (b + c) % range_i64(), range_i64());
            vstd::arithmetic::div_mod::lemma_mod_twice(b + c, range_i64());
        }
        lemma_crop_by_remainder_i64(ab + c, a + bc);
    }

    proof fn plus_zero(a: Self) {
    }

    proof fn times_associative(a: Self, b: Self, c: Self) {
        let ab = i64_specs::signed_crop(a * b);
        let bc = i64_specs::signed_crop(b * c);
        lemma_crop_is_congruent_i64(a * b);
        lemma_crop_is_congruent_i64(b * c);
        lemma_mul_mod_noop_general(ab as int, c as int, range_i64());
        lemma_mul_mod_noop_general(a * b, c as int, range_i64());
        lemma_mul_mod_noop_general(a as int, bc as int, range_i64());
        lemma_mul_mod_noop_general(a as int, b * c, range_i64());
        assert((a * b) * c == a * (b * c)) by (nonlinear_arith);
        lemma_crop_by_remainder_i64(ab * c, a * bc);
    }

    proof fn times_one(a: Self) {
        assert(a * 1 == a && 1 * a == a) by (nonlinear_arith);
        lemma_crop_of_small_i64(a as int);
    }

    fn zero() -> (r: Self) {
        0
    }

    fn one() -> (r: Self) {
        1
    }

    fn plus(&self, rhs: &Self) -> (r: Self) {
        self.wrapping_add(*rhs)
    }

    fn minus(&self, rhs: &Self) -> (r: Self) {
        self.wrapping_sub(*rhs)
    }

    fn times(&self, rhs: &Self) -> (r: Self) {
        self.wrapping_mul(*rhs)
    }

    fn divided_by(&self, rhs: &Self) -> (r: Self) {
        match self.checked_div(*rhs) {
            Some(q) => q,
            None => 0,
        }
    }

    fn inverse(&self) -> (r: Self) {
        match 1i64.checked_div(*self) {
            Some(q) => q,
            None => 0,
        }
    }

    fn less_than(&self, rhs: &Self) -> (r: bool) {
        *self < *rhs
    }
}

/// The magnitude of a machine integer; that of the least one, which has no
/// positive counterpart, is the least one itself.
impl Abs for i64 {
    type Output = i64;

    open spec fn abs_spec(&self) -> i64 {
        if *self < 0 {
            i64_specs::wrapping_sub(0, *self)
        } else {
            *self
        }
    }

    fn abs(&self) -> (r: i64) {
        if *self < 0 {
            0i64.wrapping_sub(*self)
        } else {
            *self
        }
    }
}

/// The wrapping arithmetic of an `i64` is exact around one, so that with a
/// positive precision and two iterations allowed the power to the exponent
/// 1/1 of any `x` is `x`.
pub proof fn lemma_pow_unit_exponent_i64(x: i64, precision: i64, limit: nat)
    requires
        precision > 0,
        limit >= 2,
    ensures
        exact_around_one(x),
        pow_spec(x, 1, 1, Some(precision), limit) == Ok::<i64, PowError>(x),
{
    lemma_pow_unit_exponent(x, precision, limit);
}

} // verus!
