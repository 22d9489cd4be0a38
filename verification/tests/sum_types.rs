use tlib::either::Either;
use tlib::new_types;
use tlib::union::Union;

#[test]
fn either_unwrap_and_tests() {
    let a: Either<i32, &str> = Either::A(3);
    let b: Either<i32, &str> = Either::B("x");
    assert!(a.is_a() && !a.is_b());
    assert!(b.is_b() && !b.is_a());
    assert_eq!(a.unwrap_a(), 3);
    assert_eq!(b.unwrap_b(), "x");
    assert_eq!(a.some_a(), Some(3));
    assert_eq!(a.some_b(), None);
    assert_eq!(b.some_a(), None);
    assert_eq!(b.some_b(), Some("x"));
}

#[test]
fn either_references() {
    let mut a: Either<i32, String> = Either::A(3);
    assert_eq!(a.as_ref(), Either::A(&3));
    if let Either::A(x) = a.as_mut() {
        *x += 1;
    }
    assert_eq!(a, Either::A(4));
    let mut b: Either<i32, String> = Either::B("x".to_string());
    if let Either::B(s) = b.as_mut() {
        s.push('y');
    }
    assert_eq!(b.as_ref(), Either::B(&"xy".to_string()));
}

#[test]
fn either_maps() {
    let a: Either<i32, u8> = Either::A(3);
    let b: Either<i32, u8> = Either::B(4);
    assert_eq!(a.map(|x| x + 1, |y| y * 2), Either::A(4));
    assert_eq!(b.map(|x| x + 1, |y| y * 2), Either::B(8));
    assert_eq!(a.map_a(|x| x.to_string()), Either::A("3".to_string()));
    assert_eq!(b.map_a(|x| x.to_string()), Either::B(4));
    assert_eq!(a.map_b(|y| y.to_string()), Either::A(3));
    assert_eq!(b.map_b(|y| y.to_string()), Either::B("4".to_string()));
    assert_eq!(a.map_ref(|x| *x + 1, |y| *y * 2), Either::A(4));
    assert_eq!(b.map_ref(|x| *x + 1, |y| *y * 2), Either::B(8));
    assert_eq!(a.map_ref_a(|x| *x > 2), Either::A(true));
    assert_eq!(b.map_ref_a(|x| *x > 2), Either::B(4));
    assert_eq!(a.map_ref_b(|y| *y > 2), Either::A(3));
    assert_eq!(b.map_ref_b(|y| *y > 2), Either::B(true));
    let mut calls = 0;
    let counted = a.map_a(|x| {
        calls += 1;
        x
    });
    assert_eq!(counted, Either::A(3));
    assert_eq!(calls, 1);
}

#[test]
fn either_collapse() {
    let a: Either<i32, i32> = Either::A(3);
    let b: Either<i32, i32> = Either::B(4);
    assert_eq!(a.collapse(), 3);
    assert_eq!(b.collapse(), 4);
}

#[test]
fn union_unwrap_and_tests() {
    let a: Union<i32, &str> = Union::A(3);
    let b: Union<i32, &str> = Union::B("x");
    assert!(a.is_a() && !a.is_b());
    assert!(b.is_b() && !b.is_a());
    assert_eq!(a.unwrap_a(), 3);
    assert_eq!(b.unwrap_b(), "x");
    assert_eq!(a.some_a(), Some(3));
    assert_eq!(a.some_b(), None);
    assert_eq!(b.some_a(), None);
    assert_eq!(b.some_b(), Some("x"));
}

#[test]
fn union_references_and_maps() {
    let mut a: Union<i32, u8> = Union::A(3);
    let b: Union<i32, u8> = Union::B(4);
    assert_eq!(a.as_ref(), Union::A(&3));
    if let Union::A(x) = a.as_mut() {
        *x = 5;
    }
    assert_eq!(a, Union::A(5));
    assert_eq!(a.map(|x| x + 1, |y| y * 2), Union::A(6));
    assert_eq!(b.map(|x| x + 1, |y| y * 2), Union::B(8));
    assert_eq!(a.map_a(|x| x * 2), Union::A(10));
    assert_eq!(b.map_a(|x| x * 2), Union::B(4));
    assert_eq!(a.map_b(|y| y * 2), Union::A(5));
    assert_eq!(b.map_b(|y| y * 2), Union::B(8));
    assert_eq!(a.map_ref(|x| *x + 1, |y| *y * 2), Union::A(6));
    assert_eq!(a.map_ref_a(|x| *x + 1), Union::A(6));
    assert_eq!(b.map_ref_a(|x| *x + 1), Union::B(4));
    assert_eq!(a.map_ref_b(|y| *y + 1), Union::A(5));
    assert_eq!(b.map_ref_b(|y| *y + 1), Union::B(5));
    let c: Union<u8, u8> = Union::B(9);
    assert_eq!(c.collapse(), 9);
}

#[test]
fn optionlike_union_accessors() {
    let mut a: new_types::union::Union<i32, String> = new_types::union::Union::A(3);
    let mut b: new_types::union::Union<i32, String> = new_types::union::Union::B("x".to_string());
    assert!(a.is_a() && !a.is_b());
    assert!(b.is_b() && !b.is_a());
    assert_eq!(a.to_option_a(), Some(&3));
    assert_eq!(a.to_option_b(), None);
    assert_eq!(b.to_option_a(), None);
    assert_eq!(b.to_option_b(), Some(&"x".to_string()));
    *a.a_mut() += 1;
    b.b_mut().push('y');
    assert_eq!(a.cloned(), new_types::union::Union::A(4));
    assert_eq!(b.cloned(), new_types::union::Union::B("xy".to_string()));
    assert_eq!(a.clone().into_option_a(), Some(4));
    assert_eq!(a.clone().into_option_b(), None);
    assert_eq!(b.clone().into_option_b(), Some("xy".to_string()));
    assert_eq!(b.clone().into_option_a(), None);
    assert_eq!(a.clone().unwrap_a(), 4);
    assert_eq!(b.clone().unwrap_b(), "xy".to_string());
}

#[test]
fn optionlike_union_maps() {
    let a: new_types::union::Union<i32, u8> = new_types::union::Union::A(3);
    let b: new_types::union::Union<i32, u8> = new_types::union::Union::B(4);
    assert_eq!(a.map_a(|x| x + 1), new_types::union::Union::A(4));
    assert_eq!(b.map_a(|x| x + 1), new_types::union::Union::B(4));
    assert_eq!(a.map_b(|y| y + 1), new_types::union::Union::A(3));
    assert_eq!(b.map_b(|y| y + 1), new_types::union::Union::B(5));
    assert_eq!(a.map(|x| x > 0, |y| y > 9), new_types::union::Union::A(true));
    assert_eq!(b.map(|x| x > 0, |y| y > 9), new_types::union::Union::B(false));
    let c: new_types::union::Union<u8, u8> = new_types::union::Union::A(9);
    assert_eq!(c.collapse(), 9);
}
