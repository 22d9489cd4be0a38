use tlib::linear::{lerp, MapRange};

#[test]
fn linear_lerp_of_integers() {
    // b + (a - b) * t
    assert_eq!(lerp(10, 4, 3), 22);
    assert_eq!(lerp(10, 4, 0), 4);
    assert_eq!(lerp(10, 4, 1), 10);
}

#[test]
fn linear_lerp_of_floats() {
    assert_eq!(lerp(8.0, 4.0, 0.25), 5.0);
    assert_eq!(lerp(-1.5, 0.5, 0.5), -0.5);
}

#[test]
fn map_range_from_start_end() {
    let map = MapRange::from_start_end((1.0, 3.0), (2.0, 6.0));
    assert_eq!(map.eval(2.0), 4.0);
    assert_eq!(map.eval(1.0), 2.0);
    assert_eq!(map.eval(3.0), 6.0);
    assert_eq!(map.into_eval(0.0), 0.0);
}

#[test]
fn map_range_from_start_len() {
    let map = MapRange::from_start_len((0, 2), (10, 20));
    // 20 * ((point - 0) / 2) + 10, with the division of integers
    assert_eq!(map.eval(2), 30);
    assert_eq!(map.eval(3), 30);
    assert_eq!(map.eval(4), 50);
    assert_eq!(map.into_eval(0), 10);
    let same = MapRange::from_start_end((0, 2), (10, 30));
    assert_eq!(same.into_eval(4), 50);
}
