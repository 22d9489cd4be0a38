use tlib::vec_zip::{
    reversed, unzip, unzip10, unzip3, zip, zip10, zip3, VecUnzipTrait, VecZipTrait,
};

#[test]
fn test_zip10() {
    let (a, b, c, d, e, f, g, h, i, j) = (
        vec![0, 1],
        vec![2, 3],
        vec![4, 5],
        vec![6, 7],
        vec![8, 9],
        vec![10, 11],
        vec![12, 13],
        vec![14, 15],
        vec![16, 17],
        vec![18, 19],
    );

    let v = zip10(a, b, c, d, e, f, g, h, i, j);

    assert_eq!(
        vec![(0, 2, 4, 6, 8, 10, 12, 14, 16, 18), (1, 3, 5, 7, 9, 11, 13, 15, 17, 19)],
        v
    );
}

#[test]
fn test_unzip10() {
    let (a, b, c, d, e, f, g, h, i, j) = (
        vec![0, 1],
        vec![2, 3],
        vec![4, 5],
        vec![6, 7],
        vec![8, 9],
        vec![10, 11],
        vec![12, 13],
        vec![14, 15],
        vec![16, 17],
        vec![18, 19],
    );

    let v = zip10(a, b, c, d, e, f, g, h, i, j);

    assert_eq!(
        (
            vec![0, 1],
            vec![2, 3],
            vec![4, 5],
            vec![6, 7],
            vec![8, 9],
            vec![10, 11],
            vec![12, 13],
            vec![14, 15],
            vec![16, 17],
            vec![18, 19],
        ),
        unzip10(v)
    )
}

#[test]
fn zip_stops_at_the_shorter() {
    assert_eq!(zip(vec![1, 2, 3], vec!["a", "b"]), vec![(1, "a"), (2, "b")]);
    assert_eq!(zip(vec![1], vec!["a", "b"]), vec![(1, "a")]);
    assert_eq!(zip(Vec::<i32>::new(), vec!["a", "b"]), vec![]);
    assert_eq!(
        zip3(vec![1, 2, 3], vec!["a", "b", "c", "d"], vec![true, false, true]),
        vec![(1, "a", true), (2, "b", false), (3, "c", true)]
    );
}

#[test]
fn unzip_undoes_zip() {
    let a = vec![1, 2, 3];
    let b = vec!["x".to_string(), "y".to_string(), "z".to_string()];
    assert_eq!(unzip(zip(a.clone(), b.clone())), (a.clone(), b.clone()));
    let c = vec![0.5, 1.5, 2.5];
    assert_eq!(unzip3(zip3(a.clone(), b.clone(), c.clone())), (a, b, c));
    assert_eq!(unzip(Vec::<(u8, u8)>::new()), (vec![], vec![]));
}

#[test]
fn reversed_turns_the_order_round() {
    assert_eq!(reversed(vec![1, 2, 3]), vec![3, 2, 1]);
    assert_eq!(reversed(Vec::<u8>::new()), vec![]);
}

#[test]
fn zip_and_unzip_as_methods() {
    let pairs = VecZipTrait::zip(vec![1, 2, 3], vec!['a', 'b']);
    assert_eq!(pairs, vec![(1, 'a'), (2, 'b')]);
    assert_eq!(VecUnzipTrait::unzip(pairs), (vec![1, 2], vec!['a', 'b']));
}

#[test]
fn zip_from_the_ends() {
    assert_eq!(tlib::vec::zip(vec![1, 2, 3], vec!['a', 'b']), vec![(2, 'a'), (3, 'b')]);
    assert_eq!(tlib::vec::zip(vec![1], vec!['a', 'b']), vec![(1, 'b')]);
    assert_eq!(tlib::vec::zip(vec![1, 2], vec!['a', 'b']), vec![(1, 'a'), (2, 'b')]);
    assert_eq!(tlib::vec::zip(Vec::<u8>::new(), vec!['a']), vec![]);
    assert_eq!(tlib::vec::unzip(vec![(1, 'a'), (2, 'b')]), (vec![1, 2], vec!['a', 'b']));
    let pairs = tlib::vec::VecZipTrait::zip(vec![1, 2, 3], vec!['a', 'b']);
    assert_eq!(pairs, vec![(2, 'a'), (3, 'b')]);
    assert_eq!(tlib::vec::VecUnzipTrait::unzip(pairs), (vec![2, 3], vec!['a', 'b']));
}
