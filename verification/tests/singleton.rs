use tlib::new_types;
use tlib::Singleton;

#[test]
fn singleton_is_initialised_once() {
    let mut s: Singleton<i32> = Singleton::new();
    assert!(!s.is_initialized());
    assert_eq!(s.to_option(), None);
    assert!(s.init(3));
    assert!(s.is_initialized());
    assert!(!s.init(4));
    assert_eq!(s.to_option(), Some(3));
    assert_eq!(s.into_option(), Some(3));
    assert_eq!(*s.inner(), 3);
    assert_eq!(s.unwrap(), 3);
    assert_eq!(s.expect("initialised above"), 3);
}

#[test]
fn singleton_references_and_maps() {
    let mut s: Singleton<String> = Singleton::new();
    assert_eq!(s.as_ref().into_option(), None);
    assert!(s.as_mut().into_option().is_none());
    s.init("a".to_string());
    s.inner_mut().push('b');
    assert_eq!(s.as_ref().into_option(), Some(&"ab".to_string()));
    if let Some(v) = s.as_mut().into_option() {
        v.push('c');
    }
    assert_eq!(s.as_ref().cloned().into_option(), Some("abc".to_string()));
    s.map_in_place(|v| v + "d");
    assert_eq!(s.inner(), "abcd");
    assert_eq!(s.map(|v| v.len()).into_option(), Some(4));
    let mut empty: Singleton<i32> = Singleton::new();
    empty.map_in_place(|v| v + 1);
    assert!(!empty.is_initialized());
    assert_eq!(empty.map(|v| v + 1).into_option(), None);
    let mut n: Singleton<i32> = Singleton::new();
    n.init(7);
    assert_eq!(n.as_ref().copied().into_option(), Some(7));
    assert!(Singleton::<i32>::new() < n);
}

#[test]
fn later_singleton_is_initialised_once() {
    let mut s: new_types::singleton::Singleton<String> = new_types::singleton::Singleton::new();
    assert!(!s.is_initialized());
    assert!(s.init("a".to_string()));
    assert!(!s.init("z".to_string()));
    assert_eq!(s.to_option(), Some("a".to_string()));
    s.inner_mut().push('b');
    assert_eq!(s.inner(), "ab");
    assert_eq!(s.as_ref().cloned().into_option(), Some("ab".to_string()));
    if let Some(v) = s.as_mut().into_option() {
        v.push('c');
    }
    s.map_inplace(|v| v + "d");
    assert_eq!(s.clone().unwrap(), "abcd");
    assert_eq!(s.clone().expect("initialised above"), "abcd");
    assert_eq!(s.map(|v| v.len()).into_option(), Some(4));
}
