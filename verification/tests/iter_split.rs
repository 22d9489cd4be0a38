use tlib::auto_escape::{
    auto_escape, indicator, indicator_not_escaped, unescape, unescape_all, unescape_all_except,
    unescape_ignore,
};
use tlib::iter_split::{chars_of, string_of};
use tlib::iter_tools::{split, split_impl, splitn, SplitNotEscapedString};

#[test]
fn split_string() {
    let s = "abcd";
    assert_eq!(s.split_not_escaped(':', '\\', false), vec!["abcd".to_string()]);
    let s = "abcd:efg:h";
    assert_eq!(
        s.split_not_escaped(':', '\\', false),
        vec!["abcd".to_string(), "efg".to_string(), "h".to_string()]
    );
    let s = "abc\\:d:efg:h";
    assert_eq!(
        s.split_not_escaped(':', '\\', false),
        vec!["abc:d".to_string(), "efg".to_string(), "h".to_string()]
    );
    let s = "";
    assert_eq!(s.split_not_escaped(':', '\\', false), vec![String::new()]);
}

#[test]
fn splitn_string() {
    let s = "abcd";
    assert_eq!(s.splitn_not_escaped(3, ':', '\\', false), vec!["abcd".to_string()]);
    let s = "abcd:efg:h";
    assert_eq!(
        s.splitn_not_escaped(2, ':', '\\', false),
        vec!["abcd".to_string(), "efg:h".to_string()]
    );
    let s = "abc\\:d:efg:h";
    assert_eq!(
        s.splitn_not_escaped(2, ':', '\\', false),
        vec!["abc:d".to_string(), "efg:h".to_string()]
    );
    let s = "";
    assert_eq!(s.splitn_not_escaped(3, ':', '\\', false), vec![String::new()]);
}

#[test]
fn split_string_keeps_separators_and_escapes() {
    assert_eq!(
        "a:b".split_not_escaped(':', '\\', true),
        vec!["a".to_string(), ":".to_string(), "b".to_string()]
    );
    assert_eq!("a:".split_not_escaped(':', '\\', false), vec!["a".to_string(), String::new()]);
    assert_eq!(":".split_not_escaped(':', '\\', false), vec![String::new(), String::new()]);
    // An escaped character that is no separator keeps its escape.
    assert_eq!("a\\b:c".split_not_escaped(':', '\\', false), vec!["a\\b".to_string(), "c".to_string()]);
    // A lone escape at the end stands for itself.
    assert_eq!("a\\".split_not_escaped(':', '\\', false), vec!["a\\".to_string()]);
    // The rest that a limit leaves whole keeps an escaped separator unescaped.
    assert_eq!(
        "a:b\\:c:d".splitn_not_escaped(2, ':', '\\', false),
        vec!["a".to_string(), "b:c:d".to_string()]
    );
    assert_eq!(
        "a:b:c".splitn_not_escaped(2, ':', '\\', true),
        vec!["a".to_string(), ":".to_string(), "b:c".to_string()]
    );
    // A limit of zero is never reached.
    assert_eq!(
        "a:b".splitn_not_escaped(0, ':', '\\', false),
        vec!["a".to_string(), "b".to_string()]
    );
    assert_eq!("a:b".to_string().split_not_escaped_impl(Some(1), ':', '\\', false), vec!["a:b".to_string()]);
}

#[test]
fn auto_escape_marks_escaped_items() {
    assert_eq!(
        auto_escape(&vec!['a', 'b', '\\', 'c'], '\\'),
        vec![(false, 'a'), (false, 'b'), (true, 'c')]
    );
    assert_eq!(auto_escape(&vec!['\\', '\\'], '\\'), vec![(true, '\\')]);
    assert_eq!(auto_escape(&vec!['\\'], '\\'), vec![(false, '\\')]);
    assert_eq!(auto_escape(&vec![], '\\'), vec![]);
}

#[test]
fn unescape_writes_escapes_back() {
    let items = vec![(false, 'a'), (false, 'b'), (true, 'c')];
    assert_eq!(unescape(&items, '\\', None), vec!['a', 'b', '\\', 'c']);
    assert_eq!(unescape(&items, '\\', Some('c')), vec!['a', 'b', 'c']);
    assert_eq!(unescape(&items, '\\', Some('a')), vec!['a', 'b', '\\', 'c']);
    assert_eq!(unescape_ignore(&items), vec!['a', 'b', 'c']);
    let plain = vec!['x', '\\', 'y', '\\', '\\', 'z'];
    assert_eq!(unescape(&auto_escape(&plain, '\\'), '\\', None), plain);
}

#[test]
fn split_chunks() {
    let items = vec![(false, 'a'), (false, ':'), (true, ':'), (false, ':'), (false, 'b')];
    assert_eq!(
        split(&items, ':', false),
        vec![vec![(false, 'a')], vec![(true, ':')], vec![(false, 'b')]]
    );
    assert_eq!(
        split(&items, ':', true),
        vec![
            vec![(false, 'a')],
            vec![(false, ':')],
            vec![(true, ':')],
            vec![(false, ':')],
            vec![(false, 'b')]
        ]
    );
    assert_eq!(
        splitn(&items, 2, ':', false),
        vec![vec![(false, 'a')], vec![(true, ':'), (false, ':'), (false, 'b')]]
    );
    assert_eq!(split_impl(&vec![], None, ':', true), vec![vec![]]);
}

#[test]
fn strings_and_characters() {
    assert_eq!(chars_of("héllo"), vec!['h', 'é', 'l', 'l', 'o']);
    assert_eq!(chars_of(""), vec![]);
    assert_eq!(string_of(&vec!['h', 'é', 'y']), "héy".to_string());
    assert_eq!(string_of(&vec![]), String::new());
}

#[test]
fn indicators_tell_items_apart() {
    let is_colon = indicator(':');
    assert!(is_colon(&':'));
    assert!(!is_colon(&';'));
    let is_plain_colon = indicator_not_escaped(':');
    assert!(is_plain_colon(&(false, ':')));
    assert!(!is_plain_colon(&(true, ':')));
    assert!(!is_plain_colon(&(false, ';')));
    let all = unescape_all::<char, char>('\\');
    assert_eq!(all(&':'), Some('\\'));
    assert_eq!(all(&'a'), Some('\\'));
    let all_but_colon = unescape_all_except(':', "esc".to_string());
    assert_eq!(all_but_colon(&':'), None);
    assert_eq!(all_but_colon(&'a'), Some("esc".to_string()));
}
