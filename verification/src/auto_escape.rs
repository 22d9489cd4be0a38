use vstd::prelude::*;
use vstd::std_specs::cmp::PartialEqSpec;

verus! {

/// The items of `s` with their escapedness told apart: an escape item marks
/// the item that follows it as escaped and is dropped itself; an escape item
/// that nothing follows stands for itself, not escaped.
///
/// With `\` as the escape item, `a b \ c` becomes `(false, a) (false, b)
/// (true, c)`, `\ \` becomes `(true, \)`, and `\` becomes `(false, \)`.
pub open spec fn auto_escape_spec(s: Seq<char>, esc: char) -> Seq<(bool, char)>
    decreases s.len(),
{
    if s.len() == 0 {
        Seq::empty()
    } else if s[0] == esc && s.len() >= 2 {
        seq![(true, s[1])] + auto_escape_spec(s.skip(2), esc)
    } else {
        seq![(false, s[0])] + auto_escape_spec(s.skip(1), esc)
    }
}

/// What one item with its escapedness is written back as: an escaped item
/// gets the escape item in front of it, unless it is the `except` item; any
/// other item is written as it is.
pub open spec fn unescape_item_spec(item: (bool, char), esc: char, except: Option<char>) -> Seq<
    char,
> {
    if item.0 && except != Some(item.1) {
        seq![esc, item.1]
    } else {
        seq![item.1]
    }
}

/// The items of `s` written back without their escapedness: the reverse of
/// `auto_escape_spec`, but for the `except` item, which stays unescaped.
pub open spec fn unescape_spec(s: Seq<(bool, char)>, esc: char, except: Option<char>) -> Seq<char>
    decreases s.len(),
{
    if s.len() == 0 {
        Seq::empty()
    } else {
        unescape_item_spec(s[0], esc, except) + unescape_spec(s.skip(1), esc, except)
    }
}

/// The items of `s` with their escapedness dropped.
pub open spec fn unescape_ignore_spec(s: Seq<(bool, char)>) -> Seq<char> {
    s.map_values(|item: (bool, char)| item.1)
}

/// Writing back one more item appends what that item is written back as.
pub proof fn lemma_unescape_push(s: Seq<(bool, char)>, item: (bool, char), esc: char, except: Option<char>)
    ensures
        unescape_spec(s.push(item), esc, except) == unescape_spec(s, esc, except)
            + unescape_item_spec(item, esc, except),
    decreases s.len(),
{
    if s.len() == 0 {
        assert(s.push(item).skip(1) =~= Seq::<(bool, char)>::empty());
        assert(unescape_spec(s.push(item).skip(1), esc, except) =~= Seq::<char>::empty());
        assert(s.push(item)[0] == item);
        assert(unescape_spec(s.push(item), esc, except) =~= unescape_item_spec(item, esc, except));
        assert(unescape_spec(s, esc, except) =~= Seq::<char>::empty());
    } else {
        lemma_unescape_push(s.skip(1), item, esc, except);
        assert(s.push(item).skip(1) =~= s.skip(1).push(item));
        assert(unescape_spec(s.push(item), esc, except) =~= unescape_spec(s, esc, except)
            + unescape_item_spec(item, esc, except));
    }
}

/// Tells the escaped items of `items` from the others, with `esc` as the
/// escape item.
pub fn auto_escape(items: &Vec<char>, esc: char) -> (r: Vec<(bool, char)>)
    ensures
        r@ == auto_escape_spec(items@, esc),
{
    let mut out: Vec<(bool, char)> = Vec::new();
    let mut i: usize = 0;
    assert(items@.skip(0) =~= items@);
    assert(out@ + auto_escape_spec(items@, esc) =~= auto_escape_spec(items@, esc));
    while i < items.len()
        invariant
            i <= items.len(),
            out@ + auto_escape_spec(items@.skip(i as int), esc) == auto_escape_spec(items@, esc),
        decreases items.len() - i,
    {
        let c = items[i];
        let ghost rest = items@.skip(i as int);
        let ghost before = out@;
        if c == esc && i + 1 < items.len() {
            out.push((true, items[i + 1]));
            proof {
                assert(rest.skip(2) =~= items@.skip(i + 2));
                assert(out@ + auto_escape_spec(rest.skip(2), esc) =~= before + auto_escape_spec(
                    rest,
                    esc,
                ));
            }
            i = i + 2;
        } else {
            out.push((false, c));
            proof {
                assert(rest.skip(1) =~= items@.skip(i + 1));
                assert(out@ + auto_escape_spec(rest.skip(1), esc) =~= before + auto_escape_spec(
                    rest,
                    esc,
                ));
            }
            i = i + 1;
        }
    }
    assert(out@ + auto_escape_spec(items@.skip(i as int), esc) =~= out@);
    out
}

/// Writes the items back without their escapedness, the escaped ones with
/// `esc` in front of them, but for the `except` item.
pub fn unescape(items: &Vec<(bool, char)>, esc: char, except: Option<char>) -> (r: Vec<char>)
    ensures
        r@ == unescape_spec(items@, esc, except),
{
    let mut out: Vec<char> = Vec::new();
    let mut i: usize = 0;
    while i < items.len()
        invariant
            i <= items.len(),
            out@ == unescape_spec(items@.take(i as int), esc, except),
        decreases items.len() - i,
    {
        let (escaped, c) = items[i];
        let plain = match except {
            Some(e) => e == c,
            None => false,
        };
        proof {
            lemma_unescape_push(items@.take(i as int), items@[i as int], esc, except);
            assert(items@.take(i as int).push(items@[i as int]) =~= items@.take(i + 1));
        }
        let ghost before = out@;
        if escaped && !plain {
            out.push(esc);
            out.push(c);
            assert(out@ =~= before + seq![esc, c]);
        } else {
            out.push(c);
            assert(out@ =~= before + seq![c]);
        }
        i = i + 1;
    }
    assert(items@.take(i as int) =~= items@);
    out
}

/// Drops the escapedness of the items.
pub fn unescape_ignore(items: &Vec<(bool, char)>) -> (r: Vec<char>)
    ensures
        r@ == unescape_ignore_spec(items@),
{
    let mut out: Vec<char> = Vec::new();
    let mut i: usize = 0;
    while i < items.len()
        invariant
            i <= items.len(),
            out@.len() == i,
            forall|k: int| 0 <= k < i ==> out@[k] == items@[k].1,
        decreases items.len() - i,
    {
        out.push(items[i].1);
        i = i + 1;
    }
    assert(out@ =~= unescape_ignore_spec(items@));
    out
}

/// Creates a function that tells whether its argument is equal to `x`.
pub fn indicator<T: PartialEq>(x: T) -> (f: impl Fn(&T) -> bool)
    ensures
        forall|t: &T| f.requires((t,)),
        forall|t: &T, r: bool|
            (#[trigger] f.ensures((t,), r)) && T::obeys_eq_spec() ==> r == t.eq_spec(&x),
{
    move |t: &T| -> (r: bool)
        ensures
            T::obeys_eq_spec() ==> r == t.eq_spec(&x),
        { *t == x }
}

/// Creates a function that tells whether its argument is equal to
/// `(false, x)`: the item `x`, not escaped.
pub fn indicator_not_escaped<T: PartialEq>(x: T) -> (f: impl Fn(&(bool, T)) -> bool)
    ensures
        forall|t: &(bool, T)| f.requires((t,)),
        forall|t: &(bool, T), r: bool|
            (#[trigger] f.ensures((t,), r)) && T::obeys_eq_spec() ==> r == (!t.0 && t.1.eq_spec(&x)),
{
    move |t: &(bool, T)| -> (r: bool)
        ensures
            T::obeys_eq_spec() ==> r == (!t.0 && t.1.eq_spec(&x)),
        { !t.0 && t.1 == x }
}

/// Creates a function that gives a clone of `esc` for every argument.
pub fn unescape_all<T, U: Clone>(esc: U) -> (f: impl Fn(&T) -> Option<U>)
    ensures
        forall|x: &T| f.requires((x,)),
        forall|x: &T, r: Option<U>|
            (#[trigger] f.ensures((x,), r)) ==> r is Some && cloned(esc, r->Some_0),
{
    move |x: &T| -> (r: Option<U>)
        ensures
            r is Some && cloned(esc, r->Some_0),
        { Some(esc.clone()) }
}

/// Creates a function that gives a clone of `esc` for every argument but
/// those equal to `t`, for which it gives nothing.
pub fn unescape_all_except<T: PartialEq, U: Clone>(t: T, esc: U) -> (f: impl Fn(&T) -> Option<U>)
    ensures
        forall|x: &T| f.requires((x,)),
        forall|x: &T, r: Option<U>|
            (#[trigger] f.ensures((x,), r)) && T::obeys_eq_spec() ==> (r is None <==> x.eq_spec(&t)),
        forall|x: &T, r: Option<U>|
            (#[trigger] f.ensures((x,), r)) && r is Some ==> cloned(esc, r->Some_0),
{
    move |x: &T| -> (r: Option<U>)
        ensures
            T::obeys_eq_spec() ==> (r is None <==> x.eq_spec(&t)),
            r is Some ==> cloned(esc, r->Some_0),
        {
            if *x == t {
                None
            } else {
                Some(esc.clone())
            }
        }
}

} // verus!
