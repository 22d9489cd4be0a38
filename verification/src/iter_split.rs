use crate::auto_escape::{auto_escape, auto_escape_spec, unescape, unescape_spec};
use vstd::prelude::*;
use vstd::std_specs::iter::IteratorSpec;

verus! {

/// Whether `item` separates: it is the separator, and not escaped.
pub open spec fn is_separator(item: (bool, char), sep: char) -> bool {
    !item.0 && item.1 == sep
}

/// The number of items of `s` before its first separator, or the length of
/// `s` where it has none.
pub open spec fn chunk_len(s: Seq<(bool, char)>, sep: char) -> int
    decreases s.len(),
{
    if s.len() == 0 || is_separator(s[0], sep) {
        0
    } else {
        1 + chunk_len(s.skip(1), sep)
    }
}

/// Whether the chunk that follows `emitted` chunks is the last that a limit
/// of `max_len` chunks allows. Separators that are kept do not count.
pub open spec fn limit_reached(emitted: nat, max_len: Option<usize>) -> bool {
    max_len is Some && max_len->Some_0 == emitted + 1
}

/// The chunks that `s` falls into at its separators, after `emitted` chunks
/// were already taken out in front of it.
///
/// The chunk that reaches the limit is the whole rest. Otherwise a chunk ends
/// before the next separator, which is dropped, or kept as a chunk of its own
/// where `keep_sep` is set. After a separator another chunk always follows,
/// even if it is empty.
pub open spec fn split_spec(
    s: Seq<(bool, char)>,
    emitted: nat,
    max_len: Option<usize>,
    sep: char,
    keep_sep: bool,
) -> Seq<Seq<(bool, char)>>
    decreases s.len(),
{
    let n = chunk_len(s, sep);
    if limit_reached(emitted, max_len) || n < 0 || n >= s.len() {
        seq![s]
    } else {
        let tail = split_spec(s.skip(n + 1), emitted + 1, max_len, sep, keep_sep);
        if keep_sep {
            seq![s.take(n), seq![s[n]]] + tail
        } else {
            seq![s.take(n)] + tail
        }
    }
}

/// The chunks as sequences.
pub open spec fn chunk_views(chunks: Seq<Vec<(bool, char)>>) -> Seq<Seq<(bool, char)>> {
    chunks.map_values(|c: Vec<(bool, char)>| c@)
}

/// The strings as sequences of characters.
pub open spec fn string_views(strings: Seq<String>) -> Seq<Seq<char>> {
    strings.map_values(|s: String| s@)
}

/// The pieces that the string `s` falls into at the separator `sep`, where
/// `esc` escapes: an escaped separator does not separate and loses its escape
/// item; any other escaped character keeps it.
pub open spec fn split_not_escaped_spec(
    s: Seq<char>,
    max_len: Option<usize>,
    sep: char,
    esc: char,
    keep_sep: bool,
) -> Seq<Seq<char>> {
    split_spec(auto_escape_spec(s, esc), 0, max_len, sep, keep_sep).map_values(
        |c: Seq<(bool, char)>| unescape_spec(c, esc, Some(sep)),
    )
}

/// Where `s` has no separator before `j`, and ends or has one at `j`, its
/// first chunk has `j` items.
pub proof fn lemma_chunk_len(s: Seq<(bool, char)>, sep: char, j: int)
    requires
        0 <= j <= s.len(),
        forall|k: int| 0 <= k < j ==> !is_separator(s[k], sep),
        j == s.len() || is_separator(s[j], sep),
    ensures
        chunk_len(s, sep) == j,
    decreases j,
{
    if j > 0 {
        let rest = s.skip(1);
        assert forall|k: int| 0 <= k < j - 1 implies !is_separator(rest[k], sep) by {
            assert(rest[k] == s[k + 1]);
        }
        lemma_chunk_len(rest, sep, j - 1);
    }
}

/// A copy of the items of `items` from `from` up to `to`.
fn copy_range(items: &Vec<(bool, char)>, from: usize, to: usize) -> (r: Vec<(bool, char)>)
    requires
        from <= to <= items.len(),
    ensures
        r@ == items@.subrange(from as int, to as int),
{
    let mut out: Vec<(bool, char)> = Vec::new();
    let mut i: usize = from;
    while i < to
        invariant
            from <= i <= to <= items.len(),
            out@ == items@.subrange(from as int, i as int),
        decreases to - i,
    {
        out.push(items[i]);
        assert(out@ =~= items@.subrange(from as int, i + 1));
        i = i + 1;
    }
    out
}

/// The index of the first separator of `items` at or after `from`, or the
/// length of `items` where none follows.
fn find_separator(items: &Vec<(bool, char)>, from: usize, sep: char) -> (j: usize)
    requires
        from <= items.len(),
    ensures
        from <= j <= items.len(),
        j - from == chunk_len(items@.skip(from as int), sep),
        j < items.len() ==> is_separator(items@[j as int], sep),
{
    let mut j: usize = from;
    while j < items.len() && (items[j].0 || items[j].1 != sep)
        invariant
            from <= j <= items.len(),
            forall|k: int| from <= k < j ==> !is_separator(items@[k], sep),
        decreases items.len() - j,
    {
        j = j + 1;
    }
    proof {
        let rest = items@.skip(from as int);
        assert forall|k: int| 0 <= k < j - from implies !is_separator(rest[k], sep) by {
            assert(rest[k] == items@[from + k]);
        }
        lemma_chunk_len(rest, sep, j - from);
    }
    j
}

/// Splits the items into chunks at the separators: the items that are `sep`
/// and not escaped. With `max_len`, at most that many chunks are made, the
/// last of which is the whole rest. With `keep_sep` each separator is emitted
/// too, as a chunk of its own that does not count.
pub fn split_impl(items: &Vec<(bool, char)>, max_len: Option<usize>, sep: char, keep_sep: bool) -> (r:
    Vec<Vec<(bool, char)>>)
    ensures
        chunk_views(r@) == split_spec(items@, 0, max_len, sep, keep_sep),
{
    let mut out: Vec<Vec<(bool, char)>> = Vec::new();
    let mut pos: usize = 0;
    let mut count: usize = 0;
    let len = items.len();
    assert(items@.skip(0) =~= items@);
    assert(chunk_views(out@) + split_spec(items@, 0, max_len, sep, keep_sep) =~= split_spec(
        items@,
        0,
        max_len,
        sep,
        keep_sep,
    ));
    loop
        invariant
            len == items.len(),
            count <= pos <= len,
            chunk_views(out@) + split_spec(
                items@.skip(pos as int),
                count as nat,
                max_len,
                sep,
                keep_sep,
            ) == split_spec(items@, 0, max_len, sep, keep_sep),
        decreases len - pos,
    {
        let ghost rest = items@.skip(pos as int);
        let ghost before = chunk_views(out@);
        let last = match max_len {
            Some(limit) => limit > 0 && limit - 1 == count,
            None => false,
        };
        let end = if last {
            len
        } else {
            find_separator(items, pos, sep)
        };
        let chunk = copy_range(items, pos, end);
        out.push(chunk);
        proof {
            assert(items@.subrange(pos as int, end as int) =~= rest.take(end - pos));
            assert(chunk_views(out@) =~= before.push(chunk@));
        }
        if end >= len {
            proof {
                assert(rest.take(end - pos) =~= rest);
                assert(split_spec(rest, count as nat, max_len, sep, keep_sep) =~= seq![rest]);
                assert(chunk_views(out@) =~= before + seq![rest]);
            }
            return out;
        }
        proof {
            assert(rest[end - pos] == items@[end as int]);
            assert(rest.skip(end - pos + 1) =~= items@.skip(end + 1));
        }
        if keep_sep {
            let mut single: Vec<(bool, char)> = Vec::new();
            single.push(items[end]);
            out.push(single);
            proof {
                assert(single@ =~= seq![rest[end - pos]]);
                assert(chunk_views(out@) =~= before.push(chunk@).push(single@));
                assert(chunk_views(out@) + split_spec(
                    items@.skip(end + 1),
                    (count + 1) as nat,
                    max_len,
                    sep,
                    keep_sep,
                ) =~= before + split_spec(rest, count as nat, max_len, sep, keep_sep));
            }
        } else {
            proof {
                assert(chunk_views(out@) + split_spec(
                    items@.skip(end + 1),
                    (count + 1) as nat,
                    max_len,
                    sep,
                    keep_sep,
                ) =~= before + split_spec(rest, count as nat, max_len, sep, keep_sep));
            }
        }
        pos = end + 1;
        count = count + 1;
    }
}

/// Splits the items into chunks at the separators, with no limit.
pub fn split(items: &Vec<(bool, char)>, sep: char, keep_sep: bool) -> (r: Vec<Vec<(bool, char)>>)
    ensures
        chunk_views(r@) == split_spec(items@, 0, None, sep, keep_sep),
{
    split_impl(items, None, sep, keep_sep)
}

/// Splits the items into at most `n` chunks at the separators.
pub fn splitn(items: &Vec<(bool, char)>, n: usize, sep: char, keep_sep: bool) -> (r: Vec<
    Vec<(bool, char)>,
>)
    ensures
        chunk_views(r@) == split_spec(items@, 0, Some(n), sep, keep_sep),
{
    split_impl(items, Some(n), sep, keep_sep)
}

/// `String::push` appends the character to the end of the string.
pub assume_specification[ String::push ](s: &mut String, c: char)
    ensures
        final(s)@ == old(s)@.push(c),
;

/// The characters of `s`.
pub fn chars_of(s: &str) -> (r: Vec<char>)
    ensures
        r@ == s@,
{
    let mut out: Vec<char> = Vec::new();
    broadcast use vstd::string::axiom_spec_iter;

    for c in it: s.chars()
        invariant
            it.seq() == s@,
            out@ == it.seq().take(it.index() as int),
    {
        out.push(c);
        assert(out@ =~= it.seq().take(it.index() + 1));
    }
    assert(s@.take(s@.len() as int) =~= s@);
    out
}

/// The string made of `chars`.
pub fn string_of(chars: &Vec<char>) -> (r: String)
    ensures
        r@ == chars@,
{
    let mut out = String::new();
    let mut i: usize = 0;
    while i < chars.len()
        invariant
            i <= chars.len(),
            out@ == chars@.take(i as int),
        decreases chars.len() - i,
    {
        out.push(chars[i]);
        assert(out@ =~= chars@.take(i + 1));
        i = i + 1;
    }
    assert(chars@.take(i as int) =~= chars@);
    out
}

/// Splits a string at a single separator character, respecting escaping.
pub trait SplitNotEscapedString {
    /// The characters of the string.
    spec fn characters(&self) -> Seq<char>;

    /// Splits with `sep`, escapes with `esc`, into at most `max_len` pieces
    /// where a limit is given.
    fn split_not_escaped_impl(
        &self,
        max_len: Option<usize>,
        sep: char,
        esc: char,
        keep_sep: bool,
    ) -> (r: Vec<String>)
        ensures
            string_views(r@) == split_not_escaped_spec(
                self.characters(),
                max_len,
                sep,
                esc,
                keep_sep,
            ),
    ;

    /// Splits with `sep`, escapes with `esc`.
    fn split_not_escaped(&self, sep: char, esc: char, keep_sep: bool) -> (r: Vec<String>)
        ensures
            string_views(r@) == split_not_escaped_spec(
                self.characters(),
                None,
                sep,
                esc,
                keep_sep,
            ),
    {
        self.split_not_escaped_impl(None, sep, esc, keep_sep)
    }

    /// Splits with `sep`, escapes with `esc`, into at most `n` pieces.
    fn splitn_not_escaped(&self, n: usize, sep: char, esc: char, keep_sep: bool) -> (r: Vec<
        String,
    >)
        ensures
            string_views(r@) == split_not_escaped_spec(
                self.characters(),
                Some(n),
                sep,
                esc,
                keep_sep,
            ),
    {
        self.split_not_escaped_impl(Some(n), sep, esc, keep_sep)
    }
}

impl SplitNotEscapedString for str {
    open spec fn characters(&self) -> Seq<char> {
        self@
    }

    fn split_not_escaped_impl(
        &self,
        max_len: Option<usize>,
        sep: char,
        esc: char,
        keep_sep: bool,
    ) -> (r: Vec<String>) {
        let chars = chars_of(self);
        let escaped = auto_escape(&chars, esc);
        let chunks = split_impl(&escaped, max_len, sep, keep_sep);
        let mut out: Vec<String> = Vec::new();
        let mut i: usize = 0;
        while i < chunks.len()
            invariant
                i <= chunks.len(),
                out@.len() == i,
                forall|k: int|
                    0 <= k < i ==> (#[trigger] out@[k])@ == unescape_spec(
                        chunks@[k]@,
                        esc,
                        Some(sep),
                    ),
            decreases chunks.len() - i,
        {
            let piece = unescape(&chunks[i], esc, Some(sep));
            out.push(string_of(&piece));
            i = i + 1;
        }
        assert(string_views(out@) =~= chunk_views(chunks@).map_values(
            |c: Seq<(bool, char)>| unescape_spec(c, esc, Some(sep)),
        ));
        out
    }
}

} // verus!
