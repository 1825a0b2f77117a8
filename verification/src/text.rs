//! Character-level text utilities.
//!
//! Strings are modelled by their view, a `Seq<char>`. Every executable
//! function here is specified by a spec function over such sequences, so
//! that parsers built on top of them have exact contracts.

use itertools::Itertools;
use vstd::prelude::*;

verus! {

/// The Unicode `White_Space` property of a character beyond ASCII, as
/// `char::is_whitespace` reports it.
pub uninterp spec fn unicode_white_space(c: char) -> bool;

/// Whether a character is whitespace. Among the ASCII characters these are
/// the space and the five from the tab to the carriage return; beyond ASCII
/// they are the characters with the Unicode `White_Space` property.
pub open spec fn char_is_whitespace(c: char) -> bool {
    if (c as u32) < 128 {
        (c as u32) == 32 || 9 <= (c as u32) <= 13
    } else {
        unicode_white_space(c)
    }
}

/// Wraps `char::is_whitespace`. The contract states its answer for the ASCII
/// characters and names it for every other character.
#[verifier::external_body]
pub(crate) fn is_whitespace(c: char) -> (r: bool)
    ensures
        r == char_is_whitespace(c),
        (c as u32) >= 128 ==> r == unicode_white_space(c),
{
    c.is_whitespace()
}

/// Wraps `String::push`: the character is appended at the end and nothing else moves.
#[verifier::external_body]
pub(crate) fn push_char(s: &mut String, c: char)
    ensures
        final(s)@ == old(s)@.push(c),
{
    s.push(c)
}

/// The characters of a string, in order.
pub fn to_chars(s: &str) -> (out: Vec<char>)
    ensures
        out@ == s@,
{
    let mut out: Vec<char> = Vec::new();
    for c in it: s.chars()
        invariant
            it.seq() == s@,
            out@ == s@.take(it.index() as int),
    {
        out.push(c);
    }
    out
}

/// The string made of the given characters, in order.
pub fn from_chars(v: &Vec<char>) -> (s: String)
    ensures
        s@ == v@,
{
    let mut s = String::new();
    let mut i: usize = 0;
    while i < v.len()
        invariant
            i <= v.len(),
            s@ == v@.take(i as int),
        decreases v.len() - i,
    {
        push_char(&mut s, v[i]);
        i = i + 1;
    }
    s
}

/// A copy of `v[from..to]`.
pub fn sub_vec(v: &Vec<char>, from: usize, to: usize) -> (out: Vec<char>)
    requires
        from <= to <= v.len(),
    ensures
        out@ == v@.subrange(from as int, to as int),
{
    let mut out: Vec<char> = Vec::new();
    let mut i: usize = from;
    while i < to
        invariant
            from <= i <= to <= v.len(),
            out@ == v@.subrange(from as int, i as int),
        decreases to - i,
    {
        out.push(v[i]);
        i = i + 1;
    }
    out
}

/// Every character of `s` is whitespace (an empty sequence is blank).
pub open spec fn is_blank(s: Seq<char>) -> bool {
    forall|i: int| 0 <= i < s.len() ==> char_is_whitespace(#[trigger] s[i])
}

/// Decides `is_blank` for a string.
pub fn str_is_blank(s: &str) -> (r: bool)
    ensures
        r == is_blank(s@),
{
    let v = to_chars(s);
    let mut i: usize = 0;
    while i < v.len()
        invariant
            i <= v.len(),
            v@ == s@,
            forall|j: int| 0 <= j < i ==> char_is_whitespace(#[trigger] v@[j]),
        decreases v.len() - i,
    {
        if !is_whitespace(v[i]) {
            return false;
        }
        i = i + 1;
    }
    true
}

/// `s` without its leading whitespace.
pub open spec fn trim_start(s: Seq<char>) -> Seq<char>
    decreases s.len(),
{
    if s.len() > 0 && char_is_whitespace(s[0]) {
        trim_start(s.drop_first())
    } else {
        s
    }
}

/// `s` without its trailing whitespace.
pub open spec fn trim_end(s: Seq<char>) -> Seq<char>
    decreases s.len(),
{
    if s.len() > 0 && char_is_whitespace(s.last()) {
        trim_end(s.drop_last())
    } else {
        s
    }
}

/// `s` without leading and trailing whitespace.
pub open spec fn trim(s: Seq<char>) -> Seq<char> {
    trim_end(trim_start(s))
}

/// A text that holds a visible ASCII character is not blank.
pub proof fn lemma_visible_ascii_is_not_blank(s: Seq<char>, i: int)
    requires
        0 <= i < s.len(),
        32 < (s[i] as u32) < 128,
    ensures
        !is_blank(s),
{
    assert(!char_is_whitespace(s[i]));
}

/// A blank sequence trims to the empty one, and only a blank one does.
pub proof fn law_blank_iff_trim_is_empty(s: Seq<char>)
    ensures
        (trim(s).len() == 0) <==> is_blank(s),
{
    lemma_trim_start_blank(s);
    lemma_trim_end_blank(trim_start(s));
    lemma_trim_start_suffix(s);
    let t = trim_start(s);
    if is_blank(s) {
        assert(t.len() == 0);
    } else {
        assert(t.len() > 0);
        assert(!char_is_whitespace(t[0]));
        assert(!is_blank(t));
    }
}

proof fn lemma_trim_start_suffix(s: Seq<char>)
    ensures
        trim_start(s).len() <= s.len(),
        trim_start(s) == s.skip(s.len() - trim_start(s).len()),
        forall|i: int| 0 <= i < s.len() - trim_start(s).len() ==> char_is_whitespace(#[trigger] s[i]),
        trim_start(s).len() > 0 ==> !char_is_whitespace(trim_start(s)[0]),
    decreases s.len(),
{
    if s.len() > 0 && char_is_whitespace(s[0]) {
        let r = s.drop_first();
        lemma_trim_start_suffix(r);
        let k = r.len() - trim_start(r).len();
        assert(r.skip(k) == s.skip(k + 1));
        assert forall|i: int| 0 <= i < s.len() - trim_start(s).len() implies char_is_whitespace(
            #[trigger] s[i],
        ) by {
            if i > 0 {
                assert(s[i] == r[i - 1]);
            }
        }
    } else {
        assert(s.skip(0) == s);
    }
}

proof fn lemma_trim_end_prefix(s: Seq<char>)
    ensures
        trim_end(s).len() <= s.len(),
        trim_end(s) == s.take(trim_end(s).len() as int),
        forall|i: int| trim_end(s).len() <= i < s.len() ==> char_is_whitespace(#[trigger] s[i]),
        trim_end(s).len() > 0 ==> !char_is_whitespace(trim_end(s).last()),
    decreases s.len(),
{
    if s.len() > 0 && char_is_whitespace(s.last()) {
        let r = s.drop_last();
        lemma_trim_end_prefix(r);
        let k = trim_end(r).len() as int;
        assert(r.take(k) == s.take(k));
        assert forall|i: int| trim_end(s).len() <= i < s.len() implies char_is_whitespace(
            #[trigger] s[i],
        ) by {
            if i < s.len() - 1 {
                assert(s[i] == r[i]);
            }
        }
    } else {
        assert(s.take(s.len() as int) == s);
    }
}

proof fn lemma_trim_start_blank(s: Seq<char>)
    ensures
        (trim_start(s).len() == 0) <==> is_blank(s),
{
    lemma_trim_start_suffix(s);
    let t = trim_start(s);
    if t.len() > 0 {
        let k = s.len() - t.len();
        assert(t[0] == s[k]);
    }
}

proof fn lemma_trim_end_blank(s: Seq<char>)
    ensures
        (trim_end(s).len() == 0) <==> is_blank(s),
{
    lemma_trim_end_prefix(s);
    let t = trim_end(s);
    if t.len() > 0 {
        assert(t.last() == s[t.len() - 1]);
    }
}

/// Trims a character vector on both sides.
pub fn trim_chars(v: &Vec<char>) -> (out: Vec<char>)
    ensures
        out@ == trim(v@),
{
    let mut start: usize = 0;
    proof {
        assert(v@.skip(0) == v@);
    }
    while start < v.len() && is_whitespace(v[start])
        invariant
            start <= v.len(),
            trim_start(v@) == trim_start(v@.skip(start as int)),
        decreases v.len() - start,
    {
        proof {
            assert(v@.skip(start as int).drop_first() == v@.skip(start as int + 1));
        }
        start = start + 1;
    }
    proof {
        let rest = v@.skip(start as int);
        assert(trim_start(v@) == rest);
    }
    let ghost rest = v@.skip(start as int);
    let mut end: usize = v.len();
    while end > start && is_whitespace(v[end - 1])
        invariant
            start <= end <= v.len(),
            rest == v@.skip(start as int),
            trim_end(rest) == trim_end(v@.subrange(start as int, end as int)),
        decreases end - start,
    {
        proof {
            assert(v@.subrange(start as int, end as int).drop_last() == v@.subrange(
                start as int,
                end as int - 1,
            ));
        }
        end = end - 1;
    }
    proof {
        assert(v@.subrange(start as int, v.len() as int) == rest);
    }
    sub_vec(v, start, end)
}

/// Trims a string on both sides.
pub fn str_trim(s: &str) -> (out: String)
    ensures
        out@ == trim(s@),
{
    let v = to_chars(s);
    let t = trim_chars(&v);
    from_chars(&t)
}

/// The least index at which `c` occurs in `s`, or `s.len()` where it does not occur.
pub open spec fn index_of(s: Seq<char>, c: char) -> int
    decreases s.len(),
{
    if s.len() == 0 {
        0
    } else if s[0] == c {
        0
    } else {
        1 + index_of(s.drop_first(), c)
    }
}

/// `index_of` is in range, nothing before it is `c`, and it points at `c` when in range.
pub proof fn lemma_index_of(s: Seq<char>, c: char)
    ensures
        0 <= index_of(s, c) <= s.len(),
        forall|j: int| 0 <= j < index_of(s, c) ==> #[trigger] s[j] != c,
        index_of(s, c) < s.len() ==> s[index_of(s, c)] == c,
    decreases s.len(),
{
    if s.len() > 0 && s[0] != c {
        let r = s.drop_first();
        lemma_index_of(r, c);
        assert forall|j: int| 0 <= j < index_of(s, c) implies #[trigger] s[j] != c by {
            if j > 0 {
                assert(s[j] == r[j - 1]);
            }
        }
    }
}

/// An index with the three properties of `lemma_index_of` is `index_of`.
pub proof fn lemma_index_of_unique(s: Seq<char>, c: char, i: int)
    requires
        0 <= i <= s.len(),
        forall|j: int| 0 <= j < i ==> #[trigger] s[j] != c,
        i < s.len() ==> s[i] == c,
    ensures
        index_of(s, c) == i,
{
    lemma_index_of(s, c);
    let k = index_of(s, c);
    if k < i {
        assert(s[k] != c);
    } else if i < k {
        assert(s[i] != c);
    }
}

/// Whether `c` occurs in `s`.
pub open spec fn has_char(s: Seq<char>, c: char) -> bool {
    index_of(s, c) < s.len()
}

/// Finds the first `c` at or after `start`.
pub fn find_char(v: &Vec<char>, start: usize, c: char) -> (at: usize)
    requires
        start <= v.len(),
    ensures
        at == start + index_of(v@.skip(start as int), c),
        start <= at <= v.len(),
{
    let mut i: usize = start;
    while i < v.len() && v[i] != c
        invariant
            start <= i <= v.len(),
            forall|j: int| start <= j < i ==> #[trigger] v@[j] != c,
        decreases v.len() - i,
    {
        i = i + 1;
    }
    proof {
        let rest = v@.skip(start as int);
        assert forall|j: int| 0 <= j < i - start implies #[trigger] rest[j] != c by {
            assert(rest[j] == v@[start + j]);
        }
        lemma_index_of_unique(rest, c, i - start);
    }
    i
}

/// The parts of `s` between occurrences of `sep`; always at least one part.
pub open spec fn split(s: Seq<char>, sep: char) -> Seq<Seq<char>>
    decreases s.len(),
{
    let i = index_of(s, sep);
    if 0 <= i < s.len() {
        seq![s.take(i)] + split(s.skip(i + 1), sep)
    } else {
        seq![s]
    }
}

/// Splits at every `sep`.
pub fn split_chars(v: &Vec<char>, sep: char) -> (parts: Vec<Vec<char>>)
    ensures
        parts.deep_view() == split(v@, sep),
{
    let mut parts: Vec<Vec<char>> = Vec::new();
    let mut start: usize = 0;
    proof {
        assert(v@.skip(0) == v@);
        assert(parts.deep_view() == Seq::<Seq<char>>::empty());
        assert(Seq::<Seq<char>>::empty() + split(v@, sep) == split(v@, sep));
    }
    loop
        invariant_except_break
            start <= v.len(),
            split(v@, sep) == parts.deep_view() + split(v@.skip(start as int), sep),
        ensures
            parts.deep_view() == split(v@, sep),
        decreases v.len() - start,
    {
        let at = find_char(v, start, sep);
        let part = sub_vec(v, start, at);
        let ghost rest = v@.skip(start as int);
        let ghost grown = parts;
        let ghost before = parts.deep_view();
        proof {
            assert(rest.take(at - start) == v@.subrange(start as int, at as int));
        }
        parts.push(part);
        proof {
            lemma_deep_view_push(grown, parts, part);
            assert(part.deep_view() =~= part@);
            assert(before.push(part@) =~= before + seq![part@]);
        }
        if at >= v.len() {
            proof {
                assert(split(rest, sep) == seq![rest]);
                assert(v@.subrange(start as int, at as int) == rest);
            }
            break;
        }
        proof {
            assert(rest.skip(at - start + 1) == v@.skip(at as int + 1));
            assert(split(rest, sep) == seq![rest.take(at - start)] + split(
                v@.skip(at as int + 1),
                sep,
            ));
            assert(before + (seq![part@] + split(v@.skip(at as int + 1), sep)) == (before
                + seq![part@]) + split(v@.skip(at as int + 1), sep));
        }
        start = at + 1;
    }
    parts
}

/// The two sides of the first `sep` in `s`, where there is one.
pub open spec fn split_once(s: Seq<char>, sep: char) -> Option<(Seq<char>, Seq<char>)> {
    let i = index_of(s, sep);
    if 0 <= i < s.len() {
        Some((s.take(i), s.skip(i + 1)))
    } else {
        None
    }
}

/// Splits at the first `sep`.
pub fn split_once_chars(v: &Vec<char>, sep: char) -> (r: Option<(Vec<char>, Vec<char>)>)
    ensures
        match r {
            Some((a, b)) => split_once(v@, sep) == Some((a@, b@)),
            None => split_once(v@, sep) is None,
        },
{
    let at = find_char(v, 0, sep);
    proof {
        assert(v@.skip(0) == v@);
    }
    if at < v.len() {
        let a = sub_vec(v, 0, at);
        let b = sub_vec(v, at + 1, v.len());
        proof {
            assert(v@.subrange(0, at as int) == v@.take(at as int));
            assert(v@.subrange(at as int + 1, v.len() as int) == v@.skip(at as int + 1));
        }
        Some((a, b))
    } else {
        None
    }
}

/// Whether two character vectors hold the same characters.
pub fn chars_eq(a: &Vec<char>, b: &Vec<char>) -> (r: bool)
    ensures
        r == (a@ == b@),
{
    if a.len() != b.len() {
        return false;
    }
    let mut i: usize = 0;
    while i < a.len()
        invariant
            i <= a.len(),
            a.len() == b.len(),
            a@.take(i as int) == b@.take(i as int),
        decreases a.len() - i,
    {
        if a[i] != b[i] {
            return false;
        }
        proof {
            assert(a@.take(i as int + 1) == a@.take(i as int).push(a@[i as int]));
            assert(b@.take(i as int + 1) == b@.take(i as int).push(b@[i as int]));
        }
        i = i + 1;
    }
    proof {
        assert(a@.take(a.len() as int) == a@);
        assert(b@.take(b.len() as int) == b@);
    }
    true
}

/// Whether two strings hold the same characters.
pub fn str_eq(a: &str, b: &str) -> (r: bool)
    ensures
        r == (a@ == b@),
{
    let x = to_chars(a);
    let y = to_chars(b);
    chars_eq(&x, &y)
}

/// The code point of `c`, with the ASCII capitals `A`..`Z` mapped onto `a`..`z`.
pub open spec fn ascii_fold(c: char) -> int {
    if 65 <= c as u32 <= 90 {
        c as u32 + 32
    } else {
        c as u32 as int
    }
}

/// Equality of two sequences up to the case of ASCII letters.
pub open spec fn eq_ignore_ascii_case(a: Seq<char>, b: Seq<char>) -> bool {
    &&& a.len() == b.len()
    &&& forall|i: int| 0 <= i < a.len() ==> ascii_fold(#[trigger] a[i]) == ascii_fold(b[i])
}

fn fold_char(c: char) -> (r: u32)
    ensures
        r == ascii_fold(c),
{
    let x: u32 = c as u32;
    if 65 <= x && x <= 90 {
        x + 32
    } else {
        x
    }
}

/// Decides `eq_ignore_ascii_case` for two strings.
pub fn str_eq_ignore_ascii_case(a: &str, b: &str) -> (r: bool)
    ensures
        r == eq_ignore_ascii_case(a@, b@),
{
    let x = to_chars(a);
    let y = to_chars(b);
    if x.len() != y.len() {
        return false;
    }
    let mut i: usize = 0;
    while i < x.len()
        invariant
            i <= x.len(),
            x.len() == y.len(),
            x@ == a@,
            y@ == b@,
            forall|j: int| 0 <= j < i ==> ascii_fold(#[trigger] x@[j]) == ascii_fold(y@[j]),
        decreases x.len() - i,
    {
        if fold_char(x[i]) != fold_char(y[i]) {
            return false;
        }
        i = i + 1;
    }
    true
}

/// A line as `lines` yields it: a carriage return just before the line feed is dropped.
pub open spec fn strip_cr(line: Seq<char>) -> Seq<char> {
    if line.len() > 0 && line.last() == '\r' {
        line.drop_last()
    } else {
        line
    }
}

/// The lines of a text. A line ends at a line feed, or at a carriage return
/// followed by one; the last line needs no line ending, and an empty text has
/// no lines.
pub open spec fn lines(s: Seq<char>) -> Seq<Seq<char>>
    decreases s.len(),
{
    if s.len() == 0 {
        Seq::empty()
    } else {
        let i = index_of(s, '\n');
        if 0 <= i < s.len() {
            seq![strip_cr(s.take(i))] + lines(s.skip(i + 1))
        } else {
            seq![s]
        }
    }
}

/// A vector grown by one element, seen through `deep_view`.
pub proof fn lemma_deep_view_push<T: DeepView>(before: Vec<T>, after: Vec<T>, part: T)
    requires
        after@ == before@.push(part),
    ensures
        after.deep_view() == before.deep_view().push(part.deep_view()),
{
    assert(after.deep_view().len() == before.deep_view().len() + 1);
    assert forall|k: int| 0 <= k < after.deep_view().len() implies after.deep_view()[k]
        == before.deep_view().push(part.deep_view())[k] by {
        assert(after.deep_view()[k] == after@[k].deep_view());
        if k < before@.len() {
            assert(before.deep_view()[k] == before@[k].deep_view());
        }
    }
    assert(after.deep_view() =~= before.deep_view().push(part.deep_view()));
}

/// Splits a text into its lines.
pub fn lines_of(v: &Vec<char>) -> (out: Vec<Vec<char>>)
    ensures
        out.deep_view() == lines(v@),
{
    let mut out: Vec<Vec<char>> = Vec::new();
    let mut start: usize = 0;
    proof {
        assert(v@.skip(0) == v@);
        assert(out.deep_view() == Seq::<Seq<char>>::empty());
        assert(Seq::<Seq<char>>::empty() + lines(v@) == lines(v@));
    }
    while start < v.len()
        invariant
            start <= v.len(),
            lines(v@) == out.deep_view() + lines(v@.skip(start as int)),
        decreases v.len() - start,
    {
        let at = find_char(v, start, '\n');
        let ghost rest = v@.skip(start as int);
        let ghost before = out;
        proof {
            assert(rest.take(at - start) == v@.subrange(start as int, at as int));
        }
        if at >= v.len() {
            let part = sub_vec(v, start, at);
            out.push(part);
            proof {
                lemma_deep_view_push(before, out, part);
                assert(part.deep_view() =~= part@);
                assert(v@.subrange(start as int, at as int) == rest);
                assert(lines(rest) == seq![rest]);
                assert(v@.skip(v.len() as int).len() == 0);
                assert(out.deep_view() + lines(v@.skip(v.len() as int)) == out.deep_view());
            }
            start = v.len();
        } else {
            let end: usize = if at > start && v[at - 1] == '\r' {
                at - 1
            } else {
                at
            };
            let part = sub_vec(v, start, end);
            out.push(part);
            proof {
                lemma_deep_view_push(before, out, part);
                assert(part.deep_view() =~= part@);
                let raw = rest.take(at - start);
                if raw.len() > 0 {
                    assert(raw.last() == v@[at as int - 1]);
                }
                assert(strip_cr(raw) == v@.subrange(start as int, end as int));
                assert(rest.skip(at - start + 1) == v@.skip(at as int + 1));
                assert(lines(rest) == seq![strip_cr(raw)] + lines(v@.skip(at as int + 1)));
                assert(before.deep_view() + (seq![part@] + lines(v@.skip(at as int + 1)))
                    == before.deep_view().push(part@) + lines(v@.skip(at as int + 1)));
            }
            start = at + 1;
        }
    }
    proof {
        assert(lines(v@.skip(start as int)) == Seq::<Seq<char>>::empty());
        assert(out.deep_view() + Seq::<Seq<char>>::empty() == out.deep_view());
    }
    out
}

/// Joins an owned string and a borrowed one.
pub fn concat(a: String, b: &str) -> (r: String)
    ensures
        r@ == a@ + b@,
{
    a.concat(b)
}

/// The parts in order, with `sep` between every two neighbours.
pub open spec fn joined(parts: Seq<Seq<char>>, sep: Seq<char>) -> Seq<char>
    decreases parts.len(),
{
    if parts.len() == 0 {
        Seq::empty()
    } else if parts.len() == 1 {
        parts[0]
    } else {
        joined(parts.drop_last(), sep) + sep + parts.last()
    }
}

/// Wraps `Itertools::join` on the strings of a vector: the result is the
/// first string, then for each further string the separator and the string;
/// no string gives the empty string.
#[verifier::external_body]
pub(crate) fn join_strings(parts: &Vec<String>, sep: &str) -> (s: String)
    ensures
        s@ == joined(parts.deep_view(), sep@),
{
    parts.iter().join(sep)
}

/// What `{:?}` writes for a vector of strings: the strings in quotes, with
/// what `Debug` escapes escaped, between brackets and separated by commas.
pub uninterp spec fn debug_list(items: Seq<Seq<char>>) -> Seq<char>;

/// Wraps the `Debug` formatting of a vector of strings, reached through
/// `format!`. The contract names the text and claims nothing else of it.
#[verifier::external_body]
pub(crate) fn debug_string_list(items: &Vec<String>) -> (s: String)
    ensures
        s@ == debug_list(items.deep_view()),
{
    format!("{:?}", items)
}

} // verus!
