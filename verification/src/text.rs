//! Character-level helpers on which the codec, the path resolver and the
//! header parsers build.
//!
//! Every function here works on sequences of `char`, so that positions and
//! lengths count characters and never fall inside a multi-byte encoding.

use vstd::prelude::*;

verus! {

/// Appending one character to a `String` puts it at the end of its view.
/// Trusted: this is what `String::push` is documented to do.
pub assume_specification[ String::push ](s: &mut String, c: char)
    ensures
        final(s)@ == old(s)@.push(c),
;

/// The characters with the Unicode `White_Space` property.
pub open spec fn is_white_space(c: char) -> bool {
    let u = c as u32;
    (0x09 <= u <= 0x0D) || u == 0x20 || u == 0x85 || u == 0xA0 || u == 0x1680 || (0x2000 <= u
        <= 0x200A) || u == 0x2028 || u == 0x2029 || u == 0x202F || u == 0x205F || u == 0x3000
}

/// `s` without its leading white space.
pub open spec fn trim_start(s: Seq<char>) -> Seq<char>
    decreases s.len(),
{
    if s.len() > 0 && is_white_space(s[0]) {
        trim_start(s.skip(1))
    } else {
        s
    }
}

/// `s` without its trailing white space.
pub open spec fn trim_end(s: Seq<char>) -> Seq<char>
    decreases s.len(),
{
    if s.len() > 0 && is_white_space(s.last()) {
        trim_end(s.drop_last())
    } else {
        s
    }
}

/// `s` without leading or trailing white space.
pub open spec fn trim(s: Seq<char>) -> Seq<char> {
    trim_end(trim_start(s))
}

/// Index of the first occurrence of `c` in `s`, or `s.len()` if there is none.
pub open spec fn position(s: Seq<char>, c: char) -> int
    decreases s.len(),
{
    if s.len() == 0 || s[0] == c {
        0
    } else {
        1 + position(s.skip(1), c)
    }
}

/// The pieces of `s` between occurrences of `sep`. There is always at least
/// one piece; `n` separators give `n + 1` pieces, some of them possibly empty.
pub open spec fn split(s: Seq<char>, sep: char) -> Seq<Seq<char>>
    decreases s.len(),
{
    let i = position(s, sep);
    if 0 <= i < s.len() {
        seq![s.take(i)] + split(s.skip(i + 1), sep)
    } else {
        seq![s]
    }
}

/// What follows the last occurrence of `c` in `s`; all of `s` if `c` does not occur.
pub open spec fn after_last(s: Seq<char>, c: char) -> Seq<char>
    decreases s.len(),
{
    if s.len() == 0 {
        s
    } else if s.last() == c {
        Seq::empty()
    } else {
        after_last(s.drop_last(), c).push(s.last())
    }
}

/// `needle` occurs in `s` at index `i`.
pub open spec fn occurs_at(s: Seq<char>, needle: Seq<char>, i: int) -> bool {
    0 <= i && i + needle.len() <= s.len() && s.subrange(i, i + needle.len()) == needle
}

/// `needle` occurs somewhere in `s`.
pub open spec fn has_substring(s: Seq<char>, needle: Seq<char>) -> bool {
    exists|i: int| occurs_at(s, needle, i)
}

/// `s` begins with `prefix`.
pub open spec fn has_prefix(s: Seq<char>, prefix: Seq<char>) -> bool {
    prefix.len() <= s.len() && s.take(prefix.len() as int) == prefix
}

/// `s` ends with `suffix`.
pub open spec fn has_suffix(s: Seq<char>, suffix: Seq<char>) -> bool {
    suffix.len() <= s.len() && s.skip(s.len() - suffix.len()) == suffix
}

/// `s` with each character replaced by the characters that `f` gives for it.
pub open spec fn expand(s: Seq<char>, f: spec_fn(char) -> Seq<char>) -> Seq<char>
    decreases s.len(),
{
    if s.len() == 0 {
        Seq::empty()
    } else {
        expand(s.drop_last(), f) + f(s.last())
    }
}

/// Replacing character by character goes through concatenation.
pub proof fn lemma_expand_concat(a: Seq<char>, b: Seq<char>, f: spec_fn(char) -> Seq<char>)
    ensures
        expand(a + b, f) == expand(a, f) + expand(b, f),
    decreases b.len(),
{
    if b.len() > 0 {
        assert((a + b).drop_last() == a + b.drop_last());
        lemma_expand_concat(a, b.drop_last(), f);
        assert(expand(a, f) + expand(b.drop_last(), f) + f(b.last()) == expand(a, f) + (expand(
            b.drop_last(),
            f,
        ) + f(b.last())));
    }
}

/// Replacing character by character, seen from the first character.
pub proof fn lemma_expand_first(s: Seq<char>, f: spec_fn(char) -> Seq<char>)
    requires
        s.len() > 0,
    ensures
        expand(s, f) == f(s[0]) + expand(s.skip(1), f),
{
    let head = seq![s[0]];
    assert(s == head + s.skip(1));
    lemma_expand_concat(head, s.skip(1), f);
    assert(head.drop_last() == Seq::<char>::empty());
    assert(expand(head, f) == expand(Seq::<char>::empty(), f) + f(s[0]));
}

/// `position` returns the index of the first occurrence.
pub proof fn lemma_position(s: Seq<char>, c: char, i: int)
    requires
        0 <= i <= s.len(),
        forall|j: int| 0 <= j < i ==> s[j] != c,
        i < s.len() ==> s[i] == c,
    ensures
        position(s, c) == i,
    decreases i,
{
    if i > 0 {
        let t = s.skip(1);
        lemma_position(t, c, i - 1);
    }
}

/// Cutting at a separator: what stands before the first separator is the
/// first piece, and the rest is cut in the same way.
pub proof fn lemma_split_at(a: Seq<char>, sep: char, b: Seq<char>)
    requires
        forall|i: int| 0 <= i < a.len() ==> a[i] != sep,
    ensures
        split(a + seq![sep] + b, sep) == seq![a] + split(b, sep),
{
    let s = a + seq![sep] + b;
    lemma_position(s, sep, a.len() as int);
    assert(s.take(a.len() as int) == a);
    assert(s.skip(a.len() as int + 1) == b);
}

/// Trimming a text takes white space from its end only as far as a part
/// that neither begins nor ends with white space.
pub proof fn lemma_trim_end_after(key: Seq<char>, value: Seq<char>)
    requires
        key.len() > 0,
        !is_white_space(key.last()),
    ensures
        trim_end(key + value) == key + trim_end(value),
    decreases value.len(),
{
    let l = key + value;
    if value.len() > 0 {
        if is_white_space(value.last()) {
            assert(l.drop_last() == key + value.drop_last());
            lemma_trim_end_after(key, value.drop_last());
        }
    }
}

/// A line that begins with a part free of white space at both ends is
/// trimmed to that part and its value without the white space at the
/// value's end, also with a carriage return behind it.
pub proof fn lemma_trim_keeps_head(key: Seq<char>, value: Seq<char>)
    requires
        key.len() > 0,
        !is_white_space(key[0]),
        !is_white_space(key.last()),
    ensures
        trim(key + value) == key + trim_end(value),
        trim(key + value + seq!['\r']) == key + trim_end(value),
{
    let l = key + value;
    let m = l + seq!['\r'];
    assert(m.drop_last() == l);
    lemma_trim_end_after(key, value);
}

/// What follows a separator holds no separator: it is what follows the last one.
pub proof fn lemma_after_last(a: Seq<char>, c: char, b: Seq<char>)
    requires
        forall|i: int| 0 <= i < b.len() ==> b[i] != c,
    ensures
        after_last(a + seq![c] + b, c) == b,
    decreases b.len(),
{
    let s = a + seq![c] + b;
    if b.len() > 0 {
        assert(s.drop_last() == a + seq![c] + b.drop_last());
        lemma_after_last(a, c, b.drop_last());
    }
}

/// A text begins with what it was built from, and the rest follows.
pub proof fn lemma_prefix_of_concat(prefix: Seq<char>, rest: Seq<char>)
    ensures
        has_prefix(prefix + rest, prefix),
        (prefix + rest).skip(prefix.len() as int) == rest,
{
    assert((prefix + rest).take(prefix.len() as int) == prefix);
}

/// Whether `c` has the Unicode `White_Space` property.
pub fn is_whitespace(c: char) -> (b: bool)
    ensures
        b == is_white_space(c),
{
    let u: u32 = c as u32;
    (0x09 <= u && u <= 0x0D) || u == 0x20 || u == 0x85 || u == 0xA0 || u == 0x1680 || (0x2000 <= u
        && u <= 0x200A) || u == 0x2028 || u == 0x2029 || u == 0x202F || u == 0x205F || u == 0x3000
}

/// The characters of a string slice, in order.
pub fn chars_of(s: &str) -> (v: Vec<char>)
    ensures
        v@ == s@,
{
    let mut v: Vec<char> = Vec::new();
    for c in it: s.chars()
        invariant
            v@ == it.seq().take(it.index()),
            it.seq() == s@,
    {
        v.push(c);
    }
    v
}

/// The string made of the given characters.
pub fn string_of(cs: &[char]) -> (s: String)
    ensures
        s@ == cs@,
{
    let mut s = String::new();
    let mut i: usize = 0;
    while i < cs.len()
        invariant
            i <= cs.len(),
            s@ == cs@.take(i as int),
        decreases cs.len() - i,
    {
        s.push(cs[i]);
        i += 1;
    }
    s
}

/// Whether `s` begins with `prefix`.
pub fn starts_with(s: &[char], prefix: &[char]) -> (b: bool)
    ensures
        b == has_prefix(s@, prefix@),
{
    if prefix.len() > s.len() {
        return false;
    }
    let mut i: usize = 0;
    while i < prefix.len()
        invariant
            i <= prefix.len() <= s.len(),
            s@.take(i as int) == prefix@.take(i as int),
        decreases prefix.len() - i,
    {
        if s[i] != prefix[i] {
            return false;
        }
        i += 1;
    }
    assert(prefix@.take(prefix.len() as int) == prefix@);
    true
}

/// Whether `s` ends with `suffix`.
pub fn ends_with(s: &[char], suffix: &[char]) -> (b: bool)
    ensures
        b == has_suffix(s@, suffix@),
{
    if suffix.len() > s.len() {
        return false;
    }
    let tail = vstd::slice::slice_subrange(s, s.len() - suffix.len(), s.len());
    let b = starts_with(tail, suffix);
    assert(tail@.take(suffix.len() as int) == tail@);
    b
}

/// Index of the first occurrence of `c` in `s`, or `s.len()` if there is none.
pub fn find_char(s: &[char], c: char) -> (i: usize)
    ensures
        i == position(s@, c),
        i <= s.len(),
{
    let mut i: usize = 0;
    while i < s.len() && s[i] != c
        invariant
            i <= s.len(),
            forall|j: int| 0 <= j < i ==> s@[j] != c,
        decreases s.len() - i,
    {
        i += 1;
    }
    proof {
        lemma_position(s@, c, i as int);
    }
    i
}

/// The pieces of `s` between occurrences of `sep`.
pub fn split_chars(s: &[char], sep: char) -> (pieces: Vec<Vec<char>>)
    ensures
        pieces.deep_view() == split(s@, sep),
        pieces.len() >= 1,
{
    let mut pieces: Vec<Vec<char>> = Vec::new();
    let mut start: usize = 0;
    assert(s@.skip(0) == s@);
    loop
        invariant_except_break
            start <= s.len(),
            split(s@, sep) == pieces.deep_view() + split(s@.skip(start as int), sep),
        ensures
            pieces.deep_view() == split(s@, sep),
            pieces.len() >= 1,
        decreases s.len() - start,
    {
        let rest = vstd::slice::slice_subrange(s, start, s.len());
        let i = find_char(rest, sep);
        let ghost before = pieces.deep_view();
        let piece = vstd::slice::slice_to_vec(vstd::slice::slice_subrange(rest, 0, i));
        pieces.push(piece);
        assert(pieces.deep_view() == before.push(rest@.take(i as int))) by {
            assert forall|k: int| 0 <= k < pieces.deep_view().len() implies pieces.deep_view()[k]
                == before.push(rest@.take(i as int))[k] by {}
        }
        if i < rest.len() {
            assert(rest@.skip(i + 1) == s@.skip(start + i + 1));
            assert(before.push(rest@.take(i as int)) + split(rest@.skip(i + 1), sep) == before + (
            seq![rest@.take(i as int)] + split(rest@.skip(i + 1), sep)));
            start = start + i + 1;
        } else {
            assert(before.push(rest@.take(i as int)) == before + seq![rest@]) by {
                assert(rest@.take(i as int) == rest@);
            }
            break;
        }
    }
    pieces
}

/// `s` without leading or trailing white space.
pub fn trim_chars(s: &[char]) -> (t: &[char])
    ensures
        t@ == trim(s@),
{
    let mut a: usize = 0;
    assert(s@.skip(0) == s@);
    while a < s.len() && is_whitespace(s[a])
        invariant
            a <= s.len(),
            trim_start(s@) == trim_start(s@.skip(a as int)),
        decreases s.len() - a,
    {
        assert(s@.skip(a as int).skip(1) == s@.skip(a + 1));
        a += 1;
    }
    let rest = vstd::slice::slice_subrange(s, a, s.len());
    let mut b: usize = rest.len();
    assert(rest@.take(rest.len() as int) == rest@);
    while b > 0 && is_whitespace(rest[b - 1])
        invariant
            b <= rest.len(),
            trim_end(rest@) == trim_end(rest@.take(b as int)),
        decreases b,
    {
        assert(rest@.take(b as int).drop_last() == rest@.take(b - 1));
        b -= 1;
    }
    vstd::slice::slice_subrange(rest, 0, b)
}

/// What follows the last occurrence of `c` in `s`; all of `s` if `c` does not occur.
pub fn after_last_char(s: &[char], c: char) -> (t: &[char])
    ensures
        t@ == after_last(s@, c),
{
    let mut a: usize = s.len();
    assert(s@.take(s.len() as int) == s@);
    while a > 0 && s[a - 1] != c
        invariant
            a <= s.len(),
            after_last(s@, c) == after_last(s@.take(a as int), c) + s@.skip(a as int),
        decreases a,
    {
        proof {
            let t = s@.take(a as int);
            assert(t.drop_last() == s@.take(a - 1));
            assert(after_last(s@.take(a - 1), c).push(s@[a - 1]) + s@.skip(a as int)
                == after_last(s@.take(a - 1), c) + s@.skip(a - 1));
        }
        a -= 1;
    }
    vstd::slice::slice_subrange(s, a, s.len())
}

/// Whether `needle` occurs somewhere in `s`.
pub fn contains_chars(s: &[char], needle: &[char]) -> (b: bool)
    ensures
        b == has_substring(s@, needle@),
{
    if needle.len() > s.len() {
        return false;
    }
    let last: usize = s.len() - needle.len();
    let mut i: usize = 0;
    loop
        invariant
            i <= last,
            last == s.len() - needle.len(),
            forall|j: int| 0 <= j < i ==> !occurs_at(s@, needle@, j),
        ensures
            forall|j: int| 0 <= j <= last ==> !occurs_at(s@, needle@, j),
        decreases last - i,
    {
        let window = vstd::slice::slice_subrange(s, i, s.len());
        assert(window@.take(needle.len() as int) == s@.subrange(i as int, i + needle.len()));
        if starts_with(window, needle) {
            assert(occurs_at(s@, needle@, i as int));
            return true;
        }
        if i == last {
            break;
        }
        i += 1;
    }
    false
}

/// Whether two texts hold the same characters.
pub fn same_chars(a: &[char], b: &[char]) -> (same: bool)
    ensures
        same == (a@ == b@),
{
    if a.len() != b.len() {
        return false;
    }
    let same = starts_with(a, b);
    assert(a@.take(b.len() as int) == a@);
    same
}

/// Whether two string slices hold the same text.
pub fn same_text(a: &str, b: &str) -> (same: bool)
    ensures
        same == (a@ == b@),
{
    let x = chars_of(a);
    let y = chars_of(b);
    same_chars(x.as_slice(), y.as_slice())
}

} // verus!
