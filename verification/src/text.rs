//! Character-level helpers on strings.

use vstd::prelude::*;

verus! {

/// Position of the first occurrence of `c` in `s`, or `s.len()` where `c` does not occur.
pub open spec fn first_index(s: Seq<char>, c: char) -> int
    decreases s.len(),
{
    if s.len() == 0 || s[0] == c {
        0
    } else {
        1 + first_index(s.drop_first(), c)
    }
}

/// `first_index` points at the first occurrence and at nothing before it.
pub proof fn lemma_first_index(s: Seq<char>, c: char)
    ensures
        0 <= first_index(s, c) <= s.len(),
        forall|j: int| 0 <= j < first_index(s, c) ==> s[j] != c,
        first_index(s, c) < s.len() ==> s[first_index(s, c)] == c,
        first_index(s, c) < s.len() <==> s.contains(c),
    decreases s.len(),
{
    if s.len() == 0 || s[0] == c {
        if s.len() > 0 {
            assert(s.contains(c));
        }
    } else {
        let t = s.drop_first();
        lemma_first_index(t, c);
        let k = first_index(t, c);
        assert forall|j: int| 0 <= j < 1 + k implies s[j] != c by {
            if j > 0 {
                assert(t[j - 1] == s[j]);
            }
        }
        if k < t.len() {
            assert(s[k + 1] == t[k]);
            assert(s.contains(c));
        } else {
            assert forall|j: int| 0 <= j < s.len() implies s[j] != c by {
                if j > 0 {
                    assert(t[j - 1] == s[j]);
                }
            }
        }
    }
}

/// An index that holds `c` and has no `c` before it is the first index.
pub proof fn lemma_first_index_is(s: Seq<char>, c: char, i: int)
    requires
        0 <= i <= s.len(),
        forall|j: int| 0 <= j < i ==> s[j] != c,
        i < s.len() ==> s[i] == c,
    ensures
        first_index(s, c) == i,
{
    lemma_first_index(s, c);
}

/// What `split_once` yields: the text before the first `c` and the text after it.
pub open spec fn split_at_first(s: Seq<char>, c: char) -> Option<(Seq<char>, Seq<char>)> {
    if s.contains(c) {
        Some((s.take(first_index(s, c)), s.skip(first_index(s, c) + 1)))
    } else {
        None
    }
}

/// The characters of `s`, in order.
pub fn to_chars(s: &str) -> (out: Vec<char>)
    ensures
        out@ == s@,
{
    let mut out: Vec<char> = Vec::new();
    let chars = s.chars();
    for c in it: chars
        invariant
            out@ == it.seq().take(it.index() as int),
            it.seq() == s@,
    {
        out.push(c);
    }
    out
}

/// Finds the first occurrence of `c` at or after `from`.
pub fn find_from(chars: &Vec<char>, from: usize, c: char) -> (at: usize)
    requires
        from <= chars.len(),
    ensures
        at == from + first_index(chars@.skip(from as int), c),
        from <= at <= chars.len(),
{
    let mut i: usize = from;
    while i < chars.len() && chars[i] != c
        invariant
            from <= i <= chars.len(),
            forall|j: int| from <= j < i ==> chars[j] != c,
        decreases chars.len() - i,
    {
        i += 1;
    }
    proof {
        lemma_first_index_is(chars@.skip(from as int), c, i - from);
    }
    i
}

/// Splits `s` at the first occurrence of the single character held in `chr`.
///
/// Gives the text before that occurrence and the text after it, or `None` where the
/// character does not occur in `s`.
pub fn split_once<'a>(chr: &'a str, s: &'a str) -> (parts: Option<(&'a str, &'a str)>)
    requires
        chr@.len() == 1,
    ensures
        match parts {
            Some((head, tail)) => split_at_first(s@, chr@[0]) == Some((head@, tail@)),
            None => split_at_first(s@, chr@[0]).is_none(),
        },
{
    let c = chr.get_char(0);
    let chars = to_chars(s);
    let at = find_from(&chars, 0, c);
    proof {
        assert(chars@.skip(0) =~= s@);
        lemma_first_index(s@, c);
    }
    if at < chars.len() {
        Some((s.substring_char(0, at), s.substring_char(at + 1, chars.len())))
    } else {
        None
    }
}

/// The code of `c` with the ASCII capitals moved onto their small letters.
pub open spec fn folded(c: char) -> u32 {
    if 'A' <= c <= 'Z' {
        (c as u32 + 32) as u32
    } else {
        c as u32
    }
}

/// Whether two texts are equal once ASCII letters are taken without regard to case.
pub open spec fn same_ignoring_ascii_case(a: Seq<char>, b: Seq<char>) -> bool {
    &&& a.len() == b.len()
    &&& forall|i: int| 0 <= i < a.len() ==> folded(#[trigger] a[i]) == folded(b[i])
}

/// The code of `c` with the ASCII capitals moved onto their small letters.
pub fn fold_char(c: char) -> (code: u32)
    ensures
        code == folded(c),
{
    if c >= 'A' && c <= 'Z' {
        c as u32 + 32
    } else {
        c as u32
    }
}

/// Compares two texts without regard to the case of ASCII letters.
pub fn eq_ignore_ascii_case(a: &str, b: &str) -> (same: bool)
    ensures
        same == same_ignoring_ascii_case(a@, b@),
{
    let left = to_chars(a);
    let right = to_chars(b);
    if left.len() != right.len() {
        return false;
    }
    let mut i: usize = 0;
    while i < left.len()
        invariant
            i <= left.len(),
            left.len() == right.len(),
            left@ == a@,
            right@ == b@,
            forall|j: int| 0 <= j < i ==> folded(#[trigger] left@[j]) == folded(right@[j]),
        decreases left.len() - i,
    {
        if fold_char(left[i]) != fold_char(right[i]) {
            return false;
        }
        i += 1;
    }
    true
}

/// Whether `s` begins with `prefix`.
pub open spec fn begins_with(s: Seq<char>, prefix: Seq<char>) -> bool {
    prefix.len() <= s.len() && s.take(prefix.len() as int) == prefix
}

/// Tells whether `s` begins with `prefix`.
pub fn starts_with(s: &str, prefix: &str) -> (yes: bool)
    ensures
        yes == begins_with(s@, prefix@),
{
    let text = to_chars(s);
    let head = to_chars(prefix);
    if head.len() > text.len() {
        return false;
    }
    let mut i: usize = 0;
    while i < head.len()
        invariant
            i <= head.len() <= text.len(),
            text@ == s@,
            head@ == prefix@,
            forall|j: int| 0 <= j < i ==> text@[j] == head@[j],
        decreases head.len() - i,
    {
        if text[i] != head[i] {
            assert(s@.take(prefix@.len() as int)[i as int] != prefix@[i as int]);
            return false;
        }
        i += 1;
    }
    assert(s@.take(prefix@.len() as int) =~= prefix@);
    true
}

/// Position just past the last occurrence of `c` in `s`, or 0 where `c` does not occur.
pub open spec fn after_last(s: Seq<char>, c: char) -> int
    decreases s.len(),
{
    if s.len() == 0 {
        0
    } else if s.last() == c {
        s.len() as int
    } else {
        after_last(s.drop_last(), c)
    }
}

/// `after_last` stays within the text, follows an occurrence, and has none after it.
pub proof fn lemma_after_last(s: Seq<char>, c: char)
    ensures
        0 <= after_last(s, c) <= s.len(),
        after_last(s, c) > 0 ==> s[after_last(s, c) - 1] == c,
        forall|j: int| after_last(s, c) <= j < s.len() ==> s[j] != c,
    decreases s.len(),
{
    if s.len() > 0 && s.last() != c {
        let t = s.drop_last();
        lemma_after_last(t, c);
        assert forall|j: int| after_last(s, c) <= j < s.len() implies s[j] != c by {
            if j < t.len() {
                assert(t[j] == s[j]);
            }
        }
    }
}

/// The last segment of a slash-separated path: the text after its last `/`. A path that
/// does not begin with `/` has no segments.
pub open spec fn last_segment_of(path: Seq<char>) -> Option<Seq<char>> {
    if path.len() > 0 && path[0] == '/' {
        Some(path.skip(after_last(path, '/')))
    } else {
        None
    }
}

/// The last segment of a slash-separated path.
pub fn last_segment<'a>(path: &'a str) -> (segment: Option<&'a str>)
    ensures
        match segment {
            Some(s) => last_segment_of(path@) == Some(s@) && !s@.contains('/'),
            None => last_segment_of(path@).is_none(),
        },
{
    let chars = to_chars(path);
    if chars.len() == 0 || chars[0] != '/' {
        return None;
    }
    let mut cut: usize = chars.len();
    assert(chars@.take(cut as int) =~= chars@);
    while cut > 0 && chars[cut - 1] != '/'
        invariant
            cut <= chars.len(),
            chars@ == path@,
            after_last(chars@, '/') == after_last(chars@.take(cut as int), '/'),
        decreases cut,
    {
        assert(chars@.take(cut as int).drop_last() =~= chars@.take(cut - 1));
        cut -= 1;
    }
    proof {
        if cut > 0 {
            assert(chars@.take(cut as int).last() == '/');
        }
        lemma_after_last(chars@, '/');
        let tail = chars@.skip(cut as int);
        assert forall|j: int| 0 <= j < tail.len() implies tail[j] != '/' by {
            assert(tail[j] == chars@[cut + j]);
        }
    }
    Some(path.substring_char(cut, chars.len()))
}

/// The upper-case form of a text, as the standard library's Unicode case mapping gives it.
pub uninterp spec fn uppercase(s: Seq<char>) -> Seq<char>;

/// `str::to_uppercase` of the standard library. The contract says only that the result is
/// the upper-case form of the argument, a function of the text alone.
#[verifier::external_body]
pub(crate) fn to_uppercase(s: &str) -> (upper: String)
    ensures
        upper@ == uppercase(s@),
{
    s.to_uppercase()
}

} // verus!
