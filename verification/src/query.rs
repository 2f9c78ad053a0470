//! Query strings: their parameters, and the `start` parameter of the admin page.

use crate::name_map::{text_of, NameMap};
use crate::text::{find_from, first_index, lemma_first_index, split_at_first, split_once, to_chars};
use vstd::prelude::*;

verus! {

/// `params` with the pair of one `name=value` segment put in; a segment without `=`
/// adds nothing.
pub open spec fn with_pair(params: Map<Seq<char>, Seq<char>>, segment: Seq<char>) -> Map<
    Seq<char>,
    Seq<char>,
> {
    match split_at_first(segment, '=') {
        Some((name, value)) => params.insert(name, value),
        None => params,
    }
}

/// `params` with the pairs of each `&`-separated segment of `rest` put in, left to right.
pub open spec fn filled(params: Map<Seq<char>, Seq<char>>, rest: Seq<char>) -> Map<
    Seq<char>,
    Seq<char>,
>
    decreases rest.len(),
{
    let i = first_index(rest, '&');
    if 0 <= i < rest.len() {
        filled(with_pair(params, rest.take(i)), rest.skip(i + 1))
    } else {
        with_pair(params, rest)
    }
}

/// The parameters of a query string: each segment between `&` that holds a `=` gives the
/// name before its first `=` and the value after it; of a repeated name the last value stays.
pub open spec fn param_map(query: Option<Seq<char>>) -> Map<Seq<char>, Seq<char>> {
    match query {
        Some(q) => filled(Map::empty(), q),
        None => Map::empty(),
    }
}

/// Reads the parameters of a query string.
pub fn get_param_map(query: Option<&str>) -> (params: NameMap<String>)
    ensures
        text_of(params@) == param_map(
            match query {
                Some(q) => Some(q@),
                None => None,
            },
        ),
{
    let mut params: NameMap<String> = NameMap::new();
    assert(text_of(params@) =~= Map::<Seq<char>, Seq<char>>::empty());
    let text = match query {
        Some(q) => q,
        None => {
            return params;
        },
    };
    let chars = to_chars(text);
    let len = chars.len();
    let mut pos: usize = 0;
    assert(chars@.skip(0) =~= text@);
    loop
        invariant
            pos <= len,
            len == chars@.len(),
            chars@ == text@,
            query == Some(text),
            filled(text_of(params@), chars@.skip(pos as int)) == filled(Map::empty(), text@),
        decreases len - pos,
    {
        let at = find_from(&chars, pos, '&');
        let segment = text.substring_char(pos, at);
        let ghost rest = chars@.skip(pos as int);
        let ghost before = text_of(params@);
        proof {
            lemma_first_index(rest, '&');
            assert(segment@ =~= rest.take(at - pos));
            reveal_strlit("=");
        }
        match split_once("=", segment) {
            Some((name, value)) => {
                let value = value.to_owned();
                params.insert(name.to_owned(), value);
                assert(text_of(params@) =~= before.insert(name@, value@));
            },
            None => {},
        }
        assert(text_of(params@) == with_pair(before, segment@));
        if at >= len {
            proof {
                assert(rest.take(rest.len() as int) =~= rest);
            }
            return params;
        }
        proof {
            assert(rest.skip(at - pos + 1) =~= chars@.skip(at + 1));
        }
        pos = at + 1;
    }
}

/// Whether `c` is a decimal digit.
pub open spec fn is_digit(c: char) -> bool {
    '0' <= c <= '9'
}

/// The number a decimal digit stands for.
pub open spec fn digit_value(c: char) -> nat {
    if is_digit(c) {
        (c as u32 - '0' as u32) as nat
    } else {
        0
    }
}

/// The number that a run of decimal digits writes.
pub open spec fn decimal(digits: Seq<char>) -> nat
    decreases digits.len(),
{
    if digits.len() == 0 {
        0
    } else {
        decimal(digits.drop_last()) * 10 + digit_value(digits.last())
    }
}

/// Whether every character is a decimal digit.
pub open spec fn all_digits(s: Seq<char>) -> bool {
    forall|i: int| 0 <= i < s.len() ==> is_digit(#[trigger] s[i])
}

/// `s` without a leading `+`.
pub open spec fn unsigned_part(s: Seq<char>) -> Seq<char> {
    if s.len() > 0 && s[0] == '+' {
        s.drop_first()
    } else {
        s
    }
}

/// The largest `start` that is read as written.
pub const MAX_START: u32 = 2147483647;

/// The `start` that a parameter value asks for: the number it writes in decimal digits,
/// with or without a leading `+`, where that number is at most `MAX_START`; otherwise 0.
pub open spec fn start_of(s: Seq<char>) -> nat {
    let digits = unsigned_part(s);
    if digits.len() > 0 && all_digits(digits) && decimal(digits) <= MAX_START {
        decimal(digits)
    } else {
        0
    }
}

/// A prefix of a run of characters writes no larger a number than the whole run.
pub proof fn lemma_decimal_prefix(digits: Seq<char>, k: int)
    requires
        0 <= k <= digits.len(),
    ensures
        decimal(digits.take(k)) <= decimal(digits),
    decreases digits.len() - k,
{
    if k == digits.len() {
        assert(digits.take(k) =~= digits);
    } else {
        lemma_decimal_prefix(digits, k + 1);
        assert(digits.take(k + 1).drop_last() =~= digits.take(k));
    }
}

/// Reads the value of the `start` parameter. Text that is not a number in range, and
/// any negative number, reads as 0.
pub fn parse_start(value: &str) -> (start: u32)
    ensures
        start == start_of(value@),
        start <= MAX_START,
{
    let chars = to_chars(value);
    let len = chars.len();
    let first: usize = if len > 0 && chars[0] == '+' { 1 } else { 0 };
    let ghost digits = unsigned_part(value@);
    assert(digits =~= chars@.skip(first as int));
    if first == len {
        return 0;
    }
    let mut acc: u32 = 0;
    let mut i: usize = first;
    while i < len
        invariant
            first <= i <= len,
            len == chars@.len(),
            digits == chars@.skip(first as int),
            digits == unsigned_part(value@),
            all_digits(digits.take(i - first)),
            acc == decimal(digits.take(i - first)),
            acc <= MAX_START,
        decreases len - i,
    {
        let c = chars[i];
        assert(digits[i - first] == c);
        if c < '0' || c > '9' {
            return 0;
        }
        let d: u32 = c as u32 - '0' as u32;
        proof {
            assert(digits.take(i - first + 1).drop_last() =~= digits.take(i - first));
            assert(digits.take(i - first + 1).last() == c);
        }
        if acc > (MAX_START - d) / 10 {
            proof {
                lemma_decimal_prefix(digits, i - first + 1);
            }
            return 0;
        }
        acc = acc * 10 + d;
        i += 1;
    }
    assert(digits.take(len - first) =~= digits);
    acc
}

} // verus!
