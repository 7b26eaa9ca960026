//! Lines and white space in text, on sequences of characters.

use vstd::prelude::*;

verus! {

/// Whether a character is white space, as Unicode defines it.
pub open spec fn is_space(c: char) -> bool {
    let n = c as u32;
    ||| 0x9 <= n <= 0xd
    ||| n == 0x20
    ||| n == 0x85
    ||| n == 0xa0
    ||| n == 0x1680
    ||| 0x2000 <= n <= 0x200a
    ||| n == 0x2028
    ||| n == 0x2029
    ||| n == 0x202f
    ||| n == 0x205f
    ||| n == 0x3000
}

/// How many characters of white space a text begins with.
pub open spec fn leading_spaces(s: Seq<char>) -> nat
    decreases s.len(),
{
    if s.len() > 0 && is_space(s[0]) {
        1 + leading_spaces(s.drop_first())
    } else {
        0
    }
}

/// How many characters of white space a text ends with.
pub open spec fn trailing_spaces(s: Seq<char>) -> nat
    decreases s.len(),
{
    if s.len() > 0 && is_space(s.last()) {
        1 + trailing_spaces(s.drop_last())
    } else {
        0
    }
}

/// A text without the white space around it.
pub open spec fn trim(s: Seq<char>) -> Seq<char> {
    let start = leading_spaces(s);
    if start >= s.len() {
        Seq::empty()
    } else {
        s.subrange(start as int, s.len() - trailing_spaces(s))
    }
}

/// Where a character first stands in a text.
pub open spec fn first_index(s: Seq<char>, c: char) -> Option<int>
    decreases s.len(),
{
    if s.len() == 0 {
        None
    } else if s[0] == c {
        Some(0)
    } else {
        match first_index(s.drop_first(), c) {
            Some(i) => Some(i + 1),
            None => None,
        }
    }
}

/// The lines of a text: what stands between its line feeds.
pub open spec fn split_lines(s: Seq<char>) -> Seq<Seq<char>>
    decreases s.len(),
    via split_lines_decreases
{
    match first_index(s, '\n') {
        None => seq![s],
        Some(i) => seq![s.take(i)] + split_lines(s.skip(i + 1)),
    }
}

#[via_fn]
proof fn split_lines_decreases(s: Seq<char>) {
    if let Some(i) = first_index(s, '\n') {
        lemma_first_index(s, '\n');
    }
}

/// The first index of a character is in range, holds the character, and no
/// earlier index does; there is none exactly where the character is missing.
pub proof fn lemma_first_index(s: Seq<char>, c: char)
    ensures
        match first_index(s, c) {
            Some(i) => 0 <= i < s.len() && s[i] == c && forall|k: int| 0 <= k < i ==> s[k] != c,
            None => forall|k: int| 0 <= k < s.len() ==> s[k] != c,
        },
    decreases s.len(),
{
    if s.len() > 0 && s[0] != c {
        let rest = s.drop_first();
        lemma_first_index(rest, c);
        match first_index(rest, c) {
            Some(i) => {
                assert forall|k: int| 0 <= k < i + 1 implies s[k] != c by {
                    if k > 0 {
                        assert(rest[k - 1] != c);
                    }
                }
            },
            None => {
                assert forall|k: int| 0 <= k < s.len() implies s[k] != c by {
                    if k > 0 {
                        assert(rest[k - 1] != c);
                    }
                }
            },
        }
    }
}

/// An index that holds the character, with none before it that does, is the
/// first index.
pub proof fn lemma_first_index_is(s: Seq<char>, c: char, i: int)
    requires
        0 <= i <= s.len(),
        forall|k: int| 0 <= k < i ==> s[k] != c,
        i < s.len() ==> s[i] == c,
    ensures
        first_index(s, c) == if i < s.len() {
            Some(i)
        } else {
            None
        },
{
    lemma_first_index(s, c);
}

/// The count of leading white space is where the first other character
/// stands.
pub proof fn lemma_leading_spaces_is(s: Seq<char>, n: int)
    requires
        0 <= n <= s.len(),
        forall|k: int| 0 <= k < n ==> is_space(s[k]),
        n < s.len() ==> !is_space(s[n]),
    ensures
        leading_spaces(s) == n,
    decreases s.len(),
{
    if n > 0 {
        let rest = s.drop_first();
        assert forall|k: int| 0 <= k < n - 1 implies is_space(rest[k]) by {
            assert(rest[k] == s[k + 1]);
        }
        lemma_leading_spaces_is(rest, n - 1);
    }
}

/// The count of trailing white space is what follows the last other
/// character.
pub proof fn lemma_trailing_spaces_is(s: Seq<char>, n: int)
    requires
        0 <= n <= s.len(),
        forall|k: int| s.len() - n <= k < s.len() ==> is_space(s[k]),
        n < s.len() ==> !is_space(s[s.len() - n - 1]),
    ensures
        trailing_spaces(s) == n,
    decreases s.len(),
{
    if n > 0 {
        let rest = s.drop_last();
        assert(is_space(s[s.len() - 1]));
        assert forall|k: int| rest.len() - (n - 1) <= k < rest.len() implies is_space(rest[k]) by {
            assert(rest[k] == s[k]);
        }
        lemma_trailing_spaces_is(rest, n - 1);
    }
}

/// Whether a character is white space.
pub fn char_is_space(c: char) -> (b: bool)
    ensures
        b == is_space(c),
{
    let n = c as u32;
    (0x9 <= n && n <= 0xd) || n == 0x20 || n == 0x85 || n == 0xa0 || n == 0x1680 || (0x2000 <= n
        && n <= 0x200a) || n == 0x2028 || n == 0x2029 || n == 0x202f || n == 0x205f || n
        == 0x3000
}

/// Finds a character in a part of a text: the first index from `from` on that
/// holds it, or `to` where none before `to` does.
pub fn find_char(chars: &Vec<char>, from: usize, to: usize, c: char) -> (at: usize)
    requires
        from <= to <= chars@.len(),
    ensures
        from <= at <= to,
        first_index(chars@.subrange(from as int, to as int), c) == if at < to {
            Some(at - from)
        } else {
            None
        },
{
    let mut at = from;
    while at < to && chars[at] != c
        invariant
            from <= at <= to <= chars@.len(),
            forall|k: int| from <= k < at ==> chars@[k] != c,
        decreases to - at,
    {
        at += 1;
    }
    proof {
        let part = chars@.subrange(from as int, to as int);
        assert forall|k: int| 0 <= k < at - from implies part[k] != c by {
            assert(part[k] == chars@[from + k]);
        }
        lemma_first_index_is(part, c, at - from);
    }
    at
}

/// Trims a part of a text: the bounds of what is left of it without the
/// white space around it.
pub fn trim_range(chars: &Vec<char>, from: usize, to: usize) -> (bounds: (usize, usize))
    requires
        from <= to <= chars@.len(),
    ensures
        from <= bounds.0 <= bounds.1 <= to,
        chars@.subrange(bounds.0 as int, bounds.1 as int) == trim(
            chars@.subrange(from as int, to as int),
        ),
{
    let ghost part = chars@.subrange(from as int, to as int);
    let mut start = from;
    while start < to && char_is_space(chars[start])
        invariant
            from <= start <= to <= chars@.len(),
            forall|k: int| from <= k < start ==> is_space(chars@[k]),
        decreases to - start,
    {
        start += 1;
    }
    proof {
        assert forall|k: int| 0 <= k < start - from implies is_space(part[k]) by {
            assert(part[k] == chars@[from + k]);
        }
        lemma_leading_spaces_is(part, start - from);
    }
    if start == to {
        assert(chars@.subrange(start as int, start as int) =~= Seq::<char>::empty());
        return (start, start);
    }
    let mut end = to;
    while end > start && char_is_space(chars[end - 1])
        invariant
            from <= start < to <= chars@.len(),
            start <= end <= to,
            !is_space(chars@[start as int]),
            forall|k: int| end <= k < to ==> is_space(chars@[k]),
        decreases end - start,
    {
        end -= 1;
    }
    proof {
        assert(end > start);
        assert forall|k: int| part.len() - (to - end) <= k < part.len() implies is_space(
            part[k],
        ) by {
            assert(part[k] == chars@[from + k]);
        }
        assert(part[part.len() - (to - end) - 1] == chars@[end - 1]);
        lemma_trailing_spaces_is(part, to - end);
        assert(chars@.subrange(start as int, end as int) =~= part.subrange(
            start - from,
            part.len() - (to - end),
        ));
    }
    (start, end)
}

/// Whether a part of a text is exactly `literal`.
pub fn range_is(chars: &Vec<char>, from: usize, to: usize, literal: &str) -> (same: bool)
    requires
        from <= to <= chars@.len(),
    ensures
        same == (chars@.subrange(from as int, to as int) == literal@),
{
    let wanted = crate::text::to_chars(literal);
    let ghost part = chars@.subrange(from as int, to as int);
    if wanted.len() != to - from {
        return false;
    }
    let mut i: usize = 0;
    while i < wanted.len()
        invariant
            from <= to <= chars@.len(),
            wanted@ == literal@,
            wanted@.len() == to - from,
            i <= wanted@.len(),
            part == chars@.subrange(from as int, to as int),
            forall|k: int| 0 <= k < i ==> part[k] == wanted@[k],
        decreases wanted@.len() - i,
    {
        if chars[from + i] != wanted[i] {
            assert(part[i as int] != wanted@[i as int]);
            return false;
        }
        i += 1;
    }
    assert(part =~= wanted@);
    true
}

/// A part of a text as a string of its own.
pub fn range_text(chars: &Vec<char>, from: usize, to: usize) -> (text: String)
    requires
        from <= to <= chars@.len(),
    ensures
        text@ == chars@.subrange(from as int, to as int),
{
    let mut part: Vec<char> = Vec::new();
    let mut i = from;
    while i < to
        invariant
            from <= i <= to <= chars@.len(),
            part@ == chars@.subrange(from as int, i as int),
        decreases to - i,
    {
        part.push(chars[i]);
        assert(part@ =~= chars@.subrange(from as int, i + 1));
        i += 1;
    }
    crate::text::text_from_chars(part.as_slice())
}

} // verus!
