//! Text as sequences of characters.
//!
//! Everything here treats a string as the sequence of its characters:
//! conversion to and from `Vec<char>`, the whitespace test, trimming,
//! splitting and searching.

use vstd::prelude::*;

verus! {

/// `String::push` of the standard library appends one character to the end
/// of the string and leaves the characters before it as they were.
pub assume_specification[ String::push ](text: &mut String, c: char)
    ensures
        final(text)@ == old(text)@.push(c),
;

/// The characters of `text`, in order.
pub fn chars_of(text: &str) -> (chars: Vec<char>)
    ensures
        chars@ == text@,
{
    let mut chars: Vec<char> = Vec::new();
    for c in it: text.chars()
        invariant
            it.seq() == text@,
            chars@ == it.seq().take(it.index()),
    {
        chars.push(c);
    }
    chars
}

/// The string made of `chars`, in order.
pub fn string_of(chars: &Vec<char>) -> (text: String)
    ensures
        text@ == chars@,
{
    let mut text = String::new();
    let mut index: usize = 0;
    while index < chars.len()
        invariant
            index <= chars.len(),
            text@ == chars@.take(index as int),
        decreases chars.len() - index,
    {
        text.push(chars[index]);
        index = index + 1;
    }
    text
}

/// The characters of `chars` from `from` up to, not including, `to`.
pub fn copy_range(chars: &Vec<char>, from: usize, to: usize) -> (part: Vec<char>)
    requires
        from <= to <= chars.len(),
    ensures
        part@ == chars@.subrange(from as int, to as int),
{
    let mut part: Vec<char> = Vec::new();
    let mut index: usize = from;
    while index < to
        invariant
            from <= index <= to <= chars.len(),
            part@ == chars@.subrange(from as int, index as int),
        decreases to - index,
    {
        part.push(chars[index]);
        index = index + 1;
    }
    part
}

/// Whether two strings hold the same characters.
pub fn same_text(a: &str, b: &str) -> (same: bool)
    ensures
        same == (a@ == b@),
{
    let left = chars_of(a);
    let right = chars_of(b);
    if left.len() != right.len() {
        return false;
    }
    let mut index: usize = 0;
    while index < left.len()
        invariant
            index <= left.len(),
            left.len() == right.len(),
            left@ == a@,
            right@ == b@,
            left@.take(index as int) == right@.take(index as int),
        decreases left.len() - index,
    {
        if left[index] != right[index] {
            return false;
        }
        index = index + 1;
    }
    assert(left@.take(index as int) == left@);
    assert(right@.take(index as int) == right@);
    true
}

/// Whether `c` is white space, as Unicode defines it: the characters with
/// the property `White_Space`.
pub open spec fn is_whitespace(c: char) -> bool {
    ||| '\u{9}' <= c <= '\u{D}'
    ||| c == ' '
    ||| c == '\u{85}'
    ||| c == '\u{A0}'
    ||| c == '\u{1680}'
    ||| '\u{2000}' <= c <= '\u{200A}'
    ||| c == '\u{2028}'
    ||| c == '\u{2029}'
    ||| c == '\u{202F}'
    ||| c == '\u{205F}'
    ||| c == '\u{3000}'
}

/// `text` without the white space it begins with.
pub open spec fn trim_start(text: Seq<char>) -> Seq<char>
    decreases text.len(),
{
    if text.len() > 0 && is_whitespace(text[0]) {
        trim_start(text.drop_first())
    } else {
        text
    }
}

/// `text` without the white space it ends with.
pub open spec fn trim_end(text: Seq<char>) -> Seq<char>
    decreases text.len(),
{
    if text.len() > 0 && is_whitespace(text.last()) {
        trim_end(text.drop_last())
    } else {
        text
    }
}

/// `text` without the white space at either end.
pub open spec fn trim(text: Seq<char>) -> Seq<char> {
    trim_end(trim_start(text))
}

/// The index of the first `c` in `text`, or the length of `text` if it
/// holds none.
pub open spec fn position_of(text: Seq<char>, c: char) -> int
    decreases text.len(),
{
    if text.len() == 0 || text[0] == c {
        0
    } else {
        1 + position_of(text.drop_first(), c)
    }
}

/// What follows the first `separator` in `text`; nothing if there is none.
pub open spec fn after_first(text: Seq<char>, separator: char) -> Seq<char> {
    let first = position_of(text, separator);
    if first < text.len() {
        text.skip(first + 1)
    } else {
        Seq::empty()
    }
}

/// The second of the fields that `separator` divides `text` into: what
/// stands between its first and its second occurrence, or after the first
/// if there is no second. Nothing if `text` holds no separator at all.
pub open spec fn second_field(text: Seq<char>, separator: char) -> Seq<char> {
    let rest = after_first(text, separator);
    rest.take(position_of(rest, separator))
}

/// `text` with every `c` taken out.
pub open spec fn without(text: Seq<char>, c: char) -> Seq<char>
    decreases text.len(),
{
    if text.len() == 0 {
        text
    } else if text.last() == c {
        without(text.drop_last(), c)
    } else {
        without(text.drop_last(), c).push(text.last())
    }
}

/// Whether `pattern` stands in `text` at index `at`.
pub open spec fn occurs_at(text: Seq<char>, pattern: Seq<char>, at: int) -> bool {
    &&& 0 <= at
    &&& at + pattern.len() <= text.len()
    &&& text.subrange(at, at + pattern.len()) == pattern
}

pub open spec fn starts_with(text: Seq<char>, pattern: Seq<char>) -> bool {
    occurs_at(text, pattern, 0)
}

/// Whether `pattern` stands somewhere in `text`.
pub open spec fn contains_text(text: Seq<char>, pattern: Seq<char>) -> bool {
    exists|at: int| occurs_at(text, pattern, at)
}

/// The pieces that `separator` divides `text` into, in order. There is one
/// piece more than there are separators, and a piece may be empty.
pub open spec fn split_on(text: Seq<char>, separator: char) -> Seq<Seq<char>>
    decreases text.len(),
{
    if text.len() == 0 {
        seq![Seq::empty()]
    } else {
        let before = split_on(text.drop_last(), separator);
        if text.last() == separator {
            before.push(Seq::empty())
        } else {
            before.drop_last().push(before.last().push(text.last()))
        }
    }
}

/// `position_of` finds the first occurrence: nothing before it is `c`, and
/// it is `c` unless it is the end of the text.
pub proof fn lemma_position_of(text: Seq<char>, c: char)
    ensures
        0 <= position_of(text, c) <= text.len(),
        forall|i: int| 0 <= i < position_of(text, c) ==> text[i] != c,
        position_of(text, c) < text.len() ==> text[position_of(text, c)] == c,
    decreases text.len(),
{
    if text.len() > 0 && text[0] != c {
        let rest = text.drop_first();
        lemma_position_of(rest, c);
        assert forall|i: int| 0 <= i < position_of(text, c) implies text[i] != c by {
            if i > 0 {
                assert(text[i] == rest[i - 1]);
            }
        }
    }
}

/// An index with `c` at it and no `c` before it is the position of `c`.
pub proof fn lemma_position_of_first(text: Seq<char>, c: char, at: int)
    requires
        0 <= at <= text.len(),
        forall|i: int| 0 <= i < at ==> text[i] != c,
        at < text.len() ==> text[at] == c,
    ensures
        position_of(text, c) == at,
    decreases text.len(),
{
    if text.len() > 0 && text[0] != c {
        lemma_position_of_first(text.drop_first(), c, at - 1);
    }
}

/// Splitting never yields nothing, and no piece holds the separator.
pub proof fn lemma_split_on_pieces(text: Seq<char>, separator: char)
    ensures
        split_on(text, separator).len() >= 1,
        forall|k: int, i: int|
            0 <= k < split_on(text, separator).len() && 0 <= i < split_on(text, separator)[k].len()
                ==> split_on(text, separator)[k][i] != separator,
    decreases text.len(),
{
    if text.len() > 0 {
        lemma_split_on_pieces(text.drop_last(), separator);
    }
}

/// The pieces of `text`, each but the last followed by the separator,
/// written one after the other.
pub open spec fn join_with(pieces: Seq<Seq<char>>, separator: char) -> Seq<char>
    decreases pieces.len(),
{
    if pieces.len() == 0 {
        Seq::empty()
    } else if pieces.len() == 1 {
        pieces[0]
    } else {
        join_with(pieces.drop_last(), separator).push(separator) + pieces.last()
    }
}

/// Splitting loses nothing: the pieces joined by the separator are the
/// text again.
pub proof fn lemma_split_on_joins_back(text: Seq<char>, separator: char)
    ensures
        join_with(split_on(text, separator), separator) == text,
    decreases text.len(),
{
    if text.len() > 0 {
        let shorter = text.drop_last();
        let before = split_on(shorter, separator);
        lemma_split_on_joins_back(shorter, separator);
        lemma_split_on_pieces(shorter, separator);
        let pieces = split_on(text, separator);
        if text.last() == separator {
            assert(pieces.drop_last() == before);
            assert(join_with(pieces, separator) == join_with(before, separator).push(separator)
                + Seq::<char>::empty());
        } else if before.len() > 1 {
            let front = join_with(before.drop_last(), separator).push(separator);
            assert(pieces.drop_last() == before.drop_last());
            assert(join_with(before, separator) == front + before.last());
            assert(join_with(pieces, separator) == front + before.last().push(text.last()));
            assert(front + before.last().push(text.last()) == (front + before.last()).push(
                text.last(),
            ));
        }
    }
}

/// Whether `c` is white space.
pub fn is_whitespace_char(c: char) -> (white: bool)
    ensures
        white == is_whitespace(c),
{
    ('\u{9}' <= c && c <= '\u{D}') || c == ' ' || c == '\u{85}' || c == '\u{A0}' || c
        == '\u{1680}' || ('\u{2000}' <= c && c <= '\u{200A}') || c == '\u{2028}' || c
        == '\u{2029}' || c == '\u{202F}' || c == '\u{205F}' || c == '\u{3000}'
}

/// `chars` without the white space at either end.
pub fn trimmed(chars: &Vec<char>) -> (inner: Vec<char>)
    ensures
        inner@ == trim(chars@),
{
    let mut from: usize = 0;
    assert(chars@.skip(0) == chars@);
    while from < chars.len() && is_whitespace_char(chars[from])
        invariant
            from <= chars.len(),
            trim_start(chars@) == trim_start(chars@.skip(from as int)),
        decreases chars.len() - from,
    {
        assert(chars@.skip(from as int).drop_first() == chars@.skip(from + 1));
        from = from + 1;
    }
    let mut to: usize = chars.len();
    while to > from && is_whitespace_char(chars[to - 1])
        invariant
            from <= to <= chars.len(),
            trim(chars@) == trim_end(chars@.subrange(from as int, to as int)),
        decreases to,
    {
        assert(chars@.subrange(from as int, to as int).drop_last() == chars@.subrange(
            from as int,
            to - 1,
        ));
        to = to - 1;
    }
    copy_range(chars, from, to)
}

/// The index of the first `c` in `chars` at or after `from`, or the length
/// of `chars` if there is none.
pub fn find_char(chars: &Vec<char>, from: usize, c: char) -> (at: usize)
    requires
        from <= chars.len(),
    ensures
        from <= at <= chars.len(),
        at == from + position_of(chars@.skip(from as int), c),
{
    let mut at: usize = from;
    while at < chars.len() && chars[at] != c
        invariant
            from <= at <= chars.len(),
            forall|i: int| from <= i < at ==> chars@[i] != c,
        decreases chars.len() - at,
    {
        at = at + 1;
    }
    proof {
        lemma_position_of_first(chars@.skip(from as int), c, at - from);
    }
    at
}

/// What follows the first `separator` in `chars`.
pub fn rest_after_first(chars: &Vec<char>, separator: char) -> (rest: Vec<char>)
    ensures
        rest@ == after_first(chars@, separator),
{
    let first = find_char(chars, 0, separator);
    assert(chars@.skip(0) == chars@);
    if first < chars.len() {
        copy_range(chars, first + 1, chars.len())
    } else {
        Vec::new()
    }
}

/// The second of the fields that `separator` divides `chars` into.
pub fn second_field_of(chars: &Vec<char>, separator: char) -> (field: Vec<char>)
    ensures
        field@ == second_field(chars@, separator),
{
    let rest = rest_after_first(chars, separator);
    let end = find_char(&rest, 0, separator);
    assert(rest@.skip(0) == rest@);
    copy_range(&rest, 0, end)
}

/// `chars` with every `c` taken out.
pub fn removed(chars: &Vec<char>, c: char) -> (kept: Vec<char>)
    ensures
        kept@ == without(chars@, c),
{
    let mut kept: Vec<char> = Vec::new();
    let mut index: usize = 0;
    while index < chars.len()
        invariant
            index <= chars.len(),
            kept@ == without(chars@.take(index as int), c),
        decreases chars.len() - index,
    {
        assert(chars@.take(index + 1).drop_last() == chars@.take(index as int));
        if chars[index] != c {
            kept.push(chars[index]);
        }
        index = index + 1;
    }
    assert(chars@.take(index as int) == chars@);
    kept
}

/// Whether `pattern` stands in `chars` at index `at`.
pub fn matches_at(chars: &Vec<char>, pattern: &Vec<char>, at: usize) -> (found: bool)
    ensures
        found == occurs_at(chars@, pattern@, at as int),
{
    if pattern.len() > chars.len() || at > chars.len() - pattern.len() {
        return false;
    }
    let mut index: usize = 0;
    while index < pattern.len()
        invariant
            index <= pattern.len(),
            at + pattern.len() <= chars.len(),
            forall|i: int| 0 <= i < index ==> chars@[at + i] == pattern@[i],
        decreases pattern.len() - index,
    {
        if chars[at + index] != pattern[index] {
            assert(chars@.subrange(at as int, at + pattern.len())[index as int]
                != pattern@[index as int]);
            return false;
        }
        index = index + 1;
    }
    assert(chars@.subrange(at as int, at + pattern.len()) == pattern@);
    true
}

/// Whether `chars` begins with the characters of `pattern`.
pub fn begins_with(chars: &Vec<char>, pattern: &str) -> (found: bool)
    ensures
        found == starts_with(chars@, pattern@),
{
    let pattern_chars = chars_of(pattern);
    matches_at(chars, &pattern_chars, 0)
}

/// Whether the characters of `pattern` stand somewhere in `chars`.
pub fn holds_text(chars: &Vec<char>, pattern: &str) -> (found: bool)
    ensures
        found == contains_text(chars@, pattern@),
{
    let pattern_chars = chars_of(pattern);
    if pattern_chars.len() > chars.len() {
        assert forall|at: int| !occurs_at(chars@, pattern@, at) by {}
        return false;
    }
    let last: usize = chars.len() - pattern_chars.len();
    let mut at: usize = 0;
    loop
        invariant
            at <= last,
            last == chars.len() - pattern_chars.len(),
            pattern_chars@ == pattern@,
            forall|i: int| 0 <= i < at ==> !occurs_at(chars@, pattern@, i),
        decreases last - at,
    {
        if matches_at(chars, &pattern_chars, at) {
            return true;
        }
        if at == last {
            assert forall|i: int| !occurs_at(chars@, pattern@, i) by {}
            return false;
        }
        at = at + 1;
    }
}

} // verus!
