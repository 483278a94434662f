//! Text handling shared by the indicators: searching, lines, trimming, and
//! decimal numbers.

use vstd::prelude::*;
use vstd::string::*;

verus! {

/// Whether `needle` stands in `hay` at position `at`.
pub open spec fn occurs_at(hay: Seq<char>, needle: Seq<char>, at: int) -> bool {
    0 <= at && at + needle.len() <= hay.len() && hay.subrange(at, at + needle.len()) == needle
}

/// The first position at or after `from` where `needle` stands in `hay`.
pub open spec fn first_match(hay: Seq<char>, needle: Seq<char>, from: int) -> Option<int>
    decreases hay.len() + 1 - from,
{
    if from < 0 || from + needle.len() > hay.len() {
        None
    } else if occurs_at(hay, needle, from) {
        Some(from)
    } else {
        first_match(hay, needle, from + 1)
    }
}

/// Where the line that holds position `at` begins: after the nearest line
/// feed before `at`, or at the start of the text.
pub open spec fn line_start(text: Seq<char>, at: int) -> int
    decreases at,
{
    if at <= 0 || at > text.len() {
        0
    } else if text[at - 1] == '\n' {
        at
    } else {
        line_start(text, at - 1)
    }
}

/// Where the line that holds position `at` ends: at the nearest line feed at
/// or after `at`, or at the end of the text.
pub open spec fn line_end(text: Seq<char>, at: int) -> int
    decreases text.len() - at,
{
    if at < 0 || at >= text.len() {
        text.len() as int
    } else if text[at] == '\n' {
        at
    } else {
        line_end(text, at + 1)
    }
}

/// The first line of `text` that contains `needle`, without its line feed.
pub open spec fn line_with(text: Seq<char>, needle: Seq<char>) -> Option<Seq<char>> {
    match first_match(text, needle, 0) {
        Some(at) => Some(text.subrange(line_start(text, at), line_end(text, at))),
        None => None,
    }
}

/// What `first_match` finds is an occurrence, and the least one from `from`
/// on; where it finds nothing, there is none from `from` on.
pub proof fn lemma_first_match_is_least(hay: Seq<char>, needle: Seq<char>, from: int)
    requires
        0 <= from,
    ensures
        match first_match(hay, needle, from) {
            Some(at) => from <= at && occurs_at(hay, needle, at) && forall|k: int|
                from <= k < at ==> !occurs_at(hay, needle, k),
            None => forall|k: int| from <= k ==> !occurs_at(hay, needle, k),
        },
    decreases hay.len() + 1 - from,
{
    if from + needle.len() <= hay.len() && !occurs_at(hay, needle, from) {
        lemma_first_match_is_least(hay, needle, from + 1);
    }
}

/// The bounds of a line enclose the position, touch line feeds or the ends of
/// the text, and hold no line feed between them.
pub proof fn lemma_line_bounds(text: Seq<char>, at: int)
    requires
        0 <= at <= text.len(),
    ensures
        0 <= line_start(text, at) <= at <= line_end(text, at) <= text.len(),
        line_start(text, at) == 0 || text[line_start(text, at) - 1] == '\n',
        line_end(text, at) == text.len() || text[line_end(text, at)] == '\n',
        forall|k: int| line_start(text, at) <= k < line_end(text, at) ==> text[k] != '\n',
{
    lemma_line_start(text, at);
    lemma_line_end(text, at);
}

proof fn lemma_line_start(text: Seq<char>, at: int)
    requires
        0 <= at <= text.len(),
    ensures
        0 <= line_start(text, at) <= at,
        line_start(text, at) == 0 || text[line_start(text, at) - 1] == '\n',
        forall|k: int| line_start(text, at) <= k < at ==> text[k] != '\n',
    decreases at,
{
    if at > 0 && text[at - 1] != '\n' {
        lemma_line_start(text, at - 1);
    }
}

proof fn lemma_line_end(text: Seq<char>, at: int)
    requires
        0 <= at <= text.len(),
    ensures
        at <= line_end(text, at) <= text.len(),
        line_end(text, at) == text.len() || text[line_end(text, at)] == '\n',
        forall|k: int| at <= k < line_end(text, at) ==> text[k] != '\n',
    decreases text.len() - at,
{
    if at < text.len() && text[at] != '\n' {
        lemma_line_end(text, at + 1);
    }
}

/// Whether `c` is white space: a character with the Unicode property
/// `White_Space`.
pub open spec fn is_space(c: char) -> bool {
    ('\u{9}' <= c && c <= '\u{d}') || c == ' ' || c == '\u{85}' || c == '\u{a0}' || c
        == '\u{1680}' || ('\u{2000}' <= c && c <= '\u{200a}') || c == '\u{2028}' || c
        == '\u{2029}' || c == '\u{202f}' || c == '\u{205f}' || c == '\u{3000}'
}

/// The first position from `from` on that holds no white space, or the end
/// of the text.
pub open spec fn spaces_end(text: Seq<char>, from: int) -> int
    decreases text.len() - from,
{
    if from < 0 || from >= text.len() {
        text.len() as int
    } else if !is_space(text[from]) {
        from
    } else {
        spaces_end(text, from + 1)
    }
}

/// The position after the last character before `to` that is no white
/// space, or `from` where there is none from `from` on.
pub open spec fn spaces_start(text: Seq<char>, from: int, to: int) -> int
    decreases to,
{
    if to <= from || to > text.len() || from < 0 {
        from
    } else if !is_space(text[to - 1]) {
        to
    } else {
        spaces_start(text, from, to - 1)
    }
}

/// What is left of a text when the white space at its two ends is taken
/// away.
pub open spec fn trimmed(text: Seq<char>) -> Seq<char> {
    text.subrange(
        spaces_end(text, 0),
        spaces_start(text, spaces_end(text, 0), text.len() as int),
    )
}

/// The bounds of the trimmed text lie in the text in order, all before the
/// first and all from the second on is white space, and where anything lies
/// between them, it begins and ends with a character that is none.
pub proof fn lemma_trimmed_bounds(text: Seq<char>)
    ensures
        ({
            let from = spaces_end(text, 0);
            let to = spaces_start(text, from, text.len() as int);
            &&& 0 <= from <= to <= text.len()
            &&& forall|k: int| 0 <= k < from ==> is_space(#[trigger] text[k])
            &&& forall|k: int| to <= k < text.len() ==> is_space(#[trigger] text[k])
            &&& from < to ==> !is_space(text[from]) && !is_space(text[to - 1])
        }),
{
    lemma_spaces_end(text, 0);
    lemma_spaces_start(text, spaces_end(text, 0), text.len() as int);
}

proof fn lemma_spaces_end(text: Seq<char>, from: int)
    requires
        0 <= from <= text.len(),
    ensures
        from <= spaces_end(text, from) <= text.len(),
        forall|k: int| from <= k < spaces_end(text, from) ==> is_space(#[trigger] text[k]),
        spaces_end(text, from) < text.len() ==> !is_space(text[spaces_end(text, from)]),
    decreases text.len() - from,
{
    if from < text.len() && is_space(text[from]) {
        lemma_spaces_end(text, from + 1);
    }
}

proof fn lemma_spaces_start(text: Seq<char>, from: int, to: int)
    requires
        0 <= from <= to <= text.len(),
    ensures
        from <= spaces_start(text, from, to) <= to,
        forall|k: int| spaces_start(text, from, to) <= k < to ==> is_space(#[trigger] text[k]),
        from < spaces_start(text, from, to) ==> !is_space(
            text[spaces_start(text, from, to) - 1],
        ),
    decreases to,
{
    if from < to && is_space(text[to - 1]) {
        lemma_spaces_start(text, from, to - 1);
    }
}

/// Whether `c` is white space.
pub fn is_white_space(c: char) -> (space: bool)
    ensures
        space == is_space(c),
{
    ('\u{9}' <= c && c <= '\u{d}') || c == ' ' || c == '\u{85}' || c == '\u{a0}' || c
        == '\u{1680}' || ('\u{2000}' <= c && c <= '\u{200a}') || c == '\u{2028}' || c
        == '\u{2029}' || c == '\u{202f}' || c == '\u{205f}' || c == '\u{3000}'
}

/// Cuts the white space off the two ends of `text`.
pub fn trim(text: &str) -> (inner: &str)
    ensures
        inner@ == trimmed(text@),
{
    let len = text.unicode_len();
    let mut from: usize = 0;
    while from < len && is_white_space(text.get_char(from))
        invariant
            from <= len,
            len == text@.len(),
            spaces_end(text@, 0) == spaces_end(text@, from as int),
        decreases len - from,
    {
        from += 1;
    }
    let mut to: usize = len;
    while to > from && is_white_space(text.get_char(to - 1))
        invariant
            from <= to <= len,
            len == text@.len(),
            spaces_start(text@, from as int, len as int) == spaces_start(
                text@,
                from as int,
                to as int,
            ),
        decreases to,
    {
        to -= 1;
    }
    text.substring_char(from, to)
}

/// Whether `needle` stands in `hay` at `at`; the lengths are passed in so
/// that they are counted once.
fn stands_at(hay: &str, needle: &str, at: usize, hay_len: usize, needle_len: usize) -> (hit:
    bool)
    requires
        hay_len == hay@.len(),
        needle_len == needle@.len(),
        at + needle_len <= hay_len,
    ensures
        hit == occurs_at(hay@, needle@, at as int),
{
    let mut j: usize = 0;
    while j < needle_len
        invariant
            j <= needle_len,
            hay_len == hay@.len(),
            needle_len == needle@.len(),
            at + needle_len <= hay_len,
            forall|k: int| 0 <= k < j ==> hay@[at + k] == needle@[k],
        decreases needle_len - j,
    {
        if hay.get_char(at + j) != needle.get_char(j) {
            proof {
                assert(hay@.subrange(at as int, at + needle_len)[j as int] == hay@[at + j]);
            }
            return false;
        }
        j += 1;
    }
    proof {
        assert(hay@.subrange(at as int, at + needle_len) =~= needle@);
    }
    true
}

/// Finds the first position where `needle` stands in `hay`.
pub fn find(hay: &str, needle: &str) -> (found: Option<usize>)
    ensures
        match found {
            Some(at) => first_match(hay@, needle@, 0) == Some(at as int),
            None => first_match(hay@, needle@, 0).is_none(),
        },
{
    let hay_len = hay.unicode_len();
    let needle_len = needle.unicode_len();
    if needle_len > hay_len {
        return None;
    }
    let last: usize = hay_len - needle_len;
    let mut at: usize = 0;
    while at < last
        invariant
            at <= last,
            last == hay_len - needle_len,
            hay_len == hay@.len(),
            needle_len == needle@.len(),
            first_match(hay@, needle@, 0) == first_match(hay@, needle@, at as int),
        decreases last - at,
    {
        if stands_at(hay, needle, at, hay_len, needle_len) {
            return Some(at);
        }
        at += 1;
    }
    if stands_at(hay, needle, at, hay_len, needle_len) {
        Some(at)
    } else {
        assert(first_match(hay@, needle@, at + 1).is_none());
        None
    }
}

/// Cuts out of `text` the line that holds position `at`, without its line
/// feed; nothing where `at` lies beyond the end of the text.
pub fn line_around(text: &str, at: usize) -> (line: Option<&str>)
    ensures
        at <= text@.len() ==> (line matches Some(l) && l@ == text@.subrange(
            line_start(text@, at as int),
            line_end(text@, at as int),
        )),
        at > text@.len() ==> line is None,
{
    let len = text.unicode_len();
    if at > len {
        return None;
    }
    let mut from: usize = at;
    while from > 0 && text.get_char(from - 1) != '\n'
        invariant
            from <= at <= len,
            len == text@.len(),
            line_start(text@, at as int) == line_start(text@, from as int),
        decreases from,
    {
        from -= 1;
    }
    let mut to: usize = at;
    while to < len && text.get_char(to) != '\n'
        invariant
            at <= to <= len,
            len == text@.len(),
            line_end(text@, at as int) == line_end(text@, to as int),
        decreases len - to,
    {
        to += 1;
    }
    Some(text.substring_char(from, to))
}

/// Finds the first line of `text` that contains `needle`.
pub fn find_line<'a>(text: &'a str, needle: &str) -> (line: Option<&'a str>)
    ensures
        match line {
            Some(l) => line_with(text@, needle@) == Some(l@),
            None => line_with(text@, needle@).is_none(),
        },
{
    match find(text, needle) {
        Some(at) => {
            proof {
                lemma_first_match_is_least(text@, needle@, 0);
            }
            line_around(text, at)
        },
        None => None,
    }
}

/// Whether two texts hold the same characters.
pub fn same_text(left: &str, right: &str) -> (same: bool)
    ensures
        same == (left@ == right@),
{
    let left_len = left.unicode_len();
    let right_len = right.unicode_len();
    if left_len != right_len {
        return false;
    }
    let hit = stands_at(left, right, 0, left_len, right_len);
    proof {
        assert(left@.subrange(0, left_len as int) =~= left@);
    }
    hit
}

} // verus!
