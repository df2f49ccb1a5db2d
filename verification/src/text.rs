//! Character-level building blocks: searching, trimming, and decimal numbers.
//!
//! A string is modelled by the sequence of its characters. Offsets in this
//! module count characters, never bytes.

use vstd::prelude::*;
use vstd::utf8::{encode_scalar, encode_utf8};

verus! {

// ---------------------------------------------------------------------------
// Character classes
// ---------------------------------------------------------------------------

pub open spec fn is_digit(c: char) -> bool {
    '0' <= c <= '9'
}

pub open spec fn is_alphanumeric(c: char) -> bool {
    is_digit(c) || 'a' <= c <= 'z' || 'A' <= c <= 'Z'
}

/// The characters with the Unicode property `White_Space`.
pub open spec fn is_white_space(c: char) -> bool {
    ||| '\u{9}' <= c <= '\u{d}'
    ||| c == ' '
    ||| c == '\u{85}'
    ||| c == '\u{a0}'
    ||| c == '\u{1680}'
    ||| '\u{2000}' <= c <= '\u{200a}'
    ||| c == '\u{2028}'
    ||| c == '\u{2029}'
    ||| c == '\u{202f}'
    ||| c == '\u{205f}'
    ||| c == '\u{3000}'
}

/// A kind of character that can be trimmed off a string.
#[derive(Copy, Clone, PartialEq, Eq, Debug, Structural)]
pub enum CharClass {
    /// `\n` and `\r`.
    LineEnd,
    /// `/`.
    Slash,
    /// `-`.
    Hyphen,
    /// Unicode white space.
    White,
}

impl CharClass {
    pub open spec fn has(self, c: char) -> bool {
        match self {
            CharClass::LineEnd => c == '\n' || c == '\r',
            CharClass::Slash => c == '/',
            CharClass::Hyphen => c == '-',
            CharClass::White => is_white_space(c),
        }
    }

    pub fn contains(self, c: char) -> (r: bool)
        ensures
            r == self.has(c),
    {
        match self {
            CharClass::LineEnd => c == '\n' || c == '\r',
            CharClass::Slash => c == '/',
            CharClass::Hyphen => c == '-',
            CharClass::White => {
                ('\u{9}' <= c && c <= '\u{d}') || c == ' ' || c == '\u{85}' || c == '\u{a0}'
                    || c == '\u{1680}' || ('\u{2000}' <= c && c <= '\u{200a}') || c == '\u{2028}'
                    || c == '\u{2029}' || c == '\u{202f}' || c == '\u{205f}' || c == '\u{3000}'
            },
        }
    }
}

pub fn digit(c: char) -> (r: bool)
    ensures
        r == is_digit(c),
{
    '0' <= c && c <= '9'
}

pub fn alphanumeric(c: char) -> (r: bool)
    ensures
        r == is_alphanumeric(c),
{
    digit(c) || ('a' <= c && c <= 'z') || ('A' <= c && c <= 'Z')
}

// ---------------------------------------------------------------------------
// Characters, equality, prefixes and suffixes
// ---------------------------------------------------------------------------

/// The characters of a string slice, in order.
pub fn chars_of(s: &str) -> (r: Vec<char>)
    ensures
        r@ == s@,
{
    let mut r: Vec<char> = Vec::new();
    for c in it: s.chars()
        invariant
            it.seq() == s@,
            r@ == s@.take(it.index()),
    {
        r.push(c);
        assert(s@.take(it.index() + 1) =~= s@.take(it.index()).push(c));
    }
    assert(s@.take(s@.len() as int) =~= s@);
    r
}

/// The number of bytes that a text takes in UTF-8.
pub open spec fn utf8_len(s: Seq<char>) -> nat {
    encode_utf8(s).len()
}

/// The number of bytes that a character takes in UTF-8.
pub fn utf8_width(c: char) -> (r: usize)
    ensures
        r == utf8_len(seq![c]),
        1 <= r <= 4,
{
    proof {
        assert(seq![c].drop_first() =~= Seq::<char>::empty());
        reveal_with_fuel(encode_utf8, 2);
        assert(encode_utf8(seq![c]) =~= encode_scalar(c as u32));
    }
    let v = c as u32;
    if v <= 0x7f {
        1
    } else if v <= 0x7ff {
        2
    } else if v <= 0xffff {
        3
    } else {
        4
    }
}

/// The encoding of two texts in a row is that of the one, then that of the
/// other.
pub proof fn lemma_utf8_len_add(a: Seq<char>, b: Seq<char>)
    ensures
        utf8_len(a + b) == utf8_len(a) + utf8_len(b),
    decreases a.len(),
{
    if a.len() == 0 {
        assert(a + b =~= b);
    } else {
        assert((a + b).drop_first() =~= a.drop_first() + b);
        lemma_utf8_len_add(a.drop_first(), b);
    }
}

/// A character takes at most four bytes.
pub proof fn lemma_utf8_len_bound(s: Seq<char>)
    ensures
        utf8_len(s) <= 4 * s.len(),
    decreases s.len(),
{
    if s.len() > 0 {
        lemma_utf8_len_bound(s.drop_first());
    }
}

/// The first `end` characters as a string.
pub fn string_of(cs: &Vec<char>, end: usize) -> (r: String)
    requires
        end <= cs@.len(),
    ensures
        r@ == cs@.take(end as int),
{
    let mut r = String::new();
    let mut i: usize = 0;
    while i < end
        invariant
            i <= end <= cs@.len(),
            r@ == cs@.take(i as int),
        decreases end - i,
    {
        r.push(cs[i]);
        assert(cs@.take(i + 1) =~= cs@.take(i as int).push(cs@[i as int]));
        i += 1;
    }
    r
}

/// Whether `pattern` stands at offset `at` of `s`.
pub open spec fn occurs_at(s: Seq<char>, pattern: Seq<char>, at: int) -> bool {
    0 <= at && at + pattern.len() <= s.len() && s.subrange(at, at + pattern.len()) == pattern
}

pub open spec fn has_prefix(s: Seq<char>, prefix: Seq<char>) -> bool {
    occurs_at(s, prefix, 0)
}

pub open spec fn has_suffix(s: Seq<char>, suffix: Seq<char>) -> bool {
    occurs_at(s, suffix, s.len() - suffix.len())
}

/// Whether `pattern` stands anywhere in `s`.
pub open spec fn contains_text(s: Seq<char>, pattern: Seq<char>) -> bool {
    exists|at: int| occurs_at(s, pattern, at)
}

fn matches_at(s: &Vec<char>, pattern: &Vec<char>, at: usize) -> (r: bool)
    requires
        at + pattern@.len() <= s@.len(),
    ensures
        r == occurs_at(s@, pattern@, at as int),
{
    let len: usize = s.len();
    let mut i: usize = 0;
    while i < pattern.len()
        invariant
            i <= pattern@.len(),
            len == s@.len(),
            at + pattern@.len() <= s@.len(),
            forall|j: int| 0 <= j < i ==> s@[at + j] == #[trigger] pattern@[j],
        decreases pattern@.len() - i,
    {
        if s[at + i] != pattern[i] {
            assert(s@.subrange(at as int, at + pattern@.len())[i as int] == s@[at + i]);
            return false;
        }
        i += 1;
    }
    assert(s@.subrange(at as int, at + pattern@.len()) =~= pattern@);
    true
}

pub fn str_eq(a: &str, b: &str) -> (r: bool)
    ensures
        r == (a@ == b@),
{
    let x = chars_of(a);
    let y = chars_of(b);
    if x.len() != y.len() {
        return false;
    }
    let r = matches_at(&x, &y, 0);
    assert(x@.subrange(0, y@.len() as int) =~= x@);
    r
}

pub fn starts_with(s: &str, prefix: &str) -> (r: bool)
    ensures
        r == has_prefix(s@, prefix@),
{
    let x = chars_of(s);
    let y = chars_of(prefix);
    y.len() <= x.len() && matches_at(&x, &y, 0)
}

pub fn ends_with(s: &str, suffix: &str) -> (r: bool)
    ensures
        r == has_suffix(s@, suffix@),
{
    let x = chars_of(s);
    let y = chars_of(suffix);
    y.len() <= x.len() && matches_at(&x, &y, x.len() - y.len())
}

// ---------------------------------------------------------------------------
// Searching
// ---------------------------------------------------------------------------

/// The least offset at or after `from` that holds `c`; the length if there is
/// none.
pub open spec fn position(s: Seq<char>, c: char, from: int) -> int
    decreases s.len() - from,
{
    if from >= s.len() {
        s.len() as int
    } else if s[from] == c {
        from
    } else {
        position(s, c, from + 1)
    }
}

/// What `position` means: everything before it differs from `c`, and it holds
/// `c` unless it is the length.
pub proof fn lemma_position(s: Seq<char>, c: char, from: int)
    requires
        0 <= from <= s.len(),
    ensures
        from <= position(s, c, from) <= s.len(),
        forall|j: int| from <= j < position(s, c, from) ==> s[j] != c,
        position(s, c, from) < s.len() ==> s[position(s, c, from)] == c,
    decreases s.len() - from,
{
    if from < s.len() && s[from] != c {
        lemma_position(s, c, from + 1);
    }
}

/// The offset that is characterised by `lemma_position`.
pub proof fn lemma_position_is(s: Seq<char>, c: char, from: int, at: int)
    requires
        0 <= from <= at <= s.len(),
        forall|j: int| from <= j < at ==> s[j] != c,
        at < s.len() ==> s[at] == c,
    ensures
        position(s, c, from) == at,
    decreases at - from,
{
    if from < at {
        assert(s[from] != c);
        lemma_position_is(s, c, from + 1, at);
    }
}

pub fn find(s: &Vec<char>, c: char, from: usize) -> (r: usize)
    ensures
        r == position(s@, c, from as int),
        r <= s@.len(),
{
    let mut i: usize = from;
    while i < s.len()
        invariant
            position(s@, c, i as int) == position(s@, c, from as int),
        decreases s@.len() - i,
    {
        if s[i] == c {
            return i;
        }
        i += 1;
    }
    s.len()
}

/// The part of `s` after the last `sep`: all of it where there is no `sep`.
pub open spec fn last_segment(s: Seq<char>, sep: char) -> Seq<char>
    decreases s.len(),
{
    if s.len() == 0 || s.last() == sep {
        Seq::empty()
    } else {
        last_segment(s.drop_last(), sep).push(s.last())
    }
}

/// What `last_segment` means: it is the longest suffix without `sep`.
pub proof fn lemma_last_segment(s: Seq<char>, sep: char)
    ensures
        has_suffix(s, last_segment(s, sep)),
        !last_segment(s, sep).contains(sep),
        last_segment(s, sep).len() < s.len() ==> s[s.len() - last_segment(s, sep).len() - 1] == sep,
    decreases s.len(),
{
    let r = last_segment(s, sep);
    if s.len() == 0 || s.last() == sep {
        assert(s.subrange(s.len() as int, s.len() as int) =~= r);
    } else {
        let init = s.drop_last();
        let q = last_segment(init, sep);
        lemma_last_segment(init, sep);
        assert(s.subrange(s.len() - r.len(), s.len() as int) =~= r) by {
            assert(init.subrange(init.len() - q.len(), init.len() as int) == q);
            assert forall|i: int| 0 <= i < q.len() implies s[s.len() - r.len() + i] == q[i] by {
                assert(q[i] == init.subrange(init.len() - q.len(), init.len() as int)[i]);
            }
        }
        assert forall|i: int| 0 <= i < r.len() implies r[i] != sep by {
            if i < q.len() {
                assert(q.contains(q[i]));
            }
        }
    }
}

/// The segment that is characterised by `lemma_last_segment`.
pub proof fn lemma_last_segment_is(s: Seq<char>, sep: char, start: int)
    requires
        0 <= start <= s.len(),
        forall|j: int| start <= j < s.len() ==> s[j] != sep,
        start > 0 ==> s[start - 1] == sep,
    ensures
        last_segment(s, sep) == s.skip(start),
    decreases s.len(),
{
    if s.len() > start {
        assert(s[s.len() - 1] != sep);
        let init = s.drop_last();
        lemma_last_segment_is(init, sep, start);
        assert(init.skip(start).push(s.last()) =~= s.skip(start));
    } else {
        assert(s.skip(start) =~= Seq::empty());
    }
}

pub fn after_last(s: &str, sep: char) -> (r: &str)
    ensures
        r@ == last_segment(s@, sep),
{
    let cs = chars_of(s);
    let mut start: usize = cs.len();
    while start > 0 && cs[start - 1] != sep
        invariant
            start <= cs@.len(),
            forall|j: int| start <= j < cs@.len() ==> cs@[j] != sep,
        decreases start,
    {
        start -= 1;
    }
    proof {
        lemma_last_segment_is(cs@, sep, start as int);
        assert(cs@.skip(start as int) =~= s@.subrange(start as int, s@.len() as int));
    }
    s.substring_char(start, cs.len())
}

// ---------------------------------------------------------------------------
// Trimming
// ---------------------------------------------------------------------------

/// `s` without the characters of `class` at its end.
pub open spec fn trim_end_of(s: Seq<char>, class: CharClass) -> Seq<char>
    decreases s.len(),
{
    if s.len() > 0 && class.has(s.last()) {
        trim_end_of(s.drop_last(), class)
    } else {
        s
    }
}

/// `s` without the characters of `class` at its start.
pub open spec fn trim_start_of(s: Seq<char>, class: CharClass) -> Seq<char>
    decreases s.len(),
{
    if s.len() > 0 && class.has(s[0]) {
        trim_start_of(s.drop_first(), class)
    } else {
        s
    }
}

/// `s` without white space at either end.
pub open spec fn trimmed(s: Seq<char>) -> Seq<char> {
    trim_start_of(trim_end_of(s, CharClass::White), CharClass::White)
}

pub proof fn lemma_trim_end_is(s: Seq<char>, class: CharClass, end: int)
    requires
        0 <= end <= s.len(),
        forall|j: int| end <= j < s.len() ==> class.has(s[j]),
        end > 0 ==> !class.has(s[end - 1]),
    ensures
        trim_end_of(s, class) == s.take(end),
    decreases s.len(),
{
    if s.len() > end {
        assert(class.has(s[s.len() - 1]));
        lemma_trim_end_is(s.drop_last(), class, end);
        assert(s.drop_last().take(end) =~= s.take(end));
    } else {
        assert(s.take(end) =~= s);
    }
}

/// What is trimmed off the end of `s` is all of `class`, and no more could be.
pub proof fn lemma_trim_end_exists(s: Seq<char>, class: CharClass) -> (end: int)
    ensures
        0 <= end <= s.len(),
        trim_end_of(s, class) == s.take(end),
        forall|j: int| end <= j < s.len() ==> class.has(s[j]),
        end > 0 ==> !class.has(s[end - 1]),
    decreases s.len(),
{
    if s.len() > 0 && class.has(s.last()) {
        let end = lemma_trim_end_exists(s.drop_last(), class);
        assert(s.drop_last().take(end) =~= s.take(end));
        assert forall|j: int| end <= j < s.len() implies class.has(s[j]) by {
            if j < s.len() - 1 {
                assert(s.drop_last()[j] == s[j]);
            }
        }
        end
    } else {
        assert(s.take(s.len() as int) =~= s);
        s.len() as int
    }
}

pub proof fn lemma_trim_start_is(s: Seq<char>, class: CharClass, start: int)
    requires
        0 <= start <= s.len(),
        forall|j: int| 0 <= j < start ==> class.has(s[j]),
        start < s.len() ==> !class.has(s[start]),
    ensures
        trim_start_of(s, class) == s.skip(start),
    decreases s.len(),
{
    if start > 0 {
        assert(class.has(s[0]));
        assert forall|j: int| 0 <= j < start - 1 implies class.has(s.drop_first()[j]) by {
            assert(s.drop_first()[j] == s[j + 1]);
        }
        lemma_trim_start_is(s.drop_first(), class, start - 1);
        assert(s.drop_first().skip(start - 1) =~= s.skip(start));
    } else {
        assert(s.skip(start) =~= s);
    }
}

/// What is trimmed off the start of `s` is all of `class`, and no more could
/// be.
pub proof fn lemma_trim_start_exists(s: Seq<char>, class: CharClass) -> (start: int)
    ensures
        0 <= start <= s.len(),
        trim_start_of(s, class) == s.skip(start),
        forall|j: int| 0 <= j < start ==> class.has(s[j]),
        start < s.len() ==> !class.has(s[start]),
    decreases s.len(),
{
    if s.len() > 0 && class.has(s[0]) {
        let rest = s.drop_first();
        let start = lemma_trim_start_exists(rest, class);
        assert(rest.skip(start) =~= s.skip(start + 1));
        assert forall|j: int| 0 <= j < start + 1 implies class.has(s[j]) by {
            if j > 0 {
                assert(rest[j - 1] == s[j]);
            }
        }
        start + 1
    } else {
        assert(s.skip(0) =~= s);
        0
    }
}

pub fn trim_end(s: &str, class: CharClass) -> (r: &str)
    ensures
        r@ == trim_end_of(s@, class),
{
    let cs = chars_of(s);
    let mut end: usize = cs.len();
    while end > 0 && class.contains(cs[end - 1])
        invariant
            end <= cs@.len(),
            forall|j: int| end <= j < cs@.len() ==> class.has(cs@[j]),
        decreases end,
    {
        end -= 1;
    }
    proof {
        lemma_trim_end_is(cs@, class, end as int);
        assert(cs@.take(end as int) =~= s@.subrange(0, end as int));
    }
    s.substring_char(0, end)
}

pub fn trim_start(s: &str, class: CharClass) -> (r: &str)
    ensures
        r@ == trim_start_of(s@, class),
{
    let cs = chars_of(s);
    let mut start: usize = 0;
    while start < cs.len() && class.contains(cs[start])
        invariant
            start <= cs@.len(),
            forall|j: int| 0 <= j < start ==> class.has(cs@[j]),
        decreases cs@.len() - start,
    {
        start += 1;
    }
    proof {
        lemma_trim_start_is(cs@, class, start as int);
        assert(cs@.skip(start as int) =~= s@.subrange(start as int, s@.len() as int));
    }
    s.substring_char(start, cs.len())
}

pub fn trim(s: &str) -> (r: &str)
    ensures
        r@ == trimmed(s@),
{
    trim_start(trim_end(s, CharClass::White), CharClass::White)
}

} // verus!
