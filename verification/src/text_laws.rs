//! The building blocks on texts, in terms of how texts are put together.

use vstd::prelude::*;

use crate::number::{all_digits, parse_i32, parse_u64, parse_unsigned, value_of};
use crate::text::{
    after_last, alphanumeric, chars_of, contains_text, digit, ends_with, has_prefix, has_suffix,
    is_white_space, last_segment, lemma_last_segment_is, lemma_position_is, lemma_trim_end_is,
    lemma_trim_start_is, occurs_at, position, starts_with, str_eq, trim, trim_end, trim_end_of,
    trim_start, trim_start_of, CharClass,
};

verus! {

/// Whether a text is `p` and something behind it, `p` and something before it, or `p`
/// anywhere.
pub proof fn law_parts_of_a_text(s: Seq<char>, p: Seq<char>)
    ensures
        has_prefix(s, p) <==> exists|b: Seq<char>| s == #[trigger] (p + b),
        has_suffix(s, p) <==> exists|a: Seq<char>| s == #[trigger] (a + p),
        contains_text(s, p) <==> exists|a: Seq<char>, b: Seq<char>| s == #[trigger] (a + p + b),
{
    if has_prefix(s, p) {
        let n = p.len() as int;
        assert(s =~= s.subrange(0, n) + s.skip(n));
        assert(s == p + s.skip(n));
    }
    if exists|b: Seq<char>| s == #[trigger] (p + b) {
        let b = choose|b: Seq<char>| s == #[trigger] (p + b);
        assert(s.subrange(0, p.len() as int) =~= p);
    }
    if has_suffix(s, p) {
        let n = s.len() - p.len();
        assert(s =~= s.take(n) + s.subrange(n, s.len() as int));
        assert(s == s.take(n) + p);
    }
    if exists|a: Seq<char>| s == #[trigger] (a + p) {
        let a = choose|a: Seq<char>| s == #[trigger] (a + p);
        assert(s.subrange(s.len() - p.len(), s.len() as int) =~= p);
    }
    if contains_text(s, p) {
        let at = choose|at: int| occurs_at(s, p, at);
        let to = at + p.len();
        assert(s =~= s.take(at) + s.subrange(at, to) + s.skip(to));
        assert(s == s.take(at) + p + s.skip(to));
    }
    if exists|a: Seq<char>, b: Seq<char>| s == #[trigger] (a + p + b) {
        let (a, b) = choose|a: Seq<char>, b: Seq<char>| s == #[trigger] (a + p + b);
        assert(s.subrange(a.len() as int, a.len() as int + p.len()) =~= p);
        assert(occurs_at(s, p, a.len() as int));
    }
}

/// Whether `s` is nothing but characters of a kind.
pub open spec fn all_of(s: Seq<char>, class: CharClass) -> bool {
    forall|i: int|
        0 <= i < s.len() ==> match class {
            CharClass::LineEnd => #[trigger] s[i] == '\n' || s[i] == '\r',
            CharClass::Slash => s[i] == '/',
            CharClass::Hyphen => s[i] == '-',
            CharClass::White => is_white_space(s[i]),
        }
}

/// A text without what it has of a kind of characters at its end.
pub proof fn law_trimmed_ends(t: Seq<char>, b: Seq<char>, class: CharClass)
    requires
        all_of(b, class),
        t.len() > 0 ==> !all_of(seq![t.last()], class),
    ensures
        trim_end_of(t + b, class) == t,
{
    let s = t + b;
    assert forall|j: int| t.len() <= j < s.len() implies class.has(s[j]) by {
        assert(s[j] == b[j - t.len()]);
    }
    if t.len() > 0 {
        assert(s[t.len() - 1] == t.last());
        if class.has(t.last()) {
            let one = seq![t.last()];
            assert forall|i: int| 0 <= i < one.len() implies match class {
                CharClass::LineEnd => #[trigger] one[i] == '\n' || one[i] == '\r',
                CharClass::Slash => one[i] == '/',
                CharClass::Hyphen => one[i] == '-',
                CharClass::White => is_white_space(one[i]),
            } by {}
            assert(all_of(one, class));
        }
    }
    lemma_trim_end_is(s, class, t.len() as int);
    assert(s.take(t.len() as int) =~= t);
}

/// A text without what it has of a kind of characters at its start.
pub proof fn law_trimmed_starts(a: Seq<char>, t: Seq<char>, class: CharClass)
    requires
        all_of(a, class),
        t.len() > 0 ==> !all_of(seq![t[0]], class),
    ensures
        trim_start_of(a + t, class) == t,
{
    let s = a + t;
    assert forall|j: int| 0 <= j < a.len() implies class.has(s[j]) by {
        assert(s[j] == a[j]);
    }
    if t.len() > 0 {
        assert(s[a.len() as int] == t[0]);
        if class.has(t[0]) {
            let one = seq![t[0]];
            assert forall|i: int| 0 <= i < one.len() implies match class {
                CharClass::LineEnd => #[trigger] one[i] == '\n' || one[i] == '\r',
                CharClass::Slash => one[i] == '/',
                CharClass::Hyphen => one[i] == '-',
                CharClass::White => is_white_space(one[i]),
            } by {}
            assert(all_of(one, class));
        }
    }
    lemma_trim_start_is(s, class, a.len() as int);
    assert(s.skip(a.len() as int) =~= t);
}

/// The last segment of a text is what stands behind its last separator, or the whole text
/// where it has none.
pub proof fn law_last_segments(a: Seq<char>, t: Seq<char>, sep: char)
    requires
        !t.contains(sep),
    ensures
        last_segment(t, sep) == t,
        last_segment(a + seq![sep] + t, sep) == t,
{
    assert forall|j: int| 0 <= j < t.len() implies t[j] != sep by {
        assert(t.contains(t[j]));
    }
    lemma_last_segment_is(t, sep, 0);
    assert(t.skip(0) =~= t);
    let s = a + seq![sep] + t;
    let start = a.len() as int + 1;
    assert(s[start - 1] == sep);
    assert forall|j: int| start <= j < s.len() implies s[j] != sep by {
        assert(s[j] == t[j - start]);
    }
    lemma_last_segment_is(s, sep, start);
    assert(s.skip(start) =~= t);
}

/// A character is found where it first stands, or at the end where it does not.
pub proof fn law_positions(a: Seq<char>, b: Seq<char>, c: char)
    requires
        !a.contains(c),
    ensures
        position(a + seq![c] + b, c, 0) == a.len(),
        position(a, c, 0) == a.len(),
{
    assert forall|j: int| 0 <= j < a.len() implies a[j] != c by {
        assert(a.contains(a[j]));
    }
    lemma_position_is(a, c, 0, a.len() as int);
    let s = a + seq![c] + b;
    assert forall|j: int| 0 <= j < a.len() implies s[j] != c by {
        assert(s[j] == a[j]);
    }
    assert(s[a.len() as int] == c);
    lemma_position_is(s, c, 0, a.len() as int);
}

/// An unsigned number is read from digits, perhaps behind a plus sign, as long as it is not
/// too large; from nothing else.
pub proof fn law_unsigned_numerals(s: Seq<char>, max: int, n: int)
    ensures
        parse_unsigned(s, max) == Some(n) <==> n <= max && exists|ds: Seq<char>| #[trigger]
            all_digits(ds) && ds.len() > 0 && value_of(ds) == n && (s == ds || s == seq!['+'] + ds),
{
    if parse_unsigned(s, max) == Some(n) {
        if s[0] == '+' {
            assert(s =~= seq!['+'] + s.skip(1));
            assert(all_digits(s.skip(1)));
        } else {
            assert(all_digits(s));
        }
    }
    if exists|ds: Seq<char>| #[trigger]
        all_digits(ds) && ds.len() > 0 && value_of(ds) == n && (s == ds || s == seq!['+'] + ds) {
        let ds = choose|ds: Seq<char>| #[trigger]
            all_digits(ds) && ds.len() > 0 && value_of(ds) == n && (s == ds || s == seq!['+'] + ds);
        assert(crate::text::is_digit(ds[0]));
        assert((seq!['+'] + ds).skip(1) =~= ds);
    }
}

/// The operations on texts do what their names say.
pub proof fn law_text_operations(
    s: &str,
    p: &str,
    c: char,
    class: CharClass,
    b: bool,
    part: &str,
    chars: Vec<char>,
)
    ensures
        call_ensures(str_eq, (s, p), b) ==> (b <==> s@ == p@),
        call_ensures(starts_with, (s, p), b) ==> (b <==> has_prefix(s@, p@)),
        call_ensures(ends_with, (s, p), b) ==> (b <==> has_suffix(s@, p@)),
        call_ensures(after_last, (s, c), part) ==> part@ == last_segment(s@, c),
        call_ensures(trim_end, (s, class), part) ==> part@ == trim_end_of(s@, class),
        call_ensures(trim_start, (s, class), part) ==> part@ == trim_start_of(s@, class),
        call_ensures(trim, (s,), part) ==> part@ == trim_start_of(
            trim_end_of(s@, CharClass::White),
            CharClass::White,
        ),
        call_ensures(chars_of, (s,), chars) ==> chars@ == s@,
        call_ensures(digit, (c,), b) ==> (b <==> '0' <= c <= '9'),
        call_ensures(alphanumeric, (c,), b) ==> (b <==> '0' <= c <= '9' || 'a' <= c <= 'z' || 'A'
            <= c <= 'Z'),
        call_ensures(CharClass::contains, (class, c), b) ==> (b <==> match class {
            CharClass::LineEnd => c == '\n' || c == '\r',
            CharClass::Slash => c == '/',
            CharClass::Hyphen => c == '-',
            CharClass::White => is_white_space(c),
        }),
{
}

/// The operations that read numbers.
pub proof fn law_number_readers(s: &str, u: Option<u64>, n: u64, i: Option<i32>, m: i32)
    ensures
        call_ensures(parse_u64, (s,), u) ==> (u == Some(n) <==> exists|ds: Seq<char>| #[trigger]
            all_digits(ds) && ds.len() > 0 && value_of(ds) == n && (s@ == ds || s@ == seq!['+']
                + ds)),
        call_ensures(parse_i32, (s,), i) ==> (i == Some(m) <==> crate::record_laws::numeral(
            s@,
            m as int,
        )),
{
    law_unsigned_numerals(s@, u64::MAX as int, n as int);
    crate::record_laws::lemma_numeral(s@, m as int);
    if call_ensures(parse_i32, (s,), i) {
        crate::record_laws::lemma_parsed_range(s@);
    }
}

} // verus!
