//! URL slugs.

use vstd::prelude::*;

use crate::number::{decimal, law_decimal_round_trip};
use crate::outside::{all_below, ascii_lowered, lowercased, transliterated};
use crate::text::{alphanumeric, chars_of, is_alphanumeric, is_digit, string_of, trim_end_of, CharClass};
use crate::text::{lemma_trim_end_exists, lemma_trim_end_is};

verus! {

/// URL slugs stay comfortably below btree index entry limits.
pub const SLUG_MAX_CHARS: usize = 100;

/// `s` with every run of characters that are not alphanumeric replaced by one
/// hyphen, and without the run at its start.
pub open spec fn hyphenated(s: Seq<char>) -> Seq<char>
    decreases s.len(),
{
    if s.len() == 0 {
        Seq::empty()
    } else {
        let init = hyphenated(s.drop_last());
        if is_alphanumeric(s.last()) {
            init.push(s.last())
        } else if init.len() > 0 && init.last() != '-' {
            init.push('-')
        } else {
            init
        }
    }
}

/// At most the first `max` characters.
pub open spec fn clamped(s: Seq<char>, max: int) -> Seq<char> {
    if s.len() > max {
        s.take(max)
    } else {
        s
    }
}

/// The slug of a text that is already transliterated and lowercased.
pub open spec fn slug_of(s: Seq<char>) -> Seq<char> {
    trim_end_of(clamped(hyphenated(s), SLUG_MAX_CHARS as int), CharClass::Hyphen)
}

/// The slug of any text.
pub open spec fn slug_text(s: Seq<char>) -> Seq<char> {
    slug_of(lowercased(transliterated(s)))
}

proof fn lemma_hyphenated_prefix(s: Seq<char>, n: int)
    requires
        0 <= n <= s.len(),
    ensures
        hyphenated(s.take(n)).is_prefix_of(hyphenated(s)),
    decreases s.len(),
{
    if n == s.len() {
        assert(s.take(n) =~= s);
    } else {
        lemma_hyphenated_prefix(s.drop_last(), n);
        assert(s.drop_last().take(n) =~= s.take(n));
    }
}

/// Whether no two hyphens stand next to each other.
pub open spec fn single_hyphens(s: Seq<char>) -> bool {
    forall|i: int| 0 <= i < s.len() - 1 ==> !(#[trigger] s[i] == '-' && s[i + 1] == '-')
}

/// Whether `s` has letters, digits and hyphens only.
pub open spec fn slug_chars(s: Seq<char>) -> bool {
    forall|i: int| 0 <= i < s.len() ==> is_alphanumeric(#[trigger] s[i]) || s[i] == '-'
}

/// What every slug looks like: letters, digits and single hyphens, none of
/// them at either end, and no more characters than the limit.
pub open spec fn is_slug(s: Seq<char>) -> bool {
    &&& slug_chars(s)
    &&& single_hyphens(s)
    &&& s.len() > 0 ==> s[0] != '-' && s.last() != '-'
    &&& s.len() <= SLUG_MAX_CHARS
}

pub proof fn lemma_hyphenated_shape(s: Seq<char>)
    ensures
        slug_chars(hyphenated(s)),
        single_hyphens(hyphenated(s)),
        hyphenated(s).len() > 0 ==> hyphenated(s)[0] != '-',
        hyphenated(s).len() > 0 <==> exists|i: int| 0 <= i < s.len() && is_alphanumeric(s[i]),
        forall|i: int|
            0 <= i < hyphenated(s).len() ==> #[trigger] hyphenated(s)[i] == '-' || s.contains(
                hyphenated(s)[i],
            ),
    decreases s.len(),
{
    if s.len() > 0 {
        let init = s.drop_last();
        let h = hyphenated(init);
        lemma_hyphenated_shape(init);
        assert forall|i: int| 0 <= i < hyphenated(s).len() implies #[trigger] hyphenated(s)[i]
            == '-' || s.contains(hyphenated(s)[i]) by {
            if i < h.len() {
                assert(hyphenated(s)[i] == h[i]);
                if h[i] != '-' {
                    let k = choose|k: int| 0 <= k < init.len() && init[k] == h[i];
                    assert(s[k] == h[i]);
                }
            } else if hyphenated(s)[i] != '-' {
                assert(s[s.len() - 1] == hyphenated(s)[i]);
            }
        }
        assert forall|i: int| 0 <= i < hyphenated(s).len() - 1 implies !(#[trigger] hyphenated(
            s,
        )[i] == '-' && hyphenated(s)[i + 1] == '-') by {
            assert(hyphenated(s)[i] == h[i]);
            if i + 1 < h.len() {
                assert(hyphenated(s)[i + 1] == h[i + 1]);
            }
        }
        if h.len() > 0 {
            let k = choose|k: int| 0 <= k < init.len() && is_alphanumeric(init[k]);
            assert(is_alphanumeric(s[k]));
        } else if is_alphanumeric(s.last()) {
            assert(is_alphanumeric(s[s.len() - 1]));
        }
        if hyphenated(s).len() == 0 {
            assert forall|i: int| 0 <= i < s.len() implies !is_alphanumeric(s[i]) by {
                if i < init.len() {
                    assert(init[i] == s[i]);
                }
            }
        }
    }
}

/// The slug is the clamped text up to its last character that is no hyphen.
proof fn lemma_slug_end(s: Seq<char>) -> (end: int)
    ensures
        0 <= end <= clamped(hyphenated(s), SLUG_MAX_CHARS as int).len(),
        slug_of(s) == hyphenated(s).take(end),
        end > 0 ==> hyphenated(s)[end - 1] != '-',
        hyphenated(s).len() > 0 ==> end > 0,
{
    lemma_hyphenated_shape(s);
    let h = hyphenated(s);
    let c = clamped(h, SLUG_MAX_CHARS as int);
    let end = lemma_trim_end_exists(c, CharClass::Hyphen);
    assert(c.take(end) =~= h.take(end));
    if h.len() > 0 {
        assert(c[0] == h[0]);
    }
    end
}

proof fn lemma_slug_chars(s: Seq<char>)
    ensures
        forall|i: int|
            0 <= i < slug_of(s).len() ==> #[trigger] slug_of(s)[i] == '-' || (is_alphanumeric(
                slug_of(s)[i],
            ) && s.contains(slug_of(s)[i])),
{
    lemma_hyphenated_shape(s);
    let end = lemma_slug_end(s);
    assert forall|i: int| 0 <= i < slug_of(s).len() implies #[trigger] slug_of(s)[i] == '-' || (
    is_alphanumeric(slug_of(s)[i]) && s.contains(slug_of(s)[i])) by {
        assert(slug_of(s)[i] == hyphenated(s)[i]);
    }
}

/// Every slug has the shape of a slug: in particular it never contains `--`.
pub proof fn law_slug_shape(s: Seq<char>)
    ensures
        is_slug(slug_of(s)),
{
    lemma_hyphenated_shape(s);
    let end = lemma_slug_end(s);
    let h = hyphenated(s);
    let r = slug_of(s);
    assert forall|i: int| 0 <= i < r.len() implies is_alphanumeric(#[trigger] r[i]) || r[i]
        == '-' by {
        assert(r[i] == h[i]);
    }
    assert forall|i: int| 0 <= i < r.len() - 1 implies !(#[trigger] r[i] == '-' && r[i + 1]
        == '-') by {
        assert(r[i] == h[i]);
        assert(r[i + 1] == h[i + 1]);
    }
}

/// A slug is empty exactly when the text has no letter and no digit.
pub proof fn law_slug_empty(s: Seq<char>)
    ensures
        slug_of(s).len() == 0 <==> forall|i: int| 0 <= i < s.len() ==> !is_alphanumeric(s[i]),
{
    lemma_hyphenated_shape(s);
    let end = lemma_slug_end(s);
}

proof fn lemma_hyphenated_fixed(h: Seq<char>)
    requires
        slug_chars(h),
        single_hyphens(h),
        h.len() > 0 ==> h[0] != '-',
    ensures
        hyphenated(h) == h,
    decreases h.len(),
{
    if h.len() > 0 {
        let init = h.drop_last();
        assert forall|i: int| 0 <= i < init.len() implies is_alphanumeric(#[trigger] init[i])
            || init[i] == '-' by {
            assert(init[i] == h[i]);
        }
        assert forall|i: int| 0 <= i < init.len() - 1 implies !(#[trigger] init[i] == '-' && init[i
            + 1] == '-') by {
            assert(init[i] == h[i]);
            assert(init[i + 1] == h[i + 1]);
        }
        lemma_hyphenated_fixed(init);
        assert(is_alphanumeric(h[h.len() - 1]) || h[h.len() - 1] == '-');
        if h.last() == '-' {
            assert(!(h[h.len() - 2] == '-' && h[h.len() - 2 + 1] == '-'));
        }
        assert(init.push(h.last()) =~= h);
    }
}

/// A slug is its own slug.
pub proof fn law_slug_of_slug(s: Seq<char>)
    ensures
        slug_of(slug_of(s)) == slug_of(s),
{
    law_slug_shape(s);
    lemma_hyphenated_fixed(slug_of(s));
}

/// Collapses runs of anything non-alphanumeric to single hyphens, and clamps.
pub fn collapse(text: &str) -> (r: String)
    ensures
        r@ == slug_of(text@),
{
    let cs = chars_of(text);
    let mut slug: Vec<char> = Vec::new();
    let mut i: usize = 0;
    assert(cs@.take(0) =~= Seq::empty());
    while i < cs.len() && slug.len() < SLUG_MAX_CHARS
        invariant
            i <= cs@.len(),
            slug@ == hyphenated(cs@.take(i as int)),
            slug@.len() <= SLUG_MAX_CHARS,
        decreases cs@.len() - i,
    {
        let c = cs[i];
        assert(cs@.take(i + 1).drop_last() =~= cs@.take(i as int));
        if alphanumeric(c) {
            slug.push(c);
        } else if slug.len() > 0 && slug[slug.len() - 1] != '-' {
            slug.push('-');
        }
        i += 1;
    }
    proof {
        lemma_hyphenated_prefix(cs@, i as int);
        assert(cs@.take(cs@.len() as int) =~= cs@);
        let whole = hyphenated(cs@);
        assert(slug@ =~= clamped(whole, SLUG_MAX_CHARS as int));
    }
    let mut end: usize = slug.len();
    while end > 0 && slug[end - 1] == '-'
        invariant
            end <= slug@.len(),
            forall|j: int| end <= j < slug@.len() ==> slug@[j] == '-',
        decreases end,
    {
        end -= 1;
    }
    proof {
        lemma_trim_end_is(slug@, CharClass::Hyphen, end as int);
    }
    string_of(&slug, end)
}

/// Transliterates to ASCII (Достоевский → dostoevskii), lowercases, collapses
/// runs of anything non-alphanumeric to single hyphens, and clamps.
///
/// The slug is empty when nothing survives (punctuation-only input). Callers
/// then fall back to the record's open_library_id.
pub fn slugify(input: &str) -> (r: String)
    ensures
        r@ == slug_text(input@),
        all_below(input@, 127) ==> r@ == slug_of(ascii_lowered(input@)),
        forall|i: int|
            0 <= i < r@.len() ==> is_digit(#[trigger] r@[i]) || 'a' <= r@[i] <= 'z' || r@[i] == '-',
{
    let ascii = deunicode::deunicode(input);
    let lower = ascii.as_str().to_lowercase();
    proof {
        lemma_slug_chars(lower@);
    }
    collapse(lower.as_str())
}

// ---------------------------------------------------------------------------
// Slug bases of records
// ---------------------------------------------------------------------------

/// The slug where there is one, else the record's open_library_id.
pub open spec fn base_slug_text(text: Seq<char>, olid: Seq<char>) -> Seq<char> {
    if slug_text(text).len() == 0 {
        lowercased(olid)
    } else {
        slug_text(text)
    }
}

/// What [`base_slug_text`] is for ASCII text.
pub open spec fn ascii_base_slug(text: Seq<char>, olid: Seq<char>) -> Seq<char> {
    if slug_of(ascii_lowered(text)).len() == 0 {
        ascii_lowered(olid)
    } else {
        slug_of(ascii_lowered(text))
    }
}

/// Whether `base` is the slug base of a record with the given text and
/// open_library_id.
pub open spec fn is_base_slug(base: Seq<char>, text: Seq<char>, olid: Seq<char>) -> bool {
    &&& base == base_slug_text(text, olid)
    &&& all_below(text, 127) && all_below(olid, 128) ==> base == ascii_base_slug(text, olid)
}

/// Slug base for authors (from the name) and works (from the title); the
/// record's open_library_id is the fallback when nothing slugifiable remains
/// (e.g. punctuation-only or fully non-transliterable input).
pub fn base_slug(text: &str, olid: &str) -> (r: String)
    ensures
        is_base_slug(r@, text@, olid@),
{
    let slug = slugify(text);
    if slug.as_str().is_empty() {
        olid.to_lowercase()
    } else {
        slug
    }
}

/// A slug base has the shape of a slug wherever the text has a slug, and else
/// wherever the lowercased open_library_id has that shape.
pub proof fn law_base_slug_shape(text: Seq<char>, olid: Seq<char>)
    ensures
        slug_text(text).len() > 0 || is_slug(lowercased(olid)) ==> is_slug(
            base_slug_text(text, olid),
        ),
{
    law_slug_shape(lowercased(transliterated(text)));
}

/// The text that an edition's slug is made from.
pub open spec fn edition_slug_source(
    isbn_13: Seq<Seq<char>>,
    isbn_10: Seq<Seq<char>>,
    title: Option<Seq<char>>,
) -> Seq<char> {
    let isbn = if isbn_13.len() > 0 {
        Some(isbn_13[0])
    } else if isbn_10.len() > 0 {
        Some(isbn_10[0])
    } else {
        None
    };
    match (isbn, title) {
        (Some(isbn), Some(title)) => isbn + seq![' '] + title,
        (Some(isbn), None) => isbn,
        (None, Some(title)) => title,
        (None, None) => Seq::empty(),
    }
}

// ---------------------------------------------------------------------------
// Deduplication
// ---------------------------------------------------------------------------

/// The slug of the `n`th record that shares the slug base `base`.
pub open spec fn numbered_slug(base: Seq<char>, n: nat) -> Seq<char> {
    base + seq!['-', '-'] + decimal(n)
}

/// A numbered slug is never the slug of a text.
pub proof fn law_numbered_slug_is_not_natural(s: Seq<char>, base: Seq<char>, n: nat)
    ensures
        numbered_slug(base, n) != slug_of(s),
{
    law_slug_shape(s);
    let x = numbered_slug(base, n);
    let at = base.len() as int;
    assert(x[at] == '-' && x[at + 1] == '-');
}

/// Two numbered slugs are the same only for the same base and number.
pub proof fn law_numbered_slugs_differ(b1: Seq<char>, n1: nat, b2: Seq<char>, n2: nat)
    requires
        is_slug(b1),
        is_slug(b2),
        numbered_slug(b1, n1) == numbered_slug(b2, n2),
    ensures
        b1 == b2,
        n1 == n2,
{
    lemma_base_not_shorter(b1, n1, b2, n2);
    lemma_base_not_shorter(b2, n2, b1, n1);
    let x = numbered_slug(b1, n1);
    assert(b1 =~= x.take(b1.len() as int));
    assert(b2 =~= x.take(b1.len() as int));
    assert(decimal(n1) =~= x.skip(b1.len() as int + 2));
    assert(decimal(n2) =~= x.skip(b1.len() as int + 2));
    law_decimal_round_trip(n1, n1 as int);
    law_decimal_round_trip(n2, n2 as int);
}

/// The slug that the `n`th record with the slug base `base` is stored under:
/// the base itself for the first one, numbered from the second on.
pub open spec fn assigned_slug(base: Seq<char>, n: nat) -> Seq<char> {
    if n == 1 {
        base
    } else {
        numbered_slug(base, n)
    }
}

/// Records that differ in slug base or in number are stored under different
/// slugs.
pub proof fn law_assigned_slugs_differ(b1: Seq<char>, n1: nat, b2: Seq<char>, n2: nat)
    requires
        is_slug(b1),
        is_slug(b2),
        assigned_slug(b1, n1) == assigned_slug(b2, n2),
    ensures
        b1 == b2,
        n1 == n2,
{
    if n1 == 1 && n2 != 1 {
        let at = b2.len() as int;
        assert(b1[at] == '-' && b1[at + 1] == '-');
    } else if n1 != 1 && n2 == 1 {
        let at = b1.len() as int;
        assert(b2[at] == '-' && b2[at + 1] == '-');
    } else if n1 != 1 {
        law_numbered_slugs_differ(b1, n1, b2, n2);
    }
}

/// Records that are numbered from behind the highest number that their slug
/// base has in the table get slugs that are not in the table.
pub proof fn law_assigned_slugs_are_fresh(
    table: Set<Seq<char>>,
    base: Seq<char>,
    taken: nat,
    rank: nat,
)
    requires
        rank >= 1,
        forall|n: nat| n >= 1 && table.contains(#[trigger] assigned_slug(base, n)) ==> n <= taken,
    ensures
        !table.contains(assigned_slug(base, taken + rank)),
{
}

proof fn lemma_base_not_shorter(b1: Seq<char>, n1: nat, b2: Seq<char>, n2: nat)
    requires
        is_slug(b2),
        numbered_slug(b1, n1) == numbered_slug(b2, n2),
    ensures
        b1.len() >= b2.len(),
{
    let at = b1.len() as int;
    if at < b2.len() {
        let x = numbered_slug(b1, n1);
        assert(x[at] == '-' && x[at + 1] == '-');
        assert(numbered_slug(b2, n2)[at] == b2[at]);
        if at + 1 < b2.len() {
            assert(numbered_slug(b2, n2)[at + 1] == b2[at + 1]);
        }
    }
}

} // verus!
