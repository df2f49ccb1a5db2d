//! Slugs in terms of the words of a text.

use vstd::prelude::*;

use crate::number::decimal;
use crate::outside::{lowercased, transliterated};
use crate::slug::{
    assigned_slug, base_slug_text, clamped, hyphenated, lemma_hyphenated_shape, numbered_slug,
    slug_of, slug_text, SLUG_MAX_CHARS,
};
use crate::text::{is_alphanumeric, lemma_trim_end_is, CharClass};

verus! {

/// Whether `c` is an ASCII letter or digit.
pub open spec fn in_word(c: char) -> bool {
    '0' <= c <= '9' || 'a' <= c <= 'z' || 'A' <= c <= 'Z'
}

/// Whether `w` is a word: letters and digits, at least one.
pub open spec fn is_word(w: Seq<char>) -> bool {
    w.len() > 0 && forall|i: int| 0 <= i < w.len() ==> in_word(#[trigger] w[i])
}

/// Whether `g` has no letter and no digit.
pub open spec fn is_gap(g: Seq<char>) -> bool {
    forall|i: int| 0 <= i < g.len() ==> !in_word(#[trigger] g[i])
}

/// Whether these are the words of a text, and what stands before, between and behind
/// them.
pub open spec fn are_words(words: Seq<Seq<char>>, gaps: Seq<Seq<char>>) -> bool {
    &&& gaps.len() == words.len() + 1
    &&& forall|i: int| 0 <= i < words.len() ==> is_word(#[trigger] words[i])
    &&& forall|i: int| 0 <= i < gaps.len() ==> is_gap(#[trigger] gaps[i])
    &&& forall|i: int| 0 < i < words.len() ==> (#[trigger] gaps[i]).len() > 0
}

/// The text that has these words and gaps.
pub open spec fn spread(words: Seq<Seq<char>>, gaps: Seq<Seq<char>>) -> Seq<char>
    decreases words.len(),
{
    if words.len() == 0 {
        gaps[0]
    } else {
        spread(words.drop_last(), gaps.drop_last()) + words.last() + gaps.last()
    }
}

/// The words with single hyphens between them.
pub open spec fn joined(words: Seq<Seq<char>>) -> Seq<char>
    decreases words.len(),
{
    if words.len() == 0 {
        Seq::empty()
    } else if words.len() == 1 {
        words[0]
    } else {
        joined(words.drop_last()) + seq!['-'] + words.last()
    }
}

/// `s` if it has at most 100 characters, else its first 100 without a hyphen at the end.
pub open spec fn cut(s: Seq<char>) -> Seq<char> {
    if s.len() <= 100 {
        s
    } else if s[99] == '-' {
        s.take(99)
    } else {
        s.take(100)
    }
}

/// The slug of a text is its words with single hyphens between them, cut to 100
/// characters.
pub proof fn law_slug_joins_the_words(words: Seq<Seq<char>>, gaps: Seq<Seq<char>>)
    requires
        are_words(words, gaps),
    ensures
        slug_of(spread(words, gaps)) == cut(joined(words)),
{
    let s = spread(words, gaps);
    let h = hyphenated(s);
    let j = joined(words);
    lemma_hyphenated_words(words, gaps);
    lemma_hyphenated_shape(s);
    lemma_joined_ends(words);
    let c = clamped(h, 100);
    assert(SLUG_MAX_CHARS == 100);
    assert forall|i: int| 0 <= i < j.len() implies h[i] == #[trigger] j[i] by {}
    if j.len() <= 100 {
        assert forall|i: int| j.len() <= i < c.len() implies CharClass::Hyphen.has(c[i]) by {}
        if j.len() > 0 {
            assert(c[j.len() - 1] == j.last());
            assert(in_word(j.last()));
        }
        lemma_trim_end_is(c, CharClass::Hyphen, j.len() as int);
        assert(c.take(j.len() as int) =~= j);
    } else if j[99] == '-' {
        assert(h[98] == j[98] && h[99] == j[99]);
        let i = 98int;
        assert(!(h[i] == '-' && h[i + 1] == '-'));
        lemma_trim_end_is(c, CharClass::Hyphen, 99);
        assert(c.take(99) =~= j.take(99));
    } else {
        lemma_trim_end_is(c, CharClass::Hyphen, 100);
        assert(c.take(100) =~= j.take(100));
    }
}

/// The slug of a record's text is that of its transliteration in lower case.
pub proof fn law_slug_of_a_text(text: Seq<char>, words: Seq<Seq<char>>, gaps: Seq<Seq<char>>)
    requires
        are_words(words, gaps),
        lowercased(transliterated(text)) == spread(words, gaps),
    ensures
        slug_text(text) == cut(joined(words)),
{
    law_slug_joins_the_words(words, gaps);
}

/// Every text has words and gaps, so that the above says what the slug of any text is.
pub proof fn law_texts_have_words(s: Seq<char>)
    ensures
        exists|words: Seq<Seq<char>>, gaps: Seq<Seq<char>>| #[trigger]
            are_words(words, gaps) && s == spread(words, gaps),
{
    let (words, gaps) = lemma_words(s);
}

proof fn lemma_words(s: Seq<char>) -> (r: (Seq<Seq<char>>, Seq<Seq<char>>))
    ensures
        are_words(r.0, r.1),
        s == spread(r.0, r.1),
    decreases s.len(),
{
    if s.len() == 0 {
        let gaps = seq![Seq::<char>::empty()];
        assert(s =~= gaps[0]);
        (Seq::empty(), gaps)
    } else {
        let (words, gaps) = lemma_words(s.drop_last());
        let c = s.last();
        let n = words.len() as int;
        assert(s =~= s.drop_last().push(c));
        if !in_word(c) {
            let g = gaps.last().push(c);
            let more = gaps.drop_last().push(g);
            assert(is_gap(g)) by {
                assert(is_gap(gaps[n]));
                assert forall|i: int| 0 <= i < g.len() implies !in_word(#[trigger] g[i]) by {
                    if i < gaps.last().len() {
                        assert(g[i] == gaps[n][i]);
                    }
                }
            }
            assert forall|i: int| 0 <= i < more.len() implies is_gap(#[trigger] more[i]) by {
                if i < n {
                    assert(more[i] == gaps[i]);
                }
            }
            assert forall|i: int| 0 < i < words.len() implies (#[trigger] more[i]).len() > 0 by {
                assert(more[i] == gaps[i]);
            }
            assert(more.drop_last() =~= gaps.drop_last());
            assert(spread(words, more) =~= spread(words, gaps).push(c));
            (words, more)
        } else if n > 0 && gaps.last().len() == 0 {
            let w = words.last().push(c);
            let more = words.drop_last().push(w);
            assert(is_word(w)) by {
                assert(is_word(words[n - 1]));
                assert forall|i: int| 0 <= i < w.len() implies in_word(#[trigger] w[i]) by {
                    if i < words.last().len() {
                        assert(w[i] == words[n - 1][i]);
                    }
                }
            }
            assert forall|i: int| 0 <= i < more.len() implies is_word(#[trigger] more[i]) by {
                if i < n - 1 {
                    assert(more[i] == words[i]);
                }
            }
            assert(more.drop_last() =~= words.drop_last());
            assert(spread(more, gaps) =~= spread(words, gaps).push(c));
            (more, gaps)
        } else {
            let w = seq![c];
            let more = words.push(w);
            let wide = gaps.push(Seq::empty());
            assert forall|i: int| 0 <= i < more.len() implies is_word(#[trigger] more[i]) by {
                if i < n {
                    assert(more[i] == words[i]);
                }
            }
            assert forall|i: int| 0 <= i < wide.len() implies is_gap(#[trigger] wide[i]) by {
                if i <= n {
                    assert(wide[i] == gaps[i]);
                }
            }
            assert forall|i: int| 0 < i < more.len() implies (#[trigger] wide[i]).len() > 0 by {
                assert(wide[i] == gaps[i]);
            }
            assert(more.drop_last() =~= words);
            assert(wide.drop_last() =~= gaps);
            assert(spread(more, wide) =~= spread(words, gaps).push(c));
            (more, wide)
        }
    }
}

proof fn lemma_append_word(x: Seq<char>, w: Seq<char>)
    requires
        forall|i: int| 0 <= i < w.len() ==> in_word(#[trigger] w[i]),
    ensures
        hyphenated(x + w) == hyphenated(x) + w,
    decreases w.len(),
{
    if w.len() == 0 {
        assert(x + w =~= x);
        assert(hyphenated(x) + w =~= hyphenated(x));
    } else {
        let init = w.drop_last();
        assert forall|i: int| 0 <= i < init.len() implies in_word(#[trigger] init[i]) by {
            assert(init[i] == w[i]);
        }
        lemma_append_word(x, init);
        assert((x + w).drop_last() =~= x + init);
        assert(in_word(w[w.len() - 1]));
        assert(is_alphanumeric((x + w).last()));
        assert((hyphenated(x) + init).push(w.last()) =~= hyphenated(x) + w);
    }
}

proof fn lemma_append_gap(x: Seq<char>, g: Seq<char>)
    requires
        is_gap(g),
    ensures
        g.len() == 0 || hyphenated(x).len() == 0 || hyphenated(x).last() == '-' ==> hyphenated(x + g)
            == hyphenated(x),
        g.len() > 0 && hyphenated(x).len() > 0 && hyphenated(x).last() != '-' ==> hyphenated(x + g)
            == hyphenated(x).push('-'),
    decreases g.len(),
{
    if g.len() == 0 {
        assert(x + g =~= x);
    } else {
        let init = g.drop_last();
        assert forall|i: int| 0 <= i < init.len() implies !in_word(#[trigger] init[i]) by {
            assert(init[i] == g[i]);
        }
        lemma_append_gap(x, init);
        assert((x + g).drop_last() =~= x + init);
        assert(!in_word(g[g.len() - 1]));
        assert(!is_alphanumeric((x + g).last()));
    }
}

proof fn lemma_joined_ends(words: Seq<Seq<char>>)
    requires
        forall|i: int| 0 <= i < words.len() ==> is_word(#[trigger] words[i]),
    ensures
        words.len() > 0 <==> joined(words).len() > 0,
        words.len() > 0 ==> in_word(joined(words).last()),
{
    if words.len() > 0 {
        let w = words[words.len() - 1];
        assert(is_word(w));
        assert(joined(words).last() == w.last());
        assert(in_word(w[w.len() - 1]));
    }
}

proof fn lemma_hyphenated_words(words: Seq<Seq<char>>, gaps: Seq<Seq<char>>)
    requires
        are_words(words, gaps),
    ensures
        hyphenated(spread(words, gaps)) == if words.len() > 0 && gaps.last().len() > 0 {
            joined(words).push('-')
        } else {
            joined(words)
        },
    decreases words.len(),
{
    let n = words.len() as int;
    assert(is_gap(gaps[n]));
    if n == 0 {
        lemma_append_gap(Seq::empty(), gaps[0]);
        assert(Seq::<char>::empty() + gaps[0] =~= gaps[0]);
    } else {
        let w0 = words.drop_last();
        let g0 = gaps.drop_last();
        assert forall|i: int| 0 <= i < w0.len() implies is_word(#[trigger] w0[i]) by {
            assert(w0[i] == words[i]);
        }
        assert forall|i: int| 0 <= i < g0.len() implies is_gap(#[trigger] g0[i]) by {
            assert(g0[i] == gaps[i]);
        }
        assert forall|i: int| 0 < i < w0.len() implies (#[trigger] g0[i]).len() > 0 by {
            assert(g0[i] == gaps[i]);
        }
        lemma_hyphenated_words(w0, g0);
        let t = spread(w0, g0);
        let w = words.last();
        assert(is_word(words[n - 1]));
        lemma_append_word(t, w);
        if n > 1 {
            assert(g0.last() == gaps[n - 1]);
            assert(gaps[n - 1].len() > 0);
            assert(joined(w0).push('-') + w =~= joined(words));
        } else {
            assert(joined(w0) + w =~= joined(words));
        }
        assert(hyphenated(t + w) == joined(words));
        lemma_joined_ends(words);
        lemma_append_gap(t + w, gaps.last());
    }
}

/// A record without a slug of its own goes by its short key in lower case.
pub proof fn law_slug_base(text: Seq<char>, olid: Seq<char>)
    ensures
        slug_text(text).len() > 0 ==> base_slug_text(text, olid) == slug_text(text),
        slug_text(text).len() == 0 ==> base_slug_text(text, olid) == lowercased(olid),
{
}

/// The first record with a slug base gets the base, each further one its number behind two
/// hyphens.
pub proof fn law_numbered_slugs(base: Seq<char>, n: nat)
    ensures
        assigned_slug(base, 1) == base,
        n != 1 ==> assigned_slug(base, n) =~= base + "--"@ + decimal(n),
        numbered_slug(base, n) =~= base + "--"@ + decimal(n),
{
    reveal_strlit("--");
}

} // verus!
