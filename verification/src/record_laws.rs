//! What is read from a record, in terms of its JSON alone.

use vstd::prelude::*;

use crate::json::{lemma_member_at, member_at, member_of, Json};
use crate::model::{
    author_of, edition_of, first_text, first_year, identifier_of, identifiers_of, image_id,
    image_ids_of, int_of, is_year_at, kept, ref_key_of, ref_keys_of, role_key_of, role_keys_of,
    strings_of, text_or_value_of, value_text, work_of, Author, AuthorFields, Edition,
    EditionFields, EditionView, Identifiers, Work, WorkFields,
};
use crate::number::{all_digits, decimal, parse_signed, value_of};
use crate::text::{
    is_digit, is_white_space, last_segment, lemma_last_segment, lemma_last_segment_is,
    lemma_trim_end_exists, lemma_trim_end_is, lemma_trim_start_exists, lemma_trim_start_is,
    trim_end_of, trimmed, CharClass,
};

verus! {

// ---------------------------------------------------------------------------
// Numbers
// ---------------------------------------------------------------------------

/// A row of digits is read from the left: each digit counts ten times as much as
/// the one behind it.
pub proof fn law_digits_count_by_ten(s: Seq<char>, c: char)
    ensures
        value_of(Seq::empty()) == 0,
        value_of(s.push(c)) == 10 * value_of(s) + (c as int - '0' as int),
{
    assert(s.push(c).drop_last() =~= s);
}

/// A number is written with one digit for each power of ten, the largest first,
/// and without leading zeros.
pub proof fn law_decimal_digits(n: nat, d: nat)
    requires
        d < 10,
    ensures
        decimal(d) == seq![('0' as int + d) as char],
        n > 0 ==> decimal(10 * n + d) == decimal(n).push(('0' as int + d) as char),
        decimal(n).len() > 1 ==> decimal(n)[0] != '0',
{
    if n > 0 {
        assert((10 * n + d) / 10 == n && (10 * n + d) % 10 == d) by (nonlinear_arith)
            requires
                d < 10,
        ;
    }
    lemma_no_leading_zero(n);
}

proof fn lemma_no_leading_zero(n: nat)
    ensures
        decimal(n).len() > 0,
        n > 0 ==> decimal(n)[0] != '0',
        n < 10 ==> decimal(n).len() == 1,
    decreases n,
{
    if n >= 10 {
        lemma_no_leading_zero(n / 10);
    }
}

// ---------------------------------------------------------------------------
// Years
// ---------------------------------------------------------------------------

/// Whether exactly four digits in a row stand at `i`.
pub open spec fn four_digits_at(s: Seq<char>, i: int) -> bool {
    &&& 0 <= i && i + 4 <= s.len()
    &&& '0' <= s[i] <= '9' && '0' <= s[i + 1] <= '9' && '0' <= s[i + 2] <= '9' && '0' <= s[i + 3]
        <= '9'
    &&& i == 0 || s[i - 1] < '0' || s[i - 1] > '9'
    &&& i + 4 == s.len() || s[i + 4] < '0' || s[i + 4] > '9'
}

/// The number that the four digits at `i` stand for.
pub open spec fn number_at(s: Seq<char>, i: int) -> int {
    1000 * (s[i] as int - '0' as int) + 100 * (s[i + 1] as int - '0' as int) + 10 * (s[i + 2] as int
        - '0' as int) + (s[i + 3] as int - '0' as int)
}

proof fn lemma_year_at(s: Seq<char>, i: int)
    ensures
        is_year_at(s, i) <==> four_digits_at(s, i) && 1000 <= number_at(s, i) <= 2100,
        four_digits_at(s, i) ==> value_of(s.subrange(i, i + 4)) == number_at(s, i),
{
    if 0 <= i && i + 4 <= s.len() {
        let t = s.subrange(i, i + 4);
        reveal_with_fuel(value_of, 5);
        assert(t.drop_last().drop_last().drop_last().drop_last() =~= Seq::empty());
        assert(t[0] == s[i] && t[1] == s[i + 1] && t[2] == s[i + 2] && t[3] == s[i + 3]);
        if four_digits_at(s, i) {
            assert forall|j: int| i <= j < i + 4 implies is_digit(#[trigger] s[j]) by {
                assert(j == i || j == i + 1 || j == i + 2 || j == i + 3);
            }
        }
        if is_year_at(s, i) {
            assert(is_digit(s[i]) && is_digit(s[i + 1]) && is_digit(s[i + 2]) && is_digit(s[i + 3]));
        }
    }
}

/// Wherever in a date four digits stand alone for a number in 1000..=2100, that is
/// the year, whatever stands before and behind them, as long as no such number
/// comes earlier.
pub proof fn law_year_is_found(a: Seq<char>, d: Seq<char>, b: Seq<char>)
    requires
        d.len() == 4,
        forall|j: int| 0 <= j < 4 ==> '0' <= #[trigger] d[j] <= '9',
        1000 <= number_at(d, 0) <= 2100,
        a.len() > 0 ==> a.last() < '0' || a.last() > '9',
        b.len() > 0 ==> b[0] < '0' || b[0] > '9',
        forall|i: int| #[trigger] four_digits_at(a, i) ==> !(1000 <= number_at(a, i) <= 2100),
    ensures
        first_year(a + d + b, 0) == Some(number_at(d, 0) as i32),
{
    let s = a + d + b;
    let at = a.len() as int;
    assert(s[at] == d[0] && s[at + 1] == d[1] && s[at + 2] == d[2] && s[at + 3] == d[3]);
    if at > 0 {
        assert(s[at - 1] == a.last());
    }
    if b.len() > 0 {
        assert(s[at + 4] == b[0]);
    }
    assert(four_digits_at(s, at));
    lemma_year_at(s, at);
    assert forall|i: int| 0 <= i < at implies !is_year_at(s, i) by {
        lemma_year_at(s, i);
        if is_year_at(s, i) {
            if i + 4 < at {
                assert(s[i] == a[i] && s[i + 1] == a[i + 1] && s[i + 2] == a[i + 2] && s[i + 3]
                    == a[i + 3] && s[i + 4] == a[i + 4]);
            } else if i + 4 == at {
                assert(s[i] == a[i] && s[i + 1] == a[i + 1] && s[i + 2] == a[i + 2] && s[i + 3]
                    == a[i + 3]);
            } else {
                assert(s[at - 1] == a.last());
                assert(i <= at - 1 < i + 4);
                assert(is_digit(s[at - 1]));
            }
            if i > 0 {
                assert(s[i - 1] == a[i - 1]);
            }
            if i + 4 <= at {
                assert(four_digits_at(a, i));
            }
        }
    }
    lemma_first_year_from(s, 0, at);
}

proof fn lemma_first_year_from(s: Seq<char>, i: int, at: int)
    requires
        0 <= i <= at < s.len(),
        is_year_at(s, at),
        forall|j: int| i <= j < at ==> !is_year_at(s, j),
    ensures
        first_year(s, i) == Some(value_of(s.subrange(at, at + 4)) as i32),
    decreases at - i,
{
    if i < at {
        assert(!is_year_at(s, i));
        lemma_first_year_from(s, i + 1, at);
    }
}

/// A date has a year only if four digits stand alone in it for a number in
/// 1000..=2100; the year is the first such number.
pub proof fn law_year_comes_from_the_date(s: Seq<char>)
    ensures
        match first_year(s, 0) {
            Some(y) => exists|i: int|
                {
                    &&& #[trigger] four_digits_at(s, i)
                    &&& number_at(s, i) == y
                    &&& 1000 <= y <= 2100
                    &&& forall|j: int|
                        j < i && #[trigger] four_digits_at(s, j) ==> !(1000 <= number_at(s, j)
                            <= 2100)
                },
            None => forall|i: int| #[trigger]
                four_digits_at(s, i) ==> !(1000 <= number_at(s, i) <= 2100),
        },
{
    lemma_years_from(s, 0);
}

proof fn lemma_years_from(s: Seq<char>, from: int)
    requires
        0 <= from,
        forall|j: int|
            j < from && #[trigger] four_digits_at(s, j) ==> !(1000 <= number_at(s, j) <= 2100),
    ensures
        match first_year(s, from) {
            Some(y) => exists|i: int|
                {
                    &&& #[trigger] four_digits_at(s, i)
                    &&& number_at(s, i) == y
                    &&& 1000 <= y <= 2100
                    &&& forall|j: int|
                        j < i && #[trigger] four_digits_at(s, j) ==> !(1000 <= number_at(s, j)
                            <= 2100)
                },
            None => forall|i: int| #[trigger]
                four_digits_at(s, i) ==> !(1000 <= number_at(s, i) <= 2100),
        },
    decreases s.len() - from,
{
    if from < s.len() {
        lemma_year_at(s, from);
        if is_year_at(s, from) {
            assert(four_digits_at(s, from));
        } else {
            lemma_years_from(s, from + 1);
        }
    }
}

/// The publish year of an edition is the year of its publish date, and there is
/// none without a date.
pub proof fn law_publish_year(e: EditionView, date: Seq<char>)
    ensures
        e.publish_date is None ==> e.year() is None,
        e.publish_date == Some(date) ==> e.year() == first_year(date, 0),
{
}

// ---------------------------------------------------------------------------
// Texts
// ---------------------------------------------------------------------------

/// Whether there is nothing but white space in `s`.
pub open spec fn blank(s: Seq<char>) -> bool {
    forall|i: int| 0 <= i < s.len() ==> is_white_space(#[trigger] s[i])
}

/// Whether `s` is `t` between white space, and `t` neither starts nor ends in any.
pub open spec fn pads(s: Seq<char>, t: Seq<char>) -> bool {
    &&& t.len() > 0 && !is_white_space(t[0]) && !is_white_space(t.last())
    &&& exists|a: Seq<char>, b: Seq<char>| #![trigger blank(a), blank(b)]
        blank(a) && blank(b) && s == a + t + b
}

/// Whether a JSON value says the text `t`: as a string around it, or as a number
/// that is written so.
pub open spec fn says(v: Json, t: Seq<char>) -> bool {
    match v {
        Json::Text(s) => pads(s@, t),
        Json::Number { text, .. } => t == text@,
        _ => false,
    }
}

/// Whether `k` is the first member of an object that is called `key`.
pub open spec fn first_member(members: Seq<(String, Json)>, key: Seq<char>, k: int) -> bool {
    &&& 0 <= k < members.len()
    &&& members[k].0@ == key
    &&& forall|j: int| 0 <= j < k ==> (#[trigger] members[j]).0@ != key
}

/// Whether a JSON value says the text `t`, or is an object that does so under
/// `value`.
pub open spec fn describes(v: Json, t: Seq<char>) -> bool {
    match v {
        Json::Object(members) => exists|k: int| #[trigger]
            first_member(members@, "value"@, k) && says(members@[k].1, t),
        _ => says(v, t),
    }
}

proof fn lemma_pads(s: Seq<char>, t: Seq<char>)
    ensures
        t.len() > 0 ==> (trimmed(s) == t <==> pads(s, t)),
        trimmed(s).len() == 0 ==> !pads(s, t),
{
    let end = lemma_trim_end_exists(s, CharClass::White);
    let e = trim_end_of(s, CharClass::White);
    let start = lemma_trim_start_exists(e, CharClass::White);
    let u = trimmed(s);
    if u.len() > 0 && t == u {
        let a = s.take(start);
        let b = s.skip(end);
        assert(t[0] == e[start]);
        assert(t.last() == e[e.len() - 1]);
        assert forall|i: int| 0 <= i < a.len() implies is_white_space(#[trigger] a[i]) by {
            assert(CharClass::White.has(e[i]));
        }
        assert forall|i: int| 0 <= i < b.len() implies is_white_space(#[trigger] b[i]) by {
            assert(CharClass::White.has(s[end + i]));
        }
        assert(s =~= a + t + b);
        assert(blank(a) && blank(b));
    }
    if pads(s, t) {
        let (a, b) = choose|a: Seq<char>, b: Seq<char>| #![trigger blank(a), blank(b)]
            blank(a) && blank(b) && s == a + t + b;
        let stop = (a + t).len() as int;
        assert(s[stop - 1] == t.last());
        assert forall|j: int| stop <= j < s.len() implies CharClass::White.has(s[j]) by {
            assert(s[j] == b[j - stop]);
        }
        lemma_trim_end_is(s, CharClass::White, stop);
        assert(s.take(stop) =~= a + t);
        assert forall|j: int| 0 <= j < a.len() implies CharClass::White.has((a + t)[j]) by {
            assert((a + t)[j] == a[j]);
        }
        assert((a + t)[a.len() as int] == t[0]);
        lemma_trim_start_is(a + t, CharClass::White, a.len() as int);
        assert((a + t).skip(a.len() as int) =~= t);
    }
}

/// A string is read as the text in it, without the white space around it, and as
/// nothing if it has none; a number as it is written; anything else as nothing.
pub proof fn law_texts_are_read(v: Json, t: Seq<char>)
    ensures
        value_text(v) == Some(t) <==> says(v, t),
{
    if let Json::Text(s) = v {
        lemma_pads(s@, t);
    }
}

/// The member of an object that a key names is the first one that is called so.
pub proof fn law_members_are_found(v: Json, key: Seq<char>, k: int)
    ensures
        v is Object && first_member(v->Object_0@, key, k) ==> member_of(v, key) == Some(
            v->Object_0@[k].1,
        ),
        member_of(v, key) is Some ==> v is Object && exists|i: int| #[trigger]
            first_member(v->Object_0@, key, i) && member_of(v, key) == Some(v->Object_0@[i].1),
{
    if let Json::Object(members) = v {
        lemma_member_at(members@, key, 0);
        let at = member_at(members@, key, 0);
        if first_member(members@, key, k) {
            if k < at {
                assert(members@[k].0@ != key);
            } else if at < k {
                assert(members@[at].0@ != key);
            }
        }
        if at < members@.len() {
            assert(first_member(members@, key, at));
        }
    }
}

proof fn lemma_member(v: Json, key: Seq<char>) -> (k: int)
    requires
        v is Object,
    ensures
        member_of(v, key) is Some ==> first_member(v->Object_0@, key, k) && member_of(v, key)
            == Some(v->Object_0@[k].1),
        forall|i: int| #[trigger] first_member(v->Object_0@, key, i) ==> i == k,
        member_of(v, key) is None ==> forall|i: int| !first_member(v->Object_0@, key, i),
{
    let members = v->Object_0@;
    let at = member_at(members, key, 0);
    lemma_member_at(members, key, 0);
    assert forall|i: int| #[trigger] first_member(members, key, i) implies i == at by {
        if i < at {
            assert(members[i].0@ != key);
        } else if at < i {
            assert(members[at].0@ != key);
        }
    }
    at
}

/// A description or a biography is read alike from a plain string and from a text
/// object, which has the string under `value`.
pub proof fn law_text_objects_are_read(v: Json, t: Seq<char>)
    ensures
        text_or_value_of(v) == Some(t) <==> describes(v, t),
{
    if v is Object {
        let k = lemma_member(v, "value"@);
        if let Some(inner) = member_of(v, "value"@) {
            law_texts_are_read(inner, t);
        }
    } else {
        law_texts_are_read(v, t);
    }
}

/// A text that is given plainly or as a text object is the same text.
pub proof fn law_plain_text_and_text_object_agree(
    plain: String,
    members: Vec<(String, Json)>,
    k: int,
)
    requires
        first_member(members@, "value"@, k),
        members@[k].1 == Json::Text(plain),
    ensures
        text_or_value_of(Json::Object(members)) == text_or_value_of(Json::Text(plain)),
{
    let j = lemma_member(Json::Object(members), "value"@);
}

// ---------------------------------------------------------------------------
// Integers
// ---------------------------------------------------------------------------

/// Whether `w` is a row of digits, at least one, perhaps behind a sign, that stands
/// for `n`.
pub open spec fn numeral(w: Seq<char>, n: int) -> bool {
    exists|ds: Seq<char>| #[trigger]
        all_digits(ds) && ds.len() > 0 && {
            ||| w == ds && n == value_of(ds)
            ||| w == seq!['+'] + ds && n == value_of(ds)
            ||| w == seq!['-'] + ds && n == -value_of(ds)
        }
}

/// Whether a JSON value gives the integer `n`: as a number, or as a numeral in a
/// string.
pub open spec fn gives(v: Json, n: int) -> bool {
    match v {
        Json::Number { int: Some(m), .. } => m == n,
        Json::Text(s) => exists|w: Seq<char>| #[trigger] pads(s@, w) && numeral(w, n),
        _ => false,
    }
}

proof fn lemma_value_nonneg(ds: Seq<char>)
    requires
        all_digits(ds),
    ensures
        value_of(ds) >= 0,
    decreases ds.len(),
{
    if ds.len() > 0 {
        assert(is_digit(ds[ds.len() - 1]));
        assert forall|i: int| 0 <= i < ds.drop_last().len() implies is_digit(
            #[trigger] ds.drop_last()[i],
        ) by {
            assert(is_digit(ds[i]));
        }
        lemma_value_nonneg(ds.drop_last());
    }
}

pub proof fn lemma_numeral(w: Seq<char>, n: int)
    requires
        i32::MIN <= n <= i32::MAX,
    ensures
        parse_signed(w, i32::MIN as int, i32::MAX as int) == Some(n) <==> numeral(w, n),
        numeral(w, n) ==> w.len() > 0 && !is_white_space(w[0]) && !is_white_space(w.last()),
{
    if numeral(w, n) {
        let ds = choose|ds: Seq<char>| #[trigger]
            all_digits(ds) && ds.len() > 0 && {
                ||| w == ds && n == value_of(ds)
                ||| w == seq!['+'] + ds && n == value_of(ds)
                ||| w == seq!['-'] + ds && n == -value_of(ds)
            };
        assert(is_digit(ds[0]));
        assert(is_digit(ds[ds.len() - 1]));
        assert((seq!['+'] + ds).skip(1) =~= ds);
        assert((seq!['-'] + ds).skip(1) =~= ds);
        assert((seq!['+'] + ds).last() == ds.last());
        assert((seq!['-'] + ds).last() == ds.last());
    }
    if parse_signed(w, i32::MIN as int, i32::MAX as int) == Some(n) {
        if w[0] == '-' || w[0] == '+' {
            assert(all_digits(w.skip(1)));
            assert(w =~= seq![w[0]] + w.skip(1));
        } else {
            assert(all_digits(w));
        }
    }
}

/// An integer is read from a number, or from a numeral in a string with or without
/// white space around it; nothing else gives one, and none that is too large.
pub proof fn law_integers_are_read(v: Json, n: i32)
    ensures
        int_of(v) == Some(n) <==> gives(v, n as int),
{
    if let Json::Text(s) = v {
        let w = trimmed(s@);
        lemma_numeral(w, n as int);
        if int_of(v) == Some(n) {
            let m = parse_signed(w, i32::MIN as int, i32::MAX as int)->0;
            lemma_parsed_range(w);
            lemma_pads(s@, w);
            assert(pads(s@, w));
        }
        if gives(v, n as int) {
            let u = choose|w: Seq<char>| #[trigger] pads(s@, w) && numeral(w, n as int);
            lemma_pads(s@, u);
        }
    }
}

pub proof fn lemma_parsed_range(w: Seq<char>)
    ensures
        parse_signed(w, i32::MIN as int, i32::MAX as int) matches Some(n) ==> i32::MIN <= n
            <= i32::MAX,
{
    if w.len() > 0 && (w[0] == '-' || w[0] == '+') {
        if all_digits(w.skip(1)) {
            lemma_value_nonneg(w.skip(1));
        }
    } else if all_digits(w) {
        lemma_value_nonneg(w);
    }
}

// ---------------------------------------------------------------------------
// Arrays
// ---------------------------------------------------------------------------

/// Whether `r` has, in order, one reading of each of `items` that has any; `at` says
/// which item each reading comes from.
pub open spec fn picks<V>(
    items: Seq<Json>,
    reads: spec_fn(Json, V) -> bool,
    r: Seq<V>,
    at: Seq<int>,
) -> bool {
    &&& at.len() == r.len()
    &&& forall|k: int|
        0 <= k < r.len() ==> 0 <= #[trigger] at[k] < items.len() && reads(items[at[k]], r[k])
    &&& forall|j: int, k: int| 0 <= j < k < at.len() ==> #[trigger] at[j] < #[trigger] at[k]
    &&& forall|i: int, y: V|
        0 <= i < items.len() && #[trigger] reads(items[i], y) ==> at.contains(i)
}

/// Whether `r` is what can be read of the items of an array, in order, without those
/// that nothing can be read of; and empty for a value that is no array.
pub open spec fn collects<V>(v: Json, reads: spec_fn(Json, V) -> bool, r: Seq<V>) -> bool {
    match v {
        Json::Array(items) => exists|at: Seq<int>| picks(items@, reads, r, at),
        _ => r.len() == 0,
    }
}

proof fn lemma_picks<V>(
    items: Seq<Json>,
    read: spec_fn(Json) -> Option<V>,
    reads: spec_fn(Json, V) -> bool,
) -> (at: Seq<int>)
    requires
        forall|x: Json, y: V| #[trigger] reads(x, y) <==> read(x) == Some(y),
    ensures
        picks(items, reads, kept(items, read), at),
    decreases items.len(),
{
    if items.len() == 0 {
        Seq::empty()
    } else {
        let init = items.drop_last();
        let before = lemma_picks(init, read, reads);
        let n = items.len() - 1;
        let r0 = kept(init, read);
        let r = kept(items, read);
        let at = if read(items.last()) is Some {
            before.push(n)
        } else {
            before
        };
        assert forall|k: int| 0 <= k < r.len() implies 0 <= #[trigger] at[k] < items.len() && reads(
            items[at[k]],
            r[k],
        ) by {
            if k < r0.len() {
                assert(0 <= before[k] < init.len());
                assert(init[before[k]] == items[at[k]]);
                assert(r[k] == r0[k]);
            }
        }
        assert forall|j: int, k: int| 0 <= j < k < at.len() implies #[trigger] at[j]
            < #[trigger] at[k] by {
            assert(0 <= before[j] < init.len());
            if k < before.len() {
                assert(before[j] < before[k]);
            }
        }
        assert forall|i: int, y: V|
            0 <= i < items.len() && #[trigger] reads(items[i], y) implies at.contains(i) by {
            if i < n {
                assert(reads(init[i], y));
                let k = choose|k: int| 0 <= k < before.len() && before[k] == i;
                assert(at[k] == i);
            } else {
                assert(at[before.len() as int] == i);
            }
        }
        at
    }
}

pub open spec fn text_reading() -> spec_fn(Json, Seq<char>) -> bool {
    |x: Json, t: Seq<char>| says(x, t)
}

pub open spec fn image_reading() -> spec_fn(Json, i32) -> bool {
    |x: Json, n: i32| x matches Json::Number { int: Some(m), .. } && m == n && n > 0
}

/// The string items of an array are read as texts, in order, and the others are left
/// out.
pub proof fn law_texts_of_an_array(v: Json)
    ensures
        collects(v, text_reading(), strings_of(v)),
{
    if let Json::Array(items) = v {
        let read = |x: Json| value_text(x);
        assert forall|x: Json, y: Seq<char>| #[trigger] text_reading()(x, y) <==> read(x) == Some(
            y,
        ) by {
            law_texts_are_read(x, y);
        }
        let at = lemma_picks(items@, read, text_reading());
    }
}

/// The positive integers of an array are the ids of its images, in order; an id that
/// marks a deleted image is left out, and so is anything else.
pub proof fn law_images_of_an_array(v: Json)
    ensures
        collects(v, image_reading(), image_ids_of(v)),
{
    if let Json::Array(items) = v {
        let read = |x: Json| image_id(x);
        assert forall|x: Json, y: i32| #[trigger] image_reading()(x, y) <==> read(x) == Some(y) by {
        }
        let at = lemma_picks(items@, read, image_reading());
    }
}

// ---------------------------------------------------------------------------
// References
// ---------------------------------------------------------------------------

/// Whether `k` is the last segment of the path `s`.
pub open spec fn ends_path(s: Seq<char>, k: Seq<char>) -> bool {
    !k.contains('/') && (s == k || exists|a: Seq<char>| s == #[trigger] (a + seq!['/']) + k)
}

/// A key is shortened to what stands behind its last slash; one that has none is
/// kept as it is.
pub proof fn law_keys_are_shortened(s: Seq<char>, k: Seq<char>)
    ensures
        last_segment(s, '/') == k <==> ends_path(s, k),
{
    if ends_path(s, k) {
        if s == k {
            assert forall|j: int| 0 <= j < s.len() implies s[j] != '/' by {
                assert(k.contains(k[j]));
            }
            lemma_last_segment_is(s, '/', 0);
            assert(s.skip(0) =~= s);
        } else {
            let a = choose|a: Seq<char>| s == #[trigger] (a + seq!['/']) + k;
            let start = a.len() + 1;
            assert(s[start - 1] == '/');
            assert forall|j: int| start <= j < s.len() implies s[j] != '/' by {
                assert(s[j] == k[j - start]);
                assert(k.contains(k[j - start]));
            }
            lemma_last_segment_is(s, '/', start as int);
            assert(s.skip(start as int) =~= k);
        }
    }
    if last_segment(s, '/') == k {
        lemma_last_segment(s, '/');
        let cut = s.len() - k.len();
        if cut == 0 {
            assert(s.subrange(0, s.len() as int) =~= s);
        } else {
            let a = s.take(cut - 1);
            assert(s.subrange(cut, s.len() as int) == k);
            assert(s =~= (a + seq!['/']) + k);
        }
    }
}

/// Whether a JSON value names the record with the short key `k`: by a path that ends
/// in it, or as an object that does so under `key`.
pub open spec fn names(v: Json, k: Seq<char>) -> bool
    decreases v,
{
    match v {
        Json::Text(s) => ends_path(s@, k),
        Json::Object(members) => exists|i: int|
            0 <= i < members@.len() && #[trigger] first_member(members@, "key"@, i) && names(
                members@[i].1,
                k,
            ),
        _ => false,
    }
}

/// A reference is read from a path, or from an object that has a reference under
/// `key`.
pub proof fn law_references_are_read(v: Json, k: Seq<char>)
    ensures
        ref_key_of(v) == Some(k) <==> names(v, k),
    decreases v,
{
    match v {
        Json::Text(s) => {
            law_keys_are_shortened(s@, k);
        },
        Json::Object(members) => {
            let i = lemma_member(v, "key"@);
            let at = member_at(members@, "key"@, 0);
            lemma_member_at(members@, "key"@, 0);
            if 0 <= at < members@.len() {
                assert(first_member(members@, "key"@, at));
                law_references_are_read(members@[at].1, k);
            }
        },
        _ => {},
    }
}

/// Whether an entry of a work's author list credits the author with the short key
/// `k`: by the reference under `author`, or by itself where that names nobody.
pub open spec fn credits(v: Json, k: Seq<char>) -> bool {
    ||| v matches Json::Object(members) && exists|i: int| #[trigger]
        first_member(members@, "author"@, i) && names(members@[i].1, k)
    ||| names(v, k) && !(v is Object && exists|i: int, other: Seq<char>| #[trigger]
        first_member(v->Object_0@, "author"@, i) && #[trigger] names(v->Object_0@[i].1, other))
}

pub proof fn law_credits_are_read(v: Json, k: Seq<char>)
    ensures
        role_key_of(v) == Some(k) <==> credits(v, k),
{
    law_references_are_read(v, k);
    if v is Object {
        let members = v->Object_0@;
        let i = lemma_member(v, "author"@);
        if let Some(author) = member_of(v, "author"@) {
            assert(first_member(members, "author"@, i));
            assert forall|other: Seq<char>|
                ref_key_of(author) == Some(other) <==> #[trigger] names(author, other) by {
                law_references_are_read(author, other);
            }
            if let Some(other) = ref_key_of(author) {
                assert(names(author, other));
                assert(names(members[i].1, other));
            }
        }
    }
}

pub open spec fn reference_reading() -> spec_fn(Json, Seq<char>) -> bool {
    |x: Json, k: Seq<char>| names(x, k)
}

pub open spec fn credit_reading() -> spec_fn(Json, Seq<char>) -> bool {
    |x: Json, k: Seq<char>| credits(x, k)
}

/// The references of an array are read in order, and its other items are left out.
pub proof fn law_references_of_an_array(v: Json)
    ensures
        collects(v, reference_reading(), ref_keys_of(v)),
        collects(v, credit_reading(), role_keys_of(v)),
{
    if let Json::Array(items) = v {
        let read = |x: Json| ref_key_of(x);
        assert forall|x: Json, y: Seq<char>| #[trigger] reference_reading()(x, y) <==> read(x)
            == Some(y) by {
            law_references_are_read(x, y);
        }
        let at = lemma_picks(items@, read, reference_reading());
        let role = |x: Json| role_key_of(x);
        assert forall|x: Json, y: Seq<char>| #[trigger] credit_reading()(x, y) <==> role(x)
            == Some(y) by {
            law_credits_are_read(x, y);
        }
        let by = lemma_picks(items@, role, credit_reading());
    }
}

// ---------------------------------------------------------------------------
// External ids
// ---------------------------------------------------------------------------

/// Whether the member of an object that is called `key` gives the external id `t`: the
/// first text of an array, or the text of any other value.
pub open spec fn identifies(v: Json, key: Seq<char>, t: Seq<char>) -> bool {
    v matches Json::Object(members) && exists|k: int| #[trigger]
        first_member(members@, key, k) && match members@[k].1 {
            Json::Array(items) => exists|i: int|
                0 <= i < items@.len() && #[trigger] says(items@[i], t) && forall|j: int, u: Seq<char>|
                    0 <= j < i ==> !#[trigger] says(items@[j], u),
            other => says(other, t),
        }
}

proof fn lemma_first_text(items: Seq<Json>, from: int, t: Seq<char>)
    requires
        0 <= from <= items.len(),
    ensures
        first_text(items, from) == Some(t) <==> exists|i: int|
            from <= i < items.len() && #[trigger] says(items[i], t) && forall|j: int, u: Seq<char>|
                from <= j < i ==> !#[trigger] says(items[j], u),
    decreases items.len() - from,
{
    if from < items.len() {
        assert forall|u: Seq<char>|
            value_text(items[from]) == Some(u) <==> #[trigger] says(items[from], u) by {
            law_texts_are_read(items[from], u);
        }
        if value_text(items[from]) is Some {
            let u = value_text(items[from])->0;
            assert(says(items[from], u));
        } else {
            lemma_first_text(items, from + 1, t);
            if first_text(items, from) == Some(t) {
                let i = choose|i: int|
                    from + 1 <= i < items.len() && #[trigger] says(items[i], t) && forall|
                        j: int,
                        u: Seq<char>,
                    |
                        from + 1 <= j < i ==> !#[trigger] says(items[j], u);
                assert(says(items[i], t));
            }
        }
    }
}

pub proof fn law_external_ids_are_read(v: Json, key: Seq<char>, t: Seq<char>)
    ensures
        identifier_of(v, key) == Some(t) <==> identifies(v, key, t),
{
    if v is Object {
        let k = lemma_member(v, key);
        match member_of(v, key) {
            Some(Json::Array(items)) => {
                assert(first_member(v->Object_0@, key, k));
                lemma_first_text(items@, 0, t);
            },
            Some(other) => {
                law_texts_are_read(other, t);
            },
            None => {},
        }
    }
}

// ---------------------------------------------------------------------------
// Records
// ---------------------------------------------------------------------------

/// Whether `o` is the text that `v` says, if it says any.
pub open spec fn is_text_of(o: Option<Seq<char>>, v: Json) -> bool {
    forall|t: Seq<char>| o == Some(t) <==> #[trigger] says(v, t)
}

/// Whether `o` is the text that `v` says, plainly or as a text object.
pub open spec fn is_description_of(o: Option<Seq<char>>, v: Json) -> bool {
    forall|t: Seq<char>| o == Some(t) <==> #[trigger] describes(v, t)
}

/// Whether `o` is the external id that `v` has under `key`.
pub open spec fn is_id_of(o: Option<Seq<char>>, v: Json, key: Seq<char>) -> bool {
    forall|t: Seq<char>| o == Some(t) <==> #[trigger] identifies(v, key, t)
}

proof fn lemma_text_of(v: Json)
    ensures
        is_text_of(value_text(v), v),
        is_description_of(text_or_value_of(v), v),
{
    assert forall|t: Seq<char>| value_text(v) == Some(t) <==> #[trigger] says(v, t) by {
        law_texts_are_read(v, t);
    }
    assert forall|t: Seq<char>| text_or_value_of(v) == Some(t) <==> #[trigger] describes(v, t) by {
        law_text_objects_are_read(v, t);
    }
}

/// Each field of an author comes from the field of the record that has its name.
pub proof fn law_author_fields(f: AuthorFields)
    ensures
        is_text_of(author_of(f).name, f.name),
        is_text_of(author_of(f).personal_name, f.personal_name),
        is_text_of(author_of(f).birth_date, f.birth_date),
        is_text_of(author_of(f).death_date, f.death_date),
        is_description_of(author_of(f).bio, f.bio),
        collects(f.photos, image_reading(), author_of(f).photos),
{
    lemma_text_of(f.name);
    lemma_text_of(f.personal_name);
    lemma_text_of(f.birth_date);
    lemma_text_of(f.death_date);
    lemma_text_of(f.bio);
    law_images_of_an_array(f.photos);
}

/// Each field of a work comes from the field of the record that has its name.
pub proof fn law_work_fields(f: WorkFields)
    ensures
        is_text_of(work_of(f).title, f.title),
        is_text_of(work_of(f).subtitle, f.subtitle),
        is_description_of(work_of(f).description, f.description),
        is_text_of(work_of(f).first_publish_date, f.first_publish_date),
        collects(f.covers, image_reading(), work_of(f).covers),
        collects(f.subjects, text_reading(), work_of(f).subjects),
        collects(f.author_keys, credit_reading(), work_of(f).author_keys),
{
    lemma_text_of(f.title);
    lemma_text_of(f.subtitle);
    lemma_text_of(f.description);
    lemma_text_of(f.first_publish_date);
    law_images_of_an_array(f.covers);
    law_texts_of_an_array(f.subjects);
    law_references_of_an_array(f.author_keys);
}

/// Each field of an edition comes from the field of the record that has its name.
pub proof fn law_edition_fields(f: EditionFields)
    ensures
        is_text_of(edition_of(f).title, f.title),
        is_text_of(edition_of(f).subtitle, f.subtitle),
        collects(f.work_keys, reference_reading(), edition_of(f).work_keys),
        collects(f.publishers, text_reading(), edition_of(f).publishers),
        is_text_of(edition_of(f).publish_date, f.publish_date),
        forall|n: i32|
            edition_of(f).number_of_pages == Some(n) <==> #[trigger] gives(
                f.number_of_pages,
                n as int,
            ),
        collects(f.isbn_10, text_reading(), edition_of(f).isbn_10),
        collects(f.isbn_13, text_reading(), edition_of(f).isbn_13),
        collects(f.covers, image_reading(), edition_of(f).covers),
        collects(f.languages, reference_reading(), edition_of(f).languages),
        is_text_of(edition_of(f).physical_format, f.physical_format),
        collects(f.series, text_reading(), edition_of(f).series),
        is_text_of(edition_of(f).edition_name, f.edition_name),
        is_text_of(edition_of(f).ocaid, f.ocaid),
        is_id_of(edition_of(f).identifiers.amazon, f.identifiers, "amazon"@),
        is_id_of(edition_of(f).identifiers.goodreads, f.identifiers, "goodreads"@),
        is_id_of(edition_of(f).identifiers.google, f.identifiers, "google"@),
{
    lemma_text_of(f.title);
    lemma_text_of(f.subtitle);
    law_references_of_an_array(f.work_keys);
    law_texts_of_an_array(f.publishers);
    lemma_text_of(f.publish_date);
    assert forall|n: i32|
        edition_of(f).number_of_pages == Some(n) <==> #[trigger] gives(
            f.number_of_pages,
            n as int,
        ) by {
        law_integers_are_read(f.number_of_pages, n);
    }
    law_texts_of_an_array(f.isbn_10);
    law_texts_of_an_array(f.isbn_13);
    law_images_of_an_array(f.covers);
    law_references_of_an_array(f.languages);
    lemma_text_of(f.physical_format);
    law_texts_of_an_array(f.series);
    lemma_text_of(f.edition_name);
    lemma_text_of(f.ocaid);
    law_identifiers(f.identifiers);
}

/// The external ids of an edition are those under their own names.
pub proof fn law_identifiers(v: Json)
    ensures
        is_id_of(identifiers_of(v).amazon, v, "amazon"@),
        is_id_of(identifiers_of(v).goodreads, v, "goodreads"@),
        is_id_of(identifiers_of(v).google, v, "google"@),
{
    assert forall|key: Seq<char>, t: Seq<char>|
        identifier_of(v, key) == Some(t) <==> #[trigger] identifies(v, key, t) by {
        law_external_ids_are_read(v, key, t);
    }
}

/// Nothing is known of a record by default.
pub proof fn law_defaults_are_empty(a: Author, i: Identifiers)
    ensures
        call_ensures(<Author as Default>::default, (), a) ==> a.name is None && a.personal_name
            is None && a.birth_date is None && a.death_date is None && a.bio is None
            && a.photos@.len() == 0,
        call_ensures(<Identifiers as Default>::default, (), i) ==> i.amazon is None && i.goodreads
            is None && i.google is None,
{
    assert(call_ensures(<Author as Default>::default, (), a) ==> a@
        == crate::model::AuthorView::none());
    assert(a@.name == a.name.deep_view());
}

/// The contents of a record are its fields, each under its own name.
pub proof fn law_contents_are_the_fields(a: Author, w: Work, e: Edition, i: Identifiers)
    ensures
        a@.name == a.name.deep_view(),
        a@.personal_name == a.personal_name.deep_view(),
        a@.birth_date == a.birth_date.deep_view(),
        a@.death_date == a.death_date.deep_view(),
        a@.bio == a.bio.deep_view(),
        a@.photos == a.photos@,
        w@.title == w.title.deep_view(),
        w@.subtitle == w.subtitle.deep_view(),
        w@.description == w.description.deep_view(),
        w@.first_publish_date == w.first_publish_date.deep_view(),
        w@.covers == w.covers@,
        w@.subjects == w.subjects.deep_view(),
        w@.author_keys == w.author_keys.deep_view(),
        e@.title == e.title.deep_view(),
        e@.subtitle == e.subtitle.deep_view(),
        e@.work_keys == e.work_keys.deep_view(),
        e@.publishers == e.publishers.deep_view(),
        e@.publish_date == e.publish_date.deep_view(),
        e@.number_of_pages == e.number_of_pages,
        e@.isbn_10 == e.isbn_10.deep_view(),
        e@.isbn_13 == e.isbn_13.deep_view(),
        e@.covers == e.covers@,
        e@.languages == e.languages.deep_view(),
        e@.physical_format == e.physical_format.deep_view(),
        e@.series == e.series.deep_view(),
        e@.edition_name == e.edition_name.deep_view(),
        e@.ocaid == e.ocaid.deep_view(),
        e@.identifiers == e.identifiers@,
        i@.amazon == i.amazon.deep_view(),
        i@.goodreads == i.goodreads.deep_view(),
        i@.google == i.google.deep_view(),
{
}

} // verus!
