//! Lenient reading of the JSON records of the dump files.
//!
//! Open Library records are user-edited and inconsistent: fields like
//! `description` and `bio` may be a plain string or a `{"type": …, "value": …}`
//! object, arrays may contain junk entries, and numbers sometimes arrive as
//! strings. Every reader here accepts any JSON value and extracts what it can,
//! so a malformed field never rejects the whole record.

use vstd::prelude::*;

use crate::json::{lemma_member_at, member_at, member_of, Json};
use crate::number::{parse_i32, parse_signed, value_of};
use crate::text::{after_last, chars_of, digit, has_suffix, is_digit, is_white_space, last_segment};
use crate::text::{lemma_last_segment, lemma_last_segment_is, lemma_trim_end_exists};
use crate::text::{lemma_trim_start_exists, trim, trim_end_of, trimmed, CharClass};

verus! {

// ---------------------------------------------------------------------------
// Keys and dates
// ---------------------------------------------------------------------------

/// Trims key prefixes like `/authors/OL23919A` down to `OL23919A`.
pub fn short_key(key: &str) -> (r: &str)
    ensures
        r@ == last_segment(key@, '/'),
{
    after_last(key, '/')
}

/// A short key has no path prefix: it is the end of the key, it has no slash,
/// and shortening it again changes nothing.
pub proof fn law_short_key(key: Seq<char>)
    ensures
        has_suffix(key, last_segment(key, '/')),
        !last_segment(key, '/').contains('/'),
        last_segment(last_segment(key, '/'), '/') == last_segment(key, '/'),
{
    let r = last_segment(key, '/');
    lemma_last_segment(key, '/');
    assert forall|j: int| 0 <= j < r.len() implies r[j] != '/' by {
        assert(r.contains(r[j]));
    }
    lemma_last_segment_is(r, '/', 0);
    assert(r.skip(0) =~= r);
}

/// Whether `s` has a plausible year at offset `i`: a run of exactly four digits
/// that stands for a number in `1000..=2100`.
pub open spec fn is_year_at(s: Seq<char>, i: int) -> bool {
    &&& 0 <= i && i + 4 <= s.len()
    &&& forall|j: int| i <= j < i + 4 ==> is_digit(#[trigger] s[j])
    &&& i > 0 ==> !is_digit(s[i - 1])
    &&& i + 4 < s.len() ==> !is_digit(s[i + 4])
    &&& 1000 <= value_of(s.subrange(i, i + 4)) <= 2100
}

/// The first plausible year at or after offset `i`.
pub open spec fn first_year(s: Seq<char>, i: int) -> Option<i32>
    decreases s.len() - i,
{
    if i >= s.len() {
        None
    } else if is_year_at(s, i) {
        Some(value_of(s.subrange(i, i + 4)) as i32)
    } else {
        first_year(s, i + 1)
    }
}

/// There is no year at the offsets `i..end`, so the search may go on at `end`.
proof fn lemma_first_year_skip(s: Seq<char>, i: int, end: int)
    requires
        0 <= i <= end <= s.len(),
        forall|j: int| i <= j < end ==> !is_year_at(s, j),
    ensures
        first_year(s, i) == first_year(s, end),
    decreases end - i,
{
    if i < end {
        assert(!is_year_at(s, i));
        lemma_first_year_skip(s, i + 1, end);
    }
}

/// A year that is found is plausible, and stands before every other plausible
/// year of the date; none is found only where the date has none.
pub proof fn law_first_year(s: Seq<char>)
    ensures
        match first_year(s, 0) {
            Some(y) => 1000 <= y <= 2100 && exists|i: int|
                {
                    &&& #[trigger] is_year_at(s, i)
                    &&& y == value_of(s.subrange(i, i + 4))
                    &&& forall|j: int| j < i ==> !is_year_at(s, j)
                },
            None => forall|j: int| !is_year_at(s, j),
        },
{
    lemma_first_year(s, 0);
}

proof fn lemma_first_year(s: Seq<char>, from: int)
    requires
        0 <= from,
        forall|j: int| j < from ==> !is_year_at(s, j),
    ensures
        match first_year(s, from) {
            Some(y) => 1000 <= y <= 2100 && exists|i: int|
                {
                    &&& #[trigger] is_year_at(s, i)
                    &&& y == value_of(s.subrange(i, i + 4))
                    &&& forall|j: int| j < i ==> !is_year_at(s, j)
                },
            None => forall|j: int| !is_year_at(s, j),
        },
    decreases s.len() - from,
{
    if from < s.len() && !is_year_at(s, from) {
        lemma_first_year(s, from + 1);
    }
}

/// First plausible 4-digit year found in a free-form publish date
/// ("March 2005", "1995-03-01", "19??", …).
pub fn extract_year(date: &str) -> (r: Option<i32>)
    ensures
        r == first_year(date@, 0),
{
    let cs = chars_of(date);
    let ghost s = date@;
    let mut i: usize = 0;
    while i < cs.len()
        invariant
            i <= cs@.len(),
            cs@ == s,
            s == date@,
            i > 0 && i < s.len() ==> !(is_digit(s[i as int]) && is_digit(s[i - 1])),
            first_year(s, 0) == first_year(s, i as int),
        decreases cs@.len() - i,
    {
        if digit(cs[i]) {
            let start: usize = i;
            while i < cs.len() && digit(cs[i])
                invariant
                    start <= i <= cs@.len(),
                    forall|j: int| start <= j < i ==> is_digit(#[trigger] cs@[j]),
                decreases cs@.len() - i,
            {
                i += 1;
            }
            proof {
                assert forall|j: int| start < j < i implies !is_year_at(s, j) by {
                    assert(is_digit(s[j - 1]));
                }
                if i - start != 4 {
                    assert(!is_year_at(s, start as int)) by {
                        if i - start > 4 {
                            assert(is_digit(s[start + 4]));
                        } else if is_year_at(s, start as int) {
                            assert(is_digit(s[i as int]));
                        }
                    }
                }
            }
            if i - start == 4 {
                let year: i32 = (cs[start] as u32 - 48) as i32 * 1000 + (cs[start + 1] as u32
                    - 48) as i32 * 100 + (cs[start + 2] as u32 - 48) as i32 * 10 + (cs[start
                    + 3] as u32 - 48) as i32;
                proof {
                    lemma_four_digits(s.subrange(start as int, start + 4));
                }
                if 1000 <= year && year <= 2100 {
                    assert(is_year_at(s, start as int));
                    return Some(year);
                }
            }
            proof {
                lemma_first_year_skip(s, start as int, i as int);
            }
        } else {
            i += 1;
        }
    }
    None
}

proof fn lemma_four_digits(s: Seq<char>)
    requires
        s.len() == 4,
    ensures
        value_of(s) == (s[0] as int - 48) * 1000 + (s[1] as int - 48) * 100 + (s[2] as int - 48)
            * 10 + (s[3] as int - 48),
{
    reveal_with_fuel(value_of, 5);
    assert(s.drop_last().drop_last().drop_last().drop_last() =~= Seq::empty());
}

// ---------------------------------------------------------------------------
// Lenient field readers
// ---------------------------------------------------------------------------

/// The text of a string or a number; nothing else has one.
pub open spec fn value_text(v: Json) -> Option<Seq<char>> {
    match v {
        Json::Text(s) => if trimmed(s@).len() > 0 {
            Some(trimmed(s@))
        } else {
            None
        },
        Json::Number { text, .. } => Some(text@),
        _ => None,
    }
}

/// A text that is read from a string is not empty, and has no white space at
/// its ends.
pub proof fn law_texts_are_trimmed(s: String)
    ensures
        value_text(Json::Text(s)) matches Some(t) ==> {
            &&& t.len() > 0
            &&& !is_white_space(t[0])
            &&& !is_white_space(t.last())
        },
{
    let e = trim_end_of(s@, CharClass::White);
    let end = lemma_trim_end_exists(s@, CharClass::White);
    let start = lemma_trim_start_exists(e, CharClass::White);
    let t = trimmed(s@);
    if t.len() > 0 {
        assert(t[0] == e[start]);
        assert(t.last() == e[e.len() - 1]);
        assert(e[e.len() - 1] == s@[end - 1]);
    }
}

pub fn value_to_string(v: &Json) -> (r: Option<String>)
    ensures
        r.deep_view() == value_text(*v),
{
    match v {
        Json::Text(s) => {
            let t = trim(s.as_str());
            if t.is_empty() {
                None
            } else {
                Some(t.to_owned())
            }
        },
        Json::Number { text, .. } => Some(text.clone()),
        _ => None,
    }
}

/// A string, tolerating numbers and ignoring anything else.
pub fn lenient_string(v: &Json) -> (r: Option<String>)
    ensures
        r.deep_view() == value_text(*v),
{
    value_to_string(v)
}

/// The text of a value, or of the `value` member of an object.
pub open spec fn text_or_value_of(v: Json) -> Option<Seq<char>> {
    match v {
        Json::Object(_) => match member_of(v, "value"@) {
            Some(inner) => value_text(inner),
            None => None,
        },
        _ => value_text(v),
    }
}

/// A string or an Open Library text object `{"type": "/type/text", "value": …}`.
pub fn text_or_value(v: &Json) -> (r: Option<String>)
    ensures
        r.deep_view() == text_or_value_of(*v),
{
    match v {
        Json::Object(_) => match v.get("value") {
            Some(inner) => value_to_string(inner),
            None => None,
        },
        _ => value_to_string(v),
    }
}

/// `n` where an `i32` can hold it.
pub open spec fn as_i32(n: int) -> Option<i32> {
    if i32::MIN <= n <= i32::MAX {
        Some(n as i32)
    } else {
        None
    }
}

/// The integer that a number or a numeric string stands for.
pub open spec fn int_of(v: Json) -> Option<i32> {
    match v {
        Json::Number { int: Some(n), .. } => as_i32(n as int),
        Json::Text(s) => match parse_signed(trimmed(s@), i32::MIN as int, i32::MAX as int) {
            Some(n) => Some(n as i32),
            None => None,
        },
        _ => None,
    }
}

fn narrow(n: i64) -> (r: Option<i32>)
    ensures
        r == as_i32(n as int),
{
    if -2147483648 <= n && n <= 2147483647 {
        Some(n as i32)
    } else {
        None
    }
}

/// An integer, tolerating numeric strings.
pub fn lenient_int(v: &Json) -> (r: Option<i32>)
    ensures
        r == int_of(*v),
{
    match v {
        Json::Number { int: Some(n), .. } => narrow(*n),
        Json::Text(s) => parse_i32(trim(s.as_str())),
        _ => None,
    }
}

/// The readings of the items of an array, without those that have none.
pub open spec fn kept<V>(items: Seq<Json>, read: spec_fn(Json) -> Option<V>) -> Seq<V>
    decreases items.len(),
{
    if items.len() == 0 {
        Seq::empty()
    } else {
        match read(items.last()) {
            Some(x) => kept(items.drop_last(), read).push(x),
            None => kept(items.drop_last(), read),
        }
    }
}

/// The items of an array that `read` makes something of; a value that is no
/// array has none.
pub open spec fn array_of<V>(v: Json, read: spec_fn(Json) -> Option<V>) -> Seq<V> {
    match v {
        Json::Array(items) => kept(items@, read),
        _ => Seq::empty(),
    }
}

fn lenient_array<T: DeepView, F: Fn(&Json) -> Option<T>>(
    v: &Json,
    f: F,
    Ghost(read): Ghost<spec_fn(Json) -> Option<T::V>>,
) -> (r: Vec<T>)
    requires
        forall|x: &Json| #[trigger] call_requires(f, (x,)),
        forall|x: &Json, o: Option<T>| #[trigger]
            call_ensures(f, (x,), o) ==> o.deep_view() == read(*x),
    ensures
        r.deep_view() == array_of(*v, read),
{
    let mut r: Vec<T> = Vec::new();
    match v {
        Json::Array(items) => {
            let mut i: usize = 0;
            assert(items@.take(0) =~= Seq::empty());
            assert(r.deep_view() =~= Seq::empty());
            while i < items.len()
                invariant
                    i <= items@.len(),
                    forall|x: &Json| #[trigger] call_requires(f, (x,)),
                    forall|x: &Json, o: Option<T>| #[trigger]
                        call_ensures(f, (x,), o) ==> o.deep_view() == read(*x),
                    r.deep_view() == kept(items@.take(i as int), read),
                decreases items@.len() - i,
            {
                let o = f(&items[i]);
                assert(items@.take(i + 1).drop_last() =~= items@.take(i as int));
                let ghost before = r.deep_view();
                if let Some(x) = o {
                    r.push(x);
                    assert(r.deep_view() =~= before.push(x.deep_view()));
                }
                i += 1;
            }
            assert(items@.take(items@.len() as int) =~= items@);
        },
        _ => {
            assert(r.deep_view() =~= Seq::empty());
        },
    }
    r
}

pub open spec fn strings_of(v: Json) -> Seq<Seq<char>> {
    array_of(v, |x: Json| value_text(x))
}

pub fn string_array(v: &Json) -> (r: Vec<String>)
    ensures
        r.deep_view() == strings_of(*v),
{
    lenient_array(v, value_to_string, Ghost(|x: Json| value_text(x)))
}

/// The id of an image: a positive integer.
pub open spec fn image_id(v: Json) -> Option<i32> {
    match v {
        Json::Number { int: Some(n), .. } => if n > 0 {
            as_i32(n as int)
        } else {
            None
        },
        _ => None,
    }
}

fn read_image_id(v: &Json) -> (r: Option<i32>)
    ensures
        r == image_id(*v),
{
    match v {
        Json::Number { int: Some(n), .. } => if *n > 0 {
            narrow(*n)
        } else {
            None
        },
        _ => None,
    }
}

pub open spec fn image_ids_of(v: Json) -> Seq<i32> {
    array_of(v, |x: Json| image_id(x))
}

/// Every image id that is kept is positive.
pub proof fn law_image_ids_are_positive(v: Json, i: int)
    requires
        0 <= i < image_ids_of(v).len(),
    ensures
        image_ids_of(v)[i] > 0,
{
    if let Json::Array(items) = v {
        lemma_kept_ids(items@, i);
    }
}

proof fn lemma_kept_ids(items: Seq<Json>, i: int)
    requires
        0 <= i < kept(items, |x: Json| image_id(x)).len(),
    ensures
        kept(items, |x: Json| image_id(x))[i] > 0,
    decreases items.len(),
{
    let read = |x: Json| image_id(x);
    let init = kept(items.drop_last(), read);
    if i < init.len() {
        lemma_kept_ids(items.drop_last(), i);
    }
}

/// Cover/photo ids; -1 marks a deleted image, so keep positive ids only.
pub fn int_array(v: &Json) -> (r: Vec<i32>)
    ensures
        r@ == image_ids_of(*v),
{
    let r = lenient_array(v, read_image_id, Ghost(|x: Json| image_id(x)));
    assert(r.deep_view() =~= r@);
    r
}

/// The short key that a reference names: a key string, or an object with a
/// reference under `key`.
pub open spec fn ref_key_of(v: Json) -> Option<Seq<char>>
    decreases v,
{
    match v {
        Json::Text(s) => Some(last_segment(s@, '/')),
        Json::Object(members) => {
            let at = member_at(members@, "key"@, 0);
            if 0 <= at < members@.len() {
                ref_key_of(members@[at].1)
            } else {
                None
            }
        },
        _ => None,
    }
}

pub fn ref_key(v: &Json) -> (r: Option<String>)
    ensures
        r.deep_view() == ref_key_of(*v),
    decreases v,
{
    match v {
        Json::Text(s) => Some(short_key(s.as_str()).to_owned()),
        Json::Object(members) => {
            proof {
                lemma_member_at(members@, "key"@, 0);
            }
            match v.get("key") {
                Some(inner) => ref_key(inner),
                None => None,
            }
        },
        _ => None,
    }
}

pub open spec fn ref_keys_of(v: Json) -> Seq<Seq<char>> {
    array_of(v, |x: Json| ref_key_of(x))
}

/// An array of `{"key": "/works/OL1W"}` refs (or bare key strings).
pub fn key_ref_array(v: &Json) -> (r: Vec<String>)
    ensures
        r.deep_view() == ref_keys_of(*v),
{
    lenient_array(v, ref_key, Ghost(|x: Json| ref_key_of(x)))
}

/// The author that an entry of a work's author list names: the reference under
/// `author`, else the entry itself as a reference.
pub open spec fn role_key_of(v: Json) -> Option<Seq<char>> {
    match member_of(v, "author"@) {
        Some(author) => match ref_key_of(author) {
            Some(key) => Some(key),
            None => ref_key_of(v),
        },
        None => ref_key_of(v),
    }
}

fn role_key(v: &Json) -> (r: Option<String>)
    ensures
        r.deep_view() == role_key_of(*v),
{
    match v.get("author") {
        Some(author) => match ref_key(author) {
            Some(key) => Some(key),
            None => ref_key(v),
        },
        None => ref_key(v),
    }
}

pub open spec fn role_keys_of(v: Json) -> Seq<Seq<char>> {
    array_of(v, |x: Json| role_key_of(x))
}

/// Work-style author list: `[{"author": {"key": …}, "type": …}]`.
pub fn author_role_keys(v: &Json) -> (r: Vec<String>)
    ensures
        r.deep_view() == role_keys_of(*v),
{
    lenient_array(v, role_key, Ghost(|x: Json| role_key_of(x)))
}

// ---------------------------------------------------------------------------
// External ids
// ---------------------------------------------------------------------------

/// External ids from the edition's `identifiers` object; each value is an
/// array in the dump, of which we keep the first entry.
#[derive(Debug)]
pub struct Identifiers {
    pub amazon: Option<String>,
    pub goodreads: Option<String>,
    pub google: Option<String>,
}

/// The contents of [`Identifiers`].
#[verifier::ext_equal]
pub struct IdentifiersView {
    pub amazon: Option<Seq<char>>,
    pub goodreads: Option<Seq<char>>,
    pub google: Option<Seq<char>>,
}

impl View for Identifiers {
    type V = IdentifiersView;

    open spec fn view(&self) -> IdentifiersView {
        IdentifiersView {
            amazon: self.amazon.deep_view(),
            goodreads: self.goodreads.deep_view(),
            google: self.google.deep_view(),
        }
    }
}

impl IdentifiersView {
    /// Nothing known.
    pub open spec fn none() -> IdentifiersView {
        IdentifiersView {
            amazon: None,
            goodreads: None,
            google: None,
        }
    }
}

impl Default for Identifiers {
    fn default() -> (r: Identifiers)
        ensures
            r@ == IdentifiersView::none(),
    {
        let r = Identifiers {
            amazon: None,
            goodreads: None,
            google: None,
        };
        assert(r@ =~= IdentifiersView::none());
        r
    }
}

/// The first text among `items` from offset `i` on.
pub open spec fn first_text(items: Seq<Json>, i: int) -> Option<Seq<char>>
    decreases items.len() - i,
{
    if i >= items.len() {
        None
    } else if value_text(items[i]) is Some {
        value_text(items[i])
    } else {
        first_text(items, i + 1)
    }
}

/// The external id under `key`: the first text of an array, or the text of
/// any other value.
pub open spec fn identifier_of(v: Json, key: Seq<char>) -> Option<Seq<char>> {
    match member_of(v, key) {
        Some(Json::Array(items)) => first_text(items@, 0),
        Some(other) => value_text(other),
        None => None,
    }
}

pub open spec fn identifiers_of(v: Json) -> IdentifiersView {
    IdentifiersView {
        amazon: identifier_of(v, "amazon"@),
        goodreads: identifier_of(v, "goodreads"@),
        google: identifier_of(v, "google"@),
    }
}

fn identifier(v: &Json, key: &str) -> (r: Option<String>)
    ensures
        r.deep_view() == identifier_of(*v, key@),
{
    match v.get(key) {
        Some(Json::Array(items)) => {
            let mut i: usize = 0;
            while i < items.len()
                invariant
                    i <= items@.len(),
                    member_of(*v, key@) matches Some(Json::Array(all)) && all == *items,
                    first_text(items@, 0) == first_text(items@, i as int),
                decreases items@.len() - i,
            {
                let t = value_to_string(&items[i]);
                if t.is_some() {
                    return t;
                }
                i += 1;
            }
            None
        },
        Some(other) => value_to_string(other),
        None => None,
    }
}

pub fn identifiers(v: &Json) -> (r: Identifiers)
    ensures
        r@ == identifiers_of(*v),
{
    Identifiers {
        amazon: identifier(v, "amazon"),
        goodreads: identifier(v, "goodreads"),
        google: identifier(v, "google"),
    }
}

// ---------------------------------------------------------------------------
// Authors
// ---------------------------------------------------------------------------

/// The fields of an author record as parsed; one that the record lacks is `Null`.
#[derive(Debug)]
pub struct AuthorFields {
    pub name: Json,
    pub personal_name: Json,
    pub birth_date: Json,
    pub death_date: Json,
    pub bio: Json,
    pub photos: Json,
}

#[derive(Debug)]
pub struct Author {
    pub name: Option<String>,
    pub personal_name: Option<String>,
    pub birth_date: Option<String>,
    pub death_date: Option<String>,
    pub bio: Option<String>,
    pub photos: Vec<i32>,
}

/// The contents of an [`Author`].
#[verifier::ext_equal]
pub struct AuthorView {
    pub name: Option<Seq<char>>,
    pub personal_name: Option<Seq<char>>,
    pub birth_date: Option<Seq<char>>,
    pub death_date: Option<Seq<char>>,
    pub bio: Option<Seq<char>>,
    pub photos: Seq<i32>,
}

impl View for Author {
    type V = AuthorView;

    open spec fn view(&self) -> AuthorView {
        AuthorView {
            name: self.name.deep_view(),
            personal_name: self.personal_name.deep_view(),
            birth_date: self.birth_date.deep_view(),
            death_date: self.death_date.deep_view(),
            bio: self.bio.deep_view(),
            photos: self.photos@,
        }
    }
}

impl AuthorView {
    /// Nothing known.
    pub open spec fn none() -> AuthorView {
        AuthorView {
            name: None,
            personal_name: None,
            birth_date: None,
            death_date: None,
            bio: None,
            photos: Seq::empty(),
        }
    }
}

impl Default for Author {
    fn default() -> (r: Author)
        ensures
            r@ == AuthorView::none(),
    {
        let r = Author {
            name: None,
            personal_name: None,
            birth_date: None,
            death_date: None,
            bio: None,
            photos: Vec::new(),
        };
        assert(r@ =~= AuthorView::none());
        r
    }
}

/// The author that the fields of a record describe.
pub open spec fn author_of(fields: AuthorFields) -> AuthorView {
    AuthorView {
        name: value_text(fields.name),
        personal_name: value_text(fields.personal_name),
        birth_date: value_text(fields.birth_date),
        death_date: value_text(fields.death_date),
        bio: text_or_value_of(fields.bio),
        photos: image_ids_of(fields.photos),
    }
}

impl Author {
    pub fn from_fields(fields: &AuthorFields) -> (r: Author)
        ensures
            r@ == author_of(*fields),
    {
        Author {
            name: lenient_string(&fields.name),
            personal_name: lenient_string(&fields.personal_name),
            birth_date: lenient_string(&fields.birth_date),
            death_date: lenient_string(&fields.death_date),
            bio: text_or_value(&fields.bio),
            photos: int_array(&fields.photos),
        }
    }
}

// ---------------------------------------------------------------------------
// Works
// ---------------------------------------------------------------------------

/// The fields of a work record as parsed; one that the record lacks is `Null`.
#[derive(Debug)]
pub struct WorkFields {
    pub title: Json,
    pub subtitle: Json,
    pub description: Json,
    pub first_publish_date: Json,
    pub covers: Json,
    pub subjects: Json,
    pub author_keys: Json,
}

#[derive(Debug)]
pub struct Work {
    pub title: Option<String>,
    pub subtitle: Option<String>,
    pub description: Option<String>,
    pub first_publish_date: Option<String>,
    pub covers: Vec<i32>,
    pub subjects: Vec<String>,
    /// Work authors are `[{"author": {"key": …}}]`, sometimes `[{"author": "/authors/…"}]`.
    pub author_keys: Vec<String>,
}

/// The contents of a [`Work`].
#[verifier::ext_equal]
pub struct WorkView {
    pub title: Option<Seq<char>>,
    pub subtitle: Option<Seq<char>>,
    pub description: Option<Seq<char>>,
    pub first_publish_date: Option<Seq<char>>,
    pub covers: Seq<i32>,
    pub subjects: Seq<Seq<char>>,
    pub author_keys: Seq<Seq<char>>,
}

impl View for Work {
    type V = WorkView;

    open spec fn view(&self) -> WorkView {
        WorkView {
            title: self.title.deep_view(),
            subtitle: self.subtitle.deep_view(),
            description: self.description.deep_view(),
            first_publish_date: self.first_publish_date.deep_view(),
            covers: self.covers@,
            subjects: self.subjects.deep_view(),
            author_keys: self.author_keys.deep_view(),
        }
    }
}

impl WorkView {
    /// Nothing known.
    pub open spec fn none() -> WorkView {
        WorkView {
            title: None,
            subtitle: None,
            description: None,
            first_publish_date: None,
            covers: Seq::empty(),
            subjects: Seq::empty(),
            author_keys: Seq::empty(),
        }
    }
}

impl Default for Work {
    fn default() -> (r: Work)
        ensures
            r@ == WorkView::none(),
    {
        let r = Work {
            title: None,
            subtitle: None,
            description: None,
            first_publish_date: None,
            covers: Vec::new(),
            subjects: Vec::new(),
            author_keys: Vec::new(),
        };
        assert(r@ =~= WorkView::none());
        r
    }
}

/// The work that the fields of a record describe.
pub open spec fn work_of(fields: WorkFields) -> WorkView {
    WorkView {
        title: value_text(fields.title),
        subtitle: value_text(fields.subtitle),
        description: text_or_value_of(fields.description),
        first_publish_date: value_text(fields.first_publish_date),
        covers: image_ids_of(fields.covers),
        subjects: strings_of(fields.subjects),
        author_keys: role_keys_of(fields.author_keys),
    }
}

impl Work {
    pub fn from_fields(fields: &WorkFields) -> (r: Work)
        ensures
            r@ == work_of(*fields),
    {
        Work {
            title: lenient_string(&fields.title),
            subtitle: lenient_string(&fields.subtitle),
            description: text_or_value(&fields.description),
            first_publish_date: lenient_string(&fields.first_publish_date),
            covers: int_array(&fields.covers),
            subjects: string_array(&fields.subjects),
            author_keys: author_role_keys(&fields.author_keys),
        }
    }
}

// ---------------------------------------------------------------------------
// Editions
// ---------------------------------------------------------------------------

/// The fields of an edition record as parsed; one that the record lacks is `Null`.
#[derive(Debug)]
pub struct EditionFields {
    pub title: Json,
    pub subtitle: Json,
    pub work_keys: Json,
    pub publishers: Json,
    pub publish_date: Json,
    pub number_of_pages: Json,
    pub isbn_10: Json,
    pub isbn_13: Json,
    pub covers: Json,
    pub languages: Json,
    pub physical_format: Json,
    pub series: Json,
    pub edition_name: Json,
    pub ocaid: Json,
    pub identifiers: Json,
}

#[derive(Debug)]
pub struct Edition {
    pub title: Option<String>,
    pub subtitle: Option<String>,
    /// Nearly always a single work.
    pub work_keys: Vec<String>,
    pub publishers: Vec<String>,
    pub publish_date: Option<String>,
    pub number_of_pages: Option<i32>,
    pub isbn_10: Vec<String>,
    pub isbn_13: Vec<String>,
    pub covers: Vec<i32>,
    pub languages: Vec<String>,
    pub physical_format: Option<String>,
    pub series: Vec<String>,
    pub edition_name: Option<String>,
    /// Internet Archive id.
    pub ocaid: Option<String>,
    pub identifiers: Identifiers,
}

/// The contents of an [`Edition`].
#[verifier::ext_equal]
pub struct EditionView {
    pub title: Option<Seq<char>>,
    pub subtitle: Option<Seq<char>>,
    pub work_keys: Seq<Seq<char>>,
    pub publishers: Seq<Seq<char>>,
    pub publish_date: Option<Seq<char>>,
    pub number_of_pages: Option<i32>,
    pub isbn_10: Seq<Seq<char>>,
    pub isbn_13: Seq<Seq<char>>,
    pub covers: Seq<i32>,
    pub languages: Seq<Seq<char>>,
    pub physical_format: Option<Seq<char>>,
    pub series: Seq<Seq<char>>,
    pub edition_name: Option<Seq<char>>,
    pub ocaid: Option<Seq<char>>,
    pub identifiers: IdentifiersView,
}

impl View for Edition {
    type V = EditionView;

    open spec fn view(&self) -> EditionView {
        EditionView {
            title: self.title.deep_view(),
            subtitle: self.subtitle.deep_view(),
            work_keys: self.work_keys.deep_view(),
            publishers: self.publishers.deep_view(),
            publish_date: self.publish_date.deep_view(),
            number_of_pages: self.number_of_pages,
            isbn_10: self.isbn_10.deep_view(),
            isbn_13: self.isbn_13.deep_view(),
            covers: self.covers@,
            languages: self.languages.deep_view(),
            physical_format: self.physical_format.deep_view(),
            series: self.series.deep_view(),
            edition_name: self.edition_name.deep_view(),
            ocaid: self.ocaid.deep_view(),
            identifiers: self.identifiers@,
        }
    }
}

impl EditionView {
    /// Nothing known.
    pub open spec fn none() -> EditionView {
        EditionView {
            title: None,
            subtitle: None,
            work_keys: Seq::empty(),
            publishers: Seq::empty(),
            publish_date: None,
            number_of_pages: None,
            isbn_10: Seq::empty(),
            isbn_13: Seq::empty(),
            covers: Seq::empty(),
            languages: Seq::empty(),
            physical_format: None,
            series: Seq::empty(),
            edition_name: None,
            ocaid: None,
            identifiers: IdentifiersView::none(),
        }
    }
}

impl Default for Edition {
    fn default() -> (r: Edition)
        ensures
            r@ == EditionView::none(),
    {
        let r = Edition {
            title: None,
            subtitle: None,
            work_keys: Vec::new(),
            publishers: Vec::new(),
            publish_date: None,
            number_of_pages: None,
            isbn_10: Vec::new(),
            isbn_13: Vec::new(),
            covers: Vec::new(),
            languages: Vec::new(),
            physical_format: None,
            series: Vec::new(),
            edition_name: None,
            ocaid: None,
            identifiers: Identifiers::default(),
        };
        assert(r@ =~= EditionView::none());
        r
    }
}

/// The edition that the fields of a record describe.
pub open spec fn edition_of(fields: EditionFields) -> EditionView {
    EditionView {
        title: value_text(fields.title),
        subtitle: value_text(fields.subtitle),
        work_keys: ref_keys_of(fields.work_keys),
        publishers: strings_of(fields.publishers),
        publish_date: value_text(fields.publish_date),
        number_of_pages: int_of(fields.number_of_pages),
        isbn_10: strings_of(fields.isbn_10),
        isbn_13: strings_of(fields.isbn_13),
        covers: image_ids_of(fields.covers),
        languages: ref_keys_of(fields.languages),
        physical_format: value_text(fields.physical_format),
        series: strings_of(fields.series),
        edition_name: value_text(fields.edition_name),
        ocaid: value_text(fields.ocaid),
        identifiers: identifiers_of(fields.identifiers),
    }
}

impl Edition {
    pub fn from_fields(fields: &EditionFields) -> (r: Edition)
        ensures
            r@ == edition_of(*fields),
    {
        Edition {
            title: lenient_string(&fields.title),
            subtitle: lenient_string(&fields.subtitle),
            work_keys: key_ref_array(&fields.work_keys),
            publishers: string_array(&fields.publishers),
            publish_date: lenient_string(&fields.publish_date),
            number_of_pages: lenient_int(&fields.number_of_pages),
            isbn_10: string_array(&fields.isbn_10),
            isbn_13: string_array(&fields.isbn_13),
            covers: int_array(&fields.covers),
            languages: key_ref_array(&fields.languages),
            physical_format: lenient_string(&fields.physical_format),
            series: string_array(&fields.series),
            edition_name: lenient_string(&fields.edition_name),
            ocaid: lenient_string(&fields.ocaid),
            identifiers: identifiers(&fields.identifiers),
        }
    }

    pub fn publish_year(&self) -> (r: Option<i32>)
        ensures
            r == self@.year(),
    {
        match &self.publish_date {
            Some(date) => extract_year(date.as_str()),
            None => None,
        }
    }
}

impl EditionView {
    /// The first plausible year in the publish date.
    pub open spec fn year(self) -> Option<i32> {
        match self.publish_date {
            Some(date) => first_year(date, 0),
            None => None,
        }
    }
}

} // verus!
