//! Scanning the dumps into staging rows.
//!
//! A dump is read line by line. The JSON column of a line is parsed elsewhere;
//! here each line, with what came of its JSON, is turned into a row to stage or
//! dropped, and counted.

use vstd::prelude::*;

use crate::model::{author_of, edition_of, extract_year, first_year, short_key, work_of};
use crate::model::{AuthorFields, EditionFields, WorkFields};
use crate::model::{Author, AuthorView, Edition, EditionView, Work, WorkView};
use crate::number::{decimal, i32_to_string, signed_decimal, u64_to_string};
use crate::slug::{base_slug, base_slug_text, clamped, edition_slug_source, is_base_slug};
use crate::text::{chars_of, find, last_segment, lemma_position, lemma_position_is, position};
use crate::text::{lemma_trim_end_is, lemma_utf8_len_add, lemma_utf8_len_bound};
use crate::text::{str_eq, trim_end, trim_end_of, utf8_len, utf8_width, CharClass};

verus! {

/// How many editions a dev import stages.
pub const DEV_LIMIT: u64 = 200_000;

/// A dev import keeps editions published in this year or later.
pub const DEV_MIN_YEAR: i32 = 1950;

/// The titles of works are clamped to this many characters.
pub const MAX_TITLE_CHARS: usize = 1000;

/// `works.title` has a btree index; pathological titles are clamped so the index
/// build can't blow the btree entry size limit. An entry takes at most 2704
/// bytes: a header of 8, a length word of 4, and the text in UTF-8.
pub const MAX_TITLE_BYTES: usize = 2692;

/// How many rows go by between two progress messages.
pub const PROGRESS_STEP: u64 = 8192;

// ---------------------------------------------------------------------------
// Dump lines
// ---------------------------------------------------------------------------

/// The key and the JSON of a dump line: what stands between its first two tabs,
/// and what stands behind the fourth.
pub open spec fn columns_of(line: Seq<char>) -> Option<(Seq<char>, Seq<char>)> {
    let s = trim_end_of(line, CharClass::LineEnd);
    let t1 = position(s, '\t', 0);
    let t2 = position(s, '\t', t1 + 1);
    let t3 = position(s, '\t', t2 + 1);
    let t4 = position(s, '\t', t3 + 1);
    if t4 < s.len() {
        Some((s.subrange(t1 + 1, t2), s.skip(t4 + 1)))
    } else {
        None
    }
}

/// Dump lines are `type \t key \t revision \t last_modified \t json`. Tabs
/// inside the JSON are always escaped as `\t`, so a raw tab only ever
/// separates columns. Returns (key, json).
pub fn split_row(line: &str) -> (r: Option<(&str, &str)>)
    ensures
        r.deep_view() == columns_of(line@),
{
    let row = trim_end(line, CharClass::LineEnd);
    let cs = chars_of(row);
    let ghost s = row@;
    let t1 = find(&cs, '\t', 0);
    proof {
        lemma_position(s, '\t', 0);
    }
    if t1 == cs.len() {
        return None;
    }
    let t2 = find(&cs, '\t', t1 + 1);
    proof {
        lemma_position(s, '\t', t1 + 1);
    }
    if t2 == cs.len() {
        return None;
    }
    let t3 = find(&cs, '\t', t2 + 1);
    proof {
        lemma_position(s, '\t', t2 + 1);
    }
    if t3 == cs.len() {
        return None;
    }
    let t4 = find(&cs, '\t', t3 + 1);
    proof {
        lemma_position(s, '\t', t3 + 1);
    }
    if t4 == cs.len() {
        return None;
    }
    assert(s.subrange(t4 + 1, s.len() as int) =~= s.skip(t4 + 1));
    Some((row.substring_char(t1 + 1, t2), row.substring_char(t4 + 1, cs.len())))
}

/// What is written as a dump line is read back: of five columns of which the
/// first four have no tab and the last does not end in a line end, followed by
/// any line ends, the second and the fifth are returned.
pub proof fn law_line_round_trip(
    kind: Seq<char>,
    key: Seq<char>,
    revision: Seq<char>,
    modified: Seq<char>,
    json: Seq<char>,
    line_end: Seq<char>,
)
    requires
        !kind.contains('\t'),
        !key.contains('\t'),
        !revision.contains('\t'),
        !modified.contains('\t'),
        json.len() > 0 ==> !CharClass::LineEnd.has(json.last()),
        forall|i: int| 0 <= i < line_end.len() ==> CharClass::LineEnd.has(#[trigger] line_end[i]),
    ensures
        columns_of(
            kind + seq!['\t'] + key + seq!['\t'] + revision + seq!['\t'] + modified + seq!['\t']
                + json + line_end,
        ) == Some((key, json)),
{
    let s = kind + seq!['\t'] + key + seq!['\t'] + revision + seq!['\t'] + modified + seq!['\t']
        + json;
    let line = s + line_end;
    assert(trim_end_of(line, CharClass::LineEnd) == s) by {
        assert(s.last() == if json.len() > 0 {
            json.last()
        } else {
            '\t'
        });
        assert forall|j: int| s.len() <= j < line.len() implies CharClass::LineEnd.has(line[j]) by {
            assert(line[j] == line_end[j - s.len()]);
        }
        lemma_trim_end_is(line, CharClass::LineEnd, s.len() as int);
        assert(line.take(s.len() as int) =~= s);
    }
    let t1 = kind.len() as int;
    let t2 = t1 + 1 + key.len();
    let t3 = t2 + 1 + revision.len();
    let t4 = t3 + 1 + modified.len();
    lemma_column(s, 0, kind);
    lemma_column(s, t1 + 1, key);
    lemma_column(s, t2 + 1, revision);
    lemma_column(s, t3 + 1, modified);
    assert(s.subrange(t1 + 1, t2) =~= key);
    assert(s.skip(t4 + 1) =~= json);
}

proof fn lemma_column(s: Seq<char>, from: int, column: Seq<char>)
    requires
        0 <= from,
        from + column.len() < s.len(),
        s.subrange(from, from + column.len()) =~= column,
        s[from + column.len()] == '\t',
        !column.contains('\t'),
    ensures
        position(s, '\t', from) == from + column.len(),
{
    assert forall|j: int| from <= j < from + column.len() implies s[j] != '\t' by {
        assert(s[j] == s.subrange(from, from + column.len())[j - from]);
        assert(column.contains(column[j - from]));
    }
    lemma_position_is(s, '\t', from, from + column.len());
}

/// At most the first `max` characters of `s`.
pub fn clamp_chars(s: String, max: usize) -> (r: String)
    ensures
        r@ == clamped(s@, max as int),
{
    if s.as_str().unicode_len() > max {
        assert(s@.take(max as int) =~= s@.subrange(0, max as int));
        s.as_str().substring_char(0, max).to_owned()
    } else {
        s
    }
}

/// Whether a title can be stored, and indexed, as it is.
pub open spec fn title_fits(s: Seq<char>) -> bool {
    s.len() <= MAX_TITLE_CHARS && utf8_len(s) <= MAX_TITLE_BYTES
}

/// The longest prefix of a title that fits.
pub open spec fn clamped_title(s: Seq<char>) -> Seq<char>
    decreases s.len(),
{
    if s.len() == 0 || title_fits(s) {
        s
    } else {
        clamped_title(s.drop_last())
    }
}

/// Every prefix of a prefix that fits, fits.
proof fn lemma_prefix_fits(s: Seq<char>, m: int, n: int)
    requires
        0 <= m <= n <= s.len(),
        title_fits(s.take(n)),
    ensures
        title_fits(s.take(m)),
{
    assert(s.take(n) =~= s.take(m) + s.subrange(m, n));
    lemma_utf8_len_add(s.take(m), s.subrange(m, n));
}

/// The clamped title is a prefix that fits, and no longer prefix does.
proof fn lemma_clamped_title(s: Seq<char>)
    ensures
        clamped_title(s).is_prefix_of(s),
        title_fits(clamped_title(s)),
        forall|n: int|
            0 <= n <= s.len() && #[trigger] title_fits(s.take(n)) ==> n <= clamped_title(s).len(),
    decreases s.len(),
{
    assert(s.take(s.len() as int) =~= s);
    if s.len() > 0 && !title_fits(s) {
        let init = s.drop_last();
        lemma_clamped_title(init);
        assert forall|n: int| 0 <= n <= s.len() && #[trigger] title_fits(s.take(n)) implies n
            <= clamped_title(s).len() by {
            assert(n < s.len());
            assert(init.take(n) =~= s.take(n));
        }
    }
}

/// The longest prefix of a title that stays within [`MAX_TITLE_CHARS`] and
/// [`MAX_TITLE_BYTES`].
pub fn clamp_title(s: String) -> (r: String)
    ensures
        r@ == clamped_title(s@),
        r@.is_prefix_of(s@),
        title_fits(r@),
        forall|n: int|
            0 <= n <= s@.len() && #[trigger] title_fits(s@.take(n)) ==> n <= r@.len(),
{
    let ghost whole = s@;
    let s = clamp_chars(s, MAX_TITLE_CHARS);
    let cs = chars_of(s.as_str());
    let mut end: usize = 0;
    let mut bytes: usize = 0;
    while end < cs.len()
        invariant
            end <= cs@.len() <= MAX_TITLE_CHARS,
            cs@ == clamped(whole, MAX_TITLE_CHARS as int),
            bytes == utf8_len(cs@.take(end as int)),
            bytes <= MAX_TITLE_BYTES,
        ensures
            end <= cs@.len(),
            title_fits(cs@.take(end as int)),
            end < cs@.len() ==> !title_fits(cs@.take(end + 1)),
        decreases cs@.len() - end,
    {
        let width = utf8_width(cs[end]);
        proof {
            assert(cs@.take(end + 1) =~= cs@.take(end as int) + seq![cs@[end as int]]);
            lemma_utf8_len_add(cs@.take(end as int), seq![cs@[end as int]]);
        }
        if bytes + width > MAX_TITLE_BYTES {
            break;
        }
        bytes += width;
        end += 1;
    }
    proof {
        let r = whole.take(end as int);
        assert(cs@.take(end as int) =~= r);
        lemma_clamped_title(whole);
        assert forall|n: int| 0 <= n <= whole.len() && #[trigger] title_fits(whole.take(n)) implies n
            <= end by {
            if n > end {
                assert(cs@.take(end + 1) =~= whole.take(end + 1));
                lemma_prefix_fits(whole, end + 1, n);
            }
        }
        let t = clamped_title(whole);
        assert(whole.take(t.len() as int) =~= t);
        assert(t =~= r);
        assert(s@.subrange(0, end as int) =~= r);
    }
    s.as_str().substring_char(0, end).to_owned()
}

// ---------------------------------------------------------------------------
// Rows
// ---------------------------------------------------------------------------

/// A row of the authors staging table.
#[derive(Debug)]
pub struct AuthorRow {
    pub open_library_id: String,
    pub base_slug: String,
    pub name: String,
    pub bio: Option<String>,
    pub birth_date: Option<String>,
    pub death_date: Option<String>,
    pub photo_id: Option<String>,
}

/// The contents of an [`AuthorRow`].
#[verifier::ext_equal]
pub struct AuthorRowView {
    pub open_library_id: Seq<char>,
    pub base_slug: Seq<char>,
    pub name: Seq<char>,
    pub bio: Option<Seq<char>>,
    pub birth_date: Option<Seq<char>>,
    pub death_date: Option<Seq<char>>,
    pub photo_id: Option<Seq<char>>,
}

impl View for AuthorRow {
    type V = AuthorRowView;

    open spec fn view(&self) -> AuthorRowView {
        AuthorRowView {
            open_library_id: self.open_library_id@,
            base_slug: self.base_slug@,
            name: self.name@,
            bio: self.bio.deep_view(),
            birth_date: self.birth_date.deep_view(),
            death_date: self.death_date.deep_view(),
            photo_id: self.photo_id.deep_view(),
        }
    }
}

/// A row of the works staging table.
#[derive(Debug)]
pub struct WorkRow {
    pub open_library_id: String,
    pub base_slug: String,
    pub title: String,
    pub subtitle: Option<String>,
    pub description: Option<String>,
    pub first_publish_date: Option<String>,
    pub first_publish_year: Option<i32>,
    pub cover_id: Option<String>,
    pub subjects: Vec<String>,
}

/// The contents of a [`WorkRow`].
#[verifier::ext_equal]
pub struct WorkRowView {
    pub open_library_id: Seq<char>,
    pub base_slug: Seq<char>,
    pub title: Seq<char>,
    pub subtitle: Option<Seq<char>>,
    pub description: Option<Seq<char>>,
    pub first_publish_date: Option<Seq<char>>,
    pub first_publish_year: Option<i32>,
    pub cover_id: Option<Seq<char>>,
    pub subjects: Seq<Seq<char>>,
}

impl View for WorkRow {
    type V = WorkRowView;

    open spec fn view(&self) -> WorkRowView {
        WorkRowView {
            open_library_id: self.open_library_id@,
            base_slug: self.base_slug@,
            title: self.title@,
            subtitle: self.subtitle.deep_view(),
            description: self.description.deep_view(),
            first_publish_date: self.first_publish_date.deep_view(),
            first_publish_year: self.first_publish_year,
            cover_id: self.cover_id.deep_view(),
            subjects: self.subjects.deep_view(),
        }
    }
}

/// A work→author link: a row of the refs staging table.
#[derive(Debug)]
pub struct AuthorRef {
    pub work_olid: String,
    pub author_olid: String,
    pub position: i32,
}

/// The contents of an [`AuthorRef`].
#[verifier::ext_equal]
pub struct AuthorRefView {
    pub work_olid: Seq<char>,
    pub author_olid: Seq<char>,
    pub position: i32,
}

impl View for AuthorRef {
    type V = AuthorRefView;

    open spec fn view(&self) -> AuthorRefView {
        AuthorRefView {
            work_olid: self.work_olid@,
            author_olid: self.author_olid@,
            position: self.position,
        }
    }
}

/// A row of the editions staging table.
#[derive(Debug)]
pub struct EditionRow {
    pub work_olid: String,
    pub open_library_id: String,
    pub base_slug: String,
    pub title: Option<String>,
    pub subtitle: Option<String>,
    pub asin: Option<String>,
    pub cover_id: Option<String>,
    pub format: Option<String>,
    pub goodreads_id: Option<String>,
    pub google_books_id: Option<String>,
    pub isbn10: Option<String>,
    pub isbn13: Option<String>,
    pub language: Option<String>,
    pub page_count: Option<i32>,
    pub published_year: Option<i32>,
    pub publisher: Option<String>,
    pub series: Option<String>,
    pub edition_name: Option<String>,
    pub internet_archive_id: Option<String>,
}

/// The contents of an [`EditionRow`].
#[verifier::ext_equal]
pub struct EditionRowView {
    pub work_olid: Seq<char>,
    pub open_library_id: Seq<char>,
    pub base_slug: Seq<char>,
    pub title: Option<Seq<char>>,
    pub subtitle: Option<Seq<char>>,
    pub asin: Option<Seq<char>>,
    pub cover_id: Option<Seq<char>>,
    pub format: Option<Seq<char>>,
    pub goodreads_id: Option<Seq<char>>,
    pub google_books_id: Option<Seq<char>>,
    pub isbn10: Option<Seq<char>>,
    pub isbn13: Option<Seq<char>>,
    pub language: Option<Seq<char>>,
    pub page_count: Option<i32>,
    pub published_year: Option<i32>,
    pub publisher: Option<Seq<char>>,
    pub series: Option<Seq<char>>,
    pub edition_name: Option<Seq<char>>,
    pub internet_archive_id: Option<Seq<char>>,
}

impl View for EditionRow {
    type V = EditionRowView;

    open spec fn view(&self) -> EditionRowView {
        EditionRowView {
            work_olid: self.work_olid@,
            open_library_id: self.open_library_id@,
            base_slug: self.base_slug@,
            title: self.title.deep_view(),
            subtitle: self.subtitle.deep_view(),
            asin: self.asin.deep_view(),
            cover_id: self.cover_id.deep_view(),
            format: self.format.deep_view(),
            goodreads_id: self.goodreads_id.deep_view(),
            google_books_id: self.google_books_id.deep_view(),
            isbn10: self.isbn10.deep_view(),
            isbn13: self.isbn13.deep_view(),
            language: self.language.deep_view(),
            page_count: self.page_count,
            published_year: self.published_year,
            publisher: self.publisher.deep_view(),
            series: self.series.deep_view(),
            edition_name: self.edition_name.deep_view(),
            internet_archive_id: self.internet_archive_id.deep_view(),
        }
    }
}

/// The first of some texts.
pub open spec fn first_of(texts: Seq<Seq<char>>) -> Option<Seq<char>> {
    if texts.len() > 0 {
        Some(texts[0])
    } else {
        None
    }
}

/// The first of some image ids, in decimal.
pub open spec fn first_id(ids: Seq<i32>) -> Option<Seq<char>> {
    if ids.len() > 0 {
        Some(signed_decimal(ids[0] as int))
    } else {
        None
    }
}

fn first_string(texts: &Vec<String>) -> (r: Option<String>)
    ensures
        r.deep_view() == first_of(texts.deep_view()),
{
    if texts.len() > 0 {
        Some(texts[0].clone())
    } else {
        None
    }
}

fn first_image(ids: &Vec<i32>) -> (r: Option<String>)
    ensures
        r.deep_view() == first_id(ids@),
{
    if ids.len() > 0 {
        Some(i32_to_string(ids[0]))
    } else {
        None
    }
}

// ---------------------------------------------------------------------------
// Authors and works
// ---------------------------------------------------------------------------

/// The row of a dump line, if it is kept; `author` is what its JSON describes.
///
/// A line is dropped if it has too few columns, if its JSON is malformed, or if
/// the author has no name: name is NOT NULL in the schema, and nameless author
/// records are junk.
pub open spec fn author_row_of(line: Seq<char>, author: Option<AuthorView>) -> Option<
    AuthorRowView,
> {
    match (columns_of(line), author) {
        (Some((key, _)), Some(author)) => {
            let olid = last_segment(key, '/');
            let name = if author.name is Some {
                author.name
            } else {
                author.personal_name
            };
            match name {
                Some(name) => Some(
                    AuthorRowView {
                        open_library_id: olid,
                        base_slug: base_slug_text(name, olid),
                        name,
                        bio: author.bio,
                        birth_date: author.birth_date,
                        death_date: author.death_date,
                        photo_id: first_id(author.photos),
                    },
                ),
                None => None,
            }
        },
        _ => None,
    }
}

/// The row of a dump line, if it is kept; `work` is what its JSON describes.
///
/// A line is dropped if it has too few columns, if its JSON is malformed, or if
/// the work has no title: title is NOT NULL in the schema, and untitled works
/// are unusable anyway.
pub open spec fn work_row_of(line: Seq<char>, work: Option<WorkView>) -> Option<WorkRowView> {
    match (columns_of(line), work) {
        (Some((key, _)), Some(work)) => {
            let olid = last_segment(key, '/');
            match work.title {
                Some(title) => {
                    let title = clamped_title(title);
                    Some(
                        WorkRowView {
                            open_library_id: olid,
                            base_slug: base_slug_text(title, olid),
                            title,
                            subtitle: work.subtitle,
                            description: work.description,
                            first_publish_date: work.first_publish_date,
                            first_publish_year: match work.first_publish_date {
                                Some(date) => first_year(date, 0),
                                None => None,
                            },
                            cover_id: first_id(work.covers),
                            subjects: work.subjects,
                        },
                    )
                },
                None => None,
            }
        },
        _ => None,
    }
}

/// The title of a staged work can always be indexed: it is the longest prefix of
/// the record's title that stays within both limits, and is empty only if that
/// title is. The slug is made from it.
pub proof fn law_titles_fit(line: Seq<char>, work: Option<WorkView>)
    requires
        work_row_of(line, work) is Some,
    ensures
        ({
            let row = work_row_of(line, work)->0;
            let title = work->0.title->0;
            &&& row.title.is_prefix_of(title)
            &&& row.title.len() <= MAX_TITLE_CHARS
            &&& utf8_len(row.title) <= MAX_TITLE_BYTES
            &&& forall|n: int|
                0 <= n <= title.len() && #[trigger] title_fits(title.take(n)) ==> n
                    <= row.title.len()
            &&& title.len() > 0 ==> row.title.len() > 0
            &&& row.base_slug == base_slug_text(row.title, row.open_library_id)
        }),
{
    let title = work->0.title->0;
    lemma_clamped_title(title);
    if title.len() > 0 {
        lemma_utf8_len_bound(title.take(1));
        assert(title_fits(title.take(1)));
    }
}

/// The links from a work to its authors, numbered in order. (The number is an
/// `int4` column; it would wrap behind the largest `i32`.)
pub open spec fn author_refs(olid: Seq<char>, author_keys: Seq<Seq<char>>) -> Seq<AuthorRefView> {
    Seq::new(
        author_keys.len(),
        |i: int|
            AuthorRefView {
                work_olid: olid,
                author_olid: author_keys[i],
                position: (i as usize) as i32,
            },
    )
}

/// The contents of a list of links.
pub open spec fn ref_views(refs: Seq<AuthorRef>) -> Seq<AuthorRefView> {
    refs.map_values(|r: AuthorRef| r@)
}

fn link_authors(olid: &str, author_keys: &Vec<String>) -> (r: Vec<AuthorRef>)
    ensures
        ref_views(r@) == author_refs(olid@, author_keys.deep_view()),
{
    let ghost all = author_refs(olid@, author_keys.deep_view());
    let mut r: Vec<AuthorRef> = Vec::new();
    let mut i: usize = 0;
    while i < author_keys.len()
        invariant
            i <= author_keys@.len(),
            all == author_refs(olid@, author_keys.deep_view()),
            ref_views(r@) =~= all.take(i as int),
        decreases author_keys@.len() - i,
    {
        let ghost before = r@;
        #[verifier::truncate]
        let position: i32 = i as i32;
        let link = AuthorRef {
            work_olid: olid.to_owned(),
            author_olid: author_keys[i].clone(),
            position,
        };
        r.push(link);
        assert(ref_views(r@) =~= ref_views(before).push(link@));
        assert(all[i as int] =~= link@);
        i += 1;
    }
    assert(all.take(all.len() as int) =~= all);
    r
}

/// A work with its links.
#[derive(Debug)]
pub struct StagedWork {
    pub row: WorkRow,
    pub refs: Vec<AuthorRef>,
}

/// The counts of a scan of the authors or the works dump.
#[derive(Copy, Clone, PartialEq, Eq, Debug, Structural)]
pub struct Scan {
    /// Rows that were staged.
    pub written: u64,
    /// Lines that were dropped.
    pub skipped: u64,
}

impl Scan {
    pub fn new() -> (r: Scan)
        ensures
            r == (Scan { written: 0, skipped: 0 }),
    {
        Scan { written: 0, skipped: 0 }
    }

    /// The counts after one more line, of which a row is kept or not.
    pub open spec fn after(self, kept: bool) -> Scan {
        if kept {
            Scan { written: (self.written + 1) as u64, skipped: self.skipped }
        } else {
            Scan { written: self.written, skipped: (self.skipped + 1) as u64 }
        }
    }

    /// Whether the counts can take one more line.
    pub open spec fn has_room(self) -> bool {
        self.written < u64::MAX && self.skipped < u64::MAX
    }

    /// Takes the next line of the authors dump. `author` is what its JSON
    /// describes: `None` if it is malformed or the line has none.
    pub fn scan_author(&mut self, line: &str, author: Option<Author>) -> (r: Option<AuthorRow>)
        requires
            old(self).has_room(),
        ensures
            r is Some <==> author_row_of(line@, author_view(author)) is Some,
            r matches Some(row) ==> Some(row@) == author_row_of(line@, author_view(author)),
            r matches Some(row) ==> is_base_slug(row.base_slug@, row.name@, row.open_library_id@),
            *final(self) == old(self).after(r is Some),
    {
        if let (Some((key, _)), Some(author)) = (split_row(line), author) {
            let olid = short_key(key);
            let name = match author.name {
                Some(name) => Some(name),
                None => author.personal_name,
            };
            if let Some(name) = name {
                self.written += 1;
                let base_slug = base_slug(name.as_str(), olid);
                return Some(
                    AuthorRow {
                        open_library_id: olid.to_owned(),
                        base_slug,
                        name,
                        bio: author.bio,
                        birth_date: author.birth_date,
                        death_date: author.death_date,
                        photo_id: first_image(&author.photos),
                    },
                );
            }
        }
        self.skipped += 1;
        None
    }

    /// Takes the next line of the works dump. `work` is what its JSON describes:
    /// `None` if it is malformed or the line has none.
    pub fn scan_work(&mut self, line: &str, work: Option<Work>) -> (r: Option<StagedWork>)
        requires
            old(self).has_room(),
        ensures
            r is Some <==> work_row_of(line@, work_view(work)) is Some,
            r matches Some(staged) ==> {
                &&& Some(staged.row@) == work_row_of(line@, work_view(work))
                &&& ref_views(staged.refs@) == author_refs(
                    staged.row.open_library_id@,
                    work->0.author_keys.deep_view(),
                )
                &&& is_base_slug(
                    staged.row.base_slug@,
                    staged.row.title@,
                    staged.row.open_library_id@,
                )
                &&& title_fits(staged.row.title@)
            },
            *final(self) == old(self).after(r is Some),
    {
        if let (Some((key, _)), Some(work)) = (split_row(line), work) {
            let olid = short_key(key);
            if let Some(title) = work.title {
                self.written += 1;
                let title = clamp_title(title);
                let first_publish_year = match &work.first_publish_date {
                    Some(date) => extract_year(date.as_str()),
                    None => None,
                };
                let base_slug = base_slug(title.as_str(), olid);
                let refs = link_authors(olid, &work.author_keys);
                let row = WorkRow {
                    open_library_id: olid.to_owned(),
                    base_slug,
                    title,
                    subtitle: work.subtitle,
                    description: work.description,
                    first_publish_date: work.first_publish_date,
                    first_publish_year,
                    cover_id: first_image(&work.covers),
                    subjects: work.subjects,
                };
                return Some(StagedWork { row, refs });
            }
        }
        self.skipped += 1;
        None
    }

    /// Takes the next line of the authors dump; `parse` parses its JSON column, and
    /// gives `None` if that is malformed.
    pub fn author_line<P: Fn(&str) -> Option<AuthorFields>>(&mut self, line: &str, parse: P) -> (r:
        Option<AuthorRow>)
        requires
            old(self).has_room(),
            forall|json: &str| #[trigger] call_requires(parse, (json,)),
        ensures
            exists|fields: Option<AuthorFields>|
                {
                    &&& #[trigger] parsed_column(parse, line@, fields)
                    &&& match r {
                        Some(row) => Some(row@) == author_row_of(line@, author_described(fields)),
                        None => author_row_of(line@, author_described(fields)) is None,
                    }
                    &&& *final(self) == old(self).after(r is Some)
                },
            r matches Some(row) ==> is_base_slug(row.base_slug@, row.name@, row.open_library_id@),
    {
        let fields = match split_row(line) {
            Some((_, json)) => parse(json),
            None => None,
        };
        assert(parsed_column(parse, line@, fields));
        let author = match &fields {
            Some(fields) => Some(Author::from_fields(fields)),
            None => None,
        };
        self.scan_author(line, author)
    }

    /// Takes the next line of the works dump; `parse` parses its JSON column, and
    /// gives `None` if that is malformed.
    pub fn work_line<P: Fn(&str) -> Option<WorkFields>>(&mut self, line: &str, parse: P) -> (r:
        Option<StagedWork>)
        requires
            old(self).has_room(),
            forall|json: &str| #[trigger] call_requires(parse, (json,)),
        ensures
            exists|fields: Option<WorkFields>|
                {
                    &&& #[trigger] parsed_column(parse, line@, fields)
                    &&& match r {
                        Some(staged) => {
                            &&& Some(staged.row@) == work_row_of(line@, work_described(fields))
                            &&& ref_views(staged.refs@) == author_refs(
                                staged.row.open_library_id@,
                                work_described(fields)->0.author_keys,
                            )
                        },
                        None => work_row_of(line@, work_described(fields)) is None,
                    }
                    &&& *final(self) == old(self).after(r is Some)
                },
            r matches Some(staged) ==> is_base_slug(
                staged.row.base_slug@,
                staged.row.title@,
                staged.row.open_library_id@,
            ),
            r matches Some(staged) ==> title_fits(staged.row.title@),
    {
        let fields = match split_row(line) {
            Some((_, json)) => parse(json),
            None => None,
        };
        assert(parsed_column(parse, line@, fields));
        let work = match &fields {
            Some(fields) => Some(Work::from_fields(fields)),
            None => None,
        };
        self.scan_work(line, work)
    }

    pub open spec fn spec_progress(self) -> Option<Seq<char>> {
        if self.written % PROGRESS_STEP == 0 {
            Some(decimal(self.written as nat) + " rows"@)
        } else {
            None
        }
    }

    /// The progress message that is due after a row was staged.
    pub fn progress(&self) -> (r: Option<String>)
        ensures
            r.deep_view() == self.spec_progress(),
    {
        if self.written % PROGRESS_STEP == 0 {
            let mut r = u64_to_string(self.written);
            r.append(" rows");
            Some(r)
        } else {
            None
        }
    }

    pub open spec fn spec_summary(self) -> Seq<char> {
        if self.skipped > 0 {
            decimal(self.written as nat) + " rows"@ + " ("@ + decimal(self.skipped as nat)
                + " skipped)"@
        } else {
            decimal(self.written as nat) + " rows"@
        }
    }

    /// The message at the end of a scan.
    pub fn summary(&self) -> (r: String)
        ensures
            r@ == self.spec_summary(),
    {
        let mut r = u64_to_string(self.written);
        r.append(" rows");
        if self.skipped > 0 {
            r.append(" (");
            r.append(u64_to_string(self.skipped).as_str());
            r.append(" skipped)");
        }
        r
    }
}

// ---------------------------------------------------------------------------
// Editions
// ---------------------------------------------------------------------------

/// The languages whose editions are imported, as MARC codes.
pub open spec fn import_languages() -> Seq<Seq<char>> {
    seq!["eng"@, "fre"@, "spa"@, "ita"@]
}

/// Whether editions in a language are imported. A language is matched as the
/// edition's first one — the one stored in `editions.language`.
pub fn is_import_language(language: &str) -> (r: bool)
    ensures
        r == import_languages().contains(language@),
{
    let r = str_eq(language, "eng") || str_eq(language, "fre") || str_eq(language, "spa")
        || str_eq(language, "ita");
    proof {
        let all = import_languages();
        assert(all[0] == "eng"@ && all[1] == "fre"@ && all[2] == "spa"@ && all[3] == "ita"@);
        assert(all.len() == 4);
    }
    r
}

/// The text that names the languages in the summary of a scan.
pub const LANGUAGE_LIST: &'static str = "eng/fre/spa/ita";

/// The dev quality bar: a titled book from 1950 or later with a cover image.
pub open spec fn meets_dev_bar(e: EditionView, year: Option<i32>, max_year: i32) -> bool {
    &&& e.title is Some
    &&& e.covers.len() > 0
    &&& year matches Some(y) && DEV_MIN_YEAR <= y <= max_year
}

/// The dev quality bar: a titled book from [`DEV_MIN_YEAR`] or later with a
/// cover image. (A work reference is already required for all editions.)
pub fn dev_quality(e: &Edition, year: Option<i32>, max_year: i32) -> (r: bool)
    ensures
        r == meets_dev_bar(e@, year, max_year),
{
    e.title.is_some() && e.covers.len() > 0 && match year {
        Some(y) => DEV_MIN_YEAR <= y && y <= max_year,
        None => false,
    }
}

/// Edition slugs are `{isbn13|isbn10}-{slugged title}`, degrading to
/// whichever half exists, then to the open_library_id.
pub fn edition_base_slug(edition: &Edition, olid: &str) -> (r: String)
    ensures
        is_base_slug(r@, edition_source(edition@), olid@),
{
    let isbn: Option<&String> = if edition.isbn_13.len() > 0 {
        Some(&edition.isbn_13[0])
    } else if edition.isbn_10.len() > 0 {
        Some(&edition.isbn_10[0])
    } else {
        None
    };
    let text: String = match (isbn, &edition.title) {
        (Some(isbn), Some(title)) => {
            let mut text = isbn.clone();
            text.push(' ');
            text.append(title.as_str());
            assert(text@ =~= isbn@ + seq![' '] + title@);
            text
        },
        (Some(isbn), None) => isbn.clone(),
        (None, Some(title)) => title.clone(),
        (None, None) => String::new(),
    };
    base_slug(text.as_str(), olid)
}

/// The text that the slug of an edition is made from.
pub open spec fn edition_source(e: EditionView) -> Seq<char> {
    edition_slug_source(e.isbn_13, e.isbn_10, e.title)
}

/// What becomes of a line of the editions dump.
#[derive(Copy, Clone, PartialEq, Eq, Debug, Structural)]
pub enum Verdict {
    /// Dropped: too few columns, or malformed JSON.
    Malformed,
    /// Dropped: work_id is NOT NULL in the schema — orphan editions can't be
    /// kept.
    NoWork,
    /// Dropped: the first language is none of those that are imported, or there
    /// is no language.
    WrongLanguage,
    /// Dropped: a dev import, and the edition misses its quality bar.
    BelowBar,
    Staged,
}

/// What becomes of a line; `edition` is what its JSON describes.
pub open spec fn verdict_on(
    line: Seq<char>,
    edition: Option<EditionView>,
    dev: bool,
    max_year: i32,
) -> Verdict {
    match (columns_of(line), edition) {
        (Some(_), Some(e)) => if e.work_keys.len() == 0 {
            Verdict::NoWork
        } else if e.languages.len() == 0 || !import_languages().contains(e.languages[0]) {
            Verdict::WrongLanguage
        } else if dev && !meets_dev_bar(e, e.year(), max_year) {
            Verdict::BelowBar
        } else {
            Verdict::Staged
        },
        _ => Verdict::Malformed,
    }
}

/// The row of a line that is staged.
pub open spec fn edition_row_of(line: Seq<char>, e: EditionView) -> EditionRowView {
    let olid = last_segment(columns_of(line).unwrap().0, '/');
    EditionRowView {
        work_olid: e.work_keys[0],
        open_library_id: olid,
        base_slug: base_slug_text(edition_source(e), olid),
        title: e.title,
        subtitle: e.subtitle,
        asin: e.identifiers.amazon,
        cover_id: first_id(e.covers),
        format: e.physical_format,
        goodreads_id: e.identifiers.goodreads,
        google_books_id: e.identifiers.google,
        isbn10: first_of(e.isbn_10),
        isbn13: first_of(e.isbn_13),
        language: first_of(e.languages),
        page_count: e.number_of_pages,
        published_year: e.year(),
        publisher: first_of(e.publishers),
        series: first_of(e.series),
        edition_name: e.edition_name,
        internet_archive_id: e.ocaid,
    }
}

/// The state of a scan of the editions dump. The staged rows also decide which
/// works and authors are worth importing.
#[derive(Copy, Clone, PartialEq, Eq, Debug, Structural)]
pub struct EditionScan {
    /// Whether only editions that meet the quality bar are kept, up to
    /// [`DEV_LIMIT`].
    pub dev: bool,
    /// The last year that a dev import takes for plausible.
    pub max_year: i32,
    pub staged: u64,
    pub no_work: u64,
    pub wrong_language: u64,
    pub skipped: u64,
}

impl EditionScan {
    /// The state before the first line.
    pub open spec fn start(dev: bool, max_year: i32) -> EditionScan {
        EditionScan { dev, max_year, staged: 0, no_work: 0, wrong_language: 0, skipped: 0 }
    }

    pub fn new(dev: bool, current_year: i32) -> (r: EditionScan)
        requires
            current_year < i32::MAX,
        ensures
            r == EditionScan::start(dev, (current_year + 1) as i32),
    {
        EditionScan {
            dev,
            max_year: current_year + 1,
            staged: 0,
            no_work: 0,
            wrong_language: 0,
            skipped: 0,
        }
    }

    /// Whether the counts can take one more line.
    pub open spec fn has_room(self) -> bool {
        &&& self.staged < u64::MAX
        &&& self.no_work < u64::MAX
        &&& self.wrong_language < u64::MAX
        &&& self.skipped < u64::MAX
    }

    /// The state after a line.
    pub open spec fn after(self, verdict: Verdict) -> EditionScan {
        match verdict {
            Verdict::Malformed => EditionScan { skipped: (self.skipped + 1) as u64, ..self },
            Verdict::NoWork => EditionScan { no_work: (self.no_work + 1) as u64, ..self },
            Verdict::WrongLanguage => EditionScan {
                wrong_language: (self.wrong_language + 1) as u64,
                ..self
            },
            Verdict::BelowBar => self,
            Verdict::Staged => EditionScan { staged: (self.staged + 1) as u64, ..self },
        }
    }

    /// Whether a dev import has all the editions it takes.
    pub open spec fn full(self) -> bool {
        self.dev && self.staged >= DEV_LIMIT
    }

    /// Whether the scan is over, although there may be more lines.
    pub fn is_full(&self) -> (r: bool)
        ensures
            r == self.full(),
    {
        self.dev && self.staged >= DEV_LIMIT
    }

    /// Takes the next line of the editions dump. `edition` is what its JSON
    /// describes: `None` if it is malformed or the line has none.
    pub fn scan_edition(&mut self, line: &str, edition: Option<Edition>) -> (r: Option<EditionRow>)
        requires
            old(self).has_room(),
        ensures
            ({
                let verdict = verdict_on(
                    line@,
                    edition_view(edition),
                    old(self).dev,
                    old(self).max_year,
                );
                &&& r is Some <==> verdict == Verdict::Staged
                &&& r matches Some(row) ==> row@ == edition_row_of(line@, edition->0@)
                &&& r matches Some(row) ==> is_base_slug(
                    row.base_slug@,
                    edition_source(edition->0@),
                    row.open_library_id@,
                )
                &&& *final(self) == old(self).after(verdict)
            }),
            !old(self).full() && old(self).dev ==> final(self).staged <= DEV_LIMIT,
    {
        let (key, e) = match (split_row(line), edition) {
            (Some((key, _)), Some(e)) => (key, e),
            _ => {
                self.skipped += 1;
                return None;
            },
        };
        if e.work_keys.len() == 0 {
            self.no_work += 1;
            return None;
        }
        if e.languages.len() == 0 || !is_import_language(e.languages[0].as_str()) {
            self.wrong_language += 1;
            return None;
        }
        let year = e.publish_year();
        if self.dev && !dev_quality(&e, year, self.max_year) {
            return None;
        }
        let olid = short_key(key);
        let base_slug = edition_base_slug(&e, olid);
        self.staged += 1;
        Some(
            EditionRow {
                work_olid: e.work_keys[0].clone(),
                open_library_id: olid.to_owned(),
                base_slug,
                title: e.title,
                subtitle: e.subtitle,
                asin: e.identifiers.amazon,
                cover_id: first_image(&e.covers),
                format: e.physical_format,
                goodreads_id: e.identifiers.goodreads,
                google_books_id: e.identifiers.google,
                isbn10: first_string(&e.isbn_10),
                isbn13: first_string(&e.isbn_13),
                language: first_string(&e.languages),
                page_count: e.number_of_pages,
                published_year: year,
                publisher: first_string(&e.publishers),
                series: first_string(&e.series),
                edition_name: e.edition_name,
                internet_archive_id: e.ocaid,
            },
        )
    }

    /// Takes the next line of the editions dump; `parse` parses its JSON column, and
    /// gives `None` if that is malformed.
    pub fn edition_line<P: Fn(&str) -> Option<EditionFields>>(&mut self, line: &str, parse: P) -> (r:
        Option<EditionRow>)
        requires
            old(self).has_room(),
            forall|json: &str| #[trigger] call_requires(parse, (json,)),
        ensures
            exists|fields: Option<EditionFields>|
                {
                    &&& #[trigger] parsed_column(parse, line@, fields)
                    &&& ({
                        let verdict = verdict_on(
                            line@,
                            edition_described(fields),
                            old(self).dev,
                            old(self).max_year,
                        );
                        &&& r is Some <==> verdict == Verdict::Staged
                        &&& r matches Some(row) ==> row@ == edition_row_of(
                            line@,
                            edition_described(fields)->0,
                        )
                        &&& r matches Some(row) ==> is_base_slug(
                            row.base_slug@,
                            edition_source(edition_described(fields)->0),
                            row.open_library_id@,
                        )
                        &&& *final(self) == old(self).after(verdict)
                    })
                },
    {
        let fields = match split_row(line) {
            Some((_, json)) => parse(json),
            None => None,
        };
        assert(parsed_column(parse, line@, fields));
        let edition = match &fields {
            Some(fields) => Some(Edition::from_fields(fields)),
            None => None,
        };
        self.scan_edition(line, edition)
    }

    pub open spec fn spec_progress(self) -> Option<Seq<char>> {
        if self.staged % PROGRESS_STEP == 0 {
            Some(decimal(self.staged as nat) + " staged"@)
        } else {
            None
        }
    }

    /// The progress message that is due after a row was staged.
    pub fn progress(&self) -> (r: Option<String>)
        ensures
            r.deep_view() == self.spec_progress(),
    {
        if self.staged % PROGRESS_STEP == 0 {
            let mut r = u64_to_string(self.staged);
            r.append(" staged");
            Some(r)
        } else {
            None
        }
    }

    pub open spec fn spec_summary(self) -> Seq<char> {
        let counts = decimal(self.staged as nat) + " staged ("@ + decimal(self.no_work as nat)
            + " without a work dropped, "@ + decimal(self.wrong_language as nat) + " not in "@
            + LANGUAGE_LIST@ + ")"@;
        if self.skipped > 0 {
            counts + " ("@ + decimal(self.skipped as nat) + " malformed lines skipped)"@
        } else {
            counts
        }
    }

    /// The message at the end of a scan.
    pub fn summary(&self) -> (r: String)
        ensures
            r@ == self.spec_summary(),
    {
        let mut r = u64_to_string(self.staged);
        r.append(" staged (");
        r.append(u64_to_string(self.no_work).as_str());
        r.append(" without a work dropped, ");
        r.append(u64_to_string(self.wrong_language).as_str());
        r.append(" not in ");
        r.append(LANGUAGE_LIST);
        r.append(")");
        if self.skipped > 0 {
            r.append(" (");
            r.append(u64_to_string(self.skipped).as_str());
            r.append(" malformed lines skipped)");
        }
        r
    }
}

// ---------------------------------------------------------------------------
// Whole dumps
// ---------------------------------------------------------------------------

/// A line of the authors dump, with what its JSON describes.
pub struct AuthorLine {
    pub text: Seq<char>,
    pub author: Option<AuthorView>,
}

impl AuthorLine {
    /// The row of the line, if it is kept.
    pub open spec fn row(self) -> Option<AuthorRowView> {
        author_row_of(self.text, self.author)
    }
}

/// The counts after the lines of an authors dump.
pub open spec fn after_authors(lines: Seq<AuthorLine>) -> Scan
    decreases lines.len(),
{
    if lines.len() == 0 {
        Scan { written: 0, skipped: 0 }
    } else {
        after_authors(lines.drop_last()).after(lines.last().row() is Some)
    }
}

/// The rows that are staged of an authors dump, line by line.
pub open spec fn staged_authors(lines: Seq<AuthorLine>) -> Seq<AuthorRowView>
    decreases lines.len(),
{
    if lines.len() == 0 {
        Seq::empty()
    } else {
        let rows = staged_authors(lines.drop_last());
        match lines.last().row() {
            Some(row) => rows.push(row),
            None => rows,
        }
    }
}

/// The rows that are staged of an authors dump are, in dump order, those of the
/// lines that have one; they are counted as written, and the other lines as
/// skipped.
pub proof fn law_authors_are_staged_in_order(lines: Seq<AuthorLine>)
    requires
        lines.len() <= u64::MAX,
    ensures
        staged_authors(lines) == lines.filter(|line: AuthorLine| line.row() is Some).map_values(
            |line: AuthorLine| line.row()->0,
        ),
        after_authors(lines).written == staged_authors(lines).len(),
        after_authors(lines).skipped == lines.len() - staged_authors(lines).len(),
    decreases lines.len(),
{
    reveal(Seq::filter);
    let has_row = |line: AuthorLine| line.row() is Some;
    let row = |line: AuthorLine| line.row()->0;
    if lines.len() > 0 {
        let init = lines.drop_last();
        law_authors_are_staged_in_order(init);
        if has_row(lines.last()) {
            assert(init.filter(has_row).push(lines.last()).map_values(row) =~= init.filter(
                has_row,
            ).map_values(row).push(row(lines.last())));
        }
    } else {
        assert(lines.filter(has_row).map_values(row) =~= Seq::empty());
    }
}

/// A line of the works dump, with what its JSON describes.
pub struct WorkLine {
    pub text: Seq<char>,
    pub work: Option<WorkView>,
}

impl WorkLine {
    /// The row of the line, if it is kept.
    pub open spec fn row(self) -> Option<WorkRowView> {
        work_row_of(self.text, self.work)
    }

    /// The links of the line, if it is kept.
    pub open spec fn links(self) -> Seq<AuthorRefView> {
        author_refs(self.row()->0.open_library_id, self.work->0.author_keys)
    }
}

/// The counts after the lines of a works dump.
pub open spec fn after_works(lines: Seq<WorkLine>) -> Scan
    decreases lines.len(),
{
    if lines.len() == 0 {
        Scan { written: 0, skipped: 0 }
    } else {
        after_works(lines.drop_last()).after(lines.last().row() is Some)
    }
}

/// The rows that are staged of a works dump, line by line.
pub open spec fn staged_works(lines: Seq<WorkLine>) -> Seq<WorkRowView>
    decreases lines.len(),
{
    if lines.len() == 0 {
        Seq::empty()
    } else {
        let rows = staged_works(lines.drop_last());
        match lines.last().row() {
            Some(row) => rows.push(row),
            None => rows,
        }
    }
}

/// The links that are staged of a works dump, line by line.
pub open spec fn staged_links(lines: Seq<WorkLine>) -> Seq<AuthorRefView>
    decreases lines.len(),
{
    if lines.len() == 0 {
        Seq::empty()
    } else {
        let links = staged_links(lines.drop_last());
        if lines.last().row() is Some {
            links + lines.last().links()
        } else {
            links
        }
    }
}

/// The rows that are staged of a works dump are, in dump order, those of the lines
/// that have one, and the links are those of these lines, one after the other; the
/// rows are counted as written, and the other lines as skipped.
pub proof fn law_works_are_staged_in_order(lines: Seq<WorkLine>)
    requires
        lines.len() <= u64::MAX,
    ensures
        ({
            let kept = lines.filter(|line: WorkLine| line.row() is Some);
            &&& staged_works(lines) == kept.map_values(|line: WorkLine| line.row()->0)
            &&& staged_links(lines) == kept.map_values(|line: WorkLine| line.links()).flatten()
        }),
        after_works(lines).written == staged_works(lines).len(),
        after_works(lines).skipped == lines.len() - staged_works(lines).len(),
    decreases lines.len(),
{
    reveal(Seq::filter);
    let has_row = |line: WorkLine| line.row() is Some;
    let row = |line: WorkLine| line.row()->0;
    let links = |line: WorkLine| line.links();
    if lines.len() > 0 {
        let init = lines.drop_last();
        let last = lines.last();
        law_works_are_staged_in_order(init);
        if has_row(last) {
            let before = init.filter(has_row);
            assert(before.push(last).map_values(row) =~= before.map_values(row).push(row(last)));
            assert(before.push(last).map_values(links) =~= before.map_values(links).push(
                links(last),
            ));
            before.map_values(links).lemma_flatten_push(links(last));
        }
    } else {
        assert(lines.filter(has_row).map_values(row) =~= Seq::empty());
        assert(lines.filter(has_row).map_values(links) =~= Seq::empty());
    }
}

impl EditionScan {
    /// The state after some more lines.
    pub open spec fn after_all(self, verdicts: Seq<Verdict>) -> EditionScan
        decreases verdicts.len(),
    {
        if verdicts.len() == 0 {
            self
        } else {
            self.after_all(verdicts.drop_last()).after(verdicts.last())
        }
    }

    /// The number of lines that were counted.
    pub open spec fn counted(self) -> int {
        self.staged + self.no_work + self.wrong_language + self.skipped
    }
}

/// Every line of the editions dump is counted, once, except for those that miss
/// the dev quality bar.
pub proof fn law_every_edition_line_is_counted(start: EditionScan, verdicts: Seq<Verdict>)
    requires
        start.counted() + verdicts.len() <= u64::MAX,
    ensures
        start.after_all(verdicts).counted() == start.counted() + verdicts.filter(
            |v: Verdict| v != Verdict::BelowBar,
        ).len(),
        start.after_all(verdicts).counted() <= start.counted() + verdicts.len(),
    decreases verdicts.len(),
{
    reveal(Seq::filter);
    if verdicts.len() > 0 {
        law_every_edition_line_is_counted(start, verdicts.drop_last());
    }
}

/// Every edition that is staged names its work, and its first language is one
/// of those that are imported.
pub proof fn law_staged_editions_are_linked(
    line: Seq<char>,
    edition: Option<EditionView>,
    dev: bool,
    max_year: i32,
)
    requires
        verdict_on(line, edition, dev, max_year) == Verdict::Staged,
    ensures
        edition is Some,
        columns_of(line) is Some,
        edition->0.work_keys.len() > 0,
        edition->0.languages.len() > 0,
        import_languages().contains(edition->0.languages[0]),
        edition_row_of(line, edition->0).work_olid == edition->0.work_keys[0],
        edition_row_of(line, edition->0).language == Some(edition->0.languages[0]),
{
}

/// Every edition that a dev import stages has a title, a cover image, and a
/// publish year from 1950 on.
pub proof fn law_dev_editions_meet_the_bar(
    line: Seq<char>,
    edition: Option<EditionView>,
    max_year: i32,
)
    requires
        verdict_on(line, edition, true, max_year) == Verdict::Staged,
    ensures
        edition_row_of(line, edition->0).title is Some,
        edition_row_of(line, edition->0).cover_id is Some,
        edition_row_of(line, edition->0).published_year matches Some(y) && 1950 <= y <= max_year,
{
}

/// A dev import stages a line exactly if a full import stages it and the edition
/// meets the quality bar.
pub proof fn law_dev_stages_what_meets_the_bar(
    line: Seq<char>,
    edition: Option<EditionView>,
    max_year: i32,
)
    ensures
        verdict_on(line, edition, true, max_year) == Verdict::Staged <==> verdict_on(
            line,
            edition,
            false,
            max_year,
        ) == Verdict::Staged && meets_dev_bar(edition->0, edition->0.year(), max_year),
{
}

/// A line of the editions dump, with what its JSON describes.
pub struct EditionLine {
    pub text: Seq<char>,
    pub edition: Option<EditionView>,
}

impl EditionLine {
    /// Whether the edition meets the dev quality bar.
    pub open spec fn meets_bar(self, max_year: i32) -> bool {
        self.edition matches Some(e) && meets_dev_bar(e, e.year(), max_year)
    }

    /// The row of the line, if it is staged.
    pub open spec fn row(self) -> EditionRowView {
        edition_row_of(self.text, self.edition->0)
    }
}

impl EditionScan {
    /// What becomes of the next line.
    pub open spec fn verdict(self, line: EditionLine) -> Verdict {
        verdict_on(line.text, line.edition, self.dev, self.max_year)
    }

    /// The state after the lines of a dump; a scan that is full takes no more.
    pub open spec fn after_dump(self, lines: Seq<EditionLine>) -> EditionScan
        decreases lines.len(),
    {
        if lines.len() == 0 {
            self
        } else {
            let scan = self.after_dump(lines.drop_last());
            if scan.full() {
                scan
            } else {
                scan.after(scan.verdict(lines.last()))
            }
        }
    }

    /// The lines of a dump that are staged, in order.
    pub open spec fn staged_lines(self, lines: Seq<EditionLine>) -> Seq<EditionLine>
        decreases lines.len(),
    {
        if lines.len() == 0 {
            Seq::empty()
        } else {
            let scan = self.after_dump(lines.drop_last());
            let staged = self.staged_lines(lines.drop_last());
            if !scan.full() && scan.verdict(lines.last()) == Verdict::Staged {
                staged.push(lines.last())
            } else {
                staged
            }
        }
    }

    /// The rows that are staged of a dump, in order.
    pub open spec fn staged_rows(self, lines: Seq<EditionLine>) -> Seq<EditionRowView> {
        self.staged_lines(lines).map_values(|line: EditionLine| line.row())
    }
}

/// The count of staged editions is the number of rows that were staged.
pub proof fn law_staged_rows_are_counted(dev: bool, max_year: i32, lines: Seq<EditionLine>)
    requires
        dev || lines.len() <= u64::MAX,
    ensures
        ({
            let start = EditionScan::start(dev, max_year);
            &&& start.after_dump(lines).dev == dev
            &&& start.after_dump(lines).max_year == max_year
            &&& start.after_dump(lines).staged == start.staged_rows(lines).len()
            &&& start.staged_rows(lines).len() <= lines.len()
            &&& dev ==> start.staged_rows(lines).len() <= DEV_LIMIT
        }),
    decreases lines.len(),
{
    if lines.len() > 0 {
        law_staged_rows_are_counted(dev, max_year, lines.drop_last());
    }
}

/// A full import stages every line that is not dropped, in dump order.
pub proof fn law_full_import_stages_every_kept_line(max_year: i32, lines: Seq<EditionLine>)
    ensures
        ({
            let start = EditionScan::start(false, max_year);
            &&& !start.after_dump(lines).dev
            &&& start.after_dump(lines).max_year == max_year
            &&& start.staged_lines(lines) == lines.filter(
                |line: EditionLine| start.verdict(line) == Verdict::Staged,
            )
        }),
    decreases lines.len(),
{
    reveal(Seq::filter);
    if lines.len() > 0 {
        law_full_import_stages_every_kept_line(max_year, lines.drop_last());
    }
}

/// The editions of a full import that meet the dev quality bar, in dump order.
pub open spec fn good_lines(max_year: i32, lines: Seq<EditionLine>) -> Seq<EditionLine> {
    EditionScan::start(false, max_year).staged_lines(lines).filter(
        |line: EditionLine| line.meets_bar(max_year),
    )
}

/// Of the editions that a full import stages and that meet the quality bar, a dev
/// import stages the first ones in dump order, in the same rows: up to the limit,
/// and all of them if they are no more than that.
pub proof fn law_dev_import_stages_the_first_good_editions(
    max_year: i32,
    lines: Seq<EditionLine>,
)
    ensures
        ({
            let dev = EditionScan::start(true, max_year);
            let good = good_lines(max_year, lines);
            let rows = good.map_values(|line: EditionLine| line.row());
            let n = dev.after_dump(lines).staged as int;
            &&& n <= DEV_LIMIT
            &&& n <= good.len()
            &&& dev.staged_lines(lines) == good.take(n)
            &&& dev.staged_rows(lines) == rows.take(n)
            &&& n < DEV_LIMIT ==> n == good.len() && dev.staged_rows(lines) == rows
        }),
    decreases lines.len(),
{
    reveal(Seq::filter);
    let dev = EditionScan::start(true, max_year);
    let good = good_lines(max_year, lines);
    law_staged_rows_are_counted(true, max_year, lines);
    if lines.len() > 0 {
        let init = lines.drop_last();
        let line = lines.last();
        let before = good_lines(max_year, init);
        law_staged_rows_are_counted(true, max_year, init);
        law_dev_import_stages_the_first_good_editions(max_year, init);
        law_full_import_stages_every_kept_line(max_year, init);
        law_dev_stages_what_meets_the_bar(line.text, line.edition, max_year);
        let full = EditionScan::start(false, max_year);
        let kept = full.staged_lines(init);
        if full.verdict(line) == Verdict::Staged {
            assert(full.staged_lines(lines) == kept.push(line));
            assert(kept.push(line).drop_last() =~= kept);
        }
        assert(good == if full.verdict(line) == Verdict::Staged && line.meets_bar(max_year) {
            before.push(line)
        } else {
            before
        });
        let n = dev.after_dump(init).staged as int;
        assert(before.push(line).take(n) =~= before.take(n));
        assert(n == before.len() ==> before.push(line).take(n + 1) =~= before.push(line));
    }
    let n = dev.after_dump(lines).staged as int;
    let rows = good.map_values(|line: EditionLine| line.row());
    assert(dev.staged_lines(lines) =~= good.take(n));
    assert(dev.staged_rows(lines) =~= rows.take(n));
    assert(n == good.len() ==> rows.take(n) =~= rows);
}

// ---------------------------------------------------------------------------
// Records that may be missing
// ---------------------------------------------------------------------------

/// Whether `fields` is what `parse` made of the JSON column of a line: nothing
/// where the line has none.
pub open spec fn parsed_column<T, P: Fn(&str) -> Option<T>>(
    parse: P,
    line: Seq<char>,
    fields: Option<T>,
) -> bool {
    match columns_of(line) {
        Some((_, json)) => exists|text: &str|
            text@ == json && #[trigger] call_ensures(parse, (text,), fields),
        None => fields is None,
    }
}

/// The author that the fields of a record describe, if it could be parsed.
pub open spec fn author_described(fields: Option<AuthorFields>) -> Option<AuthorView> {
    match fields {
        Some(fields) => Some(author_of(fields)),
        None => None,
    }
}

/// The work that the fields of a record describe, if it could be parsed.
pub open spec fn work_described(fields: Option<WorkFields>) -> Option<WorkView> {
    match fields {
        Some(fields) => Some(work_of(fields)),
        None => None,
    }
}

/// The edition that the fields of a record describe, if it could be parsed.
pub open spec fn edition_described(fields: Option<EditionFields>) -> Option<EditionView> {
    match fields {
        Some(fields) => Some(edition_of(fields)),
        None => None,
    }
}

/// What is known of an author that may be missing.
pub open spec fn author_view(author: Option<Author>) -> Option<AuthorView> {
    match author {
        Some(author) => Some(author@),
        None => None,
    }
}

/// What is known of a work that may be missing.
pub open spec fn work_view(work: Option<Work>) -> Option<WorkView> {
    match work {
        Some(work) => Some(work@),
        None => None,
    }
}

/// What is known of an edition that may be missing.
pub open spec fn edition_view(edition: Option<Edition>) -> Option<EditionView> {
    match edition {
        Some(edition) => Some(edition@),
        None => None,
    }
}

} // verus!
