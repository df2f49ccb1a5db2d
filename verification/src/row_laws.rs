//! What becomes of a dump line, in terms of the line and of what its JSON describes.

use vstd::prelude::*;

use crate::model::{first_year, AuthorView, EditionView, WorkView};
use crate::number::decimal;
use crate::outside::lowercased;
use crate::record_laws::{
    ends_path, four_digits_at, law_keys_are_shortened, law_year_comes_from_the_date, number_at,
};
use crate::scan::{
    author_refs, author_row_of, columns_of, edition_row_of, edition_source, import_languages,
    law_line_round_trip, law_titles_fit, title_fits, verdict_on, work_row_of, AuthorRef,
    AuthorRow, EditionRow, EditionScan, Scan, Verdict, WorkRow,
};
use crate::slug::slug_text;
use crate::text::{
    last_segment, lemma_position, lemma_trim_end_exists, position, trim_end_of, CharClass,
};

verus! {

// ---------------------------------------------------------------------------
// Lines
// ---------------------------------------------------------------------------

/// Whether `s` has nothing but line ends.
pub open spec fn line_ends(s: Seq<char>) -> bool {
    forall|i: int| 0 <= i < s.len() ==> #[trigger] s[i] == '\n' || s[i] == '\r'
}

/// The columns of a dump line, with tabs between, and line ends behind.
pub open spec fn line_text(
    kind: Seq<char>,
    key: Seq<char>,
    revision: Seq<char>,
    modified: Seq<char>,
    json: Seq<char>,
    end: Seq<char>,
) -> Seq<char> {
    kind + seq!['\t'] + key + seq!['\t'] + revision + seq!['\t'] + modified + seq!['\t'] + json
        + end
}

/// Whether a line has this key as its second column and this JSON as its fifth.
pub open spec fn holds(line: Seq<char>, key: Seq<char>, json: Seq<char>) -> bool {
    &&& !key.contains('\t')
    &&& json.len() > 0 ==> json.last() != '\n' && json.last() != '\r'
    &&& exists|kind: Seq<char>, revision: Seq<char>, modified: Seq<char>, end: Seq<char>|
        !kind.contains('\t') && !revision.contains('\t') && !modified.contains('\t') && line_ends(
            end,
        ) && line == #[trigger] line_text(kind, key, revision, modified, json, end)
}

/// The key and the JSON of a line are its second and its fifth column, and only a line
/// with five columns has them.
pub proof fn law_columns_of_a_line(line: Seq<char>, key: Seq<char>, json: Seq<char>)
    ensures
        columns_of(line) == Some((key, json)) <==> holds(line, key, json),
{
    if columns_of(line) == Some((key, json)) {
        let end = lemma_trim_end_exists(line, CharClass::LineEnd);
        let s = trim_end_of(line, CharClass::LineEnd);
        let t1 = position(s, '\t', 0);
        lemma_position(s, '\t', 0);
        let t2 = position(s, '\t', t1 + 1);
        if t1 < s.len() {
            lemma_position(s, '\t', t1 + 1);
        }
        let t3 = position(s, '\t', t2 + 1);
        if t2 < s.len() {
            lemma_position(s, '\t', t2 + 1);
        }
        let t4 = position(s, '\t', t3 + 1);
        if t3 < s.len() {
            lemma_position(s, '\t', t3 + 1);
        }
        let kind = s.subrange(0, t1);
        let revision = s.subrange(t2 + 1, t3);
        let modified = s.subrange(t3 + 1, t4);
        let tail = line.skip(end);
        assert forall|i: int| 0 <= i < kind.len() implies kind[i] != '\t' by {
            assert(s[i] != '\t');
        }
        assert forall|i: int| 0 <= i < key.len() implies key[i] != '\t' by {
            assert(s[t1 + 1 + i] != '\t');
        }
        assert forall|i: int| 0 <= i < revision.len() implies revision[i] != '\t' by {
            assert(s[t2 + 1 + i] != '\t');
        }
        assert forall|i: int| 0 <= i < modified.len() implies modified[i] != '\t' by {
            assert(s[t3 + 1 + i] != '\t');
        }
        assert forall|i: int| 0 <= i < tail.len() implies #[trigger] tail[i] == '\n' || tail[i]
            == '\r' by {
            assert(CharClass::LineEnd.has(line[end + i]));
        }
        if json.len() > 0 {
            assert(json.last() == s[s.len() - 1]);
            assert(s[s.len() - 1] == line[end - 1]);
            assert(!CharClass::LineEnd.has(line[end - 1]));
        }
        assert(line =~= line_text(kind, key, revision, modified, json, tail));
        assert(line_ends(tail));
    }
    if holds(line, key, json) {
        let (kind, revision, modified, end) = choose|
            kind: Seq<char>,
            revision: Seq<char>,
            modified: Seq<char>,
            end: Seq<char>,
        |
            !kind.contains('\t') && !revision.contains('\t') && !modified.contains('\t')
                && line_ends(end) && line == #[trigger] line_text(
                kind,
                key,
                revision,
                modified,
                json,
                end,
            );
        law_line_round_trip(kind, key, revision, modified, json, end);
    }
}

/// Whether a line has this short key.
pub open spec fn has_key(line: Seq<char>, olid: Seq<char>) -> bool {
    exists|key: Seq<char>, json: Seq<char>| #[trigger]
        holds(line, key, json) && ends_path(key, olid)
}

/// Whether a line has all its columns.
pub open spec fn is_whole(line: Seq<char>) -> bool {
    exists|key: Seq<char>, json: Seq<char>| holds(line, key, json)
}

proof fn lemma_line(line: Seq<char>)
    ensures
        is_whole(line) <==> columns_of(line) is Some,
        forall|olid: Seq<char>| #[trigger]
            has_key(line, olid) ==> columns_of(line) is Some && last_segment(
                columns_of(line).unwrap().0,
                '/',
            ) == olid,
        columns_of(line) matches Some(c) ==> has_key(line, last_segment(c.0, '/')),
{
    if let Some((key, json)) = columns_of(line) {
        law_columns_of_a_line(line, key, json);
        law_keys_are_shortened(key, last_segment(key, '/'));
        assert(holds(line, key, json));
    }
    if is_whole(line) {
        let (key, json) = choose|key: Seq<char>, json: Seq<char>| holds(line, key, json);
        law_columns_of_a_line(line, key, json);
    }
    assert forall|olid: Seq<char>| #[trigger] has_key(line, olid) implies columns_of(line) is Some
        && last_segment(columns_of(line).unwrap().0, '/') == olid by {
        let (key, json) = choose|key: Seq<char>, json: Seq<char>| #[trigger]
            holds(line, key, json) && ends_path(key, olid);
        law_columns_of_a_line(line, key, json);
        law_keys_are_shortened(key, olid);
    }
}

// ---------------------------------------------------------------------------
// Parts of rows
// ---------------------------------------------------------------------------

/// Whether `o` is the first of `ids` in decimal, if there is any.
pub open spec fn is_first_id(o: Option<Seq<char>>, ids: Seq<i32>) -> bool {
    &&& ids.len() == 0 ==> o is None
    &&& ids.len() > 0 && ids[0] >= 0 ==> o == Some(decimal(ids[0] as nat))
    &&& ids.len() > 0 && ids[0] < 0 ==> o == Some(seq!['-'] + decimal((-ids[0]) as nat))
}

/// Whether `o` is the first of `texts`, if there is any.
pub open spec fn is_first_text(o: Option<Seq<char>>, texts: Seq<Seq<char>>) -> bool {
    &&& texts.len() == 0 ==> o is None
    &&& texts.len() > 0 ==> o == Some(texts[0])
}

/// Whether `o` is the first number in 1000..=2100 that four digits stand alone for in
/// the date, if there is a date and such a number.
pub open spec fn is_year_of(o: Option<i32>, date: Option<Seq<char>>) -> bool {
    match date {
        Some(s) => is_year_in(o, s),
        None => o is None,
    }
}

pub open spec fn is_year_in(o: Option<i32>, s: Seq<char>) -> bool {
    match o {
        Some(y) => exists|i: int|
            {
                &&& #[trigger] four_digits_at(s, i)
                &&& number_at(s, i) == y
                &&& 1000 <= y <= 2100
                &&& forall|j: int|
                    j < i && #[trigger] four_digits_at(s, j) ==> !(1000 <= number_at(s, j) <= 2100)
            },
        None => forall|i: int| #[trigger]
            four_digits_at(s, i) ==> !(1000 <= number_at(s, i) <= 2100),
    }
}

// ---------------------------------------------------------------------------
// Authors
// ---------------------------------------------------------------------------

/// A line of the authors dump is kept exactly if it has all its columns, its JSON can be
/// read, and the author has a name or a personal name.
pub proof fn law_named_authors_are_kept(line: Seq<char>, author: Option<AuthorView>)
    ensures
        author_row_of(line, author) is Some <==> is_whole(line) && author is Some && (
        author->0.name is Some || author->0.personal_name is Some),
{
    lemma_line(line);
}

/// A staged author has the short key of the line, the author's name (else the personal
/// name), and the author's own biography, dates and first photo.
pub proof fn law_author_row(line: Seq<char>, a: AuthorView, olid: Seq<char>)
    requires
        has_key(line, olid),
    ensures
        a.name is Some ==> author_row_of(line, Some(a)) is Some && author_row_of(
            line,
            Some(a),
        )->0.name == a.name->0,
        a.name is None && a.personal_name is Some ==> author_row_of(line, Some(a)) is Some
            && author_row_of(line, Some(a))->0.name == a.personal_name->0,
        author_row_of(line, Some(a)) matches Some(row) ==> {
            &&& row.open_library_id == olid
            &&& row.bio == a.bio
            &&& row.birth_date == a.birth_date
            &&& row.death_date == a.death_date
            &&& is_first_id(row.photo_id, a.photos)
            &&& slug_text(row.name).len() > 0 ==> row.base_slug == slug_text(row.name)
            &&& slug_text(row.name).len() == 0 ==> row.base_slug == lowercased(olid)
        },
{
    lemma_line(line);
}

// ---------------------------------------------------------------------------
// Works
// ---------------------------------------------------------------------------

/// A line of the works dump is kept exactly if it has all its columns, its JSON can be
/// read, and the work has a title.
pub proof fn law_titled_works_are_kept(line: Seq<char>, work: Option<WorkView>)
    ensures
        work_row_of(line, work) is Some <==> is_whole(line) && work is Some && work->0.title is Some,
{
    lemma_line(line);
}

/// A staged work has the short key of the line, the work's own subtitle, description,
/// date and subjects, the year of that date, the first cover, and as its title the
/// longest prefix of the work's title that has at most 1000 characters and takes at
/// most 2692 bytes.
pub proof fn law_work_row(line: Seq<char>, w: WorkView, olid: Seq<char>)
    requires
        has_key(line, olid),
    ensures
        work_row_of(line, Some(w)) matches Some(row) ==> {
            let title = w.title->0;
            &&& row.open_library_id == olid
            &&& row.title == title.take(row.title.len() as int)
            &&& row.title.len() <= title.len()
            &&& row.title.len() <= 1000
            &&& vstd::utf8::encode_utf8(row.title).len() <= 2692
            &&& row.title.len() == title.len() || row.title.len() == 1000
                || vstd::utf8::encode_utf8(title.take(row.title.len() as int + 1)).len() > 2692
            &&& row.subtitle == w.subtitle
            &&& row.description == w.description
            &&& row.first_publish_date == w.first_publish_date
            &&& is_year_of(row.first_publish_year, w.first_publish_date)
            &&& is_first_id(row.cover_id, w.covers)
            &&& row.subjects == w.subjects
            &&& slug_text(row.title).len() > 0 ==> row.base_slug == slug_text(row.title)
            &&& slug_text(row.title).len() == 0 ==> row.base_slug == lowercased(olid)
        },
{
    lemma_line(line);
    if work_row_of(line, Some(w)) is Some {
        law_titles_fit(line, Some(w));
        let title = w.title->0;
        let row = work_row_of(line, Some(w))->0;
        let n = row.title.len() as int;
        assert(title.take(n) =~= row.title);
        if n < title.len() {
            assert(!title_fits(title.take(n + 1)));
        }
        if let Some(date) = w.first_publish_date {
            law_year_comes_from_the_date(date);
        }
    }
}

/// A work has one link to each of its authors, in their order and numbered from 0.
pub proof fn law_links_of_a_work(olid: Seq<char>, author_keys: Seq<Seq<char>>, i: int)
    requires
        0 <= i < author_keys.len(),
    ensures
        author_refs(olid, author_keys).len() == author_keys.len(),
        author_refs(olid, author_keys)[i].work_olid == olid,
        author_refs(olid, author_keys)[i].author_olid == author_keys[i],
        i <= i32::MAX ==> author_refs(olid, author_keys)[i].position == i,
{
}

// ---------------------------------------------------------------------------
// Editions
// ---------------------------------------------------------------------------

/// Whether editions in a language are wanted.
pub open spec fn wanted_language(l: Seq<char>) -> bool {
    l == "eng"@ || l == "fre"@ || l == "spa"@ || l == "ita"@
}

/// Whether an edition is good enough for a dev import: it has a title, a cover, and a
/// publish year from 1950 to `max_year`.
pub open spec fn good(e: EditionView, max_year: int) -> bool {
    &&& e.title is Some
    &&& e.covers.len() > 0
    &&& exists|y: i32| #[trigger]
        is_year_of(Some(y), e.publish_date) && 1950 <= y <= max_year
}

/// What is taken for the year of a date is its year.
pub proof fn law_year_of_a_date(date: Seq<char>)
    ensures
        is_year_of(first_year(date, 0), Some(date)),
{
    law_year_comes_from_the_date(date);
}

proof fn lemma_edition_year(e: EditionView)
    ensures
        is_year_of(e.year(), e.publish_date),
{
    if let Some(date) = e.publish_date {
        law_year_comes_from_the_date(date);
    }
}

proof fn lemma_year_unique(a: Option<i32>, b: Option<i32>, date: Option<Seq<char>>)
    requires
        is_year_of(a, date),
        is_year_of(b, date),
    ensures
        a == b,
{
    if let (Some(x), Some(y), Some(s)) = (a, b, date) {
        let i = choose|i: int|
            {
                &&& #[trigger] four_digits_at(s, i)
                &&& number_at(s, i) == x
                &&& 1000 <= x <= 2100
                &&& forall|j: int|
                    j < i && #[trigger] four_digits_at(s, j) ==> !(1000 <= number_at(s, j) <= 2100)
            };
        let k = choose|i: int|
            {
                &&& #[trigger] four_digits_at(s, i)
                &&& number_at(s, i) == y
                &&& 1000 <= y <= 2100
                &&& forall|j: int|
                    j < i && #[trigger] four_digits_at(s, j) ==> !(1000 <= number_at(s, j) <= 2100)
            };
        assert(four_digits_at(s, i) && four_digits_at(s, k));
        assert(i == k);
    }
}

/// An edition is dropped as malformed where the line or its JSON is, then for want of a
/// work, then for its first language, then, in a dev import, where it is not good
/// enough; all others are staged.
pub proof fn law_verdicts(line: Seq<char>, edition: Option<EditionView>, dev: bool, max_year: i32)
    ensures
        ({
            let verdict = verdict_on(line, edition, dev, max_year);
            let e = edition->0;
            let read = is_whole(line) && edition is Some;
            let linked = read && e.work_keys.len() > 0;
            let worded = linked && e.languages.len() > 0 && wanted_language(e.languages[0]);
            &&& verdict == Verdict::Malformed <==> !read
            &&& verdict == Verdict::NoWork <==> read && !linked
            &&& verdict == Verdict::WrongLanguage <==> linked && !worded
            &&& verdict == Verdict::BelowBar <==> worded && dev && !good(e, max_year as int)
            &&& verdict == Verdict::Staged <==> worded && (dev ==> good(e, max_year as int))
        }),
{
    lemma_line(line);
    if let Some(e) = edition {
        lemma_edition_year(e);
        let all = import_languages();
        assert(all[0] == "eng"@ && all[1] == "fre"@ && all[2] == "spa"@ && all[3] == "ita"@);
        assert(e.languages.len() > 0 ==> (all.contains(e.languages[0]) <==> wanted_language(
            e.languages[0],
        )));
        if good(e, max_year as int) {
            let y = choose|y: i32| #[trigger]
                is_year_of(Some(y), e.publish_date) && 1950 <= y <= max_year;
            lemma_year_unique(Some(y), e.year(), e.publish_date);
        }
        if let Some(y) = e.year() {
            assert(is_year_of(Some(y), e.publish_date));
        }
    }
}

/// A staged edition has the short key of the line, its first work, and its own fields,
/// each in the column that is named for it; of lists it has the first entry.
pub proof fn law_edition_row(line: Seq<char>, e: EditionView, olid: Seq<char>)
    requires
        has_key(line, olid),
        e.work_keys.len() > 0,
    ensures
        ({
            let row = edition_row_of(line, e);
            &&& row.work_olid == e.work_keys[0]
            &&& row.open_library_id == olid
            &&& row.title == e.title
            &&& row.subtitle == e.subtitle
            &&& row.asin == e.identifiers.amazon
            &&& is_first_id(row.cover_id, e.covers)
            &&& row.format == e.physical_format
            &&& row.goodreads_id == e.identifiers.goodreads
            &&& row.google_books_id == e.identifiers.google
            &&& is_first_text(row.isbn10, e.isbn_10)
            &&& is_first_text(row.isbn13, e.isbn_13)
            &&& is_first_text(row.language, e.languages)
            &&& row.page_count == e.number_of_pages
            &&& is_year_of(row.published_year, e.publish_date)
            &&& is_first_text(row.publisher, e.publishers)
            &&& is_first_text(row.series, e.series)
            &&& row.edition_name == e.edition_name
            &&& row.internet_archive_id == e.ocaid
        }),
{
    lemma_line(line);
    lemma_edition_year(e);
}

/// Whether `text` is what the slug of an edition is made from: the first ISBN, of those
/// with 13 digits if there is any, and the title, with a space between.
pub open spec fn names_edition(text: Seq<char>, e: EditionView) -> bool {
    let isbn = if e.isbn_13.len() > 0 {
        e.isbn_13[0]
    } else {
        e.isbn_10[0]
    };
    if e.isbn_13.len() == 0 && e.isbn_10.len() == 0 {
        match e.title {
            Some(title) => text == title,
            None => text.len() == 0,
        }
    } else {
        match e.title {
            Some(title) => text == isbn + seq![' '] + title,
            None => text == isbn,
        }
    }
}

/// The slug of an edition is made from its ISBN and its title, or from the one that there
/// is; where nothing of them is left, it is the short key.
pub proof fn law_edition_slug(line: Seq<char>, e: EditionView, olid: Seq<char>, text: Seq<char>)
    requires
        has_key(line, olid),
        names_edition(text, e),
    ensures
        slug_text(text).len() > 0 ==> edition_row_of(line, e).base_slug == slug_text(text),
        slug_text(text).len() == 0 ==> edition_row_of(line, e).base_slug == lowercased(olid),
{
    lemma_line(line);
    assert(edition_source(e) =~= text);
}

// ---------------------------------------------------------------------------
// Counts and messages
// ---------------------------------------------------------------------------

/// A kept line adds one to the rows, any other one to the lines that were skipped.
pub proof fn law_lines_add_one(scan: Scan)
    requires
        scan.has_room(),
    ensures
        scan.after(true).written == scan.written + 1,
        scan.after(true).skipped == scan.skipped,
        scan.after(false).written == scan.written,
        scan.after(false).skipped == scan.skipped + 1,
{
}

/// An edition adds one to the count of what became of it, and to no other; one that is
/// not good enough is not counted.
pub proof fn law_verdicts_add_one(scan: EditionScan, verdict: Verdict)
    requires
        scan.has_room(),
    ensures
        ({
            let next = scan.after(verdict);
            &&& next.dev == scan.dev
            &&& next.max_year == scan.max_year
            &&& next.staged == scan.staged + if verdict == Verdict::Staged { 1int } else { 0 }
            &&& next.no_work == scan.no_work + if verdict == Verdict::NoWork { 1int } else { 0 }
            &&& next.wrong_language == scan.wrong_language + if verdict == Verdict::WrongLanguage {
                1int
            } else {
                0
            }
            &&& next.skipped == scan.skipped + if verdict == Verdict::Malformed { 1int } else { 0 }
        }),
{
}

/// A scan of editions starts with nothing counted; only a dev scan is ever full, and that
/// with its 200,000th edition.
pub proof fn law_full_scans(scan: EditionScan, dev: bool, max_year: i32)
    ensures
        scan.full() <==> scan.dev && scan.staged >= 200_000,
        EditionScan::start(dev, max_year).dev == dev,
        EditionScan::start(dev, max_year).max_year == max_year,
        EditionScan::start(dev, max_year).staged == 0,
        EditionScan::start(dev, max_year).no_work == 0,
        EditionScan::start(dev, max_year).wrong_language == 0,
        EditionScan::start(dev, max_year).skipped == 0,
{
}

/// Progress is told at every 8192nd row; the summary tells the rows, and the lines that
/// were dropped where there are any.
pub proof fn law_scan_messages(scan: Scan)
    ensures
        scan.spec_progress() == if scan.written % 8192 == 0 {
            Some(decimal(scan.written as nat) + " rows"@)
        } else {
            None
        },
        scan.skipped == 0 ==> scan.spec_summary() == decimal(scan.written as nat) + " rows"@,
        scan.skipped > 0 ==> scan.spec_summary() =~= decimal(scan.written as nat) + " rows ("@
            + decimal(scan.skipped as nat) + " skipped)"@,
{
    reveal_strlit(" rows");
    reveal_strlit(" (");
    reveal_strlit(" rows (");
}

pub proof fn law_edition_scan_messages(scan: EditionScan)
    ensures
        scan.spec_progress() == if scan.staged % 8192 == 0 {
            Some(decimal(scan.staged as nat) + " staged"@)
        } else {
            None
        },
        ({
            let told = decimal(scan.staged as nat) + " staged ("@ + decimal(scan.no_work as nat)
                + " without a work dropped, "@ + decimal(scan.wrong_language as nat)
                + " not in eng/fre/spa/ita)"@;
            &&& scan.skipped == 0 ==> scan.spec_summary() =~= told
            &&& scan.skipped > 0 ==> scan.spec_summary() =~= told + " ("@ + decimal(
                scan.skipped as nat,
            ) + " malformed lines skipped)"@
        }),
{
    reveal_strlit(" not in ");
    reveal_strlit("eng/fre/spa/ita");
    reveal_strlit(")");
    reveal_strlit(" not in eng/fre/spa/ita)");
    let a = " not in "@ + "eng/fre/spa/ita"@ + ")"@;
    assert(a =~= " not in eng/fre/spa/ita)"@);
}

// ---------------------------------------------------------------------------
// Contents
// ---------------------------------------------------------------------------

/// The contents of a row are its fields, each under its own name.
pub proof fn law_contents_of_rows(a: AuthorRow, w: WorkRow, l: AuthorRef, e: EditionRow)
    ensures
        a@.open_library_id == a.open_library_id@,
        a@.base_slug == a.base_slug@,
        a@.name == a.name@,
        a@.bio == a.bio.deep_view(),
        a@.birth_date == a.birth_date.deep_view(),
        a@.death_date == a.death_date.deep_view(),
        a@.photo_id == a.photo_id.deep_view(),
        w@.open_library_id == w.open_library_id@,
        w@.base_slug == w.base_slug@,
        w@.title == w.title@,
        w@.subtitle == w.subtitle.deep_view(),
        w@.description == w.description.deep_view(),
        w@.first_publish_date == w.first_publish_date.deep_view(),
        w@.first_publish_year == w.first_publish_year,
        w@.cover_id == w.cover_id.deep_view(),
        w@.subjects == w.subjects.deep_view(),
        l@.work_olid == l.work_olid@,
        l@.author_olid == l.author_olid@,
        l@.position == l.position,
        e@.work_olid == e.work_olid@,
        e@.open_library_id == e.open_library_id@,
        e@.base_slug == e.base_slug@,
        e@.title == e.title.deep_view(),
        e@.subtitle == e.subtitle.deep_view(),
        e@.asin == e.asin.deep_view(),
        e@.cover_id == e.cover_id.deep_view(),
        e@.format == e.format.deep_view(),
        e@.goodreads_id == e.goodreads_id.deep_view(),
        e@.google_books_id == e.google_books_id.deep_view(),
        e@.isbn10 == e.isbn10.deep_view(),
        e@.isbn13 == e.isbn13.deep_view(),
        e@.language == e.language.deep_view(),
        e@.page_count == e.page_count,
        e@.published_year == e.published_year,
        e@.publisher == e.publisher.deep_view(),
        e@.series == e.series.deep_view(),
        e@.edition_name == e.edition_name.deep_view(),
        e@.internet_archive_id == e.internet_archive_id.deep_view(),
{
}

} // verus!
