//! What each operation returns or changes, for all of its inputs, in plain terms: `r` is
//! any result that the operation may return.

use vstd::prelude::*;

use crate::download::{
    failure_report, range_header, resume_offset, take_reply, types_to_download, BadDate, Reply,
    ReplyError, Source,
};
use crate::dump::DumpType;
use crate::import::{
    dev_announcement, emptiness_sql, find_dump, import_plan, index_label, insert_label,
    recount_editions, recount_works, update_label, FileEntry, ImportError, Staging, Step, Table,
};
use crate::import_laws::{law_dump_entries, law_newest_dump, offers, word_for};
use crate::json::Json;
use crate::model::{
    author_of, author_role_keys, edition_of, extract_year, identifiers, int_array,
    key_ref_array, lenient_int, lenient_string, ref_key, short_key, string_array, text_or_value,
    value_to_string, work_of, Author, AuthorFields, Edition, EditionFields, Identifiers, Work,
    WorkFields,
};
use crate::number::{decimal, i32_to_string, u64_to_string};
use crate::outside::{all_below, ascii_lowered, lowercased, transliterated};
use crate::record_laws::{
    collects, credit_reading, describes, ends_path, first_member, gives, image_reading,
    is_description_of, is_id_of, is_text_of, law_author_fields, law_edition_fields,
    law_identifiers, law_images_of_an_array, law_integers_are_read, law_keys_are_shortened,
    law_members_are_found, law_references_are_read, law_references_of_an_array,
    law_text_objects_are_read, law_texts_are_read, law_texts_of_an_array, law_work_fields,
    law_year_comes_from_the_date, names, reference_reading, says, text_reading,
};
use crate::row_laws::{
    good, has_key, holds, is_first_id, is_first_text, is_whole, is_year_of, law_author_row,
    law_columns_of_a_line, law_edition_row, law_edition_slug, law_links_of_a_work,
    law_named_authors_are_kept, law_titled_works_are_kept, law_verdicts, law_work_row,
    law_year_of_a_date, names_edition, wanted_language,
};
use crate::scan::{
    clamp_chars, clamp_title, dev_quality, edition_base_slug, is_import_language, split_row,
    AuthorRow, EditionRow, EditionScan, Scan, StagedWork,
};
use crate::schema::{
    all_indexes, create_indexes, create_tables, drop_secondary_indexes, index_views,
    lemma_picked, DDL, Index, IndexView, Pick, TablePlan,
};
use crate::slug::{base_slug, collapse, slug_text, slugify};
use crate::slug_laws::{are_words, cut, joined, law_slug_joins_the_words, spread};
use crate::source_laws::{law_archive_url, law_latest_url, slashes};
use crate::sql::{insert_authors_sql, insert_editions_sql, insert_works_sql};
use crate::sql_laws::{
    author_columns, edition_columns, insert_head, law_inserts_fill_each_column, listed,
    selected, work_columns,
};
use crate::text::has_prefix;

verus! {

// ---------------------------------------------------------------------------
// Reading records
// ---------------------------------------------------------------------------

/// A key is shortened to its last segment.
pub proof fn law_short_key_op(key: &str, r: &str)
    requires
        call_ensures(short_key, (key,), r),
    ensures
        ends_path(key@, r@),
{
    law_keys_are_shortened(key@, r@);
}

/// The year of a date is the first number in 1000..=2100 that four digits stand alone for.
pub proof fn law_extract_year_op(date: &str, r: Option<i32>)
    requires
        call_ensures(extract_year, (date,), r),
    ensures
        is_year_of(r, Some(date@)),
{
    law_year_of_a_date(date@);
}

/// The member of an object is the first one of that name.
pub proof fn law_get_op(v: &Json, key: &str, r: Option<&Json>, k: int)
    requires
        call_ensures(Json::get, (v, key), r),
    ensures
        *v is Object && first_member((*v)->Object_0@, key@, k) ==> r is Some && *(r->0)
            == (*v)->Object_0@[k].1,
        r is Some ==> *v is Object && exists|i: int| #[trigger]
            first_member((*v)->Object_0@, key@, i) && *(r->0) == (*v)->Object_0@[i].1,
{
    law_members_are_found(*v, key@, k);
}

/// A text is read from a string or a number, and from nothing else.
pub proof fn law_text_ops(v: &Json, r: Option<String>)
    ensures
        call_ensures(value_to_string, (v,), r) ==> is_text_of(r.deep_view(), *v),
        call_ensures(lenient_string, (v,), r) ==> is_text_of(r.deep_view(), *v),
        call_ensures(text_or_value, (v,), r) ==> is_description_of(r.deep_view(), *v),
{
    assert forall|t: Seq<char>|
        crate::model::value_text(*v) == Some(t) <==> #[trigger] says(*v, t) by {
        law_texts_are_read(*v, t);
    }
    assert forall|t: Seq<char>|
        crate::model::text_or_value_of(*v) == Some(t) <==> #[trigger] describes(*v, t) by {
        law_text_objects_are_read(*v, t);
    }
}

/// An integer is read from a number or a numeral.
pub proof fn law_lenient_int_op(v: &Json, r: Option<i32>)
    requires
        call_ensures(lenient_int, (v,), r),
    ensures
        forall|n: i32| r == Some(n) <==> #[trigger] gives(*v, n as int),
{
    assert forall|n: i32| r == Some(n) <==> #[trigger] gives(*v, n as int) by {
        law_integers_are_read(*v, n);
    }
}

/// Of an array, what can be read is kept in order.
pub proof fn law_array_ops(v: &Json, texts: Vec<String>, ids: Vec<i32>)
    ensures
        call_ensures(string_array, (v,), texts) ==> collects(*v, text_reading(), texts.deep_view()),
        call_ensures(key_ref_array, (v,), texts) ==> collects(
            *v,
            reference_reading(),
            texts.deep_view(),
        ),
        call_ensures(author_role_keys, (v,), texts) ==> collects(
            *v,
            credit_reading(),
            texts.deep_view(),
        ),
        call_ensures(int_array, (v,), ids) ==> collects(*v, image_reading(), ids@),
{
    law_texts_of_an_array(*v);
    law_references_of_an_array(*v);
    law_images_of_an_array(*v);
}

/// A reference is a path, or an object with a reference under `key`.
pub proof fn law_ref_key_op(v: &Json, r: Option<String>)
    requires
        call_ensures(ref_key, (v,), r),
    ensures
        forall|k: Seq<char>| r.deep_view() == Some(k) <==> #[trigger] names(*v, k),
{
    assert forall|k: Seq<char>| r.deep_view() == Some(k) <==> #[trigger] names(*v, k) by {
        law_references_are_read(*v, k);
    }
}

/// The external ids are those under their own names.
pub proof fn law_identifiers_op(v: &Json, r: Identifiers)
    requires
        call_ensures(identifiers, (v,), r),
    ensures
        is_id_of(r.amazon.deep_view(), *v, "amazon"@),
        is_id_of(r.goodreads.deep_view(), *v, "goodreads"@),
        is_id_of(r.google.deep_view(), *v, "google"@),
{
    law_identifiers(*v);
}

/// Each field of an author is read from the field of the record that has its name.
pub proof fn law_author_from_fields(f: &AuthorFields, r: Author)
    requires
        call_ensures(Author::from_fields, (f,), r),
    ensures
        is_text_of(r.name.deep_view(), f.name),
        is_text_of(r.personal_name.deep_view(), f.personal_name),
        is_text_of(r.birth_date.deep_view(), f.birth_date),
        is_text_of(r.death_date.deep_view(), f.death_date),
        is_description_of(r.bio.deep_view(), f.bio),
        collects(f.photos, image_reading(), r.photos@),
{
    law_author_fields(*f);
    assert(r@ == author_of(*f));
}

/// Each field of a work is read from the field of the record that has its name.
pub proof fn law_work_from_fields(f: &WorkFields, r: Work)
    requires
        call_ensures(Work::from_fields, (f,), r),
    ensures
        is_text_of(r.title.deep_view(), f.title),
        is_text_of(r.subtitle.deep_view(), f.subtitle),
        is_description_of(r.description.deep_view(), f.description),
        is_text_of(r.first_publish_date.deep_view(), f.first_publish_date),
        collects(f.covers, image_reading(), r.covers@),
        collects(f.subjects, text_reading(), r.subjects.deep_view()),
        collects(f.author_keys, credit_reading(), r.author_keys.deep_view()),
{
    law_work_fields(*f);
    assert(r@ == work_of(*f));
}

/// Each field of an edition is read from the field of the record that has its name.
pub proof fn law_edition_from_fields(f: &EditionFields, r: Edition)
    requires
        call_ensures(Edition::from_fields, (f,), r),
    ensures
        is_text_of(r.title.deep_view(), f.title),
        is_text_of(r.subtitle.deep_view(), f.subtitle),
        collects(f.work_keys, reference_reading(), r.work_keys.deep_view()),
        collects(f.publishers, text_reading(), r.publishers.deep_view()),
        is_text_of(r.publish_date.deep_view(), f.publish_date),
        forall|n: i32| r.number_of_pages == Some(n) <==> #[trigger] gives(f.number_of_pages, n as int),
        collects(f.isbn_10, text_reading(), r.isbn_10.deep_view()),
        collects(f.isbn_13, text_reading(), r.isbn_13.deep_view()),
        collects(f.covers, image_reading(), r.covers@),
        collects(f.languages, reference_reading(), r.languages.deep_view()),
        is_text_of(r.physical_format.deep_view(), f.physical_format),
        collects(f.series, text_reading(), r.series.deep_view()),
        is_text_of(r.edition_name.deep_view(), f.edition_name),
        is_text_of(r.ocaid.deep_view(), f.ocaid),
        is_id_of(r.identifiers.amazon.deep_view(), f.identifiers, "amazon"@),
        is_id_of(r.identifiers.goodreads.deep_view(), f.identifiers, "goodreads"@),
        is_id_of(r.identifiers.google.deep_view(), f.identifiers, "google"@),
{
    law_edition_fields(*f);
    assert(r@ == edition_of(*f));
}

/// The publish year of an edition is that of its publish date.
pub proof fn law_publish_year_op(e: &Edition, r: Option<i32>)
    requires
        call_ensures(Edition::publish_year, (e,), r),
    ensures
        is_year_of(r, e.publish_date.deep_view()),
{
    if let Some(date) = e.publish_date {
        law_year_comes_from_the_date(date@);
    }
}

// ---------------------------------------------------------------------------
// Slugs
// ---------------------------------------------------------------------------

/// A slug is made of the words of a text.
pub proof fn law_collapse_op(text: &str, r: String, words: Seq<Seq<char>>, gaps: Seq<Seq<char>>)
    requires
        call_ensures(collapse, (text,), r),
        are_words(words, gaps),
        text@ == spread(words, gaps),
    ensures
        r@ == cut(joined(words)),
{
    law_slug_joins_the_words(words, gaps);
}

/// The slug of a text is made of the words of its transliteration in lower case; of plain
/// ASCII text, of its own words in lower case.
pub proof fn law_slugify_op(text: &str, r: String, words: Seq<Seq<char>>, gaps: Seq<Seq<char>>)
    requires
        call_ensures(slugify, (text,), r),
        are_words(words, gaps),
    ensures
        lowercased(transliterated(text@)) == spread(words, gaps) ==> r@ == cut(joined(words)),
        all_below(text@, 127) && ascii_lowered(text@) == spread(words, gaps) ==> r@ == cut(
            joined(words),
        ),
        forall|i: int|
            0 <= i < r@.len() ==> '0' <= #[trigger] r@[i] <= '9' || 'a' <= r@[i] <= 'z' || r@[i]
                == '-',
{
    law_slug_joins_the_words(words, gaps);
}

/// A record goes by the slug of its text, or by its short key in lower case where the text
/// has none.
pub proof fn law_base_slug_op(text: &str, olid: &str, r: String)
    requires
        call_ensures(base_slug, (text, olid), r),
    ensures
        slug_text(text@).len() > 0 ==> r@ == slug_text(text@),
        slug_text(text@).len() == 0 ==> r@ == lowercased(olid@),
{
}

/// An edition goes by its ISBN and its title.
pub proof fn law_edition_base_slug_op(e: &Edition, olid: &str, r: String, text: Seq<char>)
    requires
        call_ensures(edition_base_slug, (e, olid), r),
        names_edition(text, e@),
    ensures
        slug_text(text).len() > 0 ==> r@ == slug_text(text),
        slug_text(text).len() == 0 ==> r@ == lowercased(olid@),
{
    assert(crate::scan::edition_source(e@) =~= text);
}

// ---------------------------------------------------------------------------
// Staging
// ---------------------------------------------------------------------------

/// A line is split into its second and its fifth column, if it has five.
pub proof fn law_split_row_op(line: &str, r: Option<(&str, &str)>, key: Seq<char>, json: Seq<char>)
    requires
        call_ensures(split_row, (line,), r),
    ensures
        r.deep_view() == Some((key, json)) <==> holds(line@, key, json),
{
    law_columns_of_a_line(line@, key, json);
}

/// A text is cut to its first characters where it has more.
pub proof fn law_clamp_chars_op(s: String, max: usize, r: String)
    requires
        call_ensures(clamp_chars, (s, max), r),
    ensures
        s@.len() <= max ==> r@ == s@,
        s@.len() > max ==> r@ == s@.subrange(0, max as int),
{
    assert(s@.len() > max ==> s@.take(max as int) =~= s@.subrange(0, max as int));
}

/// A title is cut to the longest prefix that has at most 1000 characters and takes at most
/// 2692 bytes.
pub proof fn law_clamp_title_op(s: String, r: String)
    requires
        call_ensures(clamp_title, (s,), r),
    ensures
        r@.len() <= s@.len(),
        r@ =~= s@.take(r@.len() as int),
        r@.len() <= 1000,
        vstd::utf8::encode_utf8(r@).len() <= 2692,
        r@.len() == s@.len() || r@.len() == 1000 || vstd::utf8::encode_utf8(
            s@.take(r@.len() as int + 1),
        ).len() > 2692,
{
    let n = r@.len() as int;
    if n < s@.len() {
        assert(!crate::scan::title_fits(s@.take(n + 1)));
    }
}

/// A staged author carries the line's short key and the author's own fields, and adds one
/// to the rows; any other line adds one to those that were skipped.
pub proof fn law_scan_author_op(
    scan: &mut Scan,
    line: &str,
    author: Option<Author>,
    r: Option<AuthorRow>,
    olid: Seq<char>,
)
    requires
        old(scan).has_room(),
        call_ensures(Scan::scan_author, (scan, line, author), r),
    ensures
        r is Some <==> is_whole(line@) && author is Some && (author->0.name is Some
            || author->0.personal_name is Some),
        r is Some && has_key(line@, olid) ==> {
            let row = r->0;
            let a = author->0;
            &&& row.open_library_id@ == olid
            &&& a.name is Some ==> row.name@ == a.name->0@
            &&& a.name is None ==> row.name@ == a.personal_name->0@
            &&& row.bio.deep_view() == a.bio.deep_view()
            &&& row.birth_date.deep_view() == a.birth_date.deep_view()
            &&& row.death_date.deep_view() == a.death_date.deep_view()
            &&& is_first_id(row.photo_id.deep_view(), a.photos@)
            &&& slug_text(row.name@).len() > 0 ==> row.base_slug@ == slug_text(row.name@)
            &&& slug_text(row.name@).len() == 0 ==> row.base_slug@ == lowercased(olid)
        },
        final(scan).written == old(scan).written + if r is Some { 1int } else { 0 },
        final(scan).skipped == old(scan).skipped + if r is Some { 0int } else { 1 },
{
    law_named_authors_are_kept(line@, crate::scan::author_view(author));
    if r is Some && has_key(line@, olid) {
        law_author_row(line@, author->0@, olid);
        let row = r->0;
        assert(row@.name == row.name@);
        assert(author->0@.name == author->0.name.deep_view());
    }
}

/// A staged work carries the line's short key and the work's own fields, with one link to
/// each of its authors.
pub proof fn law_scan_work_op(
    scan: &mut Scan,
    line: &str,
    work: Option<Work>,
    r: Option<StagedWork>,
    olid: Seq<char>,
)
    requires
        old(scan).has_room(),
        call_ensures(Scan::scan_work, (scan, line, work), r),
    ensures
        r is Some <==> is_whole(line@) && work is Some && work->0.title is Some,
        r is Some && has_key(line@, olid) ==> {
            let row = r->0.row;
            let w = work->0;
            let title = w.title->0@;
            &&& row.open_library_id@ == olid
            &&& row.title@.len() <= title.len()
            &&& row.title@ =~= title.take(row.title@.len() as int)
            &&& row.title@.len() == title.len() || row.title@.len() == 1000
                || vstd::utf8::encode_utf8(title.take(row.title@.len() as int + 1)).len() > 2692
            &&& row.title@.len() <= 1000 && vstd::utf8::encode_utf8(row.title@).len() <= 2692
            &&& row.subtitle.deep_view() == w.subtitle.deep_view()
            &&& row.description.deep_view() == w.description.deep_view()
            &&& row.first_publish_date.deep_view() == w.first_publish_date.deep_view()
            &&& is_year_of(row.first_publish_year, w.first_publish_date.deep_view())
            &&& is_first_id(row.cover_id.deep_view(), w.covers@)
            &&& row.subjects.deep_view() == w.subjects.deep_view()
            &&& slug_text(row.title@).len() > 0 ==> row.base_slug@ == slug_text(row.title@)
            &&& slug_text(row.title@).len() == 0 ==> row.base_slug@ == lowercased(olid)
            &&& r->0.refs@.len() == w.author_keys@.len()
            &&& forall|i: int|
                0 <= i < r->0.refs@.len() ==> (#[trigger] r->0.refs@[i]).work_olid@ == olid
                    && r->0.refs@[i].author_olid@ == w.author_keys@[i]@ && (i <= i32::MAX
                    ==> r->0.refs@[i].position == i)
        },
        final(scan).written == old(scan).written + if r is Some { 1int } else { 0 },
        final(scan).skipped == old(scan).skipped + if r is Some { 0int } else { 1 },
{
    law_titled_works_are_kept(line@, crate::scan::work_view(work));
    if r is Some && has_key(line@, olid) {
        let w = work->0;
        law_work_row(line@, w@, olid);
        let row = r->0.row;
        assert(row@.title == row.title@);
        let refs = r->0.refs@;
        let views = crate::scan::ref_views(refs);
        assert(views.len() == refs.len());
        assert(w.author_keys.deep_view().len() == w.author_keys@.len());
        assert forall|i: int| 0 <= i < refs.len() implies (#[trigger] refs[i]).work_olid@ == olid
            && refs[i].author_olid@ == w.author_keys@[i]@ && (i <= i32::MAX ==> refs[i].position
            == i) by {
            assert(views[i] == refs[i]@);
            law_links_of_a_work(olid, w.author_keys.deep_view(), i);
            assert(w.author_keys.deep_view()[i] == w.author_keys@[i]@);
        }
    }
}

/// A staged edition carries the line's short key and the edition's own fields; a line that
/// is dropped is counted by the first reason that there is.
pub proof fn law_scan_edition_op(
    scan: &mut EditionScan,
    line: &str,
    edition: Option<Edition>,
    r: Option<EditionRow>,
    olid: Seq<char>,
    text: Seq<char>,
)
    requires
        old(scan).has_room(),
        call_ensures(EditionScan::scan_edition, (scan, line, edition), r),
    ensures
        ({
            let e = edition->0;
            let read = is_whole(line@) && edition is Some;
            let linked = read && e.work_keys@.len() > 0;
            let worded = linked && e.languages@.len() > 0 && wanted_language(e.languages@[0]@);
            let one = |b: bool| if b { 1int } else { 0int };
            &&& r is Some <==> worded && (old(scan).dev ==> good(e@, old(scan).max_year as int))
            &&& final(scan).staged == old(scan).staged + one(r is Some)
            &&& final(scan).skipped == old(scan).skipped + one(!read)
            &&& final(scan).no_work == old(scan).no_work + one(read && !linked)
            &&& final(scan).wrong_language == old(scan).wrong_language + one(linked && !worded)
            &&& final(scan).dev == old(scan).dev
            &&& final(scan).max_year == old(scan).max_year
        }),
        r is Some && has_key(line@, olid) ==> {
            let row = r->0;
            let e = edition->0;
            &&& row.work_olid@ == e.work_keys@[0]@
            &&& row.open_library_id@ == olid
            &&& row.title.deep_view() == e.title.deep_view()
            &&& row.subtitle.deep_view() == e.subtitle.deep_view()
            &&& row.asin.deep_view() == e.identifiers.amazon.deep_view()
            &&& is_first_id(row.cover_id.deep_view(), e.covers@)
            &&& row.format.deep_view() == e.physical_format.deep_view()
            &&& row.goodreads_id.deep_view() == e.identifiers.goodreads.deep_view()
            &&& row.google_books_id.deep_view() == e.identifiers.google.deep_view()
            &&& is_first_text(row.isbn10.deep_view(), e.isbn_10.deep_view())
            &&& is_first_text(row.isbn13.deep_view(), e.isbn_13.deep_view())
            &&& is_first_text(row.language.deep_view(), e.languages.deep_view())
            &&& row.page_count == e.number_of_pages
            &&& is_year_of(row.published_year, e.publish_date.deep_view())
            &&& is_first_text(row.publisher.deep_view(), e.publishers.deep_view())
            &&& is_first_text(row.series.deep_view(), e.series.deep_view())
            &&& row.edition_name.deep_view() == e.edition_name.deep_view()
            &&& row.internet_archive_id.deep_view() == e.ocaid.deep_view()
            &&& names_edition(text, e@) && slug_text(text).len() > 0 ==> row.base_slug@ == slug_text(
                text,
            )
            &&& names_edition(text, e@) && slug_text(text).len() == 0 ==> row.base_slug@
                == lowercased(olid)
        },
{
    law_verdicts(line@, crate::scan::edition_view(edition), old(scan).dev, old(scan).max_year);
    if edition is Some {
        let e = edition->0;
        assert(e@.work_keys.len() == e.work_keys@.len());
        assert(e@.languages.len() == e.languages@.len());
        if e.work_keys@.len() > 0 {
            assert(e@.work_keys[0] == e.work_keys@[0]@);
        }
        if e.languages@.len() > 0 {
            assert(e@.languages[0] == e.languages@[0]@);
        }
    }
    if r is Some && has_key(line@, olid) {
        let e = edition->0;
        law_edition_row(line@, e@, olid);
        if names_edition(text, e@) {
            law_edition_slug(line@, e@, olid, text);
        }
        let row = r->0;
        assert(row@.work_olid == row.work_olid@);
    }
}

/// Scans start with nothing counted; a dev scan takes years up to the next one, and is full
/// with its 200,000th edition.
pub proof fn law_scan_starts(
    scan: Scan,
    dev: bool,
    current_year: i32,
    editions: EditionScan,
    full: bool,
)
    ensures
        call_ensures(Scan::new, (), scan) ==> scan.written == 0 && scan.skipped == 0,
        call_ensures(EditionScan::new, (dev, current_year), editions) && current_year < i32::MAX
            ==> editions.dev == dev && editions.max_year == current_year + 1 && editions.staged == 0
            && editions.no_work == 0 && editions.wrong_language == 0 && editions.skipped == 0,
        call_ensures(EditionScan::is_full, (&editions,), full) ==> (full <==> editions.dev
            && editions.staged >= 200_000),
{
}

/// The quality bar and the languages of an import.
pub proof fn law_choice_ops(e: &Edition, year: Option<i32>, max_year: i32, l: &str, r: bool)
    ensures
        call_ensures(dev_quality, (e, year, max_year), r) ==> (r <==> e.title is Some
            && e.covers@.len() > 0 && year is Some && 1950 <= year->0 <= max_year),
        call_ensures(is_import_language, (l,), r) ==> (r <==> wanted_language(l@)),
{
    crate::import_laws::law_import_languages(l@);
}

/// The messages of a scan tell its counts.
pub proof fn law_scan_message_ops(
    scan: &Scan,
    editions: &EditionScan,
    progress: Option<String>,
    summary: String,
)
    ensures
        call_ensures(Scan::progress, (scan,), progress) ==> progress.deep_view() == (if scan.written
            % 8192 == 0 {
            Some(decimal(scan.written as nat) + " rows"@)
        } else {
            None
        }),
        call_ensures(Scan::summary, (scan,), summary) ==> summary@ =~= decimal(scan.written as nat)
            + " rows"@ + if scan.skipped > 0 {
            " ("@ + decimal(scan.skipped as nat) + " skipped)"@
        } else {
            Seq::empty()
        },
        call_ensures(EditionScan::progress, (editions,), progress) ==> progress.deep_view() == (
        if editions.staged % 8192 == 0 {
            Some(decimal(editions.staged as nat) + " staged"@)
        } else {
            None
        }),
        call_ensures(EditionScan::summary, (editions,), summary) ==> summary@ =~= decimal(
            editions.staged as nat,
        ) + " staged ("@ + decimal(editions.no_work as nat) + " without a work dropped, "@ + decimal(
            editions.wrong_language as nat,
        ) + " not in "@ + "eng/fre/spa/ita"@ + ")"@ + if editions.skipped > 0 {
            " ("@ + decimal(editions.skipped as nat) + " malformed lines skipped)"@
        } else {
            Seq::empty()
        },
{
}

// ---------------------------------------------------------------------------
// Downloading
// ---------------------------------------------------------------------------

/// The names of dumps and of their files.
pub proof fn law_name_ops(dump: DumpType, date: &str, name: &'static str, r: String)
    ensures
        call_ensures(DumpType::name, (dump,), name) ==> name@ == word_for(dump),
        call_ensures(DumpType::filename, (dump,), r) ==> r@ == "ol_dump_"@ + word_for(dump)
            + "_latest.txt.gz"@,
        call_ensures(DumpType::dated_filename, (dump, date), r) ==> r@ == "ol_dump_"@ + word_for(
            dump,
        ) + "_"@ + date@ + ".txt.gz"@,
{
}

/// The latest dump comes from openlibrary.org, or from the base that is set.
pub proof fn law_latest_url_op(
    dump: DumpType,
    latest: Option<&str>,
    archive: Option<&str>,
    r: String,
    base: Seq<char>,
    end: Seq<char>,
)
    requires
        call_ensures(Source::url, (&Source::Latest, dump, latest, archive), r) || call_ensures(
            DumpType::url,
            (dump, latest),
            r,
        ),
        slashes(end),
        base.len() > 0 ==> base.last() != '/',
    ensures
        latest is None ==> r@ =~= "https://openlibrary.org/data/ol_dump_"@ + word_for(dump)
            + "_latest.txt.gz"@,
        latest is Some && latest->0@ == base + end ==> r@ =~= base + "/ol_dump_"@ + word_for(dump)
            + "_latest.txt.gz"@,
{
    law_latest_url(dump, archive.deep_view(), base, end);
    reveal_strlit("https://openlibrary.org/data/ol_dump_");
    reveal_strlit("https://openlibrary.org/data/");
    reveal_strlit("ol_dump_");
    reveal_strlit("/ol_dump_");
    assert(Source::Latest.spec_url(dump, latest.deep_view(), archive.deep_view()) == r@);
    assert(Source::Latest.spec_filename(dump) == "ol_dump_"@ + word_for(dump) + "_latest.txt.gz"@);
}

/// A dated dump comes from the item of its date on archive.org, or from the base that is
/// set.
pub proof fn law_archive_url_op(
    dump: DumpType,
    date: String,
    latest: Option<&str>,
    archive: Option<&str>,
    r: String,
    base: Seq<char>,
    end: Seq<char>,
)
    requires
        call_ensures(Source::url, (&Source::Archive { date }, dump, latest, archive), r),
        slashes(end),
        base.len() > 0 ==> base.last() != '/',
    ensures
        ({
            let name = "ol_dump_"@ + word_for(dump) + "_"@ + date@ + ".txt.gz"@;
            let item = "ol_dump_"@ + date@ + seq!['/'] + name;
            &&& archive is None ==> r@ == "https://archive.org/download/"@ + item
            &&& archive is Some && archive->0@ == base + end ==> r@ == base + seq!['/'] + item
        }),
{
    law_archive_url(dump, date, latest.deep_view(), base, end);
    let source = Source::Archive { date };
    assert(source.spec_url(dump, latest.deep_view(), archive.deep_view()) == r@);
    assert(source.spec_filename(dump) == "ol_dump_"@ + word_for(dump) + "_"@ + date@ + ".txt.gz"@);
}

/// What is saved under which name, and what is announced.
pub proof fn law_source_ops(dump: DumpType, date: String, dir: &str, r: String)
    ensures
        call_ensures(Source::filename, (&Source::Latest, dump), r) ==> r@ == "ol_dump_"@ + word_for(
            dump,
        ) + "_latest.txt.gz"@,
        call_ensures(Source::filename, (&Source::Archive { date }, dump), r) ==> r@ == "ol_dump_"@
            + word_for(dump) + "_"@ + date@ + ".txt.gz"@,
        call_ensures(Source::announcement, (&Source::Latest, dir), r) ==> r@
            == "Downloading latest Open Library dumps to "@ + dir@,
        call_ensures(Source::announcement, (&Source::Archive { date }, dir), r) ==> r@
            == "Downloading Open Library dumps for "@ + date@ + " from archive.org to "@ + dir@,
{
}

/// A date is taken or handed back.
pub proof fn law_dated_op(date: String, is_date: bool, r: Result<Source, BadDate>)
    requires
        call_ensures(Source::dated, (date, is_date), r),
    ensures
        is_date ==> r == Ok::<Source, BadDate>(Source::Archive { date }),
        !is_date ==> r == Err::<Source, BadDate>(BadDate { date }),
{
}

/// What is fetched, and from where on.
pub proof fn law_resume_ops(
    only: Option<DumpType>,
    types: Vec<DumpType>,
    force: bool,
    on_disk: Option<u64>,
    n: u64,
    header: Option<String>,
)
    ensures
        call_ensures(types_to_download, (only,), types) ==> types@ == match only {
            Some(t) => seq![t],
            None => seq![DumpType::Authors, DumpType::Works, DumpType::Editions],
        },
        call_ensures(resume_offset, (force, on_disk), n) ==> n == if force || on_disk is None {
            0
        } else {
            on_disk->0
        },
        call_ensures(range_header, (n,), header) ==> header.deep_view() == (if n == 0 {
            None
        } else {
            Some("bytes="@ + decimal(n as nat) + "-"@)
        }),
{
}

/// What a status means for the file on disk.
pub proof fn law_take_reply_op(
    status: u16,
    existing: u64,
    range: Option<&str>,
    length: Option<&str>,
    r: Result<Reply, ReplyError>,
)
    requires
        call_ensures(take_reply, (status, existing, range, length), r),
    ensures
        status == 416 ==> r == Ok::<Reply, ReplyError>(Reply::AlreadyDownloaded { size: existing }),
        status == 200 ==> r is Ok && r->Ok_0 is Transfer && r->Ok_0->offset == 0 && r->Ok_0->truncate
            && !r->Ok_0->append,
        status == 206 ==> r is Err || r->Ok_0 is Transfer && r->Ok_0->offset == existing
            && r->Ok_0->truncate == (existing == 0) && r->Ok_0->append == (existing > 0),
        status == 206 && range is None ==> r == Err::<Reply, ReplyError>(
            ReplyError::MissingContentRange,
        ),
        status != 200 && status != 206 && status != 416 ==> r == Err::<Reply, ReplyError>(
            ReplyError::UnexpectedStatus,
        ),
        forall|total: u64, before: Seq<char>|
            status == 206 && range is Some && range->0@ == #[trigger] (before + seq!['/'] + decimal(
                total as nat,
            )) ==> r is Ok && r->Ok_0->total == total,
        forall|total: u64|
            status == 200 && length is Some && length->0@ == #[trigger] decimal(total as nat)
                ==> r->Ok_0->total == total,
        status == 200 && length is None ==> r->Ok_0->total == 0,
{
    assert forall|total: u64, before: Seq<char>|
        status == 206 && range is Some && range->0@ == #[trigger] (before + seq!['/'] + decimal(
            total as nat,
        )) implies r is Ok && r->Ok_0->total == total by {
        crate::source_laws::law_partial_content(existing, before, total, length.deep_view());
    }
    assert forall|total: u64|
        status == 200 && length is Some && length->0@ == #[trigger] decimal(total as nat) implies r->Ok_0->total
        == total by {
        crate::source_laws::law_whole_content(existing, range.deep_view(), total);
    }
}

/// Every failed download is told in a line of its own, in order.
pub proof fn law_failure_report_op(results: &Vec<(DumpType, Option<String>)>, r: Vec<String>)
    requires
        call_ensures(failure_report, (results,), r),
    ensures
        exists|at: Seq<int>| crate::source_laws::tells(results@, r.deep_view(), at),
{
    crate::source_laws::law_failures_are_told(results@);
}

// ---------------------------------------------------------------------------
// Importing
// ---------------------------------------------------------------------------

/// In every insert each staged column reaches the column of the same name.
pub proof fn law_insert_ops(filter: &str, r: String)
    ensures
        call_ensures(insert_authors_sql, (filter,), r) ==> has_prefix(
            r@,
            insert_head("authors"@, listed(author_columns()), selected(author_columns())),
        ),
        call_ensures(insert_works_sql, (filter,), r) ==> has_prefix(
            r@,
            insert_head("works"@, listed(work_columns()), selected(work_columns())),
        ),
        call_ensures(insert_editions_sql, (), r) ==> has_prefix(
            r@,
            insert_head(
                "editions"@,
                listed(edition_columns().push("work_id"@)),
                selected(edition_columns()) + ", w.id"@,
            ),
        ),
{
    law_inserts_fill_each_column(filter@);
}

/// The statements of a table are those of that table.
pub proof fn law_table_ops(
    table: Table,
    staging: Staging,
    name: &'static str,
    update: Option<&'static str>,
    insert: String,
)
    ensures
        call_ensures(Table::name, (table,), name) ==> name@ == table.spec_name(),
        call_ensures(Table::update_sql, (table,), update) ==> update.deep_view()
            == table.update_text(),
        call_ensures(Table::insert_sql, (table,), insert) ==> insert@ == table.insert_text(),
        call_ensures(Staging::ddl, (staging,), name) ==> name@ == staging.ddl_text(),
        call_ensures(emptiness_sql, (table,), insert) ==> insert@
            == "SELECT NOT EXISTS (SELECT 1 FROM "@ + table.spec_name() + ")"@,
{
}

/// The dump that is found is the newest; there is an error exactly if there is none.
pub proof fn law_find_dump_op(
    entries: &Vec<FileEntry>,
    dir: &str,
    dump: DumpType,
    r: Result<usize, ImportError>,
)
    requires
        call_ensures(find_dump, (entries, dir, dump), r),
    ensures
        match r {
            Ok(at) => {
                &&& at < entries@.len()
                &&& offers(entries@[at as int], dump)
                &&& forall|j: int|
                    0 <= j < entries@.len() && offers(#[trigger] entries@[j], dump)
                        ==> entries@[j].modified->0 <= entries@[at as int].modified->0
            },
            Err(e) => {
                &&& e matches ImportError::NoDump { dump: d, dir: p } && d == dump && p@ == dir@
                &&& forall|j: int|
                    0 <= j < entries@.len() ==> !offers(#[trigger] entries@[j], dump)
            },
        },
{
    match r {
        Ok(at) => {
            law_newest_dump(entries@, dump, at as int);
        },
        Err(e) => {
            assert(e is NoDump);
            assert(crate::import::has_no_dump(entries@, dump));
            assert forall|j: int| 0 <= j < entries@.len() implies !offers(
                #[trigger] entries@[j],
                dump,
            ) by {
                law_dump_entries(entries@[j], dump);
                assert(!entries@[j].is_dump(dump));
            }
        },
    }
}

/// A full import merges every table, those that others refer to first; an import of one dump
/// type merges its own table, and that of works also the links.
pub proof fn law_import_plan_op(
    only: Option<DumpType>,
    dev: bool,
    r: Result<Vec<Step>, ImportError>,
    table: Table,
    admit_new: bool,
)
    requires
        call_ensures(import_plan, (only, dev), r),
    ensures
        r is Err <==> dev && (only == Some(DumpType::Authors) || only == Some(DumpType::Works)),
        r is Ok ==> (r->Ok_0@.contains(Step::Merge { table, admit_new }) <==> match only {
            None => admit_new,
            Some(DumpType::Authors) => table == Table::Authors && !admit_new,
            Some(DumpType::Works) => table == Table::Works && !admit_new || table
                == Table::Authorships && admit_new,
            Some(DumpType::Editions) => table == Table::Editions && admit_new,
        }),
        r is Ok ==> (r->Ok_0@.contains(Step::RecountEditions) <==> only is None || only == Some(
            DumpType::Editions,
        )),
        r is Ok ==> (r->Ok_0@.contains(Step::RecountWorks) <==> only is None || only == Some(
            DumpType::Works,
        )),
        r is Ok ==> (r->Ok_0@.contains(Step::RequireWorks) <==> only == Some(DumpType::Editions)),
        r is Ok ==> (r->Ok_0@.contains(Step::AnnounceDev) <==> only is None && dev),
        r is Ok ==> (r->Ok_0@.contains(Step::StageEditions { dev }) <==> only is None || only
            == Some(DumpType::Editions)),
        r is Ok ==> !r->Ok_0@.contains(Step::StageEditions { dev: !dev }),
        r is Ok ==> (r->Ok_0@.contains(Step::ScanWorks) <==> only is None || only == Some(
            DumpType::Works,
        )),
        r is Ok ==> (r->Ok_0@.contains(Step::ScanAuthors) <==> only is None || only == Some(
            DumpType::Authors,
        )),
        r is Ok ==> r->Ok_0@.len() > 0 && r->Ok_0@.last() == Step::DropStaging,
{
    if r is Ok {
        let plan = r->Ok_0@;
        lemma_contains_all(plan);
        match only {
            None => {
                let at: int = if dev { 1 } else { 0 };
                assert(plan[at + 4] == Step::StageEditions { dev });
                assert(plan[at + 5] == Step::ScanWorks);
                assert(plan[at + 6] == Step::Merge { table: Table::Works, admit_new: true });
                assert(plan[at + 7] == Step::ScanAuthors);
                assert(plan[at + 8] == Step::Merge { table: Table::Authors, admit_new: true });
                assert(plan[at + 9] == Step::Merge { table: Table::Authorships, admit_new: true });
                assert(plan[at + 10] == Step::Merge { table: Table::Editions, admit_new: true });
                assert(plan[at + 11] == Step::RecountEditions);
                assert(plan[at + 12] == Step::RecountWorks);
                assert(plan[at + 13] == Step::DropStaging);
                if dev {
                    assert(plan[0] == Step::AnnounceDev);
                }
            },
            Some(DumpType::Authors) => {
                assert(plan[1] == Step::ScanAuthors);
                assert(plan[2] == Step::Merge { table: Table::Authors, admit_new: false });
            },
            Some(DumpType::Works) => {
                assert(plan[2] == Step::ScanWorks);
                assert(plan[3] == Step::Merge { table: Table::Works, admit_new: false });
                assert(plan[4] == Step::Merge { table: Table::Authorships, admit_new: true });
                assert(plan[5] == Step::RecountWorks);
            },
            Some(DumpType::Editions) => {
                assert(plan[0] == Step::RequireWorks);
                assert(plan[2] == Step::StageEditions { dev });
                assert(plan[3] == Step::Merge { table: Table::Editions, admit_new: true });
                assert(plan[4] == Step::RecountEditions);
            },
        }
    }
}

proof fn lemma_contains_all(plan: Seq<Step>)
    ensures
        forall|i: int| 0 <= i < plan.len() ==> plan.contains(#[trigger] plan[i]),
{
}

/// The tables come with the required indexes, and a table's indexes are its own.
pub proof fn law_index_ops(plan: TablePlan, table: &str, all: Vec<Index>, x: IndexView)
    ensures
        call_ensures(create_tables, (), plan) ==> plan.ddl@ == DDL@ && (index_views(
            plan.indexes@,
        ).contains(x) <==> all_indexes().contains(x) && x.required),
        call_ensures(create_indexes, (table,), all) ==> (index_views(all@).contains(x)
            <==> all_indexes().contains(x) && x.table == table@),
{
    lemma_picked(Pick::Required, Seq::empty(), x);
    lemma_picked(Pick::All, table@, x);
}

/// A first load drops the secondary indexes of its table, and no other.
pub proof fn law_drop_indexes_op(table: &str, r: Vec<String>, x: IndexView, i: int)
    requires
        call_ensures(drop_secondary_indexes, (table,), r),
    ensures
        all_indexes().contains(x) && x.table == table@ && !x.required ==> r.deep_view().contains(
            "DROP INDEX IF EXISTS "@ + x.name,
        ),
        0 <= i < r.deep_view().len() ==> crate::import_laws::drops_one(r.deep_view()[i], table@),
{
    let secondary = crate::schema::picked(Pick::Secondary, table@);
    let texts = secondary.map_values(|i: IndexView| crate::schema::drop_text(i));
    assert(r.deep_view() == texts);
    lemma_picked(Pick::Secondary, table@, x);
    if all_indexes().contains(x) && x.table == table@ && !x.required {
        let k = choose|k: int| 0 <= k < secondary.len() && secondary[k] == x;
        assert(texts[k] == "DROP INDEX IF EXISTS "@ + x.name);
    }
    if 0 <= i < r.deep_view().len() {
        let y = secondary[i];
        assert(secondary.contains(y));
        lemma_picked(Pick::Secondary, table@, y);
        assert(texts[i] == "DROP INDEX IF EXISTS "@ + y.name);
        assert(all_indexes().contains(y));
    }
}

/// The counters are recomputed first where they are wrong, then where nothing is left to
/// count.
pub proof fn law_recount_ops(r: [&'static str; 2])
    ensures
        call_ensures(recount_editions, (), r) ==> r@[0]@ == crate::sql_laws::recount_text(
            "works"@,
            "edition_count"@,
            "editions"@,
            "work_id"@,
        ) && r@[1]@ == crate::sql_laws::clear_text(
            "works"@,
            "edition_count"@,
            "editions"@,
            "e"@,
            "work_id"@,
        ),
        call_ensures(recount_works, (), r) ==> r@[0]@ == crate::sql_laws::recount_text(
            "authors"@,
            "works_count"@,
            "authorships"@,
            "author_id"@,
        ) && r@[1]@ == crate::sql_laws::clear_text(
            "authors"@,
            "works_count"@,
            "authorships"@,
            "s"@,
            "author_id"@,
        ),
{
    crate::sql_laws::law_counters_count();
}

/// What is told of an import names the table and the counts.
pub proof fn law_import_message_ops(
    table: Table,
    inserted: u64,
    updated: u64,
    error: &ImportError,
    r: String,
)
    ensures
        call_ensures(update_label, (table,), r) ==> r@ == "updating existing "@ + table.spec_name(),
        call_ensures(insert_label, (table,), r) ==> r@ == "inserting new "@ + table.spec_name(),
        call_ensures(index_label, (table, inserted, updated), r) ==> r@ == "indexing "@
            + table.spec_name() + " ("@ + decimal(inserted as nat) + " inserted, "@ + decimal(
            updated as nat,
        ) + " updated)"@,
        call_ensures(dev_announcement, (), r) ==> r@ == "Dev import: up to "@ + decimal(200_000)
            + " editions published "@ + decimal(1950)
            + "+ with covers, plus their works and authors"@,
        call_ensures(ImportError::message, (error,), r) ==> match *error {
            ImportError::DevWithOnly { only } => r@
                == "--dev selects books by filtering editions, so it cannot be combined with `--only "@
                + word_for(only) + "`; use `--only editions` or drop --only"@,
            ImportError::NoWorks => r@
                == "the works table is empty and editions link to works by id — run a full import first"@,
            ImportError::NoDump { dump, dir } => r@ == "no "@ + ("ol_dump_"@ + word_for(dump) + "_"@)
                + "*.txt.gz in "@ + dir@ + " — run `openlibrary download` first"@,
        },
{
}

/// Whether `parse` makes `fields` of a text, and nothing else.
pub open spec fn parses_to<T, P: Fn(&str) -> Option<T>>(
    parse: P,
    json: Seq<char>,
    fields: Option<T>,
) -> bool {
    forall|text: &str, o: Option<T>|
        text@ == json && #[trigger] call_ensures(parse, (text,), o) ==> o == fields
}

/// The fifth column of a line is parsed, and what it says of the author is staged; a line
/// that cannot be parsed is skipped.
pub proof fn law_author_line_op<P: Fn(&str) -> Option<AuthorFields>>(
    scan: &mut Scan,
    line: &str,
    parse: P,
    r: Option<AuthorRow>,
    key: Seq<char>,
    json: Seq<char>,
    fields: Option<AuthorFields>,
    olid: Seq<char>,
)
    requires
        old(scan).has_room(),
        call_ensures(Scan::author_line::<P>, (scan, line, parse), r),
        holds(line@, key, json),
        ends_path(key, olid),
        parses_to(parse, json, fields),
    ensures
        fields is None ==> r is None,
        r is Some ==> {
            let row = r->0;
            let f = fields->0;
            &&& row.open_library_id@ == olid
            &&& is_text_of(Some(row.name@), f.name) || is_text_of(None, f.name) && is_text_of(
                Some(row.name@),
                f.personal_name,
            )
            &&& is_description_of(row.bio.deep_view(), f.bio)
            &&& is_text_of(row.birth_date.deep_view(), f.birth_date)
            &&& is_text_of(row.death_date.deep_view(), f.death_date)
        },
        r is None && fields is Some ==> is_text_of(None, fields->0.name) && is_text_of(
            None,
            fields->0.personal_name,
        ),
{
    law_columns_of_a_line(line@, key, json);
    let g = choose|g: Option<AuthorFields>|
        {
            &&& #[trigger] crate::scan::parsed_column(parse, line@, g)
            &&& match r {
                Some(row) => Some(row@) == crate::scan::author_row_of(
                    line@,
                    crate::scan::author_described(g),
                ),
                None => crate::scan::author_row_of(line@, crate::scan::author_described(g)) is None,
            }
        };
    assert(g == fields);
    assert(has_key(line@, olid));
    law_named_authors_are_kept(line@, crate::scan::author_described(g));
    if let Some(f) = fields {
        law_author_fields(f);
        law_author_row(line@, author_of(f), olid);
        if r is Some {
            assert(r->0@.name == r->0.name@);
            assert(r->0@.birth_date == r->0.birth_date.deep_view());
        }
    }
}

/// The fifth column of a line is parsed, and what it says of the work is staged; a line that
/// cannot be parsed is skipped.
pub proof fn law_work_line_op<P: Fn(&str) -> Option<WorkFields>>(
    scan: &mut Scan,
    line: &str,
    parse: P,
    r: Option<StagedWork>,
    key: Seq<char>,
    json: Seq<char>,
    fields: Option<WorkFields>,
    olid: Seq<char>,
)
    requires
        old(scan).has_room(),
        call_ensures(Scan::work_line::<P>, (scan, line, parse), r),
        holds(line@, key, json),
        ends_path(key, olid),
        parses_to(parse, json, fields),
    ensures
        fields is None ==> r is None,
        fields is Some ==> (r is None <==> is_text_of(None, fields->0.title)),
        r is Some ==> {
            let row = r->0.row;
            let f = fields->0;
            &&& row.open_library_id@ == olid
            &&& is_text_of(row.subtitle.deep_view(), f.subtitle)
            &&& is_description_of(row.description.deep_view(), f.description)
            &&& is_text_of(row.first_publish_date.deep_view(), f.first_publish_date)
            &&& is_year_of(row.first_publish_year, row.first_publish_date.deep_view())
            &&& collects(f.subjects, text_reading(), row.subjects.deep_view())
        },
{
    law_columns_of_a_line(line@, key, json);
    let g = choose|g: Option<WorkFields>|
        {
            &&& #[trigger] crate::scan::parsed_column(parse, line@, g)
            &&& match r {
                Some(staged) => Some(staged.row@) == crate::scan::work_row_of(
                    line@,
                    crate::scan::work_described(g),
                ),
                None => crate::scan::work_row_of(line@, crate::scan::work_described(g)) is None,
            }
        };
    assert(g == fields);
    assert(has_key(line@, olid));
    law_titled_works_are_kept(line@, crate::scan::work_described(g));
    if let Some(f) = fields {
        law_work_fields(f);
        law_work_row(line@, work_of(f), olid);
        if r is Some {
            let title = work_of(f).title->0;
            assert(says(f.title, title));
            assert(!is_text_of(None, f.title));
            assert(r->0.row@.subtitle == r->0.row.subtitle.deep_view());
        }
    }
}

/// The fifth column of a line is parsed, and what it says of the edition is staged; a line
/// that cannot be parsed is counted as malformed.
pub proof fn law_edition_line_op<P: Fn(&str) -> Option<EditionFields>>(
    scan: &mut EditionScan,
    line: &str,
    parse: P,
    r: Option<EditionRow>,
    key: Seq<char>,
    json: Seq<char>,
    fields: Option<EditionFields>,
    olid: Seq<char>,
)
    requires
        old(scan).has_room(),
        call_ensures(EditionScan::edition_line::<P>, (scan, line, parse), r),
        holds(line@, key, json),
        ends_path(key, olid),
        parses_to(parse, json, fields),
    ensures
        fields is None ==> r is None && final(scan).skipped == old(scan).skipped + 1,
        r is Some ==> {
            let row = r->0;
            let f = fields->0;
            &&& row.open_library_id@ == olid
            &&& is_text_of(row.title.deep_view(), f.title)
            &&& is_text_of(row.subtitle.deep_view(), f.subtitle)
            &&& is_text_of(row.format.deep_view(), f.physical_format)
            &&& is_text_of(row.edition_name.deep_view(), f.edition_name)
            &&& is_text_of(row.internet_archive_id.deep_view(), f.ocaid)
            &&& is_id_of(row.asin.deep_view(), f.identifiers, "amazon"@)
            &&& is_id_of(row.goodreads_id.deep_view(), f.identifiers, "goodreads"@)
            &&& is_id_of(row.google_books_id.deep_view(), f.identifiers, "google"@)
            &&& forall|n: i32|
                row.page_count == Some(n) <==> #[trigger] gives(f.number_of_pages, n as int)
        },
{
    law_columns_of_a_line(line@, key, json);
    let g = choose|g: Option<EditionFields>|
        {
            &&& #[trigger] crate::scan::parsed_column(parse, line@, g)
            &&& ({
                let verdict = crate::scan::verdict_on(
                    line@,
                    crate::scan::edition_described(g),
                    old(scan).dev,
                    old(scan).max_year,
                );
                &&& r is Some <==> verdict == crate::scan::Verdict::Staged
                &&& r matches Some(row) ==> row@ == crate::scan::edition_row_of(
                    line@,
                    crate::scan::edition_described(g)->0,
                )
                &&& *final(scan) == old(scan).after(verdict)
            })
        };
    assert(g == fields);
    assert(has_key(line@, olid));
    law_verdicts(
        line@,
        crate::scan::edition_described(g),
        old(scan).dev,
        old(scan).max_year,
    );
    if let Some(f) = fields {
        if r is Some {
            law_edition_fields(f);
            law_edition_row(line@, edition_of(f), olid);
            assert(r->0@.title == r->0.title.deep_view());
        }
    }
}

/// Numbers are written in decimal.
pub proof fn law_number_ops(n: u64, m: i32, r: String)
    ensures
        call_ensures(u64_to_string, (n,), r) ==> r@ == decimal(n as nat),
        call_ensures(i32_to_string, (m,), r) ==> r@ == (if m < 0 {
            seq!['-'] + decimal((-m) as nat)
        } else {
            decimal(m as nat)
        }),
{
}

} // verus!
