//! What the statements of an import do with each column, in terms of lists of columns.

use vstd::prelude::*;

use crate::import::{Staging, Table};
use crate::schema::DDL;
use crate::sql::{
    insert_authors_text, insert_editions_text, insert_works_text, slugged_insert_text,
    AUTHORS_ON_KEPT_WORKS, CLEAR_EDITION_COUNTS, CLEAR_WORK_COUNTS, COPY_AUTHORS, COPY_EDITIONS,
    COPY_REFS, COPY_WORKS, RECOUNT_EDITIONS, RECOUNT_WORKS, STAGING_AUTHORS, STAGING_EDITIONS,
    STAGING_REFS, STAGING_WORKS, UPDATE_AUTHORS, UPDATE_EDITIONS, UPDATE_WORKS,
    UPSERT_AUTHORSHIPS, WORKS_WITH_STAGED_EDITIONS,
};
use crate::text::{contains_text, has_prefix, occurs_at};

verus! {

// ---------------------------------------------------------------------------
// Lists of columns
// ---------------------------------------------------------------------------

/// The columns of an author that come from the dump.
pub open spec fn author_columns() -> Seq<Seq<char>> {
    seq![
        "open_library_id"@,
        "name"@,
        "bio"@,
        "birth_date"@,
        "death_date"@,
        "photo_id"@,
    ]
}

/// The columns of a work that come from the dump.
pub open spec fn work_columns() -> Seq<Seq<char>> {
    seq![
        "open_library_id"@,
        "title"@,
        "subtitle"@,
        "description"@,
        "first_publish_date"@,
        "first_publish_year"@,
        "cover_id"@,
        "subjects"@,
    ]
}

/// The columns of an edition that come from the dump.
pub open spec fn edition_columns() -> Seq<Seq<char>> {
    seq![
        "open_library_id"@,
        "title"@,
        "subtitle"@,
        "asin"@,
        "cover_id"@,
        "format"@,
        "goodreads_id"@,
        "google_books_id"@,
        "isbn10"@,
        "isbn13"@,
        "language"@,
        "page_count"@,
        "published_year"@,
        "publisher"@,
        "series"@,
        "edition_name"@,
        "internet_archive_id"@,
    ]
}

/// The columns with commas between them.
pub open spec fn listed(cols: Seq<Seq<char>>) -> Seq<char>
    decreases cols.len(),
{
    if cols.len() == 0 {
        Seq::empty()
    } else if cols.len() == 1 {
        cols[0]
    } else {
        listed(cols.drop_last()) + (", "@ + cols.last())
    }
}

/// The columns of the row `n` with commas between them.
pub open spec fn selected(cols: Seq<Seq<char>>) -> Seq<char>
    decreases cols.len(),
{
    if cols.len() == 0 {
        Seq::empty()
    } else if cols.len() == 1 {
        "n."@ + cols[0]
    } else {
        selected(cols.drop_last()) + (", "@ + ("n."@ + cols.last()))
    }
}

/// One line for each column that sets it to the column of the row `s` that has the same
/// name.
pub open spec fn assigned(cols: Seq<Seq<char>>) -> Seq<char>
    decreases cols.len(),
{
    if cols.len() == 0 {
        Seq::empty()
    } else {
        assigned(cols.drop_last()) + ("    "@ + cols.last() + " = s."@ + cols.last() + ",\n"@)
    }
}

/// One line for each column and its type, with commas between them.
pub open spec fn typed(cols: Seq<(Seq<char>, Seq<char>)>) -> Seq<char>
    decreases cols.len(),
{
    if cols.len() == 0 {
        Seq::empty()
    } else if cols.len() == 1 {
        "    "@ + cols[0].0 + " "@ + cols[0].1
    } else {
        typed(cols.drop_last()) + (",\n"@ + ("    "@ + cols.last().0 + " "@ + cols.last().1))
    }
}

// ---------------------------------------------------------------------------
// Inserts
// ---------------------------------------------------------------------------

proof fn lemma_authors_listed()
    ensures
        "open_library_id, name, bio, birth_date, death_date, photo_id"@ == listed(author_columns()),
{
    let s = "open_library_id, name, bio, birth_date, death_date, photo_id"@;
    reveal_strlit("open_library_id, name, bio, birth_date, death_date, photo_id");
    reveal_strlit(", ");
    reveal_strlit("bio");
    reveal_strlit("birth_date");
    reveal_strlit("death_date");
    reveal_strlit("name");
    reveal_strlit("open_library_id");
    reveal_strlit("photo_id");
    reveal_with_fuel(listed, 7);
    assert(s =~= listed(author_columns()));
}

proof fn lemma_authors_selected()
    ensures
        "n.open_library_id, n.name, n.bio, n.birth_date, n.death_date, n.photo_id"@ == selected(author_columns()),
{
    let s = "n.open_library_id, n.name, n.bio, n.birth_date, n.death_date, n.photo_id"@;
    reveal_strlit("n.open_library_id, n.name, n.bio, n.birth_date, n.death_date, n.photo_id");
    reveal_strlit(", ");
    reveal_strlit("bio");
    reveal_strlit("birth_date");
    reveal_strlit("death_date");
    reveal_strlit("n.");
    reveal_strlit("name");
    reveal_strlit("open_library_id");
    reveal_strlit("photo_id");
    reveal_with_fuel(selected, 7);
    assert(s =~= selected(author_columns()));
}

proof fn lemma_works_listed()
    ensures
        "open_library_id, title, subtitle, description, first_publish_date, first_publish_year, cover_id, subjects"@ == listed(work_columns()),
{
    let s = "open_library_id, title, subtitle, description, first_publish_date, first_publish_year, cover_id, subjects"@;
    reveal_strlit("open_library_id, title, subtitle, description, first_publish_date, first_publish_year, cover_id, subjects");
    reveal_strlit(", ");
    reveal_strlit("cover_id");
    reveal_strlit("description");
    reveal_strlit("first_publish_date");
    reveal_strlit("first_publish_year");
    reveal_strlit("open_library_id");
    reveal_strlit("subjects");
    reveal_strlit("subtitle");
    reveal_strlit("title");
    reveal_with_fuel(listed, 9);
    assert(s =~= listed(work_columns()));
}

proof fn lemma_works_selected()
    ensures
        "n.open_library_id, n.title, n.subtitle, n.description, n.first_publish_date, n.first_publish_year, n.cover_id, n.subjects"@ == selected(work_columns()),
{
    let s = "n.open_library_id, n.title, n.subtitle, n.description, n.first_publish_date, n.first_publish_year, n.cover_id, n.subjects"@;
    reveal_strlit("n.open_library_id, n.title, n.subtitle, n.description, n.first_publish_date, n.first_publish_year, n.cover_id, n.subjects");
    reveal_strlit(", ");
    reveal_strlit("cover_id");
    reveal_strlit("description");
    reveal_strlit("first_publish_date");
    reveal_strlit("first_publish_year");
    reveal_strlit("n.");
    reveal_strlit("open_library_id");
    reveal_strlit("subjects");
    reveal_strlit("subtitle");
    reveal_strlit("title");
    reveal_with_fuel(selected, 9);
    assert(s =~= selected(work_columns()));
}

#[verifier::spinoff_prover]
#[verifier::rlimit(100)]
proof fn lemma_editions_listed()
    ensures
        "open_library_id, title, subtitle, asin, cover_id, format, goodreads_id, google_books_id, isbn10, isbn13, language, page_count, published_year, publisher, series, edition_name, internet_archive_id, work_id"@ == listed(edition_columns().push("work_id"@)),
{
    let s = "open_library_id, title, subtitle, asin, cover_id, format, goodreads_id, google_books_id, isbn10, isbn13, language, page_count, published_year, publisher, series, edition_name, internet_archive_id, work_id"@;
    reveal_strlit("open_library_id, title, subtitle, asin, cover_id, format, goodreads_id, google_books_id, isbn10, isbn13, language, page_count, published_year, publisher, series, edition_name, internet_archive_id, work_id");
    reveal_strlit(", ");
    reveal_strlit("asin");
    reveal_strlit("cover_id");
    reveal_strlit("edition_name");
    reveal_strlit("format");
    reveal_strlit("goodreads_id");
    reveal_strlit("google_books_id");
    reveal_strlit("internet_archive_id");
    reveal_strlit("isbn10");
    reveal_strlit("isbn13");
    reveal_strlit("language");
    reveal_strlit("open_library_id");
    reveal_strlit("page_count");
    reveal_strlit("published_year");
    reveal_strlit("publisher");
    reveal_strlit("series");
    reveal_strlit("subtitle");
    reveal_strlit("title");
    reveal_strlit("work_id");
    reveal_with_fuel(listed, 19);
    assert(s =~= listed(edition_columns().push("work_id"@)));
}

#[verifier::spinoff_prover]
#[verifier::rlimit(100)]
proof fn lemma_editions_selected()
    ensures
        "n.open_library_id, n.title, n.subtitle, n.asin, n.cover_id, n.format, n.goodreads_id, n.google_books_id, n.isbn10, n.isbn13, n.language, n.page_count, n.published_year, n.publisher, n.series, n.edition_name, n.internet_archive_id, w.id"@ == selected(edition_columns()) + ", w.id"@,
{
    let s = "n.open_library_id, n.title, n.subtitle, n.asin, n.cover_id, n.format, n.goodreads_id, n.google_books_id, n.isbn10, n.isbn13, n.language, n.page_count, n.published_year, n.publisher, n.series, n.edition_name, n.internet_archive_id, w.id"@;
    reveal_strlit("n.open_library_id, n.title, n.subtitle, n.asin, n.cover_id, n.format, n.goodreads_id, n.google_books_id, n.isbn10, n.isbn13, n.language, n.page_count, n.published_year, n.publisher, n.series, n.edition_name, n.internet_archive_id, w.id");
    reveal_strlit(", ");
    reveal_strlit(", w.id");
    reveal_strlit("asin");
    reveal_strlit("cover_id");
    reveal_strlit("edition_name");
    reveal_strlit("format");
    reveal_strlit("goodreads_id");
    reveal_strlit("google_books_id");
    reveal_strlit("internet_archive_id");
    reveal_strlit("isbn10");
    reveal_strlit("isbn13");
    reveal_strlit("language");
    reveal_strlit("n.");
    reveal_strlit("open_library_id");
    reveal_strlit("page_count");
    reveal_strlit("published_year");
    reveal_strlit("publisher");
    reveal_strlit("series");
    reveal_strlit("subtitle");
    reveal_strlit("title");
    reveal_with_fuel(selected, 18);
    assert(s =~= selected(edition_columns()) + ", w.id"@);
}

/// How an insert of new rows starts: the columns that it fills, and what it fills them
/// with.
pub open spec fn insert_head(table: Seq<char>, cols: Seq<char>, values: Seq<char>) -> Seq<char> {
    "\nINSERT INTO "@ + table + " ("@ + cols + ", slug, created_at, updated_at)\nSELECT "@ + values
}

proof fn lemma_prefix_stays(a: Seq<char>, b: Seq<char>, p: Seq<char>)
    requires
        has_prefix(a, p),
    ensures
        has_prefix(a + b, p),
{
    assert((a + b).subrange(0, p.len() as int) =~= a.subrange(0, p.len() as int));
}

/// Every insert starts with the columns that it is given, and fills them with the values
/// that it is given, in this order.
pub proof fn law_insert_head(
    table: Seq<char>,
    filter: Seq<char>,
    columns: Seq<char>,
    values: Seq<char>,
    joins: Seq<char>,
)
    ensures
        has_prefix(
            slugged_insert_text(table, filter, columns, values, joins),
            insert_head(table, columns, values),
        ),
{
    let p0 = insert_head(table, columns, values);
    assert(p0.subrange(0, p0.len() as int) =~= p0);
    lemma_prefix_stays(p0, ",
       CASE WHEN n.rn + COALESCE(o.taken, 0) = 1 THEN n.base_slug
            ELSE n.base_slug || '--' || (n.rn + COALESCE(o.taken, 0)) END,
       $1::timestamp, $1::timestamp
FROM (
    SELECT s.*, ROW_NUMBER() OVER (PARTITION BY s.base_slug ORDER BY s.open_library_id) AS rn
    FROM (
        SELECT DISTINCT ON (open_library_id) *
        FROM _import_"@, p0);
    let p1 = p0 + ",
       CASE WHEN n.rn + COALESCE(o.taken, 0) = 1 THEN n.base_slug
            ELSE n.base_slug || '--' || (n.rn + COALESCE(o.taken, 0)) END,
       $1::timestamp, $1::timestamp
FROM (
    SELECT s.*, ROW_NUMBER() OVER (PARTITION BY s.base_slug ORDER BY s.open_library_id) AS rn
    FROM (
        SELECT DISTINCT ON (open_library_id) *
        FROM _import_"@;
    lemma_prefix_stays(p1, table, p0);
    let p2 = p1 + table;
    lemma_prefix_stays(p2, "_staging\n        WHERE open_library_id NOT IN (\n            SELECT open_library_id FROM "@, p0);
    let p3 = p2 + "_staging\n        WHERE open_library_id NOT IN (\n            SELECT open_library_id FROM "@;
    lemma_prefix_stays(p3, table, p0);
    let p4 = p3 + table;
    lemma_prefix_stays(p4, " WHERE open_library_id IS NOT NULL)\n        "@, p0);
    let p5 = p4 + " WHERE open_library_id IS NOT NULL)\n        "@;
    lemma_prefix_stays(p5, filter, p0);
    let p6 = p5 + filter;
    lemma_prefix_stays(p6, "\n    ) s\n) n\n"@, p0);
    let p7 = p6 + "\n    ) s\n) n\n"@;
    lemma_prefix_stays(p7, joins, p0);
    let p8 = p7 + joins;
    lemma_prefix_stays(p8, "
LEFT JOIN LATERAL (
    SELECT max(CASE WHEN t.slug = n.base_slug THEN 1
                    ELSE (substring(t.slug FROM '([0-9]+)$'))::int END) AS taken
    FROM "@, p0);
    let p9 = p8 + "
LEFT JOIN LATERAL (
    SELECT max(CASE WHEN t.slug = n.base_slug THEN 1
                    ELSE (substring(t.slug FROM '([0-9]+)$'))::int END) AS taken
    FROM "@;
    lemma_prefix_stays(p9, table, p0);
    let p10 = p9 + table;
    lemma_prefix_stays(p10, " t
    WHERE t.slug = n.base_slug
       OR (t.slug >= n.base_slug || '--' AND t.slug < n.base_slug || '-.'
           AND t.slug ~ ('^' || n.base_slug || '--[0-9]+$'))
) o ON true"@, p0);
    let p11 = p10 + " t
    WHERE t.slug = n.base_slug
       OR (t.slug >= n.base_slug || '--' AND t.slug < n.base_slug || '-.'
           AND t.slug ~ ('^' || n.base_slug || '--[0-9]+$'))
) o ON true"@;
}

/// In every insert the k-th value is the column of the staged row that has the name of
/// the k-th column, so that each staged column reaches the column of the same name; only
/// the work of an edition is looked up.
pub proof fn law_inserts_fill_each_column(filter: Seq<char>)
    ensures
        has_prefix(
            insert_authors_text(filter),
            insert_head("authors"@, listed(author_columns()), selected(author_columns())),
        ),
        has_prefix(
            insert_works_text(filter),
            insert_head("works"@, listed(work_columns()), selected(work_columns())),
        ),
        has_prefix(
            insert_editions_text(),
            insert_head(
                "editions"@,
                listed(edition_columns().push("work_id"@)),
                selected(edition_columns()) + ", w.id"@,
            ),
        ),
        has_prefix(
            Table::Authors.insert_text(),
            insert_head("authors"@, listed(author_columns()), selected(author_columns())),
        ),
        has_prefix(
            Table::Works.insert_text(),
            insert_head("works"@, listed(work_columns()), selected(work_columns())),
        ),
        has_prefix(
            Table::Editions.insert_text(),
            insert_head(
                "editions"@,
                listed(edition_columns().push("work_id"@)),
                selected(edition_columns()) + ", w.id"@,
            ),
        ),
{
    lemma_authors_listed();
    lemma_authors_selected();
    lemma_works_listed();
    lemma_works_selected();
    lemma_editions_listed();
    lemma_editions_selected();
    law_insert_head(
        "authors"@,
        filter,
        listed(author_columns()),
        selected(author_columns()),
        ""@,
    );
    law_insert_head(
        "authors"@,
        AUTHORS_ON_KEPT_WORKS@,
        listed(author_columns()),
        selected(author_columns()),
        ""@,
    );
    law_insert_head("works"@, filter, listed(work_columns()), selected(work_columns()), ""@);
    law_insert_head(
        "works"@,
        WORKS_WITH_STAGED_EDITIONS@,
        listed(work_columns()),
        selected(work_columns()),
        ""@,
    );
    law_insert_head(
        "editions"@,
        ""@,
        listed(edition_columns().push("work_id"@)),
        selected(edition_columns()) + ", w.id"@,
        "JOIN works w ON w.open_library_id = n.work_olid"@,
    );
}

/// New rows are the staged ones, each once, whose open_library_id is in no row of the
/// table, as far as the filter lets them through.
pub proof fn law_inserts_take_new_rows(
    table: Seq<char>,
    filter: Seq<char>,
    columns: Seq<char>,
    values: Seq<char>,
    joins: Seq<char>,
)
    ensures
        contains_text(
            slugged_insert_text(table, filter, columns, values, joins),
            "        SELECT DISTINCT ON (open_library_id) *\n        FROM _import_"@ + table
                + "_staging\n        WHERE open_library_id NOT IN (\n            SELECT open_library_id FROM "@
                + table + " WHERE open_library_id IS NOT NULL)\n        "@ + filter + "\n    ) s\n) n\n"@
                + joins + "\nLEFT JOIN LATERAL ("@,
        ),
        contains_text(
            slugged_insert_text(table, filter, columns, values, joins),
            "\n    FROM "@ + table + " t
    WHERE t.slug = n.base_slug
       OR (t.slug >= n.base_slug || '--' AND t.slug < n.base_slug || '-.'
           AND t.slug ~ ('^' || n.base_slug || '--[0-9]+$'))
) o ON true"@,
        ),
{
    let s = slugged_insert_text(table, filter, columns, values, joins);
    reveal_strlit(",
       CASE WHEN n.rn + COALESCE(o.taken, 0) = 1 THEN n.base_slug
            ELSE n.base_slug || '--' || (n.rn + COALESCE(o.taken, 0)) END,
       $1::timestamp, $1::timestamp
FROM (
    SELECT s.*, ROW_NUMBER() OVER (PARTITION BY s.base_slug ORDER BY s.open_library_id) AS rn
    FROM (
        SELECT DISTINCT ON (open_library_id) *
        FROM _import_");
    reveal_strlit("        SELECT DISTINCT ON (open_library_id) *\n        FROM _import_");
    reveal_strlit("_staging\n        WHERE open_library_id NOT IN (\n            SELECT open_library_id FROM ");
    reveal_strlit(" WHERE open_library_id IS NOT NULL)\n        ");
    reveal_strlit("\n    ) s\n) n\n");
    reveal_strlit("
LEFT JOIN LATERAL (
    SELECT max(CASE WHEN t.slug = n.base_slug THEN 1
                    ELSE (substring(t.slug FROM '([0-9]+)$'))::int END) AS taken
    FROM ");
    reveal_strlit("\nLEFT JOIN LATERAL (");
    reveal_strlit("\n    FROM ");
    reveal_strlit(" t
    WHERE t.slug = n.base_slug
       OR (t.slug >= n.base_slug || '--' AND t.slug < n.base_slug || '-.'
           AND t.slug ~ ('^' || n.base_slug || '--[0-9]+$'))
) o ON true");
    let head = insert_head(table, columns, values);
    let l3 = ",
       CASE WHEN n.rn + COALESCE(o.taken, 0) = 1 THEN n.base_slug
            ELSE n.base_slug || '--' || (n.rn + COALESCE(o.taken, 0)) END,
       $1::timestamp, $1::timestamp
FROM (
    SELECT s.*, ROW_NUMBER() OVER (PARTITION BY s.base_slug ORDER BY s.open_library_id) AS rn
    FROM (
        SELECT DISTINCT ON (open_library_id) *
        FROM _import_"@;
    let l7 = "
LEFT JOIN LATERAL (
    SELECT max(CASE WHEN t.slug = n.base_slug THEN 1
                    ELSE (substring(t.slug FROM '([0-9]+)$'))::int END) AS taken
    FROM "@;
    let x = "        SELECT DISTINCT ON (open_library_id) *\n        FROM _import_"@ + table + "_staging\n        WHERE open_library_id NOT IN (\n            SELECT open_library_id FROM "@ + table + " WHERE open_library_id IS NOT NULL)\n        "@ + filter + "\n    ) s\n) n\n"@ + joins + "\nLEFT JOIN LATERAL ("@;
    let pre = head + l3.take(291);
    let post = l7.skip(20) + table + " t
    WHERE t.slug = n.base_slug
       OR (t.slug >= n.base_slug || '--' AND t.slug < n.base_slug || '-.'
           AND t.slug ~ ('^' || n.base_slug || '--[0-9]+$'))
) o ON true"@;
    assert(l3 =~= l3.take(291) + "        SELECT DISTINCT ON (open_library_id) *\n        FROM _import_"@);
    assert(l7 =~= "\nLEFT JOIN LATERAL ("@ + l7.skip(20));
    assert(s =~= pre + x + post);
    assert(s.subrange(pre.len() as int, pre.len() as int + x.len()) =~= x);
    assert(occurs_at(s, x, pre.len() as int));
    let y = "\n    FROM "@ + table + " t
    WHERE t.slug = n.base_slug
       OR (t.slug >= n.base_slug || '--' AND t.slug < n.base_slug || '-.'
           AND t.slug ~ ('^' || n.base_slug || '--[0-9]+$'))
) o ON true"@;
    assert(l7 =~= l7.take(154) + "\n    FROM "@);
    let before = pre + x + l7.subrange(20, 154);
    assert(s =~= before + y);
    assert(s.subrange(before.len() as int, before.len() as int + y.len()) =~= y);
    assert(occurs_at(s, y, before.len() as int));
}

/// New rows are numbered within their slug base from behind the highest number that the
/// base has in the table: number 1 gets the base itself, any other its number behind two
/// hyphens; both times are that of the import.
pub proof fn law_inserts_number_slugs(
    table: Seq<char>,
    filter: Seq<char>,
    columns: Seq<char>,
    values: Seq<char>,
    joins: Seq<char>,
)
    ensures
        contains_text(
            slugged_insert_text(table, filter, columns, values, joins),
            "       CASE WHEN n.rn + COALESCE(o.taken, 0) = 1 THEN n.base_slug
            ELSE n.base_slug || '--' || (n.rn + COALESCE(o.taken, 0)) END,
       $1::timestamp, $1::timestamp
FROM (
    SELECT s.*, ROW_NUMBER() OVER (PARTITION BY s.base_slug ORDER BY s.open_library_id) AS rn
    FROM (
"@,
        ),
        contains_text(
            slugged_insert_text(table, filter, columns, values, joins),
            "    SELECT max(CASE WHEN t.slug = n.base_slug THEN 1
                    ELSE (substring(t.slug FROM '([0-9]+)$'))::int END) AS taken"@,
        ),
{
    let s = slugged_insert_text(table, filter, columns, values, joins);
    reveal_strlit(",
       CASE WHEN n.rn + COALESCE(o.taken, 0) = 1 THEN n.base_slug
            ELSE n.base_slug || '--' || (n.rn + COALESCE(o.taken, 0)) END,
       $1::timestamp, $1::timestamp
FROM (
    SELECT s.*, ROW_NUMBER() OVER (PARTITION BY s.base_slug ORDER BY s.open_library_id) AS rn
    FROM (
        SELECT DISTINCT ON (open_library_id) *
        FROM _import_");
    reveal_strlit("       CASE WHEN n.rn + COALESCE(o.taken, 0) = 1 THEN n.base_slug
            ELSE n.base_slug || '--' || (n.rn + COALESCE(o.taken, 0)) END,
       $1::timestamp, $1::timestamp
FROM (
    SELECT s.*, ROW_NUMBER() OVER (PARTITION BY s.base_slug ORDER BY s.open_library_id) AS rn
    FROM (
");
    reveal_strlit("
LEFT JOIN LATERAL (
    SELECT max(CASE WHEN t.slug = n.base_slug THEN 1
                    ELSE (substring(t.slug FROM '([0-9]+)$'))::int END) AS taken
    FROM ");
    reveal_strlit("    SELECT max(CASE WHEN t.slug = n.base_slug THEN 1
                    ELSE (substring(t.slug FROM '([0-9]+)$'))::int END) AS taken");
    let head = insert_head(table, columns, values);
    let l3 = ",
       CASE WHEN n.rn + COALESCE(o.taken, 0) = 1 THEN n.base_slug
            ELSE n.base_slug || '--' || (n.rn + COALESCE(o.taken, 0)) END,
       $1::timestamp, $1::timestamp
FROM (
    SELECT s.*, ROW_NUMBER() OVER (PARTITION BY s.base_slug ORDER BY s.open_library_id) AS rn
    FROM (
        SELECT DISTINCT ON (open_library_id) *
        FROM _import_"@;
    let l7 = "
LEFT JOIN LATERAL (
    SELECT max(CASE WHEN t.slug = n.base_slug THEN 1
                    ELSE (substring(t.slug FROM '([0-9]+)$'))::int END) AS taken
    FROM "@;
    let x = "       CASE WHEN n.rn + COALESCE(o.taken, 0) = 1 THEN n.base_slug
            ELSE n.base_slug || '--' || (n.rn + COALESCE(o.taken, 0)) END,
       $1::timestamp, $1::timestamp
FROM (
    SELECT s.*, ROW_NUMBER() OVER (PARTITION BY s.base_slug ORDER BY s.open_library_id) AS rn
    FROM (
"@;
    assert(l3.subrange(2, 291) =~= x);
    let from = head.len() as int + 2;
    assert(s.subrange(from, from + 289) =~= l3.subrange(2, 291));
    assert(occurs_at(s, x, from));
    let y = "    SELECT max(CASE WHEN t.slug = n.base_slug THEN 1
                    ELSE (substring(t.slug FROM '([0-9]+)$'))::int END) AS taken"@;
    assert(l7.subrange(21, 154) =~= y);
    let before = head + l3 + table + "_staging\n        WHERE open_library_id NOT IN (\n            SELECT open_library_id FROM "@ + table + " WHERE open_library_id IS NOT NULL)\n        "@ + filter + "\n    ) s\n) n\n"@ + joins;
    let at = before.len() as int + 21;
    assert(s.subrange(at, at + 133) =~= l7.subrange(21, 154));
    assert(occurs_at(s, y, at));
}

// ---------------------------------------------------------------------------
// Updates
// ---------------------------------------------------------------------------

proof fn lemma_update_authors_columns()
    ensures
        UPDATE_AUTHORS@ == "\nUPDATE authors a SET\n"@ + assigned(author_columns().drop_first()) + "    updated_at = $1::timestamp
FROM (SELECT DISTINCT ON (open_library_id) * FROM _import_authors_staging) s
WHERE a.open_library_id = s.open_library_id"@,
{
    let s = UPDATE_AUTHORS@;
    reveal_strlit("
UPDATE authors a SET
    name = s.name,
    bio = s.bio,
    birth_date = s.birth_date,
    death_date = s.death_date,
    photo_id = s.photo_id,
    updated_at = $1::timestamp
FROM (SELECT DISTINCT ON (open_library_id) * FROM _import_authors_staging) s
WHERE a.open_library_id = s.open_library_id");
    reveal_strlit("\nUPDATE authors a SET\n");
    reveal_strlit("    ");
    reveal_strlit("    updated_at = $1::timestamp
FROM (SELECT DISTINCT ON (open_library_id) * FROM _import_authors_staging) s
WHERE a.open_library_id = s.open_library_id");
    reveal_strlit(" = s.");
    reveal_strlit(",\n");
    reveal_strlit("bio");
    reveal_strlit("birth_date");
    reveal_strlit("death_date");
    reveal_strlit("name");
    reveal_strlit("photo_id");
    reveal_with_fuel(assigned, 6);
    assert(s =~= "\nUPDATE authors a SET\n"@ + assigned(author_columns().drop_first()) + "    updated_at = $1::timestamp
FROM (SELECT DISTINCT ON (open_library_id) * FROM _import_authors_staging) s
WHERE a.open_library_id = s.open_library_id"@);
}

proof fn lemma_update_works_columns()
    ensures
        UPDATE_WORKS@ == "\nUPDATE works w SET\n"@ + assigned(work_columns().drop_first()) + "    updated_at = $1::timestamp
FROM (SELECT DISTINCT ON (open_library_id) * FROM _import_works_staging) s
WHERE w.open_library_id = s.open_library_id"@,
{
    let s = UPDATE_WORKS@;
    reveal_strlit("
UPDATE works w SET
    title = s.title,
    subtitle = s.subtitle,
    description = s.description,
    first_publish_date = s.first_publish_date,
    first_publish_year = s.first_publish_year,
    cover_id = s.cover_id,
    subjects = s.subjects,
    updated_at = $1::timestamp
FROM (SELECT DISTINCT ON (open_library_id) * FROM _import_works_staging) s
WHERE w.open_library_id = s.open_library_id");
    reveal_strlit("\nUPDATE works w SET\n");
    reveal_strlit("    ");
    reveal_strlit("    updated_at = $1::timestamp
FROM (SELECT DISTINCT ON (open_library_id) * FROM _import_works_staging) s
WHERE w.open_library_id = s.open_library_id");
    reveal_strlit(" = s.");
    reveal_strlit(",\n");
    reveal_strlit("cover_id");
    reveal_strlit("description");
    reveal_strlit("first_publish_date");
    reveal_strlit("first_publish_year");
    reveal_strlit("subjects");
    reveal_strlit("subtitle");
    reveal_strlit("title");
    reveal_with_fuel(assigned, 8);
    assert(s =~= "\nUPDATE works w SET\n"@ + assigned(work_columns().drop_first()) + "    updated_at = $1::timestamp
FROM (SELECT DISTINCT ON (open_library_id) * FROM _import_works_staging) s
WHERE w.open_library_id = s.open_library_id"@);
}

#[verifier::spinoff_prover]
#[verifier::rlimit(100)]
proof fn lemma_update_editions_columns()
    ensures
        UPDATE_EDITIONS@ == "\nUPDATE editions e SET\n"@ + assigned(edition_columns().drop_first()) + "    work_id = w.id,
    updated_at = $1::timestamp
FROM (SELECT DISTINCT ON (open_library_id) * FROM _import_editions_staging) s
JOIN works w ON w.open_library_id = s.work_olid
WHERE e.open_library_id = s.open_library_id"@,
{
    let s = UPDATE_EDITIONS@;
    reveal_strlit("
UPDATE editions e SET
    title = s.title,
    subtitle = s.subtitle,
    asin = s.asin,
    cover_id = s.cover_id,
    format = s.format,
    goodreads_id = s.goodreads_id,
    google_books_id = s.google_books_id,
    isbn10 = s.isbn10,
    isbn13 = s.isbn13,
    language = s.language,
    page_count = s.page_count,
    published_year = s.published_year,
    publisher = s.publisher,
    series = s.series,
    edition_name = s.edition_name,
    internet_archive_id = s.internet_archive_id,
    work_id = w.id,
    updated_at = $1::timestamp
FROM (SELECT DISTINCT ON (open_library_id) * FROM _import_editions_staging) s
JOIN works w ON w.open_library_id = s.work_olid
WHERE e.open_library_id = s.open_library_id");
    reveal_strlit("\nUPDATE editions e SET\n");
    reveal_strlit("    ");
    reveal_strlit("    work_id = w.id,
    updated_at = $1::timestamp
FROM (SELECT DISTINCT ON (open_library_id) * FROM _import_editions_staging) s
JOIN works w ON w.open_library_id = s.work_olid
WHERE e.open_library_id = s.open_library_id");
    reveal_strlit(" = s.");
    reveal_strlit(",\n");
    reveal_strlit("asin");
    reveal_strlit("cover_id");
    reveal_strlit("edition_name");
    reveal_strlit("format");
    reveal_strlit("goodreads_id");
    reveal_strlit("google_books_id");
    reveal_strlit("internet_archive_id");
    reveal_strlit("isbn10");
    reveal_strlit("isbn13");
    reveal_strlit("language");
    reveal_strlit("page_count");
    reveal_strlit("published_year");
    reveal_strlit("publisher");
    reveal_strlit("series");
    reveal_strlit("subtitle");
    reveal_strlit("title");
    reveal_with_fuel(assigned, 17);
    assert(s =~= "\nUPDATE editions e SET\n"@ + assigned(edition_columns().drop_first()) + "    work_id = w.id,
    updated_at = $1::timestamp
FROM (SELECT DISTINCT ON (open_library_id) * FROM _import_editions_staging) s
JOIN works w ON w.open_library_id = s.work_olid
WHERE e.open_library_id = s.open_library_id"@);
}

/// An update sets every column that comes from the dump, other than the open_library_id
/// that it is found by, to the staged column of the same name, and the update time; the
/// work of an edition is looked up.
pub proof fn law_updates_fill_each_column()
    ensures
        Table::Authors.update_text() == Some(
            "\nUPDATE authors a SET\n"@ + assigned(author_columns().drop_first()) + "    updated_at = $1::timestamp
FROM (SELECT DISTINCT ON (open_library_id) * FROM _import_authors_staging) s
WHERE a.open_library_id = s.open_library_id"@,
        ),
        Table::Works.update_text() == Some(
            "\nUPDATE works w SET\n"@ + assigned(work_columns().drop_first()) + "    updated_at = $1::timestamp
FROM (SELECT DISTINCT ON (open_library_id) * FROM _import_works_staging) s
WHERE w.open_library_id = s.open_library_id"@,
        ),
        Table::Editions.update_text() == Some(
            "\nUPDATE editions e SET\n"@ + assigned(edition_columns().drop_first()) + "    work_id = w.id,
    updated_at = $1::timestamp
FROM (SELECT DISTINCT ON (open_library_id) * FROM _import_editions_staging) s
JOIN works w ON w.open_library_id = s.work_olid
WHERE e.open_library_id = s.open_library_id"@,
        ),
        Table::Authorships.update_text() is None,
{
    lemma_update_authors_columns();
    lemma_update_works_columns();
    lemma_update_editions_columns();
}

// ---------------------------------------------------------------------------
// Staging
// ---------------------------------------------------------------------------

pub open spec fn staged_author_columns() -> Seq<(Seq<char>, Seq<char>)> {
    seq![
        ("open_library_id"@, "TEXT NOT NULL"@),
        ("base_slug"@, "TEXT NOT NULL"@),
        ("name"@, "TEXT NOT NULL"@),
        ("bio"@, "TEXT"@),
        ("birth_date"@, "TEXT"@),
        ("death_date"@, "TEXT"@),
        ("photo_id"@, "TEXT"@),
    ]
}

pub open spec fn staged_work_columns() -> Seq<(Seq<char>, Seq<char>)> {
    seq![
        ("open_library_id"@, "TEXT NOT NULL"@),
        ("base_slug"@, "TEXT NOT NULL"@),
        ("title"@, "TEXT NOT NULL"@),
        ("subtitle"@, "TEXT"@),
        ("description"@, "TEXT"@),
        ("first_publish_date"@, "TEXT"@),
        ("first_publish_year"@, "int4"@),
        ("cover_id"@, "TEXT"@),
        ("subjects"@, "TEXT[] NOT NULL"@),
    ]
}

pub open spec fn staged_edition_columns() -> Seq<(Seq<char>, Seq<char>)> {
    seq![
        ("work_olid"@, "TEXT NOT NULL"@),
        ("open_library_id"@, "TEXT NOT NULL"@),
        ("base_slug"@, "TEXT NOT NULL"@),
        ("title"@, "TEXT"@),
        ("subtitle"@, "TEXT"@),
        ("asin"@, "TEXT"@),
        ("cover_id"@, "TEXT"@),
        ("format"@, "TEXT"@),
        ("goodreads_id"@, "TEXT"@),
        ("google_books_id"@, "TEXT"@),
        ("isbn10"@, "TEXT"@),
        ("isbn13"@, "TEXT"@),
        ("language"@, "TEXT"@),
        ("page_count"@, "int4"@),
        ("published_year"@, "int4"@),
        ("publisher"@, "TEXT"@),
        ("series"@, "TEXT"@),
        ("edition_name"@, "TEXT"@),
        ("internet_archive_id"@, "TEXT"@),
    ]
}

pub open spec fn staged_link_columns() -> Seq<(Seq<char>, Seq<char>)> {
    seq![
        ("work_olid"@, "TEXT NOT NULL"@),
        ("author_olid"@, "TEXT NOT NULL"@),
        ("position"@, "int4 NOT NULL"@),
    ]
}

/// The names of columns.
pub open spec fn names_of_columns(cols: Seq<(Seq<char>, Seq<char>)>) -> Seq<Seq<char>> {
    cols.map_values(|c: (Seq<char>, Seq<char>)| c.0)
}

proof fn lemma_staging_authors_columns()
    ensures
        STAGING_AUTHORS@ == "
DROP TABLE IF EXISTS _import_authors_staging;
CREATE UNLOGGED TABLE _import_authors_staging (
"@ + typed(staged_author_columns()) + "\n)"@,
{
    let s = STAGING_AUTHORS@;
    reveal_strlit("
DROP TABLE IF EXISTS _import_authors_staging;
CREATE UNLOGGED TABLE _import_authors_staging (
    open_library_id TEXT NOT NULL,
    base_slug TEXT NOT NULL,
    name TEXT NOT NULL,
    bio TEXT,
    birth_date TEXT,
    death_date TEXT,
    photo_id TEXT
)");
    reveal_strlit("\n)");
    reveal_strlit("
DROP TABLE IF EXISTS _import_authors_staging;
CREATE UNLOGGED TABLE _import_authors_staging (
");
    reveal_strlit(" ");
    reveal_strlit("    ");
    reveal_strlit(",\n");
    reveal_strlit("TEXT");
    reveal_strlit("TEXT NOT NULL");
    reveal_strlit("base_slug");
    reveal_strlit("bio");
    reveal_strlit("birth_date");
    reveal_strlit("death_date");
    reveal_strlit("name");
    reveal_strlit("open_library_id");
    reveal_strlit("photo_id");
    reveal_with_fuel(typed, 8);
    assert(s =~= "
DROP TABLE IF EXISTS _import_authors_staging;
CREATE UNLOGGED TABLE _import_authors_staging (
"@ + typed(staged_author_columns()) + "\n)"@);
}

proof fn lemma_copy_authors_columns()
    ensures
        COPY_AUTHORS@ == "COPY _import_authors_staging ("@ + listed(names_of_columns(staged_author_columns())) + ") FROM STDIN BINARY"@,
{
    let s = COPY_AUTHORS@;
    reveal_strlit("COPY _import_authors_staging (open_library_id, base_slug, name, bio, birth_date, death_date, photo_id) FROM STDIN BINARY");
    reveal_strlit(") FROM STDIN BINARY");
    reveal_strlit(", ");
    reveal_strlit("COPY _import_authors_staging (");
    reveal_strlit("base_slug");
    reveal_strlit("bio");
    reveal_strlit("birth_date");
    reveal_strlit("death_date");
    reveal_strlit("name");
    reveal_strlit("open_library_id");
    reveal_strlit("photo_id");
    reveal_with_fuel(listed, 8);
    assert(s =~= "COPY _import_authors_staging ("@ + listed(names_of_columns(staged_author_columns())) + ") FROM STDIN BINARY"@);
}

#[verifier::spinoff_prover]
#[verifier::rlimit(100)]
proof fn lemma_staging_works_columns()
    ensures
        STAGING_WORKS@ == "
DROP TABLE IF EXISTS _import_works_staging;
CREATE UNLOGGED TABLE _import_works_staging (
"@ + typed(staged_work_columns()) + "\n)"@,
{
    let s = STAGING_WORKS@;
    reveal_strlit("
DROP TABLE IF EXISTS _import_works_staging;
CREATE UNLOGGED TABLE _import_works_staging (
    open_library_id TEXT NOT NULL,
    base_slug TEXT NOT NULL,
    title TEXT NOT NULL,
    subtitle TEXT,
    description TEXT,
    first_publish_date TEXT,
    first_publish_year int4,
    cover_id TEXT,
    subjects TEXT[] NOT NULL
)");
    reveal_strlit("\n)");
    reveal_strlit("
DROP TABLE IF EXISTS _import_works_staging;
CREATE UNLOGGED TABLE _import_works_staging (
");
    reveal_strlit(" ");
    reveal_strlit("    ");
    reveal_strlit(",\n");
    reveal_strlit("TEXT");
    reveal_strlit("TEXT NOT NULL");
    reveal_strlit("TEXT[] NOT NULL");
    reveal_strlit("base_slug");
    reveal_strlit("cover_id");
    reveal_strlit("description");
    reveal_strlit("first_publish_date");
    reveal_strlit("first_publish_year");
    reveal_strlit("int4");
    reveal_strlit("open_library_id");
    reveal_strlit("subjects");
    reveal_strlit("subtitle");
    reveal_strlit("title");
    reveal_with_fuel(typed, 10);
    assert(s =~= "
DROP TABLE IF EXISTS _import_works_staging;
CREATE UNLOGGED TABLE _import_works_staging (
"@ + typed(staged_work_columns()) + "\n)"@);
}

#[verifier::spinoff_prover]
#[verifier::rlimit(100)]
proof fn lemma_copy_works_columns()
    ensures
        COPY_WORKS@ == "COPY _import_works_staging ("@ + listed(names_of_columns(staged_work_columns())) + ") FROM STDIN BINARY"@,
{
    let s = COPY_WORKS@;
    reveal_strlit("COPY _import_works_staging (open_library_id, base_slug, title, subtitle, description, first_publish_date, first_publish_year, cover_id, subjects) FROM STDIN BINARY");
    reveal_strlit(") FROM STDIN BINARY");
    reveal_strlit(", ");
    reveal_strlit("COPY _import_works_staging (");
    reveal_strlit("base_slug");
    reveal_strlit("cover_id");
    reveal_strlit("description");
    reveal_strlit("first_publish_date");
    reveal_strlit("first_publish_year");
    reveal_strlit("open_library_id");
    reveal_strlit("subjects");
    reveal_strlit("subtitle");
    reveal_strlit("title");
    reveal_with_fuel(listed, 10);
    assert(s =~= "COPY _import_works_staging ("@ + listed(names_of_columns(staged_work_columns())) + ") FROM STDIN BINARY"@);
}

#[verifier::spinoff_prover]
#[verifier::rlimit(100)]
proof fn lemma_staging_editions_columns()
    ensures
        STAGING_EDITIONS@ == "
DROP TABLE IF EXISTS _import_editions_staging;
CREATE UNLOGGED TABLE _import_editions_staging (
"@ + typed(staged_edition_columns()) + "\n)"@,
{
    let s = STAGING_EDITIONS@;
    reveal_strlit("
DROP TABLE IF EXISTS _import_editions_staging;
CREATE UNLOGGED TABLE _import_editions_staging (
    work_olid TEXT NOT NULL,
    open_library_id TEXT NOT NULL,
    base_slug TEXT NOT NULL,
    title TEXT,
    subtitle TEXT,
    asin TEXT,
    cover_id TEXT,
    format TEXT,
    goodreads_id TEXT,
    google_books_id TEXT,
    isbn10 TEXT,
    isbn13 TEXT,
    language TEXT,
    page_count int4,
    published_year int4,
    publisher TEXT,
    series TEXT,
    edition_name TEXT,
    internet_archive_id TEXT
)");
    reveal_strlit("\n)");
    reveal_strlit("
DROP TABLE IF EXISTS _import_editions_staging;
CREATE UNLOGGED TABLE _import_editions_staging (
");
    reveal_strlit(" ");
    reveal_strlit("    ");
    reveal_strlit(",\n");
    reveal_strlit("TEXT");
    reveal_strlit("TEXT NOT NULL");
    reveal_strlit("asin");
    reveal_strlit("base_slug");
    reveal_strlit("cover_id");
    reveal_strlit("edition_name");
    reveal_strlit("format");
    reveal_strlit("goodreads_id");
    reveal_strlit("google_books_id");
    reveal_strlit("int4");
    reveal_strlit("internet_archive_id");
    reveal_strlit("isbn10");
    reveal_strlit("isbn13");
    reveal_strlit("language");
    reveal_strlit("open_library_id");
    reveal_strlit("page_count");
    reveal_strlit("published_year");
    reveal_strlit("publisher");
    reveal_strlit("series");
    reveal_strlit("subtitle");
    reveal_strlit("title");
    reveal_strlit("work_olid");
    reveal_with_fuel(typed, 20);
    assert(s =~= "
DROP TABLE IF EXISTS _import_editions_staging;
CREATE UNLOGGED TABLE _import_editions_staging (
"@ + typed(staged_edition_columns()) + "\n)"@);
}

#[verifier::spinoff_prover]
#[verifier::rlimit(100)]
proof fn lemma_copy_editions_columns()
    ensures
        COPY_EDITIONS@ == "COPY _import_editions_staging ("@ + listed(names_of_columns(staged_edition_columns())) + ") FROM STDIN BINARY"@,
{
    let s = COPY_EDITIONS@;
    reveal_strlit("COPY _import_editions_staging (work_olid, open_library_id, base_slug, title, subtitle, asin, cover_id, format, goodreads_id, google_books_id, isbn10, isbn13, language, page_count, published_year, publisher, series, edition_name, internet_archive_id) FROM STDIN BINARY");
    reveal_strlit(") FROM STDIN BINARY");
    reveal_strlit(", ");
    reveal_strlit("COPY _import_editions_staging (");
    reveal_strlit("asin");
    reveal_strlit("base_slug");
    reveal_strlit("cover_id");
    reveal_strlit("edition_name");
    reveal_strlit("format");
    reveal_strlit("goodreads_id");
    reveal_strlit("google_books_id");
    reveal_strlit("internet_archive_id");
    reveal_strlit("isbn10");
    reveal_strlit("isbn13");
    reveal_strlit("language");
    reveal_strlit("open_library_id");
    reveal_strlit("page_count");
    reveal_strlit("published_year");
    reveal_strlit("publisher");
    reveal_strlit("series");
    reveal_strlit("subtitle");
    reveal_strlit("title");
    reveal_strlit("work_olid");
    reveal_with_fuel(listed, 20);
    assert(s =~= "COPY _import_editions_staging ("@ + listed(names_of_columns(staged_edition_columns())) + ") FROM STDIN BINARY"@);
}

proof fn lemma_staging_refs_columns()
    ensures
        STAGING_REFS@ == "
DROP TABLE IF EXISTS _import_work_author_refs;
CREATE UNLOGGED TABLE _import_work_author_refs (
"@ + typed(staged_link_columns()) + "\n)"@,
{
    let s = STAGING_REFS@;
    reveal_strlit("
DROP TABLE IF EXISTS _import_work_author_refs;
CREATE UNLOGGED TABLE _import_work_author_refs (
    work_olid TEXT NOT NULL,
    author_olid TEXT NOT NULL,
    position int4 NOT NULL
)");
    reveal_strlit("\n)");
    reveal_strlit("
DROP TABLE IF EXISTS _import_work_author_refs;
CREATE UNLOGGED TABLE _import_work_author_refs (
");
    reveal_strlit(" ");
    reveal_strlit("    ");
    reveal_strlit(",\n");
    reveal_strlit("TEXT NOT NULL");
    reveal_strlit("author_olid");
    reveal_strlit("int4 NOT NULL");
    reveal_strlit("position");
    reveal_strlit("work_olid");
    reveal_with_fuel(typed, 4);
    assert(s =~= "
DROP TABLE IF EXISTS _import_work_author_refs;
CREATE UNLOGGED TABLE _import_work_author_refs (
"@ + typed(staged_link_columns()) + "\n)"@);
}

proof fn lemma_copy_refs_columns()
    ensures
        COPY_REFS@ == "COPY _import_work_author_refs ("@ + listed(names_of_columns(staged_link_columns())) + ") FROM STDIN BINARY"@,
{
    let s = COPY_REFS@;
    reveal_strlit("COPY _import_work_author_refs (work_olid, author_olid, position) FROM STDIN BINARY");
    reveal_strlit(") FROM STDIN BINARY");
    reveal_strlit(", ");
    reveal_strlit("COPY _import_work_author_refs (");
    reveal_strlit("author_olid");
    reveal_strlit("position");
    reveal_strlit("work_olid");
    reveal_with_fuel(listed, 4);
    assert(s =~= "COPY _import_work_author_refs ("@ + listed(names_of_columns(staged_link_columns())) + ") FROM STDIN BINARY"@);
}

/// Every staging table is created anew with the columns that rows are copied into, in the
/// same order.
pub proof fn law_copies_fill_the_staging_tables()
    ensures
        Staging::Authors.ddl_text() == "
DROP TABLE IF EXISTS _import_authors_staging;
CREATE UNLOGGED TABLE _import_authors_staging (
"@ + typed(staged_author_columns()) + "\n)"@,
        COPY_AUTHORS@ == "COPY _import_authors_staging ("@ + listed(names_of_columns(staged_author_columns()))
            + ") FROM STDIN BINARY"@,
        Staging::Works.ddl_text() == "
DROP TABLE IF EXISTS _import_works_staging;
CREATE UNLOGGED TABLE _import_works_staging (
"@ + typed(staged_work_columns()) + "\n)"@,
        COPY_WORKS@ == "COPY _import_works_staging ("@ + listed(names_of_columns(staged_work_columns()))
            + ") FROM STDIN BINARY"@,
        Staging::Editions.ddl_text() == "
DROP TABLE IF EXISTS _import_editions_staging;
CREATE UNLOGGED TABLE _import_editions_staging (
"@ + typed(staged_edition_columns()) + "\n)"@,
        COPY_EDITIONS@ == "COPY _import_editions_staging ("@ + listed(names_of_columns(staged_edition_columns()))
            + ") FROM STDIN BINARY"@,
        Staging::Refs.ddl_text() == "
DROP TABLE IF EXISTS _import_work_author_refs;
CREATE UNLOGGED TABLE _import_work_author_refs (
"@ + typed(staged_link_columns()) + "\n)"@,
        COPY_REFS@ == "COPY _import_work_author_refs ("@ + listed(names_of_columns(staged_link_columns()))
            + ") FROM STDIN BINARY"@,
{
    lemma_staging_authors_columns();
    lemma_copy_authors_columns();
    lemma_staging_works_columns();
    lemma_copy_works_columns();
    lemma_staging_editions_columns();
    lemma_copy_editions_columns();
    lemma_staging_refs_columns();
    lemma_copy_refs_columns();
}

/// Every staged column but the slug base and the work of an edition, which are worked up
/// first, goes into a column of the table.
pub proof fn law_every_staged_column_is_used(i: int)
    ensures
        0 <= i < staged_author_columns().len() ==> staged_author_columns()[i].0 == "base_slug"@
            || author_columns().contains(staged_author_columns()[i].0),
        0 <= i < staged_work_columns().len() ==> staged_work_columns()[i].0 == "base_slug"@
            || work_columns().contains(staged_work_columns()[i].0),
        0 <= i < staged_edition_columns().len() ==> staged_edition_columns()[i].0 == "base_slug"@
            || staged_edition_columns()[i].0 == "work_olid"@ || edition_columns().contains(
            staged_edition_columns()[i].0,
        ),
{
    assert(author_columns()[0] == "open_library_id"@);
    assert(author_columns()[1] == "name"@);
    assert(author_columns()[2] == "bio"@);
    assert(author_columns()[3] == "birth_date"@);
    assert(author_columns()[4] == "death_date"@);
    assert(author_columns()[5] == "photo_id"@);
    assert(work_columns()[0] == "open_library_id"@);
    assert(work_columns()[1] == "title"@);
    assert(work_columns()[2] == "subtitle"@);
    assert(work_columns()[3] == "description"@);
    assert(work_columns()[4] == "first_publish_date"@);
    assert(work_columns()[5] == "first_publish_year"@);
    assert(work_columns()[6] == "cover_id"@);
    assert(work_columns()[7] == "subjects"@);
    assert(edition_columns()[0] == "open_library_id"@);
    assert(edition_columns()[1] == "title"@);
    assert(edition_columns()[2] == "subtitle"@);
    assert(edition_columns()[3] == "asin"@);
    assert(edition_columns()[4] == "cover_id"@);
    assert(edition_columns()[5] == "format"@);
    assert(edition_columns()[6] == "goodreads_id"@);
    assert(edition_columns()[7] == "google_books_id"@);
    assert(edition_columns()[8] == "isbn10"@);
    assert(edition_columns()[9] == "isbn13"@);
    assert(edition_columns()[10] == "language"@);
    assert(edition_columns()[11] == "page_count"@);
    assert(edition_columns()[12] == "published_year"@);
    assert(edition_columns()[13] == "publisher"@);
    assert(edition_columns()[14] == "series"@);
    assert(edition_columns()[15] == "edition_name"@);
    assert(edition_columns()[16] == "internet_archive_id"@);
}

// ---------------------------------------------------------------------------
// Tables
// ---------------------------------------------------------------------------

/// The columns of the table `authors`.
pub open spec fn authors_table() -> Seq<(Seq<char>, Seq<char>)> {
    seq![
        ("created_at"@, "timestamp NOT NULL"@),
        ("updated_at"@, "timestamp NOT NULL"@),
        ("id"@, "int8 NOT NULL DEFAULT nextval('authors_id_seq'::regclass)"@),
        ("open_library_id"@, "TEXT"@),
        ("works_count"@, "int4 NOT NULL DEFAULT 0"@),
        ("name"@, "TEXT NOT NULL"@),
        ("bio"@, "TEXT"@),
        ("sort_name"@, "TEXT"@),
        ("birth_date"@, "TEXT"@),
        ("death_date"@, "TEXT"@),
        ("photo_id"@, "TEXT"@),
        ("slug"@, "TEXT NOT NULL"@),
    ]
}

/// The columns of the table `works`.
pub open spec fn works_table() -> Seq<(Seq<char>, Seq<char>)> {
    seq![
        ("created_at"@, "timestamp NOT NULL"@),
        ("updated_at"@, "timestamp NOT NULL"@),
        ("id"@, "int8 NOT NULL DEFAULT nextval('works_id_seq'::regclass)"@),
        ("open_library_id"@, "TEXT"@),
        ("edition_count"@, "int4 NOT NULL DEFAULT 0"@),
        ("title"@, "TEXT NOT NULL"@),
        ("subtitle"@, "TEXT"@),
        ("description"@, "TEXT"@),
        ("cover_id"@, "TEXT"@),
        ("first_publish_date"@, "TEXT"@),
        ("first_publish_year"@, "int4"@),
        ("subjects"@, "TEXT[] NOT NULL DEFAULT '{}'"@),
        ("slug"@, "TEXT NOT NULL"@),
    ]
}

/// The columns of the table `authorships`.
pub open spec fn authorships_table() -> Seq<(Seq<char>, Seq<char>)> {
    seq![
        ("created_at"@, "timestamp NOT NULL"@),
        ("updated_at"@, "timestamp NOT NULL"@),
        ("id"@, "int8 NOT NULL DEFAULT nextval('authorships_id_seq'::regclass)"@),
        ("author_id"@, "int8 NOT NULL"@),
        ("work_id"@, "int8 NOT NULL"@),
        ("position"@, "int4 NOT NULL DEFAULT 0"@),
    ]
}

/// The columns of the table `editions`.
pub open spec fn editions_table() -> Seq<(Seq<char>, Seq<char>)> {
    seq![
        ("created_at"@, "timestamp NOT NULL"@),
        ("updated_at"@, "timestamp NOT NULL"@),
        ("id"@, "int8 NOT NULL DEFAULT nextval('editions_id_seq'::regclass)"@),
        ("open_library_id"@, "TEXT"@),
        ("work_id"@, "int8 NOT NULL"@),
        ("google_books_id"@, "TEXT"@),
        ("goodreads_id"@, "TEXT"@),
        ("asin"@, "TEXT"@),
        ("title"@, "TEXT"@),
        ("cover_id"@, "TEXT"@),
        ("format"@, "TEXT"@),
        ("isbn10"@, "TEXT"@),
        ("isbn13"@, "TEXT"@),
        ("language"@, "TEXT"@),
        ("page_count"@, "int4"@),
        ("published_year"@, "int4"@),
        ("publisher"@, "TEXT"@),
        ("subtitle"@, "TEXT"@),
        ("series"@, "TEXT"@),
        ("edition_name"@, "TEXT"@),
        ("internet_archive_id"@, "TEXT"@),
        ("slug"@, "TEXT NOT NULL"@),
    ]
}

#[verifier::spinoff_prover]
#[verifier::rlimit(100)]
proof fn lemma_authors_table()
    ensures
        contains_text(DDL@, "CREATE TABLE IF NOT EXISTS authors (\n"@ + typed(authors_table()) + ",\n"@),
{
    let s = DDL@;
    reveal_strlit("
CREATE SEQUENCE IF NOT EXISTS authors_id_seq;
CREATE SEQUENCE IF NOT EXISTS works_id_seq;
CREATE SEQUENCE IF NOT EXISTS authorships_id_seq;
CREATE SEQUENCE IF NOT EXISTS editions_id_seq;

CREATE TABLE IF NOT EXISTS authors (
    created_at timestamp NOT NULL,
    updated_at timestamp NOT NULL,
    id int8 NOT NULL DEFAULT nextval('authors_id_seq'::regclass),
    open_library_id TEXT,
    works_count int4 NOT NULL DEFAULT 0,
    name TEXT NOT NULL,
    bio TEXT,
    sort_name TEXT,
    birth_date TEXT,
    death_date TEXT,
    photo_id TEXT,
    slug TEXT NOT NULL,
    PRIMARY KEY (id)
);

CREATE TABLE IF NOT EXISTS works (
    created_at timestamp NOT NULL,
    updated_at timestamp NOT NULL,
    id int8 NOT NULL DEFAULT nextval('works_id_seq'::regclass),
    open_library_id TEXT,
    edition_count int4 NOT NULL DEFAULT 0,
    title TEXT NOT NULL,
    subtitle TEXT,
    description TEXT,
    cover_id TEXT,
    first_publish_date TEXT,
    first_publish_year int4,
    subjects TEXT[] NOT NULL DEFAULT '{}',
    slug TEXT NOT NULL,
    PRIMARY KEY (id)
);

CREATE TABLE IF NOT EXISTS authorships (
    created_at timestamp NOT NULL,
    updated_at timestamp NOT NULL,
    id int8 NOT NULL DEFAULT nextval('authorships_id_seq'::regclass),
    author_id int8 NOT NULL,
    work_id int8 NOT NULL,
    position int4 NOT NULL DEFAULT 0,
    CONSTRAINT works_fk FOREIGN KEY (work_id) REFERENCES works(id),
    CONSTRAINT authors_fk FOREIGN KEY (author_id) REFERENCES authors(id),
    PRIMARY KEY (id)
);

CREATE TABLE IF NOT EXISTS editions (
    created_at timestamp NOT NULL,
    updated_at timestamp NOT NULL,
    id int8 NOT NULL DEFAULT nextval('editions_id_seq'::regclass),
    open_library_id TEXT,
    work_id int8 NOT NULL,
    google_books_id TEXT,
    goodreads_id TEXT,
    asin TEXT,
    title TEXT,
    cover_id TEXT,
    format TEXT,
    isbn10 TEXT,
    isbn13 TEXT,
    language TEXT,
    page_count int4,
    published_year int4,
    publisher TEXT,
    subtitle TEXT,
    series TEXT,
    edition_name TEXT,
    internet_archive_id TEXT,
    slug TEXT NOT NULL,
    CONSTRAINT works_fk FOREIGN KEY (work_id) REFERENCES works(id),
    PRIMARY KEY (id)
);
");
    reveal_strlit(" ");
    reveal_strlit("    ");
    reveal_strlit(",\n");
    reveal_strlit("CREATE TABLE IF NOT EXISTS authors (\n");
    reveal_strlit("TEXT");
    reveal_strlit("TEXT NOT NULL");
    reveal_strlit("bio");
    reveal_strlit("birth_date");
    reveal_strlit("created_at");
    reveal_strlit("death_date");
    reveal_strlit("id");
    reveal_strlit("int4 NOT NULL DEFAULT 0");
    reveal_strlit("int8 NOT NULL DEFAULT nextval('authors_id_seq'::regclass)");
    reveal_strlit("name");
    reveal_strlit("open_library_id");
    reveal_strlit("photo_id");
    reveal_strlit("slug");
    reveal_strlit("sort_name");
    reveal_strlit("timestamp NOT NULL");
    reveal_strlit("updated_at");
    reveal_strlit("works_count");
    reveal_with_fuel(typed, 13);
    assert(s.subrange(189, 572) =~= "CREATE TABLE IF NOT EXISTS authors (\n"@ + typed(authors_table()) + ",\n"@);
    assert(occurs_at(s, "CREATE TABLE IF NOT EXISTS authors (\n"@ + typed(authors_table()) + ",\n"@, 189));
}

#[verifier::spinoff_prover]
#[verifier::rlimit(100)]
proof fn lemma_works_table()
    ensures
        contains_text(DDL@, "CREATE TABLE IF NOT EXISTS works (\n"@ + typed(works_table()) + ",\n"@),
{
    let s = DDL@;
    reveal_strlit("
CREATE SEQUENCE IF NOT EXISTS authors_id_seq;
CREATE SEQUENCE IF NOT EXISTS works_id_seq;
CREATE SEQUENCE IF NOT EXISTS authorships_id_seq;
CREATE SEQUENCE IF NOT EXISTS editions_id_seq;

CREATE TABLE IF NOT EXISTS authors (
    created_at timestamp NOT NULL,
    updated_at timestamp NOT NULL,
    id int8 NOT NULL DEFAULT nextval('authors_id_seq'::regclass),
    open_library_id TEXT,
    works_count int4 NOT NULL DEFAULT 0,
    name TEXT NOT NULL,
    bio TEXT,
    sort_name TEXT,
    birth_date TEXT,
    death_date TEXT,
    photo_id TEXT,
    slug TEXT NOT NULL,
    PRIMARY KEY (id)
);

CREATE TABLE IF NOT EXISTS works (
    created_at timestamp NOT NULL,
    updated_at timestamp NOT NULL,
    id int8 NOT NULL DEFAULT nextval('works_id_seq'::regclass),
    open_library_id TEXT,
    edition_count int4 NOT NULL DEFAULT 0,
    title TEXT NOT NULL,
    subtitle TEXT,
    description TEXT,
    cover_id TEXT,
    first_publish_date TEXT,
    first_publish_year int4,
    subjects TEXT[] NOT NULL DEFAULT '{}',
    slug TEXT NOT NULL,
    PRIMARY KEY (id)
);

CREATE TABLE IF NOT EXISTS authorships (
    created_at timestamp NOT NULL,
    updated_at timestamp NOT NULL,
    id int8 NOT NULL DEFAULT nextval('authorships_id_seq'::regclass),
    author_id int8 NOT NULL,
    work_id int8 NOT NULL,
    position int4 NOT NULL DEFAULT 0,
    CONSTRAINT works_fk FOREIGN KEY (work_id) REFERENCES works(id),
    CONSTRAINT authors_fk FOREIGN KEY (author_id) REFERENCES authors(id),
    PRIMARY KEY (id)
);

CREATE TABLE IF NOT EXISTS editions (
    created_at timestamp NOT NULL,
    updated_at timestamp NOT NULL,
    id int8 NOT NULL DEFAULT nextval('editions_id_seq'::regclass),
    open_library_id TEXT,
    work_id int8 NOT NULL,
    google_books_id TEXT,
    goodreads_id TEXT,
    asin TEXT,
    title TEXT,
    cover_id TEXT,
    format TEXT,
    isbn10 TEXT,
    isbn13 TEXT,
    language TEXT,
    page_count int4,
    published_year int4,
    publisher TEXT,
    subtitle TEXT,
    series TEXT,
    edition_name TEXT,
    internet_archive_id TEXT,
    slug TEXT NOT NULL,
    CONSTRAINT works_fk FOREIGN KEY (work_id) REFERENCES works(id),
    PRIMARY KEY (id)
);
");
    reveal_strlit(" ");
    reveal_strlit("    ");
    reveal_strlit(",\n");
    reveal_strlit("CREATE TABLE IF NOT EXISTS works (\n");
    reveal_strlit("TEXT");
    reveal_strlit("TEXT NOT NULL");
    reveal_strlit("TEXT[] NOT NULL DEFAULT '{}'");
    reveal_strlit("cover_id");
    reveal_strlit("created_at");
    reveal_strlit("description");
    reveal_strlit("edition_count");
    reveal_strlit("first_publish_date");
    reveal_strlit("first_publish_year");
    reveal_strlit("id");
    reveal_strlit("int4");
    reveal_strlit("int4 NOT NULL DEFAULT 0");
    reveal_strlit("int8 NOT NULL DEFAULT nextval('works_id_seq'::regclass)");
    reveal_strlit("open_library_id");
    reveal_strlit("slug");
    reveal_strlit("subjects");
    reveal_strlit("subtitle");
    reveal_strlit("timestamp NOT NULL");
    reveal_strlit("title");
    reveal_strlit("updated_at");
    reveal_with_fuel(typed, 14);
    assert(s.subrange(597, 1045) =~= "CREATE TABLE IF NOT EXISTS works (\n"@ + typed(works_table()) + ",\n"@);
    assert(occurs_at(s, "CREATE TABLE IF NOT EXISTS works (\n"@ + typed(works_table()) + ",\n"@, 597));
}

proof fn lemma_authorships_table()
    ensures
        contains_text(DDL@, "CREATE TABLE IF NOT EXISTS authorships (\n"@ + typed(authorships_table()) + ",\n"@),
{
    let s = DDL@;
    reveal_strlit("
CREATE SEQUENCE IF NOT EXISTS authors_id_seq;
CREATE SEQUENCE IF NOT EXISTS works_id_seq;
CREATE SEQUENCE IF NOT EXISTS authorships_id_seq;
CREATE SEQUENCE IF NOT EXISTS editions_id_seq;

CREATE TABLE IF NOT EXISTS authors (
    created_at timestamp NOT NULL,
    updated_at timestamp NOT NULL,
    id int8 NOT NULL DEFAULT nextval('authors_id_seq'::regclass),
    open_library_id TEXT,
    works_count int4 NOT NULL DEFAULT 0,
    name TEXT NOT NULL,
    bio TEXT,
    sort_name TEXT,
    birth_date TEXT,
    death_date TEXT,
    photo_id TEXT,
    slug TEXT NOT NULL,
    PRIMARY KEY (id)
);

CREATE TABLE IF NOT EXISTS works (
    created_at timestamp NOT NULL,
    updated_at timestamp NOT NULL,
    id int8 NOT NULL DEFAULT nextval('works_id_seq'::regclass),
    open_library_id TEXT,
    edition_count int4 NOT NULL DEFAULT 0,
    title TEXT NOT NULL,
    subtitle TEXT,
    description TEXT,
    cover_id TEXT,
    first_publish_date TEXT,
    first_publish_year int4,
    subjects TEXT[] NOT NULL DEFAULT '{}',
    slug TEXT NOT NULL,
    PRIMARY KEY (id)
);

CREATE TABLE IF NOT EXISTS authorships (
    created_at timestamp NOT NULL,
    updated_at timestamp NOT NULL,
    id int8 NOT NULL DEFAULT nextval('authorships_id_seq'::regclass),
    author_id int8 NOT NULL,
    work_id int8 NOT NULL,
    position int4 NOT NULL DEFAULT 0,
    CONSTRAINT works_fk FOREIGN KEY (work_id) REFERENCES works(id),
    CONSTRAINT authors_fk FOREIGN KEY (author_id) REFERENCES authors(id),
    PRIMARY KEY (id)
);

CREATE TABLE IF NOT EXISTS editions (
    created_at timestamp NOT NULL,
    updated_at timestamp NOT NULL,
    id int8 NOT NULL DEFAULT nextval('editions_id_seq'::regclass),
    open_library_id TEXT,
    work_id int8 NOT NULL,
    google_books_id TEXT,
    goodreads_id TEXT,
    asin TEXT,
    title TEXT,
    cover_id TEXT,
    format TEXT,
    isbn10 TEXT,
    isbn13 TEXT,
    language TEXT,
    page_count int4,
    published_year int4,
    publisher TEXT,
    subtitle TEXT,
    series TEXT,
    edition_name TEXT,
    internet_archive_id TEXT,
    slug TEXT NOT NULL,
    CONSTRAINT works_fk FOREIGN KEY (work_id) REFERENCES works(id),
    PRIMARY KEY (id)
);
");
    reveal_strlit(" ");
    reveal_strlit("    ");
    reveal_strlit(",\n");
    reveal_strlit("CREATE TABLE IF NOT EXISTS authorships (\n");
    reveal_strlit("author_id");
    reveal_strlit("created_at");
    reveal_strlit("id");
    reveal_strlit("int4 NOT NULL DEFAULT 0");
    reveal_strlit("int8 NOT NULL");
    reveal_strlit("int8 NOT NULL DEFAULT nextval('authorships_id_seq'::regclass)");
    reveal_strlit("position");
    reveal_strlit("timestamp NOT NULL");
    reveal_strlit("updated_at");
    reveal_strlit("work_id");
    reveal_with_fuel(typed, 7);
    assert(s.subrange(1070, 1345) =~= "CREATE TABLE IF NOT EXISTS authorships (\n"@ + typed(authorships_table()) + ",\n"@);
    assert(occurs_at(s, "CREATE TABLE IF NOT EXISTS authorships (\n"@ + typed(authorships_table()) + ",\n"@, 1070));
}

#[verifier::spinoff_prover]
#[verifier::rlimit(100)]
proof fn lemma_editions_table()
    ensures
        contains_text(DDL@, "CREATE TABLE IF NOT EXISTS editions (\n"@ + typed(editions_table()) + ",\n"@),
{
    let s = DDL@;
    reveal_strlit("
CREATE SEQUENCE IF NOT EXISTS authors_id_seq;
CREATE SEQUENCE IF NOT EXISTS works_id_seq;
CREATE SEQUENCE IF NOT EXISTS authorships_id_seq;
CREATE SEQUENCE IF NOT EXISTS editions_id_seq;

CREATE TABLE IF NOT EXISTS authors (
    created_at timestamp NOT NULL,
    updated_at timestamp NOT NULL,
    id int8 NOT NULL DEFAULT nextval('authors_id_seq'::regclass),
    open_library_id TEXT,
    works_count int4 NOT NULL DEFAULT 0,
    name TEXT NOT NULL,
    bio TEXT,
    sort_name TEXT,
    birth_date TEXT,
    death_date TEXT,
    photo_id TEXT,
    slug TEXT NOT NULL,
    PRIMARY KEY (id)
);

CREATE TABLE IF NOT EXISTS works (
    created_at timestamp NOT NULL,
    updated_at timestamp NOT NULL,
    id int8 NOT NULL DEFAULT nextval('works_id_seq'::regclass),
    open_library_id TEXT,
    edition_count int4 NOT NULL DEFAULT 0,
    title TEXT NOT NULL,
    subtitle TEXT,
    description TEXT,
    cover_id TEXT,
    first_publish_date TEXT,
    first_publish_year int4,
    subjects TEXT[] NOT NULL DEFAULT '{}',
    slug TEXT NOT NULL,
    PRIMARY KEY (id)
);

CREATE TABLE IF NOT EXISTS authorships (
    created_at timestamp NOT NULL,
    updated_at timestamp NOT NULL,
    id int8 NOT NULL DEFAULT nextval('authorships_id_seq'::regclass),
    author_id int8 NOT NULL,
    work_id int8 NOT NULL,
    position int4 NOT NULL DEFAULT 0,
    CONSTRAINT works_fk FOREIGN KEY (work_id) REFERENCES works(id),
    CONSTRAINT authors_fk FOREIGN KEY (author_id) REFERENCES authors(id),
    PRIMARY KEY (id)
);

CREATE TABLE IF NOT EXISTS editions (
    created_at timestamp NOT NULL,
    updated_at timestamp NOT NULL,
    id int8 NOT NULL DEFAULT nextval('editions_id_seq'::regclass),
    open_library_id TEXT,
    work_id int8 NOT NULL,
    google_books_id TEXT,
    goodreads_id TEXT,
    asin TEXT,
    title TEXT,
    cover_id TEXT,
    format TEXT,
    isbn10 TEXT,
    isbn13 TEXT,
    language TEXT,
    page_count int4,
    published_year int4,
    publisher TEXT,
    subtitle TEXT,
    series TEXT,
    edition_name TEXT,
    internet_archive_id TEXT,
    slug TEXT NOT NULL,
    CONSTRAINT works_fk FOREIGN KEY (work_id) REFERENCES works(id),
    PRIMARY KEY (id)
);
");
    reveal_strlit(" ");
    reveal_strlit("    ");
    reveal_strlit(",\n");
    reveal_strlit("CREATE TABLE IF NOT EXISTS editions (\n");
    reveal_strlit("TEXT");
    reveal_strlit("TEXT NOT NULL");
    reveal_strlit("asin");
    reveal_strlit("cover_id");
    reveal_strlit("created_at");
    reveal_strlit("edition_name");
    reveal_strlit("format");
    reveal_strlit("goodreads_id");
    reveal_strlit("google_books_id");
    reveal_strlit("id");
    reveal_strlit("int4");
    reveal_strlit("int8 NOT NULL");
    reveal_strlit("int8 NOT NULL DEFAULT nextval('editions_id_seq'::regclass)");
    reveal_strlit("internet_archive_id");
    reveal_strlit("isbn10");
    reveal_strlit("isbn13");
    reveal_strlit("language");
    reveal_strlit("open_library_id");
    reveal_strlit("page_count");
    reveal_strlit("published_year");
    reveal_strlit("publisher");
    reveal_strlit("series");
    reveal_strlit("slug");
    reveal_strlit("subtitle");
    reveal_strlit("timestamp NOT NULL");
    reveal_strlit("title");
    reveal_strlit("updated_at");
    reveal_strlit("work_id");
    reveal_with_fuel(typed, 23);
    assert(s.subrange(1512, 2088) =~= "CREATE TABLE IF NOT EXISTS editions (\n"@ + typed(editions_table()) + ",\n"@);
    assert(occurs_at(s, "CREATE TABLE IF NOT EXISTS editions (\n"@ + typed(editions_table()) + ",\n"@, 1512));
}

/// The tables are created with a column for everything that an import writes.
pub proof fn law_tables_have_the_columns(i: int)
    ensures
        contains_text(DDL@, "CREATE TABLE IF NOT EXISTS authors (\n"@ + typed(authors_table()) + ",\n"@),
        contains_text(DDL@, "CREATE TABLE IF NOT EXISTS works (\n"@ + typed(works_table()) + ",\n"@),
        contains_text(DDL@, "CREATE TABLE IF NOT EXISTS authorships (\n"@ + typed(authorships_table()) + ",\n"@),
        contains_text(DDL@, "CREATE TABLE IF NOT EXISTS editions (\n"@ + typed(editions_table()) + ",\n"@),
        0 <= i < author_columns().len() ==> names_of_columns(authors_table()).contains(author_columns()[i]),
        0 <= i < work_columns().len() ==> names_of_columns(works_table()).contains(work_columns()[i]),
        0 <= i < edition_columns().len() ==> names_of_columns(editions_table()).contains(edition_columns()[i]),
{
    lemma_authors_table();
    lemma_works_table();
    lemma_authorships_table();
    lemma_editions_table();
    assert(names_of_columns(authors_table())[3] == author_columns()[0]);
    assert(names_of_columns(authors_table())[5] == author_columns()[1]);
    assert(names_of_columns(authors_table())[6] == author_columns()[2]);
    assert(names_of_columns(authors_table())[8] == author_columns()[3]);
    assert(names_of_columns(authors_table())[9] == author_columns()[4]);
    assert(names_of_columns(authors_table())[10] == author_columns()[5]);
    assert(names_of_columns(works_table())[3] == work_columns()[0]);
    assert(names_of_columns(works_table())[5] == work_columns()[1]);
    assert(names_of_columns(works_table())[6] == work_columns()[2]);
    assert(names_of_columns(works_table())[7] == work_columns()[3]);
    assert(names_of_columns(works_table())[9] == work_columns()[4]);
    assert(names_of_columns(works_table())[10] == work_columns()[5]);
    assert(names_of_columns(works_table())[8] == work_columns()[6]);
    assert(names_of_columns(works_table())[11] == work_columns()[7]);
    assert(names_of_columns(editions_table())[3] == edition_columns()[0]);
    assert(names_of_columns(editions_table())[8] == edition_columns()[1]);
    assert(names_of_columns(editions_table())[17] == edition_columns()[2]);
    assert(names_of_columns(editions_table())[7] == edition_columns()[3]);
    assert(names_of_columns(editions_table())[9] == edition_columns()[4]);
    assert(names_of_columns(editions_table())[10] == edition_columns()[5]);
    assert(names_of_columns(editions_table())[6] == edition_columns()[6]);
    assert(names_of_columns(editions_table())[5] == edition_columns()[7]);
    assert(names_of_columns(editions_table())[11] == edition_columns()[8]);
    assert(names_of_columns(editions_table())[12] == edition_columns()[9]);
    assert(names_of_columns(editions_table())[13] == edition_columns()[10]);
    assert(names_of_columns(editions_table())[14] == edition_columns()[11]);
    assert(names_of_columns(editions_table())[15] == edition_columns()[12]);
    assert(names_of_columns(editions_table())[16] == edition_columns()[13]);
    assert(names_of_columns(editions_table())[18] == edition_columns()[14]);
    assert(names_of_columns(editions_table())[19] == edition_columns()[15]);
    assert(names_of_columns(editions_table())[20] == edition_columns()[16]);
}

// ---------------------------------------------------------------------------
// Counts and links
// ---------------------------------------------------------------------------

/// The statement that sets a counter to the number of children, where it is wrong.
pub open spec fn recount_text(
    parent: Seq<char>,
    counter: Seq<char>,
    child: Seq<char>,
    key: Seq<char>,
) -> Seq<char> {
    "UPDATE "@ + parent + " SET "@ + counter + " = c.n\n             FROM (SELECT "@ + key
        + ", count(*)::int4 AS n FROM "@ + child + " GROUP BY "@ + key
        + ") c\n             WHERE "@ + parent + ".id = c."@ + key + " AND "@ + parent + "."@
        + counter + " IS DISTINCT FROM c.n"@
}

/// The statement that sets a counter to 0 where there is no child.
pub open spec fn clear_text(
    parent: Seq<char>,
    counter: Seq<char>,
    child: Seq<char>,
    row: Seq<char>,
    key: Seq<char>,
) -> Seq<char> {
    "UPDATE "@ + parent + " SET "@ + counter + " = 0\n             WHERE "@ + counter
        + " <> 0\n               AND NOT EXISTS (SELECT 1 FROM "@ + child + " "@ + row + " WHERE "@
        + row + "."@ + key + " = "@ + parent + ".id)"@
}

#[verifier::spinoff_prover]
#[verifier::rlimit(100)]
proof fn lemma_recount_editions_text()
    ensures
        RECOUNT_EDITIONS@ == recount_text("works"@, "edition_count"@, "editions"@, "work_id"@),
{
    let s = RECOUNT_EDITIONS@;
    reveal_strlit("UPDATE works SET edition_count = c.n
             FROM (SELECT work_id, count(*)::int4 AS n FROM editions GROUP BY work_id) c
             WHERE works.id = c.work_id AND works.edition_count IS DISTINCT FROM c.n");
    reveal_strlit(" = c.n\n             FROM (SELECT ");
    reveal_strlit(" AND ");
    reveal_strlit(" GROUP BY ");
    reveal_strlit(" IS DISTINCT FROM c.n");
    reveal_strlit(" SET ");
    reveal_strlit(") c\n             WHERE ");
    reveal_strlit(", count(*)::int4 AS n FROM ");
    reveal_strlit(".");
    reveal_strlit(".id = c.");
    reveal_strlit("UPDATE ");
    reveal_strlit("edition_count");
    reveal_strlit("editions");
    reveal_strlit("work_id");
    reveal_strlit("works");
    assert(s =~= "UPDATE "@ + "works"@ + " SET "@ + "edition_count"@ + " = c.n\n             FROM (SELECT "@ + "work_id"@ + ", count(*)::int4 AS n FROM "@ + "editions"@ + " GROUP BY "@ + "work_id"@ + ") c\n             WHERE "@ + "works"@ + ".id = c."@ + "work_id"@ + " AND "@ + "works"@ + "."@ + "edition_count"@ + " IS DISTINCT FROM c.n"@);
}

#[verifier::spinoff_prover]
#[verifier::rlimit(100)]
proof fn lemma_recount_works_text()
    ensures
        RECOUNT_WORKS@ == recount_text("authors"@, "works_count"@, "authorships"@, "author_id"@),
{
    let s = RECOUNT_WORKS@;
    reveal_strlit("UPDATE authors SET works_count = c.n
             FROM (SELECT author_id, count(*)::int4 AS n FROM authorships GROUP BY author_id) c
             WHERE authors.id = c.author_id AND authors.works_count IS DISTINCT FROM c.n");
    reveal_strlit(" = c.n\n             FROM (SELECT ");
    reveal_strlit(" AND ");
    reveal_strlit(" GROUP BY ");
    reveal_strlit(" IS DISTINCT FROM c.n");
    reveal_strlit(" SET ");
    reveal_strlit(") c\n             WHERE ");
    reveal_strlit(", count(*)::int4 AS n FROM ");
    reveal_strlit(".");
    reveal_strlit(".id = c.");
    reveal_strlit("UPDATE ");
    reveal_strlit("author_id");
    reveal_strlit("authors");
    reveal_strlit("authorships");
    reveal_strlit("works_count");
    assert(s =~= "UPDATE "@ + "authors"@ + " SET "@ + "works_count"@ + " = c.n\n             FROM (SELECT "@ + "author_id"@ + ", count(*)::int4 AS n FROM "@ + "authorships"@ + " GROUP BY "@ + "author_id"@ + ") c\n             WHERE "@ + "authors"@ + ".id = c."@ + "author_id"@ + " AND "@ + "authors"@ + "."@ + "works_count"@ + " IS DISTINCT FROM c.n"@);
}

#[verifier::spinoff_prover]
#[verifier::rlimit(100)]
proof fn lemma_clear_edition_counts_text()
    ensures
        CLEAR_EDITION_COUNTS@ == clear_text("works"@, "edition_count"@, "editions"@, "e"@, "work_id"@),
{
    let s = CLEAR_EDITION_COUNTS@;
    reveal_strlit("UPDATE works SET edition_count = 0
             WHERE edition_count <> 0
               AND NOT EXISTS (SELECT 1 FROM editions e WHERE e.work_id = works.id)");
    reveal_strlit(" ");
    reveal_strlit(" <> 0\n               AND NOT EXISTS (SELECT 1 FROM ");
    reveal_strlit(" = ");
    reveal_strlit(" = 0\n             WHERE ");
    reveal_strlit(" SET ");
    reveal_strlit(" WHERE ");
    reveal_strlit(".");
    reveal_strlit(".id)");
    reveal_strlit("UPDATE ");
    reveal_strlit("e");
    reveal_strlit("edition_count");
    reveal_strlit("editions");
    reveal_strlit("work_id");
    reveal_strlit("works");
    assert(s =~= "UPDATE "@ + "works"@ + " SET "@ + "edition_count"@ + " = 0\n             WHERE "@ + "edition_count"@ + " <> 0\n               AND NOT EXISTS (SELECT 1 FROM "@ + "editions"@ + " "@ + "e"@ + " WHERE "@ + "e"@ + "."@ + "work_id"@ + " = "@ + "works"@ + ".id)"@);
}

#[verifier::spinoff_prover]
#[verifier::rlimit(100)]
proof fn lemma_clear_work_counts_text()
    ensures
        CLEAR_WORK_COUNTS@ == clear_text("authors"@, "works_count"@, "authorships"@, "s"@, "author_id"@),
{
    let s = CLEAR_WORK_COUNTS@;
    reveal_strlit("UPDATE authors SET works_count = 0
             WHERE works_count <> 0
               AND NOT EXISTS (SELECT 1 FROM authorships s WHERE s.author_id = authors.id)");
    reveal_strlit(" ");
    reveal_strlit(" <> 0\n               AND NOT EXISTS (SELECT 1 FROM ");
    reveal_strlit(" = ");
    reveal_strlit(" = 0\n             WHERE ");
    reveal_strlit(" SET ");
    reveal_strlit(" WHERE ");
    reveal_strlit(".");
    reveal_strlit(".id)");
    reveal_strlit("UPDATE ");
    reveal_strlit("author_id");
    reveal_strlit("authors");
    reveal_strlit("authorships");
    reveal_strlit("s");
    reveal_strlit("works_count");
    assert(s =~= "UPDATE "@ + "authors"@ + " SET "@ + "works_count"@ + " = 0\n             WHERE "@ + "works_count"@ + " <> 0\n               AND NOT EXISTS (SELECT 1 FROM "@ + "authorships"@ + " "@ + "s"@ + " WHERE "@ + "s"@ + "."@ + "author_id"@ + " = "@ + "authors"@ + ".id)"@);
}

/// The counter of a work counts its editions, that of an author the works: each is set to
/// the number of rows that refer to the row by its id, and to 0 where there is none.
pub proof fn law_counters_count()
    ensures
        RECOUNT_EDITIONS@ == recount_text("works"@, "edition_count"@, "editions"@, "work_id"@),
        CLEAR_EDITION_COUNTS@ == clear_text(
            "works"@,
            "edition_count"@,
            "editions"@,
            "e"@,
            "work_id"@,
        ),
        RECOUNT_WORKS@ == recount_text("authors"@, "works_count"@, "authorships"@, "author_id"@),
        CLEAR_WORK_COUNTS@ == clear_text(
            "authors"@,
            "works_count"@,
            "authorships"@,
            "s"@,
            "author_id"@,
        ),
{
    lemma_recount_editions_text();
    lemma_recount_works_text();
    lemma_clear_edition_counts_text();
    lemma_clear_work_counts_text();
}

/// The columns of a link.
pub open spec fn link_columns() -> Seq<Seq<char>> {
    seq![
        "work_id"@,
        "author_id"@,
        "position"@,
        "created_at"@,
        "updated_at"@,
    ]
}

/// What the columns of a link are filled with, in their order.
pub open spec fn link_values() -> Seq<Seq<char>> {
    seq![
        "w.id"@,
        "a.id"@,
        "MIN(r.position)"@,
        "$1::timestamp"@,
        "$1::timestamp"@,
    ]
}

/// A link joins the work and the author that are staged together, found by their
/// open_library_ids, in the first position that is staged for them; one that is there
/// already gets the position and the update time.
#[verifier::spinoff_prover]
#[verifier::rlimit(100)]
pub proof fn law_links_join_works_and_authors()
    ensures
        Table::Authorships.insert_text() == "\nINSERT INTO authorships ("@ + listed(link_columns()) + ")\nSELECT "@ + listed(link_values())
            + "\nFROM _import_work_author_refs r"@
            + "\nJOIN works w ON w.open_library_id = r.work_olid"@
            + "\nJOIN authors a ON a.open_library_id = r.author_olid"@ + "\nGROUP BY w.id, a.id"@
            + "\nON CONFLICT (work_id, author_id) DO UPDATE SET"@
            + "\n    position = EXCLUDED.position,"@ + "\n    updated_at = EXCLUDED.updated_at"@,
{
    let s = UPSERT_AUTHORSHIPS@;
    reveal_strlit("
INSERT INTO authorships (work_id, author_id, position, created_at, updated_at)
SELECT w.id, a.id, MIN(r.position), $1::timestamp, $1::timestamp
FROM _import_work_author_refs r
JOIN works w ON w.open_library_id = r.work_olid
JOIN authors a ON a.open_library_id = r.author_olid
GROUP BY w.id, a.id
ON CONFLICT (work_id, author_id) DO UPDATE SET
    position = EXCLUDED.position,
    updated_at = EXCLUDED.updated_at");
    reveal_strlit("\n    position = EXCLUDED.position,");
    reveal_strlit("\n    updated_at = EXCLUDED.updated_at");
    reveal_strlit("\nFROM _import_work_author_refs r");
    reveal_strlit("\nGROUP BY w.id, a.id");
    reveal_strlit("\nINSERT INTO authorships (");
    reveal_strlit("\nJOIN authors a ON a.open_library_id = r.author_olid");
    reveal_strlit("\nJOIN works w ON w.open_library_id = r.work_olid");
    reveal_strlit("\nON CONFLICT (work_id, author_id) DO UPDATE SET");
    reveal_strlit("$1::timestamp");
    reveal_strlit(")\nSELECT ");
    reveal_strlit(", ");
    reveal_strlit("MIN(r.position)");
    reveal_strlit("a.id");
    reveal_strlit("author_id");
    reveal_strlit("created_at");
    reveal_strlit("position");
    reveal_strlit("updated_at");
    reveal_strlit("w.id");
    reveal_strlit("work_id");
    reveal_with_fuel(listed, 6);
    assert(s =~= "\nINSERT INTO authorships ("@ + listed(link_columns()) + ")\nSELECT "@ + listed(link_values()) + "\nFROM _import_work_author_refs r"@ + "\nJOIN works w ON w.open_library_id = r.work_olid"@ + "\nJOIN authors a ON a.open_library_id = r.author_olid"@ + "\nGROUP BY w.id, a.id"@ + "\nON CONFLICT (work_id, author_id) DO UPDATE SET"@ + "\n    position = EXCLUDED.position,"@ + "\n    updated_at = EXCLUDED.updated_at"@);
}

/// New works are those with a staged edition, and new authors those of such a work.
pub proof fn law_new_rows_have_editions()
    ensures
        Table::Works.insert_text() == insert_works_text(
            "AND open_library_id IN ("@ + "SELECT work_olid FROM _import_editions_staging"@ + ")"@,
        ),
        Table::Authors.insert_text() == insert_authors_text(
            "AND open_library_id IN ("@ + "\n    SELECT r.author_olid"@
                + "\n    FROM _import_work_author_refs r"@
                + "\n    JOIN _import_editions_staging e ON e.work_olid = r.work_olid"@ + ")"@,
        ),
{
    lemma_new_works();
    lemma_new_authors();
}

proof fn lemma_new_works()
    ensures
        WORKS_WITH_STAGED_EDITIONS@ == "AND open_library_id IN ("@
            + "SELECT work_olid FROM _import_editions_staging"@ + ")"@,
{
    let s = WORKS_WITH_STAGED_EDITIONS@;
    reveal_strlit("AND open_library_id IN (SELECT work_olid FROM _import_editions_staging)");
    reveal_strlit(")");
    reveal_strlit("AND open_library_id IN (");
    reveal_strlit("SELECT work_olid FROM _import_editions_staging");
    assert(s =~= "AND open_library_id IN ("@ + "SELECT work_olid FROM _import_editions_staging"@ + ")"@);
}

proof fn lemma_new_authors()
    ensures
        AUTHORS_ON_KEPT_WORKS@ == "AND open_library_id IN ("@ + "\n    SELECT r.author_olid"@
            + "\n    FROM _import_work_author_refs r"@
            + "\n    JOIN _import_editions_staging e ON e.work_olid = r.work_olid"@ + ")"@,
{
    let s = AUTHORS_ON_KEPT_WORKS@;
    reveal_strlit("AND open_library_id IN (
    SELECT r.author_olid
    FROM _import_work_author_refs r
    JOIN _import_editions_staging e ON e.work_olid = r.work_olid)");
    reveal_strlit("\n    FROM _import_work_author_refs r");
    reveal_strlit("\n    JOIN _import_editions_staging e ON e.work_olid = r.work_olid");
    reveal_strlit("\n    SELECT r.author_olid");
    reveal_strlit(")");
    reveal_strlit("AND open_library_id IN (");
    assert(s =~= "AND open_library_id IN ("@ + "\n    SELECT r.author_olid"@ + "\n    FROM _import_work_author_refs r"@ + "\n    JOIN _import_editions_staging e ON e.work_olid = r.work_olid"@ + ")"@);
}

} // verus!
