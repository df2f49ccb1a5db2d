//! The SQL of an import.
//!
//! Everything is imported by upserting on open_library_id so that row ids stay
//! stable across imports — the Rails app has tables (activities, …) holding
//! foreign keys into these tables, which truncate-and-reload would break or
//! cascade-wipe. Dumps are first COPY'd into unlogged staging tables (unlogged
//! rather than temp so a second connection can see them), then merged. Rows
//! that disappear from a newer dump are kept.
//!
//! The dumps carry far more than the app wants (works whose editions were all
//! dropped, authors with no surviving books). Full/dev imports admit new rows
//! via the staging-derived filters below; --only refreshes run the UPDATE half
//! only, so a partial reimport can never re-bloat the database.
//!
//! Merging is split into UPDATE-existing + INSERT-new (instead of one ON
//! CONFLICT upsert) because slugs demand it: an existing row's slug must never
//! change (URLs), while a new row's slug needs deduplication — batch
//! duplicates are ranked with ROW_NUMBER and offset by suffixes already taken
//! in the table, then written as `base--N`. Slugified text can never contain
//! `--`, so generated slugs can't collide with natural ones.

use vstd::prelude::*;

verus! {

/// Bulk-load tuning: crash-safety of individual commits doesn't matter here
/// (the import is restartable), and index builds want more memory.
pub const SESSION_SETTINGS: &'static str = "SET synchronous_commit = off; SET maintenance_work_mem = '1GB'";

pub const COUNT_WORKS: &'static str = "SELECT count(*) FROM works";

pub const STAGING_AUTHORS: &'static str = "
DROP TABLE IF EXISTS _import_authors_staging;
CREATE UNLOGGED TABLE _import_authors_staging (
    open_library_id TEXT NOT NULL,
    base_slug TEXT NOT NULL,
    name TEXT NOT NULL,
    bio TEXT,
    birth_date TEXT,
    death_date TEXT,
    photo_id TEXT
)";

pub const STAGING_WORKS: &'static str = "
DROP TABLE IF EXISTS _import_works_staging;
CREATE UNLOGGED TABLE _import_works_staging (
    open_library_id TEXT NOT NULL,
    base_slug TEXT NOT NULL,
    title TEXT NOT NULL,
    subtitle TEXT,
    description TEXT,
    first_publish_date TEXT,
    first_publish_year int4,
    cover_id TEXT,
    subjects TEXT[] NOT NULL
)";

pub const STAGING_EDITIONS: &'static str = "
DROP TABLE IF EXISTS _import_editions_staging;
CREATE UNLOGGED TABLE _import_editions_staging (
    work_olid TEXT NOT NULL,
    open_library_id TEXT NOT NULL,
    base_slug TEXT NOT NULL,
    title TEXT,
    subtitle TEXT,
    asin TEXT,
    cover_id TEXT,
    format TEXT,
    goodreads_id TEXT,
    google_books_id TEXT,
    isbn10 TEXT,
    isbn13 TEXT,
    language TEXT,
    page_count int4,
    published_year int4,
    publisher TEXT,
    series TEXT,
    edition_name TEXT,
    internet_archive_id TEXT
)";

/// Work→author links captured while scanning the works dump.
pub const STAGING_REFS: &'static str = "
DROP TABLE IF EXISTS _import_work_author_refs;
CREATE UNLOGGED TABLE _import_work_author_refs (
    work_olid TEXT NOT NULL,
    author_olid TEXT NOT NULL,
    position int4 NOT NULL
)";

pub const DROP_STAGING: &'static str = "DROP TABLE IF EXISTS _import_authors_staging;
         DROP TABLE IF EXISTS _import_works_staging;
         DROP TABLE IF EXISTS _import_editions_staging;
         DROP TABLE IF EXISTS _import_work_author_refs";

pub const COPY_AUTHORS: &'static str = "COPY _import_authors_staging (open_library_id, base_slug, name, bio, birth_date, death_date, photo_id) FROM STDIN BINARY";

pub const COPY_WORKS: &'static str = "COPY _import_works_staging (open_library_id, base_slug, title, subtitle, description, first_publish_date, first_publish_year, cover_id, subjects) FROM STDIN BINARY";

pub const COPY_REFS: &'static str = "COPY _import_work_author_refs (work_olid, author_olid, position) FROM STDIN BINARY";

pub const COPY_EDITIONS: &'static str = "COPY _import_editions_staging (work_olid, open_library_id, base_slug, title, subtitle, asin, cover_id, format, goodreads_id, google_books_id, isbn10, isbn13, language, page_count, published_year, publisher, series, edition_name, internet_archive_id) FROM STDIN BINARY";

/// Full/dev: authors credited on at least one work that has a staged edition.
pub const AUTHORS_ON_KEPT_WORKS: &'static str = "AND open_library_id IN (
    SELECT r.author_olid
    FROM _import_work_author_refs r
    JOIN _import_editions_staging e ON e.work_olid = r.work_olid)";

/// Full/dev: works with at least one staged edition.
pub const WORKS_WITH_STAGED_EDITIONS: &'static str = "AND open_library_id IN (SELECT work_olid FROM _import_editions_staging)";

pub const UPDATE_AUTHORS: &'static str = "
UPDATE authors a SET
    name = s.name,
    bio = s.bio,
    birth_date = s.birth_date,
    death_date = s.death_date,
    photo_id = s.photo_id,
    updated_at = $1::timestamp
FROM (SELECT DISTINCT ON (open_library_id) * FROM _import_authors_staging) s
WHERE a.open_library_id = s.open_library_id";

pub const UPDATE_WORKS: &'static str = "
UPDATE works w SET
    title = s.title,
    subtitle = s.subtitle,
    description = s.description,
    first_publish_date = s.first_publish_date,
    first_publish_year = s.first_publish_year,
    cover_id = s.cover_id,
    subjects = s.subjects,
    updated_at = $1::timestamp
FROM (SELECT DISTINCT ON (open_library_id) * FROM _import_works_staging) s
WHERE w.open_library_id = s.open_library_id";

pub const UPDATE_EDITIONS: &'static str = "
UPDATE editions e SET
    title = s.title,
    subtitle = s.subtitle,
    asin = s.asin,
    cover_id = s.cover_id,
    format = s.format,
    goodreads_id = s.goodreads_id,
    google_books_id = s.google_books_id,
    isbn10 = s.isbn10,
    isbn13 = s.isbn13,
    language = s.language,
    page_count = s.page_count,
    published_year = s.published_year,
    publisher = s.publisher,
    series = s.series,
    edition_name = s.edition_name,
    internet_archive_id = s.internet_archive_id,
    work_id = w.id,
    updated_at = $1::timestamp
FROM (SELECT DISTINCT ON (open_library_id) * FROM _import_editions_staging) s
JOIN works w ON w.open_library_id = s.work_olid
WHERE e.open_library_id = s.open_library_id";

pub const UPSERT_AUTHORSHIPS: &'static str = "
INSERT INTO authorships (work_id, author_id, position, created_at, updated_at)
SELECT w.id, a.id, MIN(r.position), $1::timestamp, $1::timestamp
FROM _import_work_author_refs r
JOIN works w ON w.open_library_id = r.work_olid
JOIN authors a ON a.open_library_id = r.author_olid
GROUP BY w.id, a.id
ON CONFLICT (work_id, author_id) DO UPDATE SET
    position = EXCLUDED.position,
    updated_at = EXCLUDED.updated_at";

/// Refreshes the `works.edition_count` counter cache, touching only rows whose
/// count is actually wrong.
pub const RECOUNT_EDITIONS: &'static str = "UPDATE works SET edition_count = c.n
             FROM (SELECT work_id, count(*)::int4 AS n FROM editions GROUP BY work_id) c
             WHERE works.id = c.work_id AND works.edition_count IS DISTINCT FROM c.n";

/// Works that have lost their last edition.
pub const CLEAR_EDITION_COUNTS: &'static str = "UPDATE works SET edition_count = 0
             WHERE edition_count <> 0
               AND NOT EXISTS (SELECT 1 FROM editions e WHERE e.work_id = works.id)";

/// Refreshes the `authors.works_count` counter cache.
pub const RECOUNT_WORKS: &'static str = "UPDATE authors SET works_count = c.n
             FROM (SELECT author_id, count(*)::int4 AS n FROM authorships GROUP BY author_id) c
             WHERE authors.id = c.author_id AND authors.works_count IS DISTINCT FROM c.n";

/// Authors that have lost their last work.
pub const CLEAR_WORK_COUNTS: &'static str = "UPDATE authors SET works_count = 0
             WHERE works_count <> 0
               AND NOT EXISTS (SELECT 1 FROM authorships s WHERE s.author_id = authors.id)";

/// The text of [`slugged_insert_sql`].
pub open spec fn slugged_insert_text(
    table: Seq<char>,
    filter: Seq<char>,
    columns: Seq<char>,
    values: Seq<char>,
    joins: Seq<char>,
) -> Seq<char> {
    "
INSERT INTO "@ + table + " ("@ + columns + ", slug, created_at, updated_at)
SELECT "@ + values + ",
       CASE WHEN n.rn + COALESCE(o.taken, 0) = 1 THEN n.base_slug
            ELSE n.base_slug || '--' || (n.rn + COALESCE(o.taken, 0)) END,
       $1::timestamp, $1::timestamp
FROM (
    SELECT s.*, ROW_NUMBER() OVER (PARTITION BY s.base_slug ORDER BY s.open_library_id) AS rn
    FROM (
        SELECT DISTINCT ON (open_library_id) *
        FROM _import_"@ + table + "_staging
        WHERE open_library_id NOT IN (
            SELECT open_library_id FROM "@ + table + " WHERE open_library_id IS NOT NULL)
        "@ + filter + "
    ) s
) n
"@ + joins + "
LEFT JOIN LATERAL (
    SELECT max(CASE WHEN t.slug = n.base_slug THEN 1
                    ELSE (substring(t.slug FROM '([0-9]+)$'))::int END) AS taken
    FROM "@ + table + " t
    WHERE t.slug = n.base_slug
       OR (t.slug >= n.base_slug || '--' AND t.slug < n.base_slug || '-.'
           AND t.slug ~ ('^' || n.base_slug || '--[0-9]+$'))
) o ON true"@
}

/// The slug-dedup scaffolding shared by every insert: rank new rows within
/// their base_slug, look up the highest suffix that base already has in the
/// live table, and emit `base` or `base--N`. Rows of the live table that have no
/// open_library_id hold nothing back.
pub fn slugged_insert_sql(
    table: &str,
    filter: &str,
    columns: &str,
    values: &str,
    joins: &str,
) -> (r: String)
    ensures
        r@ == slugged_insert_text(table@, filter@, columns@, values@, joins@),
{
    let mut r = "
INSERT INTO ".to_owned();
    r.append(table);
    r.append(
        " (",
    );
    r.append(columns);
    r.append(
        ", slug, created_at, updated_at)
SELECT ",
    );
    r.append(values);
    r.append(
        ",
       CASE WHEN n.rn + COALESCE(o.taken, 0) = 1 THEN n.base_slug
            ELSE n.base_slug || '--' || (n.rn + COALESCE(o.taken, 0)) END,
       $1::timestamp, $1::timestamp
FROM (
    SELECT s.*, ROW_NUMBER() OVER (PARTITION BY s.base_slug ORDER BY s.open_library_id) AS rn
    FROM (
        SELECT DISTINCT ON (open_library_id) *
        FROM _import_",
    );
    r.append(table);
    r.append(
        "_staging
        WHERE open_library_id NOT IN (
            SELECT open_library_id FROM ",
    );
    r.append(table);
    r.append(
        " WHERE open_library_id IS NOT NULL)
        ",
    );
    r.append(filter);
    r.append(
        "
    ) s
) n
",
    );
    r.append(joins);
    r.append(
        "
LEFT JOIN LATERAL (
    SELECT max(CASE WHEN t.slug = n.base_slug THEN 1
                    ELSE (substring(t.slug FROM '([0-9]+)$'))::int END) AS taken
    FROM ",
    );
    r.append(table);
    r.append(
        " t
    WHERE t.slug = n.base_slug
       OR (t.slug >= n.base_slug || '--' AND t.slug < n.base_slug || '-.'
           AND t.slug ~ ('^' || n.base_slug || '--[0-9]+$'))
) o ON true",
    );
    r
}

/// The text of [`insert_authors_sql`].
pub open spec fn insert_authors_text(filter: Seq<char>) -> Seq<char> {
    slugged_insert_text(
        "authors"@,
        filter,
        "open_library_id, name, bio, birth_date, death_date, photo_id"@,
        "n.open_library_id, n.name, n.bio, n.birth_date, n.death_date, n.photo_id"@,
        ""@,
    )
}

pub fn insert_authors_sql(filter: &str) -> (r: String)
    ensures
        r@ == insert_authors_text(filter@),
{
    slugged_insert_sql(
        "authors",
        filter,
        "open_library_id, name, bio, birth_date, death_date, photo_id",
        "n.open_library_id, n.name, n.bio, n.birth_date, n.death_date, n.photo_id",
        "",
    )
}

/// The text of [`insert_works_sql`].
pub open spec fn insert_works_text(filter: Seq<char>) -> Seq<char> {
    slugged_insert_text(
        "works"@,
        filter,
        "open_library_id, title, subtitle, description, first_publish_date, first_publish_year, cover_id, subjects"@,
        "n.open_library_id, n.title, n.subtitle, n.description, n.first_publish_date, n.first_publish_year, n.cover_id, n.subjects"@,
        ""@,
    )
}

pub fn insert_works_sql(filter: &str) -> (r: String)
    ensures
        r@ == insert_works_text(filter@),
{
    slugged_insert_sql(
        "works",
        filter,
        "open_library_id, title, subtitle, description, first_publish_date, first_publish_year, cover_id, subjects",
        "n.open_library_id, n.title, n.subtitle, n.description, n.first_publish_date, n.first_publish_year, n.cover_id, n.subjects",
        "",
    )
}

/// The text of [`insert_editions_sql`].
pub open spec fn insert_editions_text() -> Seq<char> {
    slugged_insert_text(
        "editions"@,
        ""@,
        "open_library_id, title, subtitle, asin, cover_id, format, goodreads_id, google_books_id, isbn10, isbn13, language, page_count, published_year, publisher, series, edition_name, internet_archive_id, work_id"@,
        "n.open_library_id, n.title, n.subtitle, n.asin, n.cover_id, n.format, n.goodreads_id, n.google_books_id, n.isbn10, n.isbn13, n.language, n.page_count, n.published_year, n.publisher, n.series, n.edition_name, n.internet_archive_id, w.id"@,
        "JOIN works w ON w.open_library_id = n.work_olid"@,
    )
}

pub fn insert_editions_sql() -> (r: String)
    ensures
        r@ == insert_editions_text(),
{
    slugged_insert_sql(
        "editions",
        "",
        "open_library_id, title, subtitle, asin, cover_id, format, goodreads_id, google_books_id, isbn10, isbn13, language, page_count, published_year, publisher, series, edition_name, internet_archive_id, work_id",
        "n.open_library_id, n.title, n.subtitle, n.asin, n.cover_id, n.format, n.goodreads_id, n.google_books_id, n.isbn10, n.isbn13, n.language, n.page_count, n.published_year, n.publisher, n.series, n.edition_name, n.internet_archive_id, w.id",
        "JOIN works w ON w.open_library_id = n.work_olid",
    )
}

} // verus!
