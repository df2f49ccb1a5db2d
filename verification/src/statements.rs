//! What the statements of an import leave in place.
//!
//! The texts of the statements are searched for the words that would remove a row
//! or change its ids; what PostgreSQL makes of them is not modelled.

use vstd::prelude::*;

use crate::import::{emptiness_text, Staging, Table};
use crate::schema::{all_indexes, drop_text, DDL, INDEX_EXISTS};
use crate::sql::{
    slugged_insert_text, AUTHORS_ON_KEPT_WORKS, CLEAR_EDITION_COUNTS, CLEAR_WORK_COUNTS,
    COPY_AUTHORS, COPY_EDITIONS, COPY_REFS, COPY_WORKS, COUNT_WORKS, DROP_STAGING,
    RECOUNT_EDITIONS, RECOUNT_WORKS, SESSION_SETTINGS, STAGING_AUTHORS, STAGING_EDITIONS,
    STAGING_REFS, STAGING_WORKS, UPDATE_AUTHORS, UPDATE_EDITIONS, UPDATE_WORKS, UPSERT_AUTHORSHIPS,
    WORKS_WITH_STAGED_EDITIONS,
};
use crate::text::{contains_text, is_alphanumeric, is_white_space, occurs_at};

verus! {

/// Whether a statement mentions neither the slug nor the creation time of a
/// row, and sets its update time.
pub open spec fn keeps_slug_and_creation(sql: Seq<char>) -> bool {
    &&& !contains_text(sql, "slug"@)
    &&& !contains_text(sql, "created_at"@)
    &&& contains_text(sql, "    updated_at = $1::timestamp"@)
}

/// Whether a statement removes no row of a table that is kept: it neither
/// deletes nor truncates, and all that it drops is a staging table or an index.
pub open spec fn keeps_rows(sql: Seq<char>) -> bool {
    &&& !contains_text(sql, "DELETE"@)
    &&& !contains_text(sql, "TRUNCATE"@)
    &&& forall|at: int| #[trigger]
        occurs_at(sql, "DROP"@, at) ==> {
            ||| occurs_at(sql, "DROP TABLE IF EXISTS _import_"@, at)
            ||| occurs_at(sql, "DROP INDEX IF EXISTS index_"@, at)
        }
}

/// Whether `c` can be part of a column name.
pub open spec fn is_name_char(c: char) -> bool {
    is_alphanumeric(c) || c == '_'
}

/// Whether the unqualified name `column` stands at `at`, with nothing but white
/// space between it and the equals sign at `eq`.
pub open spec fn assigned_at(sql: Seq<char>, column: Seq<char>, at: int, eq: int) -> bool {
    let end = at + column.len();
    &&& occurs_at(sql, column, at)
    &&& at > 0 ==> !is_name_char(sql[at - 1]) && sql[at - 1] != '.'
    &&& end <= eq < sql.len()
    &&& sql[eq] == '='
    &&& forall|k: int| end <= k < eq ==> is_white_space(#[trigger] sql[k])
}

/// Whether a statement gives the column a new value. (The columns that a
/// statement assigns are unqualified; a comparison qualifies its columns.)
pub open spec fn assigns(sql: Seq<char>, column: Seq<char>) -> bool {
    exists|at: int, eq: int| assigned_at(sql, column, at, eq)
}

/// Whether a statement leaves the ids of every row alone.
pub open spec fn keeps_ids(sql: Seq<char>) -> bool {
    !assigns(sql, "id"@) && !assigns(sql, "open_library_id"@)
}

/// Whether an import runs this statement.
pub open spec fn is_statement(sql: Seq<char>) -> bool {
    ||| sql == SESSION_SETTINGS@
    ||| sql == DDL@
    ||| sql == INDEX_EXISTS@
    ||| exists|i: int| 0 <= i < all_indexes().len() && sql == (#[trigger] all_indexes()[i]).ddl
    ||| exists|i: int| 0 <= i < all_indexes().len() && sql == drop_text(#[trigger] all_indexes()[i])
    ||| sql == COUNT_WORKS@
    ||| exists|staging: Staging| sql == #[trigger] staging.ddl_text()
    ||| sql == COPY_AUTHORS@ || sql == COPY_WORKS@ || sql == COPY_REFS@ || sql == COPY_EDITIONS@
    ||| exists|table: Table| sql == #[trigger] emptiness_text(table)
    ||| exists|table: Table| Some(sql) == #[trigger] table.update_text()
    ||| exists|table: Table| sql == #[trigger] table.insert_text()
    ||| sql == RECOUNT_EDITIONS@ || sql == CLEAR_EDITION_COUNTS@
    ||| sql == RECOUNT_WORKS@ || sql == CLEAR_WORK_COUNTS@
    ||| sql == DROP_STAGING@
}

// ---------------------------------------------------------------------------
// Words that are absent
// ---------------------------------------------------------------------------

/// No `DEL`, and no `TRU`.
spec fn undeleting(s: Seq<char>) -> bool {
    forall|i: int|
        #![trigger s[i]]
        0 <= i && i + 3 <= s.len() ==> {
            &&& !(s[i] == 'D' && s[i + 1] == 'E' && s[i + 2] == 'L')
            &&& !(s[i] == 'T' && s[i + 1] == 'R' && s[i + 2] == 'U')
        }
}

/// No `DR`.
spec fn undropping(s: Seq<char>) -> bool {
    forall|i: int|
        #![trigger s[i]]
        0 <= i && i + 2 <= s.len() ==> !(s[i] == 'D' && s[i + 1] == 'R')
}

proof fn lemma_undeleting(s: Seq<char>)
    requires
        undeleting(s),
    ensures
        !contains_text(s, "DELETE"@),
        !contains_text(s, "TRUNCATE"@),
{
    reveal_strlit("DELETE");
    reveal_strlit("TRUNCATE");
    assert forall|at: int| !occurs_at(s, "DELETE"@, at) by {
        if occurs_at(s, "DELETE"@, at) {
            let t = s.subrange(at, at + 6);
            assert(t[0] == s[at] && t[1] == s[at + 1] && t[2] == s[at + 2]);
        }
    }
    assert forall|at: int| !occurs_at(s, "TRUNCATE"@, at) by {
        if occurs_at(s, "TRUNCATE"@, at) {
            let t = s.subrange(at, at + 8);
            assert(t[0] == s[at] && t[1] == s[at + 1] && t[2] == s[at + 2]);
        }
    }
}

proof fn lemma_keeps_rows(s: Seq<char>)
    requires
        undeleting(s),
        undropping(s),
    ensures
        keeps_rows(s),
{
    lemma_undeleting(s);
    reveal_strlit("DROP");
    assert forall|at: int| !#[trigger] occurs_at(s, "DROP"@, at) by {
        if occurs_at(s, "DROP"@, at) {
            let t = s.subrange(at, at + 4);
            assert(t[0] == s[at] && t[1] == s[at + 1]);
        }
    }
}

/// Two texts in a row have none of the words, if neither has any, and the second
/// one does not start in the middle of one.
proof fn lemma_join(a: Seq<char>, b: Seq<char>)
    requires
        undeleting(a),
        undropping(a),
        undeleting(b),
        undropping(b),
        b.len() > 0 ==> b[0] != 'E' && b[0] != 'L' && b[0] != 'R' && b[0] != 'U',
    ensures
        undeleting(a + b),
        undropping(a + b),
{
    let s = a + b;
    assert forall|i: int| #![trigger s[i]] 0 <= i && i + 3 <= s.len() implies {
        &&& !(s[i] == 'D' && s[i + 1] == 'E' && s[i + 2] == 'L')
        &&& !(s[i] == 'T' && s[i + 1] == 'R' && s[i + 2] == 'U')
    } by {
        if i + 3 <= a.len() {
            assert(s[i] == a[i] && s[i + 1] == a[i + 1] && s[i + 2] == a[i + 2]);
        } else if a.len() <= i {
            let j = i - a.len();
            assert(s[i] == b[j] && s[i + 1] == b[j + 1] && s[i + 2] == b[j + 2]);
        } else {
            assert(s[a.len() as int] == b[0]);
        }
    }
    assert forall|i: int| #![trigger s[i]] 0 <= i && i + 2 <= s.len() implies !(s[i] == 'D' && s[i
        + 1] == 'R') by {
        if i + 2 <= a.len() {
            assert(s[i] == a[i] && s[i + 1] == a[i + 1]);
        } else if a.len() <= i {
            let j = i - a.len();
            assert(s[i] == b[j] && s[i + 1] == b[j + 1]);
        } else {
            assert(s[a.len() as int] == b[0]);
        }
    }
}

/// A column is not assigned where every place that holds its name is qualified or
/// part of a longer name, or is followed by a comma or a bracket.
proof fn lemma_unassigned(s: Seq<char>, column: Seq<char>)
    requires
        column.len() > 0,
        forall|at: int| #[trigger]
            occurs_at(s, column, at) ==> {
                ||| at > 0 && (is_name_char(s[at - 1]) || s[at - 1] == '.')
                ||| at + column.len() < s.len() && (s[at + column.len()] == ',' || s[at
                    + column.len()] == ')')
            },
    ensures
        !assigns(s, column),
{
    assert forall|at: int, eq: int| !assigned_at(s, column, at, eq) by {
        if assigned_at(s, column, at, eq) {
            assert(occurs_at(s, column, at));
            let end = at + column.len();
            if eq > end {
                assert(is_white_space(s[end]));
            }
        }
    }
}

/// Wherever `id` stands, it is qualified or part of a longer name; wherever `op`
/// stands, it is qualified or starts a name that is followed by a bracket.
spec fn ids_compared(s: Seq<char>) -> bool {
    forall|i: int|
        #![trigger s[i]]
        0 <= i && i + 2 <= s.len() ==> {
            &&& s[i] == 'i' && s[i + 1] == 'd' ==> i > 0 && (s[i - 1] == '_' || s[i - 1] == '.'
                || s[i - 1] == 'l')
            &&& s[i] == 'o' && s[i + 1] == 'p' ==> i > 0 && (s[i - 1] == '.' || i + 15 < s.len()
                && s[i + 15] == ')')
        }
}

proof fn lemma_keeps_ids(s: Seq<char>)
    requires
        ids_compared(s),
    ensures
        keeps_ids(s),
{
    reveal_strlit("id");
    reveal_strlit("open_library_id");
    assert forall|at: int| #[trigger] occurs_at(s, "id"@, at) implies at > 0 && (is_name_char(
        s[at - 1],
    ) || s[at - 1] == '.') by {
        let t = s.subrange(at, at + 2);
        assert(t[0] == s[at] && t[1] == s[at + 1]);
    }
    lemma_unassigned(s, "id"@);
    assert forall|at: int| #[trigger] occurs_at(s, "open_library_id"@, at) implies {
        ||| at > 0 && (is_name_char(s[at - 1]) || s[at - 1] == '.')
        ||| at + 15 < s.len() && (s[at + 15] == ',' || s[at + 15] == ')')
    } by {
        let t = s.subrange(at, at + 15);
        assert(t[0] == s[at] && t[1] == s[at + 1]);
    }
    lemma_unassigned(s, "open_library_id"@);
}

/// No `sl`, and no `cre`.
spec fn unslugged(s: Seq<char>) -> bool {
    forall|i: int|
        #![trigger s[i]]
        0 <= i && i + 3 <= s.len() ==> {
            &&& !(s[i] == 's' && s[i + 1] == 'l')
            &&& !(s[i] == 'c' && s[i + 1] == 'r' && s[i + 2] == 'e')
        }
}

/// `at` is where the update time is set.
proof fn lemma_keeps_slug_and_creation(s: Seq<char>, at: int)
    requires
        unslugged(s),
        occurs_at(s, "    updated_at = $1::timestamp"@, at),
    ensures
        keeps_slug_and_creation(s),
{
    reveal_strlit("slug");
    reveal_strlit("created_at");
    assert forall|at: int| !occurs_at(s, "slug"@, at) by {
        if occurs_at(s, "slug"@, at) {
            let t = s.subrange(at, at + 4);
            assert(t[0] == s[at] && t[1] == s[at + 1]);
        }
    }
    assert forall|at: int| !occurs_at(s, "created_at"@, at) by {
        if occurs_at(s, "created_at"@, at) {
            let t = s.subrange(at, at + 10);
            assert(t[0] == s[at] && t[1] == s[at + 1] && t[2] == s[at + 2]);
        }
    }
}

// ---------------------------------------------------------------------------
// Updates
// ---------------------------------------------------------------------------

pub proof fn lemma_update_authors()
    ensures
        keeps_slug_and_creation(UPDATE_AUTHORS@),
        keeps_rows(UPDATE_AUTHORS@),
        keeps_ids(UPDATE_AUTHORS@),
{
    let s = UPDATE_AUTHORS@;
    reveal_strlit("
UPDATE authors a SET
    name = s.name,
    bio = s.bio,
    birth_date = s.birth_date,
    death_date = s.death_date,
    photo_id = s.photo_id,
    updated_at = $1::timestamp
FROM (SELECT DISTINCT ON (open_library_id) * FROM _import_authors_staging) s
WHERE a.open_library_id = s.open_library_id");
    assert(unslugged(s));
    assert(s.subrange(147, 177) =~= "    updated_at = $1::timestamp"@) by {
        reveal_strlit("    updated_at = $1::timestamp");
    }
    lemma_keeps_slug_and_creation(s, 147);
    assert(undeleting(s));
    assert(undropping(s));
    lemma_keeps_rows(s);
    assert(ids_compared(s));
    lemma_keeps_ids(s);
}

pub proof fn lemma_update_works()
    ensures
        keeps_slug_and_creation(UPDATE_WORKS@),
        keeps_rows(UPDATE_WORKS@),
        keeps_ids(UPDATE_WORKS@),
{
    let s = UPDATE_WORKS@;
    reveal_strlit("
UPDATE works w SET
    title = s.title,
    subtitle = s.subtitle,
    description = s.description,
    first_publish_date = s.first_publish_date,
    first_publish_year = s.first_publish_year,
    cover_id = s.cover_id,
    subjects = s.subjects,
    updated_at = $1::timestamp
FROM (SELECT DISTINCT ON (open_library_id) * FROM _import_works_staging) s
WHERE w.open_library_id = s.open_library_id");
    assert(unslugged(s));
    assert(s.subrange(249, 279) =~= "    updated_at = $1::timestamp"@) by {
        reveal_strlit("    updated_at = $1::timestamp");
    }
    lemma_keeps_slug_and_creation(s, 249);
    assert(undeleting(s));
    assert(undropping(s));
    lemma_keeps_rows(s);
    assert(ids_compared(s));
    lemma_keeps_ids(s);
}

pub proof fn lemma_update_editions()
    ensures
        keeps_slug_and_creation(UPDATE_EDITIONS@),
        keeps_rows(UPDATE_EDITIONS@),
        keeps_ids(UPDATE_EDITIONS@),
{
    let s = UPDATE_EDITIONS@;
    reveal_strlit("
UPDATE editions e SET
    title = s.title,
    subtitle = s.subtitle,
    asin = s.asin,
    cover_id = s.cover_id,
    format = s.format,
    goodreads_id = s.goodreads_id,
    google_books_id = s.google_books_id,
    isbn10 = s.isbn10,
    isbn13 = s.isbn13,
    language = s.language,
    page_count = s.page_count,
    published_year = s.published_year,
    publisher = s.publisher,
    series = s.series,
    edition_name = s.edition_name,
    internet_archive_id = s.internet_archive_id,
    work_id = w.id,
    updated_at = $1::timestamp
FROM (SELECT DISTINCT ON (open_library_id) * FROM _import_editions_staging) s
JOIN works w ON w.open_library_id = s.work_olid
WHERE e.open_library_id = s.open_library_id");
    assert(unslugged(s));
    assert(s.subrange(515, 545) =~= "    updated_at = $1::timestamp"@) by {
        reveal_strlit("    updated_at = $1::timestamp");
    }
    lemma_keeps_slug_and_creation(s, 515);
    assert(undeleting(s));
    assert(undropping(s));
    lemma_keeps_rows(s);
    assert(ids_compared(s));
    lemma_keeps_ids(s);
}

proof fn lemma_recount_editions()
    ensures
        keeps_rows(RECOUNT_EDITIONS@),
        keeps_ids(RECOUNT_EDITIONS@),
{
    let s = RECOUNT_EDITIONS@;
    reveal_strlit("UPDATE works SET edition_count = c.n
             FROM (SELECT work_id, count(*)::int4 AS n FROM editions GROUP BY work_id) c
             WHERE works.id = c.work_id AND works.edition_count IS DISTINCT FROM c.n");
    assert(undeleting(s));
    assert(undropping(s));
    lemma_keeps_rows(s);
    assert(ids_compared(s));
    lemma_keeps_ids(s);
}

proof fn lemma_clear_edition_counts()
    ensures
        keeps_rows(CLEAR_EDITION_COUNTS@),
        keeps_ids(CLEAR_EDITION_COUNTS@),
{
    let s = CLEAR_EDITION_COUNTS@;
    reveal_strlit("UPDATE works SET edition_count = 0
             WHERE edition_count <> 0
               AND NOT EXISTS (SELECT 1 FROM editions e WHERE e.work_id = works.id)");
    assert(undeleting(s));
    assert(undropping(s));
    lemma_keeps_rows(s);
    assert(ids_compared(s));
    lemma_keeps_ids(s);
}

proof fn lemma_recount_works()
    ensures
        keeps_rows(RECOUNT_WORKS@),
        keeps_ids(RECOUNT_WORKS@),
{
    let s = RECOUNT_WORKS@;
    reveal_strlit("UPDATE authors SET works_count = c.n
             FROM (SELECT author_id, count(*)::int4 AS n FROM authorships GROUP BY author_id) c
             WHERE authors.id = c.author_id AND authors.works_count IS DISTINCT FROM c.n");
    assert(undeleting(s));
    assert(undropping(s));
    lemma_keeps_rows(s);
    assert(ids_compared(s));
    lemma_keeps_ids(s);
}

proof fn lemma_clear_work_counts()
    ensures
        keeps_rows(CLEAR_WORK_COUNTS@),
        keeps_ids(CLEAR_WORK_COUNTS@),
{
    let s = CLEAR_WORK_COUNTS@;
    reveal_strlit("UPDATE authors SET works_count = 0
             WHERE works_count <> 0
               AND NOT EXISTS (SELECT 1 FROM authorships s WHERE s.author_id = authors.id)");
    assert(undeleting(s));
    assert(undropping(s));
    lemma_keeps_rows(s);
    assert(ids_compared(s));
    lemma_keeps_ids(s);
}

/// Whether a statement leaves both ends of a link, and its creation time, alone.
pub open spec fn keeps_link(sql: Seq<char>) -> bool {
    &&& !assigns(sql, "work_id"@)
    &&& !assigns(sql, "author_id"@)
    &&& !assigns(sql, "created_at"@)
}

proof fn lemma_upsert_authorships()
    ensures
        keeps_rows(UPSERT_AUTHORSHIPS@),
        keeps_ids(UPSERT_AUTHORSHIPS@),
        keeps_link(UPSERT_AUTHORSHIPS@),
{
    let s = UPSERT_AUTHORSHIPS@;
    reveal_strlit("
INSERT INTO authorships (work_id, author_id, position, created_at, updated_at)
SELECT w.id, a.id, MIN(r.position), $1::timestamp, $1::timestamp
FROM _import_work_author_refs r
JOIN works w ON w.open_library_id = r.work_olid
JOIN authors a ON a.open_library_id = r.author_olid
GROUP BY w.id, a.id
ON CONFLICT (work_id, author_id) DO UPDATE SET
    position = EXCLUDED.position,
    updated_at = EXCLUDED.updated_at");
    assert(undeleting(s));
    assert(undropping(s));
    lemma_keeps_rows(s);
    assert(ids_compared(s));
    lemma_keeps_ids(s);
    assert(!assigns(s, "work_id"@)) by {
        reveal_strlit("work_id");
        assert forall|i: int|
            #![trigger s[i]]
            0 <= i && i + 7 <= s.len() && s[i] == 'w' && s[i + 4] == '_' && s[i + 5] == 'i' implies i + 7
            < s.len() && (s[i + 7] == ',' || s[i + 7] == ')') by {}
        assert forall|at: int| #[trigger] occurs_at(s, "work_id"@, at) implies at + 7
            < s.len() && (s[at + 7] == ',' || s[at + 7] == ')') by {
            let t = s.subrange(at, at + 7);
            assert(t[0] == s[at] && t[4] == s[at + 4] && t[5] == s[at + 5]);
        }
        lemma_unassigned(s, "work_id"@);
    }
    assert(!assigns(s, "author_id"@)) by {
        reveal_strlit("author_id");
        assert forall|i: int|
            #![trigger s[i]]
            0 <= i && i + 9 <= s.len() && s[i] == 'a' && s[i + 1] == 'u' && s[i + 6] == '_' && s[i + 7] == 'i' implies i + 9
            < s.len() && (s[i + 9] == ',' || s[i + 9] == ')') by {}
        assert forall|at: int| #[trigger] occurs_at(s, "author_id"@, at) implies at + 9
            < s.len() && (s[at + 9] == ',' || s[at + 9] == ')') by {
            let t = s.subrange(at, at + 9);
            assert(t[0] == s[at] && t[1] == s[at + 1] && t[6] == s[at + 6] && t[7] == s[at + 7]);
        }
        lemma_unassigned(s, "author_id"@);
    }
    assert(!assigns(s, "created_at"@)) by {
        reveal_strlit("created_at");
        assert forall|i: int|
            #![trigger s[i]]
            0 <= i && i + 10 <= s.len() && s[i] == 'c' && s[i + 1] == 'r' implies i + 10
            < s.len() && (s[i + 10] == ',' || s[i + 10] == ')') by {}
        assert forall|at: int| #[trigger] occurs_at(s, "created_at"@, at) implies at + 10
            < s.len() && (s[at + 10] == ',' || s[at + 10] == ')') by {
            let t = s.subrange(at, at + 10);
            assert(t[0] == s[at] && t[1] == s[at + 1]);
        }
        lemma_unassigned(s, "created_at"@);
    }
}

// ---------------------------------------------------------------------------
// Inserts
// ---------------------------------------------------------------------------

/// A part of an insert that has none of the words, and does not start in the
/// middle of one.
spec fn harmless(s: Seq<char>) -> bool {
    &&& undeleting(s)
    &&& undropping(s)
    &&& s.len() > 0 ==> s[0] != 'E' && s[0] != 'L' && s[0] != 'R' && s[0] != 'U'
}

proof fn lemma_slugged_insert(
    table: Seq<char>,
    filter: Seq<char>,
    columns: Seq<char>,
    values: Seq<char>,
    joins: Seq<char>,
)
    requires
        harmless(table),
        harmless(filter),
        harmless(columns),
        harmless(values),
        harmless(joins),
    ensures
        keeps_rows(slugged_insert_text(table, filter, columns, values, joins)),
{
    let l0 = "
INSERT INTO "@;
    assert(harmless(l0)) by {
        reveal_strlit("
INSERT INTO ");
    }
    lemma_join(l0, table);
    let s0 = l0 + table;
    let l1 = " ("@;
    assert(harmless(l1)) by {
        reveal_strlit(" (");
    }
    lemma_join(s0, l1);
    let s1 = s0 + l1;
    lemma_join(s1, columns);
    let s2 = s1 + columns;
    let l2 = ", slug, created_at, updated_at)
SELECT "@;
    assert(harmless(l2)) by {
        reveal_strlit(", slug, created_at, updated_at)
SELECT ");
    }
    lemma_join(s2, l2);
    let s3 = s2 + l2;
    lemma_join(s3, values);
    let s4 = s3 + values;
    let l3 = ",
       CASE WHEN n.rn + COALESCE(o.taken, 0) = 1 THEN n.base_slug
            ELSE n.base_slug || '--' || (n.rn + COALESCE(o.taken, 0)) END,
       $1::timestamp, $1::timestamp
FROM (
    SELECT s.*, ROW_NUMBER() OVER (PARTITION BY s.base_slug ORDER BY s.open_library_id) AS rn
    FROM (
        SELECT DISTINCT ON (open_library_id) *
        FROM _import_"@;
    assert(harmless(l3)) by {
        reveal_strlit(",
       CASE WHEN n.rn + COALESCE(o.taken, 0) = 1 THEN n.base_slug
            ELSE n.base_slug || '--' || (n.rn + COALESCE(o.taken, 0)) END,
       $1::timestamp, $1::timestamp
FROM (
    SELECT s.*, ROW_NUMBER() OVER (PARTITION BY s.base_slug ORDER BY s.open_library_id) AS rn
    FROM (
        SELECT DISTINCT ON (open_library_id) *
        FROM _import_");
    }
    lemma_join(s4, l3);
    let s5 = s4 + l3;
    lemma_join(s5, table);
    let s6 = s5 + table;
    let l4 = "_staging
        WHERE open_library_id NOT IN (
            SELECT open_library_id FROM "@;
    assert(harmless(l4)) by {
        reveal_strlit("_staging
        WHERE open_library_id NOT IN (
            SELECT open_library_id FROM ");
    }
    lemma_join(s6, l4);
    let s7 = s6 + l4;
    lemma_join(s7, table);
    let s8 = s7 + table;
    let l5 = " WHERE open_library_id IS NOT NULL)
        "@;
    assert(harmless(l5)) by {
        reveal_strlit(" WHERE open_library_id IS NOT NULL)
        ");
    }
    lemma_join(s8, l5);
    let s9 = s8 + l5;
    lemma_join(s9, filter);
    let s10 = s9 + filter;
    let l6 = "
    ) s
) n
"@;
    assert(harmless(l6)) by {
        reveal_strlit("
    ) s
) n
");
    }
    lemma_join(s10, l6);
    let s11 = s10 + l6;
    lemma_join(s11, joins);
    let s12 = s11 + joins;
    let l7 = "
LEFT JOIN LATERAL (
    SELECT max(CASE WHEN t.slug = n.base_slug THEN 1
                    ELSE (substring(t.slug FROM '([0-9]+)$'))::int END) AS taken
    FROM "@;
    assert(harmless(l7)) by {
        reveal_strlit("
LEFT JOIN LATERAL (
    SELECT max(CASE WHEN t.slug = n.base_slug THEN 1
                    ELSE (substring(t.slug FROM '([0-9]+)$'))::int END) AS taken
    FROM ");
    }
    lemma_join(s12, l7);
    let s13 = s12 + l7;
    lemma_join(s13, table);
    let s14 = s13 + table;
    let l8 = " t
    WHERE t.slug = n.base_slug
       OR (t.slug >= n.base_slug || '--' AND t.slug < n.base_slug || '-.'
           AND t.slug ~ ('^' || n.base_slug || '--[0-9]+$'))
) o ON true"@;
    assert(harmless(l8)) by {
        reveal_strlit(" t
    WHERE t.slug = n.base_slug
       OR (t.slug >= n.base_slug || '--' AND t.slug < n.base_slug || '-.'
           AND t.slug ~ ('^' || n.base_slug || '--[0-9]+$'))
) o ON true");
    }
    lemma_join(s14, l8);
    let s15 = s14 + l8;
    lemma_keeps_rows(s15);
}

proof fn lemma_insert_authors()
    ensures
        keeps_rows(Table::Authors.insert_text()),
{
    let table = "authors"@;
    assert(harmless(table)) by {
        reveal_strlit("authors");
    }
    let filter = AUTHORS_ON_KEPT_WORKS@;
    assert(harmless(filter)) by {
        reveal_strlit("AND open_library_id IN (
    SELECT r.author_olid
    FROM _import_work_author_refs r
    JOIN _import_editions_staging e ON e.work_olid = r.work_olid)");
    }
    let columns = "open_library_id, name, bio, birth_date, death_date, photo_id"@;
    assert(harmless(columns)) by {
        reveal_strlit("open_library_id, name, bio, birth_date, death_date, photo_id");
    }
    let values = "n.open_library_id, n.name, n.bio, n.birth_date, n.death_date, n.photo_id"@;
    assert(harmless(values)) by {
        reveal_strlit("n.open_library_id, n.name, n.bio, n.birth_date, n.death_date, n.photo_id");
    }
    let joins = ""@;
    assert(harmless(joins)) by {
        reveal_strlit("");
    }
    lemma_slugged_insert(table, filter, columns, values, joins);
}

proof fn lemma_insert_works()
    ensures
        keeps_rows(Table::Works.insert_text()),
{
    let table = "works"@;
    assert(harmless(table)) by {
        reveal_strlit("works");
    }
    let filter = WORKS_WITH_STAGED_EDITIONS@;
    assert(harmless(filter)) by {
        reveal_strlit("AND open_library_id IN (SELECT work_olid FROM _import_editions_staging)");
    }
    let columns = "open_library_id, title, subtitle, description, first_publish_date, first_publish_year, cover_id, subjects"@;
    assert(harmless(columns)) by {
        reveal_strlit("open_library_id, title, subtitle, description, first_publish_date, first_publish_year, cover_id, subjects");
    }
    let values = "n.open_library_id, n.title, n.subtitle, n.description, n.first_publish_date, n.first_publish_year, n.cover_id, n.subjects"@;
    assert(harmless(values)) by {
        reveal_strlit("n.open_library_id, n.title, n.subtitle, n.description, n.first_publish_date, n.first_publish_year, n.cover_id, n.subjects");
    }
    let joins = ""@;
    assert(harmless(joins)) by {
        reveal_strlit("");
    }
    lemma_slugged_insert(table, filter, columns, values, joins);
}

proof fn lemma_insert_editions()
    ensures
        keeps_rows(Table::Editions.insert_text()),
{
    let table = "editions"@;
    assert(harmless(table)) by {
        reveal_strlit("editions");
    }
    let filter = ""@;
    assert(harmless(filter)) by {
        reveal_strlit("");
    }
    let columns = "open_library_id, title, subtitle, asin, cover_id, format, goodreads_id, google_books_id, isbn10, isbn13, language, page_count, published_year, publisher, series, edition_name, internet_archive_id, work_id"@;
    assert(harmless(columns)) by {
        reveal_strlit("open_library_id, title, subtitle, asin, cover_id, format, goodreads_id, google_books_id, isbn10, isbn13, language, page_count, published_year, publisher, series, edition_name, internet_archive_id, work_id");
    }
    let values = "n.open_library_id, n.title, n.subtitle, n.asin, n.cover_id, n.format, n.goodreads_id, n.google_books_id, n.isbn10, n.isbn13, n.language, n.page_count, n.published_year, n.publisher, n.series, n.edition_name, n.internet_archive_id, w.id"@;
    assert(harmless(values)) by {
        reveal_strlit("n.open_library_id, n.title, n.subtitle, n.asin, n.cover_id, n.format, n.goodreads_id, n.google_books_id, n.isbn10, n.isbn13, n.language, n.page_count, n.published_year, n.publisher, n.series, n.edition_name, n.internet_archive_id, w.id");
    }
    let joins = "JOIN works w ON w.open_library_id = n.work_olid"@;
    assert(harmless(joins)) by {
        reveal_strlit("JOIN works w ON w.open_library_id = n.work_olid");
    }
    lemma_slugged_insert(table, filter, columns, values, joins);
}

// ---------------------------------------------------------------------------
// Staging tables
// ---------------------------------------------------------------------------

proof fn lemma_staging_authors()
    ensures
        keeps_rows(STAGING_AUTHORS@),
{
    let s = STAGING_AUTHORS@;
    reveal_strlit("
DROP TABLE IF EXISTS _import_authors_staging;
CREATE UNLOGGED TABLE _import_authors_staging (
    open_library_id TEXT NOT NULL,
    base_slug TEXT NOT NULL,
    name TEXT NOT NULL,
    bio TEXT,
    birth_date TEXT,
    death_date TEXT,
    photo_id TEXT
)");
    assert(undeleting(s));
    lemma_undeleting(s);
    reveal_strlit("DROP");
    reveal_strlit("DROP TABLE IF EXISTS _import_");
    assert(s.subrange(1, 30) =~= "DROP TABLE IF EXISTS _import_"@);
    assert forall|i: int| #![trigger s[i]] 0 <= i && i + 2 <= s.len() && s[i] == 'D' && s[i + 1]
        == 'R' implies i == 1 by {}
    assert forall|at: int| #[trigger] occurs_at(s, "DROP"@, at) implies occurs_at(
        s,
        "DROP TABLE IF EXISTS _import_"@,
        at,
    ) by {
        let t = s.subrange(at, at + 4);
        assert(t[0] == s[at] && t[1] == s[at + 1]);
    }
}

proof fn lemma_staging_works()
    ensures
        keeps_rows(STAGING_WORKS@),
{
    let s = STAGING_WORKS@;
    reveal_strlit("
DROP TABLE IF EXISTS _import_works_staging;
CREATE UNLOGGED TABLE _import_works_staging (
    open_library_id TEXT NOT NULL,
    base_slug TEXT NOT NULL,
    title TEXT NOT NULL,
    subtitle TEXT,
    description TEXT,
    first_publish_date TEXT,
    first_publish_year int4,
    cover_id TEXT,
    subjects TEXT[] NOT NULL
)");
    assert(undeleting(s));
    lemma_undeleting(s);
    reveal_strlit("DROP");
    reveal_strlit("DROP TABLE IF EXISTS _import_");
    assert(s.subrange(1, 30) =~= "DROP TABLE IF EXISTS _import_"@);
    assert forall|i: int| #![trigger s[i]] 0 <= i && i + 2 <= s.len() && s[i] == 'D' && s[i + 1]
        == 'R' implies i == 1 by {}
    assert forall|at: int| #[trigger] occurs_at(s, "DROP"@, at) implies occurs_at(
        s,
        "DROP TABLE IF EXISTS _import_"@,
        at,
    ) by {
        let t = s.subrange(at, at + 4);
        assert(t[0] == s[at] && t[1] == s[at + 1]);
    }
}

proof fn lemma_staging_editions()
    ensures
        keeps_rows(STAGING_EDITIONS@),
{
    let s = STAGING_EDITIONS@;
    reveal_strlit("
DROP TABLE IF EXISTS _import_editions_staging;
CREATE UNLOGGED TABLE _import_editions_staging (
    work_olid TEXT NOT NULL,
    open_library_id TEXT NOT NULL,
    base_slug TEXT NOT NULL,
    title TEXT,
    subtitle TEXT,
    asin TEXT,
    cover_id TEXT,
    format TEXT,
    goodreads_id TEXT,
    google_books_id TEXT,
    isbn10 TEXT,
    isbn13 TEXT,
    language TEXT,
    page_count int4,
    published_year int4,
    publisher TEXT,
    series TEXT,
    edition_name TEXT,
    internet_archive_id TEXT
)");
    assert(undeleting(s));
    lemma_undeleting(s);
    reveal_strlit("DROP");
    reveal_strlit("DROP TABLE IF EXISTS _import_");
    assert(s.subrange(1, 30) =~= "DROP TABLE IF EXISTS _import_"@);
    assert forall|i: int| #![trigger s[i]] 0 <= i && i + 2 <= s.len() && s[i] == 'D' && s[i + 1]
        == 'R' implies i == 1 by {}
    assert forall|at: int| #[trigger] occurs_at(s, "DROP"@, at) implies occurs_at(
        s,
        "DROP TABLE IF EXISTS _import_"@,
        at,
    ) by {
        let t = s.subrange(at, at + 4);
        assert(t[0] == s[at] && t[1] == s[at + 1]);
    }
}

proof fn lemma_staging_refs()
    ensures
        keeps_rows(STAGING_REFS@),
{
    let s = STAGING_REFS@;
    reveal_strlit("
DROP TABLE IF EXISTS _import_work_author_refs;
CREATE UNLOGGED TABLE _import_work_author_refs (
    work_olid TEXT NOT NULL,
    author_olid TEXT NOT NULL,
    position int4 NOT NULL
)");
    assert(undeleting(s));
    lemma_undeleting(s);
    reveal_strlit("DROP");
    reveal_strlit("DROP TABLE IF EXISTS _import_");
    assert(s.subrange(1, 30) =~= "DROP TABLE IF EXISTS _import_"@);
    assert forall|i: int| #![trigger s[i]] 0 <= i && i + 2 <= s.len() && s[i] == 'D' && s[i + 1]
        == 'R' implies i == 1 by {}
    assert forall|at: int| #[trigger] occurs_at(s, "DROP"@, at) implies occurs_at(
        s,
        "DROP TABLE IF EXISTS _import_"@,
        at,
    ) by {
        let t = s.subrange(at, at + 4);
        assert(t[0] == s[at] && t[1] == s[at + 1]);
    }
}

proof fn lemma_drop_staging()
    ensures
        keeps_rows(DROP_STAGING@),
{
    let s = DROP_STAGING@;
    reveal_strlit("DROP TABLE IF EXISTS _import_authors_staging;
         DROP TABLE IF EXISTS _import_works_staging;
         DROP TABLE IF EXISTS _import_editions_staging;
         DROP TABLE IF EXISTS _import_work_author_refs");
    assert(undeleting(s));
    lemma_undeleting(s);
    reveal_strlit("DROP");
    reveal_strlit("DROP TABLE IF EXISTS _import_");
    assert(s.subrange(0, 29) =~= "DROP TABLE IF EXISTS _import_"@);
    assert(s.subrange(55, 84) =~= "DROP TABLE IF EXISTS _import_"@);
    assert(s.subrange(108, 137) =~= "DROP TABLE IF EXISTS _import_"@);
    assert(s.subrange(164, 193) =~= "DROP TABLE IF EXISTS _import_"@);
    assert forall|i: int| #![trigger s[i]] 0 <= i && i + 2 <= s.len() && s[i] == 'D' && s[i + 1]
        == 'R' implies i == 0 || i == 55 || i == 108 || i == 164 by {}
    assert forall|at: int| #[trigger] occurs_at(s, "DROP"@, at) implies occurs_at(
        s,
        "DROP TABLE IF EXISTS _import_"@,
        at,
    ) by {
        let t = s.subrange(at, at + 4);
        assert(t[0] == s[at] && t[1] == s[at + 1]);
    }
}

// ---------------------------------------------------------------------------
// Indexes
// ---------------------------------------------------------------------------

proof fn lemma_drop_index(name: Seq<char>)
    requires
        undeleting(name),
        undropping(name),
        occurs_at(name, "index_"@, 0),
    ensures
        keeps_rows("DROP INDEX IF EXISTS "@ + name),
{
    let drop = "DROP INDEX IF EXISTS "@;
    let s = drop + name;
    reveal_strlit("DROP");
    reveal_strlit("index_");
    reveal_strlit("DROP INDEX IF EXISTS ");
    reveal_strlit("DROP INDEX IF EXISTS index_");
    let t = name.subrange(0, 6);
    assert(forall|i: int| 0 <= i < 6 ==> t[i] == #[trigger] name[i]);
    assert(s.subrange(0, 27) =~= "DROP INDEX IF EXISTS index_"@);
    assert forall|i: int| #![trigger s[i]] 0 <= i && i + 3 <= s.len() implies {
        &&& !(s[i] == 'D' && s[i + 1] == 'E' && s[i + 2] == 'L')
        &&& !(s[i] == 'T' && s[i + 1] == 'R' && s[i + 2] == 'U')
    } by {
        if i >= 21 {
            assert(s[i] == name[i - 21]);
            assert(s[i + 1] == name[i - 20]);
            assert(s[i + 2] == name[i - 19]);
        } else {
            assert(s[i] == drop[i]);
            assert(s[21] == name[0]);
            assert(s[22] == name[1]);
        }
    }
    lemma_undeleting(s);
    assert forall|at: int| #[trigger] occurs_at(s, "DROP"@, at) implies occurs_at(
        s,
        "DROP INDEX IF EXISTS index_"@,
        at,
    ) by {
        let u = s.subrange(at, at + 4);
        assert(u[0] == s[at] && u[1] == s[at + 1]);
        if at >= 21 {
            assert(s[at] == name[at - 21]);
            assert(s[at + 1] == name[at - 20]);
        } else {
            assert(s[at] == drop[at]);
            assert(s[21] == name[0]);
        }
    }
}

proof fn lemma_indexes(i: int)
    requires
        0 <= i < all_indexes().len(),
    ensures
        keeps_rows(all_indexes()[i].ddl),
        keeps_rows(drop_text(all_indexes()[i])),
{
    let all = all_indexes();
    reveal_strlit("index_");
    assert(keeps_rows(all[0].ddl) && keeps_rows(drop_text(all[0]))) by {
        reveal_strlit("index_authors_on_open_library_id");
        reveal_strlit(
            "CREATE UNIQUE INDEX index_authors_on_open_library_id ON public.authors USING btree (open_library_id)",
        );
        lemma_keeps_rows(all[0].ddl);
        assert(all[0].name.subrange(0, 6) =~= "index_"@);
        lemma_drop_index(all[0].name);
    }
    assert(keeps_rows(all[1].ddl) && keeps_rows(drop_text(all[1]))) by {
        reveal_strlit("index_authors_on_slug");
        reveal_strlit(
            "CREATE UNIQUE INDEX index_authors_on_slug ON authors USING btree (slug)",
        );
        lemma_keeps_rows(all[1].ddl);
        assert(all[1].name.subrange(0, 6) =~= "index_"@);
        lemma_drop_index(all[1].name);
    }
    assert(keeps_rows(all[2].ddl) && keeps_rows(drop_text(all[2]))) by {
        reveal_strlit("index_authorships_on_author_id");
        reveal_strlit(
            "CREATE INDEX index_authorships_on_author_id ON authorships USING btree (author_id)",
        );
        lemma_keeps_rows(all[2].ddl);
        assert(all[2].name.subrange(0, 6) =~= "index_"@);
        lemma_drop_index(all[2].name);
    }
    assert(keeps_rows(all[3].ddl) && keeps_rows(drop_text(all[3]))) by {
        reveal_strlit("index_authorships_on_work_id_and_author_id");
        reveal_strlit(
            "CREATE UNIQUE INDEX index_authorships_on_work_id_and_author_id ON authorships USING btree (work_id, author_id)",
        );
        lemma_keeps_rows(all[3].ddl);
        assert(all[3].name.subrange(0, 6) =~= "index_"@);
        lemma_drop_index(all[3].name);
    }
    assert(keeps_rows(all[4].ddl) && keeps_rows(drop_text(all[4]))) by {
        reveal_strlit("index_authorships_on_work_id");
        reveal_strlit(
            "CREATE INDEX index_authorships_on_work_id ON authorships USING btree (work_id)",
        );
        lemma_keeps_rows(all[4].ddl);
        assert(all[4].name.subrange(0, 6) =~= "index_"@);
        lemma_drop_index(all[4].name);
    }
    assert(keeps_rows(all[5].ddl) && keeps_rows(drop_text(all[5]))) by {
        reveal_strlit("index_editions_on_goodreads_id");
        reveal_strlit(
            "CREATE INDEX index_editions_on_goodreads_id ON editions USING btree (goodreads_id)",
        );
        lemma_keeps_rows(all[5].ddl);
        assert(all[5].name.subrange(0, 6) =~= "index_"@);
        lemma_drop_index(all[5].name);
    }
    assert(keeps_rows(all[6].ddl) && keeps_rows(drop_text(all[6]))) by {
        reveal_strlit("index_editions_on_google_books_id");
        reveal_strlit(
            "CREATE INDEX index_editions_on_google_books_id ON editions USING btree (google_books_id)",
        );
        lemma_keeps_rows(all[6].ddl);
        assert(all[6].name.subrange(0, 6) =~= "index_"@);
        lemma_drop_index(all[6].name);
    }
    assert(keeps_rows(all[7].ddl) && keeps_rows(drop_text(all[7]))) by {
        reveal_strlit("index_editions_on_isbn10");
        reveal_strlit(
            "CREATE INDEX index_editions_on_isbn10 ON editions USING btree (isbn10)",
        );
        lemma_keeps_rows(all[7].ddl);
        assert(all[7].name.subrange(0, 6) =~= "index_"@);
        lemma_drop_index(all[7].name);
    }
    assert(keeps_rows(all[8].ddl) && keeps_rows(drop_text(all[8]))) by {
        reveal_strlit("index_editions_on_isbn13");
        reveal_strlit(
            "CREATE INDEX index_editions_on_isbn13 ON editions USING btree (isbn13)",
        );
        lemma_keeps_rows(all[8].ddl);
        assert(all[8].name.subrange(0, 6) =~= "index_"@);
        lemma_drop_index(all[8].name);
    }
    assert(keeps_rows(all[9].ddl) && keeps_rows(drop_text(all[9]))) by {
        reveal_strlit("index_editions_on_open_library_id");
        reveal_strlit(
            "CREATE UNIQUE INDEX index_editions_on_open_library_id ON editions USING btree (open_library_id)",
        );
        lemma_keeps_rows(all[9].ddl);
        assert(all[9].name.subrange(0, 6) =~= "index_"@);
        lemma_drop_index(all[9].name);
    }
    assert(keeps_rows(all[10].ddl) && keeps_rows(drop_text(all[10]))) by {
        reveal_strlit("index_editions_on_slug");
        reveal_strlit(
            "CREATE UNIQUE INDEX index_editions_on_slug ON editions USING btree (slug)",
        );
        lemma_keeps_rows(all[10].ddl);
        assert(all[10].name.subrange(0, 6) =~= "index_"@);
        lemma_drop_index(all[10].name);
    }
    assert(keeps_rows(all[11].ddl) && keeps_rows(drop_text(all[11]))) by {
        reveal_strlit("index_editions_on_work_id");
        reveal_strlit(
            "CREATE INDEX index_editions_on_work_id ON editions USING btree (work_id)",
        );
        lemma_keeps_rows(all[11].ddl);
        assert(all[11].name.subrange(0, 6) =~= "index_"@);
        lemma_drop_index(all[11].name);
    }
    assert(keeps_rows(all[12].ddl) && keeps_rows(drop_text(all[12]))) by {
        reveal_strlit("index_works_on_first_publish_year");
        reveal_strlit(
            "CREATE INDEX index_works_on_first_publish_year ON works USING btree (first_publish_year)",
        );
        lemma_keeps_rows(all[12].ddl);
        assert(all[12].name.subrange(0, 6) =~= "index_"@);
        lemma_drop_index(all[12].name);
    }
    assert(keeps_rows(all[13].ddl) && keeps_rows(drop_text(all[13]))) by {
        reveal_strlit("index_works_on_open_library_id");
        reveal_strlit(
            "CREATE UNIQUE INDEX index_works_on_open_library_id ON works USING btree (open_library_id)",
        );
        lemma_keeps_rows(all[13].ddl);
        assert(all[13].name.subrange(0, 6) =~= "index_"@);
        lemma_drop_index(all[13].name);
    }
    assert(keeps_rows(all[14].ddl) && keeps_rows(drop_text(all[14]))) by {
        reveal_strlit("index_works_on_slug");
        reveal_strlit(
            "CREATE UNIQUE INDEX index_works_on_slug ON works USING btree (slug)",
        );
        lemma_keeps_rows(all[14].ddl);
        assert(all[14].name.subrange(0, 6) =~= "index_"@);
        lemma_drop_index(all[14].name);
    }
    assert(keeps_rows(all[15].ddl) && keeps_rows(drop_text(all[15]))) by {
        reveal_strlit("index_works_on_title");
        reveal_strlit(
            "CREATE INDEX index_works_on_title ON works USING btree (title)",
        );
        lemma_keeps_rows(all[15].ddl);
        assert(all[15].name.subrange(0, 6) =~= "index_"@);
        lemma_drop_index(all[15].name);
    }
}

// ---------------------------------------------------------------------------
// The other statements
// ---------------------------------------------------------------------------

proof fn lemma_small_statements()
    ensures
        keeps_rows(SESSION_SETTINGS@),
        keeps_rows(INDEX_EXISTS@),
        keeps_rows(COUNT_WORKS@),
        keeps_rows(COPY_AUTHORS@),
        keeps_rows(COPY_WORKS@),
        keeps_rows(COPY_REFS@),
        keeps_rows(COPY_EDITIONS@),
{
    assert(keeps_rows(SESSION_SETTINGS@)) by {
        reveal_strlit(
            "SET synchronous_commit = off; SET maintenance_work_mem = '1GB'",
        );
        lemma_keeps_rows(SESSION_SETTINGS@);
    }
    assert(keeps_rows(INDEX_EXISTS@)) by {
        reveal_strlit(
            "SELECT to_regclass($1) IS NOT NULL",
        );
        lemma_keeps_rows(INDEX_EXISTS@);
    }
    assert(keeps_rows(COUNT_WORKS@)) by {
        reveal_strlit(
            "SELECT count(*) FROM works",
        );
        lemma_keeps_rows(COUNT_WORKS@);
    }
    assert(keeps_rows(COPY_AUTHORS@)) by {
        reveal_strlit(
            "COPY _import_authors_staging (open_library_id, base_slug, name, bio, birth_date, death_date, photo_id) FROM STDIN BINARY",
        );
        lemma_keeps_rows(COPY_AUTHORS@);
    }
    assert(keeps_rows(COPY_WORKS@)) by {
        reveal_strlit(
            "COPY _import_works_staging (open_library_id, base_slug, title, subtitle, description, first_publish_date, first_publish_year, cover_id, subjects) FROM STDIN BINARY",
        );
        lemma_keeps_rows(COPY_WORKS@);
    }
    assert(keeps_rows(COPY_REFS@)) by {
        reveal_strlit(
            "COPY _import_work_author_refs (work_olid, author_olid, position) FROM STDIN BINARY",
        );
        lemma_keeps_rows(COPY_REFS@);
    }
    assert(keeps_rows(COPY_EDITIONS@)) by {
        reveal_strlit(
            "COPY _import_editions_staging (work_olid, open_library_id, base_slug, title, subtitle, asin, cover_id, format, goodreads_id, google_books_id, isbn10, isbn13, language, page_count, published_year, publisher, series, edition_name, internet_archive_id) FROM STDIN BINARY",
        );
        lemma_keeps_rows(COPY_EDITIONS@);
    }
}

proof fn lemma_ddl()
    ensures
        keeps_rows(DDL@),
{
    let s = DDL@;
    reveal_strlit("
CREATE SEQUENCE IF NOT EXISTS authors_id_seq;
CREATE SEQUENCE IF NOT EXISTS works_id_seq;
CREATE SEQUENCE IF NOT EXISTS authorships_id_seq;
CREATE SEQUENCE IF NOT EXISTS editions_id_seq;

CREATE TABLE IF NOT EXISTS authors (
    created_at timestamp NOT NULL,
    updated_at timestamp NOT NULL,
    id int8 NOT NULL DEFAULT nextval('authors_id_seq'::regclass),
    open_library_id TEXT,
    works_count int4 NOT NULL DEFAULT 0,
    name TEXT NOT NULL,
    bio TEXT,
    sort_name TEXT,
    birth_date TEXT,
    death_date TEXT,
    photo_id TEXT,
    slug TEXT NOT NULL,
    PRIMARY KEY (id)
);

CREATE TABLE IF NOT EXISTS works (
    created_at timestamp NOT NULL,
    updated_at timestamp NOT NULL,
    id int8 NOT NULL DEFAULT nextval('works_id_seq'::regclass),
    open_library_id TEXT,
    edition_count int4 NOT NULL DEFAULT 0,
    title TEXT NOT NULL,
    subtitle TEXT,
    description TEXT,
    cover_id TEXT,
    first_publish_date TEXT,
    first_publish_year int4,
    subjects TEXT[] NOT NULL DEFAULT '{}',
    slug TEXT NOT NULL,
    PRIMARY KEY (id)
);

CREATE TABLE IF NOT EXISTS authorships (
    created_at timestamp NOT NULL,
    updated_at timestamp NOT NULL,
    id int8 NOT NULL DEFAULT nextval('authorships_id_seq'::regclass),
    author_id int8 NOT NULL,
    work_id int8 NOT NULL,
    position int4 NOT NULL DEFAULT 0,
    CONSTRAINT works_fk FOREIGN KEY (work_id) REFERENCES works(id),
    CONSTRAINT authors_fk FOREIGN KEY (author_id) REFERENCES authors(id),
    PRIMARY KEY (id)
);

CREATE TABLE IF NOT EXISTS editions (
    created_at timestamp NOT NULL,
    updated_at timestamp NOT NULL,
    id int8 NOT NULL DEFAULT nextval('editions_id_seq'::regclass),
    open_library_id TEXT,
    work_id int8 NOT NULL,
    google_books_id TEXT,
    goodreads_id TEXT,
    asin TEXT,
    title TEXT,
    cover_id TEXT,
    format TEXT,
    isbn10 TEXT,
    isbn13 TEXT,
    language TEXT,
    page_count int4,
    published_year int4,
    publisher TEXT,
    subtitle TEXT,
    series TEXT,
    edition_name TEXT,
    internet_archive_id TEXT,
    slug TEXT NOT NULL,
    CONSTRAINT works_fk FOREIGN KEY (work_id) REFERENCES works(id),
    PRIMARY KEY (id)
);
");
    assert(undeleting(s));
    assert(undropping(s));
    lemma_keeps_rows(s);
}

proof fn lemma_emptiness(table: Table)
    ensures
        keeps_rows(emptiness_text(table)),
{
    let head = "SELECT NOT EXISTS (SELECT 1 FROM "@;
    let name = table.spec_name();
    assert(harmless(head)) by {
        reveal_strlit("SELECT NOT EXISTS (SELECT 1 FROM ");
    }
    assert(harmless(name)) by {
        reveal_strlit("authors");
        reveal_strlit("works");
        reveal_strlit("authorships");
        reveal_strlit("editions");
    }
    assert(harmless(")"@)) by {
        reveal_strlit(")");
    }
    lemma_join(head, name);
    lemma_join(head + name, ")"@);
    lemma_keeps_rows(emptiness_text(table));
}

// ---------------------------------------------------------------------------
// What holds of every import
// ---------------------------------------------------------------------------

/// Records that disappear from a newer dump are kept: no statement that an import
/// runs deletes or truncates, and all that any of them drops is a staging table or
/// an index.
pub proof fn law_imports_keep_rows(sql: Seq<char>)
    requires
        is_statement(sql),
    ensures
        keeps_rows(sql),
{
    lemma_small_statements();
    lemma_ddl();
    lemma_staging_authors();
    lemma_staging_works();
    lemma_staging_editions();
    lemma_staging_refs();
    lemma_drop_staging();
    lemma_update_authors();
    lemma_update_works();
    lemma_update_editions();
    lemma_insert_authors();
    lemma_insert_works();
    lemma_insert_editions();
    lemma_upsert_authorships();
    lemma_recount_editions();
    lemma_clear_edition_counts();
    lemma_recount_works();
    lemma_clear_work_counts();
    assert forall|i: int| 0 <= i < all_indexes().len() implies keeps_rows(
        (#[trigger] all_indexes()[i]).ddl,
    ) && keeps_rows(drop_text(all_indexes()[i])) by {
        lemma_indexes(i);
    }
    assert forall|table: Table| keeps_rows(#[trigger] emptiness_text(table)) by {
        lemma_emptiness(table);
    }
}

/// Row ids are stable across imports: a merge refreshes a row without giving it
/// another id or open_library_id, and a link without changing its ends or its
/// created_at; the counter caches are recomputed without touching any id.
pub proof fn law_ids_are_stable(table: Table)
    ensures
        table.update_text() matches Some(sql) ==> keeps_ids(sql),
        keeps_ids(Table::Authorships.insert_text()),
        keeps_link(Table::Authorships.insert_text()),
        keeps_ids(RECOUNT_EDITIONS@),
        keeps_ids(CLEAR_EDITION_COUNTS@),
        keeps_ids(RECOUNT_WORKS@),
        keeps_ids(CLEAR_WORK_COUNTS@),
{
    lemma_update_authors();
    lemma_update_works();
    lemma_update_editions();
    lemma_upsert_authorships();
    lemma_recount_editions();
    lemma_clear_edition_counts();
    lemma_recount_works();
    lemma_clear_work_counts();
}

} // verus!
