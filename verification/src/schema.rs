//! Tables and indexes.
//!
//! Tables are created in FK-dependency order (authors/works before
//! authorships/editions). The sequences are created up front because the
//! column defaults reference them by name. In the Rails database the tables
//! already exist (as identity columns, whose backing sequences share these
//! names), so creating them is a no-op there. Don't add ALTER SEQUENCE
//! ... OWNED BY: it errors on identity sequences, and nothing needs the
//! ownership link since imports never truncate.

use vstd::prelude::*;

use crate::text::{has_prefix, str_eq};

verus! {

pub const DDL: &'static str = "
CREATE SEQUENCE IF NOT EXISTS authors_id_seq;
CREATE SEQUENCE IF NOT EXISTS works_id_seq;
CREATE SEQUENCE IF NOT EXISTS authorships_id_seq;
CREATE SEQUENCE IF NOT EXISTS editions_id_seq;

CREATE TABLE IF NOT EXISTS authors (
    created_at timestamp NOT NULL,
    updated_at timestamp NOT NULL,
    id int8 NOT NULL DEFAULT nextval('authors_id_seq'::regclass),
    open_library_id TEXT,
    works_count int4 NOT NULL DEFAULT 0,
    name TEXT NOT NULL,
    bio TEXT,
    sort_name TEXT,
    birth_date TEXT,
    death_date TEXT,
    photo_id TEXT,
    slug TEXT NOT NULL,
    PRIMARY KEY (id)
);

CREATE TABLE IF NOT EXISTS works (
    created_at timestamp NOT NULL,
    updated_at timestamp NOT NULL,
    id int8 NOT NULL DEFAULT nextval('works_id_seq'::regclass),
    open_library_id TEXT,
    edition_count int4 NOT NULL DEFAULT 0,
    title TEXT NOT NULL,
    subtitle TEXT,
    description TEXT,
    cover_id TEXT,
    first_publish_date TEXT,
    first_publish_year int4,
    subjects TEXT[] NOT NULL DEFAULT '{}',
    slug TEXT NOT NULL,
    PRIMARY KEY (id)
);

CREATE TABLE IF NOT EXISTS authorships (
    created_at timestamp NOT NULL,
    updated_at timestamp NOT NULL,
    id int8 NOT NULL DEFAULT nextval('authorships_id_seq'::regclass),
    author_id int8 NOT NULL,
    work_id int8 NOT NULL,
    position int4 NOT NULL DEFAULT 0,
    CONSTRAINT works_fk FOREIGN KEY (work_id) REFERENCES works(id),
    CONSTRAINT authors_fk FOREIGN KEY (author_id) REFERENCES authors(id),
    PRIMARY KEY (id)
);

CREATE TABLE IF NOT EXISTS editions (
    created_at timestamp NOT NULL,
    updated_at timestamp NOT NULL,
    id int8 NOT NULL DEFAULT nextval('editions_id_seq'::regclass),
    open_library_id TEXT,
    work_id int8 NOT NULL,
    google_books_id TEXT,
    goodreads_id TEXT,
    asin TEXT,
    title TEXT,
    cover_id TEXT,
    format TEXT,
    isbn10 TEXT,
    isbn13 TEXT,
    language TEXT,
    page_count int4,
    published_year int4,
    publisher TEXT,
    subtitle TEXT,
    series TEXT,
    edition_name TEXT,
    internet_archive_id TEXT,
    slug TEXT NOT NULL,
    CONSTRAINT works_fk FOREIGN KEY (work_id) REFERENCES works(id),
    PRIMARY KEY (id)
);
";

/// Whether the index with the name `$1` exists.
pub const INDEX_EXISTS: &'static str = "SELECT to_regclass($1) IS NOT NULL";

#[derive(Copy, Clone, Debug)]
pub struct Index {
    pub table: &'static str,
    pub name: &'static str,
    pub ddl: &'static str,
    /// Required indexes are the upserts' ON CONFLICT targets — they must
    /// always exist and are never dropped for bulk loads.
    pub required: bool,
}

/// The contents of an [`Index`].
#[verifier::ext_equal]
pub struct IndexView {
    pub table: Seq<char>,
    pub name: Seq<char>,
    pub ddl: Seq<char>,
    pub required: bool,
}

impl View for Index {
    type V = IndexView;

    open spec fn view(&self) -> IndexView {
        IndexView {
            table: self.table@,
            name: self.name@,
            ddl: self.ddl@,
            required: self.required,
        }
    }
}

/// The contents of a list of indexes.
pub open spec fn index_views(v: Seq<Index>) -> Seq<IndexView> {
    v.map_values(|i: Index| i@)
}

/// Every index. The `name` must match the name in the DDL — it is what
/// existence checks and drops go by.
pub open spec fn all_indexes() -> Seq<IndexView> {
    seq![
        IndexView {
            table: "authors"@,
            name: "index_authors_on_open_library_id"@,
            ddl: "CREATE UNIQUE INDEX index_authors_on_open_library_id ON public.authors USING btree (open_library_id)"@,
            required: true,
        },
        IndexView {
            table: "authors"@,
            name: "index_authors_on_slug"@,
            ddl: "CREATE UNIQUE INDEX index_authors_on_slug ON authors USING btree (slug)"@,
            required: false,
        },
        IndexView {
            table: "authorships"@,
            name: "index_authorships_on_author_id"@,
            ddl: "CREATE INDEX index_authorships_on_author_id ON authorships USING btree (author_id)"@,
            required: false,
        },
        IndexView {
            table: "authorships"@,
            name: "index_authorships_on_work_id_and_author_id"@,
            ddl: "CREATE UNIQUE INDEX index_authorships_on_work_id_and_author_id ON authorships USING btree (work_id, author_id)"@,
            required: true,
        },
        IndexView {
            table: "authorships"@,
            name: "index_authorships_on_work_id"@,
            ddl: "CREATE INDEX index_authorships_on_work_id ON authorships USING btree (work_id)"@,
            required: false,
        },
        IndexView {
            table: "editions"@,
            name: "index_editions_on_goodreads_id"@,
            ddl: "CREATE INDEX index_editions_on_goodreads_id ON editions USING btree (goodreads_id)"@,
            required: false,
        },
        IndexView {
            table: "editions"@,
            name: "index_editions_on_google_books_id"@,
            ddl: "CREATE INDEX index_editions_on_google_books_id ON editions USING btree (google_books_id)"@,
            required: false,
        },
        IndexView {
            table: "editions"@,
            name: "index_editions_on_isbn10"@,
            ddl: "CREATE INDEX index_editions_on_isbn10 ON editions USING btree (isbn10)"@,
            required: false,
        },
        IndexView {
            table: "editions"@,
            name: "index_editions_on_isbn13"@,
            ddl: "CREATE INDEX index_editions_on_isbn13 ON editions USING btree (isbn13)"@,
            required: false,
        },
        IndexView {
            table: "editions"@,
            name: "index_editions_on_open_library_id"@,
            ddl: "CREATE UNIQUE INDEX index_editions_on_open_library_id ON editions USING btree (open_library_id)"@,
            required: true,
        },
        IndexView {
            table: "editions"@,
            name: "index_editions_on_slug"@,
            ddl: "CREATE UNIQUE INDEX index_editions_on_slug ON editions USING btree (slug)"@,
            required: false,
        },
        IndexView {
            table: "editions"@,
            name: "index_editions_on_work_id"@,
            ddl: "CREATE INDEX index_editions_on_work_id ON editions USING btree (work_id)"@,
            required: false,
        },
        IndexView {
            table: "works"@,
            name: "index_works_on_first_publish_year"@,
            ddl: "CREATE INDEX index_works_on_first_publish_year ON works USING btree (first_publish_year)"@,
            required: false,
        },
        IndexView {
            table: "works"@,
            name: "index_works_on_open_library_id"@,
            ddl: "CREATE UNIQUE INDEX index_works_on_open_library_id ON works USING btree (open_library_id)"@,
            required: true,
        },
        IndexView {
            table: "works"@,
            name: "index_works_on_slug"@,
            ddl: "CREATE UNIQUE INDEX index_works_on_slug ON works USING btree (slug)"@,
            required: false,
        },
        IndexView {
            table: "works"@,
            name: "index_works_on_title"@,
            ddl: "CREATE INDEX index_works_on_title ON works USING btree (title)"@,
            required: false,
        },
    ]
}

pub fn indexes() -> (r: Vec<Index>)
    ensures
        index_views(r@) == all_indexes(),
{
    let r: Vec<Index> = vec![
        Index {
            table: "authors",
            name: "index_authors_on_open_library_id",
            ddl: "CREATE UNIQUE INDEX index_authors_on_open_library_id ON public.authors USING btree (open_library_id)",
            required: true,
        },
        Index {
            table: "authors",
            name: "index_authors_on_slug",
            ddl: "CREATE UNIQUE INDEX index_authors_on_slug ON authors USING btree (slug)",
            required: false,
        },
        Index {
            table: "authorships",
            name: "index_authorships_on_author_id",
            ddl: "CREATE INDEX index_authorships_on_author_id ON authorships USING btree (author_id)",
            required: false,
        },
        Index {
            table: "authorships",
            name: "index_authorships_on_work_id_and_author_id",
            ddl: "CREATE UNIQUE INDEX index_authorships_on_work_id_and_author_id ON authorships USING btree (work_id, author_id)",
            required: true,
        },
        Index {
            table: "authorships",
            name: "index_authorships_on_work_id",
            ddl: "CREATE INDEX index_authorships_on_work_id ON authorships USING btree (work_id)",
            required: false,
        },
        Index {
            table: "editions",
            name: "index_editions_on_goodreads_id",
            ddl: "CREATE INDEX index_editions_on_goodreads_id ON editions USING btree (goodreads_id)",
            required: false,
        },
        Index {
            table: "editions",
            name: "index_editions_on_google_books_id",
            ddl: "CREATE INDEX index_editions_on_google_books_id ON editions USING btree (google_books_id)",
            required: false,
        },
        Index {
            table: "editions",
            name: "index_editions_on_isbn10",
            ddl: "CREATE INDEX index_editions_on_isbn10 ON editions USING btree (isbn10)",
            required: false,
        },
        Index {
            table: "editions",
            name: "index_editions_on_isbn13",
            ddl: "CREATE INDEX index_editions_on_isbn13 ON editions USING btree (isbn13)",
            required: false,
        },
        Index {
            table: "editions",
            name: "index_editions_on_open_library_id",
            ddl: "CREATE UNIQUE INDEX index_editions_on_open_library_id ON editions USING btree (open_library_id)",
            required: true,
        },
        Index {
            table: "editions",
            name: "index_editions_on_slug",
            ddl: "CREATE UNIQUE INDEX index_editions_on_slug ON editions USING btree (slug)",
            required: false,
        },
        Index {
            table: "editions",
            name: "index_editions_on_work_id",
            ddl: "CREATE INDEX index_editions_on_work_id ON editions USING btree (work_id)",
            required: false,
        },
        Index {
            table: "works",
            name: "index_works_on_first_publish_year",
            ddl: "CREATE INDEX index_works_on_first_publish_year ON works USING btree (first_publish_year)",
            required: false,
        },
        Index {
            table: "works",
            name: "index_works_on_open_library_id",
            ddl: "CREATE UNIQUE INDEX index_works_on_open_library_id ON works USING btree (open_library_id)",
            required: true,
        },
        Index {
            table: "works",
            name: "index_works_on_slug",
            ddl: "CREATE UNIQUE INDEX index_works_on_slug ON works USING btree (slug)",
            required: false,
        },
        Index {
            table: "works",
            name: "index_works_on_title",
            ddl: "CREATE INDEX index_works_on_title ON works USING btree (title)",
            required: false,
        },
    ];
    assert(index_views(r@) =~= all_indexes());
    r
}

// ---------------------------------------------------------------------------
// Which indexes to create and to drop
// ---------------------------------------------------------------------------

/// A choice among the indexes.
#[derive(Copy, Clone, PartialEq, Eq, Debug, Structural)]
pub enum Pick {
    /// The required indexes of all tables.
    Required,
    /// All indexes of one table.
    All,
    /// The indexes of one table that are not required.
    Secondary,
}

impl Pick {
    pub open spec fn takes(self, index: IndexView, table: Seq<char>) -> bool {
        match self {
            Pick::Required => index.required,
            Pick::All => index.table == table,
            Pick::Secondary => index.table == table && !index.required,
        }
    }
}

/// The indexes that are picked, in order.
pub open spec fn picked(pick: Pick, table: Seq<char>) -> Seq<IndexView> {
    all_indexes().filter(|i: IndexView| pick.takes(i, table))
}

/// Every required index.
pub open spec fn required_indexes() -> Seq<IndexView> {
    picked(Pick::Required, Seq::empty())
}

/// Every index of a table.
pub open spec fn indexes_of(table: Seq<char>) -> Seq<IndexView> {
    picked(Pick::All, table)
}

/// Every index of a table that is not required.
pub open spec fn secondary_indexes_of(table: Seq<char>) -> Seq<IndexView> {
    picked(Pick::Secondary, table)
}

proof fn lemma_filter_step(s: Seq<IndexView>, pred: spec_fn(IndexView) -> bool, i: int)
    requires
        0 <= i < s.len(),
    ensures
        s.take(i + 1).filter(pred) == (if pred(s[i]) {
            s.take(i).filter(pred).push(s[i])
        } else {
            s.take(i).filter(pred)
        }),
{
    reveal(Seq::filter);
    assert(s.take(i + 1).drop_last() =~= s.take(i));
}

fn pick_indexes(pick: Pick, table: &str) -> (r: Vec<Index>)
    ensures
        index_views(r@) == picked(pick, table@),
{
    let all = indexes();
    let mut r: Vec<Index> = Vec::new();
    let ghost pred = |i: IndexView| pick.takes(i, table@);
    let ghost views = index_views(all@);
    let mut i: usize = 0;
    assert(views.take(0).filter(pred) =~= Seq::empty()) by {
        reveal(Seq::filter);
    }
    assert(index_views(r@) =~= Seq::empty());
    while i < all.len()
        invariant
            i <= all@.len(),
            views == index_views(all@),
            pred == (|i: IndexView| pick.takes(i, table@)),
            index_views(r@) == views.take(i as int).filter(pred),
        decreases all@.len() - i,
    {
        let ghost before = r@;
        let index = all[i];
        let taken = match pick {
            Pick::Required => index.required,
            Pick::All => str_eq(index.table, table),
            Pick::Secondary => !index.required && str_eq(index.table, table),
        };
        if taken {
            r.push(index);
            assert(index_views(r@) =~= index_views(before).push(index@));
        }
        proof {
            assert(views[i as int] == index@);
            lemma_filter_step(views, pred, i as int);
        }
        i += 1;
    }
    assert(views.take(views.len() as int) =~= views);
    r
}

/// What [`create_tables`] asks for: run the DDL, then create every listed index
/// that is missing.
#[derive(Debug)]
pub struct TablePlan {
    pub ddl: &'static str,
    pub indexes: Vec<Index>,
}

/// Creates the tables. The ON CONFLICT targets must exist before the first
/// upsert, so the required indexes come with them.
pub fn create_tables() -> (r: TablePlan)
    ensures
        r.ddl@ == DDL@,
        index_views(r.indexes@) == required_indexes(),
{
    let indexes = pick_indexes(Pick::Required, "");
    assert(index_views(indexes@) == required_indexes()) by {
        assert(required_indexes() =~= picked(Pick::Required, ""@)) by {
            reveal_strlit("");
            assert(""@ =~= Seq::empty());
        }
    }
    TablePlan { ddl: DDL, indexes }
}

/// The statement that creates an index, unless it exists.
pub fn create_if_missing(index: &Index, exists: bool) -> (r: Option<&'static str>)
    ensures
        r.deep_view() == (if exists {
            None
        } else {
            Some(index@.ddl)
        }),
{
    if exists {
        None
    } else {
        Some(index.ddl)
    }
}

pub open spec fn drop_text(index: IndexView) -> Seq<char> {
    "DROP INDEX IF EXISTS "@ + index.name
}

/// The statements that drop a table's secondary indexes, so that a first bulk
/// load runs at full speed. The unique ON CONFLICT indexes stay.
pub fn drop_secondary_indexes(table: &str) -> (r: Vec<String>)
    ensures
        r.deep_view() == secondary_indexes_of(table@).map_values(|i: IndexView| drop_text(i)),
{
    let dropped = pick_indexes(Pick::Secondary, table);
    let ghost texts = index_views(dropped@).map_values(|i: IndexView| drop_text(i));
    let mut r: Vec<String> = Vec::new();
    let mut i: usize = 0;
    while i < dropped.len()
        invariant
            i <= dropped@.len(),
            texts == index_views(dropped@).map_values(|i: IndexView| drop_text(i)),
            r.deep_view() =~= texts.take(i as int),
        decreases dropped@.len() - i,
    {
        let ghost before = r.deep_view();
        let mut sql = "DROP INDEX IF EXISTS ".to_owned();
        sql.append(dropped[i].name);
        r.push(sql);
        assert(r.deep_view() =~= before.push(sql@));
        assert(texts[i as int] == sql@);
        i += 1;
    }
    assert(texts.take(texts.len() as int) =~= texts);
    r
}

/// The table's indexes, to be created where they don't exist yet.
pub fn create_indexes(table: &str) -> (r: Vec<Index>)
    ensures
        index_views(r@) == indexes_of(table@),
{
    pick_indexes(Pick::All, table)
}

// ---------------------------------------------------------------------------
// What the index list promises
// ---------------------------------------------------------------------------

/// No two indexes have the same name.
pub proof fn law_index_names_differ(i: int, j: int)
    requires
        0 <= i < j < all_indexes().len(),
    ensures
        all_indexes()[i].name != all_indexes()[j].name,
{
    let all = all_indexes();
    assert(all[0].name.len() == 32) by {
        reveal_strlit("index_authors_on_open_library_id");
    }
    assert(all[1].name.len() == 21) by {
        reveal_strlit("index_authors_on_slug");
    }
    assert(all[2].name.len() == 30) by {
        reveal_strlit("index_authorships_on_author_id");
    }
    assert(all[3].name.len() == 42) by {
        reveal_strlit("index_authorships_on_work_id_and_author_id");
    }
    assert(all[4].name.len() == 28) by {
        reveal_strlit("index_authorships_on_work_id");
    }
    assert(all[5].name.len() == 30) by {
        reveal_strlit("index_editions_on_goodreads_id");
    }
    assert(all[6].name.len() == 33) by {
        reveal_strlit("index_editions_on_google_books_id");
    }
    assert(all[7].name.len() == 24) by {
        reveal_strlit("index_editions_on_isbn10");
    }
    assert(all[8].name.len() == 24) by {
        reveal_strlit("index_editions_on_isbn13");
    }
    assert(all[9].name.len() == 33) by {
        reveal_strlit("index_editions_on_open_library_id");
    }
    assert(all[10].name.len() == 22) by {
        reveal_strlit("index_editions_on_slug");
    }
    assert(all[11].name.len() == 25) by {
        reveal_strlit("index_editions_on_work_id");
    }
    assert(all[12].name.len() == 33) by {
        reveal_strlit("index_works_on_first_publish_year");
    }
    assert(all[13].name.len() == 30) by {
        reveal_strlit("index_works_on_open_library_id");
    }
    assert(all[14].name.len() == 19) by {
        reveal_strlit("index_works_on_slug");
    }
    assert(all[15].name.len() == 20) by {
        reveal_strlit("index_works_on_title");
    }
    assert(all[2].name[6] != all[5].name[6]) by {
        reveal_strlit("index_authorships_on_author_id");
        reveal_strlit("index_editions_on_goodreads_id");
    }
    assert(all[2].name[6] != all[13].name[6]) by {
        reveal_strlit("index_authorships_on_author_id");
        reveal_strlit("index_works_on_open_library_id");
    }
    assert(all[5].name[6] != all[13].name[6]) by {
        reveal_strlit("index_editions_on_goodreads_id");
        reveal_strlit("index_works_on_open_library_id");
    }
    assert(all[6].name[18] != all[9].name[18]) by {
        reveal_strlit("index_editions_on_google_books_id");
        reveal_strlit("index_editions_on_open_library_id");
    }
    assert(all[6].name[6] != all[12].name[6]) by {
        reveal_strlit("index_editions_on_google_books_id");
        reveal_strlit("index_works_on_first_publish_year");
    }
    assert(all[7].name[23] != all[8].name[23]) by {
        reveal_strlit("index_editions_on_isbn10");
        reveal_strlit("index_editions_on_isbn13");
    }
    assert(all[9].name[6] != all[12].name[6]) by {
        reveal_strlit("index_editions_on_open_library_id");
        reveal_strlit("index_works_on_first_publish_year");
    }
}

/// Whether `ddl` creates an index called `name`.
pub open spec fn creates_index(ddl: Seq<char>, name: Seq<char>) -> bool {
    ||| has_prefix(ddl, "CREATE INDEX "@ + name + " ON "@)
    ||| creates_unique_index(ddl, name)
}

/// Whether `ddl` creates a unique index called `name`.
pub open spec fn creates_unique_index(ddl: Seq<char>, name: Seq<char>) -> bool {
    has_prefix(ddl, "CREATE UNIQUE INDEX "@ + name + " ON "@)
}

/// The DDL of every index creates the index of that name, and a unique one
/// where the index is required.
pub proof fn law_ddl_matches_name(i: int)
    requires
        0 <= i < all_indexes().len(),
    ensures
        creates_index(all_indexes()[i].ddl, all_indexes()[i].name),
        all_indexes()[i].required ==> creates_unique_index(
            all_indexes()[i].ddl,
            all_indexes()[i].name,
        ),
{
    let all = all_indexes();
    reveal_strlit("CREATE INDEX ");
    reveal_strlit("CREATE UNIQUE INDEX ");
    reveal_strlit(" ON ");
    assert(creates_unique_index(all[0].ddl, all[0].name)) by {
        reveal_strlit("index_authors_on_open_library_id");
        reveal_strlit(
            "CREATE UNIQUE INDEX index_authors_on_open_library_id ON public.authors USING btree (open_library_id)",
        );
        assert(all[0].ddl.subrange(0, 56) =~= "CREATE UNIQUE INDEX "@ + all[0].name + " ON "@);
    }
    assert(creates_unique_index(all[1].ddl, all[1].name)) by {
        reveal_strlit("index_authors_on_slug");
        reveal_strlit(
            "CREATE UNIQUE INDEX index_authors_on_slug ON authors USING btree (slug)",
        );
        assert(all[1].ddl.subrange(0, 45) =~= "CREATE UNIQUE INDEX "@ + all[1].name + " ON "@);
    }
    assert(creates_index(all[2].ddl, all[2].name)) by {
        reveal_strlit("index_authorships_on_author_id");
        reveal_strlit(
            "CREATE INDEX index_authorships_on_author_id ON authorships USING btree (author_id)",
        );
        assert(all[2].ddl.subrange(0, 47) =~= "CREATE INDEX "@ + all[2].name + " ON "@);
    }
    assert(creates_unique_index(all[3].ddl, all[3].name)) by {
        reveal_strlit("index_authorships_on_work_id_and_author_id");
        reveal_strlit(
            "CREATE UNIQUE INDEX index_authorships_on_work_id_and_author_id ON authorships USING btree (work_id, author_id)",
        );
        assert(all[3].ddl.subrange(0, 66) =~= "CREATE UNIQUE INDEX "@ + all[3].name + " ON "@);
    }
    assert(creates_index(all[4].ddl, all[4].name)) by {
        reveal_strlit("index_authorships_on_work_id");
        reveal_strlit(
            "CREATE INDEX index_authorships_on_work_id ON authorships USING btree (work_id)",
        );
        assert(all[4].ddl.subrange(0, 45) =~= "CREATE INDEX "@ + all[4].name + " ON "@);
    }
    assert(creates_index(all[5].ddl, all[5].name)) by {
        reveal_strlit("index_editions_on_goodreads_id");
        reveal_strlit(
            "CREATE INDEX index_editions_on_goodreads_id ON editions USING btree (goodreads_id)",
        );
        assert(all[5].ddl.subrange(0, 47) =~= "CREATE INDEX "@ + all[5].name + " ON "@);
    }
    assert(creates_index(all[6].ddl, all[6].name)) by {
        reveal_strlit("index_editions_on_google_books_id");
        reveal_strlit(
            "CREATE INDEX index_editions_on_google_books_id ON editions USING btree (google_books_id)",
        );
        assert(all[6].ddl.subrange(0, 50) =~= "CREATE INDEX "@ + all[6].name + " ON "@);
    }
    assert(creates_index(all[7].ddl, all[7].name)) by {
        reveal_strlit("index_editions_on_isbn10");
        reveal_strlit(
            "CREATE INDEX index_editions_on_isbn10 ON editions USING btree (isbn10)",
        );
        assert(all[7].ddl.subrange(0, 41) =~= "CREATE INDEX "@ + all[7].name + " ON "@);
    }
    assert(creates_index(all[8].ddl, all[8].name)) by {
        reveal_strlit("index_editions_on_isbn13");
        reveal_strlit(
            "CREATE INDEX index_editions_on_isbn13 ON editions USING btree (isbn13)",
        );
        assert(all[8].ddl.subrange(0, 41) =~= "CREATE INDEX "@ + all[8].name + " ON "@);
    }
    assert(creates_unique_index(all[9].ddl, all[9].name)) by {
        reveal_strlit("index_editions_on_open_library_id");
        reveal_strlit(
            "CREATE UNIQUE INDEX index_editions_on_open_library_id ON editions USING btree (open_library_id)",
        );
        assert(all[9].ddl.subrange(0, 57) =~= "CREATE UNIQUE INDEX "@ + all[9].name + " ON "@);
    }
    assert(creates_unique_index(all[10].ddl, all[10].name)) by {
        reveal_strlit("index_editions_on_slug");
        reveal_strlit(
            "CREATE UNIQUE INDEX index_editions_on_slug ON editions USING btree (slug)",
        );
        assert(all[10].ddl.subrange(0, 46) =~= "CREATE UNIQUE INDEX "@ + all[10].name + " ON "@);
    }
    assert(creates_index(all[11].ddl, all[11].name)) by {
        reveal_strlit("index_editions_on_work_id");
        reveal_strlit(
            "CREATE INDEX index_editions_on_work_id ON editions USING btree (work_id)",
        );
        assert(all[11].ddl.subrange(0, 42) =~= "CREATE INDEX "@ + all[11].name + " ON "@);
    }
    assert(creates_index(all[12].ddl, all[12].name)) by {
        reveal_strlit("index_works_on_first_publish_year");
        reveal_strlit(
            "CREATE INDEX index_works_on_first_publish_year ON works USING btree (first_publish_year)",
        );
        assert(all[12].ddl.subrange(0, 50) =~= "CREATE INDEX "@ + all[12].name + " ON "@);
    }
    assert(creates_unique_index(all[13].ddl, all[13].name)) by {
        reveal_strlit("index_works_on_open_library_id");
        reveal_strlit(
            "CREATE UNIQUE INDEX index_works_on_open_library_id ON works USING btree (open_library_id)",
        );
        assert(all[13].ddl.subrange(0, 54) =~= "CREATE UNIQUE INDEX "@ + all[13].name + " ON "@);
    }
    assert(creates_unique_index(all[14].ddl, all[14].name)) by {
        reveal_strlit("index_works_on_slug");
        reveal_strlit(
            "CREATE UNIQUE INDEX index_works_on_slug ON works USING btree (slug)",
        );
        assert(all[14].ddl.subrange(0, 43) =~= "CREATE UNIQUE INDEX "@ + all[14].name + " ON "@);
    }
    assert(creates_index(all[15].ddl, all[15].name)) by {
        reveal_strlit("index_works_on_title");
        reveal_strlit(
            "CREATE INDEX index_works_on_title ON works USING btree (title)",
        );
        assert(all[15].ddl.subrange(0, 37) =~= "CREATE INDEX "@ + all[15].name + " ON "@);
    }
}

/// The names of the indexes that are picked.
pub open spec fn names_of(pick: Pick, table: Seq<char>) -> Set<Seq<char>> {
    Set::new(
        |name: Seq<char>|
            exists|i: int|
                0 <= i < picked(pick, table).len() && (#[trigger] picked(pick, table)[i]).name
                    == name,
    )
}

pub proof fn lemma_picked(pick: Pick, table: Seq<char>, x: IndexView)
    ensures
        picked(pick, table).contains(x) <==> all_indexes().contains(x) && pick.takes(x, table),
{
    lemma_filter_member(all_indexes(), |i: IndexView| pick.takes(i, table), x);
}

proof fn lemma_filter_member(s: Seq<IndexView>, pred: spec_fn(IndexView) -> bool, x: IndexView)
    ensures
        s.filter(pred).contains(x) <==> s.contains(x) && pred(x),
    decreases s.len(),
{
    reveal(Seq::filter);
    if s.len() > 0 {
        let init = s.drop_last();
        lemma_filter_member(init, pred, x);
        let f = init.filter(pred);
        if s.contains(x) {
            let k = choose|k: int| 0 <= k < s.len() && s[k] == x;
            if k < init.len() {
                assert(init[k] == x);
            }
        }
        if init.contains(x) {
            let k = choose|k: int| 0 <= k < init.len() && init[k] == x;
            assert(s[k] == x);
        }
        if pred(s.last()) {
            assert(s.filter(pred) == f.push(s.last()));
            assert(f.push(s.last())[f.len() as int] == s.last());
            if f.contains(x) {
                let k = choose|k: int| 0 <= k < f.len() && f[k] == x;
                assert(f.push(s.last())[k] == x);
            }
            if f.push(s.last()).contains(x) {
                let k = choose|k: int| 0 <= k < f.len() + 1 && f.push(s.last())[k] == x;
                if k < f.len() {
                    assert(f[k] == x);
                } else {
                    assert(s[s.len() - 1] == x);
                }
            }
        }
    }
}

proof fn lemma_names(pick: Pick, table: Seq<char>, i: int)
    requires
        0 <= i < all_indexes().len(),
    ensures
        names_of(pick, table).contains(all_indexes()[i].name) <==> pick.takes(
            all_indexes()[i],
            table,
        ),
{
    let x = all_indexes()[i];
    let p = picked(pick, table);
    assert(all_indexes().contains(x));
    lemma_picked(pick, table, x);
    if pick.takes(x, table) {
        let k = choose|k: int| 0 <= k < p.len() && p[k] == x;
        assert(p[k].name == x.name);
    }
    if names_of(pick, table).contains(x.name) {
        let k = choose|k: int| 0 <= k < p.len() && (#[trigger] p[k]).name == x.name;
        assert(p.contains(p[k]));
        lemma_picked(pick, table, p[k]);
        let j = choose|j: int| 0 <= j < all_indexes().len() && all_indexes()[j] == p[k];
        if j < i {
            law_index_names_differ(j, i);
        } else if i < j {
            law_index_names_differ(i, j);
        }
    }
}

/// Dropping a table's secondary indexes leaves every required index of every
/// table in place. `existing` holds the names of the indexes that exist.
pub proof fn law_required_indexes_stay(existing: Set<Seq<char>>, table: Seq<char>, i: int)
    requires
        0 <= i < all_indexes().len(),
        all_indexes()[i].required,
        existing.contains(all_indexes()[i].name),
    ensures
        existing.difference(names_of(Pick::Secondary, table)).contains(all_indexes()[i].name),
{
    lemma_names(Pick::Secondary, table, i);
}

/// Creating a table's missing indexes after its secondary ones were dropped
/// brings back all that were there: it is as if none had been dropped.
pub proof fn law_dropped_indexes_come_back(existing: Set<Seq<char>>, table: Seq<char>)
    ensures
        existing.difference(names_of(Pick::Secondary, table)).union(names_of(Pick::All, table))
            == existing.union(names_of(Pick::All, table)),
{
    assert forall|name: Seq<char>|
        names_of(Pick::Secondary, table).contains(name) implies names_of(
        Pick::All,
        table,
    ).contains(name) by {
        let p = picked(Pick::Secondary, table);
        let k = choose|k: int| 0 <= k < p.len() && (#[trigger] p[k]).name == name;
        assert(p.contains(p[k]));
        lemma_picked(Pick::Secondary, table, p[k]);
        lemma_picked(Pick::All, table, p[k]);
        let q = picked(Pick::All, table);
        let m = choose|m: int| 0 <= m < q.len() && q[m] == p[k];
        assert(q[m].name == name);
    }
    assert(existing.difference(names_of(Pick::Secondary, table)).union(names_of(Pick::All, table))
        =~= existing.union(names_of(Pick::All, table)));
}

} // verus!
