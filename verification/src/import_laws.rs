//! What an import chooses and refuses, and what its indexes are for, in plain terms.

use vstd::prelude::*;

use crate::download::{BadDate, Source};
use crate::dump::DumpType;
use crate::import::{
    dev_announcement_text, dump_prefix, emptiness_text, index_label_text, insert_label_text,
    is_newest_dump, merge, names_dump, plan_of, require_works, update_label_text, FileEntry,
    ImportError, MergePlan, Table,
};
use crate::model::EditionView;
use crate::number::decimal;
use crate::outside::reads_as_date;
use crate::scan::{import_languages, meets_dev_bar};
use crate::schema::{
    all_indexes, create_if_missing, drop_text, index_views, lemma_picked, picked, INDEX_EXISTS,
    Index, IndexView, Pick,
};
use crate::sql::{COUNT_WORKS, DROP_STAGING, SESSION_SETTINGS};

verus! {

// ---------------------------------------------------------------------------
// Indexes
// ---------------------------------------------------------------------------

/// Whether an index is on the columns that its name tells, and unique where it has to be:
/// for the ids that rows are found by, and for slugs.
pub open spec fn is_index_on(x: IndexView, told: Seq<char>) -> bool {
    let columns = if told == "work_id_and_author_id"@ {
        "work_id, author_id"@
    } else {
        told
    };
    let create = if x.required || told == "slug"@ {
        "CREATE UNIQUE INDEX "@
    } else {
        "CREATE INDEX "@
    };
    &&& x.required <==> told == "open_library_id"@ || told == "work_id_and_author_id"@
    &&& x.name == "index_"@ + x.table + "_on_"@ + told
    &&& {
        ||| x.ddl == create + x.name + " ON "@ + x.table + " USING btree ("@ + columns + ")"@
        ||| x.ddl == create + x.name + " ON public."@ + x.table + " USING btree ("@ + columns + ")"@
    }
}

/// Every index is on the columns of its table that its name tells.
pub proof fn law_indexes_are_on_their_columns(i: int)
    requires
        0 <= i < all_indexes().len(),
    ensures
        exists|told: Seq<char>| is_index_on(all_indexes()[i], told),
{
    let all = all_indexes();
    reveal_strlit("CREATE UNIQUE INDEX ");
    reveal_strlit("CREATE INDEX ");
    reveal_strlit("index_");
    reveal_strlit("_on_");
    reveal_strlit(" ON ");
    reveal_strlit(" ON public.");
    reveal_strlit(" USING btree (");
    reveal_strlit(")");
    reveal_strlit("slug");
    reveal_strlit("open_library_id");
    reveal_strlit("work_id_and_author_id");
    reveal_strlit("work_id, author_id");
    reveal_strlit("authors");
    reveal_strlit("authorships");
    reveal_strlit("works");
    reveal_strlit("editions");
    assert(is_index_on(all[0], "open_library_id"@)) by {
        reveal_strlit("index_authors_on_open_library_id");
        reveal_strlit(
            "CREATE UNIQUE INDEX index_authors_on_open_library_id ON public.authors USING btree (open_library_id)",
        );
        assert("open_library_id"@.len() != "slug"@.len());
        assert("open_library_id"@.len() != "work_id_and_author_id"@.len());
        assert(all[0].name =~= "index_"@ + "authors"@ + "_on_"@ + "open_library_id"@);
        assert(all[0].ddl =~= "CREATE UNIQUE INDEX "@ + all[0].name + " ON public."@ + "authors"@ + " USING btree ("@
            + "open_library_id"@ + ")"@);
    }
    assert(is_index_on(all[1], "slug"@)) by {
        reveal_strlit("index_authors_on_slug");
        reveal_strlit(
            "CREATE UNIQUE INDEX index_authors_on_slug ON authors USING btree (slug)",
        );
        assert("slug"@.len() != "open_library_id"@.len());
        assert("slug"@.len() != "work_id_and_author_id"@.len());
        assert(all[1].name =~= "index_"@ + "authors"@ + "_on_"@ + "slug"@);
        assert(all[1].ddl =~= "CREATE UNIQUE INDEX "@ + all[1].name + " ON "@ + "authors"@ + " USING btree ("@
            + "slug"@ + ")"@);
    }
    assert(is_index_on(all[2], "author_id"@)) by {
        reveal_strlit("author_id");
        reveal_strlit("index_authorships_on_author_id");
        reveal_strlit(
            "CREATE INDEX index_authorships_on_author_id ON authorships USING btree (author_id)",
        );
        assert("author_id"@.len() != "slug"@.len());
        assert("author_id"@.len() != "open_library_id"@.len());
        assert("author_id"@.len() != "work_id_and_author_id"@.len());
        assert(all[2].name =~= "index_"@ + "authorships"@ + "_on_"@ + "author_id"@);
        assert(all[2].ddl =~= "CREATE INDEX "@ + all[2].name + " ON "@ + "authorships"@ + " USING btree ("@
            + "author_id"@ + ")"@);
    }
    assert(is_index_on(all[3], "work_id_and_author_id"@)) by {
        reveal_strlit("index_authorships_on_work_id_and_author_id");
        reveal_strlit(
            "CREATE UNIQUE INDEX index_authorships_on_work_id_and_author_id ON authorships USING btree (work_id, author_id)",
        );
        assert("work_id_and_author_id"@.len() != "slug"@.len());
        assert("work_id_and_author_id"@.len() != "open_library_id"@.len());
        assert(all[3].name =~= "index_"@ + "authorships"@ + "_on_"@ + "work_id_and_author_id"@);
        assert(all[3].ddl =~= "CREATE UNIQUE INDEX "@ + all[3].name + " ON "@ + "authorships"@ + " USING btree ("@
            + "work_id, author_id"@ + ")"@);
    }
    assert(is_index_on(all[4], "work_id"@)) by {
        reveal_strlit("work_id");
        reveal_strlit("index_authorships_on_work_id");
        reveal_strlit(
            "CREATE INDEX index_authorships_on_work_id ON authorships USING btree (work_id)",
        );
        assert("work_id"@.len() != "slug"@.len());
        assert("work_id"@.len() != "open_library_id"@.len());
        assert("work_id"@.len() != "work_id_and_author_id"@.len());
        assert(all[4].name =~= "index_"@ + "authorships"@ + "_on_"@ + "work_id"@);
        assert(all[4].ddl =~= "CREATE INDEX "@ + all[4].name + " ON "@ + "authorships"@ + " USING btree ("@
            + "work_id"@ + ")"@);
    }
    assert(is_index_on(all[5], "goodreads_id"@)) by {
        reveal_strlit("goodreads_id");
        reveal_strlit("index_editions_on_goodreads_id");
        reveal_strlit(
            "CREATE INDEX index_editions_on_goodreads_id ON editions USING btree (goodreads_id)",
        );
        assert("goodreads_id"@.len() != "slug"@.len());
        assert("goodreads_id"@.len() != "open_library_id"@.len());
        assert("goodreads_id"@.len() != "work_id_and_author_id"@.len());
        assert(all[5].name =~= "index_"@ + "editions"@ + "_on_"@ + "goodreads_id"@);
        assert(all[5].ddl =~= "CREATE INDEX "@ + all[5].name + " ON "@ + "editions"@ + " USING btree ("@
            + "goodreads_id"@ + ")"@);
    }
    assert(is_index_on(all[6], "google_books_id"@)) by {
        reveal_strlit("google_books_id");
        reveal_strlit("index_editions_on_google_books_id");
        reveal_strlit(
            "CREATE INDEX index_editions_on_google_books_id ON editions USING btree (google_books_id)",
        );
        assert("google_books_id"@.len() != "slug"@.len());
        assert("google_books_id"@[0] != "open_library_id"@[0]);
        assert("google_books_id"@.len() != "work_id_and_author_id"@.len());
        assert(all[6].name =~= "index_"@ + "editions"@ + "_on_"@ + "google_books_id"@);
        assert(all[6].ddl =~= "CREATE INDEX "@ + all[6].name + " ON "@ + "editions"@ + " USING btree ("@
            + "google_books_id"@ + ")"@);
    }
    assert(is_index_on(all[7], "isbn10"@)) by {
        reveal_strlit("isbn10");
        reveal_strlit("index_editions_on_isbn10");
        reveal_strlit(
            "CREATE INDEX index_editions_on_isbn10 ON editions USING btree (isbn10)",
        );
        assert("isbn10"@.len() != "slug"@.len());
        assert("isbn10"@.len() != "open_library_id"@.len());
        assert("isbn10"@.len() != "work_id_and_author_id"@.len());
        assert(all[7].name =~= "index_"@ + "editions"@ + "_on_"@ + "isbn10"@);
        assert(all[7].ddl =~= "CREATE INDEX "@ + all[7].name + " ON "@ + "editions"@ + " USING btree ("@
            + "isbn10"@ + ")"@);
    }
    assert(is_index_on(all[8], "isbn13"@)) by {
        reveal_strlit("isbn13");
        reveal_strlit("index_editions_on_isbn13");
        reveal_strlit(
            "CREATE INDEX index_editions_on_isbn13 ON editions USING btree (isbn13)",
        );
        assert("isbn13"@.len() != "slug"@.len());
        assert("isbn13"@.len() != "open_library_id"@.len());
        assert("isbn13"@.len() != "work_id_and_author_id"@.len());
        assert(all[8].name =~= "index_"@ + "editions"@ + "_on_"@ + "isbn13"@);
        assert(all[8].ddl =~= "CREATE INDEX "@ + all[8].name + " ON "@ + "editions"@ + " USING btree ("@
            + "isbn13"@ + ")"@);
    }
    assert(is_index_on(all[9], "open_library_id"@)) by {
        reveal_strlit("index_editions_on_open_library_id");
        reveal_strlit(
            "CREATE UNIQUE INDEX index_editions_on_open_library_id ON editions USING btree (open_library_id)",
        );
        assert("open_library_id"@.len() != "slug"@.len());
        assert("open_library_id"@.len() != "work_id_and_author_id"@.len());
        assert(all[9].name =~= "index_"@ + "editions"@ + "_on_"@ + "open_library_id"@);
        assert(all[9].ddl =~= "CREATE UNIQUE INDEX "@ + all[9].name + " ON "@ + "editions"@ + " USING btree ("@
            + "open_library_id"@ + ")"@);
    }
    assert(is_index_on(all[10], "slug"@)) by {
        reveal_strlit("index_editions_on_slug");
        reveal_strlit(
            "CREATE UNIQUE INDEX index_editions_on_slug ON editions USING btree (slug)",
        );
        assert("slug"@.len() != "open_library_id"@.len());
        assert("slug"@.len() != "work_id_and_author_id"@.len());
        assert(all[10].name =~= "index_"@ + "editions"@ + "_on_"@ + "slug"@);
        assert(all[10].ddl =~= "CREATE UNIQUE INDEX "@ + all[10].name + " ON "@ + "editions"@ + " USING btree ("@
            + "slug"@ + ")"@);
    }
    assert(is_index_on(all[11], "work_id"@)) by {
        reveal_strlit("work_id");
        reveal_strlit("index_editions_on_work_id");
        reveal_strlit(
            "CREATE INDEX index_editions_on_work_id ON editions USING btree (work_id)",
        );
        assert("work_id"@.len() != "slug"@.len());
        assert("work_id"@.len() != "open_library_id"@.len());
        assert("work_id"@.len() != "work_id_and_author_id"@.len());
        assert(all[11].name =~= "index_"@ + "editions"@ + "_on_"@ + "work_id"@);
        assert(all[11].ddl =~= "CREATE INDEX "@ + all[11].name + " ON "@ + "editions"@ + " USING btree ("@
            + "work_id"@ + ")"@);
    }
    assert(is_index_on(all[12], "first_publish_year"@)) by {
        reveal_strlit("first_publish_year");
        reveal_strlit("index_works_on_first_publish_year");
        reveal_strlit(
            "CREATE INDEX index_works_on_first_publish_year ON works USING btree (first_publish_year)",
        );
        assert("first_publish_year"@.len() != "slug"@.len());
        assert("first_publish_year"@.len() != "open_library_id"@.len());
        assert("first_publish_year"@.len() != "work_id_and_author_id"@.len());
        assert(all[12].name =~= "index_"@ + "works"@ + "_on_"@ + "first_publish_year"@);
        assert(all[12].ddl =~= "CREATE INDEX "@ + all[12].name + " ON "@ + "works"@ + " USING btree ("@
            + "first_publish_year"@ + ")"@);
    }
    assert(is_index_on(all[13], "open_library_id"@)) by {
        reveal_strlit("index_works_on_open_library_id");
        reveal_strlit(
            "CREATE UNIQUE INDEX index_works_on_open_library_id ON works USING btree (open_library_id)",
        );
        assert("open_library_id"@.len() != "slug"@.len());
        assert("open_library_id"@.len() != "work_id_and_author_id"@.len());
        assert(all[13].name =~= "index_"@ + "works"@ + "_on_"@ + "open_library_id"@);
        assert(all[13].ddl =~= "CREATE UNIQUE INDEX "@ + all[13].name + " ON "@ + "works"@ + " USING btree ("@
            + "open_library_id"@ + ")"@);
    }
    assert(is_index_on(all[14], "slug"@)) by {
        reveal_strlit("index_works_on_slug");
        reveal_strlit(
            "CREATE UNIQUE INDEX index_works_on_slug ON works USING btree (slug)",
        );
        assert("slug"@.len() != "open_library_id"@.len());
        assert("slug"@.len() != "work_id_and_author_id"@.len());
        assert(all[14].name =~= "index_"@ + "works"@ + "_on_"@ + "slug"@);
        assert(all[14].ddl =~= "CREATE UNIQUE INDEX "@ + all[14].name + " ON "@ + "works"@ + " USING btree ("@
            + "slug"@ + ")"@);
    }
    assert(is_index_on(all[15], "title"@)) by {
        reveal_strlit("title");
        reveal_strlit("index_works_on_title");
        reveal_strlit(
            "CREATE INDEX index_works_on_title ON works USING btree (title)",
        );
        assert("title"@.len() != "slug"@.len());
        assert("title"@.len() != "open_library_id"@.len());
        assert("title"@.len() != "work_id_and_author_id"@.len());
        assert(all[15].name =~= "index_"@ + "works"@ + "_on_"@ + "title"@);
        assert(all[15].ddl =~= "CREATE INDEX "@ + all[15].name + " ON "@ + "works"@ + " USING btree ("@
            + "title"@ + ")"@);
    }
}

/// The indexes that come with the tables are the required ones; a first load drops those
/// of its table that are not required; in the end all those of the table exist.
pub proof fn law_indexes_are_picked(x: IndexView, table: Seq<char>)
    ensures
        picked(Pick::Required, table).contains(x) <==> all_indexes().contains(x) && x.required,
        picked(Pick::Secondary, table).contains(x) <==> all_indexes().contains(x) && x.table == table
            && !x.required,
        picked(Pick::All, table).contains(x) <==> all_indexes().contains(x) && x.table == table,
        drop_text(x) == "DROP INDEX IF EXISTS "@ + x.name,
{
    lemma_picked(Pick::Required, table, x);
    lemma_picked(Pick::Secondary, table, x);
    lemma_picked(Pick::All, table, x);
}

/// An index is created exactly if it is missing.
pub proof fn law_missing_indexes_are_created(index: &Index, exists: bool, r: Option<&'static str>)
    requires
        call_ensures(create_if_missing, (index, exists), r),
    ensures
        exists ==> r is None,
        !exists ==> r is Some && r->0@ == index.ddl@,
{
}

/// The contents of an index are its fields, each under its own name.
pub proof fn law_contents_of_an_index(index: Index)
    ensures
        index@.table == index.table@,
        index@.name == index.name@,
        index@.ddl == index.ddl@,
        index@.required == index.required,
{
}

// ---------------------------------------------------------------------------
// Merging
// ---------------------------------------------------------------------------

/// Whether a statement drops one secondary index of the table.
pub open spec fn drops_one(sql: Seq<char>, table: Seq<char>) -> bool {
    exists|x: IndexView| #[trigger]
        all_indexes().contains(x) && x.table == table && !x.required && sql
            == "DROP INDEX IF EXISTS "@ + x.name
}

/// A merge into an empty table drops its secondary indexes and updates nothing; one into
/// any other table drops nothing and refreshes its rows. New rows come in exactly where
/// they are admitted, and the indexes of the table are ensured either way.
pub proof fn law_merge(table: Table, admit_new: bool, empty: bool, r: MergePlan)
    requires
        call_ensures(merge, (table, admit_new, empty), r),
    ensures
        !empty ==> r.drops@.len() == 0,
        empty ==> r.update is None,
        !empty ==> r.update.deep_view() == table.update_text(),
        admit_new ==> r.insert is Some && r.insert->0@ == table.insert_text(),
        !admit_new ==> r.insert is None,
        forall|x: IndexView| #[trigger]
            index_views(r.indexes@).contains(x) <==> all_indexes().contains(x) && x.table
                == table.spec_name(),
        empty ==> forall|x: IndexView| #[trigger]
            all_indexes().contains(x) && x.table == table.spec_name() && !x.required
                ==> r.drops.deep_view().contains("DROP INDEX IF EXISTS "@ + x.name),
        empty ==> forall|i: int|
            0 <= i < r.drops.deep_view().len() ==> drops_one(
                #[trigger] r.drops.deep_view()[i],
                table.spec_name(),
            ),
{
    let name = table.spec_name();
    assert forall|x: IndexView| #[trigger]
        index_views(r.indexes@).contains(x) <==> all_indexes().contains(x) && x.table == name by {
        lemma_picked(Pick::All, name, x);
    }
    let secondary = picked(Pick::Secondary, name);
    let texts = secondary.map_values(|i: IndexView| drop_text(i));
    if empty {
        assert forall|x: IndexView| #[trigger]
            all_indexes().contains(x) && x.table == name && !x.required implies r.drops.deep_view().contains(
            "DROP INDEX IF EXISTS "@ + x.name,
        ) by {
            lemma_picked(Pick::Secondary, name, x);
            let k = choose|k: int| 0 <= k < secondary.len() && secondary[k] == x;
            assert(texts[k] == "DROP INDEX IF EXISTS "@ + x.name);
            assert(r.drops.deep_view()[k] == texts[k]);
        }
        assert forall|i: int| 0 <= i < r.drops.deep_view().len() implies drops_one(
            #[trigger] r.drops.deep_view()[i],
            name,
        ) by {
            let x = secondary[i];
            assert(secondary.contains(x));
            lemma_picked(Pick::Secondary, name, x);
            assert(r.drops.deep_view()[i] == texts[i]);
            assert(all_indexes().contains(x));
        }
    } else {
        assert(r.drops.deep_view().len() == 0);
    }
}

/// The statements that ask something, and those that set up and clear away.
pub proof fn law_small_statements()
    ensures
        COUNT_WORKS@ =~= "SELECT count(*) FROM "@ + "works"@,
        INDEX_EXISTS@ =~= "SELECT to_regclass($1)"@ + " IS NOT NULL"@,
        SESSION_SETTINGS@ =~= "SET synchronous_commit = off"@ + "; "@
            + "SET maintenance_work_mem = '1GB'"@,
        DROP_STAGING@ =~= "DROP TABLE IF EXISTS "@ + "_import_authors_staging"@
            + ";
         DROP TABLE IF EXISTS "@ + "_import_works_staging"@
            + ";
         DROP TABLE IF EXISTS "@ + "_import_editions_staging"@
            + ";
         DROP TABLE IF EXISTS "@ + "_import_work_author_refs"@,
{
    reveal_strlit("SELECT count(*) FROM works");
    reveal_strlit("SELECT count(*) FROM ");
    reveal_strlit("works");
    reveal_strlit("SELECT to_regclass($1) IS NOT NULL");
    reveal_strlit("SELECT to_regclass($1)");
    reveal_strlit(" IS NOT NULL");
    reveal_strlit("SET synchronous_commit = off; SET maintenance_work_mem = '1GB'");
    reveal_strlit("SET synchronous_commit = off");
    reveal_strlit("; ");
    reveal_strlit("SET maintenance_work_mem = '1GB'");
    reveal_strlit("DROP TABLE IF EXISTS _import_authors_staging;
         DROP TABLE IF EXISTS _import_works_staging;
         DROP TABLE IF EXISTS _import_editions_staging;
         DROP TABLE IF EXISTS _import_work_author_refs");
    reveal_strlit("DROP TABLE IF EXISTS ");
    reveal_strlit(";
         DROP TABLE IF EXISTS ");
    reveal_strlit("_import_authors_staging");
    reveal_strlit("_import_works_staging");
    reveal_strlit("_import_editions_staging");
    reveal_strlit("_import_work_author_refs");
}

/// The tables go by their names.
pub proof fn law_table_names(inserted: u64, updated: u64, table: Table)
    ensures
        Table::Authors.spec_name() == "authors"@,
        Table::Works.spec_name() == "works"@,
        Table::Authorships.spec_name() == "authorships"@,
        Table::Editions.spec_name() == "editions"@,
        emptiness_text(table) == "SELECT NOT EXISTS (SELECT 1 FROM "@ + table.spec_name() + ")"@,
        update_label_text(table) == "updating existing "@ + table.spec_name(),
        insert_label_text(table) == "inserting new "@ + table.spec_name(),
        index_label_text(table, inserted, updated) == "indexing "@ + table.spec_name() + " ("@
            + decimal(inserted as nat) + " inserted, "@ + decimal(updated as nat) + " updated)"@,
{
}

// ---------------------------------------------------------------------------
// What is refused
// ---------------------------------------------------------------------------

/// Editions are imported alone only where there are works.
pub proof fn law_editions_need_works(count: i64, r: Result<(), ImportError>)
    requires
        call_ensures(require_works, (count,), r),
    ensures
        r is Ok <==> count != 0,
        count == 0 ==> r->Err_0 is NoWorks,
{
}

/// A dev import is refused exactly where it is to import authors or works alone.
pub proof fn law_dev_refuses_other_dumps(only: Option<DumpType>, dev: bool)
    ensures
        plan_of(only, dev) is Err <==> dev && (only == Some(DumpType::Authors) || only == Some(
            DumpType::Works,
        )),
        plan_of(only, dev) is Err ==> plan_of(only, dev)->Err_0 == only->0,
{
}

/// A dated source takes both the flag and a date, and the date has to be one.
pub proof fn law_sources_are_selected(archive: bool, date: Option<String>, r: Result<Source, BadDate>)
    requires
        call_ensures(Source::select, (archive, date), r),
    ensures
        !archive || date is None ==> r == Ok::<Source, BadDate>(Source::Latest),
        archive && date is Some && reads_as_date(date->0@, "%Y-%m-%d"@) ==> r == Ok::<
            Source,
            BadDate,
        >(Source::Archive { date: date->0 }),
        archive && date is Some && !reads_as_date(date->0@, "%Y-%m-%d"@) ==> r == Err::<
            Source,
            BadDate,
        >(BadDate { date: date->0 }),
{
}

/// The quality bar of a dev import: a title, a cover, and a year from 1950 to `max_year`.
pub proof fn law_dev_bar(e: EditionView, year: Option<i32>, max_year: i32)
    ensures
        meets_dev_bar(e, year, max_year) <==> e.title is Some && e.covers.len() > 0 && year is Some
            && 1950 <= year->0 <= max_year,
{
}

/// Editions in English, French, Spanish and Italian are imported.
pub proof fn law_import_languages(l: Seq<char>)
    ensures
        import_languages().contains(l) <==> l == "eng"@ || l == "fre"@ || l == "spa"@ || l == "ita"@,
{
    let all = import_languages();
    assert(all[0] == "eng"@ && all[1] == "fre"@ && all[2] == "spa"@ && all[3] == "ita"@);
}

/// What is said of an error names the dump, and the directory where there is one.
pub proof fn law_error_texts(only: DumpType, dir: String)
    ensures
        (ImportError::DevWithOnly { only }).text()
            == "--dev selects books by filtering editions, so it cannot be combined with `--only "@
            + only.spec_name() + "`; use `--only editions` or drop --only"@,
        ImportError::NoWorks.text()
            == "the works table is empty and editions link to works by id — run a full import first"@,
        (ImportError::NoDump { dump: only, dir }).text() == "no "@ + ("ol_dump_"@ + only.spec_name()
            + "_"@) + "*.txt.gz in "@ + dir@ + " — run `openlibrary download` first"@,
{
}

/// A dev import is announced with its limit and its first year.
pub proof fn law_dev_announcement()
    ensures
        dev_announcement_text() == "Dev import: up to "@ + decimal(200_000)
            + " editions published "@ + decimal(1950)
            + "+ with covers, plus their works and authors"@,
{
}

// ---------------------------------------------------------------------------
// Dump files
// ---------------------------------------------------------------------------

/// How a type of dump is called in the names of files.
pub open spec fn word_for(dump: DumpType) -> Seq<char> {
    match dump {
        DumpType::Authors => "authors"@,
        DumpType::Works => "works"@,
        DumpType::Editions => "editions"@,
    }
}

/// Whether a file name is that of a dump: its type between `ol_dump_` and an underscore,
/// then anything, then `.txt.gz`.
pub open spec fn is_dump_name(name: Seq<char>, dump: DumpType) -> bool {
    exists|mid: Seq<char>|
        name == #[trigger] ("ol_dump_"@ + word_for(dump) + "_"@ + mid) + ".txt.gz"@
}

/// A file is taken for a dump by its name alone.
pub proof fn law_dump_names(name: Seq<char>, dump: DumpType)
    ensures
        names_dump(name, dump) <==> is_dump_name(name, dump),
{
    reveal_strlit("ol_dump_");
    reveal_strlit("_");
    reveal_strlit(".txt.gz");
    reveal_strlit("authors");
    reveal_strlit("works");
    reveal_strlit("editions");
    let p = "ol_dump_"@ + word_for(dump) + "_"@;
    let q = ".txt.gz"@;
    assert(p == dump_prefix(dump));
    if names_dump(name, dump) {
        let n = p.len() as int;
        if name.len() < n + 7 {
            assert(name.subrange(0, n)[n - 1] == name[n - 1]);
            let k = n - 1 - (name.len() - 7);
            assert(name.subrange(name.len() - 7, name.len() as int)[k] == name[n - 1]);
            assert(q[k] == '_');
            assert(false);
        }
        let mid = name.subrange(n, name.len() - 7);
        assert(name =~= name.subrange(0, n) + mid + name.subrange(name.len() - 7, name.len() as int));
        assert(name == (p + mid) + q);
    }
    if is_dump_name(name, dump) {
        let mid = choose|mid: Seq<char>|
            name == #[trigger] ("ol_dump_"@ + word_for(dump) + "_"@ + mid) + ".txt.gz"@;
        assert(name.subrange(0, p.len() as int) =~= p);
        assert(name.subrange(name.len() - 7, name.len() as int) =~= q);
    }
}

/// Whether an entry of the directory is a dump that can be read.
pub open spec fn offers(entry: FileEntry, dump: DumpType) -> bool {
    entry.name is Some && is_dump_name(entry.name->0@, dump) && entry.modified is Some
}

/// The dump that is imported is the one that was modified last; of several, the one that is
/// listed first.
pub proof fn law_newest_dump(entries: Seq<FileEntry>, dump: DumpType, at: int)
    ensures
        is_newest_dump(entries, dump, at) <==> {
            &&& 0 <= at < entries.len()
            &&& offers(entries[at], dump)
            &&& forall|j: int|
                0 <= j < entries.len() && offers(#[trigger] entries[j], dump)
                    ==> entries[j].modified->0 <= entries[at].modified->0
            &&& forall|j: int|
                0 <= j < at && offers(#[trigger] entries[j], dump) ==> entries[j].modified->0
                    < entries[at].modified->0
        },
{
    assert forall|j: int| 0 <= j < entries.len() implies (offers(entries[j], dump)
        <==> (#[trigger] entries[j]).is_dump(dump)) by {
        if let Some(name) = entries[j].name {
            law_dump_names(name@, dump);
        }
    }
}

/// An entry is a dump exactly if its name is that of one and its metadata can be read.
pub proof fn law_dump_entries(entry: FileEntry, dump: DumpType)
    ensures
        entry.is_dump(dump) <==> offers(entry, dump),
{
    if let Some(name) = entry.name {
        law_dump_names(name@, dump);
    }
}

} // verus!
