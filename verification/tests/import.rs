use openlibrary::dump::DumpType;
use openlibrary::import::{
    dev_announcement, emptiness_sql, find_dump, import_plan, index_label, insert_label, merge,
    recount_editions, recount_works, require_works, update_label, FileEntry, ImportError, Staging,
    Step, Table,
};
use openlibrary::download::Source;
use openlibrary::sql::{
    insert_authors_sql, insert_editions_sql, insert_works_sql, slugged_insert_sql,
    AUTHORS_ON_KEPT_WORKS, DROP_STAGING, UPDATE_AUTHORS, UPDATE_EDITIONS, UPDATE_WORKS,
    UPSERT_AUTHORSHIPS, WORKS_WITH_STAGED_EDITIONS,
};

fn merge_step(table: Table, admit_new: bool) -> Step {
    Step::Merge { table, admit_new }
}

fn full(dev: bool) -> Vec<Step> {
    vec![
        Step::CreateStaging(Staging::Authors),
        Step::CreateStaging(Staging::Works),
        Step::CreateStaging(Staging::Editions),
        Step::CreateStaging(Staging::Refs),
        Step::StageEditions { dev },
        Step::ScanWorks,
        merge_step(Table::Works, true),
        Step::ScanAuthors,
        merge_step(Table::Authors, true),
        merge_step(Table::Authorships, true),
        merge_step(Table::Editions, true),
        Step::RecountEditions,
        Step::RecountWorks,
        Step::DropStaging,
    ]
}

#[test]
fn a_full_import() {
    assert_eq!(import_plan(None, false).unwrap(), full(false));
}

#[test]
fn a_dev_import_is_announced() {
    let mut steps = vec![Step::AnnounceDev];
    steps.extend(full(true));
    assert_eq!(import_plan(None, true).unwrap(), steps);
    assert_eq!(
        dev_announcement(),
        "Dev import: up to 200000 editions published 1950+ with covers, plus their works and authors"
    );
}

#[test]
fn editions_alone() {
    for dev in [false, true] {
        assert_eq!(
            import_plan(Some(DumpType::Editions), dev).unwrap(),
            vec![
                Step::RequireWorks,
                Step::CreateStaging(Staging::Editions),
                Step::StageEditions { dev },
                merge_step(Table::Editions, true),
                Step::RecountEditions,
                Step::DropStaging,
            ]
        );
    }
}

#[test]
fn authors_alone_admit_no_one() {
    assert_eq!(
        import_plan(Some(DumpType::Authors), false).unwrap(),
        vec![
            Step::CreateStaging(Staging::Authors),
            Step::ScanAuthors,
            merge_step(Table::Authors, false),
            Step::DropStaging,
        ]
    );
}

#[test]
fn works_alone_refresh_authorships() {
    assert_eq!(
        import_plan(Some(DumpType::Works), false).unwrap(),
        vec![
            Step::CreateStaging(Staging::Works),
            Step::CreateStaging(Staging::Refs),
            Step::ScanWorks,
            merge_step(Table::Works, false),
            merge_step(Table::Authorships, true),
            Step::RecountWorks,
            Step::DropStaging,
        ]
    );
}

#[test]
fn dev_takes_editions_only() {
    for t in [DumpType::Authors, DumpType::Works] {
        let e = import_plan(Some(t), true).unwrap_err();
        assert!(matches!(e, ImportError::DevWithOnly { only } if only == t));
        assert_eq!(
            e.message(),
            format!(
                "--dev selects books by filtering editions, so it cannot be combined with `--only {}`; use `--only editions` or drop --only",
                t.name()
            )
        );
    }
}

#[test]
fn editions_need_works() {
    assert!(require_works(1).is_ok());
    assert!(require_works(5_000_000_000).is_ok());
    let e = require_works(0).unwrap_err();
    assert!(matches!(e, ImportError::NoWorks));
    assert_eq!(
        e.message(),
        "the works table is empty and editions link to works by id — run a full import first"
    );
}

#[test]
fn a_first_load_drops_and_inserts() {
    let plan = merge(Table::Works, true, true);
    assert_eq!(plan.drops.len(), 3);
    assert_eq!(plan.update, None);
    assert_eq!(plan.insert, Some(insert_works_sql(WORKS_WITH_STAGED_EDITIONS)));
    assert_eq!(plan.indexes.len(), 4);
}

#[test]
fn a_reload_updates_and_inserts() {
    let plan = merge(Table::Authors, true, false);
    assert!(plan.drops.is_empty());
    assert_eq!(plan.update, Some(UPDATE_AUTHORS));
    assert_eq!(plan.insert, Some(insert_authors_sql(AUTHORS_ON_KEPT_WORKS)));
    assert_eq!(plan.indexes.len(), 2);
}

#[test]
fn a_partial_reload_only_updates() {
    let plan = merge(Table::Authors, false, false);
    assert_eq!(plan.update, Some(UPDATE_AUTHORS));
    assert_eq!(plan.insert, None);
    let plan = merge(Table::Works, false, true);
    assert_eq!(plan.update, None);
    assert_eq!(plan.insert, None);
}

#[test]
fn authorships_and_editions_are_merged() {
    let plan = merge(Table::Authorships, true, false);
    assert_eq!(plan.update, None);
    assert_eq!(plan.insert, Some(UPSERT_AUTHORSHIPS.to_string()));
    let plan = merge(Table::Editions, true, false);
    assert_eq!(plan.update, Some(UPDATE_EDITIONS));
    assert_eq!(plan.insert, Some(insert_editions_sql()));
}

#[test]
fn updates_keep_slug_and_creation() {
    for sql in [UPDATE_AUTHORS, UPDATE_WORKS, UPDATE_EDITIONS] {
        assert!(!sql.contains("slug"));
        assert!(!sql.contains("created_at"));
        assert!(sql.contains("    updated_at = $1::timestamp"));
    }
    assert_eq!(
        UPDATE_AUTHORS,
        "
UPDATE authors a SET
    name = s.name,
    bio = s.bio,
    birth_date = s.birth_date,
    death_date = s.death_date,
    photo_id = s.photo_id,
    updated_at = $1::timestamp
FROM (SELECT DISTINCT ON (open_library_id) * FROM _import_authors_staging) s
WHERE a.open_library_id = s.open_library_id"
    );
}

#[test]
fn inserts_share_the_slug_scaffolding() {
    let (table, filter, columns, values, joins) = ("t", "AND x", "a, b", "n.a, n.b", "JOIN j");
    let expected = format!(
        "
INSERT INTO {table} ({columns}, slug, created_at, updated_at)
SELECT {values},
       CASE WHEN n.rn + COALESCE(o.taken, 0) = 1 THEN n.base_slug
            ELSE n.base_slug || '--' || (n.rn + COALESCE(o.taken, 0)) END,
       $1::timestamp, $1::timestamp
FROM (
    SELECT s.*, ROW_NUMBER() OVER (PARTITION BY s.base_slug ORDER BY s.open_library_id) AS rn
    FROM (
        SELECT DISTINCT ON (open_library_id) *
        FROM _import_{table}_staging
        WHERE open_library_id NOT IN (
            SELECT open_library_id FROM {table} WHERE open_library_id IS NOT NULL)
        {filter}
    ) s
) n
{joins}
LEFT JOIN LATERAL (
    SELECT max(CASE WHEN t.slug = n.base_slug THEN 1
                    ELSE (substring(t.slug FROM '([0-9]+)$'))::int END) AS taken
    FROM {table} t
    WHERE t.slug = n.base_slug
       OR (t.slug >= n.base_slug || '--' AND t.slug < n.base_slug || '-.'
           AND t.slug ~ ('^' || n.base_slug || '--[0-9]+$'))
) o ON true"
    );
    assert_eq!(slugged_insert_sql(table, filter, columns, values, joins), expected);
}

#[test]
fn inserts_of_each_table() {
    let authors = insert_authors_sql("FILTER");
    assert!(authors.contains("INSERT INTO authors (open_library_id, name, bio, birth_date, death_date, photo_id, slug, created_at, updated_at)"));
    assert!(authors.contains("SELECT n.open_library_id, n.name, n.bio, n.birth_date, n.death_date, n.photo_id,\n"));
    assert!(authors.contains("FROM _import_authors_staging"));
    assert!(authors.contains("        FILTER\n"));
    let works = insert_works_sql("FILTER");
    assert!(works.contains("INSERT INTO works (open_library_id, title, subtitle, description, first_publish_date, first_publish_year, cover_id, subjects, slug,"));
    assert!(works.contains("SELECT open_library_id FROM works WHERE open_library_id IS NOT NULL)\n        FILTER\n"));
    let editions = insert_editions_sql();
    assert!(editions.contains("n.internet_archive_id, w.id,\n"));
    assert!(editions.contains("JOIN works w ON w.open_library_id = n.work_olid\nLEFT JOIN LATERAL"));
}

#[test]
fn staging_tables_are_created_anew_and_dropped() {
    for s in [Staging::Authors, Staging::Works, Staging::Editions, Staging::Refs] {
        let ddl = s.ddl();
        let name = ddl.split_whitespace().nth(4).unwrap().trim_end_matches(';');
        assert!(ddl.contains(&format!("CREATE UNLOGGED TABLE {name} (")));
        assert!(DROP_STAGING.contains(&format!("DROP TABLE IF EXISTS {name}")));
    }
}

#[test]
fn labels_and_small_statements() {
    assert_eq!(emptiness_sql(Table::Authorships), "SELECT NOT EXISTS (SELECT 1 FROM authorships)");
    assert_eq!(update_label(Table::Works), "updating existing works");
    assert_eq!(insert_label(Table::Editions), "inserting new editions");
    assert_eq!(index_label(Table::Authors, 12, 0), "indexing authors (12 inserted, 0 updated)");
    assert!(recount_editions()[0].contains("SET edition_count = c.n"));
    assert!(recount_editions()[1].contains("SET edition_count = 0"));
    assert!(recount_works()[0].contains("SET works_count = c.n"));
    assert!(recount_works()[1].contains("SET works_count = 0"));
}

fn entry(name: &str, modified: i128) -> FileEntry {
    FileEntry { name: Some(name.to_string()), modified: Some(modified) }
}

#[test]
fn the_newest_dump_wins() {
    let entries = vec![
        entry("ol_dump_authors_latest.txt.gz", 5),
        entry("ol_dump_works_latest.txt.gz", 9),
        entry("ol_dump_authors_2026-01-31.txt.gz", 7),
        entry("ol_dump_authors_2025-01-31.txt.gz", 7),
        entry("ol_dump_authors_latest.txt.gz.part", 99),
        entry("old_ol_dump_authors_latest.txt.gz", 99),
        FileEntry { name: None, modified: Some(99) },
        FileEntry { name: Some("ol_dump_authors_x.txt.gz".to_string()), modified: None },
    ];
    assert_eq!(find_dump(&entries, "./data", DumpType::Authors).unwrap(), 2);
    assert_eq!(find_dump(&entries, "./data", DumpType::Works).unwrap(), 1);
}

#[test]
fn times_before_1970_count_too() {
    let entries = vec![entry("ol_dump_works_a.txt.gz", -7), entry("ol_dump_works_b.txt.gz", -3)];
    assert_eq!(find_dump(&entries, ".", DumpType::Works).unwrap(), 1);
}

#[test]
fn no_dump_is_an_error() {
    let entries = vec![entry("ol_dump_authors_latest.txt.gz", 5)];
    let e = find_dump(&entries, "./data", DumpType::Editions).unwrap_err();
    assert_eq!(
        e.message(),
        "no ol_dump_editions_*.txt.gz in ./data — run `openlibrary download` first"
    );
    assert!(find_dump(&vec![], "./data", DumpType::Authors).is_err());
}

#[test]
fn what_is_downloaded_is_found() {
    for t in DumpType::ALL {
        for source in [Source::Latest, Source::Archive { date: "2026-01-31".to_string() }] {
            let entries = vec![entry(&source.filename(t), 1)];
            for other in DumpType::ALL {
                assert_eq!(find_dump(&entries, ".", other).is_ok(), other == t);
            }
        }
    }
}
