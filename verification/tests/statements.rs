use openlibrary::import::{emptiness_sql, merge, recount_editions, recount_works, Staging, Table};
use openlibrary::schema::{drop_secondary_indexes, indexes, DDL, INDEX_EXISTS};
use openlibrary::sql::{
    COPY_AUTHORS, COPY_EDITIONS, COPY_REFS, COPY_WORKS, COUNT_WORKS, DROP_STAGING, SESSION_SETTINGS,
    UPSERT_AUTHORSHIPS,
};

const TABLES: [Table; 4] = [Table::Authors, Table::Works, Table::Authorships, Table::Editions];

fn statements() -> Vec<String> {
    let mut all: Vec<String> = vec![];
    for s in [
        SESSION_SETTINGS, DDL, INDEX_EXISTS, COUNT_WORKS, COPY_AUTHORS, COPY_WORKS, COPY_REFS,
        COPY_EDITIONS, DROP_STAGING,
    ] {
        all.push(s.to_string());
    }
    for index in indexes() {
        all.push(index.ddl.to_string());
    }
    for staging in [Staging::Authors, Staging::Works, Staging::Editions, Staging::Refs] {
        all.push(staging.ddl().to_string());
    }
    for table in TABLES {
        all.push(emptiness_sql(table));
        all.extend(drop_secondary_indexes(table.name()));
        let plan = merge(table, true, false);
        all.extend(plan.update.map(|s| s.to_string()));
        all.extend(plan.insert);
    }
    for s in recount_editions().into_iter().chain(recount_works()) {
        all.push(s.to_string());
    }
    all
}

#[test]
fn no_statement_removes_rows() {
    let all = statements();
    // Nine alone, 16 indexes, four staging tables, four tests for emptiness, 12
    // secondary indexes, three updates, four inserts, four recounts.
    assert_eq!(all.len(), 56);
    for sql in all {
        assert!(!sql.contains("DELETE"), "{sql}");
        assert!(!sql.contains("TRUNCATE"), "{sql}");
        for (at, _) in sql.match_indices("DROP") {
            let rest = &sql[at..];
            assert!(
                rest.starts_with("DROP TABLE IF EXISTS _import_")
                    || rest.starts_with("DROP INDEX IF EXISTS index_"),
                "{sql}"
            );
        }
    }
}

/// The columns that an update sets.
fn assigned(sql: &str) -> Vec<&str> {
    let set = &sql[sql.find("SET\n").unwrap() + 4..];
    let set = set.split("\nFROM").next().unwrap();
    set.split(",\n").map(|a| a.split(" = ").next().unwrap().trim()).collect()
}

#[test]
fn updates_assign_no_id() {
    for (table, columns) in [
        (Table::Authors, 6),
        (Table::Works, 8),
        (Table::Editions, 18),
    ] {
        let sql = table.update_sql().unwrap();
        let set = assigned(sql);
        assert_eq!(set.len(), columns);
        for id in ["id", "open_library_id", "slug", "created_at"] {
            assert!(!set.contains(&id));
        }
        assert!(set.contains(&"updated_at"));
    }
    assert_eq!(assigned(UPSERT_AUTHORSHIPS), vec!["position", "updated_at"]);
}
