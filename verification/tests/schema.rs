use openlibrary::schema::{
    create_if_missing, create_indexes, create_tables, drop_secondary_indexes, indexes, DDL,
    INDEX_EXISTS,
};

const TABLES: [&str; 4] = ["authors", "works", "authorships", "editions"];

#[test]
fn sixteen_indexes_with_distinct_names() {
    let all = indexes();
    assert_eq!(all.len(), 16);
    for (i, a) in all.iter().enumerate() {
        assert!(TABLES.contains(&a.table));
        for b in &all[..i] {
            assert_ne!(a.name, b.name);
        }
    }
}

#[test]
fn the_ddl_creates_the_index_of_that_name() {
    for index in indexes() {
        let plain = format!("CREATE INDEX {} ON ", index.name);
        let unique = format!("CREATE UNIQUE INDEX {} ON ", index.name);
        assert!(index.ddl.starts_with(&plain) || index.ddl.starts_with(&unique));
        assert!(!index.required || index.ddl.starts_with(&unique));
        assert!(index.ddl.contains(index.table));
    }
}

#[test]
fn tables_come_with_the_required_indexes() {
    let plan = create_tables();
    assert_eq!(plan.ddl, DDL);
    let names: Vec<&str> = plan.indexes.iter().map(|i| i.name).collect();
    assert_eq!(
        names,
        vec![
            "index_authors_on_open_library_id",
            "index_authorships_on_work_id_and_author_id",
            "index_editions_on_open_library_id",
            "index_works_on_open_library_id",
        ]
    );
}

#[test]
fn tables_are_created_in_dependency_order() {
    let at = |t: &str| DDL.find(&format!("CREATE TABLE IF NOT EXISTS {t} (")).unwrap();
    assert!(at("authors") < at("authorships"));
    assert!(at("works") < at("authorships"));
    assert!(at("works") < at("editions"));
    assert!(DDL.find("CREATE SEQUENCE IF NOT EXISTS editions_id_seq;").unwrap() < at("authors"));
    assert_eq!(INDEX_EXISTS, "SELECT to_regclass($1) IS NOT NULL");
}

#[test]
fn only_secondary_indexes_are_dropped() {
    assert_eq!(drop_secondary_indexes("authors"), vec!["DROP INDEX IF EXISTS index_authors_on_slug"]);
    assert_eq!(
        drop_secondary_indexes("authorships"),
        vec![
            "DROP INDEX IF EXISTS index_authorships_on_author_id",
            "DROP INDEX IF EXISTS index_authorships_on_work_id",
        ]
    );
    assert_eq!(
        drop_secondary_indexes("works"),
        vec![
            "DROP INDEX IF EXISTS index_works_on_first_publish_year",
            "DROP INDEX IF EXISTS index_works_on_slug",
            "DROP INDEX IF EXISTS index_works_on_title",
        ]
    );
    assert_eq!(drop_secondary_indexes("editions").len(), 6);
    assert!(drop_secondary_indexes("shelves").is_empty());
}

#[test]
fn what_is_dropped_is_created_again() {
    for table in TABLES {
        let created = create_indexes(table);
        assert!(created.iter().all(|i| i.table == table));
        for sql in drop_secondary_indexes(table) {
            assert!(created.iter().any(|i| sql == format!("DROP INDEX IF EXISTS {}", i.name)));
        }
        assert_eq!(created.iter().filter(|i| i.required).count(), 1);
    }
    assert_eq!(create_indexes("editions").len(), 7);
    assert!(create_indexes("").is_empty());
}

#[test]
fn an_index_is_created_once() {
    let index = indexes()[1];
    assert_eq!(create_if_missing(&index, true), None);
    assert_eq!(create_if_missing(&index, false), Some(index.ddl));
}
