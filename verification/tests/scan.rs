use openlibrary::json::Json;
use openlibrary::model::{Author, AuthorFields, Edition, EditionFields, Work, WorkFields};
use openlibrary::scan::{
    clamp_chars, clamp_title, dev_quality, edition_base_slug, is_import_language, split_row,
    EditionScan, Scan, DEV_LIMIT, LANGUAGE_LIST, MAX_TITLE_BYTES, MAX_TITLE_CHARS,
};

fn some(s: &str) -> Option<String> {
    Some(s.to_string())
}

fn strings(v: &[&str]) -> Vec<String> {
    v.iter().map(|s| s.to_string()).collect()
}

fn text(s: &str) -> Json {
    Json::Text(s.to_string())
}

const AUTHOR_LINE: &str = "/type/author\t/authors/OL1A\t3\t2020-01-01T00:00:00\t{\"name\": \"Ann\"}\n";
const WORK_LINE: &str = "/type/work\t/works/OL1W\t3\t2020-01-01T00:00:00\t{}\n";
const EDITION_LINE: &str = "/type/edition\t/books/OL1M\t3\t2020-01-01T00:00:00\t{}\n";

#[test]
fn rows_are_split_at_tabs() {
    assert_eq!(split_row(AUTHOR_LINE), Some(("/authors/OL1A", "{\"name\": \"Ann\"}")));
    assert_eq!(split_row("t\tk\tr\tm\tj"), Some(("k", "j")));
    assert_eq!(split_row("t\tk\tr\tm\tj\twith\ttabs\r\n"), Some(("k", "j\twith\ttabs")));
    assert_eq!(split_row("\t\t\t\t"), Some(("", "")));
    assert_eq!(split_row("t\tk\tr\tm"), None);
    assert_eq!(split_row("t\tk\tr\n"), None);
    assert_eq!(split_row(""), None);
    assert_eq!(split_row("t\tkéy\tr\tm\t{\"é\":1}\n\r\n"), Some(("kéy", "{\"é\":1}")));
}

#[test]
fn texts_are_clamped_by_characters() {
    assert_eq!(clamp_chars("abc".to_string(), 3), "abc");
    assert_eq!(clamp_chars("abcd".to_string(), 3), "abc");
    assert_eq!(clamp_chars("éüß!".to_string(), 2), "éü");
    assert_eq!(clamp_chars(String::new(), 0), "");
}

fn author(name: Option<&str>, personal: Option<&str>) -> Author {
    Author {
        name: name.map(|s| s.to_string()),
        personal_name: personal.map(|s| s.to_string()),
        birth_date: some("1950"),
        death_date: None,
        bio: some("bio"),
        photos: vec![7, 8],
    }
}

#[test]
fn authors_become_rows() {
    let mut scan = Scan::new();
    let row = scan.scan_author(AUTHOR_LINE, Some(author(Some("Ann Lee"), Some("A. Lee")))).unwrap();
    assert_eq!(row.open_library_id, "OL1A");
    assert_eq!(row.base_slug, "ann-lee");
    assert_eq!(row.name, "Ann Lee");
    assert_eq!(row.bio, some("bio"));
    assert_eq!(row.birth_date, some("1950"));
    assert_eq!(row.death_date, None);
    assert_eq!(row.photo_id, some("7"));
    assert_eq!(scan, Scan { written: 1, skipped: 0 });
}

#[test]
fn the_personal_name_is_the_fallback() {
    let mut scan = Scan::new();
    let row = scan.scan_author(AUTHOR_LINE, Some(author(None, Some("!!!")))).unwrap();
    assert_eq!(row.name, "!!!");
    assert_eq!(row.base_slug, "ol1a");
}

#[test]
fn unusable_author_lines_are_skipped_and_counted() {
    let mut scan = Scan::new();
    assert!(scan.scan_author(AUTHOR_LINE, Some(author(None, None))).is_none());
    assert!(scan.scan_author(AUTHOR_LINE, None).is_none());
    assert!(scan.scan_author("no tabs\n", Some(author(Some("Ann"), None))).is_none());
    assert_eq!(scan, Scan { written: 0, skipped: 3 });
    assert_eq!(scan.summary(), "0 rows (3 skipped)");
    assert!(scan.scan_author(AUTHOR_LINE, Some(author(Some("Ann"), None))).is_some());
    assert_eq!(scan, Scan { written: 1, skipped: 3 });
}

fn work(title: Option<&str>) -> Work {
    Work {
        title: title.map(|s| s.to_string()),
        subtitle: some("sub"),
        description: some("desc"),
        first_publish_date: some("in 1969"),
        covers: vec![],
        subjects: strings(&["a", "b"]),
        author_keys: strings(&["OL1A", "OL2A"]),
    }
}

#[test]
fn works_become_rows_and_links() {
    let mut scan = Scan::new();
    let staged = scan.scan_work(WORK_LINE, Some(work(Some("The Title")))).unwrap();
    assert_eq!(staged.row.open_library_id, "OL1W");
    assert_eq!(staged.row.base_slug, "the-title");
    assert_eq!(staged.row.title, "The Title");
    assert_eq!(staged.row.subtitle, some("sub"));
    assert_eq!(staged.row.description, some("desc"));
    assert_eq!(staged.row.first_publish_date, some("in 1969"));
    assert_eq!(staged.row.first_publish_year, Some(1969));
    assert_eq!(staged.row.cover_id, None);
    assert_eq!(staged.row.subjects, strings(&["a", "b"]));
    let links: Vec<(&str, &str, i32)> = staged
        .refs
        .iter()
        .map(|r| (r.work_olid.as_str(), r.author_olid.as_str(), r.position))
        .collect();
    assert_eq!(links, vec![("OL1W", "OL1A", 0), ("OL1W", "OL2A", 1)]);
    assert_eq!(scan, Scan { written: 1, skipped: 0 });
}

#[test]
fn long_titles_are_clamped() {
    let mut scan = Scan::new();
    let long = "é".repeat(MAX_TITLE_CHARS + 5);
    let staged = scan.scan_work(WORK_LINE, Some(work(Some(&long)))).unwrap();
    assert_eq!(staged.row.title, "é".repeat(1000));
    assert_eq!(staged.row.base_slug, "e".repeat(100));
}

#[test]
fn wide_titles_stay_within_the_index_limit() {
    let mut scan = Scan::new();
    for (c, chars, bytes) in [("𝔸", 673, 2692), ("語", 897, 2691), ("é", 1000, 2000), ("a", 1000, 1000)] {
        let staged = scan.scan_work(WORK_LINE, Some(work(Some(&c.repeat(1000))))).unwrap();
        assert_eq!(staged.row.title, c.repeat(chars));
        assert_eq!(staged.row.title.len(), bytes);
    }
    assert_eq!(scan, Scan { written: 4, skipped: 0 });
}

#[test]
fn titles_are_clamped_to_the_longest_prefix_that_fits() {
    assert_eq!(clamp_title(String::new()), "");
    assert_eq!(clamp_title("A Title".to_string()), "A Title");
    // 2691 bytes, then characters of one and of two bytes.
    let start = "語".repeat(897);
    assert_eq!(clamp_title(format!("{start}ab")), format!("{start}a"));
    assert_eq!(clamp_title(format!("{start}éa")), start);
    let exact = "𝔸".repeat(673);
    assert_eq!(exact.len(), MAX_TITLE_BYTES);
    assert_eq!(clamp_title(exact.clone()), exact);
    assert_eq!(clamp_title(format!("{exact}a")), exact);
}

#[test]
fn slugs_are_made_from_clamped_titles() {
    let mut scan = Scan::new();
    let title = format!("{}xyz", "\u{200b}".repeat(897));
    let staged = scan.scan_work(WORK_LINE, Some(work(Some(&title)))).unwrap();
    assert_eq!(staged.row.title, format!("{}x", "\u{200b}".repeat(897)));
    assert_eq!(staged.row.base_slug, "x");
}

#[test]
fn untitled_works_are_skipped() {
    let mut scan = Scan::new();
    assert!(scan.scan_work(WORK_LINE, Some(work(None))).is_none());
    assert!(scan.scan_work(WORK_LINE, None).is_none());
    assert!(scan.scan_work("a\tb", Some(work(Some("T")))).is_none());
    assert_eq!(scan, Scan { written: 0, skipped: 3 });
}

fn keyed(kind: &str, key: &str) -> String {
    format!("/type/{kind}\t/{kind}s/{key}\t3\t2020-01-01T00:00:00\t{{}}\n")
}

#[test]
fn an_authors_dump_is_staged_in_order() {
    let mut scan = Scan::new();
    let mut ids = vec![];
    for (key, name) in [("OL3A", Some("C")), ("OL1A", None), ("OL2A", Some("B")), ("OL9A", Some("A"))] {
        if let Some(row) = scan.scan_author(&keyed("author", key), Some(author(name, None))) {
            ids.push(row.open_library_id);
        }
    }
    assert_eq!(ids, strings(&["OL3A", "OL2A", "OL9A"]));
    assert_eq!(scan, Scan { written: 3, skipped: 1 });
}

#[test]
fn a_works_dump_is_staged_in_order() {
    let mut scan = Scan::new();
    let mut ids = vec![];
    let mut links = vec![];
    for (key, title) in [("OL3W", Some("C")), ("OL1W", None), ("OL2W", Some("B"))] {
        if let Some(staged) = scan.scan_work(&keyed("work", key), Some(work(title))) {
            ids.push(staged.row.open_library_id);
            for link in staged.refs {
                links.push((link.work_olid, link.author_olid, link.position));
            }
        }
    }
    assert_eq!(ids, strings(&["OL3W", "OL2W"]));
    let expected = [("OL3W", "OL1A", 0), ("OL3W", "OL2A", 1), ("OL2W", "OL1A", 0), ("OL2W", "OL2A", 1)];
    assert_eq!(links.len(), expected.len());
    for (link, (work, author, position)) in links.iter().zip(expected) {
        assert_eq!((link.0.as_str(), link.1.as_str(), link.2), (work, author, position));
    }
    assert_eq!(scan, Scan { written: 2, skipped: 1 });
}

#[test]
fn progress_and_summary() {
    assert_eq!(Scan { written: 8191, skipped: 0 }.progress(), None);
    assert_eq!(Scan { written: 8192, skipped: 0 }.progress(), some("8192 rows"));
    assert_eq!(Scan { written: 16384, skipped: 5 }.progress(), some("16384 rows"));
    assert_eq!(Scan { written: 10, skipped: 0 }.summary(), "10 rows");
    assert_eq!(Scan { written: 10, skipped: 2 }.summary(), "10 rows (2 skipped)");
}

fn edition() -> Edition {
    let mut e = Edition::default();
    e.title = some("A Book");
    e.work_keys = strings(&["OL1W", "OL2W"]);
    e.languages = strings(&["eng", "ger"]);
    e.covers = vec![11, 12];
    e.publish_date = some("1984");
    e
}

#[test]
fn four_languages_are_imported() {
    for l in ["eng", "fre", "spa", "ita"] {
        assert!(is_import_language(l));
        assert!(LANGUAGE_LIST.split('/').any(|x| x == l));
    }
    assert_eq!(LANGUAGE_LIST.split('/').count(), 4);
    for l in ["ger", "", "Eng", "en", "engl"] {
        assert!(!is_import_language(l));
    }
}

#[test]
fn editions_become_rows() {
    let mut e = edition();
    e.subtitle = some("s");
    e.identifiers.amazon = some("B0");
    e.identifiers.goodreads = some("G1");
    e.identifiers.google = some("GB");
    e.physical_format = some("Hardcover");
    e.isbn_10 = strings(&["0000000000", "x"]);
    e.isbn_13 = strings(&["9780000000000"]);
    e.number_of_pages = Some(99);
    e.publishers = strings(&["Pub", "x"]);
    e.series = strings(&["Ser"]);
    e.edition_name = some("2nd");
    e.ocaid = some("oca");
    let mut scan = EditionScan::new(false, 2026);
    let row = scan.scan_edition(EDITION_LINE, Some(e)).unwrap();
    assert_eq!(row.work_olid, "OL1W");
    assert_eq!(row.open_library_id, "OL1M");
    assert_eq!(row.base_slug, "9780000000000-a-book");
    assert_eq!(row.title, some("A Book"));
    assert_eq!(row.subtitle, some("s"));
    assert_eq!(row.asin, some("B0"));
    assert_eq!(row.cover_id, some("11"));
    assert_eq!(row.format, some("Hardcover"));
    assert_eq!(row.goodreads_id, some("G1"));
    assert_eq!(row.google_books_id, some("GB"));
    assert_eq!(row.isbn10, some("0000000000"));
    assert_eq!(row.isbn13, some("9780000000000"));
    assert_eq!(row.language, some("eng"));
    assert_eq!(row.page_count, Some(99));
    assert_eq!(row.published_year, Some(1984));
    assert_eq!(row.publisher, some("Pub"));
    assert_eq!(row.series, some("Ser"));
    assert_eq!(row.edition_name, some("2nd"));
    assert_eq!(row.internet_archive_id, some("oca"));
    assert_eq!(scan.staged, 1);
}

#[test]
fn edition_slugs_degrade() {
    let mut e = Edition::default();
    assert_eq!(edition_base_slug(&e, "OL1M"), "ol1m");
    e.title = some("Title");
    assert_eq!(edition_base_slug(&e, "OL1M"), "title");
    e.isbn_10 = strings(&["123"]);
    assert_eq!(edition_base_slug(&e, "OL1M"), "123-title");
    e.isbn_13 = strings(&["978"]);
    assert_eq!(edition_base_slug(&e, "OL1M"), "978-title");
    e.title = None;
    assert_eq!(edition_base_slug(&e, "OL1M"), "978");
}

#[test]
fn dropped_editions_are_counted_by_reason() {
    let mut scan = EditionScan::new(false, 2026);
    assert!(scan.scan_edition("too\tfew\n", Some(edition())).is_none());
    assert!(scan.scan_edition(EDITION_LINE, None).is_none());
    let mut orphan = edition();
    orphan.work_keys = vec![];
    orphan.languages = vec![];
    assert!(scan.scan_edition(EDITION_LINE, Some(orphan)).is_none());
    let mut german = edition();
    german.languages = strings(&["ger", "eng"]);
    assert!(scan.scan_edition(EDITION_LINE, Some(german)).is_none());
    let mut silent = edition();
    silent.languages = vec![];
    assert!(scan.scan_edition(EDITION_LINE, Some(silent)).is_none());
    assert_eq!((scan.staged, scan.no_work, scan.wrong_language, scan.skipped), (0, 1, 2, 2));
    assert_eq!(
        scan.summary(),
        "0 staged (1 without a work dropped, 2 not in eng/fre/spa/ita) (2 malformed lines skipped)"
    );
}

#[test]
fn the_dev_quality_bar() {
    let e = edition();
    assert!(dev_quality(&e, Some(1950), 2027));
    assert!(dev_quality(&e, Some(2027), 2027));
    assert!(!dev_quality(&e, Some(1949), 2027));
    assert!(!dev_quality(&e, Some(2028), 2027));
    assert!(!dev_quality(&e, None, 2027));
    let mut untitled = edition();
    untitled.title = None;
    assert!(!dev_quality(&untitled, Some(1984), 2027));
    let mut coverless = edition();
    coverless.covers = vec![];
    assert!(!dev_quality(&coverless, Some(1984), 2027));
}

#[test]
fn a_dev_scan_keeps_the_good_ones() {
    let mut scan = EditionScan::new(true, 2026);
    assert_eq!(scan.max_year, 2027);
    assert!(scan.scan_edition(EDITION_LINE, Some(edition())).is_some());
    let mut old = edition();
    old.publish_date = some("1920");
    assert!(scan.scan_edition(EDITION_LINE, Some(old)).is_none());
    assert_eq!((scan.staged, scan.no_work, scan.wrong_language, scan.skipped), (1, 0, 0, 0));
    let mut old = edition();
    old.publish_date = some("1920");
    let mut all = EditionScan::new(false, 2026);
    assert!(all.scan_edition(EDITION_LINE, Some(old)).is_some());
}

#[test]
fn a_dev_scan_stops_at_its_limit() {
    assert_eq!(DEV_LIMIT, 200_000);
    let mut scan = EditionScan::new(true, 2026);
    scan.staged = DEV_LIMIT - 1;
    assert!(!scan.is_full());
    assert!(scan.scan_edition(EDITION_LINE, Some(edition())).is_some());
    assert!(scan.is_full());
    let mut full = EditionScan::new(false, 2026);
    full.staged = DEV_LIMIT;
    assert!(!full.is_full());
}

/// The ids that a scan stages of some editions, and its count.
fn staged_ids(dev: bool, before: u64, editions: &[(&str, &str)]) -> (Vec<String>, u64) {
    let mut scan = EditionScan::new(dev, 2026);
    scan.staged = before;
    let mut ids = vec![];
    for (key, year) in editions {
        let mut e = edition();
        e.publish_date = some(year);
        let line = format!("/type/edition\t/books/{key}\t3\t2020-01-01T00:00:00\t{{}}\n");
        if let Some(row) = scan.scan_edition(&line, Some(e)) {
            ids.push(row.open_library_id);
        }
        if scan.is_full() {
            break;
        }
    }
    (ids, scan.staged - before)
}

#[test]
fn a_dev_scan_stages_the_first_good_editions() {
    let dump = [("OL1M", "1949"), ("OL2M", "1950"), ("OL3M", "2027"), ("OL4M", "2028"), ("OL5M", "1999")];
    let all = strings(&["OL1M", "OL2M", "OL3M", "OL4M", "OL5M"]);
    assert_eq!(staged_ids(false, 0, &dump), (all, 5));
    // All of the good ones, while there is room.
    let good = strings(&["OL2M", "OL3M", "OL5M"]);
    assert_eq!(staged_ids(true, 0, &dump), (good.clone(), 3));
    assert_eq!(staged_ids(true, DEV_LIMIT - 3, &dump), (good, 3));
    // The first of them, up to the limit.
    assert_eq!(staged_ids(true, DEV_LIMIT - 2, &dump), (strings(&["OL2M", "OL3M"]), 2));
    assert_eq!(staged_ids(true, DEV_LIMIT - 1, &dump), (strings(&["OL2M"]), 1));
}

#[test]
fn edition_progress() {
    let mut scan = EditionScan::new(false, 2026);
    scan.staged = 8191;
    assert_eq!(scan.progress(), None);
    scan.staged = 8192;
    assert_eq!(scan.progress(), some("8192 staged"));
    assert_eq!(scan.summary(), "8192 staged (0 without a work dropped, 0 not in eng/fre/spa/ita)");
}

#[test]
fn the_parser_gets_the_json_column() {
    let parse = |json: &str| {
        assert_eq!(json, "{\"name\": \"Ann\"}");
        Some(AuthorFields {
            name: text("Ann"),
            personal_name: Json::Null,
            birth_date: Json::Null,
            death_date: Json::Null,
            bio: Json::Null,
            photos: Json::Null,
        })
    };
    let mut scan = Scan::new();
    assert_eq!(scan.author_line(AUTHOR_LINE, parse).unwrap().name, "Ann");
    assert!(scan.author_line("no columns", parse).is_none());
    assert!(scan.author_line(AUTHOR_LINE, |_: &str| None).is_none());
    assert_eq!(scan, Scan { written: 1, skipped: 2 });
}

#[test]
fn lines_of_works_are_parsed() {
    let parse = |json: &str| {
        Some(WorkFields {
            title: text(json),
            subtitle: Json::Null,
            description: Json::Null,
            first_publish_date: Json::Null,
            covers: Json::Null,
            subjects: Json::Null,
            author_keys: Json::Array(vec![text("/authors/OL9A")]),
        })
    };
    let mut scan = Scan::new();
    let staged = scan.work_line("t\t/works/OL2W\t1\tm\tjson\n", parse).unwrap();
    assert_eq!(staged.row.title, "json");
    assert_eq!(staged.row.open_library_id, "OL2W");
    assert_eq!(staged.refs[0].author_olid, "OL9A");
    assert!(scan.work_line(WORK_LINE, |_: &str| None).is_none());
}

#[test]
fn lines_of_editions_are_parsed() {
    let parse = |json: &str| {
        Some(EditionFields {
            title: text(json),
            subtitle: Json::Null,
            work_keys: Json::Array(vec![text("/works/OL2W")]),
            publishers: Json::Null,
            publish_date: Json::Null,
            number_of_pages: Json::Null,
            isbn_10: Json::Null,
            isbn_13: Json::Null,
            covers: Json::Null,
            languages: Json::Array(vec![text("/languages/spa")]),
            physical_format: Json::Null,
            series: Json::Null,
            edition_name: Json::Null,
            ocaid: Json::Null,
            identifiers: Json::Null,
        })
    };
    let mut scan = EditionScan::new(false, 2026);
    let row = scan.edition_line("t\t/books/OL3M\t1\tm\tjson\n", parse).unwrap();
    assert_eq!((row.title, row.open_library_id, row.language), (some("json"), "OL3M".to_string(), some("spa")));
    assert!(scan.edition_line("t\tk\n", parse).is_none());
    assert_eq!((scan.staged, scan.skipped), (1, 1));
}
