use openlibrary::download::{
    failure_report, range_header, resume_offset, take_reply, types_to_download, Reply, ReplyError,
    Source,
};
use openlibrary::dump::DumpType;

fn dated(date: &str) -> Source {
    Source::Archive { date: date.to_string() }
}

#[test]
fn names_of_dumps() {
    assert_eq!(DumpType::Authors.name(), "authors");
    assert_eq!(DumpType::Works.name(), "works");
    assert_eq!(DumpType::Editions.name(), "editions");
    assert_eq!(DumpType::Works.filename(), "ol_dump_works_latest.txt.gz");
    assert_eq!(DumpType::Editions.dated_filename("2026-01-31"), "ol_dump_editions_2026-01-31.txt.gz");
}

#[test]
fn latest_urls() {
    assert_eq!(
        DumpType::Authors.url(None),
        "https://openlibrary.org/data/ol_dump_authors_latest.txt.gz"
    );
    assert_eq!(
        DumpType::Works.url(Some("http://localhost:8000//")),
        "http://localhost:8000/ol_dump_works_latest.txt.gz"
    );
}

#[test]
fn archive_urls() {
    assert_eq!(
        DumpType::Authors.archive_url(None, "2026-01-31"),
        "https://archive.org/download/ol_dump_2026-01-31/ol_dump_authors_2026-01-31.txt.gz"
    );
    assert_eq!(
        DumpType::Authors.archive_url(Some("http://mirror/"), "2026-01-31"),
        "http://mirror/ol_dump_2026-01-31/ol_dump_authors_2026-01-31.txt.gz"
    );
}

#[test]
fn sources_name_their_files() {
    let t = DumpType::Editions;
    assert_eq!(Source::Latest.filename(t), "ol_dump_editions_latest.txt.gz");
    assert_eq!(dated("2025-12-31").filename(t), "ol_dump_editions_2025-12-31.txt.gz");
    assert_eq!(Source::Latest.url(t, Some("l"), Some("a")), "l/ol_dump_editions_latest.txt.gz");
    assert_eq!(
        dated("2025-12-31").url(t, Some("l"), Some("a")),
        "a/ol_dump_2025-12-31/ol_dump_editions_2025-12-31.txt.gz"
    );
}

#[test]
fn the_command_line_picks_the_source() {
    assert!(matches!(Source::select(false, None), Ok(Source::Latest)));
    assert!(matches!(Source::select(true, None), Ok(Source::Latest)));
    assert!(matches!(Source::select(false, Some("junk".to_string())), Ok(Source::Latest)));
    match Source::select(true, Some("2026-01-31".to_string())) {
        Ok(Source::Archive { date }) => assert_eq!(date, "2026-01-31"),
        _ => panic!("a dated source"),
    }
    for bad in ["2026-02-30", "2026/01/31", "yesterday", "", "2026-01"] {
        match Source::select(true, Some(bad.to_string())) {
            Err(e) => assert_eq!(e.date, bad),
            Ok(_) => panic!("{bad} is no date"),
        }
    }
}

#[test]
fn a_date_is_taken_or_handed_back() {
    assert!(matches!(Source::dated("d".to_string(), true), Ok(Source::Archive { date }) if date == "d"));
    assert!(matches!(Source::dated("d".to_string(), false), Err(e) if e.date == "d"));
}

#[test]
fn announcements() {
    assert_eq!(Source::Latest.announcement("./data"), "Downloading latest Open Library dumps to ./data");
    assert_eq!(
        dated("2026-01-31").announcement("./data"),
        "Downloading Open Library dumps for 2026-01-31 from archive.org to ./data"
    );
}

#[test]
fn one_dump_or_all() {
    assert_eq!(types_to_download(Some(DumpType::Editions)), vec![DumpType::Editions]);
    assert_eq!(
        types_to_download(None),
        vec![DumpType::Authors, DumpType::Works, DumpType::Editions]
    );
    assert_eq!(types_to_download(None), DumpType::ALL.to_vec());
}

#[test]
fn resuming_asks_for_the_rest() {
    assert_eq!(resume_offset(false, Some(100)), 100);
    assert_eq!(resume_offset(false, None), 0);
    assert_eq!(range_header(100), Some("bytes=100-".to_string()));
    assert_eq!(range_header(0), None);
    assert_eq!(
        take_reply(206, 100, Some("bytes 100-999/1000"), None),
        Ok(Reply::Transfer { offset: 100, total: 1000, truncate: false, append: true })
    );
}

#[test]
fn force_starts_over() {
    assert_eq!(resume_offset(true, Some(100)), 0);
    assert_eq!(range_header(resume_offset(true, Some(100))), None);
    assert_eq!(
        take_reply(200, 0, None, Some("1000")),
        Ok(Reply::Transfer { offset: 0, total: 1000, truncate: true, append: false })
    );
}

#[test]
fn a_complete_file_is_left_alone() {
    assert_eq!(take_reply(416, 1000, None, None), Ok(Reply::AlreadyDownloaded { size: 1000 }));
}

#[test]
fn an_ignored_range_starts_over() {
    assert_eq!(
        take_reply(200, 100, Some("bytes 100-999/1000"), Some("1000")),
        Ok(Reply::Transfer { offset: 0, total: 1000, truncate: true, append: false })
    );
    assert_eq!(
        take_reply(200, 100, None, Some("unknown")),
        Ok(Reply::Transfer { offset: 0, total: 0, truncate: true, append: false })
    );
    assert_eq!(
        take_reply(200, 0, None, None),
        Ok(Reply::Transfer { offset: 0, total: 0, truncate: true, append: false })
    );
}

#[test]
fn a_partial_reply_must_name_the_size() {
    for range in [None, Some("bytes 100-999/*"), Some(""), Some("bytes 100-999/")] {
        assert_eq!(take_reply(206, 100, range, Some("900")), Err(ReplyError::MissingContentRange));
    }
    assert_eq!(
        take_reply(206, 100, Some("1000"), None),
        Ok(Reply::Transfer { offset: 100, total: 1000, truncate: false, append: true })
    );
}

#[test]
fn other_statuses_are_errors() {
    for status in [0, 201, 204, 301, 403, 404, 500, 503] {
        assert_eq!(take_reply(status, 0, None, Some("10")), Err(ReplyError::UnexpectedStatus));
    }
}

#[test]
fn failures_are_reported_in_order() {
    let results = vec![
        (DumpType::Authors, Some("request failed".to_string())),
        (DumpType::Works, None),
        (DumpType::Editions, Some("download interrupted".to_string())),
    ];
    assert_eq!(
        failure_report(&results),
        vec![
            "error downloading authors: request failed",
            "error downloading editions: download interrupted",
        ]
    );
    assert!(failure_report(&vec![(DumpType::Works, None)]).is_empty());
    assert!(failure_report(&vec![]).is_empty());
}
