//! The dumps that Open Library publishes, and where they are found.

use vstd::prelude::*;

use crate::text::{trim_end, trim_end_of, CharClass};

verus! {

#[derive(Copy, Clone, PartialEq, Eq, Debug, Structural)]
pub enum DumpType {
    Authors,
    Editions,
    Works,
}

/// Where the latest dumps are, unless the environment says otherwise.
pub const LATEST_BASE_URL: &'static str = "https://openlibrary.org/data";

/// Where the dated dumps are, unless the environment says otherwise.
pub const ARCHIVE_BASE_URL: &'static str = "https://archive.org/download";

/// The base URL that applies: the one that is set, else the default, without
/// slashes at its end.
pub open spec fn base_url(set: Option<Seq<char>>, default: Seq<char>) -> Seq<char> {
    trim_end_of(
        match set {
            Some(url) => url,
            None => default,
        },
        CharClass::Slash,
    )
}

impl DumpType {
    /// Every dump type, in the order in which they are downloaded.
    pub const ALL: [DumpType; 3] = [DumpType::Authors, DumpType::Works, DumpType::Editions];

    pub open spec fn spec_name(self) -> Seq<char> {
        match self {
            DumpType::Authors => "authors"@,
            DumpType::Editions => "editions"@,
            DumpType::Works => "works"@,
        }
    }

    pub open spec fn spec_filename(self) -> Seq<char> {
        "ol_dump_"@ + self.spec_name() + "_latest.txt.gz"@
    }

    pub open spec fn spec_dated_filename(self, date: Seq<char>) -> Seq<char> {
        "ol_dump_"@ + self.spec_name() + "_"@ + date + ".txt.gz"@
    }

    pub open spec fn spec_url(self, base: Option<Seq<char>>) -> Seq<char> {
        base_url(base, LATEST_BASE_URL@) + "/"@ + self.spec_filename()
    }

    pub open spec fn spec_archive_url(self, base: Option<Seq<char>>, date: Seq<char>) -> Seq<char> {
        base_url(base, ARCHIVE_BASE_URL@) + "/ol_dump_"@ + date + "/"@ + self.spec_dated_filename(
            date,
        )
    }

    pub fn name(self) -> (r: &'static str)
        ensures
            r@ == self.spec_name(),
    {
        match self {
            DumpType::Authors => "authors",
            DumpType::Editions => "editions",
            DumpType::Works => "works",
        }
    }

    pub fn filename(self) -> (r: String)
        ensures
            r@ == self.spec_filename(),
    {
        let mut r = "ol_dump_".to_owned();
        r.append(self.name());
        r.append("_latest.txt.gz");
        r
    }

    pub fn dated_filename(self, date: &str) -> (r: String)
        ensures
            r@ == self.spec_dated_filename(date@),
    {
        let mut r = "ol_dump_".to_owned();
        r.append(self.name());
        r.append("_");
        r.append(date);
        r.append(".txt.gz");
        r
    }

    /// The URL of the latest dump. `base` is the value of
    /// `OPENLIBRARY_DUMP_BASE_URL`, where that is set.
    pub fn url(self, base: Option<&str>) -> (r: String)
        ensures
            r@ == self.spec_url(base.deep_view()),
    {
        let base_url = match base {
            Some(url) => url,
            None => LATEST_BASE_URL,
        };
        let mut r = trim_end(base_url, CharClass::Slash).to_owned();
        r.append("/");
        r.append(self.filename().as_str());
        r
    }

    /// Direct archive.org URL for a specific dump date, e.g.
    /// `https://archive.org/download/ol_dump_2026-01-31/ol_dump_authors_2026-01-31.txt.gz`.
    /// `base` is the value of `OPENLIBRARY_ARCHIVE_BASE_URL`, where that is set.
    pub fn archive_url(self, base: Option<&str>, date: &str) -> (r: String)
        ensures
            r@ == self.spec_archive_url(base.deep_view(), date@),
    {
        let base_url = match base {
            Some(url) => url,
            None => ARCHIVE_BASE_URL,
        };
        let mut r = trim_end(base_url, CharClass::Slash).to_owned();
        r.append("/ol_dump_");
        r.append(date);
        r.append("/");
        r.append(self.dated_filename(date).as_str());
        r
    }
}

} // verus!
