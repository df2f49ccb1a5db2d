//! Decisions of the downloader: what to fetch, from where, and how to go on
//! with a file that is already there in part.

use vstd::prelude::*;

use crate::dump::DumpType;
use crate::number::{decimal, parse_u64, parse_unsigned, u64_to_string};
use crate::outside::{is_date, reads_as_date};
use crate::text::{after_last, last_segment};

verus! {

// ---------------------------------------------------------------------------
// Source
// ---------------------------------------------------------------------------

/// Where to download from: the openlibrary.org "latest" redirect, or a
/// specific dated dump on archive.org.
#[derive(Debug)]
pub enum Source {
    Latest,
    Archive { date: String },
}

/// How a dump date is written.
pub const DATE_FORMAT: &'static str = "%Y-%m-%d";

/// A dump date that is not written as YYYY-MM-DD.
#[derive(Debug)]
pub struct BadDate {
    pub date: String,
}

impl Source {
    pub open spec fn spec_url(
        self,
        dump: DumpType,
        latest_base: Option<Seq<char>>,
        archive_base: Option<Seq<char>>,
    ) -> Seq<char> {
        match self {
            Source::Latest => dump.spec_url(latest_base),
            Source::Archive { date } => dump.spec_archive_url(archive_base, date@),
        }
    }

    pub open spec fn spec_filename(self, dump: DumpType) -> Seq<char> {
        match self {
            Source::Latest => dump.spec_filename(),
            Source::Archive { date } => dump.spec_dated_filename(date@),
        }
    }

    /// The URL of a dump. The bases are those of [`DumpType::url`] and of
    /// [`DumpType::archive_url`].
    pub fn url(&self, dump: DumpType, latest_base: Option<&str>, archive_base: Option<&str>) -> (r:
        String)
        ensures
            r@ == self.spec_url(dump, latest_base.deep_view(), archive_base.deep_view()),
    {
        match self {
            Source::Latest => dump.url(latest_base),
            Source::Archive { date } => dump.archive_url(archive_base, date.as_str()),
        }
    }

    /// The name that a dump is saved under.
    pub fn filename(&self, dump: DumpType) -> (r: String)
        ensures
            r@ == self.spec_filename(dump),
    {
        match self {
            Source::Latest => dump.filename(),
            Source::Archive { date } => dump.dated_filename(date.as_str()),
        }
    }

    /// The dated source, where the date is one.
    pub fn dated(date: String, is_date: bool) -> (r: Result<Source, BadDate>)
        ensures
            r == (if is_date {
                Ok::<Source, BadDate>(Source::Archive { date })
            } else {
                Err::<Source, BadDate>(BadDate { date })
            }),
    {
        if is_date {
            Ok(Source::Archive { date })
        } else {
            Err(BadDate { date })
        }
    }

    /// The source that the command line asks for: a dated dump takes both
    /// `--archive` and `--date`.
    pub fn select(archive: bool, date: Option<String>) -> (r: Result<Source, BadDate>)
        ensures
            r == (match date {
                Some(date) if archive => if reads_as_date(date@, DATE_FORMAT@) {
                    Ok::<Source, BadDate>(Source::Archive { date })
                } else {
                    Err::<Source, BadDate>(BadDate { date })
                },
                _ => Ok::<Source, BadDate>(Source::Latest),
            }),
    {
        match date {
            Some(date) if archive => {
                let ok = is_date(date.as_str(), DATE_FORMAT);
                Source::dated(date, ok)
            },
            _ => Ok(Source::Latest),
        }
    }

    pub open spec fn spec_announcement(self, dir: Seq<char>) -> Seq<char> {
        match self {
            Source::Latest => "Downloading latest Open Library dumps to "@ + dir,
            Source::Archive { date } => "Downloading Open Library dumps for "@ + date@
                + " from archive.org to "@ + dir,
        }
    }

    /// What is printed before a download into the directory `dir`.
    pub fn announcement(&self, dir: &str) -> (r: String)
        ensures
            r@ == self.spec_announcement(dir@),
    {
        match self {
            Source::Latest => {
                let mut r = "Downloading latest Open Library dumps to ".to_owned();
                r.append(dir);
                r
            },
            Source::Archive { date } => {
                let mut r = "Downloading Open Library dumps for ".to_owned();
                r.append(date.as_str());
                r.append(" from archive.org to ");
                r.append(dir);
                r
            },
        }
    }
}

/// The dumps to download, in order.
pub open spec fn wanted(only: Option<DumpType>) -> Seq<DumpType> {
    match only {
        Some(t) => seq![t],
        None => seq![DumpType::Authors, DumpType::Works, DumpType::Editions],
    }
}

pub fn types_to_download(only: Option<DumpType>) -> (r: Vec<DumpType>)
    ensures
        r@ == wanted(only),
{
    let mut r: Vec<DumpType> = Vec::new();
    match only {
        Some(t) => {
            r.push(t);
        },
        None => {
            let all = DumpType::ALL;
            r.push(all[0]);
            r.push(all[1]);
            r.push(all[2]);
        },
    }
    assert(r@ =~= wanted(only));
    r
}

// ---------------------------------------------------------------------------
// One file
// ---------------------------------------------------------------------------

/// How many bytes of the file are there to be kept.
pub open spec fn kept_bytes(force: bool, on_disk: Option<u64>) -> u64 {
    match on_disk {
        Some(len) if !force => len,
        _ => 0,
    }
}

/// The offset to ask the server for: the size of the file on disk, if it can be
/// told; 0 where the file is to be downloaded anew.
pub fn resume_offset(force: bool, on_disk: Option<u64>) -> (r: u64)
    ensures
        r == kept_bytes(force, on_disk),
{
    match on_disk {
        Some(len) if !force => len,
        _ => 0,
    }
}

pub open spec fn range_of(existing: u64) -> Option<Seq<char>> {
    if existing > 0 {
        Some("bytes="@ + decimal(existing as nat) + "-"@)
    } else {
        None
    }
}

/// The value of the `Range` header: none for a download from the start.
pub fn range_header(existing: u64) -> (r: Option<String>)
    ensures
        r.deep_view() == range_of(existing),
{
    if existing > 0 {
        let mut r = "bytes=".to_owned();
        r.append(u64_to_string(existing).as_str());
        r.append("-");
        Some(r)
    } else {
        None
    }
}

/// What to do with a response.
#[derive(Copy, Clone, PartialEq, Eq, Debug, Structural)]
pub enum Reply {
    /// The file is complete; it has `size` bytes.
    AlreadyDownloaded { size: u64 },
    /// Write the body to the file from `offset` on. The file is to be emptied
    /// first (`truncate`) or the body goes behind what it has (`append`).
    /// `total` is the size of the whole file, 0 if it is unknown.
    Transfer { offset: u64, total: u64, truncate: bool, append: bool },
}

#[derive(Copy, Clone, PartialEq, Eq, Debug, Structural)]
pub enum ReplyError {
    /// A partial response that does not say how large the file is.
    MissingContentRange,
    /// A status other than 200, 206 and 416.
    UnexpectedStatus,
}

/// The size of the whole file as a `Content-Range` header gives it.
pub open spec fn range_total(content_range: Option<Seq<char>>) -> Option<int> {
    match content_range {
        Some(v) => parse_unsigned(last_segment(v, '/'), u64::MAX as int),
        None => None,
    }
}

/// The size of the body as a `Content-Length` header gives it.
pub open spec fn length_total(content_length: Option<Seq<char>>) -> Option<int> {
    match content_length {
        Some(v) => parse_unsigned(v, u64::MAX as int),
        None => None,
    }
}

pub open spec fn transfer_from(offset: u64, total: int) -> Reply {
    Reply::Transfer { offset, total: total as u64, truncate: offset == 0, append: offset > 0 }
}

/// How a response is taken, by its status:
/// - 206: the range request was honored, so resume where the file left off;
/// - 416: the range starts at (or past) the end of the file, so it is complete;
/// - 200: the whole file, either because there was no range or because the
///   server ignored it, so start over.
pub open spec fn reply_to(
    status: u16,
    existing: u64,
    content_range: Option<Seq<char>>,
    content_length: Option<Seq<char>>,
) -> Result<Reply, ReplyError> {
    if status == 206 {
        match range_total(content_range) {
            Some(total) => Ok(transfer_from(existing, total)),
            None => Err(ReplyError::MissingContentRange),
        }
    } else if status == 416 {
        Ok(Reply::AlreadyDownloaded { size: existing })
    } else if status == 200 {
        match length_total(content_length) {
            Some(total) => Ok(transfer_from(0, total)),
            None => Ok(transfer_from(0, 0)),
        }
    } else {
        Err(ReplyError::UnexpectedStatus)
    }
}

pub fn take_reply(
    status: u16,
    existing: u64,
    content_range: Option<&str>,
    content_length: Option<&str>,
) -> (r: Result<Reply, ReplyError>)
    ensures
        r == reply_to(status, existing, content_range.deep_view(), content_length.deep_view()),
{
    if status == 206 {
        let total = match content_range {
            Some(v) => parse_u64(after_last(v, '/')),
            None => None,
        };
        match total {
            Some(total) => Ok(
                Reply::Transfer {
                    offset: existing,
                    total,
                    truncate: existing == 0,
                    append: existing > 0,
                },
            ),
            None => Err(ReplyError::MissingContentRange),
        }
    } else if status == 416 {
        Ok(Reply::AlreadyDownloaded { size: existing })
    } else if status == 200 {
        let total = match content_length {
            Some(v) => parse_u64(v),
            None => None,
        };
        let total: u64 = match total {
            Some(total) => total,
            None => 0,
        };
        Ok(Reply::Transfer { offset: 0, total, truncate: true, append: false })
    } else {
        Err(ReplyError::UnexpectedStatus)
    }
}

/// A forced download never resumes: it asks for no range, and whatever is
/// transferred goes into an emptied file.
pub proof fn law_force_starts_over(
    on_disk: Option<u64>,
    status: u16,
    content_range: Option<Seq<char>>,
    content_length: Option<Seq<char>>,
)
    ensures
        range_of(kept_bytes(true, on_disk)) is None,
        reply_to(status, kept_bytes(true, on_disk), content_range, content_length) matches Ok(
            Reply::Transfer { offset, truncate, append, .. },
        ) ==> offset == 0 && truncate && !append,
{
}

/// A transfer keeps what is on disk only if the server honored the range, and
/// then it starts exactly where the file ends; otherwise the file is emptied.
pub proof fn law_resume_continues_the_file(
    existing: u64,
    status: u16,
    content_range: Option<Seq<char>>,
    content_length: Option<Seq<char>>,
)
    ensures
        reply_to(status, existing, content_range, content_length) matches Ok(
            Reply::Transfer { offset, truncate, append, .. },
        ) ==> {
            &&& append == !truncate
            &&& append ==> status == 206 && offset == existing && range_of(existing) is Some
            &&& truncate ==> offset == 0
        },
{
}

// ---------------------------------------------------------------------------
// All files
// ---------------------------------------------------------------------------

pub open spec fn failure_text(t: DumpType, error: Seq<char>) -> Seq<char> {
    "error downloading "@ + t.spec_name() + ": "@ + error
}

/// The failures among the first `n` results, as reported.
pub open spec fn failures(results: Seq<(DumpType, Option<String>)>, n: int) -> Seq<Seq<char>>
    decreases n,
{
    if n <= 0 {
        Seq::empty()
    } else {
        match results[n - 1].1 {
            Some(error) => failures(results, n - 1).push(
                failure_text(results[n - 1].0, error@),
            ),
            None => failures(results, n - 1),
        }
    }
}

/// One line for each download that failed, in order. `results` has the error
/// of every download that failed; the run as a whole failed if there is a line.
pub fn failure_report(results: &Vec<(DumpType, Option<String>)>) -> (r: Vec<String>)
    ensures
        r.deep_view() == failures(results@, results@.len() as int),
        r@.len() > 0 <==> exists|i: int| 0 <= i < results@.len() && (#[trigger] results@[i]).1 is Some,
{
    let mut r: Vec<String> = Vec::new();
    let mut i: usize = 0;
    assert(r.deep_view() =~= Seq::empty());
    while i < results.len()
        invariant
            i <= results@.len(),
            r.deep_view() == failures(results@, i as int),
            r@.len() > 0 <==> exists|j: int| 0 <= j < i && (#[trigger] results@[j]).1 is Some,
        decreases results@.len() - i,
    {
        let ghost before = r.deep_view();
        if let Some(error) = &results[i].1 {
            let mut line = "error downloading ".to_owned();
            line.append(results[i].0.name());
            line.append(": ");
            line.append(error.as_str());
            r.push(line);
            assert(r.deep_view() =~= before.push(line@));
            assert(results@[i as int].1 is Some);
        }
        i += 1;
    }
    r
}

} // verus!
