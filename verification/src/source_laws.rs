//! Where dumps come from and how a download goes on, in terms of the texts and
//! numbers involved.

use vstd::prelude::*;

use crate::download::{failures, kept_bytes, range_of, reply_to, wanted, Reply, ReplyError, Source};
use crate::dump::{ARCHIVE_BASE_URL, DumpType, LATEST_BASE_URL};
use crate::number::{all_digits, decimal, law_decimal_round_trip, parse_unsigned, value_of};
use crate::record_laws::{ends_path, law_keys_are_shortened};
use crate::text::{is_digit, lemma_last_segment_is, lemma_trim_end_is, trim_end_of, CharClass};
use crate::text_laws::law_unsigned_numerals;

verus! {

// ---------------------------------------------------------------------------
// Names and URLs
// ---------------------------------------------------------------------------

/// Whether `s` has nothing but slashes.
pub open spec fn slashes(s: Seq<char>) -> bool {
    forall|i: int| 0 <= i < s.len() ==> #[trigger] s[i] == '/'
}

/// The name that a dump is saved under tells its type, and its date where it has one.
pub proof fn law_file_names(date: String)
    ensures
        Source::Latest.spec_filename(DumpType::Authors) =~= "ol_dump_authors_latest.txt.gz"@,
        Source::Latest.spec_filename(DumpType::Works) =~= "ol_dump_works_latest.txt.gz"@,
        Source::Latest.spec_filename(DumpType::Editions) =~= "ol_dump_editions_latest.txt.gz"@,
        (Source::Archive { date }).spec_filename(DumpType::Authors) =~= "ol_dump_authors_"@ + date@
            + ".txt.gz"@,
        (Source::Archive { date }).spec_filename(DumpType::Works) =~= "ol_dump_works_"@ + date@
            + ".txt.gz"@,
        (Source::Archive { date }).spec_filename(DumpType::Editions) =~= "ol_dump_editions_"@ + date@
            + ".txt.gz"@,
{
    reveal_strlit("ol_dump_");
    reveal_strlit("_");
    reveal_strlit("authors");
    reveal_strlit("works");
    reveal_strlit("editions");
    reveal_strlit("_latest.txt.gz");
    reveal_strlit("ol_dump_authors_latest.txt.gz");
    reveal_strlit("ol_dump_works_latest.txt.gz");
    reveal_strlit("ol_dump_editions_latest.txt.gz");
    reveal_strlit("ol_dump_authors_");
    reveal_strlit("ol_dump_works_");
    reveal_strlit("ol_dump_editions_");
}

/// The latest dump is fetched from openlibrary.org under the name that it is saved
/// under, or from the base that is set, with one slash between.
pub proof fn law_latest_url(
    dump: DumpType,
    archive_base: Option<Seq<char>>,
    base: Seq<char>,
    end: Seq<char>,
)
    requires
        slashes(end),
        base.len() > 0 ==> base.last() != '/',
    ensures
        Source::Latest.spec_url(dump, None, archive_base) =~= "https://openlibrary.org/data/"@
            + Source::Latest.spec_filename(dump),
        Source::Latest.spec_url(dump, Some(base + end), archive_base) =~= base + seq!['/']
            + Source::Latest.spec_filename(dump),
{
    reveal_strlit("/");
    reveal_strlit("https://openlibrary.org/data");
    reveal_strlit("https://openlibrary.org/data/");
    let d = LATEST_BASE_URL@;
    lemma_trim_end_is(d, CharClass::Slash, d.len() as int);
    assert(d.take(d.len() as int) =~= d);
    lemma_base(base, end);
}

/// A dated dump is fetched from the item of that date on archive.org, under the name
/// that it is saved under, or from the base that is set.
pub proof fn law_archive_url(
    dump: DumpType,
    date: String,
    latest_base: Option<Seq<char>>,
    base: Seq<char>,
    end: Seq<char>,
)
    requires
        slashes(end),
        base.len() > 0 ==> base.last() != '/',
    ensures
        ({
            let source = Source::Archive { date };
            let item = "ol_dump_"@ + date@ + seq!['/'] + source.spec_filename(dump);
            &&& source.spec_url(dump, latest_base, None) =~= "https://archive.org/download/"@ + item
            &&& source.spec_url(dump, latest_base, Some(base + end)) =~= base + seq!['/'] + item
        }),
{
    reveal_strlit("/");
    reveal_strlit("/ol_dump_");
    reveal_strlit("ol_dump_");
    reveal_strlit("https://archive.org/download");
    reveal_strlit("https://archive.org/download/");
    let d = ARCHIVE_BASE_URL@;
    lemma_trim_end_is(d, CharClass::Slash, d.len() as int);
    assert(d.take(d.len() as int) =~= d);
    lemma_base(base, end);
}

proof fn lemma_base(base: Seq<char>, end: Seq<char>)
    requires
        slashes(end),
        base.len() > 0 ==> base.last() != '/',
    ensures
        trim_end_of(base + end, CharClass::Slash) == base,
{
    let s = base + end;
    assert forall|j: int| base.len() <= j < s.len() implies CharClass::Slash.has(s[j]) by {
        assert(s[j] == end[j - base.len()]);
    }
    if base.len() > 0 {
        assert(s[base.len() - 1] == base.last());
    }
    lemma_trim_end_is(s, CharClass::Slash, base.len() as int);
    assert(s.take(base.len() as int) =~= base);
}

/// Dumps of different types, or of different dates, are saved under different names,
/// and never where the latest dump is.
pub proof fn law_file_names_differ(a: DumpType, b: DumpType, d1: String, d2: String)
    requires
        (Source::Archive { date: d1 }).spec_filename(a) == (Source::Archive {
            date: d2,
        }).spec_filename(b),
    ensures
        a == b,
        d1@ == d2@,
{
    law_file_names(d1);
    law_file_names(d2);
    reveal_strlit("ol_dump_authors_");
    reveal_strlit("ol_dump_works_");
    reveal_strlit("ol_dump_editions_");
    reveal_strlit(".txt.gz");
    let p = (Source::Archive { date: d1 }).spec_filename(a);
    let q = (Source::Archive { date: d2 }).spec_filename(b);
    assert(p[8] == q[8]);
    assert(a == b);
    let n = match a {
        DumpType::Authors => 16int,
        DumpType::Works => 14int,
        DumpType::Editions => 17int,
    };
    assert(d1@ =~= p.subrange(n, p.len() - 7));
    assert(d2@ =~= q.subrange(n, q.len() - 7));
}

/// Without `--only` every dump is fetched, authors first and editions last; with it,
/// just that one.
pub proof fn law_dumps_to_fetch(t: DumpType)
    ensures
        wanted(Some(t)) == seq![t],
        wanted(None) == seq![DumpType::Authors, DumpType::Works, DumpType::Editions],
{
}

/// What is announced names the directory, and the date of a dated dump.
pub proof fn law_announcements(date: String, dir: Seq<char>)
    ensures
        Source::Latest.spec_announcement(dir) == "Downloading latest Open Library dumps to "@ + dir,
        (Source::Archive { date }).spec_announcement(dir) == "Downloading Open Library dumps for "@
            + date@ + " from archive.org to "@ + dir,
{
}

// ---------------------------------------------------------------------------
// Resuming
// ---------------------------------------------------------------------------

/// A download asks for the bytes behind those that are on disk, unless it is forced or
/// there are none; then it asks for no range.
pub proof fn law_range_asks_for_the_rest(n: u64, force: bool)
    ensures
        kept_bytes(false, Some(n)) == n,
        kept_bytes(true, Some(n)) == 0,
        kept_bytes(force, None) == 0,
        n > 0 ==> range_of(n) == Some("bytes="@ + decimal(n as nat) + "-"@),
        range_of(0) is None,
{
}

/// A server that honors the range says how large the whole file is behind the last
/// slash of `Content-Range`; the body then goes behind what is on disk.
pub proof fn law_partial_content(existing: u64, before: Seq<char>, total: u64, length: Option<Seq<char>>)
    ensures
        reply_to(206, existing, Some(before + seq!['/'] + decimal(total as nat)), length) == Ok::<
            Reply,
            ReplyError,
        >(
            Reply::Transfer {
                offset: existing,
                total,
                truncate: existing == 0,
                append: existing > 0,
            },
        ),
        reply_to(206, existing, Some(decimal(total as nat)), length) == Ok::<Reply, ReplyError>(
            Reply::Transfer {
                offset: existing,
                total,
                truncate: existing == 0,
                append: existing > 0,
            },
        ),
        reply_to(206, existing, None, length) == Err::<Reply, ReplyError>(
            ReplyError::MissingContentRange,
        ),
{
    let d = decimal(total as nat);
    let s = before + seq!['/'] + d;
    law_decimal_round_trip(total as nat, u64::MAX as int);
    let start = before.len() + 1;
    assert(s[start - 1] == '/');
    assert forall|j: int| start <= j < s.len() implies s[j] != '/' by {
        assert(s[j] == d[j - start]);
        assert(is_digit(d[j - start]));
    }
    lemma_last_segment_is(s, '/', start as int);
    assert(s.skip(start as int) =~= d);
    assert forall|j: int| 0 <= j < d.len() implies d[j] != '/' by {
        assert(is_digit(d[j]));
    }
    lemma_last_segment_is(d, '/', 0);
    assert(d.skip(0) =~= d);
}

/// A partial response that does not say how large the file is, is an error.
pub proof fn law_unknown_size_is_refused(
    existing: u64,
    before: Seq<char>,
    last: Seq<char>,
    length: Option<Seq<char>>,
)
    requires
        last.len() == 0 || exists|i: int|
            0 < i < last.len() && !('0' <= #[trigger] last[i] <= '9') || last[0] != '+' && !('0'
                <= last[0] <= '9'),
        !last.contains('/'),
    ensures
        reply_to(206, existing, Some(before + seq!['/'] + last), length) == Err::<
            Reply,
            ReplyError,
        >(ReplyError::MissingContentRange),
{
    let s = before + seq!['/'] + last;
    let start = before.len() + 1;
    assert(s[start - 1] == '/');
    assert forall|j: int| start <= j < s.len() implies s[j] != '/' by {
        assert(s[j] == last[j - start]);
        assert(last.contains(last[j - start]));
    }
    lemma_last_segment_is(s, '/', start as int);
    assert(s.skip(start as int) =~= last);
    if last.len() > 0 {
        if last[0] == '+' {
            let rest = last.skip(1);
            if all_digits(rest) {
                let i = choose|i: int|
                    0 < i < last.len() && !('0' <= #[trigger] last[i] <= '9') || last[0] != '+'
                        && !('0' <= last[0] <= '9');
                assert(rest[i - 1] == last[i]);
                assert(is_digit(rest[i - 1]));
            }
        } else if all_digits(last) {
            assert(is_digit(last[0]));
            let i = choose|i: int|
                0 < i < last.len() && !('0' <= #[trigger] last[i] <= '9') || last[0] != '+' && !(
                '0' <= last[0] <= '9');
            assert(is_digit(last[i]));
        }
    }
}

/// A whole response starts the file over, whatever was there before; the size is that
/// of `Content-Length`, or 0 where that is missing.
pub proof fn law_whole_content(existing: u64, range: Option<Seq<char>>, total: u64)
    ensures
        reply_to(200, existing, range, Some(decimal(total as nat))) == Ok::<Reply, ReplyError>(
            Reply::Transfer { offset: 0, total, truncate: true, append: false },
        ),
        reply_to(200, existing, range, None) == Ok::<Reply, ReplyError>(
            Reply::Transfer { offset: 0, total: 0, truncate: true, append: false },
        ),
{
    law_decimal_round_trip(total as nat, u64::MAX as int);
}

/// Whether `v` is a number that a `u64` can hold: digits, perhaps behind a plus sign.
pub open spec fn is_size(v: Seq<char>, n: int) -> bool {
    n <= u64::MAX && exists|ds: Seq<char>| #[trigger]
        all_digits(ds) && ds.len() > 0 && value_of(ds) == n && (v == ds || v == seq!['+'] + ds)
}

/// A size is taken from a header exactly if it is a number there: a partial response without
/// one is an error, and a whole one has an unknown size.
pub proof fn law_sizes_are_read(
    existing: u64,
    v: Seq<char>,
    last: Seq<char>,
    other: Option<Seq<char>>,
    n: u64,
)
    requires
        ends_path(v, last),
    ensures
        is_size(last, n as int) ==> reply_to(206, existing, Some(v), other) is Ok && reply_to(
            206,
            existing,
            Some(v),
            other,
        )->Ok_0->total == n,
        reply_to(206, existing, Some(v), other) is Ok <==> exists|m: int| is_size(last, m),
        is_size(v, n as int) ==> reply_to(200, existing, other, Some(v))->Ok_0->total == n,
        !(exists|m: int| is_size(v, m)) ==> reply_to(200, existing, other, Some(v))->Ok_0->total
            == 0,
{
    law_keys_are_shortened(v, last);
    assert forall|s: Seq<char>, m: int|
        parse_unsigned(s, u64::MAX as int) == Some(m) <==> #[trigger] is_size(s, m) by {
        law_unsigned_numerals(s, u64::MAX as int, m);
    }
    if let Some(m) = parse_unsigned(last, u64::MAX as int) {
        assert(is_size(last, m));
    }
    if let Some(m) = parse_unsigned(v, u64::MAX as int) {
        assert(is_size(v, m));
    }
}

/// A range that cannot be satisfied means that the file is complete; any status but
/// 200, 206 and 416 is an error.
pub proof fn law_other_replies(
    status: u16,
    existing: u64,
    range: Option<Seq<char>>,
    length: Option<Seq<char>>,
)
    ensures
        reply_to(416, existing, range, length) == Ok::<Reply, ReplyError>(
            Reply::AlreadyDownloaded { size: existing },
        ),
        status != 200 && status != 206 && status != 416 ==> reply_to(
            status,
            existing,
            range,
            length,
        ) == Err::<Reply, ReplyError>(ReplyError::UnexpectedStatus),
{
}

// ---------------------------------------------------------------------------
// Failures
// ---------------------------------------------------------------------------

/// Whether `at` are the downloads that failed, in order, and `lines` tells of each the
/// dump and the error.
pub open spec fn tells(
    results: Seq<(DumpType, Option<String>)>,
    lines: Seq<Seq<char>>,
    at: Seq<int>,
) -> bool {
    &&& at.len() == lines.len()
    &&& forall|k: int|
        0 <= k < at.len() ==> {
            &&& 0 <= #[trigger] at[k] < results.len()
            &&& results[at[k]].1 is Some
            &&& lines[k] == "error downloading "@ + match results[at[k]].0 {
                DumpType::Authors => "authors"@,
                DumpType::Works => "works"@,
                DumpType::Editions => "editions"@,
            } + ": "@ + results[at[k]].1->0@
        }
    &&& forall|j: int, k: int| 0 <= j < k < at.len() ==> #[trigger] at[j] < #[trigger] at[k]
    &&& forall|i: int|
        0 <= i < results.len() && (#[trigger] results[i]).1 is Some ==> at.contains(i)
}

/// There is one line for each download that failed, in order, and none for the others.
pub proof fn law_failures_are_told(results: Seq<(DumpType, Option<String>)>)
    ensures
        exists|at: Seq<int>| tells(results, failures(results, results.len() as int), at),
{
    let at = lemma_failures(results, results.len() as int);
    assert(results.take(results.len() as int) =~= results);
}

proof fn lemma_failures(results: Seq<(DumpType, Option<String>)>, n: int) -> (at: Seq<int>)
    requires
        0 <= n <= results.len(),
    ensures
        tells(results.take(n), failures(results, n), at),
    decreases n,
{
    if n == 0 {
        Seq::empty()
    } else {
        let before = lemma_failures(results, n - 1);
        let part = results.take(n);
        let init = results.take(n - 1);
        let lines = failures(results, n);
        let at = if results[n - 1].1 is Some {
            before.push(n - 1)
        } else {
            before
        };
        assert forall|k: int| 0 <= k < at.len() implies {
            &&& 0 <= #[trigger] at[k] < part.len()
            &&& part[at[k]].1 is Some
            &&& lines[k] == "error downloading "@ + match part[at[k]].0 {
                DumpType::Authors => "authors"@,
                DumpType::Works => "works"@,
                DumpType::Editions => "editions"@,
            } + ": "@ + part[at[k]].1->0@
        } by {
            if k < before.len() {
                assert(0 <= before[k] < init.len());
                assert(init[before[k]] == part[at[k]]);
            }
        }
        assert forall|j: int, k: int| 0 <= j < k < at.len() implies #[trigger] at[j]
            < #[trigger] at[k] by {
            assert(0 <= before[j] < init.len());
            if k < before.len() {
                assert(before[j] < before[k]);
            }
        }
        assert forall|i: int| 0 <= i < part.len() && (#[trigger] part[i]).1 is Some implies at.contains(
            i,
        ) by {
            if i < n - 1 {
                assert(init[i] == part[i]);
                let k = choose|k: int| 0 <= k < before.len() && before[k] == i;
                assert(at[k] == i);
            } else {
                assert(at[before.len() as int] == i);
            }
        }
        at
    }
}

} // verus!
