//! What an import does, step by step.
//!
//! The steps of a plan are carried out in order; the first one that fails ends
//! the import.

use vstd::prelude::*;

use crate::download::Source;
use crate::dump::DumpType;
use crate::number::{decimal, u64_to_string};
use crate::scan::{DEV_LIMIT, DEV_MIN_YEAR};
use crate::schema::{create_indexes, drop_secondary_indexes, drop_text, index_views, indexes_of};
use crate::schema::{secondary_indexes_of, Index, IndexView};
use crate::sql::{
    insert_authors_sql, insert_authors_text, insert_editions_sql, insert_editions_text,
    insert_works_sql, insert_works_text, AUTHORS_ON_KEPT_WORKS, CLEAR_EDITION_COUNTS,
    CLEAR_WORK_COUNTS, RECOUNT_EDITIONS, RECOUNT_WORKS, STAGING_AUTHORS, STAGING_EDITIONS,
    STAGING_REFS, STAGING_WORKS, UPDATE_AUTHORS, UPDATE_EDITIONS, UPDATE_WORKS, UPSERT_AUTHORSHIPS,
    WORKS_WITH_STAGED_EDITIONS,
};
use crate::statements::{
    keeps_slug_and_creation, lemma_update_authors, lemma_update_editions, lemma_update_works,
};
use crate::text::{ends_with, has_prefix, has_suffix, starts_with};

verus! {

// ---------------------------------------------------------------------------
// Tables
// ---------------------------------------------------------------------------

/// A table that staged rows are merged into.
#[derive(Copy, Clone, PartialEq, Eq, Debug, Structural)]
pub enum Table {
    Authors,
    Works,
    Authorships,
    Editions,
}

impl Table {
    pub open spec fn spec_name(self) -> Seq<char> {
        match self {
            Table::Authors => "authors"@,
            Table::Works => "works"@,
            Table::Authorships => "authorships"@,
            Table::Editions => "editions"@,
        }
    }

    pub fn name(self) -> (r: &'static str)
        ensures
            r@ == self.spec_name(),
    {
        match self {
            Table::Authors => "authors",
            Table::Works => "works",
            Table::Authorships => "authorships",
            Table::Editions => "editions",
        }
    }

    /// The statement that refreshes existing rows. It never touches slug or
    /// created_at. Authorships are refreshed as they are inserted.
    pub open spec fn update_text(self) -> Option<Seq<char>> {
        match self {
            Table::Authors => Some(UPDATE_AUTHORS@),
            Table::Works => Some(UPDATE_WORKS@),
            Table::Authorships => None,
            Table::Editions => Some(UPDATE_EDITIONS@),
        }
    }

    pub fn update_sql(self) -> (r: Option<&'static str>)
        ensures
            r.deep_view() == self.update_text(),
    {
        match self {
            Table::Authors => Some(UPDATE_AUTHORS),
            Table::Works => Some(UPDATE_WORKS),
            Table::Authorships => None,
            Table::Editions => Some(UPDATE_EDITIONS),
        }
    }

    /// The statement that inserts new rows, of the works that have a staged
    /// edition and the authors of those works.
    pub open spec fn insert_text(self) -> Seq<char> {
        match self {
            Table::Authors => insert_authors_text(AUTHORS_ON_KEPT_WORKS@),
            Table::Works => insert_works_text(WORKS_WITH_STAGED_EDITIONS@),
            Table::Authorships => UPSERT_AUTHORSHIPS@,
            Table::Editions => insert_editions_text(),
        }
    }

    pub fn insert_sql(self) -> (r: String)
        ensures
            r@ == self.insert_text(),
    {
        match self {
            Table::Authors => insert_authors_sql(AUTHORS_ON_KEPT_WORKS),
            Table::Works => insert_works_sql(WORKS_WITH_STAGED_EDITIONS),
            Table::Authorships => UPSERT_AUTHORSHIPS.to_owned(),
            Table::Editions => insert_editions_sql(),
        }
    }
}

/// A staging table.
#[derive(Copy, Clone, PartialEq, Eq, Debug, Structural)]
pub enum Staging {
    Authors,
    Works,
    Editions,
    /// Work→author links.
    Refs,
}

impl Staging {
    pub open spec fn ddl_text(self) -> Seq<char> {
        match self {
            Staging::Authors => STAGING_AUTHORS@,
            Staging::Works => STAGING_WORKS@,
            Staging::Editions => STAGING_EDITIONS@,
            Staging::Refs => STAGING_REFS@,
        }
    }

    /// The statements that create the table anew.
    pub fn ddl(self) -> (r: &'static str)
        ensures
            r@ == self.ddl_text(),
    {
        match self {
            Staging::Authors => STAGING_AUTHORS,
            Staging::Works => STAGING_WORKS,
            Staging::Editions => STAGING_EDITIONS,
            Staging::Refs => STAGING_REFS,
        }
    }
}

// ---------------------------------------------------------------------------
// Plans
// ---------------------------------------------------------------------------

#[derive(Copy, Clone, PartialEq, Eq, Debug, Structural)]
pub enum Step {
    /// Print what a dev import imports.
    AnnounceDev,
    /// Fail if there are no works.
    RequireWorks,
    /// Create a staging table anew.
    CreateStaging(Staging),
    /// Scan the editions dump into its staging table.
    StageEditions { dev: bool },
    /// Scan the works dump into the staging tables of works and links. The links
    /// go through a second connection because the works COPY holds the first
    /// one for the duration of the scan.
    ScanWorks,
    /// Scan the authors dump into its staging table.
    ScanAuthors,
    /// Merge staged rows into a table; new rows only where `admit_new`.
    Merge { table: Table, admit_new: bool },
    /// Refresh the `works.edition_count` counter cache.
    RecountEditions,
    /// Refresh the `authors.works_count` counter cache.
    RecountWorks,
    /// Drop the staging tables; a failure is ignored.
    DropStaging,
}

/// Full import: authors, works, authorships, editions.
///
/// Editions are staged first: the surviving editions decide which works get
/// imported, and those works decide which authors — everything else in the
/// dumps is dead weight for the app.
pub open spec fn full_plan(dev: bool) -> Seq<Step> {
    seq![
        Step::CreateStaging(Staging::Authors),
        Step::CreateStaging(Staging::Works),
        Step::CreateStaging(Staging::Editions),
        Step::CreateStaging(Staging::Refs),
        Step::StageEditions { dev },
        Step::ScanWorks,
        Step::Merge { table: Table::Works, admit_new: true },
        Step::ScanAuthors,
        Step::Merge { table: Table::Authors, admit_new: true },
        Step::Merge { table: Table::Authorships, admit_new: true },
        Step::Merge { table: Table::Editions, admit_new: true },
        Step::RecountEditions,
        Step::RecountWorks,
        Step::DropStaging,
    ]
}

/// Reimport editions against the works already in the database.
pub open spec fn editions_plan(dev: bool) -> Seq<Step> {
    seq![
        Step::RequireWorks,
        Step::CreateStaging(Staging::Editions),
        Step::StageEditions { dev },
        Step::Merge { table: Table::Editions, admit_new: true },
        Step::RecountEditions,
        Step::DropStaging,
    ]
}

/// Reimport authors. Ids are stable, so authorships and counts are untouched.
pub open spec fn authors_plan() -> Seq<Step> {
    seq![
        Step::CreateStaging(Staging::Authors),
        Step::ScanAuthors,
        Step::Merge { table: Table::Authors, admit_new: false },
        Step::DropStaging,
    ]
}

/// Reimport works and refresh authorships against the existing authors.
/// Editions keep pointing at the same work ids, so they are untouched.
pub open spec fn works_plan() -> Seq<Step> {
    seq![
        Step::CreateStaging(Staging::Works),
        Step::CreateStaging(Staging::Refs),
        Step::ScanWorks,
        Step::Merge { table: Table::Works, admit_new: false },
        Step::Merge { table: Table::Authorships, admit_new: true },
        Step::RecountWorks,
        Step::DropStaging,
    ]
}

/// The plan of an import, unless it is refused.
///
/// A dev import selects books by filtering editions, so it cannot be combined
/// with another dump type alone.
pub open spec fn plan_of(only: Option<DumpType>, dev: bool) -> Result<Seq<Step>, DumpType> {
    match only {
        None => Ok(
            if dev {
                seq![Step::AnnounceDev] + full_plan(dev)
            } else {
                full_plan(dev)
            },
        ),
        Some(DumpType::Editions) => Ok(editions_plan(dev)),
        Some(t) => if dev {
            Err(t)
        } else if t == DumpType::Authors {
            Ok(authors_plan())
        } else {
            Ok(works_plan())
        },
    }
}

fn import_all(dev: bool) -> (r: Vec<Step>)
    ensures
        Ok::<Seq<Step>, DumpType>(r@) == plan_of(None, dev),
{
    let mut r: Vec<Step> = Vec::new();
    if dev {
        r.push(Step::AnnounceDev);
    }
    r.push(Step::CreateStaging(Staging::Authors));
    r.push(Step::CreateStaging(Staging::Works));
    r.push(Step::CreateStaging(Staging::Editions));
    r.push(Step::CreateStaging(Staging::Refs));
    r.push(Step::StageEditions { dev });
    r.push(Step::ScanWorks);
    r.push(Step::Merge { table: Table::Works, admit_new: true });
    r.push(Step::ScanAuthors);
    r.push(Step::Merge { table: Table::Authors, admit_new: true });
    r.push(Step::Merge { table: Table::Authorships, admit_new: true });
    r.push(Step::Merge { table: Table::Editions, admit_new: true });
    r.push(Step::RecountEditions);
    r.push(Step::RecountWorks);
    r.push(Step::DropStaging);
    assert(r@ =~= plan_of(None, dev)->Ok_0);
    r
}

fn only_editions(dev: bool) -> (r: Vec<Step>)
    ensures
        r@ == editions_plan(dev),
{
    let r: Vec<Step> = vec![
        Step::RequireWorks,
        Step::CreateStaging(Staging::Editions),
        Step::StageEditions { dev },
        Step::Merge { table: Table::Editions, admit_new: true },
        Step::RecountEditions,
        Step::DropStaging,
    ];
    assert(r@ =~= editions_plan(dev));
    r
}

fn only_authors() -> (r: Vec<Step>)
    ensures
        r@ == authors_plan(),
{
    let r: Vec<Step> = vec![
        Step::CreateStaging(Staging::Authors),
        Step::ScanAuthors,
        Step::Merge { table: Table::Authors, admit_new: false },
        Step::DropStaging,
    ];
    assert(r@ =~= authors_plan());
    r
}

fn only_works() -> (r: Vec<Step>)
    ensures
        r@ == works_plan(),
{
    let r: Vec<Step> = vec![
        Step::CreateStaging(Staging::Works),
        Step::CreateStaging(Staging::Refs),
        Step::ScanWorks,
        Step::Merge { table: Table::Works, admit_new: false },
        Step::Merge { table: Table::Authorships, admit_new: true },
        Step::RecountWorks,
        Step::DropStaging,
    ];
    assert(r@ =~= works_plan());
    r
}

/// Why an import is refused or cannot go on.
#[derive(Debug)]
pub enum ImportError {
    /// A dev import of one dump type other than editions.
    DevWithOnly { only: DumpType },
    /// An import of editions alone into a database without works.
    NoWorks,
    /// There is no dump of this type in the directory.
    NoDump { dump: DumpType, dir: String },
}

impl ImportError {
    pub open spec fn text(self) -> Seq<char> {
        match self {
            ImportError::DevWithOnly { only } =>
                "--dev selects books by filtering editions, so it cannot be combined with `--only "@
                + only.spec_name() + "`; use `--only editions` or drop --only"@,
            ImportError::NoWorks =>
                "the works table is empty and editions link to works by id — run a full import first"@,
            ImportError::NoDump { dump, dir } => "no "@ + dump_prefix(dump) + "*.txt.gz in "@ + dir@
                + " — run `openlibrary download` first"@,
        }
    }

    pub fn message(&self) -> (r: String)
        ensures
            r@ == self.text(),
    {
        match self {
            ImportError::DevWithOnly { only } => {
                let mut r =
                    "--dev selects books by filtering editions, so it cannot be combined with `--only ".to_owned();
                r.append(only.name());
                r.append("`; use `--only editions` or drop --only");
                r
            },
            ImportError::NoWorks =>
                "the works table is empty and editions link to works by id — run a full import first".to_owned(),
            ImportError::NoDump { dump, dir } => {
                let mut r = "no ".to_owned();
                r.append(file_prefix(*dump).as_str());
                r.append("*.txt.gz in ");
                r.append(dir.as_str());
                r.append(" — run `openlibrary download` first");
                r
            },
        }
    }
}

/// The steps of an import, once the tables exist.
pub fn import_plan(only: Option<DumpType>, dev: bool) -> (r: Result<Vec<Step>, ImportError>)
    ensures
        match (r, plan_of(only, dev)) {
            (Ok(steps), Ok(plan)) => steps@ == plan,
            (Err(ImportError::DevWithOnly { only: t }), Err(refused)) => t == refused,
            _ => false,
        },
{
    match only {
        None => Ok(import_all(dev)),
        Some(DumpType::Editions) => Ok(only_editions(dev)),
        Some(t) => if dev {
            Err(ImportError::DevWithOnly { only: t })
        } else if t == DumpType::Authors {
            Ok(only_authors())
        } else {
            Ok(only_works())
        },
    }
}

/// Whether there are works for editions to link to.
pub fn require_works(count: i64) -> (r: Result<(), ImportError>)
    ensures
        count != 0 ==> r is Ok,
        count == 0 ==> r matches Err(ImportError::NoWorks),
{
    if count == 0 {
        Err(ImportError::NoWorks)
    } else {
        Ok(())
    }
}

/// What is printed before a dev import.
pub open spec fn dev_announcement_text() -> Seq<char> {
    "Dev import: up to "@ + decimal(DEV_LIMIT as nat) + " editions published "@ + decimal(
        DEV_MIN_YEAR as nat,
    ) + "+ with covers, plus their works and authors"@
}

pub fn dev_announcement() -> (r: String)
    ensures
        r@ == dev_announcement_text(),
{
    let mut r = "Dev import: up to ".to_owned();
    r.append(u64_to_string(DEV_LIMIT).as_str());
    r.append(" editions published ");
    r.append(u64_to_string(DEV_MIN_YEAR as u64).as_str());
    r.append("+ with covers, plus their works and authors");
    r
}

// ---------------------------------------------------------------------------
// Merging
// ---------------------------------------------------------------------------

/// Whether a table is empty.
pub open spec fn emptiness_text(table: Table) -> Seq<char> {
    "SELECT NOT EXISTS (SELECT 1 FROM "@ + table.spec_name() + ")"@
}

pub fn emptiness_sql(table: Table) -> (r: String)
    ensures
        r@ == emptiness_text(table),
{
    let mut r = "SELECT NOT EXISTS (SELECT 1 FROM ".to_owned();
    r.append(table.name());
    r.append(")");
    r
}

/// What a merge does, in this order: run `drops`, run `update`, run `insert`,
/// then create those of `indexes` that are missing.
#[derive(Debug)]
pub struct MergePlan {
    pub drops: Vec<String>,
    pub update: Option<&'static str>,
    pub insert: Option<String>,
    pub indexes: Vec<Index>,
}

/// Merge staged rows into a table: refresh existing rows (never touching
/// slug or created_at), insert new ones with freshly deduplicated slugs,
/// then ensure indexes. On a first load into an empty table the secondary
/// indexes are dropped for speed; the unique open_library_id indexes stay.
pub fn merge(table: Table, admit_new: bool, empty: bool) -> (r: MergePlan)
    ensures
        r.drops.deep_view() == (if empty {
            secondary_indexes_of(table.spec_name()).map_values(|i: IndexView| drop_text(i))
        } else {
            Seq::empty()
        }),
        r.update.deep_view() == (if empty {
            None
        } else {
            table.update_text()
        }),
        r.insert.deep_view() == (if admit_new {
            Some(table.insert_text())
        } else {
            None
        }),
        index_views(r.indexes@) == indexes_of(table.spec_name()),
{
    let drops: Vec<String> = if empty {
        drop_secondary_indexes(table.name())
    } else {
        let none: Vec<String> = Vec::new();
        assert(none.deep_view() =~= Seq::empty());
        none
    };
    let update = if empty {
        None
    } else {
        table.update_sql()
    };
    let insert = if admit_new {
        Some(table.insert_sql())
    } else {
        None
    };
    MergePlan { drops, update, insert, indexes: create_indexes(table.name()) }
}

pub open spec fn update_label_text(table: Table) -> Seq<char> {
    "updating existing "@ + table.spec_name()
}

pub fn update_label(table: Table) -> (r: String)
    ensures
        r@ == update_label_text(table),
{
    let mut r = "updating existing ".to_owned();
    r.append(table.name());
    r
}

pub open spec fn insert_label_text(table: Table) -> Seq<char> {
    "inserting new "@ + table.spec_name()
}

pub fn insert_label(table: Table) -> (r: String)
    ensures
        r@ == insert_label_text(table),
{
    let mut r = "inserting new ".to_owned();
    r.append(table.name());
    r
}

pub open spec fn index_label_text(table: Table, inserted: u64, updated: u64) -> Seq<char> {
    "indexing "@ + table.spec_name() + " ("@ + decimal(inserted as nat) + " inserted, "@ + decimal(
        updated as nat,
    ) + " updated)"@
}

pub fn index_label(table: Table, inserted: u64, updated: u64) -> (r: String)
    ensures
        r@ == index_label_text(table, inserted, updated),
{
    let mut r = "indexing ".to_owned();
    r.append(table.name());
    r.append(" (");
    r.append(u64_to_string(inserted).as_str());
    r.append(" inserted, ");
    r.append(u64_to_string(updated).as_str());
    r.append(" updated)");
    r
}

/// The statements that refresh the `works.edition_count` counter cache: the
/// counts that are wrong, then the works that have no edition.
pub fn recount_editions() -> (r: [&'static str; 2])
    ensures
        r@[0]@ == RECOUNT_EDITIONS@,
        r@[1]@ == CLEAR_EDITION_COUNTS@,
{
    [RECOUNT_EDITIONS, CLEAR_EDITION_COUNTS]
}

/// The statements that refresh the `authors.works_count` counter cache: the
/// counts that are wrong, then the authors that have no work.
pub fn recount_works() -> (r: [&'static str; 2])
    ensures
        r@[0]@ == RECOUNT_WORKS@,
        r@[1]@ == CLEAR_WORK_COUNTS@,
{
    [RECOUNT_WORKS, CLEAR_WORK_COUNTS]
}

// ---------------------------------------------------------------------------
// Dump files
// ---------------------------------------------------------------------------

/// What the name of a dump file starts with.
pub open spec fn dump_prefix(dump: DumpType) -> Seq<char> {
    "ol_dump_"@ + dump.spec_name() + "_"@
}

fn file_prefix(dump: DumpType) -> (r: String)
    ensures
        r@ == dump_prefix(dump),
{
    let mut r = "ol_dump_".to_owned();
    r.append(dump.name());
    r.append("_");
    r
}

/// Whether a file of this name is a dump of this type.
pub open spec fn names_dump(name: Seq<char>, dump: DumpType) -> bool {
    has_prefix(name, dump_prefix(dump)) && has_suffix(name, ".txt.gz"@)
}

/// An entry of the dump directory.
#[derive(Debug)]
pub struct FileEntry {
    /// The name, if it is Unicode.
    pub name: Option<String>,
    /// When the file was last modified, in nanoseconds since 1970; 0 where the
    /// file system does not say, `None` where the file's metadata cannot be
    /// read.
    pub modified: Option<i128>,
}

impl FileEntry {
    /// Whether the entry is a dump of this type.
    pub open spec fn is_dump(self, dump: DumpType) -> bool {
        &&& self.name matches Some(name) && names_dump(name@, dump)
        &&& self.modified is Some
    }
}

/// Whether entry `at` is the dump of this type to import: the most recently
/// modified one, and the first of those where several are.
pub open spec fn is_newest_dump(entries: Seq<FileEntry>, dump: DumpType, at: int) -> bool {
    &&& 0 <= at < entries.len()
    &&& entries[at].is_dump(dump)
    &&& forall|j: int|
        0 <= j < entries.len() && (#[trigger] entries[j]).is_dump(dump) ==> {
            ||| entries[j].modified->0 < entries[at].modified->0
            ||| entries[j].modified->0 == entries[at].modified->0 && at <= j
        }
}

/// Whether there is no dump of this type.
pub open spec fn has_no_dump(entries: Seq<FileEntry>, dump: DumpType) -> bool {
    forall|j: int| 0 <= j < entries.len() ==> !(#[trigger] entries[j]).is_dump(dump)
}

/// Find the dump file for this type: `ol_dump_<type>_latest.txt.gz` or a
/// dated `ol_dump_<type>_YYYY-MM-DD.txt.gz`. If several are present, the most
/// recently modified wins. `entries` is what the directory `dir` holds.
pub fn find_dump(entries: &Vec<FileEntry>, dir: &str, dump: DumpType) -> (r: Result<
    usize,
    ImportError,
>)
    ensures
        match r {
            Ok(at) => is_newest_dump(entries@, dump, at as int),
            Err(ImportError::NoDump { dump: d, dir: p }) => {
                &&& has_no_dump(entries@, dump)
                &&& d == dump
                &&& p@ == dir@
            },
            Err(_) => false,
        },
{
    let prefix = file_prefix(dump);
    let mut newest: Option<(i128, usize)> = None;
    let mut i: usize = 0;
    while i < entries.len()
        invariant
            i <= entries@.len(),
            prefix@ == dump_prefix(dump),
            match newest {
                Some((t, at)) => {
                    &&& at < i
                    &&& entries@[at as int].modified == Some(t)
                    &&& is_newest_dump(entries@.take(i as int), dump, at as int)
                },
                None => forall|j: int| 0 <= j < i ==> !(#[trigger] entries@[j]).is_dump(dump),
            },
        decreases entries@.len() - i,
    {
        let entry = &entries[i];
        assert(entries@.take(i + 1)[i as int] == *entry);
        assert(forall|j: int| 0 <= j < i ==> entries@.take(i + 1)[j] == entries@[j]);
        assert(forall|j: int| 0 <= j < i ==> entries@.take(i as int)[j] == entries@[j]);
        if let (Some(name), Some(modified)) = (&entry.name, entry.modified) {
            if starts_with(name.as_str(), prefix.as_str()) && ends_with(name.as_str(), ".txt.gz") {
                assert(entry.is_dump(dump));
                let newer = match newest {
                    Some((t, _)) => modified > t,
                    None => true,
                };
                if newer {
                    newest = Some((modified, i));
                }
            }
        }
        i += 1;
    }
    assert(entries@.take(entries@.len() as int) =~= entries@);
    match newest {
        Some((_, at)) => Ok(at),
        None => Err(ImportError::NoDump { dump, dir: dir.to_owned() }),
    }
}

// ---------------------------------------------------------------------------
// What the plans promise
// ---------------------------------------------------------------------------

/// Whether `step` is one of the steps before step `at`.
pub open spec fn done_before(plan: Seq<Step>, at: int, step: Step) -> bool {
    exists|j: int| 0 <= j < at && plan[j] == step
}

/// Whether `step` is one of the steps after step `at`.
pub open spec fn done_after(plan: Seq<Step>, at: int, step: Step) -> bool {
    exists|j: int| at < j < plan.len() && plan[j] == step
}

/// Whether the editions dump is scanned before step `at`.
pub open spec fn editions_staged(plan: Seq<Step>, at: int) -> bool {
    exists|j: int| 0 <= j < at && plan[j] is StageEditions
}

/// Every staging table is created before it is filled, and filled before it is
/// read: a merge reads the rows of its own table, and where it admits new works
/// or authors also the rows that decide which are wanted. The staging tables
/// are dropped at the end.
pub proof fn law_staging_is_ready(only: Option<DumpType>, dev: bool, i: int)
    requires
        plan_of(only, dev) is Ok,
        0 <= i < plan_of(only, dev)->Ok_0.len(),
    ensures
        ({
            let plan = plan_of(only, dev)->Ok_0;
            &&& plan.last() == Step::DropStaging
            &&& match plan[i] {
                Step::StageEditions { .. } => done_before(
                    plan,
                    i,
                    Step::CreateStaging(Staging::Editions),
                ),
                Step::ScanWorks => {
                    &&& done_before(plan, i, Step::CreateStaging(Staging::Works))
                    &&& done_before(plan, i, Step::CreateStaging(Staging::Refs))
                },
                Step::ScanAuthors => done_before(plan, i, Step::CreateStaging(Staging::Authors)),
                Step::Merge { table: Table::Works, admit_new } => {
                    &&& done_before(plan, i, Step::ScanWorks)
                    &&& admit_new ==> editions_staged(plan, i)
                },
                Step::Merge { table: Table::Authors, admit_new } => {
                    &&& done_before(plan, i, Step::ScanAuthors)
                    &&& admit_new ==> done_before(plan, i, Step::ScanWorks)
                    &&& admit_new ==> editions_staged(plan, i)
                },
                Step::Merge { table: Table::Authorships, .. } => done_before(
                    plan,
                    i,
                    Step::ScanWorks,
                ),
                Step::Merge { table: Table::Editions, .. } => editions_staged(plan, i),
                _ => true,
            }
        }),
{
    let plan = plan_of(only, dev)->Ok_0;
    match only {
        None => {
            let o: int = if dev {
                1
            } else {
                0
            };
            assert(plan[o] == Step::CreateStaging(Staging::Authors));
            assert(plan[o + 1] == Step::CreateStaging(Staging::Works));
            assert(plan[o + 2] == Step::CreateStaging(Staging::Editions));
            assert(plan[o + 3] == Step::CreateStaging(Staging::Refs));
            assert(plan[o + 4] is StageEditions);
            assert(plan[o + 5] == Step::ScanWorks);
            assert(plan[o + 7] == Step::ScanAuthors);
        },
        Some(DumpType::Editions) => {
            assert(plan[1] == Step::CreateStaging(Staging::Editions));
            assert(plan[2] is StageEditions);
        },
        Some(DumpType::Authors) => {
            assert(plan[0] == Step::CreateStaging(Staging::Authors));
            assert(plan[1] == Step::ScanAuthors);
        },
        Some(DumpType::Works) => {
            assert(plan[0] == Step::CreateStaging(Staging::Works));
            assert(plan[1] == Step::CreateStaging(Staging::Refs));
            assert(plan[2] == Step::ScanWorks);
        },
    }
}

/// Rows that others refer to are merged first: no plan merges works or authors
/// after authorships, nor works after editions.
pub proof fn law_referenced_rows_come_first(only: Option<DumpType>, dev: bool, i: int, j: int)
    requires
        plan_of(only, dev) is Ok,
        0 <= i < j < plan_of(only, dev)->Ok_0.len(),
    ensures
        ({
            let plan = plan_of(only, dev)->Ok_0;
            &&& plan[i] matches Step::Merge { table: Table::Authorships, .. } ==> !(plan[j] matches
                Step::Merge { table: Table::Authors, .. }) && !(plan[j] matches Step::Merge {
                table: Table::Works,
                ..
            })
            &&& plan[i] matches Step::Merge { table: Table::Editions, .. } ==> !(plan[j] matches
                Step::Merge { table: Table::Works, .. })
        }),
{
}

/// The counter caches are recomputed at the end of each import that can change
/// them: a merge of editions is followed by a recount of editions, a merge of
/// authorships by a recount of works.
pub proof fn law_counts_are_refreshed(only: Option<DumpType>, dev: bool, i: int)
    requires
        plan_of(only, dev) is Ok,
        0 <= i < plan_of(only, dev)->Ok_0.len(),
    ensures
        ({
            let plan = plan_of(only, dev)->Ok_0;
            match plan[i] {
                Step::Merge { table: Table::Editions, .. } => done_after(
                    plan,
                    i,
                    Step::RecountEditions,
                ),
                Step::Merge { table: Table::Authorships, .. } => done_after(
                    plan,
                    i,
                    Step::RecountWorks,
                ),
                _ => true,
            }
        }),
{
    let plan = plan_of(only, dev)->Ok_0;
    match only {
        None => {
            let o: int = if dev {
                1
            } else {
                0
            };
            assert(plan[o + 11] == Step::RecountEditions);
            assert(plan[o + 12] == Step::RecountWorks);
        },
        Some(DumpType::Editions) => {
            assert(plan[4] == Step::RecountEditions);
        },
        Some(DumpType::Authors) => {},
        Some(DumpType::Works) => {
            assert(plan[5] == Step::RecountWorks);
        },
    }
}

/// An import of one dump type never admits new works or authors, so it can
/// never re-bloat the database.
pub proof fn law_partial_import_admits_no_works_or_authors(only: DumpType, dev: bool, i: int)
    requires
        plan_of(Some(only), dev) is Ok,
        0 <= i < plan_of(Some(only), dev)->Ok_0.len(),
    ensures
        plan_of(Some(only), dev)->Ok_0[i] matches Step::Merge { table, admit_new } ==> (table
            == Table::Works || table == Table::Authors) ==> !admit_new,
{
}

/// `--only authors` leaves works, authorships, editions and counts untouched.
pub proof fn law_only_authors_touches_authors(i: int)
    requires
        0 <= i < plan_of(Some(DumpType::Authors), false)->Ok_0.len(),
    ensures
        plan_of(Some(DumpType::Authors), false) is Ok,
        ({
            let step = plan_of(Some(DumpType::Authors), false)->Ok_0[i];
            &&& step matches Step::Merge { table, .. } ==> table == Table::Authors
            &&& step != Step::RecountEditions && step != Step::RecountWorks
        }),
{
}

/// `--only works` leaves editions and their counts untouched, and authors but
/// for their counts.
pub proof fn law_only_works_leaves_editions(i: int)
    requires
        0 <= i < plan_of(Some(DumpType::Works), false)->Ok_0.len(),
    ensures
        plan_of(Some(DumpType::Works), false) is Ok,
        ({
            let step = plan_of(Some(DumpType::Works), false)->Ok_0[i];
            &&& step matches Step::Merge { table, .. } ==> table == Table::Works || table
                == Table::Authorships
            &&& step != Step::RecountEditions
        }),
{
}

/// `--only editions` starts by making sure that there are works, and merges
/// nothing but editions.
pub proof fn law_only_editions_needs_works(dev: bool, i: int)
    requires
        0 <= i < plan_of(Some(DumpType::Editions), dev)->Ok_0.len(),
    ensures
        plan_of(Some(DumpType::Editions), dev) is Ok,
        plan_of(Some(DumpType::Editions), dev)->Ok_0[0] == Step::RequireWorks,
        plan_of(Some(DumpType::Editions), dev)->Ok_0[i] matches Step::Merge { table, .. } ==> table
            == Table::Editions,
{
}

/// Refreshing an existing row never touches its slug or its created_at, and
/// bumps its updated_at.
pub proof fn law_updates_keep_slug_and_creation(table: Table)
    ensures
        table.update_text() matches Some(sql) ==> keeps_slug_and_creation(sql),
{
    lemma_update_authors();
    lemma_update_works();
    lemma_update_editions();
}

/// What a download saves, an import finds: the file of a dump from either
/// source is taken for a dump of its type.
pub proof fn law_downloads_are_found(source: Source, dump: DumpType)
    ensures
        names_dump(source.spec_filename(dump), dump),
{
    let name = source.spec_filename(dump);
    let prefix = dump_prefix(dump);
    reveal_strlit("_latest.txt.gz");
    reveal_strlit(".txt.gz");
    reveal_strlit("_");
    assert(name.subrange(0, prefix.len() as int) =~= prefix);
    assert(name.subrange(name.len() - 7, name.len() as int) =~= ".txt.gz"@);
}

/// No file is taken for a dump of two types.
pub proof fn law_dump_types_are_told_apart(name: Seq<char>, a: DumpType, b: DumpType)
    requires
        names_dump(name, a),
        names_dump(name, b),
    ensures
        a == b,
{
    reveal_strlit("ol_dump_");
    reveal_strlit("authors");
    reveal_strlit("editions");
    reveal_strlit("works");
    let p = dump_prefix(a);
    let q = dump_prefix(b);
    assert(p[8] == name.subrange(0, p.len() as int)[8]);
    assert(q[8] == name.subrange(0, q.len() as int)[8]);
}

} // verus!
