//! Two-way synchronisation of a file or a directory between two users:
//! the plan of each file and what a run reports.
use vstd::prelude::*;

use crate::copy::{spec_copy_report, copy_report};
use crate::text::{concat_str, ensure_trailing, spec_with_trailing};

verus! {

/// One file of a synchronisation.
#[derive(Debug, Clone, PartialEq, Eq)]
pub struct SyncItem {
    pub src_path: String,
    pub dst_path: String,
    /// Nothing changed: the item is reported as skipped.
    pub skip: bool,
    /// The destination is copied back to the source.
    pub reverse: bool,
    /// The version to record for the destination, when already known.
    pub ts: Option<i64>,
}

impl SyncItem {
    /// A forward copy with nothing known yet.
    pub fn new(src_path: String, dst_path: String) -> (it: SyncItem)
        ensures
            it == (SyncItem { src_path, dst_path, skip: false, reverse: false, ts: None }),
    {
        SyncItem { src_path, dst_path, skip: false, reverse: false, ts: None }
    }

    pub fn with_ts(self, ts: i64) -> (it: SyncItem)
        ensures
            it == (SyncItem { ts: Some(ts), ..self }),
    {
        SyncItem { ts: Some(ts), ..self }
    }

    pub fn skipped(self) -> (it: SyncItem)
        ensures
            it == (SyncItem { skip: true, ..self }),
    {
        SyncItem { skip: true, ..self }
    }

    pub fn reversed(self) -> (it: SyncItem)
        ensures
            it == (SyncItem { reverse: true, ..self }),
    {
        SyncItem { reverse: true, ..self }
    }
}

/// What the destination file turned out to be.
#[derive(Debug, Clone, PartialEq, Eq)]
pub enum DstFile {
    /// There is no such file.
    NotFound,
    /// The file exists under `path`, with its modification time when known.
    Found { path: String, mtime: Option<u32> },
    /// It could not be examined.
    Failed,
}

/// Why a file cannot be planned.
#[derive(Debug, Clone, Copy, PartialEq, Eq, Structural)]
pub enum SyncError {
    /// The destination has no modification time (`get version fail`).
    NoVersion,
    /// The destination could not be examined.
    Probe,
}

/// The plan of one file (see [`plan_file`]).
pub open spec fn spec_plan_file(src_path: String, dst_path: String, dst: DstFile, recorded: Option<i64>, dry_run: bool) -> Result<SyncItem, SyncError> {
match dst {
        DstFile::NotFound => Ok::<SyncItem, SyncError>(SyncItem::spec_new(src_path, dst_path)),
        DstFile::Failed => Err::<SyncItem, SyncError>(SyncError::Probe),
        DstFile::Found { path, mtime: None } => Err::<SyncItem, SyncError>(SyncError::NoVersion),
        DstFile::Found { path, mtime: Some(m) } => Ok::<SyncItem, SyncError>(
            SyncItem {
                src_path,
                dst_path: path,
                skip: recorded == Some(m as i64),
                reverse: true,
                ts: if recorded != Some(m as i64) && !dry_run {
                    Some(m as i64)
                } else {
                    None
                },
            },
        ),
    }
}

/// The plan of one file: a missing destination is written from the source;
/// an existing one is copied back to the source, reported as skipped when its
/// version is the one recorded (`recorded`), and its version is kept unless
/// this is a dry run.
pub fn plan_file(src_path: String, dst_path: String, dst: DstFile, recorded: Option<i64>, dry_run: bool) -> (r:
    Result<SyncItem, SyncError>)
    ensures
        r == spec_plan_file(src_path, dst_path, dst, recorded, dry_run),
{
    match dst {
        DstFile::NotFound => Ok(SyncItem::new(src_path, dst_path)),
        DstFile::Failed => Err(SyncError::Probe),
        DstFile::Found { path, mtime } => {
            match mtime {
                None => Err(SyncError::NoVersion),
                Some(m) => {
                    let ts = m as i64;
                    let mut item = SyncItem::new(src_path, path).reversed();
                    let same = match recorded {
                        Some(c) => c == ts,
                        None => false,
                    };
                    if same {
                        item = item.skipped();
                    } else if !dry_run {
                        item = item.with_ts(ts);
                    }
                    Ok(item)
                },
            }
        },
    }
}

impl SyncItem {
    pub open spec fn spec_new(src_path: String, dst_path: String) -> SyncItem {
        SyncItem { src_path, dst_path, skip: false, reverse: false, ts: None }
    }
}

/// The directories of a synchronisation, each ending with `/`.
pub fn dir_roots(src_dir: &str, dst_path: &str) -> (r: (String, String))
    ensures
        r.0@ == spec_with_trailing(src_dir@, '/'),
        r.1@ == spec_with_trailing(dst_path@, '/'),
{
    let mut s = src_dir.to_owned();
    ensure_trailing(&mut s, '/');
    let mut d = dst_path.to_owned();
    ensure_trailing(&mut d, '/');
    (s, d)
}

/// The source and destination paths of the files of a directory: each name
/// under both roots.
pub fn file_pairs(src_root: &str, dst_root: &str, names: &Vec<String>) -> (v: Vec<(String, String)>)
    ensures
        v@.len() == names@.len(),
        forall|i: int|
            0 <= i < names@.len() ==> (#[trigger] v@[i]).0@ == src_root@ + names@[i]@ && v@[i].1@
                == dst_root@ + names@[i]@,
{
    let mut v: Vec<(String, String)> = Vec::new();
    let mut i: usize = 0;
    while i < names.len()
        invariant
            i <= names@.len(),
            v@.len() == i,
            forall|k: int|
                0 <= k < i ==> (#[trigger] v@[k]).0@ == src_root@ + names@[k]@ && v@[k].1@
                    == dst_root@ + names@[k]@,
        decreases names@.len() - i,
    {
        let s = concat_str(src_root, names[i].as_str());
        let d = concat_str(dst_root, names[i].as_str());
        v.push((s, d));
        i = i + 1;
    }
    v
}

/// An empty source directory is filled from the destination: each file of the
/// destination (`listing`: name and version) is copied back, with its version.
pub fn pull_items(src_root: &str, dst_root: &str, listing: &Vec<(String, i64)>) -> (v: Vec<SyncItem>)
    ensures
        v@.len() == listing@.len(),
        forall|i: int|
            0 <= i < listing@.len() ==> {
                let it = #[trigger] v@[i];
                &&& it.src_path@ == src_root@ + listing@[i].0@
                &&& it.dst_path@ == dst_root@ + listing@[i].0@
                &&& !it.skip
                &&& it.reverse
                &&& it.ts == Some(listing@[i].1)
            },
{
    let mut v: Vec<SyncItem> = Vec::new();
    let mut i: usize = 0;
    while i < listing.len()
        invariant
            i <= listing@.len(),
            v@.len() == i,
            forall|k: int|
                0 <= k < i ==> {
                    let it = #[trigger] v@[k];
                    &&& it.src_path@ == src_root@ + listing@[k].0@
                    &&& it.dst_path@ == dst_root@ + listing@[k].0@
                    &&& !it.skip
                    &&& it.reverse
                    &&& it.ts == Some(listing@[k].1)
                },
        decreases listing@.len() - i,
    {
        let s = concat_str(src_root, listing[i].0.as_str());
        let d = concat_str(dst_root, listing[i].0.as_str());
        let item = SyncItem::new(s, d).with_ts(listing[i].1).reversed();
        v.push(item);
        i = i + 1;
    }
    v
}

/// A synchronisation changed something when one of its files was not skipped.
pub open spec fn spec_changed(items: Seq<SyncItem>) -> bool {
    exists|i: int| 0 <= i < items.len() && !(#[trigger] items[i]).skip
}

/// Whether a synchronisation changed something (its result).
pub fn changed(items: &Vec<SyncItem>) -> (r: bool)
    ensures
        r == spec_changed(items@),
{
    let mut i: usize = 0;
    while i < items.len()
        invariant
            i <= items@.len(),
            forall|k: int| 0 <= k < i ==> (#[trigger] items@[k]).skip,
        decreases items@.len() - i,
    {
        if !items[i].skip {
            return true;
        }
        i = i + 1;
    }
    false
}

/// The version recorded for a destination after its file was copied: the one
/// the plan knew, or else the one read afterwards.
pub fn recorded_version(known: Option<i64>, fetched: Option<u32>) -> (r: Result<i64, SyncError>)
    ensures
        r == (match (known, fetched) {
            (Some(t), _) => Ok::<i64, SyncError>(t),
            (None, Some(m)) => Ok(m as i64),
            (None, None) => Err(SyncError::NoVersion),
        }),
{
    match known {
        Some(t) => Ok(t),
        None => match fetched {
            Some(m) => Ok(m as i64),
            None => Err(SyncError::NoVersion),
        },
    }
}

/// A second synchronisation with nothing changed does nothing: a destination
/// whose version is the one recorded by the first run is skipped, so the run
/// reports no change.
pub proof fn law_unchanged_file_is_skipped(
    src_path: String,
    dst_path: String,
    path: String,
    m: u32,
    dry_run: bool,
)
    ensures
        spec_plan_file(src_path, dst_path, DstFile::Found { path, mtime: Some(m) }, Some(m as i64), dry_run) matches Ok(item) && item.skip && !spec_changed(seq![item]),
{
    let r = spec_plan_file(src_path, dst_path, DstFile::Found { path, mtime: Some(m) }, Some(m as i64), dry_run);
    let item = r->Ok_0;
    assert(seq![item][0] == item);
}

/// A destination whose version differs from the recorded one is copied back
/// and reported as a change.
pub proof fn law_changed_destination_is_pulled(
    src_path: String,
    dst_path: String,
    path: String,
    m: u32,
    recorded: Option<i64>,
)
    requires
        recorded != Some(m as i64),
    ensures
        spec_plan_file(src_path, dst_path, DstFile::Found { path, mtime: Some(m) }, recorded, false) matches Ok(item) && item.reverse && item.ts == Some(m as i64) && spec_changed(seq![item]),
{
    let r = spec_plan_file(src_path, dst_path, DstFile::Found { path, mtime: Some(m) }, recorded, false);
    let item = r->Ok_0;
    assert(seq![item][0] == item);
}

/// The line that reports one file of a synchronisation: the file is shown
/// in the direction it went.
pub fn sync_report(item: &SyncItem, src_uid: &str, dst_uid: &str, dry_run: bool) -> (m: String)
    ensures
        item.reverse ==> m@ == spec_copy_report(dry_run, !item.skip, false, dst_uid@, item.dst_path@, src_uid@, item.src_path@),
        !item.reverse ==> m@ == spec_copy_report(dry_run, !item.skip, false, src_uid@, item.src_path@, dst_uid@, item.dst_path@),
{
    if item.reverse {
        copy_report(dry_run, !item.skip, false, dst_uid, item.dst_path.as_str(), src_uid, item.src_path.as_str())
    } else {
        copy_report(dry_run, !item.skip, false, src_uid, item.src_path.as_str(), dst_uid, item.dst_path.as_str())
    }
}

/// A destination that does not exist is re-created from the source, whatever
/// version is recorded for it and whether or not this is a dry run: a sync
/// never copies from a file that does not exist.
pub proof fn law_missing_destination_is_pushed(
    src_path: String,
    dst_path: String,
    recorded: Option<i64>,
    dry_run: bool,
)
    ensures
        spec_plan_file(src_path, dst_path, DstFile::NotFound, recorded, dry_run) == Ok::<SyncItem, SyncError>(
            SyncItem { src_path, dst_path, skip: false, reverse: false, ts: None },
        ),
{
}

/// An existing destination is always copied back to the source, never
/// overwritten from it; it is skipped exactly when its version is the one
/// recorded.
pub proof fn law_existing_destination_is_pulled(
    src_path: String,
    dst_path: String,
    path: String,
    m: u32,
    recorded: Option<i64>,
    dry_run: bool,
)
    ensures
        spec_plan_file(src_path, dst_path, DstFile::Found { path, mtime: Some(m) }, recorded, dry_run) matches Ok(
            item,
        ) && item.reverse && item.src_path == src_path && item.dst_path == path && (item.skip <==> recorded == Some(
            m as i64,
        )),
{
}

/// A destination that cannot be examined, or has no version, stops the
/// sync with an error rather than being planned.
pub proof fn law_unknown_destination_fails(
    src_path: String,
    dst_path: String,
    path: String,
    recorded: Option<i64>,
    dry_run: bool,
)
    ensures
        spec_plan_file(src_path, dst_path, DstFile::Failed, recorded, dry_run) == Err::<SyncItem, SyncError>(
            SyncError::Probe,
        ),
        spec_plan_file(src_path, dst_path, DstFile::Found { path, mtime: None }, recorded, dry_run) == Err::<
            SyncItem,
            SyncError,
        >(SyncError::NoVersion),
{
}

/// A dry run plans the same files in the same direction, skipped alike, so
/// it answers as the real run would; it only records no version.
pub proof fn law_dry_run_plans_the_same(
    src_path: String,
    dst_path: String,
    dst: DstFile,
    recorded: Option<i64>,
)
    ensures
        ({
            let live = spec_plan_file(src_path, dst_path, dst, recorded, false);
            let dry = spec_plan_file(src_path, dst_path, dst, recorded, true);
            &&& (live is Ok <==> dry is Ok)
            &&& live is Err ==> live == dry
            &&& (live matches Ok(a) ==> (dry matches Ok(b) && a.src_path == b.src_path && a.dst_path == b.dst_path
                && a.skip == b.skip && a.reverse == b.reverse && b.ts is None))
        }),
{
}

/// What a synchronisation does with a source directory, once its files are
/// listed.
#[derive(Debug, Clone, PartialEq, Eq)]
pub enum SyncDirStep {
    /// The source directory is empty: it is filled from the destination, every
    /// file of which is copied back (see [`pull_items`]).
    Pull,
    /// Each file of the source, with its path under the destination, is
    /// planned on its own (see [`plan_file`]).
    Files(Vec<(String, String)>),
}

/// What a synchronisation does with a source directory whose files are
/// `names`: an empty directory is filled from the destination; otherwise each
/// file goes under both roots.
pub fn sync_dir_step(src_root: &str, dst_root: &str, names: &Vec<String>) -> (st: SyncDirStep)
    ensures
        names@.len() == 0 <==> st is Pull,
        st matches SyncDirStep::Files(v) ==> v@.len() == names@.len() && forall|i: int|
            0 <= i < names@.len() ==> (#[trigger] v@[i]).0@ == src_root@ + names@[i]@ && v@[i].1@
                == dst_root@ + names@[i]@,
{
    if names.len() == 0 {
        SyncDirStep::Pull
    } else {
        SyncDirStep::Files(file_pairs(src_root, dst_root, names))
    }
}

/// The copy to perform for one file of a synchronisation: from `from` to
/// `to`; then the destination's version is recorded: `known` when the plan
/// knew it, else the one read after the copy (see [`recorded_version`]).
#[derive(Debug, Clone, PartialEq, Eq)]
pub struct SyncCopy {
    pub from: String,
    pub to: String,
    pub known: Option<i64>,
}

/// What to perform for one planned file: nothing in a dry run (no copy, no
/// version read, no record); otherwise the copy in the item's direction, a
/// skipped item included, and then the record.
pub fn sync_step(item: &SyncItem, dry_run: bool) -> (r: Option<SyncCopy>)
    ensures
        r is None <==> dry_run,
        r matches Some(c) ==> c.known == item.ts && if item.reverse {
            c.from@ == item.dst_path@ && c.to@ == item.src_path@
        } else {
            c.from@ == item.src_path@ && c.to@ == item.dst_path@
        },
{
    if dry_run {
        None
    } else if item.reverse {
        Some(SyncCopy { from: item.dst_path.clone(), to: item.src_path.clone(), known: item.ts })
    } else {
        Some(SyncCopy { from: item.src_path.clone(), to: item.dst_path.clone(), known: item.ts })
    }
}

} // verus!
