//! The copy task's check: which files of the configured pairs need copying,
//! judged by the versions recorded for their destinations.
use vstd::prelude::*;

use crate::copy::{join_slash, spec_join_slash};
use crate::task::{CopyInner, Target, TaskError};

verus! {

/// A file and its version (its modification time).
#[derive(Debug, Clone, PartialEq, Eq)]
pub struct Metadata {
    pub path: String,
    pub ts: u64,
}

/// What a source path turned out to be.
#[derive(Debug, Clone, PartialEq, Eq)]
pub enum CheckInfo {
    /// A single file.
    File(Metadata),
    /// A directory and its files, named relative to it.
    Dir { path: String, files: Vec<Metadata> },
}

/// One file to copy, and the version it carries.
#[derive(Debug, Clone, PartialEq, Eq)]
pub struct CopyItem {
    pub src: String,
    pub dst: String,
    pub version: u64,
}

/// Abstract copy item: source, destination and version.
pub type ItemView = (Seq<char>, Seq<char>, u64);

pub open spec fn item_view(c: CopyItem) -> ItemView {
    (c.src@, c.dst@, c.version)
}

pub open spec fn items_view(v: Seq<CopyItem>) -> Seq<ItemView> {
    Seq::new(v.len(), |i: int| item_view(v[i]))
}

/// The files that a source brings to `dst`: a file goes to `dst` itself; the
/// files of a directory go to `dst/name`, read from `dir/name`.
pub open spec fn spec_candidates(info: CheckInfo, dst: Seq<char>) -> Seq<ItemView> {
    match info {
        CheckInfo::File(m) => seq![(m.path@, dst, m.ts)],
        CheckInfo::Dir { path, files } => Seq::new(
            files@.len(),
            |i: int|
                (
                    spec_join_slash(path@, files@[i].path@),
                    spec_join_slash(dst, files@[i].path@),
                    files@[i].ts,
                ),
        ),
    }
}

/// The files that one source brings to `dst`.
pub fn copy_candidates(info: &CheckInfo, dst: &String) -> (v: Vec<CopyItem>)
    ensures
        items_view(v@) == spec_candidates(*info, dst@),
{
    match info {
        CheckInfo::File(m) => {
            let v = vec![CopyItem { src: m.path.clone(), dst: dst.clone(), version: m.ts }];
            assert(items_view(v@) =~= spec_candidates(*info, dst@));
            v
        },
        CheckInfo::Dir { path, files } => {
            let mut v: Vec<CopyItem> = Vec::new();
            let mut i: usize = 0;
            while i < files.len()
                invariant
                    i <= files@.len(),
                    *info == (CheckInfo::Dir { path: *path, files: *files }),
                    items_view(v@) == spec_candidates(*info, dst@).take(i as int),
                decreases files@.len() - i,
            {
                let f = &files[i];
                let item = CopyItem {
                    src: join_slash(path.as_str(), f.path.as_str()),
                    dst: join_slash(dst.as_str(), f.path.as_str()),
                    version: f.ts,
                };
                let ghost c = spec_candidates(*info, dst@);
                assert(c.len() == files@.len());
                assert(c[i as int] == (spec_join_slash(path@, files@[i as int].path@), spec_join_slash(dst@, files@[i as int].path@), files@[i as int].ts));
                assert(item_view(item) == c[i as int]);
                let ghost before = items_view(v@);
                v.push(item);
                assert(items_view(v@) =~= before.push(item_view(item)));
                assert(c.take(i + 1) =~= c.take(i as int).push(c[i as int]));
                assert(items_view(v@) =~= spec_candidates(*info, dst@).take(i + 1));
                i = i + 1;
            }
            assert(items_view(v@) =~= spec_candidates(*info, dst@));
            v
        },
    }
}

/// The candidates of all pairs, in order: each source is paired with the
/// result of examining it.
pub open spec fn spec_plan(dsts: Seq<Seq<char>>, infos: Seq<CheckInfo>) -> Seq<ItemView>
    decreases infos.len(),
{
    if infos.len() == 0 || dsts.len() < infos.len() {
        seq![]
    } else {
        let k = infos.len() - 1;
        spec_plan(dsts.take(k), infos.take(k)) + spec_candidates(infos[k], dsts[k])
    }
}

/// The destinations of the pairs.
pub open spec fn pair_dsts(pairs: Seq<(String, String)>) -> Seq<Seq<char>> {
    Seq::new(pairs.len(), |i: int| pairs[i].1@)
}

/// The candidates of all pairs; `infos[i]` is what the source of `pairs[i]` turned out to be.
pub fn copy_plan(pairs: &Vec<(String, String)>, infos: &Vec<CheckInfo>) -> (v: Vec<CopyItem>)
    requires
        infos@.len() == pairs@.len(),
    ensures
        items_view(v@) == spec_plan(pair_dsts(pairs@), infos@),
{
    let mut v: Vec<CopyItem> = Vec::new();
    let mut i: usize = 0;
    while i < infos.len()
        invariant
            i <= infos@.len(),
            infos@.len() == pairs@.len(),
            items_view(v@) == spec_plan(pair_dsts(pairs@).take(i as int), infos@.take(i as int)),
        decreases infos@.len() - i,
    {
        let mut more = copy_candidates(&infos[i], &pairs[i].1);
        let ghost a = items_view(v@);
        let ghost b = items_view(more@);
        v.append(&mut more);
        proof {
            let d = pair_dsts(pairs@).take(i + 1);
            let f = infos@.take(i + 1);
            assert(d.take(i as int) =~= pair_dsts(pairs@).take(i as int));
            assert(f.take(i as int) =~= infos@.take(i as int));
            assert(f[i as int] == infos@[i as int]);
            assert(d[i as int] == pairs@[i as int].1@);
            assert(items_view(v@) =~= a + b);
        }
        i = i + 1;
    }
    assert(pair_dsts(pairs@).take(infos@.len() as int) =~= pair_dsts(pairs@));
    assert(infos@.take(infos@.len() as int) =~= infos@);
    v
}

/// A file needs copying unless the version recorded for its destination is its own.
pub open spec fn spec_needs_update(recorded: Option<u64>, version: u64) -> bool {
    recorded != Some(version)
}

/// Whether a file needs copying.
pub fn needs_update(recorded: Option<u64>, version: u64) -> (r: bool)
    ensures
        r == spec_needs_update(recorded, version),
{
    match recorded {
        Some(v) => v != version,
        None => true,
    }
}

/// The candidates whose destinations need updating, in order.
pub open spec fn spec_select(items: Seq<ItemView>, recorded: Seq<Option<u64>>) -> Seq<ItemView>
    decreases items.len(),
{
    if items.len() == 0 || recorded.len() < items.len() {
        seq![]
    } else {
        let k = items.len() - 1;
        let prev = spec_select(items.take(k), recorded.take(k));
        if spec_needs_update(recorded[k], items[k].2) {
            prev.push(items[k])
        } else {
            prev
        }
    }
}

/// Keeps the candidates that need copying; `recorded[i]` is the version
/// recorded for the destination of `items[i]`.
pub fn select_updates(items: Vec<CopyItem>, recorded: &Vec<Option<u64>>) -> (v: Vec<CopyItem>)
    requires
        recorded@.len() == items@.len(),
    ensures
        items_view(v@) == spec_select(items_view(items@), recorded@),
{
    let mut v: Vec<CopyItem> = Vec::new();
    let mut i: usize = 0;
    let n = items.len();
    let ghost all = items_view(items@);
    let mut rest = items;
    let ghost orig = rest@;
    while i < n
        invariant
            n == orig.len(),
            i <= n,
            recorded@.len() == n,
            all == items_view(orig),
            rest@ == orig.subrange(i as int, n as int),
            items_view(v@) == spec_select(all.take(i as int), recorded@.take(i as int)),
        decreases n - i,
    {
        let item = rest.remove(0);
        assert(rest@ =~= orig.subrange(i + 1, n as int));
        proof {
            assert(item == orig[i as int]);
            let a = all.take(i + 1);
            let r = recorded@.take(i + 1);
            assert(a.take(i as int) =~= all.take(i as int));
            assert(r.take(i as int) =~= recorded@.take(i as int));
            assert(a[i as int] == item_view(item));
            assert(r[i as int] == recorded@[i as int]);
        }
        if needs_update(recorded[i], item.version) {
            let ghost before = items_view(v@);
            v.push(item);
            assert(items_view(v@) =~= before.push(item_view(item)));
        }
        i = i + 1;
    }
    assert(all.take(n as int) =~= all);
    assert(recorded@.take(n as int) =~= recorded@);
    v
}

/// A destination whose recorded version is the version at hand is skipped:
/// after a copy records its version, checking the same file again selects nothing.
pub proof fn law_recorded_version_is_skipped(item: ItemView)
    ensures
        spec_select(seq![item], seq![Some(item.2)]) == Seq::<ItemView>::empty(),
{
    let s = seq![item];
    let r = seq![Some(item.2)];
    assert(s.take(0) =~= Seq::<ItemView>::empty());
    assert(r.take(0) =~= Seq::<Option<u64>>::empty());
    assert(spec_select(s.take(0), r.take(0)) =~= Seq::<ItemView>::empty());
}

/// The copy task's check: the source and destination users, which
/// the task needs, and the candidates of all its pairs; `infos[i]` is what the
/// source of the `i`-th pair turned out to be. The candidates are then narrowed
/// with [`select_updates`] to those whose destinations need copying.
pub fn check(target: &Target, inner: &CopyInner, infos: &Vec<CheckInfo>) -> (r: Result<
    (String, String, Vec<CopyItem>),
    TaskError,
>)
    requires
        infos@.len() == inner.pair@.len(),
    ensures
        match (target.src_uid, target.dst_uid) {
            (Some(s), Some(d)) => r matches Ok((rs, rd, items)) && rs == s && rd == d
                && items_view(items@) == spec_plan(pair_dsts(inner.pair@), infos@),
            (None, _) => r == Err::<(String, String, Vec<CopyItem>), TaskError>(
                TaskError::MissingSrcUid,
            ),
            (Some(_), None) => r == Err::<(String, String, Vec<CopyItem>), TaskError>(
                TaskError::MissingDstUid,
            ),
        },
{
    let (src_uid, dst_uid) = match target.get_uid() {
        Ok(p) => p,
        Err(e) => return Err(e),
    };
    let items = copy_plan(&inner.pair, infos);
    Ok((src_uid.clone(), dst_uid.clone(), items))
}

/// The version recorded in `cache` (destination path and version, as the
/// cache holds them) for `dst`: the first entry for that path, from `i` on.
pub open spec fn spec_recorded(cache: Seq<(String, u64)>, dst: Seq<char>, i: int) -> Option<u64>
    decreases cache.len() - i,
{
    if i < 0 || i >= cache.len() {
        None
    } else if cache[i].0@ == dst {
        Some(cache[i].1)
    } else {
        spec_recorded(cache, dst, i + 1)
    }
}

/// The version recorded in `cache` for `dst`, if any.
pub fn recorded_for(cache: &Vec<(String, u64)>, dst: &str) -> (r: Option<u64>)
    ensures
        r == spec_recorded(cache@, dst@, 0),
{
    let mut i: usize = 0;
    while i < cache.len()
        invariant
            i <= cache@.len(),
            spec_recorded(cache@, dst@, 0) == spec_recorded(cache@, dst@, i as int),
        decreases cache@.len() - i,
    {
        if crate::text::str_eq(cache[i].0.as_str(), dst) {
            return Some(cache[i].1);
        }
        i = i + 1;
    }
    None
}

/// The versions recorded for the destinations of `items`, in order.
pub open spec fn spec_recorded_all(cache: Seq<(String, u64)>, items: Seq<ItemView>) -> Seq<Option<u64>> {
    Seq::new(items.len(), |i: int| spec_recorded(cache, items[i].1, 0))
}

/// The copy task's check followed by the selection: the source and
/// destination users, and the candidates whose destinations need copying
/// given the versions recorded in `cache`, in order.
pub fn check_updates(target: &Target, inner: &CopyInner, infos: &Vec<CheckInfo>, cache: &Vec<(String, u64)>) -> (r: Result<
    (String, String, Vec<CopyItem>),
    TaskError,
>)
    requires
        infos@.len() == inner.pair@.len(),
    ensures
        match (target.src_uid, target.dst_uid) {
            (Some(s), Some(d)) => r matches Ok((rs, rd, items)) && rs == s && rd == d
                && items_view(items@) == spec_select(
                    spec_plan(pair_dsts(inner.pair@), infos@),
                    spec_recorded_all(cache@, spec_plan(pair_dsts(inner.pair@), infos@)),
                ),
            (None, _) => r == Err::<(String, String, Vec<CopyItem>), TaskError>(
                TaskError::MissingSrcUid,
            ),
            (Some(_), None) => r == Err::<(String, String, Vec<CopyItem>), TaskError>(
                TaskError::MissingDstUid,
            ),
        },
{
    let (src_uid, dst_uid, items) = match check(target, inner, infos) {
        Ok(t) => t,
        Err(e) => return Err(e),
    };
    let ghost plan = items_view(items@);
    let mut recorded: Vec<Option<u64>> = Vec::new();
    let mut i: usize = 0;
    while i < items.len()
        invariant
            i <= items@.len(),
            plan == items_view(items@),
            recorded@.len() == i,
            forall|k: int| 0 <= k < i ==> #[trigger] recorded@[k] == spec_recorded(cache@, plan[k].1, 0),
        decreases items@.len() - i,
    {
        recorded.push(recorded_for(cache, items[i].dst.as_str()));
        i = i + 1;
    }
    assert(recorded@ =~= spec_recorded_all(cache@, plan));
    let selected = select_updates(items, &recorded);
    Ok((src_uid, dst_uid, selected))
}

} // verus!
