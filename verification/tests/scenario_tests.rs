//! The copy and sync scenarios, replayed through the library's decisions with
//! explicit versions in place of a file system.
use dv4rune::copy::{
    copy_destination, copy_target, decide_copy, slash_pairs, versions_after_copy, CopyContext,
    CopyDecision, CopyTarget,
};
use dv4rune::registry::Registry;
use dv4rune::sync::{
    changed, dir_roots, plan_file, pull_items, sync_dir_step, sync_step, DstFile, SyncDirStep,
};

fn s(x: &str) -> String {
    x.to_string()
}

/// The one local user `this`.
fn users() -> Registry {
    let mut r = Registry::new();
    r.add_user("this", None, false).unwrap();
    r
}

fn context() -> CopyContext {
    let (ctx, invalid) = CopyContext::new(&users(), false, "this", "this", Some("o")).unwrap();
    assert!(!invalid);
    ctx
}

/// One copy run over the given files: `(src, dst, src_ts, dst_ts)`; returns
/// whether something was copied and the versions recorded.
fn copy_run(
    ctx: &CopyContext,
    files: &[(String, String, i64, Option<i64>)],
    cache: &mut Vec<(String, (i64, i64))>,
    written: i64,
) -> bool {
    let mut done = false;
    for (_src, dst, src_ts, dst_ts) in files {
        let recorded = cache.iter().find(|(p, _)| p == dst).map(|(_, v)| *v);
        match ctx.check_copy_file(recorded, *src_ts, *dst_ts) {
            CopyDecision::Do { copy: true, reverse } => {
                let v = versions_after_copy(reverse, *src_ts, *dst_ts, Some(written)).unwrap();
                cache.retain(|(p, _)| p != dst);
                cache.push((dst.clone(), v));
                done = true;
            }
            CopyDecision::Do { copy: false, .. } => {}
            other => panic!("unexpected question {:?}", other),
        }
    }
    done
}

fn copy_dir_fixture(src: &str, dst: &str) {
    let ctx = context();
    // `src` is a directory, named with or without a trailing slash
    let (src_dir, dst_dir) = match copy_target(src, dst, true) {
        CopyTarget::Dir { src_dir, dst_dir } => (src_dir, dst_dir),
        other => panic!("expected a directory copy, got {:?}", other),
    };
    let pairs = slash_pairs(&src_dir, &dst_dir, &vec![s("f0"), s("f1")]);
    assert_eq!(pairs[0], (s("src/f0"), s("dst/f0")));
    assert_eq!(pairs[1], (s("src/f1"), s("dst/f1")));
    let files: Vec<_> = pairs.into_iter().map(|(a, b)| (a, b, 100, None)).collect();
    let mut cache = vec![];
    assert!(copy_run(&ctx, &files, &mut cache, 200), "copy should success");
    assert_eq!(cache, vec![(s("dst/f0"), (100, 200)), (s("dst/f1"), (100, 200))]);
}

#[test]
fn copy_dir() {
    copy_dir_fixture("src/", "dst");
    copy_dir_fixture("src/", "dst/");
    copy_dir_fixture("src", "dst");
    copy_dir_fixture("src", "dst");
}

fn copy_file_fixture(dst: &str, expct: &str) {
    let ctx = context();
    let d = match copy_target("src/f0", dst, false) {
        CopyTarget::File { dst } => dst,
        other => panic!("expected a file copy, got {:?}", other),
    };
    assert_eq!(d, copy_destination("src/f0", dst));
    assert_eq!(d, expct);
    let mut cache = vec![];
    assert!(copy_run(&ctx, &[(s("src/f0"), d.clone(), 100, None)], &mut cache, 200), "copy should success");
    assert_eq!(cache, vec![(d, (100, 200))]);
}

#[test]
fn copy_file() {
    copy_file_fixture("dst", "dst");
    copy_file_fixture("dst/", "dst/f0");
}

#[test]
fn copy_test_update() {
    let ctx = context();
    let mut cache = vec![];
    let first = [(s("src/f0"), s("dst/f0"), 100, None), (s("src/f1"), s("dst/f1"), 100, None)];
    assert!(copy_run(&ctx, &first, &mut cache, 200), "sync should success");
    // the sources are rewritten later; the destinations are as the copy left them
    let second = [(s("src/f0"), s("dst/f0"), 300, Some(200)), (s("src/f1"), s("dst/f1"), 300, Some(200))];
    assert!(copy_run(&ctx, &second, &mut cache, 400), "sync should success");
    assert_eq!(cache[0].1, (300, 400));
    assert_eq!(cache[1].1, (300, 400));
}

#[test]
fn copy_test_donothing() {
    let ctx = context();
    let mut cache = vec![];
    let first = [(s("src/f0"), s("dst/f0"), 100, None), (s("src/f1"), s("dst/f1"), 100, None)];
    assert!(copy_run(&ctx, &first, &mut cache, 200), "sync should success");
    let again = [(s("src/f0"), s("dst/f0"), 100, Some(200)), (s("src/f1"), s("dst/f1"), 100, Some(200))];
    assert!(!copy_run(&ctx, &again, &mut cache, 500), "sync should do nothing");
    assert_eq!(decide_copy(Some((100, 200)), 100, Some(200), None), CopyDecision::Do { copy: false, reverse: false });
}

fn sync_dir_push(src: &str) {
    let (src_root, dst_root) = dir_roots(src, "dst");
    assert_eq!(src_root, "src/");
    assert_eq!(dst_root, "dst/");
    let pairs = match sync_dir_step(&src_root, &dst_root, &vec![s("f0"), s("f1")]) {
        SyncDirStep::Files(v) => v,
        SyncDirStep::Pull => panic!("a source with files is not pulled"),
    };
    let items: Vec<_> = pairs
        .into_iter()
        .map(|(a, b)| plan_file(a, b, DstFile::NotFound, None, false).unwrap())
        .collect();
    assert!(items.iter().all(|it| !it.reverse && !it.skip && it.ts.is_none()));
    assert_eq!(items[1].dst_path, "dst/f1");
    let copies: Vec<_> = items.iter().map(|it| sync_step(it, false).unwrap()).collect();
    assert_eq!((copies[0].from.as_str(), copies[0].to.as_str(), copies[0].known), ("src/f0", "dst/f0", None));
    assert!(changed(&items), "sync should success");
}

#[test]
fn test_src_to_dst() {
    sync_dir_push("src/");
}

#[test]
fn test_src_to_dst2() {
    sync_dir_push("src");
}

#[test]
fn test_dst_to_src() {
    let (src_root, dst_root) = dir_roots("src/", "dst");
    // the source directory is empty: it is filled from the destination
    assert_eq!(sync_dir_step(&src_root, &dst_root, &vec![]), SyncDirStep::Pull);
    let items = pull_items(&src_root, &dst_root, &vec![(s("f0"), 10), (s("f1"), 11)]);
    assert!(items.iter().all(|it| it.reverse));
    let c = sync_step(&items[1], false).unwrap();
    assert_eq!((c.from.as_str(), c.to.as_str(), c.known), ("dst/f1", "src/f1", Some(11)));
    assert_eq!(items[0].src_path, "src/f0");
    assert_eq!(items[1].ts, Some(11));
    assert!(changed(&items), "sync should success");
}

#[test]
fn sync_test_update() {
    // first run pushed f0; the destination was then rewritten (mtime 50, recorded 40)
    let it = plan_file(s("src/f0"), s("dst/f0"), DstFile::Found { path: s("dst/f0"), mtime: Some(50) }, Some(40), false).unwrap();
    assert!(it.reverse && !it.skip);
    assert_eq!(it.ts, Some(50));
    assert!(changed(&vec![it]), "sync should success");
}

#[test]
fn sync_test_donothing() {
    let (src_root, dst_root) = dir_roots("src/", "dst");
    let first = pull_items(&src_root, &dst_root, &vec![(s("f0"), 10), (s("f1"), 11)]);
    assert!(changed(&first), "sync should success");
    // the versions of the first run were recorded
    let again: Vec<_> = [("f0", 10u32), ("f1", 11u32)]
        .iter()
        .map(|(n, v)| {
            plan_file(
                format!("src/{}", n),
                format!("dst/{}", n),
                DstFile::Found { path: format!("dst/{}", n), mtime: Some(*v) },
                Some(*v as i64),
                false,
            )
            .unwrap()
        })
        .collect();
    assert!(!changed(&again), "sync should do nothing");
}
