use dv4rune::sync::{
    changed, dir_roots, file_pairs, plan_file, pull_items, recorded_version, sync_report, DstFile,
    SyncError, SyncItem,
};

fn s(x: &str) -> String {
    x.to_string()
}

#[test]
fn missing_destination_is_pushed() {
    let it = plan_file(s("src/f0"), s("dst/f0"), DstFile::NotFound, None, false).unwrap();
    assert_eq!(it, SyncItem { src_path: s("src/f0"), dst_path: s("dst/f0"), skip: false, reverse: false, ts: None });
}

#[test]
fn existing_destination_is_pulled_or_skipped() {
    let found = || DstFile::Found { path: s("/abs/dst/f0"), mtime: Some(100) };
    let it = plan_file(s("src/f0"), s("dst/f0"), found(), Some(99), false).unwrap();
    assert!(it.reverse && !it.skip);
    assert_eq!(it.ts, Some(100));
    assert_eq!(it.dst_path, "/abs/dst/f0");
    let dry = plan_file(s("src/f0"), s("dst/f0"), found(), None, true).unwrap();
    assert_eq!(dry.ts, None);
    // second run: the recorded version is the destination's
    let again = plan_file(s("src/f0"), s("dst/f0"), found(), Some(100), false).unwrap();
    assert!(again.skip);
    assert!(!changed(&vec![again.clone(), again]));
    assert_eq!(
        plan_file(s("a"), s("b"), DstFile::Found { path: s("b"), mtime: None }, None, false),
        Err(SyncError::NoVersion)
    );
    assert_eq!(plan_file(s("a"), s("b"), DstFile::Failed, None, false), Err(SyncError::Probe));
}

#[test]
fn directory_roots_and_pairs() {
    assert_eq!(dir_roots("src", "dst"), (s("src/"), s("dst/")));
    assert_eq!(dir_roots("src/", "dst/"), (s("src/"), s("dst/")));
    assert_eq!(file_pairs("src/", "dst/", &vec![s("f0")]), vec![(s("src/f0"), s("dst/f0"))]);
    let items = pull_items("src/", "dst/", &vec![(s("f0"), 7), (s("f1"), 8)]);
    assert_eq!(items[1], SyncItem { src_path: s("src/f1"), dst_path: s("dst/f1"), skip: false, reverse: true, ts: Some(8) });
    assert!(changed(&items));
}

#[test]
fn versions_and_reports() {
    assert_eq!(recorded_version(Some(3), None), Ok(3));
    assert_eq!(recorded_version(None, Some(4)), Ok(4));
    assert_eq!(recorded_version(None, None), Err(SyncError::NoVersion));
    let it = SyncItem::new(s("src/f0"), s("dst/f0")).reversed();
    assert_eq!(sync_report(&it, "this", "that", false), "[a] exec copy that:dst/f0 -> this:src/f0");
    let it = SyncItem::new(s("src/f0"), s("dst/f0")).skipped();
    assert_eq!(sync_report(&it, "this", "that", true), "[n] skip copy this:src/f0 -> that:dst/f0");
    assert_eq!(SyncItem::new(s("a"), s("b")).with_ts(5).ts, Some(5));
}
