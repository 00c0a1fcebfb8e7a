use dv4rune::check::{check_updates, CheckInfo, Metadata};
use dv4rune::script::{ps1_file_contents, windows_command_line, windows_script_command_line};
use dv4rune::task::{CopyInner, Target, TaskStatus};
use dv4rune::cli::{load_src_paths, path_push, LoadSrcError};
use dv4rune::copy::{
    check_copy_request, copy_target, once_end, vault_step, CopyContext, CopyOption, CopyTarget,
    CopyTaskRun, CopyTaskStep, PathError, VaultStep,
};
use dv4rune::registry::{Registry, UserNotFound};
use dv4rune::script::{exec_plan, ExecPlan, Script, ScriptExecutor};
use dv4rune::sync::{plan_file, sync_dir_step, sync_step, DstFile, SyncDirStep, SyncItem};

fn s(x: &str) -> String {
    x.to_string()
}

fn users() -> Registry {
    let mut r = Registry::new();
    r.add_user("alice", None, false).unwrap();
    r.add_user("bob", Some("box"), true).unwrap();
    r
}

#[test]
fn vault_copy_request_checks_paths_then_user() {
    let r = users();
    assert_eq!(check_copy_request(&r, "carol", "", ""), Err(PathError::EmptySrc));
    assert_eq!(check_copy_request(&r, "carol", "a", ""), Err(PathError::EmptyDst));
    assert_eq!(check_copy_request(&r, "carol", "a", "b"), Err(PathError::SrcUserMissing(s("carol"))));
    assert_eq!(check_copy_request(&r, "alice", "a", "b"), Ok(()));
    assert_eq!(PathError::EmptySrc.message(), "src_path is empty");
    assert_eq!(PathError::EmptyDst.message(), "dst_path is empty");
    assert_eq!(PathError::SrcUserMissing(s("carol")).message(), "src user carol not found");
}

#[test]
fn copy_context_needs_both_users() {
    let r = users();
    let e = CopyContext::new(&r, false, "carol", "dave", None).unwrap_err();
    assert_eq!(e, UserNotFound { uid: s("carol") });
    assert_eq!(e.message(), "user carol not found");
    let e = CopyContext::new(&r, false, "alice", "dave", None).unwrap_err();
    assert_eq!(e.uid, "dave");
    let (c, invalid) = CopyContext::new(&r, true, "alice", "bob", Some("x")).unwrap();
    assert!(invalid);
    assert_eq!(c.opt, None);
    let (c2, invalid2) = CopyContext::new(&r, false, "alice", "bob", Some("u")).unwrap();
    assert!(!invalid2);
    assert_eq!(c2.opt, Some(CopyOption::Update));
    assert_eq!(r.lookup("bob"), Ok(()));
}

#[test]
fn dry_run_copy_performs_nothing() {
    let r = users();
    let (dry, _) = CopyContext::new(&r, true, "alice", "bob", None).unwrap();
    let (live, _) = CopyContext::new(&r, false, "alice", "bob", None).unwrap();
    assert_eq!(dry.copy_step(true, false, "a", "b"), None);
    assert_eq!(live.copy_step(false, false, "a", "b"), None);
    assert_eq!(live.copy_step(true, false, "a", "b"), Some((s("a"), s("b"))));
    assert_eq!(live.copy_step(true, true, "a", "b"), Some((s("b"), s("a"))));
}

#[test]
fn copy_targets() {
    assert_eq!(copy_target("src/", "dst/", true), CopyTarget::Dir { src_dir: s("src"), dst_dir: s("dst") });
    assert_eq!(copy_target("src", "dst/", true), CopyTarget::Dir { src_dir: s("src"), dst_dir: s("dst/src") });
    assert_eq!(copy_target("a/src", "dst", true), CopyTarget::Dir { src_dir: s("a/src"), dst_dir: s("dst") });
    assert_eq!(copy_target("a/f0", "dst/", false), CopyTarget::File { dst: s("dst/f0") });
    assert_eq!(copy_target("a/f0", "d", false), CopyTarget::File { dst: s("d") });
}

#[test]
fn vault_steps_record_and_copy() {
    let skip = vault_step(Some(4), 4, false);
    assert_eq!(skip, VaultStep::Skip);
    assert!(!skip.records() && !skip.copies() && !skip.done());
    let pretend = vault_step(Some(3), 4, true);
    assert!(pretend.records() && !pretend.copies() && pretend.done());
    let copy = vault_step(None, 4, false);
    assert!(copy.records() && copy.copies());
}

#[test]
fn run_once_records_only_a_success() {
    assert_eq!(once_end::<String>(false, Ok(true)), (true, Ok(true)));
    assert_eq!(once_end::<String>(false, Ok(false)), (true, Ok(false)));
    assert_eq!(once_end::<String>(true, Ok(true)), (false, Ok(true)));
    assert_eq!(once_end(false, Err(s("boom"))), (false, Err(s("boom"))));
}

#[test]
fn copy_task_stops_at_first_failure() {
    let mut run = CopyTaskRun::new(3);
    assert_eq!(run.step(), CopyTaskStep::Copy(0));
    run.report(true);
    assert_eq!(run.step(), CopyTaskStep::Copy(1));
    run.report(false);
    assert_eq!(run.step(), CopyTaskStep::Stopped);
    let mut ok = CopyTaskRun::new(1);
    ok.report(true);
    assert_eq!(ok.step(), CopyTaskStep::Done(TaskStatus::Success));
    assert_eq!(CopyTaskRun::new(0).step(), CopyTaskStep::Done(TaskStatus::DoNothing));
}

#[test]
fn exec_plans() {
    let r = users();
    assert_eq!(exec_plan(&r, "carol", false, false, "ls").unwrap_err().uid, "carol");
    assert!(matches!(exec_plan(&r, "alice", true, false, "ls"), Ok(ExecPlan::DryRun)));
    match exec_plan(&r, "alice", false, false, "ls -l") {
        Ok(ExecPlan::Run(Script::Whole(c))) => assert_eq!(c, "ls -l"),
        other => panic!("unexpected {:?}", other),
    }
    match exec_plan(&r, "alice", false, true, "ls -l") {
        Ok(ExecPlan::Run(Script::Script { executor: ScriptExecutor::Sh, input })) => assert_eq!(input, vec![s("ls -l")]),
        other => panic!("unexpected {:?}", other),
    }
}

#[test]
fn load_sources() {
    let r = users();
    let file = CheckInfo::File(Metadata { path: s("/m/a.rn"), ts: 1 });
    assert_eq!(load_src_paths(&r, "carol", &file), Err(LoadSrcError::MissingUser));
    assert_eq!(load_src_paths(&r, "alice", &file), Ok(vec![s("/m/a.rn")]));
    let dir = CheckInfo::Dir {
        path: s("/m/cfg"),
        files: vec![Metadata { path: s("a.rn"), ts: 1 }, Metadata { path: s("sub/b.rn"), ts: 2 }],
    };
    assert_eq!(load_src_paths(&r, "alice", &dir), Ok(vec![s("/m/cfg/a.rn"), s("/m/cfg/sub/b.rn")]));
    assert_eq!(path_push("/m", "/abs"), "/abs");
    assert_eq!(path_push("", "x"), "x");
}

#[test]
fn sync_steps() {
    assert_eq!(sync_dir_step("src/", "dst/", &vec![]), SyncDirStep::Pull);
    assert_eq!(
        sync_dir_step("src/", "dst/", &vec![s("f0")]),
        SyncDirStep::Files(vec![(s("src/f0"), s("dst/f0"))])
    );
    let it = plan_file(s("src/f0"), s("dst/f0"), DstFile::Found { path: s("dst/f0"), mtime: Some(7) }, Some(7), false).unwrap();
    // a skipped item is still copied, outside a dry run
    assert!(it.skip);
    assert_eq!(sync_step(&it, true), None);
    let c = sync_step(&it, false).unwrap();
    assert_eq!((c.from, c.to, c.known), (s("dst/f0"), s("src/f0"), None));
    let dry = plan_file(s("src/f0"), s("dst/f0"), DstFile::Found { path: s("dst/f0"), mtime: Some(8) }, Some(7), true).unwrap();
    let live = plan_file(s("src/f0"), s("dst/f0"), DstFile::Found { path: s("dst/f0"), mtime: Some(8) }, Some(7), false).unwrap();
    assert_eq!((dry.skip, dry.reverse, dry.ts), (live.skip, live.reverse, None));
    assert_eq!(live.ts, Some(8));
    let fwd = SyncItem::new(s("a"), s("b"));
    let c = sync_step(&fwd, false).unwrap();
    assert_eq!((c.from, c.to), (s("a"), s("b")));
}

#[test]
fn run_once_answers() {
    assert_eq!(dv4rune::copy::once_answer::<String>(true, None), Ok(false));
    assert_eq!(dv4rune::copy::once_answer::<String>(true, Some(Ok(true))), Ok(false));
    assert_eq!(dv4rune::copy::once_answer::<String>(false, Some(Ok(true))), Ok(true));
    assert_eq!(dv4rune::copy::once_answer(false, Some(Err(s("boom")))), Err(s("boom")));
    assert_eq!(dv4rune::copy::once_answer::<String>(false, None), Ok(false));
}

#[test]
fn vault_destination_user() {
    let r = users();
    assert_eq!(dv4rune::copy::check_vault_dst(&r, "bob"), Ok(()));
    let e = dv4rune::copy::check_vault_dst(&r, "dave").unwrap_err();
    assert_eq!(e, PathError::DstUserMissing(s("dave")));
    assert_eq!(e.message(), "dst user dave not found");
}

#[test]
fn windows_command_lines() {
    let prog: Vec<u16> = "C:\\sh.exe".encode_utf16().collect();
    let mut want: Vec<u16> = "C:\\sh.exe -c é".encode_utf16().collect();
    want.push(0);
    assert_eq!(windows_command_line(&prog, &vec![s("-c"), s("é")]), want);
    let mut bare = prog.clone();
    bare.push(0);
    assert_eq!(windows_command_line(&prog, &vec![]), bare);
    let mut want2: Vec<u16> = "C:\\sh.exe -f C:\\t\\a.ps1".encode_utf16().collect();
    want2.push(0);
    assert_eq!(windows_script_command_line(&prog, "C:\\t\\a.ps1"), want2);
    assert_eq!(
        ps1_file_contents(&vec![s("echo 1"), s("\r\necho 2")]),
        b"echo 1\r\necho 2\r\nRemove-Item $MyInvocation.MyCommand.Path\r\n".to_vec()
    );
}

#[test]
fn copy_task_check_and_select() {
    let inner = CopyInner::new(vec![(s("cfg"), s("dst/cfg"))]);
    let target = Target { src_uid: Some(s("a")), dst_uid: Some(s("b")) };
    let info = CheckInfo::Dir {
        path: s("/m/cfg"),
        files: vec![Metadata { path: s("x"), ts: 5 }, Metadata { path: s("y"), ts: 6 }],
    };
    let cache = vec![(s("dst/cfg/x"), 5u64), (s("dst/cfg/y"), 4u64)];
    let (su, du, items) = check_updates(&target, &inner, &vec![info], &cache).unwrap();
    assert_eq!((su.as_str(), du.as_str()), ("a", "b"));
    assert_eq!(items.len(), 1);
    assert_eq!((items[0].src.as_str(), items[0].dst.as_str(), items[0].version), ("/m/cfg/y", "dst/cfg/y", 6));
}
