use dv4rune::check::{
    copy_candidates, copy_plan, needs_update, select_updates, CheckInfo, CopyItem, Metadata,
};
use dv4rune::copy::{
    action_line, any_done, check_copy_paths, check_destination, conflict_options, copy_destination,
    copy_report, copy_route, copy_task_status, decide_copy, glob_pairs, is_dir_copy, join_slash,
    newer_options, newer_question, once_plan, parse_copy_option, resolve_conflict, resolve_newer,
    slash_pairs, task_copy_route, user_not_found, vault_step, versions_after_copy, CopyDecision,
    CopyOption, CopyRoute, DestError, DstProbe, MtimeError, PathError, RouteError, UserFacts,
    VaultStep,
};
use dv4rune::task::TaskStatus;

fn s(x: &str) -> String {
    x.to_string()
}

#[test]
fn copy_option_parsing() {
    assert_eq!(parse_copy_option(None), (None, false));
    assert_eq!(parse_copy_option(Some("o")), (Some(CopyOption::Overwrite), false));
    assert_eq!(parse_copy_option(Some("n")), (Some(CopyOption::Skip), false));
    assert_eq!(parse_copy_option(Some("u")), (Some(CopyOption::Update), false));
    assert_eq!(parse_copy_option(Some("x")), (None, true));
    assert_eq!(parse_copy_option(Some("oo")), (None, true));
}

#[test]
fn second_copy_with_nothing_changed_does_nothing() {
    // first copy: destination missing
    assert_eq!(decide_copy(None, 10, None, Some(CopyOption::Overwrite)), CopyDecision::Do { copy: true, reverse: false });
    // recorded (10, 20) after it; nothing changed since
    for opt in [None, Some(CopyOption::Overwrite), Some(CopyOption::Skip), Some(CopyOption::Update)] {
        assert_eq!(decide_copy(Some((10, 20)), 10, Some(20), opt), CopyDecision::Do { copy: false, reverse: false });
    }
}

#[test]
fn source_update_goes_forward() {
    assert_eq!(decide_copy(Some((10, 20)), 11, Some(20), None), CopyDecision::Do { copy: true, reverse: false });
}

#[test]
fn destination_update_is_asked_or_follows_option() {
    assert_eq!(decide_copy(Some((10, 20)), 10, Some(21), None), CopyDecision::AskNewer);
    assert_eq!(decide_copy(Some((10, 20)), 10, Some(21), Some(CopyOption::Overwrite)), CopyDecision::AskNewer);
    assert_eq!(decide_copy(Some((10, 20)), 10, Some(21), Some(CopyOption::Skip)), CopyDecision::Do { copy: false, reverse: false });
    assert_eq!(decide_copy(Some((10, 20)), 10, Some(21), Some(CopyOption::Update)), CopyDecision::Do { copy: true, reverse: true });
    assert_eq!(resolve_newer(1), (true, true));
    assert_eq!(resolve_newer(0), (false, true));
}

#[test]
fn both_sides_changed_is_a_conflict() {
    assert_eq!(decide_copy(Some((10, 20)), 11, Some(21), None), CopyDecision::AskConflict);
    assert_eq!(decide_copy(None, 11, Some(21), None), CopyDecision::AskConflict);
    assert_eq!(decide_copy(None, 11, Some(21), Some(CopyOption::Overwrite)), CopyDecision::Do { copy: true, reverse: false });
    assert_eq!(resolve_conflict(0), (true, false));
    assert_eq!(resolve_conflict(1), (false, false));
    assert_eq!(resolve_conflict(2), (true, true));
    assert_eq!(newer_options(), vec![s("n/skip"), s("u/update")]);
    assert_eq!(conflict_options(), vec![s("y/overwrite"), s("n/skip"), s("u/update")]);
    assert_eq!(newer_question("dst/f0"), "dst/f0 is newer, do what?");
}

#[test]
fn versions_recorded_after_copy() {
    assert_eq!(versions_after_copy(false, 5, None, Some(7)), Ok((5, 7)));
    assert_eq!(versions_after_copy(false, 5, Some(6), None), Err(MtimeError::Destination));
    assert_eq!(versions_after_copy(true, 5, Some(6), Some(9)), Ok((9, 6)));
    assert_eq!(versions_after_copy(true, 5, Some(6), None), Err(MtimeError::Source));
    assert_eq!(versions_after_copy(true, 5, None, Some(9)), Err(MtimeError::Destination));
}

#[test]
fn destination_checks() {
    assert_eq!(check_destination(DstProbe::Missing, true), Ok(None));
    assert_eq!(check_destination(DstProbe::Failed, false), Err(DestError::Probe));
    assert_eq!(check_destination(DstProbe::Found { is_dir: false, mtime: Some(3) }, true), Err(DestError::NotADirectory));
    assert_eq!(check_destination(DstProbe::Found { is_dir: true, mtime: Some(3) }, false), Err(DestError::IsADirectory));
    assert_eq!(check_destination(DstProbe::Found { is_dir: false, mtime: Some(3) }, false), Ok(Some(3)));
    assert_eq!(check_destination(DstProbe::Found { is_dir: true, mtime: None }, true), Ok(Some(0)));
}

#[test]
fn copy_file_destinations() {
    // copy_file fixture: "dst" -> "dst", "dst/" -> "dst/f0"
    assert_eq!(copy_destination("src/f0", "dst"), "dst");
    assert_eq!(copy_destination("src/f0", "dst/"), "dst/f0");
    assert_eq!(copy_destination("f0", "dst/"), "dst/f0");
    assert!(is_dir_copy("src/"));
    assert!(!is_dir_copy("src"));
    assert_eq!(join_slash("src", "f0"), "src/f0");
    assert_eq!(
        slash_pairs("src", "dst", &vec![s("f0"), s("f1")]),
        vec![(s("src/f0"), s("dst/f0")), (s("src/f1"), s("dst/f1"))]
    );
    assert_eq!(
        glob_pairs("src/", "dst", &vec![s("a")]),
        vec![(s("src/a"), s("dst/a"))]
    );
    assert_eq!(check_copy_paths("", "d"), Err(PathError::EmptySrc));
    assert_eq!(check_copy_paths("s", ""), Err(PathError::EmptyDst));
    assert_eq!(check_copy_paths("s", "d"), Ok(()));
}

#[test]
fn reports() {
    assert_eq!(copy_report(false, true, false, "a", "x", "b", "y"), "[a] exec copy a:x -> b:y");
    assert_eq!(copy_report(true, true, true, "a", "x", "b", "y"), "[n] exec update a:x <- b:y");
    assert_eq!(copy_report(false, false, true, "a", "x", "b", "y"), "[a] skip copy a:x -> b:y");
    assert_eq!(action_line(true, true, "exec ls"), "[n] exec exec ls");
    assert_eq!(user_not_found("bob"), "user bob not found");
}

fn facts(hid: Option<&str>, sys: bool, linux: bool, user: Option<&str>) -> UserFacts {
    UserFacts { hid: hid.map(s), is_system: sys, is_linux: linux, user: user.map(s) }
}

#[test]
fn copy_routes() {
    let a = facts(Some("h"), false, true, Some("al"));
    let b = facts(Some("h"), false, false, Some("bo"));
    assert_eq!(copy_route("u", "p", &a, "u", "p", &a), Ok(CopyRoute::SamePath));
    assert_eq!(copy_route("u", "p", &a, "u", "q", &a), Ok(CopyRoute::Within { by_src: true, owner: s("") }));
    assert_eq!(copy_route("a", "p", &a, "b", "q", &b), Ok(CopyRoute::Within { by_src: false, owner: s("") }));
    let root = facts(Some("h"), true, false, None);
    assert_eq!(copy_route("r", "p", &root, "b", "q", &b), Ok(CopyRoute::Within { by_src: true, owner: s("bo") }));
    let nouser = facts(Some("h"), false, false, None);
    assert_eq!(copy_route("r", "p", &root, "b", "q", &nouser), Err(RouteError::NoDstUser));
    let win = facts(Some("h"), false, false, None);
    assert_eq!(copy_route("a", "p", &win, "b", "q", &b), Ok(CopyRoute::Stream));
    let other = facts(Some("k"), false, true, None);
    assert_eq!(copy_route("a", "p", &a, "b", "q", &other), Ok(CopyRoute::Stream));
    assert_eq!(task_copy_route("h1", true, "h2"), CopyRoute::Stream);
    assert_eq!(task_copy_route("h", true, "h"), CopyRoute::Within { by_src: true, owner: s("") });
    assert_eq!(task_copy_route("h", false, "h"), CopyRoute::Within { by_src: false, owner: s("") });
}

#[test]
fn vault_steps_and_small_decisions() {
    assert_eq!(vault_step(Some(4), 4, false), VaultStep::Skip);
    assert_eq!(vault_step(Some(3), 4, true), VaultStep::Pretend);
    assert_eq!(vault_step(None, 4, false), VaultStep::Copy);
    assert!(any_done(&vec![false, true]));
    assert!(!any_done(&vec![]));
    assert_eq!(copy_task_status(0), TaskStatus::DoNothing);
    assert_eq!(copy_task_status(2), TaskStatus::Success);
    assert_eq!(once_plan(false, false), (true, true));
    assert_eq!(once_plan(false, true), (true, false));
    assert_eq!(once_plan(true, false), (false, false));
}

#[test]
fn check_plans_candidates_and_selects_updates() {
    let file = CheckInfo::File(Metadata { path: s("/home/a/.vimrc"), ts: 5 });
    let dir = CheckInfo::Dir {
        path: s("/home/a/.config/nvim"),
        files: vec![Metadata { path: s("init.lua"), ts: 7 }, Metadata { path: s("lua/x.lua"), ts: 8 }],
    };
    let c = copy_candidates(&dir, &s("nvim"));
    assert_eq!(c[1], CopyItem { src: s("/home/a/.config/nvim/lua/x.lua"), dst: s("nvim/lua/x.lua"), version: 8 });
    let pairs = vec![(s(".vimrc"), s("vimrc")), (s(".config/nvim"), s("nvim"))];
    let plan = copy_plan(&pairs, &vec![file, dir]);
    assert_eq!(plan.len(), 3);
    assert_eq!(plan[0], CopyItem { src: s("/home/a/.vimrc"), dst: s("vimrc"), version: 5 });
    assert_eq!(plan[1].dst, "nvim/init.lua");
    // the first was copied at version 5 already, the second at an older version
    let sel = select_updates(plan, &vec![Some(5), Some(6), None]);
    assert_eq!(sel.iter().map(|c| c.dst.clone()).collect::<Vec<_>>(), vec![s("nvim/init.lua"), s("nvim/lua/x.lua")]);
    assert!(!needs_update(Some(5), 5));
    assert!(needs_update(None, 5));
}
