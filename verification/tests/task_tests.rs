use dv4rune::plan::{node_step, outcome_of, NodeStep, Plan, StateNode};
use dv4rune::schedule::PlanRun;
use dv4rune::task::{
    exit_outcome, join_words, AppTask, AppTaskConfig, AutoTaskConfig, BoxedTask, CopyTaskConfig,
    DryRunExecTask, ExecScript, ExecTask, ExecTaskConfig, Target, TaskAttr, TaskComplete,
    TaskError, TaskStatus,
};

fn s(x: &str) -> String {
    x.to_string()
}

#[test]
fn app_task_joins_packages_with_spaces() {
    let t = AppTask::new(vec![s("git"), s("vim"), s("tmux")]);
    assert_eq!(t.pkgs, "git vim tmux");
    assert_eq!(AppTask::new(vec![]).pkgs, "");
    assert_eq!(AppTask::new(vec![s(""), s("a")]).pkgs, "a");
    assert_eq!(join_words(&vec![s("a"), s(""), s("b")]), "a  b");
}

#[test]
fn app_config_cast_takes_user_from_target_when_unset() {
    let target = Target { src_uid: Some(s("src")), dst_uid: Some(s("host")) };
    let cfg = AppTaskConfig::new(TaskAttr::new(s("pkgs")).with_next(vec![s("done")]), vec![s("a"), s("b")]);
    let p = cfg.clone().cast(false, &target);
    assert_eq!(p.id, "pkgs");
    assert_eq!(p.next, vec![s("done")]);
    assert_eq!(p.target.dst_uid, Some(s("host")));
    assert_eq!(p.target.src_uid, None);
    match p.task {
        BoxedTask::App(t) => assert_eq!(t.pkgs, "a b"),
        _ => panic!("expected an app task"),
    }
    let p = cfg.with_user(s("me")).cast(true, &target);
    assert_eq!(p.target.dst_uid, Some(s("me")));
    assert!(matches!(p.task, BoxedTask::DryRunApp(_)));
}

#[test]
fn copy_config_cast_completes_both_users() {
    let target = Target { src_uid: Some(s("a")), dst_uid: Some(s("b")) };
    let cfg = CopyTaskConfig::new(TaskAttr::from_str("cp"), vec![(s("x"), s("y"))]).with_dst(s("c"));
    let p = cfg.cast(false, &target);
    assert_eq!(p.target.src_uid, Some(s("a")));
    assert_eq!(p.target.dst_uid, Some(s("c")));
    match p.task {
        BoxedTask::Copy(t) => assert_eq!(t.inner.pair, vec![(s("x"), s("y"))]),
        _ => panic!("expected a copy task"),
    }
}

#[test]
fn exec_and_auto_configs() {
    let e = ExecTaskConfig::new(TaskAttr::new(s("e")), s("echo hi")).shell(s("bash"));
    let p = e.cast(true, &Target::default());
    assert_eq!(p.target.dst_uid, None);
    match p.task {
        BoxedTask::DryRunExec(t) => {
            assert_eq!(t.shell, Some(s("bash")));
            assert_eq!(t.message("me"), "[Task] dry run exec me echo hi with bash");
        }
        _ => panic!("expected a dry run"),
    }
    let d = DryRunExecTask::new(None, s("ls"));
    assert_eq!(d.message("u"), "[Task] dry run exec u ls with ");
    let a = AutoTaskConfig::new(TaskAttr::new(s("svc")), s("sshd"), s("enable")).with_user(s("root"));
    let p = a.cast(false, &Target::default());
    assert_eq!(p.target.dst_uid, Some(s("root")));
    assert!(matches!(p.task, BoxedTask::Auto(_)));
}

#[test]
fn exec_task_script_and_exit_status() {
    let t = ExecTask::new(Some(s("sh")), s("make"));
    assert_eq!(t.script(), ExecScript::WithShell { shell: s("sh"), input: vec![s("make")] });
    assert_eq!(ExecTask::new(None, s("make all")).script(), ExecScript::Whole(s("make all")));
    assert_eq!(exit_outcome(0), Ok(TaskStatus::Success));
    assert_eq!(exit_outcome(3), Err(TaskError::UnexpectedExitStatus(3)));
}

#[test]
fn target_requires_users() {
    let t = Target { src_uid: None, dst_uid: Some(s("d")) };
    assert_eq!(t.get_dst_uid(), Ok(&s("d")));
    assert_eq!(t.get_uid(), Err(TaskError::MissingSrcUid));
    assert_eq!(Target::default().get_dst_uid(), Err(TaskError::MissingDstUid));
}

#[test]
fn status_ranks_round_trip() {
    for st in [TaskStatus::DoNothing, TaskStatus::Success, TaskStatus::Failed] {
        assert_eq!(TaskStatus::from_rank(st.rank()), Some(st));
    }
    assert_eq!(TaskStatus::from_rank(3), None);
}

#[test]
fn state_node_fires_once_with_greatest_outcome() {
    let mut n = StateNode::new();
    n.add_dep();
    n.add_dep();
    n.add_dep();
    assert!(!n.free());
    assert_eq!(n.try_exec(TaskStatus::DoNothing), None);
    assert_eq!(n.try_exec(TaskStatus::Success), None);
    assert_eq!(n.try_exec(TaskStatus::DoNothing), Some(TaskStatus::Success));
    assert!(n.free());
}

#[test]
fn node_step_runs_only_on_success() {
    assert_eq!(node_step(Some(TaskStatus::Success)), NodeStep::Execute);
    assert_eq!(node_step(Some(TaskStatus::DoNothing)), NodeStep::Skip(TaskStatus::DoNothing));
    assert_eq!(node_step(Some(TaskStatus::Failed)), NodeStep::Skip(TaskStatus::Failed));
    assert_eq!(node_step(None), NodeStep::Skip(TaskStatus::Failed));
    assert_eq!(outcome_of::<String>(Err(s("boom"))), TaskStatus::Failed);
    assert_eq!(outcome_of::<String>(Ok(TaskStatus::DoNothing)), TaskStatus::DoNothing);
}

#[test]
fn plan_graph_links_tasks() {
    // start, final, then tasks a, b, c: a -> b, b -> (final), c unnamed
    let ids = vec![s("start"), s("final"), s("a"), s("b"), s("c")];
    let topo = vec![(s("a"), vec![s("b")]), (s("b"), vec![])];
    let g = Plan::new(&ids, &topo);
    assert_eq!(g.next[0], vec![2, 4]);
    assert_eq!(g.next[1], Vec::<usize>::new());
    assert_eq!(g.next[2], vec![3]);
    assert_eq!(g.next[3], vec![1]);
    assert_eq!(g.next[4], Vec::<usize>::new());
    assert_eq!(g.deps, vec![0, 1, 1, 1, 1]);
    assert_eq!(g.tasks, vec![2, 3, 4, 0]);
}

#[test]
fn plan_graph_later_task_shadows_earlier() {
    let ids = vec![s("start"), s("final"), s("a"), s("a")];
    let topo = vec![(s("a"), vec![])];
    let g = Plan::new(&ids, &topo);
    assert_eq!(g.next[3], vec![1]);
    assert_eq!(g.next[2], Vec::<usize>::new());
    assert_eq!(g.tasks, vec![3, 0]);
    assert_eq!(g.next[0], vec![3]);
    assert_eq!(g.deps[3], 1);
    assert_eq!(g.deps[2], 0);
    assert_eq!(g.deps[1], 1);
}

fn diamond() -> Plan {
    // a runs first, then b and c, which both end the plan.
    let ids = vec![s("start"), s("final"), s("a"), s("b"), s("c")];
    let topo = vec![(s("a"), vec![s("b"), s("c")]), (s("b"), vec![]), (s("c"), vec![])];
    Plan::new(&ids, &topo)
}

#[test]
fn plan_run_starts_tasks_as_dependencies_end() {
    let g = diamond();
    assert_eq!(g.deps, vec![0, 2, 1, 1, 1]);
    let mut run = PlanRun::new(g);
    assert_eq!(run.finish(0, TaskStatus::Success), vec![(2, TaskStatus::Success)]);
    assert_eq!(node_step(Some(TaskStatus::Success)), NodeStep::Execute);
    assert_eq!(
        run.finish(2, TaskStatus::Success),
        vec![(3, TaskStatus::Success), (4, TaskStatus::Success)]
    );
    // The final node waits for both b and c, and keeps the greater outcome.
    assert_eq!(run.finish(3, TaskStatus::DoNothing), vec![]);
    assert_eq!(run.finish(4, TaskStatus::Success), vec![(1, TaskStatus::Success)]);
    assert_eq!(run.outcome(3), Some(TaskStatus::DoNothing));
    assert_eq!(run.outcome(1), None);
}

#[test]
fn plan_run_failure_reaches_the_end() {
    let mut run = PlanRun::new(diamond());
    run.finish(0, TaskStatus::Success);
    let after_a = run.finish(2, TaskStatus::DoNothing);
    // b and c start with "nothing to do" and are skipped.
    assert_eq!(after_a, vec![(3, TaskStatus::DoNothing), (4, TaskStatus::DoNothing)]);
    assert_eq!(node_step(Some(TaskStatus::DoNothing)), NodeStep::Skip(TaskStatus::DoNothing));
    assert_eq!(run.finish(4, TaskStatus::Failed), vec![]);
    assert_eq!(run.finish(3, TaskStatus::DoNothing), vec![(1, TaskStatus::Failed)]);
}
