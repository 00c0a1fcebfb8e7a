//! Tasks of a plan: their configurations, how a configuration becomes a
//! runnable task, and the outcomes of running one.
use vstd::prelude::*;

use crate::text::{concat_str, push_char, strs_view};

verus! {

/// Outcome of a task. The order of the variants is the order in which a
/// dependent task combines the outcomes of its dependencies: the greatest wins.
#[derive(Debug, Clone, Copy, PartialEq, Eq, Structural)]
pub enum TaskStatus {
    /// Nothing needed to be done.
    DoNothing,
    /// The task did its work.
    Success,
    /// The task failed.
    Failed,
}

/// Rank of a status; dependencies combine by the greatest rank.
pub open spec fn spec_rank(s: TaskStatus) -> u8 {
    match s {
        TaskStatus::DoNothing => 0,
        TaskStatus::Success => 1,
        TaskStatus::Failed => 2,
    }
}

/// The status of a rank (`TryFrom<u8>`).
pub open spec fn spec_status_of_rank(r: u8) -> Option<TaskStatus> {
    if r == 0 {
        Some(TaskStatus::DoNothing)
    } else if r == 1 {
        Some(TaskStatus::Success)
    } else if r == 2 {
        Some(TaskStatus::Failed)
    } else {
        None
    }
}

impl TaskStatus {
    /// Rank of the status (`as u8`).
    pub fn rank(&self) -> (r: u8)
        ensures
            r == spec_rank(*self),
    {
        match self {
            TaskStatus::DoNothing => 0,
            TaskStatus::Success => 1,
            TaskStatus::Failed => 2,
        }
    }

    /// The status with the given rank, if any (`TryFrom<u8>`).
    pub fn from_rank(r: u8) -> (s: Option<TaskStatus>)
        ensures
            s == spec_status_of_rank(r),
    {
        if r == 0 {
            Some(TaskStatus::DoNothing)
        } else if r == 1 {
            Some(TaskStatus::Success)
        } else if r == 2 {
            Some(TaskStatus::Failed)
        } else {
            None
        }
    }
}

/// A status survives the round trip through its rank.
pub proof fn law_rank_round_trip(s: TaskStatus)
    ensures
        spec_status_of_rank(spec_rank(s)) == Some(s),
{
}

/// Errors of the task layer.
#[derive(Debug, Clone, PartialEq, Eq)]
pub enum TaskError {
    /// The task needs a source user and none was given.
    MissingSrcUid,
    /// The task needs a destination user and none was given.
    MissingDstUid,
    /// A command ended with a non-zero exit status.
    UnexpectedExitStatus(i32),
}

/// The users a task acts on.
#[derive(Debug, Clone, PartialEq, Eq)]
pub struct Target {
    pub src_uid: Option<String>,
    pub dst_uid: Option<String>,
}

impl Default for Target {
    /// No user given.
    fn default() -> (t: Self)
        ensures
            t.src_uid is None,
            t.dst_uid is None,
    {
        Target { src_uid: None, dst_uid: None }
    }
}

/// A copy of an optional string.
pub fn clone_opt(o: &Option<String>) -> (r: Option<String>)
    ensures
        r == *o,
{
    match o {
        Some(s) => Some(s.clone()),
        None => None,
    }
}

/// `first`, or else `fallback` (`Option::or_else`).
pub fn or_else_clone(first: Option<String>, fallback: &Option<String>) -> (r: Option<String>)
    ensures
        r == (if first is Some {
            first
        } else {
            *fallback
        }),
{
    match first {
        Some(s) => Some(s),
        None => clone_opt(fallback),
    }
}

impl Target {
    /// The destination user, which the task needs.
    pub fn get_dst_uid(&self) -> (r: Result<&String, TaskError>)
        ensures
            match self.dst_uid {
                Some(u) => r == Ok::<&String, TaskError>(&u),
                None => r == Err::<&String, TaskError>(TaskError::MissingDstUid),
            },
    {
        match &self.dst_uid {
            Some(u) => Ok(u),
            None => Err(TaskError::MissingDstUid),
        }
    }

    /// The source and destination users, which the task needs.
    pub fn get_uid(&self) -> (r: Result<(&String, &String), TaskError>)
        ensures
            match (self.src_uid, self.dst_uid) {
                (Some(s), Some(d)) => r == Ok::<(&String, &String), TaskError>((&s, &d)),
                (None, _) => r == Err::<(&String, &String), TaskError>(TaskError::MissingSrcUid),
                (Some(_), None) => r == Err::<(&String, &String), TaskError>(
                    TaskError::MissingDstUid,
                ),
            },
    {
        match (&self.src_uid, &self.dst_uid) {
            (Some(s), Some(d)) => Ok((s, d)),
            (None, _) => Err(TaskError::MissingSrcUid),
            (Some(_), None) => Err(TaskError::MissingDstUid),
        }
    }
}

/// Identity of a task and the tasks that run after it.
#[derive(Debug, Clone, PartialEq, Eq)]
pub struct TaskAttr {
    pub id: String,
    pub next: Vec<String>,
}

impl TaskAttr {
    /// A task with no successor.
    pub fn new(id: String) -> (a: TaskAttr)
        ensures
            a.id == id,
            a.next@.len() == 0,
    {
        TaskAttr { id, next: Vec::new() }
    }

    /// A task with no successor, named by a string slice (`From<&str>`).
    pub fn from_str(id: &str) -> (a: TaskAttr)
        ensures
            a.id@ == id@,
            a.next@.len() == 0,
    {
        TaskAttr { id: id.to_owned(), next: Vec::new() }
    }

    /// The same task with the given successors.
    pub fn with_next(self, next: Vec<String>) -> (a: TaskAttr)
        ensures
            a.id == self.id,
            a.next == next,
    {
        let mut a = self;
        a.next = next;
        a
    }
}

/// Packages joined as `AppTask` joins them: a space goes between two
/// names whenever the text built so far is not empty.
pub open spec fn spec_join_words(words: Seq<Seq<char>>) -> Seq<char>
    decreases words.len(),
{
    if words.len() == 0 {
        seq![]
    } else {
        let acc = spec_join_words(words.drop_last());
        if acc.len() == 0 {
            words.last()
        } else {
            acc.push(' ') + words.last()
        }
    }
}

/// Joins words with single spaces, as `AppTask::new` does.
pub fn join_words(words: &Vec<String>) -> (s: String)
    ensures
        s@ == spec_join_words(strs_view(words@)),
{
    let mut acc = String::new();
    let mut i: usize = 0;
    while i < words.len()
        invariant
            i <= words@.len(),
            acc@ == spec_join_words(strs_view(words@.subrange(0, i as int))),
        decreases words@.len() - i,
    {
        proof {
            assert(strs_view(words@.subrange(0, i + 1)).drop_last() =~= strs_view(
                words@.subrange(0, i as int),
            ));
            assert(strs_view(words@.subrange(0, i + 1)).last() == words@[i as int]@);
        }
        if !acc.as_str().is_empty() {
            push_char(&mut acc, ' ');
        }
        acc.append(words[i].as_str());
        i = i + 1;
    }
    assert(words@.subrange(0, words@.len() as int) =~= words@);
    acc
}

/// Installs packages for the destination user.
#[derive(Debug, Clone, PartialEq, Eq)]
pub struct AppTask {
    /// Package names, separated by spaces.
    pub pkgs: String,
}

impl AppTask {
    /// The package names joined by spaces.
    pub fn new(pkgs: Vec<String>) -> (t: AppTask)
        ensures
            t.pkgs@ == spec_join_words(strs_view(pkgs@)),
    {
        AppTask { pkgs: join_words(&pkgs) }
    }

    /// Outcome once the package manager has answered whether it installed the packages.
    pub fn status(installed: bool) -> (s: TaskStatus)
        ensures
            s == (if installed {
                TaskStatus::Success
            } else {
                TaskStatus::Failed
            }),
    {
        if installed {
            TaskStatus::Success
        } else {
            TaskStatus::Failed
        }
    }
}

/// Reports the packages that would be installed.
#[derive(Debug, Clone, PartialEq, Eq)]
pub struct DryRunAppTask {
    pub pkgs: Vec<String>,
}

impl DryRunAppTask {
    pub fn new(pkgs: Vec<String>) -> (t: DryRunAppTask)
        ensures
            t.pkgs == pkgs,
    {
        DryRunAppTask { pkgs }
    }
}

/// Runs a service action (such as enabling a service) for the destination user.
#[derive(Debug, Clone, PartialEq, Eq)]
pub struct AutoTask {
    pub name: String,
    pub action: String,
}

impl AutoTask {
    pub fn new(name: String, action: String) -> (t: AutoTask)
        ensures
            t.name == name,
            t.action == action,
    {
        AutoTask { name, action }
    }
}

/// Reports the service action that would run.
#[derive(Debug, Clone, PartialEq, Eq)]
pub struct DryRunAutoTask {
    pub name: String,
    pub action: String,
}

impl DryRunAutoTask {
    pub fn new(name: String, action: String) -> (t: DryRunAutoTask)
        ensures
            t.name == name,
            t.action == action,
    {
        DryRunAutoTask { name, action }
    }

    /// The message that reports the action: `[Task] dry run auto {name} {action}`.
    pub fn message(&self) -> (m: String)
        ensures
            m@ == "[Task] dry run auto "@ + self.name@ + seq![' '] + self.action@,
    {
        let mut m = "[Task] dry run auto ".to_owned();
        m.append(self.name.as_str());
        push_char(&mut m, ' ');
        m.append(self.action.as_str());
        m
    }
}

/// Source and destination paths of a copy.
#[derive(Debug, Clone, PartialEq, Eq)]
pub struct CopyInner {
    pub pair: Vec<(String, String)>,
}

impl CopyInner {
    pub fn new(pair: Vec<(String, String)>) -> (c: CopyInner)
        ensures
            c.pair == pair,
    {
        CopyInner { pair }
    }
}

/// Copies files from the source user to the destination user.
#[derive(Debug, Clone, PartialEq, Eq)]
pub struct CopyTask {
    pub inner: CopyInner,
}

impl CopyTask {
    /// `From<CopyInner>`.
    pub fn from_inner(inner: CopyInner) -> (t: CopyTask)
        ensures
            t.inner == inner,
    {
        CopyTask { inner }
    }
}

/// Reports the copies that would be made.
#[derive(Debug, Clone, PartialEq, Eq)]
pub struct DryRunCopyTask {
    pub inner: CopyInner,
}

impl DryRunCopyTask {
    /// `From<CopyInner>`.
    pub fn from_inner(inner: CopyInner) -> (t: DryRunCopyTask)
        ensures
            t.inner == inner,
    {
        DryRunCopyTask { inner }
    }
}

/// What an exec task runs.
#[derive(Debug, Clone, PartialEq, Eq)]
pub enum ExecScript {
    /// The command as the input of the given shell.
    WithShell { shell: String, input: Vec<String> },
    /// The command as a whole command line.
    Whole(String),
}

/// Runs a command for the destination user.
#[derive(Debug, Clone, PartialEq, Eq)]
pub struct ExecTask {
    pub shell: Option<String>,
    pub command: String,
}

/// Outcome of a command from its exit status: zero is success, anything
/// else an error that names the status.
pub fn exit_outcome(ec: i32) -> (r: Result<TaskStatus, TaskError>)
    ensures
        ec == 0 ==> r == Ok::<TaskStatus, TaskError>(TaskStatus::Success),
        ec != 0 ==> r == Err::<TaskStatus, TaskError>(TaskError::UnexpectedExitStatus(ec)),
{
    if ec != 0 {
        Err(TaskError::UnexpectedExitStatus(ec))
    } else {
        Ok(TaskStatus::Success)
    }
}

impl ExecTask {
    pub fn new(shell: Option<String>, command: String) -> (t: ExecTask)
        ensures
            t.shell == shell,
            t.command == command,
    {
        ExecTask { shell, command }
    }

    /// The command fed to the shell when one is set, else the command line itself.
    pub fn script(&self) -> (s: ExecScript)
        ensures
            match self.shell {
                Some(sh) => s matches ExecScript::WithShell { shell, input } && shell == sh
                    && input@ == seq![self.command],
                None => s == ExecScript::Whole(self.command),
            },
    {
        match &self.shell {
            Some(sh) => {
                let input = vec![self.command.clone()];
                ExecScript::WithShell { shell: sh.clone(), input }
            },
            None => ExecScript::Whole(self.command.clone()),
        }
    }
}

/// Reports the command that would run.
#[derive(Debug, Clone, PartialEq, Eq)]
pub struct DryRunExecTask {
    pub shell: Option<String>,
    pub command: String,
}

impl DryRunExecTask {
    pub fn new(shell: Option<String>, command: String) -> (t: DryRunExecTask)
        ensures
            t.shell == shell,
            t.command == command,
    {
        DryRunExecTask { shell, command }
    }

    /// `[Task] dry run exec {uid} {command} with {shell}`, the shell empty when none is set.
    pub fn message(&self, uid: &str) -> (m: String)
        ensures
            m@ == "[Task] dry run exec "@ + uid@ + seq![' '] + self.command@ + " with "@ + (
            match self.shell {
                Some(s) => s@,
                None => Seq::<char>::empty(),
            }),
    {
        let mut m = concat_str("[Task] dry run exec ", uid);
        push_char(&mut m, ' ');
        m.append(self.command.as_str());
        m.append(" with ");
        match &self.shell {
            Some(s) => m.append(s.as_str()),
            None => {},
        }
        m
    }
}

/// A task that always succeeds.
#[derive(Debug, Clone, Copy, PartialEq, Eq, Default)]
pub struct AlwaySuccess;

/// A task that never has anything to do.
#[derive(Debug, Clone, Copy, PartialEq, Eq, Default)]
pub struct AlwayDoNothing;

/// A task that always fails.
#[derive(Debug, Clone, Copy, PartialEq, Eq, Default)]
pub struct AlwayFailed;

impl AlwaySuccess {
    pub fn exec(&self) -> (s: TaskStatus)
        ensures
            s == TaskStatus::Success,
    {
        TaskStatus::Success
    }
}

impl AlwayDoNothing {
    pub fn exec(&self) -> (s: TaskStatus)
        ensures
            s == TaskStatus::DoNothing,
    {
        TaskStatus::DoNothing
    }
}

impl AlwayFailed {
    pub fn exec(&self) -> (s: TaskStatus)
        ensures
            s == TaskStatus::Failed,
    {
        TaskStatus::Failed
    }
}

/// Any task of a plan.
#[derive(Debug, Clone, PartialEq, Eq)]
pub enum BoxedTask {
    App(AppTask),
    DryRunApp(DryRunAppTask),
    Auto(AutoTask),
    DryRunAuto(DryRunAutoTask),
    Copy(CopyTask),
    DryRunCopy(DryRunCopyTask),
    Exec(ExecTask),
    DryRunExec(DryRunExecTask),
    Success(AlwaySuccess),
    DoNothing(AlwayDoNothing),
    Failed(AlwayFailed),
}

/// A configured task, ready to be placed in a plan.
#[derive(Debug, Clone, PartialEq, Eq)]
pub struct TaskParts {
    pub id: String,
    pub target: Target,
    pub next: Vec<String>,
    pub task: BoxedTask,
}

/// A task configuration that becomes a task of a plan.
pub trait TaskComplete: Sized {
    /// The task, real or dry run, with its users completed from `target`.
    fn cast(self, dry_run: bool, target: &Target) -> TaskParts;
}

/// Configuration of a package installation.
#[derive(Debug, Clone, PartialEq, Eq)]
pub struct AppTaskConfig {
    pub attr: TaskAttr,
    pub uid: Option<String>,
    pub pkgs: Vec<String>,
}

impl AppTaskConfig {
    pub fn new(attr: TaskAttr, pkgs: Vec<String>) -> (c: AppTaskConfig)
        ensures
            c.attr == attr,
            c.uid is None,
            c.pkgs == pkgs,
    {
        AppTaskConfig { attr, uid: None, pkgs }
    }

    pub fn with_user(self, user: String) -> (c: AppTaskConfig)
        ensures
            c.attr == self.attr,
            c.uid == Some(user),
            c.pkgs == self.pkgs,
    {
        let mut c = self;
        c.uid = Some(user);
        c
    }
}

impl TaskComplete for AppTaskConfig {
    fn cast(self, dry_run: bool, target: &Target) -> (p: TaskParts)
        ensures
            p.id == self.attr.id,
            p.next == self.attr.next,
            p.target.dst_uid == (if self.uid is Some {
                self.uid
            } else {
                target.dst_uid
            }),
            p.target.src_uid is None,
            dry_run ==> p.task == BoxedTask::DryRunApp(DryRunAppTask { pkgs: self.pkgs }),
            !dry_run ==> (p.task matches BoxedTask::App(t) && t.pkgs@ == spec_join_words(
                strs_view(self.pkgs@),
            )),
    {
        let dst_uid = or_else_clone(self.uid, &target.dst_uid);
        let task = if !dry_run {
            BoxedTask::App(AppTask::new(self.pkgs))
        } else {
            BoxedTask::DryRunApp(DryRunAppTask::new(self.pkgs))
        };
        TaskParts {
            id: self.attr.id,
            target: Target { dst_uid, src_uid: None },
            next: self.attr.next,
            task,
        }
    }
}

/// Configuration of a service action.
#[derive(Debug, Clone, PartialEq, Eq)]
pub struct AutoTaskConfig {
    pub attr: TaskAttr,
    pub uid: Option<String>,
    pub name: String,
    pub action: String,
}

impl AutoTaskConfig {
    pub fn new(attr: TaskAttr, name: String, action: String) -> (c: AutoTaskConfig)
        ensures
            c.attr == attr,
            c.uid is None,
            c.name == name,
            c.action == action,
    {
        AutoTaskConfig { attr, uid: None, name, action }
    }

    pub fn with_user(self, user: String) -> (c: AutoTaskConfig)
        ensures
            c.attr == self.attr,
            c.uid == Some(user),
            c.name == self.name,
            c.action == self.action,
    {
        let mut c = self;
        c.uid = Some(user);
        c
    }
}

impl TaskComplete for AutoTaskConfig {
    fn cast(self, dry_run: bool, target: &Target) -> (p: TaskParts)
        ensures
            p.id == self.attr.id,
            p.next == self.attr.next,
            p.target.dst_uid == (if self.uid is Some {
                self.uid
            } else {
                target.dst_uid
            }),
            p.target.src_uid is None,
            dry_run ==> p.task == BoxedTask::DryRunAuto(
                DryRunAutoTask { name: self.name, action: self.action },
            ),
            !dry_run ==> p.task == BoxedTask::Auto(AutoTask { name: self.name, action: self.action }),
    {
        let dst_uid = or_else_clone(self.uid, &target.dst_uid);
        let task = if !dry_run {
            BoxedTask::Auto(AutoTask::new(self.name, self.action))
        } else {
            BoxedTask::DryRunAuto(DryRunAutoTask::new(self.name, self.action))
        };
        TaskParts {
            id: self.attr.id,
            target: Target { dst_uid, src_uid: None },
            next: self.attr.next,
            task,
        }
    }
}

/// Configuration of a copy.
#[derive(Debug, Clone, PartialEq, Eq)]
pub struct CopyTaskConfig {
    pub attr: TaskAttr,
    pub target: Target,
    pub pair: Vec<(String, String)>,
}

impl CopyTaskConfig {
    pub fn new(attr: TaskAttr, pair: Vec<(String, String)>) -> (c: CopyTaskConfig)
        ensures
            c.attr == attr,
            c.target.src_uid is None,
            c.target.dst_uid is None,
            c.pair == pair,
    {
        CopyTaskConfig { attr, target: Target::default(), pair }
    }

    pub fn with_src(self, uid: String) -> (c: CopyTaskConfig)
        ensures
            c.attr == self.attr,
            c.target.src_uid == Some(uid),
            c.target.dst_uid == self.target.dst_uid,
            c.pair == self.pair,
    {
        let mut c = self;
        c.target.src_uid = Some(uid);
        c
    }

    pub fn with_dst(self, uid: String) -> (c: CopyTaskConfig)
        ensures
            c.attr == self.attr,
            c.target.src_uid == self.target.src_uid,
            c.target.dst_uid == Some(uid),
            c.pair == self.pair,
    {
        let mut c = self;
        c.target.dst_uid = Some(uid);
        c
    }
}

impl TaskComplete for CopyTaskConfig {
    fn cast(self, dry_run: bool, target: &Target) -> (p: TaskParts)
        ensures
            p.id == self.attr.id,
            p.next == self.attr.next,
            p.target.src_uid == (if self.target.src_uid is Some {
                self.target.src_uid
            } else {
                target.src_uid
            }),
            p.target.dst_uid == (if self.target.dst_uid is Some {
                self.target.dst_uid
            } else {
                target.dst_uid
            }),
            dry_run ==> p.task == BoxedTask::DryRunCopy(
                DryRunCopyTask { inner: CopyInner { pair: self.pair } },
            ),
            !dry_run ==> p.task == BoxedTask::Copy(CopyTask { inner: CopyInner { pair: self.pair } }),
    {
        let src_uid = or_else_clone(self.target.src_uid, &target.src_uid);
        let dst_uid = or_else_clone(self.target.dst_uid, &target.dst_uid);
        let inner = CopyInner::new(self.pair);
        let task = if !dry_run {
            BoxedTask::Copy(CopyTask::from_inner(inner))
        } else {
            BoxedTask::DryRunCopy(DryRunCopyTask::from_inner(inner))
        };
        TaskParts { id: self.attr.id, target: Target { src_uid, dst_uid }, next: self.attr.next, task }
    }
}

/// Configuration of a command.
#[derive(Debug, Clone, PartialEq, Eq)]
pub struct ExecTaskConfig {
    pub attr: TaskAttr,
    pub uid: Option<String>,
    pub shell: Option<String>,
    pub command: String,
}

impl ExecTaskConfig {
    pub fn new(attr: TaskAttr, command: String) -> (c: ExecTaskConfig)
        ensures
            c.attr == attr,
            c.uid is None,
            c.shell is None,
            c.command == command,
    {
        ExecTaskConfig { attr, uid: None, shell: None, command }
    }

    pub fn shell(self, shell: String) -> (c: ExecTaskConfig)
        ensures
            c.attr == self.attr,
            c.uid == self.uid,
            c.shell == Some(shell),
            c.command == self.command,
    {
        let mut c = self;
        c.shell = Some(shell);
        c
    }

    pub fn with_user(self, user: String) -> (c: ExecTaskConfig)
        ensures
            c.attr == self.attr,
            c.uid == Some(user),
            c.shell == self.shell,
            c.command == self.command,
    {
        let mut c = self;
        c.uid = Some(user);
        c
    }
}

impl TaskComplete for ExecTaskConfig {
    fn cast(self, dry_run: bool, target: &Target) -> (p: TaskParts)
        ensures
            p.id == self.attr.id,
            p.next == self.attr.next,
            p.target.dst_uid == (if self.uid is Some {
                self.uid
            } else {
                target.dst_uid
            }),
            p.target.src_uid is None,
            dry_run ==> p.task == BoxedTask::DryRunExec(
                DryRunExecTask { shell: self.shell, command: self.command },
            ),
            !dry_run ==> p.task == BoxedTask::Exec(
                ExecTask { shell: self.shell, command: self.command },
            ),
    {
        let dst_uid = or_else_clone(self.uid, &target.dst_uid);
        let task = if !dry_run {
            BoxedTask::Exec(ExecTask::new(self.shell, self.command))
        } else {
            BoxedTask::DryRunExec(DryRunExecTask::new(self.shell, self.command))
        };
        TaskParts {
            id: self.attr.id,
            target: Target { dst_uid, src_uid: None },
            next: self.attr.next,
            task,
        }
    }
}

} // verus!
