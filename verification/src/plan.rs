//! A plan runs tasks in the order of their dependencies. Each task has a
//! state node that counts the dependencies still running and keeps the
//! greatest outcome among those that ended; the task starts when the count
//! reaches zero.
use vstd::prelude::*;

use crate::task::{spec_rank, spec_status_of_rank, TaskStatus};

verus! {

/// Abstract state of a [`StateNode`]: the greatest rank received and the
/// number of dependencies still running.
pub struct NodeView {
    pub status: u8,
    pub deps: u32,
}

/// The state a task waits on before it starts.
#[derive(Debug)]
pub struct StateNode {
    status: u8,
    dep_count: u32,
}

/// Greatest of two ranks.
pub open spec fn spec_max(a: u8, b: u8) -> u8 {
    if a >= b {
        a
    } else {
        b
    }
}

/// One dependency ends with outcome `s`: the node keeps the greatest rank,
/// counts one dependency less, and fires with its rank when that was the last one.
pub open spec fn spec_try_exec(v: NodeView, s: TaskStatus) -> (NodeView, Option<TaskStatus>) {
    let status = spec_max(v.status, spec_rank(s));
    let deps = if v.deps == 0 {
        u32::MAX
    } else {
        (v.deps - 1) as u32
    };
    let fired = if v.deps == 1 {
        spec_status_of_rank(status)
    } else {
        None
    };
    (NodeView { status, deps }, fired)
}

impl StateNode {
    pub closed spec fn view(&self) -> NodeView {
        NodeView { status: self.status, deps: self.dep_count }
    }

    #[verifier::type_invariant]
    closed spec fn wf(&self) -> bool {
        self.status <= 2
    }

    /// A node with no dependency and the lowest outcome.
    pub fn new() -> (n: StateNode)
        ensures
            n.view().status == 0,
            n.view().deps == 0,
    {
        StateNode { status: 0, dep_count: 0 }
    }

    /// A node waiting on `deps` dependencies: what `deps` calls of `add_dep`
    /// make of a new node.
    pub fn waiting(deps: u32) -> (n: StateNode)
        ensures
            n.view().status == 0,
            n.view().deps == deps,
    {
        StateNode { status: 0, dep_count: deps }
    }

    /// One more dependency (the count wraps around, as an atomic add does).
    pub fn add_dep(&mut self)
        ensures
            final(self).view().status == old(self).view().status,
            final(self).view().deps == (if old(self).view().deps == u32::MAX {
                0
            } else {
                (old(self).view().deps + 1) as u32
            }),
    {
        proof {
            use_type_invariant(&*self);
        }
        self.dep_count = self.dep_count.wrapping_add(1);
    }

    /// Whether no dependency is left.
    pub fn free(&self) -> (r: bool)
        ensures
            r == (self.view().deps == 0),
    {
        self.dep_count == 0
    }

    /// A dependency ended with `s`; returns the outcome to start the task
    /// with when that was the last dependency.
    pub fn try_exec(&mut self, s: TaskStatus) -> (fired: Option<TaskStatus>)
        ensures
            (final(self).view(), fired) == spec_try_exec(old(self).view(), s),
    {
        proof {
            use_type_invariant(&*self);
        }
        let r = s.rank();
        if r > self.status {
            self.status = r;
        }
        let prev = self.dep_count;
        self.dep_count = prev.wrapping_sub(1);
        if prev == 1 {
            TaskStatus::from_rank(self.status)
        } else {
            None
        }
    }
}

/// Feeds the outcomes `ss`, in order, to a node in state `v`: the node's
/// final state and what each call returned.
pub open spec fn spec_run_node(v: NodeView, ss: Seq<TaskStatus>) -> (NodeView, Seq<
    Option<TaskStatus>,
>)
    decreases ss.len(),
{
    if ss.len() == 0 {
        (v, seq![])
    } else {
        let (w, outs) = spec_run_node(v, ss.drop_last());
        let (x, o) = spec_try_exec(w, ss.last());
        (x, outs.push(o))
    }
}

/// Greatest rank among the outcomes, starting from `r`.
pub open spec fn spec_max_rank(r: u8, ss: Seq<TaskStatus>) -> u8
    decreases ss.len(),
{
    if ss.len() == 0 {
        r
    } else {
        spec_max(spec_max_rank(r, ss.drop_last()), spec_rank(ss.last()))
    }
}

proof fn lemma_run_node_prefix(v: NodeView, ss: Seq<TaskStatus>)
    requires
        v.status <= 2,
        ss.len() <= v.deps,
    ensures
        spec_run_node(v, ss).0.status == spec_max_rank(v.status, ss),
        spec_run_node(v, ss).0.status <= 2,
        spec_run_node(v, ss).0.deps == v.deps - ss.len(),
        spec_run_node(v, ss).1.len() == ss.len(),
        forall|k: int|
            0 <= k < ss.len() ==> (#[trigger] spec_run_node(v, ss).1[k] is Some <==> v.deps - k
                == 1),
    decreases ss.len(),
{
    if ss.len() > 0 {
        lemma_run_node_prefix(v, ss.drop_last());
        let (w, outs) = spec_run_node(v, ss.drop_last());
        let (x, o) = spec_try_exec(w, ss.last());
        assert(spec_run_node(v, ss).1 == outs.push(o));
        assert forall|k: int| 0 <= k < ss.len() implies (#[trigger] spec_run_node(v, ss).1[k] is Some
            <==> v.deps - k == 1) by {
            if k < ss.len() - 1 {
                assert(spec_run_node(v, ss).1[k] == outs[k]);
            } else {
                assert(spec_run_node(v, ss).1[k] == o);
            }
        }
    }
}

/// A node made with `new`, given `n` dependencies and then fed the `n`
/// outcomes of those dependencies, fires exactly once, at the last outcome,
/// with the greatest of the outcomes; it is then free again.
pub proof fn law_node_fires_once_with_greatest(ss: Seq<TaskStatus>)
    requires
        0 < ss.len() < u32::MAX,
    ensures
        ({
            let (w, outs) = spec_run_node(NodeView { status: 0, deps: ss.len() as u32 }, ss);
            &&& w.deps == 0
            &&& outs.len() == ss.len()
            &&& forall|k: int| 0 <= k < ss.len() - 1 ==> #[trigger] outs[k] is None
            &&& outs[ss.len() - 1] == spec_status_of_rank(spec_max_rank(0, ss))
            &&& spec_status_of_rank(spec_max_rank(0, ss)) is Some
        }),
{
    let v = NodeView { status: 0, deps: ss.len() as u32 };
    lemma_run_node_prefix(v, ss);
    lemma_run_node_prefix(v, ss.drop_last());
    let (w, outs) = spec_run_node(v, ss.drop_last());
    let (x, o) = spec_try_exec(w, ss.last());
    assert(spec_run_node(v, ss).1 == outs.push(o));
    assert forall|k: int| 0 <= k < ss.len() - 1 implies #[trigger] spec_run_node(v, ss).1[k] is None by {
        assert(spec_run_node(v, ss).1[k] is Some <==> v.deps - k == 1);
    }
}

/// What a task does once its state node has fired (or its sender was dropped).
#[derive(Debug, Clone, Copy, PartialEq, Eq, Structural)]
pub enum NodeStep {
    /// Run the task; its outcome (a failure on error) goes to the next nodes.
    Execute,
    /// Do not run the task; this outcome goes to the next nodes.
    Skip(TaskStatus),
}

/// The step of a task from what its state node sent: the task runs only when
/// the combined outcome of its dependencies is a success; a lost message counts
/// as a failure.
pub open spec fn spec_node_step(received: Option<TaskStatus>) -> NodeStep {
    match received {
        Some(TaskStatus::Success) => NodeStep::Execute,
        Some(TaskStatus::DoNothing) => NodeStep::Skip(TaskStatus::DoNothing),
        Some(TaskStatus::Failed) => NodeStep::Skip(TaskStatus::Failed),
        None => NodeStep::Skip(TaskStatus::Failed),
    }
}

/// The step of a task once its state node has fired.
pub fn node_step(received: Option<TaskStatus>) -> (step: NodeStep)
    ensures
        step == spec_node_step(received),
{
    match received {
        Some(TaskStatus::Success) => NodeStep::Execute,
        Some(TaskStatus::DoNothing) => NodeStep::Skip(TaskStatus::DoNothing),
        Some(TaskStatus::Failed) => NodeStep::Skip(TaskStatus::Failed),
        None => NodeStep::Skip(TaskStatus::Failed),
    }
}

/// The outcome of a task run: an error counts as a failure.
pub fn outcome_of<E>(r: Result<TaskStatus, E>) -> (s: TaskStatus)
    ensures
        s == (match r {
            Ok(s) => s,
            Err(_) => TaskStatus::Failed,
        }),
{
    match r {
        Ok(s) => s,
        Err(_) => TaskStatus::Failed,
    }
}

/// A task whose dependencies ended with the outcomes `ss` runs exactly when
/// none of them failed and at least one succeeded.
pub proof fn law_task_runs_iff_some_success_and_no_failure(ss: Seq<TaskStatus>)
    requires
        0 < ss.len() < u32::MAX,
    ensures
        (spec_node_step(spec_status_of_rank(spec_max_rank(0, ss))) == NodeStep::Execute) <==> (
        (forall|k: int| 0 <= k < ss.len() ==> #[trigger] ss[k] != TaskStatus::Failed) && (exists|
            k: int,
        |
            0 <= k < ss.len() && #[trigger] ss[k] == TaskStatus::Success)),
{
    lemma_max_rank_facts(ss);
}

proof fn lemma_max_rank_facts(ss: Seq<TaskStatus>)
    ensures
        spec_max_rank(0, ss) <= 2,
        spec_max_rank(0, ss) == 2 <==> exists|k: int|
            0 <= k < ss.len() && #[trigger] ss[k] == TaskStatus::Failed,
        spec_max_rank(0, ss) >= 1 <==> exists|k: int|
            0 <= k < ss.len() && #[trigger] ss[k] != TaskStatus::DoNothing,
    decreases ss.len(),
{
    if ss.len() > 0 {
        let p = ss.drop_last();
        lemma_max_rank_facts(p);
        if exists|k: int| 0 <= k < p.len() && #[trigger] p[k] == TaskStatus::Failed {
            let k = choose|k: int| 0 <= k < p.len() && #[trigger] p[k] == TaskStatus::Failed;
            assert(ss[k] == TaskStatus::Failed);
        }
        if exists|k: int| 0 <= k < p.len() && #[trigger] p[k] != TaskStatus::DoNothing {
            let k = choose|k: int| 0 <= k < p.len() && #[trigger] p[k] != TaskStatus::DoNothing;
            assert(ss[k] != TaskStatus::DoNothing);
        }
        if exists|k: int| 0 <= k < ss.len() && #[trigger] ss[k] == TaskStatus::Failed {
            let k = choose|k: int| 0 <= k < ss.len() && #[trigger] ss[k] == TaskStatus::Failed;
            if k < ss.len() - 1 {
                assert(p[k] == TaskStatus::Failed);
            }
        }
        if exists|k: int| 0 <= k < ss.len() && #[trigger] ss[k] != TaskStatus::DoNothing {
            let k = choose|k: int| 0 <= k < ss.len() && #[trigger] ss[k] != TaskStatus::DoNothing;
            if k < ss.len() - 1 {
                assert(p[k] != TaskStatus::DoNothing);
            }
        }
    }
}

/// Node 0 is the start task, node 1 the final task, the others the tasks of the plan.
pub open spec fn spec_find_last(ids: Seq<String>, id: Seq<char>, n: int) -> Option<int>
    decreases n,
{
    if n <= 2 {
        None
    } else if ids[n - 1]@ == id {
        Some(n - 1)
    } else {
        spec_find_last(ids, id, n - 1)
    }
}

/// The task node that an id names: the last task with that id (a later task
/// shadows an earlier one with the same id).
pub open spec fn spec_resolve(ids: Seq<String>, id: Seq<char>) -> Option<int> {
    spec_find_last(ids, id, ids.len() as int)
}

/// Whether task `k` takes part in the plan (no later task has its id).
pub open spec fn spec_kept(ids: Seq<String>, k: int) -> bool {
    2 <= k < ids.len() && spec_resolve(ids, ids[k]@) == Some(k)
}

/// The state nodes that a task notifies for one entry of the topology: the
/// tasks named as next, or the final node when none is named.
pub open spec fn spec_targets(ids: Seq<String>, nx: Seq<String>) -> Seq<usize> {
    if nx.len() == 0 {
        seq![1usize]
    } else {
        Seq::new(nx.len(), |m: int| spec_resolve(ids, nx[m]@).unwrap() as usize)
    }
}

/// The state nodes that node `i` notifies after the entries `topo`.
pub open spec fn spec_topo_next(ids: Seq<String>, topo: Seq<(String, Vec<String>)>, i: int) -> Seq<
    usize,
>
    decreases topo.len(),
{
    if topo.len() == 0 {
        seq![]
    } else {
        let prev = spec_topo_next(ids, topo.drop_last(), i);
        if spec_resolve(ids, topo.last().0@) == Some(i) {
            prev + spec_targets(ids, topo.last().1@)
        } else {
            prev
        }
    }
}

/// Number of occurrences of `j` in `s`.
pub open spec fn spec_count(s: Seq<usize>, j: int) -> nat
    decreases s.len(),
{
    if s.len() == 0 {
        0
    } else {
        spec_count(s.drop_last(), j) + if s.last() == j {
            1nat
        } else {
            0nat
        }
    }
}

/// Number of occurrences of `j` in all the lists.
pub open spec fn spec_count_all(ls: Seq<Seq<usize>>, j: int) -> nat
    decreases ls.len(),
{
    if ls.len() == 0 {
        0
    } else {
        spec_count_all(ls.drop_last(), j) + spec_count(ls.last(), j)
    }
}

/// Total length of all the lists.
pub open spec fn spec_total_len(ls: Seq<Seq<usize>>) -> nat
    decreases ls.len(),
{
    if ls.len() == 0 {
        0
    } else {
        spec_total_len(ls.drop_last()) + ls.last().len()
    }
}

/// All notification lists after the entries `topo`.
pub open spec fn spec_topo_lists(ids: Seq<String>, topo: Seq<(String, Vec<String>)>) -> Seq<
    Seq<usize>,
> {
    Seq::new(ids.len(), |i: int| if i == 0 { seq![] } else { spec_topo_next(ids, topo, i) })
}

/// The tasks among `2..k` that take part in the plan and that no entry of the
/// topology names as a successor: the start task notifies them.
pub open spec fn spec_free_states(ids: Seq<String>, topo: Seq<(String, Vec<String>)>, k: int) -> Seq<
    usize,
>
    decreases k,
{
    if k <= 2 {
        seq![]
    } else {
        let prev = spec_free_states(ids, topo, k - 1);
        if spec_kept(ids, k - 1) && spec_count_all(spec_topo_lists(ids, topo), k - 1) == 0 {
            prev.push((k - 1) as usize)
        } else {
            prev
        }
    }
}

/// The tasks among `2..k` that take part in the plan, in order.
pub open spec fn spec_kept_list(ids: Seq<String>, k: int) -> Seq<usize>
    decreases k,
{
    if k <= 2 {
        seq![]
    } else if spec_kept(ids, k - 1) {
        spec_kept_list(ids, k - 1).push((k - 1) as usize)
    } else {
        spec_kept_list(ids, k - 1)
    }
}

/// Number of notifications that the entries `topo` create.
pub open spec fn spec_edge_total(ids: Seq<String>, topo: Seq<(String, Vec<String>)>) -> nat
    decreases topo.len(),
{
    if topo.len() == 0 {
        0
    } else {
        spec_edge_total(ids, topo.drop_last()) + spec_targets(ids, topo.last().1@).len()
    }
}

/// Every id that the topology names is the id of a task of the plan.
pub open spec fn spec_topo_resolves(ids: Seq<String>, topo: Seq<(String, Vec<String>)>) -> bool {
    forall|e: int|
        0 <= e < topo.len() ==> spec_resolve(ids, (#[trigger] topo[e]).0@) is Some && forall|
            m: int,
        |
            0 <= m < topo[e].1@.len() ==> spec_resolve(ids, (#[trigger] topo[e].1@[m])@) is Some
}

/// The dependency graph of a plan.
#[derive(Debug, Clone, PartialEq, Eq)]
pub struct Plan {
    /// For each node, the state nodes to notify when its task ends.
    pub next: Vec<Vec<usize>>,
    /// For each state node, the number of notifications it waits for.
    pub deps: Vec<u32>,
    /// The tasks to run: those that take part in the plan, then the start task.
    pub tasks: Vec<usize>,
}

/// The lists of a graph as sequences.
pub open spec fn spec_lists(next: Seq<Vec<usize>>) -> Seq<Seq<usize>> {
    Seq::new(next.len(), |i: int| next[i]@)
}

/// A dependency graph: every notification names a node of the graph, and
/// each node waits for exactly as many notifications as the lists hold for it.
pub open spec fn spec_graph_wf(lists: Seq<Seq<usize>>, deps: Seq<u32>) -> bool {
    &&& lists.len() == deps.len()
    &&& forall|i: int, m: int|
        0 <= i < lists.len() && 0 <= m < lists[i].len() ==> #[trigger] lists[i][m] < lists.len()
    &&& forall|j: int| 0 <= j < deps.len() ==> #[trigger] deps[j] == spec_count_all(lists, j)
}

proof fn lemma_targets_bounded(ids: Seq<String>, nx: Seq<String>)
    requires
        ids.len() >= 2,
        forall|m: int| 0 <= m < nx.len() ==> spec_resolve(ids, (#[trigger] nx[m])@) is Some,
    ensures
        forall|m: int| 0 <= m < spec_targets(ids, nx).len() ==> #[trigger] spec_targets(ids, nx)[m] < ids.len(),
{
    assert forall|m: int| 0 <= m < spec_targets(ids, nx).len() implies #[trigger] spec_targets(ids, nx)[m] < ids.len() by {
        if nx.len() > 0 {
            lemma_find_last_bounds(ids, nx[m]@, ids.len() as int);
        }
    }
}

proof fn lemma_topo_next_bounded(ids: Seq<String>, topo: Seq<(String, Vec<String>)>, i: int)
    requires
        ids.len() >= 2,
        spec_topo_resolves(ids, topo),
    ensures
        forall|m: int| 0 <= m < spec_topo_next(ids, topo, i).len() ==> #[trigger] spec_topo_next(ids, topo, i)[m] < ids.len(),
    decreases topo.len(),
{
    if topo.len() > 0 {
        let p = topo.drop_last();
        assert forall|e: int| 0 <= e < p.len() implies spec_resolve(ids, (#[trigger] p[e]).0@) is Some && forall|m: int|
            0 <= m < p[e].1@.len() ==> spec_resolve(ids, (#[trigger] p[e].1@[m])@) is Some by {
            assert(p[e] == topo[e]);
        }
        lemma_topo_next_bounded(ids, p, i);
        let last = topo.last();
        assert(last == topo[topo.len() - 1]);
        lemma_targets_bounded(ids, last.1@);
        let prev = spec_topo_next(ids, p, i);
        if spec_resolve(ids, last.0@) == Some(i) {
            let t = spec_targets(ids, last.1@);
            assert forall|m: int| 0 <= m < (prev + t).len() implies #[trigger] (prev + t)[m] < ids.len() by {
                if m >= prev.len() {
                    assert((prev + t)[m] == t[m - prev.len()]);
                }
            }
        }
    }
}

proof fn lemma_free_states_bounded(ids: Seq<String>, topo: Seq<(String, Vec<String>)>, k: int)
    ensures
        forall|m: int| 0 <= m < spec_free_states(ids, topo, k).len() ==> #[trigger] spec_free_states(ids, topo, k)[m] < k,
    decreases k,
{
    if k > 2 {
        lemma_free_states_bounded(ids, topo, k - 1);
        let prev = spec_free_states(ids, topo, k - 1);
        assert forall|m: int| 0 <= m < spec_free_states(ids, topo, k).len() implies #[trigger] spec_free_states(ids, topo, k)[m] < k by {
            if m < prev.len() {
                assert(spec_free_states(ids, topo, k)[m] == prev[m]);
            }
        }
    }
}

proof fn lemma_count_push(s: Seq<usize>, v: usize, j: int)
    ensures
        spec_count(s.push(v), j) == spec_count(s, j) + if v == j {
            1nat
        } else {
            0nat
        },
{
    assert(s.push(v).drop_last() =~= s);
}

proof fn lemma_count_le_len(s: Seq<usize>, j: int)
    ensures
        spec_count(s, j) <= s.len(),
    decreases s.len(),
{
    if s.len() > 0 {
        lemma_count_le_len(s.drop_last(), j);
    }
}

proof fn lemma_count_all_le_total(ls: Seq<Seq<usize>>, j: int)
    ensures
        spec_count_all(ls, j) <= spec_total_len(ls),
    decreases ls.len(),
{
    if ls.len() > 0 {
        lemma_count_all_le_total(ls.drop_last(), j);
        lemma_count_le_len(ls.last(), j);
    }
}

proof fn lemma_count_all_update_push(ls: Seq<Seq<usize>>, i: int, v: usize, j: int)
    requires
        0 <= i < ls.len(),
    ensures
        spec_count_all(ls.update(i, ls[i].push(v)), j) == spec_count_all(ls, j) + if v == j {
            1nat
        } else {
            0nat
        },
        spec_total_len(ls.update(i, ls[i].push(v))) == spec_total_len(ls) + 1,
    decreases ls.len(),
{
    let u = ls.update(i, ls[i].push(v));
    lemma_count_push(ls[i], v, j);
    if i == ls.len() - 1 {
        assert(u.drop_last() =~= ls.drop_last());
    } else {
        assert(u.drop_last() =~= ls.drop_last().update(i, ls[i].push(v)));
        lemma_count_all_update_push(ls.drop_last(), i, v, j);
    }
}

/// Index of the last task (at index 2 or more) whose id is `id`.
pub fn find_task(ids: &Vec<String>, id: &String) -> (r: Option<usize>)
    ensures
        r matches Some(k) ==> spec_resolve(ids@, id@) == Some(k as int),
        r is None ==> spec_resolve(ids@, id@) is None,
{
    let mut n: usize = ids.len();
    while n > 2
        invariant
            n <= ids@.len(),
            spec_resolve(ids@, id@) == spec_find_last(ids@, id@, n as int),
        decreases n,
    {
        if ids[n - 1] == *id {
            return Some(n - 1);
        }
        n = n - 1;
    }
    None
}

proof fn lemma_find_last_bounds(ids: Seq<String>, id: Seq<char>, n: int)
    requires
        n <= ids.len(),
    ensures
        spec_find_last(ids, id, n) matches Some(k) ==> 2 <= k < n && ids[k]@ == id,
    decreases n,
{
    if n > 2 {
        lemma_find_last_bounds(ids, id, n - 1);
    }
}

proof fn lemma_edge_total_prefix(ids: Seq<String>, topo: Seq<(String, Vec<String>)>, e: int)
    requires
        0 <= e <= topo.len(),
    ensures
        spec_edge_total(ids, topo.take(e)) <= spec_edge_total(ids, topo),
    decreases topo.len() - e,
{
    if e < topo.len() {
        lemma_edge_total_prefix(ids, topo, e + 1);
        assert(topo.take(e + 1).drop_last() =~= topo.take(e));
    } else {
        assert(topo.take(e) =~= topo);
    }
}

/// Adds `j` to the notification list of `i`, and one dependency to `j`.
fn push_edge(next: &mut Vec<Vec<usize>>, deps: &mut Vec<u32>, i: usize, j: usize)
    requires
        i < old(next)@.len(),
        j < old(deps)@.len(),
        old(deps)@[j as int] < u32::MAX,
    ensures
        final(next)@.len() == old(next)@.len(),
        spec_lists(final(next)@) == spec_lists(old(next)@).update(
            i as int,
            old(next)@[i as int]@.push(j),
        ),
        final(deps)@ == old(deps)@.update(j as int, (old(deps)@[j as int] + 1) as u32),
{
    next[i].push(j);
    let d = deps[j];
    deps.set(j, d + 1);
    assert(spec_lists(next@) =~= spec_lists(old(next)@).update(i as int, old(next)@[i as int]@.push(j)));
}

impl Plan {
/// The dependency graph of a plan. `ids` holds the id of the
/// start task, then that of the final task, then those of the tasks; `topo`
/// gives, for task ids, the ids of the tasks that run after them.
///
/// Each entry of `topo` makes its task notify the tasks it names, or the final
/// node when it names none. Each task that takes part in the plan and that no
/// entry names is notified by the start task. A state node waits for exactly
/// as many notifications as the lists hold for it.
pub fn new(ids: &Vec<String>, topo: &Vec<(String, Vec<String>)>) -> (g: Plan)
    requires
        ids@.len() >= 2,
        spec_topo_resolves(ids@, topo@),
        spec_edge_total(ids@, topo@) + ids@.len() <= u32::MAX,
    ensures
        g.next@.len() == ids@.len(),
        g.deps@.len() == ids@.len(),
        g.next@[0]@ == spec_free_states(ids@, topo@, ids@.len() as int),
        forall|i: int| 1 <= i < ids@.len() ==> (#[trigger] g.next@[i])@ == spec_topo_next(ids@, topo@, i),
        forall|j: int| 0 <= j < ids@.len() ==> #[trigger] g.deps@[j] == spec_count_all(spec_lists(g.next@), j),
        forall|j: int| spec_kept(ids@, j) ==> #[trigger] g.deps@[j] >= 1,
        g.tasks@ == spec_kept_list(ids@, ids@.len() as int).push(0),
        spec_graph_wf(spec_lists(g.next@), g.deps@),
{
    let n = ids.len();
    let mut next: Vec<Vec<usize>> = Vec::new();
    let mut deps: Vec<u32> = Vec::new();
    let mut k: usize = 0;
    while k < n
        invariant
            n == ids@.len(),
            k <= n,
            next@.len() == k,
            deps@.len() == k,
            forall|i: int| 0 <= i < k ==> (#[trigger] next@[i])@.len() == 0,
            forall|j: int| 0 <= j < k ==> #[trigger] deps@[j] == 0,
        decreases n - k,
    {
        next.push(Vec::new());
        deps.push(0);
        k = k + 1;
    }
    proof {
        assert(topo@.take(0).len() == 0);
        assert forall|i: int| 0 <= i < n implies spec_lists(next@)[i] =~= spec_topo_lists(ids@, topo@.take(0))[i] by {}
        assert(spec_lists(next@) =~= spec_topo_lists(ids@, topo@.take(0)));
        assert forall|j: int| 0 <= j < n implies #[trigger] deps@[j] == spec_count_all(spec_lists(next@), j) by {
            lemma_count_all_zero(spec_lists(next@), j);
        }
        lemma_total_len_zero(spec_lists(next@));
    }
    // Notifications given by the topology.
    let mut e: usize = 0;
    while e < topo.len()
        invariant
            n == ids@.len(),
            n >= 2,
            e <= topo@.len(),
            spec_topo_resolves(ids@, topo@),
            spec_edge_total(ids@, topo@) + n <= u32::MAX,
            next@.len() == n,
            deps@.len() == n,
            spec_lists(next@) == spec_topo_lists(ids@, topo@.take(e as int)),
            forall|j: int| 0 <= j < n ==> #[trigger] deps@[j] == spec_count_all(spec_lists(next@), j),
            spec_total_len(spec_lists(next@)) == spec_edge_total(ids@, topo@.take(e as int)),
        decreases topo@.len() - e,
    {
        let ghost before = spec_lists(next@);
        let ghost pre = topo@.take(e as int);
        let ghost post = topo@.take(e + 1);
        proof {
            assert(post.drop_last() =~= pre);
            assert(post.last() == topo@[e as int]);
            lemma_edge_total_prefix(ids@, topo@, e + 1);
        }
        let id = &topo[e].0;
        let nx = &topo[e].1;
        let found = find_task(ids, id);
        let i = match found {
            Some(i) => i,
            None => {
                proof {
                    assert(spec_resolve(ids@, topo@[e as int].0@) is Some);
                }
                0
            },
        };
        proof {
            lemma_find_last_bounds(ids@, id@, ids@.len() as int);
        }
        let ghost targets = spec_targets(ids@, nx@);
        if nx.len() == 0 {
            proof {
                lemma_count_all_le_total(spec_lists(next@), 1);
            }
            push_edge(&mut next, &mut deps, i, 1);
            proof {
                lemma_count_all_update_push(before, i as int, 1, 0);
                assert forall|j: int| 0 <= j < n implies #[trigger] deps@[j] == spec_count_all(spec_lists(next@), j) by {
                    lemma_count_all_update_push(before, i as int, 1, j);
                }
                assert(targets =~= seq![1usize]);
                assert forall|ii: int| 0 <= ii < n implies spec_lists(next@)[ii] =~= spec_topo_lists(ids@, post)[ii] by {
                    if ii != 0 {
                        assert(spec_topo_next(ids@, post, ii) == (if spec_resolve(ids@, post.last().0@) == Some(ii) {
                            spec_topo_next(ids@, pre, ii) + spec_targets(ids@, post.last().1@)
                        } else {
                            spec_topo_next(ids@, pre, ii)
                        }));
                    }
                }
                assert(spec_lists(next@) =~= spec_topo_lists(ids@, post));
            }
        } else {
            let mut m: usize = 0;
            while m < nx.len()
                invariant
                    n == ids@.len(),
                    2 <= i < n,
                    m <= nx@.len(),
                    nx@ == topo@[e as int].1@,
                    e < topo@.len(),
                    before.len() == n,
                    before == spec_topo_lists(ids@, pre),
                    post.drop_last() == pre,
                    post.last() == topo@[e as int],
                    spec_resolve(ids@, topo@[e as int].0@) == Some(i as int),
                    spec_topo_resolves(ids@, topo@),
                    targets == spec_targets(ids@, nx@),
                    nx@.len() > 0,
                    spec_edge_total(ids@, topo@) + n <= u32::MAX,
                    spec_edge_total(ids@, post) <= spec_edge_total(ids@, topo@),
                    spec_edge_total(ids@, post) == spec_edge_total(ids@, pre) + targets.len(),
                    next@.len() == n,
                    deps@.len() == n,
                    spec_lists(next@) == before.update(i as int, before[i as int] + targets.take(m as int)),
                    forall|j: int| 0 <= j < n ==> #[trigger] deps@[j] == spec_count_all(spec_lists(next@), j),
                    spec_total_len(spec_lists(next@)) == spec_edge_total(ids@, pre) + m,
                decreases nx@.len() - m,
            {
                let f = find_task(ids, &nx[m]);
                let j = match f {
                    Some(j) => j,
                    None => {
                        proof {
                            assert(spec_resolve(ids@, topo@[e as int].1@[m as int]@) is Some);
                        }
                        0
                    },
                };
                proof {
                    lemma_find_last_bounds(ids@, nx@[m as int]@, ids@.len() as int);
                    lemma_count_all_le_total(spec_lists(next@), j as int);
                    assert(targets[m as int] == j);
                }
                let ghost cur = spec_lists(next@);
                push_edge(&mut next, &mut deps, i, j);
                proof {
                    assert forall|jj: int| 0 <= jj < n implies #[trigger] deps@[jj] == spec_count_all(spec_lists(next@), jj) by {
                        lemma_count_all_update_push(cur, i as int, j, jj);
                    }
                    lemma_count_all_update_push(cur, i as int, j, 0);
                    assert(targets.take(m + 1) =~= targets.take(m as int).push(j));
                    assert((before[i as int] + targets.take(m as int)).push(j) =~= before[i as int] + targets.take(m + 1));
                    assert(spec_lists(next@) =~= before.update(i as int, before[i as int] + targets.take(m + 1)));
                }
                m = m + 1;
            }
            proof {
                assert(targets.take(nx@.len() as int) =~= targets);
                assert forall|ii: int| 0 <= ii < n implies spec_lists(next@)[ii] =~= spec_topo_lists(ids@, post)[ii] by {
                    if ii != 0 {
                        assert(spec_topo_next(ids@, post, ii) == (if spec_resolve(ids@, post.last().0@) == Some(ii) {
                            spec_topo_next(ids@, pre, ii) + spec_targets(ids@, post.last().1@)
                        } else {
                            spec_topo_next(ids@, pre, ii)
                        }));
                    }
                }
                assert(spec_lists(next@) =~= spec_topo_lists(ids@, post));
            }
        }
        e = e + 1;
    }
    proof {
        assert(topo@.take(topo@.len() as int) =~= topo@);
    }
    // The start task notifies the tasks that nothing else notifies.
    let ghost d1 = deps@;
    let ghost topo_lists = spec_lists(next@);
    proof {
        assert(topo_lists[0] == spec_topo_lists(ids@, topo@)[0]);
        assert(next@[0]@ == topo_lists[0]);
        assert(next@[0]@ =~= spec_free_states(ids@, topo@, 2));
    }
    let mut j: usize = 2;
    while j < n
        invariant
            n == ids@.len(),
            2 <= j <= n,
            next@.len() == n,
            deps@.len() == n,
            d1.len() == n,
            topo_lists == spec_topo_lists(ids@, topo@),
            forall|i: int| 1 <= i < n ==> (#[trigger] next@[i])@ == topo_lists[i],
            next@[0]@ == spec_free_states(ids@, topo@, j as int),
            forall|jj: int| j <= jj < n ==> #[trigger] deps@[jj] == d1[jj],
            forall|jj: int| 0 <= jj < n ==> #[trigger] d1[jj] == spec_count_all(topo_lists, jj),
            forall|jj: int| 0 <= jj < n ==> #[trigger] deps@[jj] == spec_count_all(spec_lists(next@), jj),
            forall|jj: int| 2 <= jj < j && spec_kept(ids@, jj) ==> #[trigger] deps@[jj] >= 1,
            spec_total_len(spec_lists(next@)) <= spec_edge_total(ids@, topo@) + j,
            spec_edge_total(ids@, topo@) + n <= u32::MAX,
        decreases n - j,
    {
        let f = find_task(ids, &ids[j]);
        let kept = match f {
            Some(k) => k == j,
            None => false,
        };
        let ghost cur = spec_lists(next@);
        proof {
            lemma_find_last_bounds(ids@, ids@[j as int]@, ids@.len() as int);
            assert(kept == spec_kept(ids@, j as int));
            assert(spec_free_states(ids@, topo@, j + 1) == (if spec_kept(ids@, j as int) && spec_count_all(spec_topo_lists(ids@, topo@), j as int) == 0 {
                spec_free_states(ids@, topo@, j as int).push(j)
            } else {
                spec_free_states(ids@, topo@, j as int)
            }));
        }
        if kept && deps[j] == 0 {
            proof {
                lemma_count_all_le_total(cur, j as int);
            }
            push_edge(&mut next, &mut deps, 0, j);
            proof {
                assert forall|i: int| 1 <= i < n implies (#[trigger] next@[i])@ == topo_lists[i] by {
                    assert(spec_lists(next@)[i] == cur[i]);
                }
                assert(next@[0]@ == spec_lists(next@)[0]);
                assert forall|jj: int| 0 <= jj < n implies #[trigger] deps@[jj] == spec_count_all(spec_lists(next@), jj) by {
                    lemma_count_all_update_push(cur, 0, j, jj);
                }
                lemma_count_all_update_push(cur, 0, j, 0);
            }
        }
        j = j + 1;
    }
    // The tasks to run.
    let mut tasks: Vec<usize> = Vec::new();
    let mut t: usize = 2;
    while t < n
        invariant
            n == ids@.len(),
            2 <= t <= n,
            tasks@ == spec_kept_list(ids@, t as int),
        decreases n - t,
    {
        let f = find_task(ids, &ids[t]);
        let kept = match f {
            Some(k) => k == t,
            None => false,
        };
        if kept {
            tasks.push(t);
        }
        t = t + 1;
    }
    tasks.push(0);
    assert forall|jj: int| spec_kept(ids@, jj) implies #[trigger] deps@[jj] >= 1 by {}
    proof {
        let ls = spec_lists(next@);
        assert forall|i: int, m: int| 0 <= i < ls.len() && 0 <= m < ls[i].len() implies #[trigger] ls[i][m] < ls.len() by {
            if i == 0 {
                lemma_free_states_bounded(ids@, topo@, n as int);
                assert(ls[0] == spec_free_states(ids@, topo@, n as int));
            } else {
                lemma_topo_next_bounded(ids@, topo@, i);
                assert(ls[i] == spec_topo_next(ids@, topo@, i));
            }
        }
    }
    Plan { next, deps, tasks }
}
}

proof fn lemma_count_all_zero(ls: Seq<Seq<usize>>, j: int)
    requires
        forall|i: int| 0 <= i < ls.len() ==> (#[trigger] ls[i]).len() == 0,
    ensures
        spec_count_all(ls, j) == 0,
    decreases ls.len(),
{
    if ls.len() > 0 {
        lemma_count_all_zero(ls.drop_last(), j);
    }
}

proof fn lemma_total_len_zero(ls: Seq<Seq<usize>>)
    requires
        forall|i: int| 0 <= i < ls.len() ==> (#[trigger] ls[i]).len() == 0,
    ensures
        spec_total_len(ls) == 0,
    decreases ls.len(),
{
    if ls.len() > 0 {
        lemma_total_len_zero(ls.drop_last());
    }
}

} // verus!
