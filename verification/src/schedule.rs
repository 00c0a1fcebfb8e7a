//! Running a plan: each task that ends notifies the state nodes after it, and
//! a task starts with the combined outcome of its dependencies once its node
//! has heard from all of them.
use vstd::prelude::*;

use crate::plan::{
    spec_count, spec_count_all, spec_graph_wf, spec_lists, spec_max, spec_try_exec, NodeView,
    Plan, StateNode,
};
use crate::task::{spec_rank, spec_status_of_rank, TaskStatus};

verus! {

/// Number of notifications that node `j` has received: those of the lists
/// of the nodes that have ended (those with an outcome).
pub open spec fn spec_delivered(ls: Seq<Seq<usize>>, outs: Seq<Option<TaskStatus>>, j: int) -> nat
    decreases ls.len(),
{
    if ls.len() == 0 || outs.len() == 0 {
        0
    } else {
        spec_delivered(ls.drop_last(), outs.drop_last(), j) + if outs.last() is Some {
            spec_count(ls.last(), j)
        } else {
            0nat
        }
    }
}

/// Greatest rank among the outcomes of the ended nodes that notify `j`
/// (0 when there is none).
pub open spec fn spec_delivered_rank(ls: Seq<Seq<usize>>, outs: Seq<Option<TaskStatus>>, j: int) -> u8
    decreases ls.len(),
{
    if ls.len() == 0 || outs.len() == 0 {
        0
    } else {
        let prev = spec_delivered_rank(ls.drop_last(), outs.drop_last(), j);
        if outs.last() is Some && spec_count(ls.last(), j) > 0 {
            spec_max(prev, spec_rank(outs.last()->Some_0))
        } else {
            prev
        }
    }
}

/// Feeds outcome `s` to the state nodes `targets`, in order: the nodes
/// afterwards, and the nodes that fired with what they fired.
pub open spec fn spec_notify(nodes: Seq<NodeView>, targets: Seq<usize>, s: TaskStatus) -> (Seq<
    NodeView,
>, Seq<(usize, TaskStatus)>)
    decreases targets.len(),
{
    if targets.len() == 0 {
        (nodes, seq![])
    } else {
        let (ns, fired) = spec_notify(nodes, targets.drop_last(), s);
        let t = targets.last() as int;
        let (v, o) = spec_try_exec(ns[t], s);
        (
            ns.update(t, v),
            match o {
                Some(st) => fired.push((targets.last(), st)),
                None => fired,
            },
        )
    }
}

proof fn lemma_count_take(s: Seq<usize>, m: int, j: int)
    requires
        0 <= m < s.len(),
    ensures
        spec_count(s.take(m + 1), j) == spec_count(s.take(m), j) + if s[m] == j {
            1nat
        } else {
            0nat
        },
{
    assert(s.take(m + 1).drop_last() =~= s.take(m));
}

proof fn lemma_count_take_le(s: Seq<usize>, m: int, j: int)
    requires
        0 <= m <= s.len(),
    ensures
        spec_count(s.take(m), j) <= spec_count(s, j),
    decreases s.len() - m,
{
    if m < s.len() {
        lemma_count_take(s, m, j);
        lemma_count_take_le(s, m + 1, j);
    } else {
        assert(s.take(m) =~= s);
    }
}

proof fn lemma_count_positive(s: Seq<usize>, m: int)
    requires
        0 <= m < s.len(),
    ensures
        spec_count(s, s[m] as int) > 0,
{
    lemma_count_take(s, m, s[m] as int);
    lemma_count_take_le(s, m + 1, s[m] as int);
}

/// What feeding an outcome to some nodes does to each of them.
proof fn lemma_notify_facts(nodes: Seq<NodeView>, targets: Seq<usize>, s: TaskStatus)
    requires
        forall|m: int| 0 <= m < targets.len() ==> (#[trigger] targets[m]) < nodes.len(),
        forall|j: int| 0 <= j < nodes.len() ==> (#[trigger] nodes[j]).deps >= spec_count(targets, j),
        forall|j: int| 0 <= j < nodes.len() ==> (#[trigger] nodes[j]).status <= 2,
    ensures
        ({
            let (ns, fired) = spec_notify(nodes, targets, s);
            &&& ns.len() == nodes.len()
            &&& forall|j: int|
                0 <= j < nodes.len() ==> (#[trigger] ns[j]).deps == nodes[j].deps - spec_count(targets, j)
            &&& forall|j: int|
                0 <= j < nodes.len() ==> (#[trigger] ns[j]).status == if spec_count(targets, j) > 0 {
                    spec_max(nodes[j].status, spec_rank(s))
                } else {
                    nodes[j].status
                }
            &&& forall|i: int|
                0 <= i < fired.len() ==> {
                    let j = (#[trigger] fired[i]).0 as int;
                    &&& 0 <= j < nodes.len()
                    &&& spec_count(targets, j) > 0
                    &&& ns[j].deps == 0
                    &&& spec_status_of_rank(ns[j].status) == Some(fired[i].1)
                }
            &&& forall|j: int|
                0 <= j < nodes.len() && spec_count(targets, j) > 0 && (#[trigger] ns[j]).deps == 0
                    ==> exists|i: int| 0 <= i < fired.len() && (#[trigger] fired[i]).0 == j
            &&& forall|i1: int, i2: int|
                0 <= i1 < i2 < fired.len() ==> (#[trigger] fired[i1]).0 != (#[trigger] fired[i2]).0
        }),
    decreases targets.len(),
{
    if targets.len() > 0 {
        let p = targets.drop_last();
        let t = targets.last() as int;
        assert forall|j: int| 0 <= j < nodes.len() implies (#[trigger] nodes[j]).deps >= spec_count(p, j) by {}
        assert forall|m: int| 0 <= m < p.len() implies (#[trigger] p[m]) < nodes.len() by {
            assert(p[m] == targets[m]);
        }
        lemma_notify_facts(nodes, p, s);
        let (ns0, f0) = spec_notify(nodes, p, s);
        assert(targets[targets.len() - 1] == targets.last());
        let (v, o) = spec_try_exec(ns0[t], s);
        let (ns, fired) = spec_notify(nodes, targets, s);
        assert(ns == ns0.update(t, v));
        assert(ns0[t].deps >= 1);
        assert forall|i: int| 0 <= i < f0.len() implies (#[trigger] f0[i]).0 != t by {}
        assert forall|i: int|
            0 <= i < fired.len() implies {
                let j = (#[trigger] fired[i]).0 as int;
                &&& 0 <= j < nodes.len()
                &&& spec_count(targets, j) > 0
                &&& ns[j].deps == 0
                &&& spec_status_of_rank(ns[j].status) == Some(fired[i].1)
            } by {
            if i < f0.len() {
                assert(fired[i] == f0[i]);
            }
        }
        assert forall|j: int|
            0 <= j < nodes.len() && spec_count(targets, j) > 0 && (#[trigger] ns[j]).deps == 0 implies exists|
                i: int,
            |
                0 <= i < fired.len() && (#[trigger] fired[i]).0 == j by {
            if j == t {
                assert(fired[fired.len() - 1].0 == j);
            } else {
                let i = choose|i: int| 0 <= i < f0.len() && (#[trigger] f0[i]).0 == j;
                assert(fired[i] == f0[i]);
            }
        }
        assert forall|i1: int, i2: int|
            0 <= i1 < i2 < fired.len() implies (#[trigger] fired[i1]).0 != (#[trigger] fired[i2]).0 by {
            assert(fired[i1] == f0[i1]);
            if i2 < f0.len() {
                assert(fired[i2] == f0[i2]);
            }
        }
    }
}

proof fn lemma_delivered_none(ls: Seq<Seq<usize>>, outs: Seq<Option<TaskStatus>>, j: int)
    requires
        ls.len() == outs.len(),
        forall|i: int| 0 <= i < outs.len() ==> (#[trigger] outs[i]) is None,
    ensures
        spec_delivered(ls, outs, j) == 0,
        spec_delivered_rank(ls, outs, j) == 0,
    decreases ls.len(),
{
    if ls.len() > 0 {
        assert(outs.last() == outs[outs.len() - 1]);
        lemma_delivered_none(ls.drop_last(), outs.drop_last(), j);
    }
}

proof fn lemma_delivered_bounds(ls: Seq<Seq<usize>>, outs: Seq<Option<TaskStatus>>, j: int)
    requires
        ls.len() == outs.len(),
    ensures
        spec_delivered(ls, outs, j) <= spec_count_all(ls, j),
        spec_delivered_rank(ls, outs, j) <= 2,
        spec_delivered(ls, outs, j) == spec_count_all(ls, j) <==> forall|i: int|
            0 <= i < ls.len() && spec_count(#[trigger] ls[i], j) > 0 ==> outs[i] is Some,
    decreases ls.len(),
{
    if ls.len() > 0 {
        let p = ls.drop_last();
        let q = outs.drop_last();
        let n = ls.len() - 1;
        lemma_delivered_bounds(p, q, j);
        assert(ls.last() == ls[n]);
        assert(outs.last() == outs[n]);
        if spec_delivered(ls, outs, j) == spec_count_all(ls, j) {
            assert forall|i: int| 0 <= i < ls.len() && spec_count(#[trigger] ls[i], j) > 0 implies outs[i] is Some by {
                if i < n {
                    assert(p[i] == ls[i]);
                    assert(q[i] == outs[i]);
                }
            }
        }
        if forall|i: int| 0 <= i < ls.len() && spec_count(#[trigger] ls[i], j) > 0 ==> outs[i] is Some {
            assert forall|i: int| 0 <= i < p.len() && spec_count(#[trigger] p[i], j) > 0 implies q[i] is Some by {
                assert(p[i] == ls[i]);
                assert(q[i] == outs[i]);
            }
        }
    }
}

proof fn lemma_delivered_update(
    ls: Seq<Seq<usize>>,
    outs: Seq<Option<TaskStatus>>,
    k: int,
    s: TaskStatus,
    j: int,
)
    requires
        ls.len() == outs.len(),
        0 <= k < ls.len(),
        outs[k] is None,
    ensures
        spec_delivered(ls, outs.update(k, Some(s)), j) == spec_delivered(ls, outs, j) + spec_count(ls[k], j),
        spec_delivered_rank(ls, outs.update(k, Some(s)), j) == if spec_count(ls[k], j) > 0 {
            spec_max(spec_delivered_rank(ls, outs, j), spec_rank(s))
        } else {
            spec_delivered_rank(ls, outs, j)
        },
    decreases ls.len(),
{
    let u = outs.update(k, Some(s));
    let n = ls.len() - 1;
    assert(ls.last() == ls[n]);
    assert(outs.last() == outs[n]);
    if k == n {
        assert(u.drop_last() =~= outs.drop_last());
        assert(u.last() == Some(s));
    } else {
        assert(u.drop_last() =~= outs.drop_last().update(k, Some(s)));
        assert(u.last() == outs.last());
        assert(ls.drop_last()[k] == ls[k]);
        lemma_delivered_update(ls.drop_last(), outs.drop_last(), k, s, j);
    }
}

/// The state of a plan that is running.
pub struct RunView {
    /// For each node, the state nodes it notifies when it ends.
    pub lists: Seq<Seq<usize>>,
    /// For each state node, the number of notifications it waits for in all.
    pub deps: Seq<u32>,
    /// The state nodes.
    pub nodes: Seq<NodeView>,
    /// The outcome of each node that has ended.
    pub outcomes: Seq<Option<TaskStatus>>,
}

/// A running plan is consistent: each state node counts the notifications it
/// still waits for, and keeps the greatest outcome among those it received.
pub open spec fn spec_run_wf(v: RunView) -> bool {
    &&& spec_graph_wf(v.lists, v.deps)
    &&& v.nodes.len() == v.lists.len()
    &&& v.outcomes.len() == v.lists.len()
    &&& forall|j: int|
        0 <= j < v.nodes.len() ==> (#[trigger] v.nodes[j]).deps + spec_delivered(v.lists, v.outcomes, j)
            == v.deps[j]
    &&& forall|j: int|
        0 <= j < v.nodes.len() ==> (#[trigger] v.nodes[j]).status == spec_delivered_rank(
            v.lists,
            v.outcomes,
            j,
        )
}

/// A plan being run: tasks end one at a time, in any order that the
/// dependencies allow, and each end notifies the state nodes after it.
pub struct PlanRun {
    next: Vec<Vec<usize>>,
    deps: Vec<u32>,
    nodes: Vec<StateNode>,
    outcomes: Vec<Option<TaskStatus>>,
}

impl PlanRun {
    pub closed spec fn view(&self) -> RunView {
        RunView {
            lists: spec_lists(self.next@),
            deps: self.deps@,
            nodes: Seq::new(self.nodes@.len(), |i: int| self.nodes@[i].view()),
            outcomes: self.outcomes@,
        }
    }

    /// Starts a plan: no task has ended, and each state node waits for all
    /// its notifications. The start task (node 0) is handed a success to
    /// begin with.
    pub fn new(plan: Plan) -> (r: PlanRun)
        requires
            spec_graph_wf(spec_lists(plan.next@), plan.deps@),
        ensures
            r@.lists == spec_lists(plan.next@),
            r@.deps == plan.deps@,
            r@.nodes == Seq::new(plan.deps@.len(), |j: int| (NodeView { status: 0, deps: plan.deps@[j] })),
            r@.outcomes == Seq::new(plan.deps@.len(), |i: int| None::<TaskStatus>),
            spec_run_wf(r@),
    {
        let n = plan.deps.len();
        let mut nodes: Vec<StateNode> = Vec::new();
        let mut outcomes: Vec<Option<TaskStatus>> = Vec::new();
        let mut j: usize = 0;
        while j < n
            invariant
                n == plan.deps@.len(),
                j <= n,
                nodes@.len() == j,
                outcomes@.len() == j,
                forall|i: int| 0 <= i < j ==> (#[trigger] nodes@[i]).view() == (NodeView { status: 0, deps: plan.deps@[i] }),
                forall|i: int| 0 <= i < j ==> (#[trigger] outcomes@[i]) is None,
            decreases n - j,
        {
            nodes.push(StateNode::waiting(plan.deps[j]));
            outcomes.push(None);
            j = j + 1;
        }
        let r = PlanRun { next: plan.next, deps: plan.deps, nodes, outcomes };
        proof {
            let v = r@;
            assert(v.nodes =~= Seq::new(n as nat, |j: int| (NodeView { status: 0, deps: plan.deps@[j] })));
            assert(v.outcomes =~= Seq::new(n as nat, |i: int| None::<TaskStatus>));
            assert forall|j: int| 0 <= j < v.nodes.len() implies (#[trigger] v.nodes[j]).deps + spec_delivered(v.lists, v.outcomes, j) == v.deps[j]
                && v.nodes[j].status == spec_delivered_rank(v.lists, v.outcomes, j) by {
                lemma_delivered_none(v.lists, v.outcomes, j);
            }
        }
        r
    }

    /// Task `k` ended with `s`: each state node on its list is notified in
    /// turn. Returns the nodes that fired, that is those that received their
    /// last notification, each with the combined outcome it starts with.
    pub fn finish(&mut self, k: usize, s: TaskStatus) -> (fired: Vec<(usize, TaskStatus)>)
        requires
            spec_run_wf(old(self)@),
            k < old(self)@.lists.len(),
            old(self)@.outcomes[k as int] is None,
        ensures
            final(self)@.lists == old(self)@.lists,
            final(self)@.deps == old(self)@.deps,
            final(self)@.outcomes == old(self)@.outcomes.update(k as int, Some(s)),
            (final(self)@.nodes, fired@) == spec_notify(old(self)@.nodes, old(self)@.lists[k as int], s),
            spec_run_wf(final(self)@),
            forall|i: int|
                0 <= i < fired@.len() ==> {
                    let j = (#[trigger] fired@[i]).0 as int;
                    &&& spec_count(old(self)@.lists[k as int], j) > 0
                    &&& old(self)@.nodes[j].deps > 0
                    &&& final(self)@.nodes[j].deps == 0
                    &&& spec_status_of_rank(final(self)@.nodes[j].status) == Some(fired@[i].1)
                },
            forall|j: int|
                0 <= j < final(self)@.nodes.len() && spec_count(old(self)@.lists[k as int], j) > 0
                    && (#[trigger] final(self)@.nodes[j]).deps == 0 ==> exists|i: int|
                    0 <= i < fired@.len() && (#[trigger] fired@[i]).0 == j,
            forall|i1: int, i2: int|
                0 <= i1 < i2 < fired@.len() ==> (#[trigger] fired@[i1]).0 != (#[trigger] fired@[i2]).0,
    {
        let ghost v0 = self@;
        let ghost targets = v0.lists[k as int];
        let ghost n = v0.lists.len();
        proof {
            assert forall|j: int| 0 <= j < n implies (#[trigger] v0.nodes[j]).deps >= spec_count(targets, j)
                && v0.nodes[j].status <= 2 by {
                lemma_delivered_update(v0.lists, v0.outcomes, k as int, s, j);
                lemma_delivered_bounds(v0.lists, v0.outcomes.update(k as int, Some(s)), j);
                lemma_delivered_bounds(v0.lists, v0.outcomes, j);
            }
            assert forall|m: int| 0 <= m < targets.len() implies (#[trigger] targets[m]) < n by {
                assert(v0.lists[k as int][m] < v0.lists.len());
            }
        }
        let mut fired: Vec<(usize, TaskStatus)> = Vec::new();
        let len = self.next[k].len();
        let mut m: usize = 0;
        while m < len
            invariant
                m <= len,
                len == targets.len(),
                n == v0.lists.len(),
                k < n,
                targets == v0.lists[k as int],
                spec_lists(self.next@) == v0.lists,
                self.next@.len() == n,
                self.deps@ == v0.deps,
                self.outcomes@ == v0.outcomes,
                self.nodes@.len() == n,
                forall|mm: int| 0 <= mm < targets.len() ==> (#[trigger] targets[mm]) < n,
                forall|j: int| 0 <= j < n ==> (#[trigger] v0.nodes[j]).deps >= spec_count(targets, j),
                forall|j: int| 0 <= j < n ==> (#[trigger] v0.nodes[j]).status <= 2,
                v0.nodes.len() == n,
                (Seq::new(self.nodes@.len(), |i: int| self.nodes@[i].view()), fired@) == spec_notify(
                    v0.nodes,
                    targets.take(m as int),
                    s,
                ),
            decreases len - m,
        {
            let t = self.next[k][m];
            let ghost pre = targets.take(m as int);
            let ghost cur = Seq::new(self.nodes@.len(), |i: int| self.nodes@[i].view());
            proof {
                assert(spec_lists(self.next@)[k as int] == self.next@[k as int]@);
                assert(t == targets[m as int]);
                assert forall|mm: int| 0 <= mm < pre.len() implies (#[trigger] pre[mm]) < n by {
                    assert(pre[mm] == targets[mm]);
                }
                assert forall|j: int| 0 <= j < n implies (#[trigger] v0.nodes[j]).deps >= spec_count(pre, j) by {
                    lemma_count_take_le(targets, m as int, j);
                }
                lemma_notify_facts(v0.nodes, pre, s);
                lemma_count_take(targets, m as int, t as int);
                lemma_count_take_le(targets, m + 1, t as int);
                assert(targets.take(m + 1).drop_last() =~= pre);
                assert(targets.take(m + 1).last() == t);
            }
            let f = self.nodes[t].try_exec(s);
            match f {
                Some(st) => {
                    fired.push((t, st));
                },
                None => {},
            }
            proof {
                let now = Seq::new(self.nodes@.len(), |i: int| self.nodes@[i].view());
                assert(now =~= cur.update(t as int, now[t as int]));
            }
            m = m + 1;
        }
        self.outcomes.set(k, Some(s));
        proof {
            assert(targets.take(len as int) =~= targets);
            lemma_notify_facts(v0.nodes, targets, s);
            let v = self@;
            assert(v.outcomes == v0.outcomes.update(k as int, Some(s)));
            assert forall|j: int| 0 <= j < v.nodes.len() implies (#[trigger] v.nodes[j]).deps + spec_delivered(v.lists, v.outcomes, j) == v.deps[j]
                && v.nodes[j].status == spec_delivered_rank(v.lists, v.outcomes, j) by {
                lemma_delivered_update(v0.lists, v0.outcomes, k as int, s, j);
            }
        }
        fired
    }

    /// The outcome of node `k`, once it has ended.
    pub fn outcome(&self, k: usize) -> (o: Option<TaskStatus>)
        requires
            k < self@.outcomes.len(),
        ensures
            o == self@.outcomes[k as int],
    {
        self.outcomes[k]
    }
}

/// A state node has received all its notifications exactly when every node
/// that notifies it has ended; it then starts its task with the greatest
/// outcome among them.
pub proof fn law_node_ready_iff_notifiers_ended(v: RunView, j: int)
    requires
        spec_run_wf(v),
        0 <= j < v.lists.len(),
    ensures
        v.nodes[j].deps == 0 <==> forall|i: int|
            0 <= i < v.lists.len() && spec_count(#[trigger] v.lists[i], j) > 0 ==> v.outcomes[i] is Some,
        v.nodes[j].status == spec_delivered_rank(v.lists, v.outcomes, j),
        v.nodes[j].status <= 2,
{
    lemma_delivered_bounds(v.lists, v.outcomes, j);
}

/// A state node that has received all its notifications is not notified
/// again, so it fires at most once in a run.
pub proof fn law_ready_node_is_not_notified_again(v: RunView, k: int, j: int)
    requires
        spec_run_wf(v),
        0 <= k < v.lists.len(),
        0 <= j < v.lists.len(),
        v.outcomes[k] is None,
        v.nodes[j].deps == 0,
    ensures
        spec_count(v.lists[k], j) == 0,
{
    lemma_delivered_update(v.lists, v.outcomes, k, TaskStatus::Success, j);
    lemma_delivered_bounds(v.lists, v.outcomes.update(k, Some(TaskStatus::Success)), j);
}

} // verus!
