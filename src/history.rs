//! The log of destroy calls that the handle graph has handed out, and the
//! facts about it that the graph's invariant rests on.
use vstd::prelude::*;
use crate::graph::DestroyCall;

verus! {

/// One destroy call, attributed to the node it ends or to the root.
#[derive(Clone, Copy, Debug, PartialEq, Eq, Structural)]
pub enum Fired {
    Node(usize, DestroyCall),
    Root(DestroyCall),
}

/// The calls in `log` that ended node `i`, in order.
pub open spec fn events_of(log: Seq<Fired>, i: int) -> Seq<DestroyCall>
    decreases log.len(),
{
    if log.len() == 0 {
        Seq::empty()
    } else {
        let before = events_of(log.drop_last(), i);
        match log.last() {
            Fired::Node(j, c) => if j as int == i {
                before.push(c)
            } else {
                before
            },
            Fired::Root(_) => before,
        }
    }
}

/// Every entry of `log` ends a node, none the root.
pub open spec fn node_events_only(log: Seq<Fired>) -> bool {
    forall|j: int| 0 <= j < log.len() ==> (#[trigger] log[j]) is Node
}

/// Every node named in `log` is below `n`.
pub open spec fn names_below(log: Seq<Fired>, n: int) -> bool {
    forall|j: int|
        0 <= j < log.len() ==> match #[trigger] log[j] {
            Fired::Node(id, _) => id < n,
            Fired::Root(_) => true,
        }
}

/// The calls of `plan`, attributed to node `i`.
pub open spec fn tag_node(plan: Seq<DestroyCall>, i: int) -> Seq<Fired> {
    plan.map_values(|c: DestroyCall| Fired::Node(i as usize, c))
}

/// The calls of `plan`, attributed to the root.
pub open spec fn tag_root(plan: Seq<DestroyCall>) -> Seq<Fired> {
    plan.map_values(|c: DestroyCall| Fired::Root(c))
}

pub proof fn lemma_events_concat(a: Seq<Fired>, b: Seq<Fired>, i: int)
    ensures
        events_of(a + b, i) == events_of(a, i) + events_of(b, i),
    decreases b.len(),
{
    if b.len() == 0 {
        assert(a + b =~= a);
        assert(events_of(a, i) + events_of(b, i) =~= events_of(a, i));
    } else {
        assert((a + b).drop_last() =~= a + b.drop_last());
        assert((a + b).last() == b.last());
        lemma_events_concat(a, b.drop_last(), i);
        match b.last() {
            Fired::Node(j, c) => {
                if j as int == i {
                    assert(events_of(a, i) + events_of(b.drop_last(), i).push(c) =~= (events_of(a, i)
                        + events_of(b.drop_last(), i)).push(c));
                }
            },
            Fired::Root(_) => {},
        }
    }
}

pub proof fn lemma_events_tag_node(plan: Seq<DestroyCall>, j: int, i: int)
    requires
        0 <= j <= usize::MAX,
    ensures
        events_of(tag_node(plan, j), i) == (if j == i {
            plan
        } else {
            Seq::empty()
        }),
    decreases plan.len(),
{
    if plan.len() == 0 {
        assert(tag_node(plan, j) =~= Seq::empty());
        assert(plan =~= Seq::empty());
    } else {
        assert(tag_node(plan, j).drop_last() =~= tag_node(plan.drop_last(), j));
        lemma_events_tag_node(plan.drop_last(), j, i);
        assert(plan.drop_last().push(plan.last()) =~= plan);
    }
}

pub proof fn lemma_events_tag_root(plan: Seq<DestroyCall>, i: int)
    ensures
        events_of(tag_root(plan), i) == Seq::<DestroyCall>::empty(),
    decreases plan.len(),
{
    if plan.len() == 0 {
        assert(tag_root(plan) =~= Seq::empty());
    } else {
        assert(tag_root(plan).drop_last() =~= tag_root(plan.drop_last()));
        lemma_events_tag_root(plan.drop_last(), i);
    }
}

/// A node that the log never names has no events in it.
pub proof fn lemma_events_absent(log: Seq<Fired>, i: int)
    requires
        names_below(log, i),
    ensures
        events_of(log, i) == Seq::<DestroyCall>::empty(),
    decreases log.len(),
{
    if log.len() > 0 {
        assert(names_below(log.drop_last(), i)) by {
            assert forall|j: int| 0 <= j < log.drop_last().len() implies match #[trigger] log.drop_last()[j] {
                Fired::Node(id, _) => id < i,
                Fired::Root(_) => true,
            } by {
                assert(log.drop_last()[j] == log[j]);
            }
        }
        lemma_events_absent(log.drop_last(), i);
        let k = log.len() - 1;
        assert(log[k] == log.last());
    }
}

} // verus!
