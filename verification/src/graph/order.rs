//! The order in which the nodes of a graph are compiled.
//!
//! The order is that of a depth-first walk: the nodes are taken in ascending
//! order of their handles; a node is placed after every node that feeds one
//! of its inputs, the inputs taken in their own order. A graph in which a
//! node depends on itself, or on a node that is not there, has no order.

use vstd::prelude::*;
use vstd::seq_lib::seq_to_set_is_finite;
use crate::graph::{GraphView, NodeId};

verus! {

/// How many nodes of the graph are not on the walk's stack.
pub open spec fn unvisited(g: GraphView, stack: Set<NodeId>) -> nat {
    g.ids().to_set().difference(stack).len()
}

/// Putting a node of the graph on the stack leaves fewer nodes off it.
pub proof fn lemma_unvisited_decreases(g: GraphView, id: NodeId, stack: Set<NodeId>)
    requires
        g.has_node(id),
        !stack.contains(id),
    ensures
        unvisited(g, stack.insert(id)) < unvisited(g, stack),
{
    let all = g.ids().to_set();
    seq_to_set_is_finite(g.ids());
    let i = g.index_of(id);
    assert(g.ids()[i] == id);
    assert(all.contains(id));
    let before = all.difference(stack);
    assert(before.finite());
    assert(before.contains(id));
    assert(all.difference(stack.insert(id)) =~= before.remove(id));
}

/// The walk from the node `id`: the order `done` extended by every node that
/// `id` depends on and by `id` itself, or nothing if the walk meets a node
/// that is on `stack` or not in the graph.
pub open spec fn visit(g: GraphView, id: NodeId, stack: Set<NodeId>, done: Seq<NodeId>) -> Option<
    Seq<NodeId>,
>
    decreases unvisited(g, stack), 0nat, 0nat,
    via visit_decreases
{
    if done.contains(id) {
        Some(done)
    } else if stack.contains(id) || !g.has_node(id) {
        None
    } else {
        match visit_inputs(g, g.index_of(id), 0, stack.insert(id), done) {
            Some(d) => Some(d.push(id)),
            None => None,
        }
    }
}

/// The walk from the sources of the inputs `k` and up of the node at place
/// `i`.
pub open spec fn visit_inputs(
    g: GraphView,
    i: int,
    k: int,
    stack: Set<NodeId>,
    done: Seq<NodeId>,
) -> Option<Seq<NodeId>>
    decreases unvisited(g, stack), 1nat, g.nodes[i].ty.inputs.len() - k,
{
    if k < 0 || k >= g.nodes[i].ty.inputs.len() {
        Some(done)
    } else {
        match g.source(i, k) {
            None => visit_inputs(g, i, k + 1, stack, done),
            Some(src) => match visit(g, src, stack, done) {
                None => None,
                Some(d) => visit_inputs(g, i, k + 1, stack, d),
            },
        }
    }
}

#[via_fn]
proof fn visit_decreases(g: GraphView, id: NodeId, stack: Set<NodeId>, done: Seq<NodeId>) {
    if g.has_node(id) && !stack.contains(id) {
        lemma_unvisited_decreases(g, id, stack);
    }
}

/// The walk from the nodes at place `r` and up.
pub open spec fn sort_from(g: GraphView, r: int, done: Seq<NodeId>) -> Option<Seq<NodeId>>
    decreases g.nodes.len() - r,
{
    if r < 0 || r >= g.nodes.len() {
        Some(done)
    } else {
        match visit(g, g.nodes[r].id, Set::empty(), done) {
            None => None,
            Some(d) => sort_from(g, r + 1, d),
        }
    }
}

/// The order of the whole graph, if it has one.
pub open spec fn toposort(g: GraphView) -> Option<Seq<NodeId>> {
    sort_from(g, 0, Seq::empty())
}

/// Whether `a` stands before `b` in `order`.
pub open spec fn precedes(order: Seq<NodeId>, a: NodeId, b: NodeId) -> bool {
    exists|x: int, y: int| 0 <= x < y < order.len() && order[x] == a && order[y] == b
}

/// What holds of an order while it grows: no node stands in it twice, it
/// holds nodes of the graph only, and before each node stand all the nodes
/// that it depends on.
pub open spec fn ordered(g: GraphView, done: Seq<NodeId>) -> bool {
    &&& done.no_duplicates()
    &&& forall|j: int| 0 <= j < done.len() ==> g.has_node(#[trigger] done[j])
    &&& forall|j: int, b: NodeId|
        0 <= j < done.len() && #[trigger] g.depends_on(done[j], b) ==> done.subrange(0, j).contains(
            b,
        )
}

/// `d` is `done` with nodes added that are not on `stack`.
pub open spec fn extends(done: Seq<NodeId>, d: Seq<NodeId>, stack: Set<NodeId>) -> bool {
    &&& done.len() <= d.len()
    &&& d.subrange(0, done.len() as int) == done
    &&& forall|j: int| done.len() <= j < d.len() ==> !stack.contains(#[trigger] d[j])
}

/// Every source of the inputs before `k` of the node at place `i` stands in
/// `done`.
pub open spec fn sources_done(g: GraphView, i: int, k: int, done: Seq<NodeId>) -> bool {
    forall|k2: int|
        0 <= k2 < k && (#[trigger] g.source(i, k2)) is Some ==> done.contains(
            g.source(i, k2).unwrap(),
        )
}

pub proof fn lemma_index_of(g: GraphView, i: int)
    requires
        g.wf(),
        0 <= i < g.nodes.len(),
    ensures
        g.has_node(g.nodes[i].id),
        g.index_of(g.nodes[i].id) == i,
{
    let j = g.index_of(g.nodes[i].id);
    assert(g.nodes[j].id == g.nodes[i].id);
    if j < i {
        assert(g.nodes[j].id.0 < g.nodes[i].id.0);
    }
    if i < j {
        assert(g.nodes[i].id.0 < g.nodes[j].id.0);
    }
}

proof fn lemma_extends_contains(done: Seq<NodeId>, d: Seq<NodeId>, stack: Set<NodeId>, x: NodeId)
    requires
        extends(done, d, stack),
        done.contains(x),
    ensures
        d.contains(x),
{
    let j = choose|j: int| 0 <= j < done.len() && done[j] == x;
    assert(d.subrange(0, done.len() as int)[j] == x);
    assert(d[j] == x);
}

proof fn lemma_extends_trans(
    a: Seq<NodeId>,
    b: Seq<NodeId>,
    c: Seq<NodeId>,
    stack: Set<NodeId>,
)
    requires
        extends(a, b, stack),
        extends(b, c, stack),
    ensures
        extends(a, c, stack),
{
    assert(c.subrange(0, a.len() as int) =~= a) by {
        assert forall|j: int| 0 <= j < a.len() implies c[j] == a[j] by {
            assert(c.subrange(0, b.len() as int)[j] == b[j]);
            assert(b.subrange(0, a.len() as int)[j] == a[j]);
        }
    }
    assert forall|j: int| a.len() <= j < c.len() implies !stack.contains(#[trigger] c[j]) by {
        if j < b.len() {
            assert(c.subrange(0, b.len() as int)[j] == b[j]);
        }
    }
}

proof fn lemma_visit_sound(g: GraphView, id: NodeId, stack: Set<NodeId>, done: Seq<NodeId>)
    requires
        g.wf(),
        ordered(g, done),
        visit(g, id, stack, done) is Some,
    ensures
        ordered(g, visit(g, id, stack, done).unwrap()),
        extends(done, visit(g, id, stack, done).unwrap(), stack),
        visit(g, id, stack, done).unwrap().contains(id),
    decreases unvisited(g, stack), 0nat, 0nat,
{
    if done.contains(id) {
        assert(done.subrange(0, done.len() as int) =~= done);
    } else {
        let i = g.index_of(id);
        let s2 = stack.insert(id);
        lemma_unvisited_decreases(g, id, stack);
        lemma_index_of(g, i);
        lemma_visit_inputs_sound(g, i, 0, s2, done);
        let d1 = visit_inputs(g, i, 0, s2, done).unwrap();
        let d = d1.push(id);
        assert(d.subrange(0, d1.len() as int) =~= d1);
        assert(!d1.contains(id)) by {
            if d1.contains(id) {
                let j = choose|j: int| 0 <= j < d1.len() && d1[j] == id;
                if j < done.len() {
                    assert(d1.subrange(0, done.len() as int)[j] == done[j]);
                    assert(done.contains(id));
                } else {
                    assert(!s2.contains(d1[j]));
                }
            }
        }
        assert(d.no_duplicates());
        assert forall|j: int| 0 <= j < d.len() implies g.has_node(#[trigger] d[j]) by {
            if j < d1.len() {
                assert(d[j] == d1[j]);
            }
        }
        assert forall|j: int, b: NodeId|
            0 <= j < d.len() && #[trigger] g.depends_on(d[j], b) implies d.subrange(0, j).contains(
            b,
        ) by {
            if j < d1.len() {
                assert(d[j] == d1[j]);
                assert(d1.subrange(0, j).contains(b));
                assert(d.subrange(0, j) =~= d1.subrange(0, j));
            } else {
                let (i2, k) = choose|i2: int, k: int|
                    0 <= i2 < g.nodes.len() && 0 <= k < g.nodes[i2].ty.inputs.len() && (
                    #[trigger] g.nodes[i2]).id == id && #[trigger] g.source(i2, k) == Some(b);
                lemma_index_of(g, i2);
                assert(i2 == i);
                assert(d1.contains(b));
                assert(d.subrange(0, j) =~= d1);
            }
        }
        assert(extends(done, d, stack)) by {
            assert(d.subrange(0, done.len() as int) =~= d1.subrange(0, done.len() as int));
            assert forall|j: int| done.len() <= j < d.len() implies !stack.contains(
                #[trigger] d[j],
            ) by {
                if j < d1.len() {
                    assert(d[j] == d1[j]);
                    assert(!s2.contains(d1[j]));
                }
            }
        }
        assert(d[d1.len() as int] == id);
    }
}

proof fn lemma_visit_inputs_sound(
    g: GraphView,
    i: int,
    k: int,
    stack: Set<NodeId>,
    done: Seq<NodeId>,
)
    requires
        g.wf(),
        0 <= i < g.nodes.len(),
        0 <= k <= g.nodes[i].ty.inputs.len(),
        ordered(g, done),
        sources_done(g, i, k, done),
        visit_inputs(g, i, k, stack, done) is Some,
    ensures
        ordered(g, visit_inputs(g, i, k, stack, done).unwrap()),
        extends(done, visit_inputs(g, i, k, stack, done).unwrap(), stack),
        sources_done(
            g,
            i,
            g.nodes[i].ty.inputs.len() as int,
            visit_inputs(g, i, k, stack, done).unwrap(),
        ),
    decreases unvisited(g, stack), 1nat, g.nodes[i].ty.inputs.len() - k,
{
    if k >= g.nodes[i].ty.inputs.len() {
        assert(done.subrange(0, done.len() as int) =~= done);
    } else {
        match g.source(i, k) {
            None => {
                lemma_visit_inputs_sound(g, i, k + 1, stack, done);
            },
            Some(src) => {
                lemma_visit_sound(g, src, stack, done);
                let d1 = visit(g, src, stack, done).unwrap();
                assert(sources_done(g, i, k + 1, d1)) by {
                    assert forall|k2: int|
                        0 <= k2 < k + 1 && (#[trigger] g.source(i, k2)) is Some implies d1.contains(
                        g.source(i, k2).unwrap(),
                    ) by {
                        if k2 < k {
                            lemma_extends_contains(done, d1, stack, g.source(i, k2).unwrap());
                        }
                    }
                }
                lemma_visit_inputs_sound(g, i, k + 1, stack, d1);
                lemma_extends_trans(done, d1, visit_inputs(g, i, k + 1, stack, d1).unwrap(), stack);
            },
        }
    }
}

proof fn lemma_sort_from_sound(g: GraphView, r: int, done: Seq<NodeId>)
    requires
        g.wf(),
        0 <= r <= g.nodes.len(),
        ordered(g, done),
        forall|i: int| 0 <= i < r ==> done.contains(#[trigger] g.nodes[i].id),
        sort_from(g, r, done) is Some,
    ensures
        ordered(g, sort_from(g, r, done).unwrap()),
        forall|i: int|
            0 <= i < g.nodes.len() ==> sort_from(g, r, done).unwrap().contains(
                #[trigger] g.nodes[i].id,
            ),
    decreases g.nodes.len() - r,
{
    if r < g.nodes.len() {
        let id = g.nodes[r].id;
        lemma_visit_sound(g, id, Set::empty(), done);
        let d1 = visit(g, id, Set::empty(), done).unwrap();
        assert forall|i: int| 0 <= i < r + 1 implies d1.contains(#[trigger] g.nodes[i].id) by {
            if i < r {
                lemma_extends_contains(done, d1, Set::empty(), g.nodes[i].id);
            }
        }
        lemma_sort_from_sound(g, r + 1, d1);
    }
}

/// The order of a graph holds each node exactly once, and each node stands
/// after every node that feeds one of its inputs.
pub proof fn lemma_toposort_sound(g: GraphView)
    requires
        g.wf(),
        toposort(g) is Some,
    ensures
        toposort(g).unwrap().no_duplicates(),
        toposort(g).unwrap().len() == g.nodes.len(),
        forall|id: NodeId| toposort(g).unwrap().contains(id) <==> g.has_node(id),
        forall|a: NodeId, b: NodeId| #[trigger]
            g.depends_on(b, a) ==> precedes(toposort(g).unwrap(), a, b),
        ordered(g, toposort(g).unwrap()),
{
    let empty = Seq::<NodeId>::empty();
    assert(ordered(g, empty));
    lemma_sort_from_sound(g, 0, empty);
    let order = toposort(g).unwrap();
    assert forall|id: NodeId| order.contains(id) <==> g.has_node(id) by {
        if g.has_node(id) {
            let i = g.index_of(id);
            assert(order.contains(g.nodes[i].id));
        }
        if order.contains(id) {
            let j = choose|j: int| 0 <= j < order.len() && order[j] == id;
            assert(g.has_node(order[j]));
        }
    }
    assert forall|a: NodeId, b: NodeId| #[trigger] g.depends_on(b, a) implies precedes(
        order,
        a,
        b,
    ) by {
        let (i, k) = choose|i: int, k: int|
            0 <= i < g.nodes.len() && 0 <= k < g.nodes[i].ty.inputs.len() && (
            #[trigger] g.nodes[i]).id == b && #[trigger] g.source(i, k) == Some(a);
        assert(order.contains(g.nodes[i].id));
        let y = choose|y: int| 0 <= y < order.len() && order[y] == b;
        assert(g.depends_on(order[y], a));
        assert(order.subrange(0, y).contains(a));
        let x = choose|x: int| 0 <= x < order.subrange(0, y).len() && order.subrange(0, y)[x] == a;
        assert(order[x] == a);
    }
    assert(order.len() == g.nodes.len()) by {
        let ids = g.ids();
        assert(ids.no_duplicates()) by {
            assert forall|x: int, y: int| 0 <= x < ids.len() && 0 <= y < ids.len() && x != y implies ids[x] != ids[y] by {
                if x < y {
                    assert(g.nodes[x].id.0 < g.nodes[y].id.0);
                } else {
                    assert(g.nodes[y].id.0 < g.nodes[x].id.0);
                }
            }
        }
        assert(order.to_set() =~= ids.to_set()) by {
            assert forall|id: NodeId| order.to_set().contains(id) <==> ids.to_set().contains(id) by {
                if g.has_node(id) {
                    let i = g.index_of(id);
                    assert(ids[i] == id);
                }
                if ids.contains(id) {
                    let i = choose|i: int| 0 <= i < ids.len() && ids[i] == id;
                    assert(g.nodes[i].id == id);
                }
            }
        }
        order.unique_seq_to_set();
        ids.unique_seq_to_set();
    }
}

proof fn lemma_visit_complete(
    g: GraphView,
    id: NodeId,
    stack: Set<NodeId>,
    done: Seq<NodeId>,
    path: Seq<NodeId>,
)
    requires
        g.wf(),
        g.closed(),
        g.has_node(id),
        g.is_path(path),
        forall|x: NodeId| stack.contains(x) ==> path.contains(x),
        path.len() > 0 ==> g.depends_on(path.last(), id),
        visit(g, id, stack, done) is None,
    ensures
        g.has_cycle(),
    decreases unvisited(g, stack), 0nat, 0nat,
{
    if stack.contains(id) {
        let j = choose|j: int| 0 <= j < path.len() && path[j] == id;
        let cycle = path.subrange(j, path.len() as int).push(id);
        assert forall|x: int| 0 <= x < cycle.len() - 1 implies g.depends_on(
            #[trigger] cycle[x],
            cycle[x + 1],
        ) by {
            assert(cycle[x] == path[j + x]);
            if x + 1 < cycle.len() - 1 {
                assert(cycle[x + 1] == path[j + x + 1]);
            } else {
                assert(cycle[x + 1] == id);
                assert(path[j + x] == path.last());
            }
        }
        assert(g.is_path(cycle));
        assert(cycle.first() == path[j]);
        assert(cycle.last() == id);
    } else {
        let i = g.index_of(id);
        let s2 = stack.insert(id);
        let p2 = path.push(id);
        lemma_unvisited_decreases(g, id, stack);
        assert forall|x: int| 0 <= x < p2.len() - 1 implies g.depends_on(
            #[trigger] p2[x],
            p2[x + 1],
        ) by {
            assert(p2[x] == path[x]);
            if x + 1 < path.len() {
                assert(p2[x + 1] == path[x + 1]);
            } else {
                assert(path[x] == path.last());
            }
        }
        assert forall|x: NodeId| s2.contains(x) implies p2.contains(x) by {
            if x == id {
                assert(p2[path.len() as int] == id);
            } else {
                let j = choose|j: int| 0 <= j < path.len() && path[j] == x;
                assert(p2[j] == x);
            }
        }
        lemma_visit_inputs_complete(g, i, 0, s2, done, p2);
    }
}

proof fn lemma_visit_inputs_complete(
    g: GraphView,
    i: int,
    k: int,
    stack: Set<NodeId>,
    done: Seq<NodeId>,
    path: Seq<NodeId>,
)
    requires
        g.wf(),
        g.closed(),
        0 <= i < g.nodes.len(),
        0 <= k <= g.nodes[i].ty.inputs.len(),
        g.is_path(path),
        path.len() > 0,
        path.last() == g.nodes[i].id,
        forall|x: NodeId| stack.contains(x) ==> path.contains(x),
        visit_inputs(g, i, k, stack, done) is None,
    ensures
        g.has_cycle(),
    decreases unvisited(g, stack), 1nat, g.nodes[i].ty.inputs.len() - k,
{
    if k < g.nodes[i].ty.inputs.len() {
        match g.source(i, k) {
            None => {
                lemma_visit_inputs_complete(g, i, k + 1, stack, done, path);
            },
            Some(src) => {
                if visit(g, src, stack, done) is None {
                    assert(g.source(i, k) is Some);
                    assert(g.has_node(src));
                    assert(g.depends_on(g.nodes[i].id, src));
                    lemma_visit_complete(g, src, stack, done, path);
                } else {
                    lemma_visit_inputs_complete(
                        g,
                        i,
                        k + 1,
                        stack,
                        visit(g, src, stack, done).unwrap(),
                        path,
                    );
                }
            },
        }
    }
}

proof fn lemma_sort_from_complete(g: GraphView, r: int, done: Seq<NodeId>)
    requires
        g.wf(),
        g.closed(),
        0 <= r <= g.nodes.len(),
        sort_from(g, r, done) is None,
    ensures
        g.has_cycle(),
    decreases g.nodes.len() - r,
{
    if r < g.nodes.len() {
        let id = g.nodes[r].id;
        if visit(g, id, Set::empty(), done) is None {
            assert(g.is_path(Seq::<NodeId>::empty()));
            lemma_visit_complete(g, id, Set::empty(), done, Seq::empty());
        } else {
            lemma_sort_from_complete(g, r + 1, visit(g, id, Set::empty(), done).unwrap());
        }
    }
}

/// A graph in which every source is a node and no node depends on itself
/// has an order.
pub proof fn lemma_acyclic_has_order(g: GraphView)
    requires
        g.wf(),
        g.closed(),
        !g.has_cycle(),
    ensures
        toposort(g) is Some,
{
    if toposort(g) is None {
        lemma_sort_from_complete(g, 0, Seq::empty());
    }
}

proof fn lemma_path_descends(g: GraphView, order: Seq<NodeId>, path: Seq<NodeId>, n: int)
    requires
        ordered(g, order),
        g.is_path(path),
        1 <= n <= path.len(),
        order.contains(path[0]),
    ensures
        order.contains(path[n - 1]),
        n >= 2 ==> precedes(order, path[n - 1], path[0]),
    decreases n,
{
    if n >= 2 {
        lemma_path_descends(g, order, path, n - 1);
        let a = path[n - 2];
        let b = path[n - 1];
        assert(g.depends_on(path[n - 2], path[n - 2 + 1]));
        let y = choose|y: int| 0 <= y < order.len() && order[y] == a;
        assert(g.depends_on(order[y], b));
        assert(order.subrange(0, y).contains(b));
        let x = choose|x: int| 0 <= x < order.subrange(0, y).len() && order.subrange(0, y)[x] == b;
        assert(order[x] == b);
        if n >= 3 {
            let (x2, y2) = choose|x2: int, y2: int|
                0 <= x2 < y2 < order.len() && order[x2] == a && order[y2] == path[0];
            assert(x2 == y);
        }
    }
}

/// A graph that has an order is closed and free of cycles.
pub proof fn lemma_order_excludes_cycles(g: GraphView)
    requires
        g.wf(),
        toposort(g) is Some,
    ensures
        g.closed(),
        !g.has_cycle(),
{
    lemma_toposort_sound(g);
    let order = toposort(g).unwrap();
    assert forall|i: int, k: int|
        0 <= i < g.nodes.len() && 0 <= k < g.nodes[i].ty.inputs.len() && (#[trigger] g.source(
            i,
            k,
        )) is Some implies g.has_node(g.source(i, k).unwrap()) by {
        let a = g.source(i, k).unwrap();
        assert(g.depends_on(g.nodes[i].id, a));
        assert(precedes(order, a, g.nodes[i].id));
        assert(order.contains(a));
    }
    if g.has_cycle() {
        let path = choose|path: Seq<NodeId>| #[trigger]
            g.is_path(path) && path.len() >= 2 && path.first() == path.last();
        assert(g.depends_on(path[0int], path[0int + 1]));
        let (i, k) = choose|i: int, k: int|
            0 <= i < g.nodes.len() && 0 <= k < g.nodes[i].ty.inputs.len() && (
            #[trigger] g.nodes[i]).id == path[0] && #[trigger] g.source(i, k) == Some(path[1]);
        assert(g.has_node(path[0]));
        lemma_path_descends(g, order, path, path.len() as int);
        let (x, y) = choose|x: int, y: int|
            0 <= x < y < order.len() && order[x] == path.last() && order[y] == path[0];
        assert(false);
    }
}

} // verus!
