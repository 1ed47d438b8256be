//! What the mutations of a graph keep true of it.

use vstd::prelude::*;
use crate::graph::order::{
    lemma_acyclic_has_order, lemma_index_of, lemma_order_excludes_cycles, toposort,
};
use crate::graph::{Connection, GraphView, NodeId, NodeInput, NodeView};

verus! {

/// Replacing an input keeps the handles, the kinds and the arities, so the
/// graph stays well formed and every node stays where it was.
pub proof fn lemma_with_input_keeps_shape(g: GraphView, i: int, k: int, input: NodeInput)
    requires
        g.wf(),
        0 <= i < g.nodes.len(),
        0 <= k < g.nodes[i].ty.inputs.len(),
    ensures
        g.with_input(i, k, input).wf(),
        g.with_input(i, k, input).nodes.len() == g.nodes.len(),
        forall|id: NodeId| g.with_input(i, k, input).has_node(id) == g.has_node(id),
        forall|id: NodeId|
            g.has_node(id) ==> #[trigger] g.with_input(i, k, input).index_of(id) == g.index_of(id),
{
    let h = g.with_input(i, k, input);
    assert forall|x: int, y: int| 0 <= x < y < h.nodes.len() implies (#[trigger] h.nodes[x]).id.0 < (
    #[trigger] h.nodes[y]).id.0 by {
        assert(g.nodes[x].id.0 < g.nodes[y].id.0);
    }
    assert forall|x: int| 0 <= x < h.nodes.len() implies (#[trigger] h.nodes[x]).ty.wf() by {
        assert(g.nodes[x].ty.wf());
    }
    assert forall|id: NodeId| h.has_node(id) == g.has_node(id) by {
        if g.has_node(id) {
            let x = g.index_of(id);
            assert(h.nodes[x].id == id);
        }
        if h.has_node(id) {
            let x = h.index_of(id);
            assert(g.nodes[x].id == id);
        }
    }
    assert forall|id: NodeId| g.has_node(id) implies #[trigger] h.index_of(id) == g.index_of(
        id,
    ) by {
        let x = g.index_of(id);
        assert(h.nodes[x].id == id);
        lemma_index_of(h, x);
    }
}

/// Cutting where nothing is connected changes nothing.
pub proof fn lemma_cut_nothing(g: GraphView, to: NodeId, k: u32)
    requires
        g.edge_at(to, k) is None,
    ensures
        g.without_edge(to, k) == g,
{
    if g.input_valid(to, k) {
        let i = g.index_of(to);
        let h = g.without_edge(to, k);
        assert(h.nodes[i].ty.inputs =~= g.nodes[i].ty.inputs);
        assert(h.nodes =~= g.nodes);
    }
}

/// An edge that would close a cycle cannot be installed: `connect` refuses
/// it and leaves the graph, and with it the set of its edges, as it was.
pub proof fn lemma_cycle_is_refused(g: GraphView, c: Connection)
    requires
        g.wf(),
        g.with_edge(c).has_cycle(),
    ensures
        !g.can_connect(c),
{
    if g.can_connect(c) {
        let i = g.index_of(c.to);
        lemma_with_input_keeps_shape(
            g,
            i,
            c.inp_idx as int,
            NodeInput { val: g.input(c.to, c.inp_idx).val, connection: Some((c.from, c.out_idx)) },
        );
        lemma_order_excludes_cycles(g.with_edge(c));
    }
}

/// Cutting an edge of a graph that has an order and installing it again
/// gives the same graph back, however often it is done; what is compiled
/// from it is therefore the same as before.
pub proof fn lemma_reconnect_restores(g: GraphView, to: NodeId, k: u32)
    requires
        g.wf(),
        toposort(g) is Some,
        g.edge_at(to, k) is Some,
        g.edge_fits(g.edge_at(to, k).unwrap()),
    ensures
        g.without_edge(to, k).wf(),
        g.without_edge(to, k).edge_at(to, k) is None,
        g.without_edge(to, k).can_connect(g.edge_at(to, k).unwrap()),
        g.without_edge(to, k).with_edge(g.edge_at(to, k).unwrap()) == g,
        g.without_edge(to, k).with_edge(g.edge_at(to, k).unwrap()).without_edge(to, k).with_edge(
            g.edge_at(to, k).unwrap(),
        ) == g,
{
    let e = g.edge_at(to, k).unwrap();
    let i = g.index_of(to);
    let input = g.input(to, k);
    let cut = g.without_edge(to, k);
    lemma_with_input_keeps_shape(g, i, k as int, NodeInput { val: input.val, connection: None });
    assert(cut.index_of(to) == i);
    assert(cut.index_of(e.from) == g.index_of(e.from));
    let back = cut.with_edge(e);
    assert(back.nodes[i].ty.inputs =~= g.nodes[i].ty.inputs);
    assert(back.nodes =~= g.nodes);
    assert(back == g);
}

/// Every edge of `h` is an edge of `g`, between nodes that both have.
pub open spec fn edges_within(h: GraphView, g: GraphView) -> bool {
    &&& forall|a: NodeId, b: NodeId| #[trigger] h.depends_on(a, b) ==> g.depends_on(a, b)
    &&& forall|a: NodeId, b: NodeId| #[trigger]
        h.depends_on(a, b) ==> h.has_node(b)
}

proof fn lemma_path_within(h: GraphView, g: GraphView, path: Seq<NodeId>)
    requires
        edges_within(h, g),
        h.is_path(path),
    ensures
        g.is_path(path),
{
    assert forall|j: int| 0 <= j < path.len() - 1 implies g.depends_on(
        #[trigger] path[j],
        path[j + 1],
    ) by {
        assert(h.depends_on(path[j], path[j + 1]));
    }
}

/// A graph whose edges are all edges of a graph that has an order, and
/// whose sources are all there, has an order too.
pub proof fn lemma_fewer_edges_keep_order(h: GraphView, g: GraphView)
    requires
        g.wf(),
        h.wf(),
        toposort(g) is Some,
        edges_within(h, g),
    ensures
        toposort(h) is Some,
{
    lemma_order_excludes_cycles(g);
    assert forall|i: int, k: int|
        0 <= i < h.nodes.len() && 0 <= k < h.nodes[i].ty.inputs.len() && (#[trigger] h.source(
            i,
            k,
        )) is Some implies h.has_node(h.source(i, k).unwrap()) by {
        assert(h.depends_on(h.nodes[i].id, h.source(i, k).unwrap()));
    }
    if h.has_cycle() {
        let path = choose|path: Seq<NodeId>| #[trigger]
            h.is_path(path) && path.len() >= 2 && path.first() == path.last();
        lemma_path_within(h, g, path);
        assert(g.has_cycle());
    }
    lemma_acyclic_has_order(h);
}

/// Cutting an edge of a graph that has an order leaves a graph that has an
/// order.
pub proof fn lemma_disconnect_keeps_order(g: GraphView, to: NodeId, k: u32)
    requires
        g.wf(),
        toposort(g) is Some,
    ensures
        g.without_edge(to, k).wf(),
        toposort(g.without_edge(to, k)) is Some,
{
    if g.input_valid(to, k) {
        let i = g.index_of(to);
        let h = g.without_edge(to, k);
        lemma_with_input_keeps_shape(
            g,
            i,
            k as int,
            NodeInput { val: g.input(to, k).val, connection: None },
        );
        lemma_order_excludes_cycles(g);
        assert forall|a: NodeId, b: NodeId| #[trigger] h.depends_on(a, b) implies g.depends_on(a, b)
            && h.has_node(b) by {
            let (x, y) = choose|x: int, y: int|
                0 <= x < h.nodes.len() && 0 <= y < h.nodes[x].ty.inputs.len() && (
                #[trigger] h.nodes[x]).id == a && #[trigger] h.source(x, y) == Some(b);
            assert(g.nodes[x].id == a);
            assert(g.source(x, y) == Some(b));
            assert(g.has_node(b));
        }
        lemma_fewer_edges_keep_order(h, g);
    }
}

/// No input of the graph is fed by the node `id`.
pub open spec fn unused(g: GraphView, id: NodeId) -> bool {
    forall|i: int, k: int|
        0 <= i < g.nodes.len() && 0 <= k < g.nodes[i].ty.inputs.len() ==> #[trigger] g.source(i, k)
            != Some(id)
}

/// Cutting every edge that starts at a node of a graph that has an order
/// leaves a graph that has an order, in which nothing is fed by that node.
pub proof fn lemma_sever_keeps_order(g: GraphView, id: NodeId)
    requires
        g.wf(),
        toposort(g) is Some,
    ensures
        g.severed(id).wf(),
        toposort(g.severed(id)) is Some,
        unused(g.severed(id), id),
        forall|x: NodeId| g.severed(id).has_node(x) == g.has_node(x),
{
    let cut = g.severed(id);
    lemma_order_excludes_cycles(g);
    assert forall|x: int, y: int| 0 <= x < y < cut.nodes.len() implies (#[trigger] cut.nodes[x]).id.0
        < (#[trigger] cut.nodes[y]).id.0 by {
        assert(g.nodes[x].id.0 < g.nodes[y].id.0);
    }
    assert forall|x: int| 0 <= x < cut.nodes.len() implies (#[trigger] cut.nodes[x]).ty.wf() by {
        assert(g.nodes[x].ty.wf());
    }
    assert forall|x: NodeId| cut.has_node(x) == g.has_node(x) by {
        if g.has_node(x) {
            assert(cut.nodes[g.index_of(x)].id == x);
        }
        if cut.has_node(x) {
            assert(g.nodes[cut.index_of(x)].id == x);
        }
    }
    assert forall|a: NodeId, b: NodeId| #[trigger] cut.depends_on(a, b) implies g.depends_on(a, b)
        && cut.has_node(b) by {
        let (x, y) = choose|x: int, y: int|
            0 <= x < cut.nodes.len() && 0 <= y < cut.nodes[x].ty.inputs.len() && (
            #[trigger] cut.nodes[x]).id == a && #[trigger] cut.source(x, y) == Some(b);
        assert(cut.nodes[x].ty.inputs[y] == GraphView::severed_input(g.nodes[x].ty.inputs[y], id));
        assert(g.nodes[x].id == a);
        assert(g.source(x, y) == Some(b));
        assert(g.has_node(b));
    }
    lemma_fewer_edges_keep_order(cut, g);
    assert forall|i: int, k: int|
        0 <= i < cut.nodes.len() && 0 <= k < cut.nodes[i].ty.inputs.len() implies #[trigger] cut.source(
        i,
        k,
    ) != Some(id) by {
        assert(cut.nodes[i].ty.inputs[k] == GraphView::severed_input(g.nodes[i].ty.inputs[k], id));
    }
}

/// Taking a node that feeds nothing out of a graph that has an order leaves
/// a graph that has an order.
pub proof fn lemma_remove_unused_keeps_order(g: GraphView, id: NodeId)
    requires
        g.wf(),
        toposort(g) is Some,
        unused(g, id),
    ensures
        g.removed(id).wf(),
        toposort(g.removed(id)) is Some,
{
    if g.has_node(id) {
        let h = g.removed(id);
        let p = g.index_of(id);
        lemma_index_of(g, p);
        lemma_order_excludes_cycles(g);
        assert forall|x: int| 0 <= x < h.nodes.len() implies #[trigger] h.nodes[x] == g.nodes[if x
            < p {
            x
        } else {
            x + 1
        }] by {}
        assert forall|x: int, y: int| 0 <= x < y < h.nodes.len() implies (#[trigger] h.nodes[x]).id.0
            < (#[trigger] h.nodes[y]).id.0 by {
            let x2 = if x < p { x } else { x + 1 };
            let y2 = if y < p { y } else { y + 1 };
            assert(g.nodes[x2].id.0 < g.nodes[y2].id.0);
        }
        assert forall|x: int| 0 <= x < h.nodes.len() implies (#[trigger] h.nodes[x]).ty.wf() by {
            let x2 = if x < p { x } else { x + 1 };
            assert(g.nodes[x2].ty.wf());
        }
        assert forall|a: NodeId, b: NodeId| #[trigger] h.depends_on(a, b) implies g.depends_on(a, b)
            && h.has_node(b) by {
            let (x, y) = choose|x: int, y: int|
                0 <= x < h.nodes.len() && 0 <= y < h.nodes[x].ty.inputs.len() && (
                #[trigger] h.nodes[x]).id == a && #[trigger] h.source(x, y) == Some(b);
            let x2 = if x < p { x } else { x + 1 };
            assert(g.nodes[x2].id == a);
            assert(g.source(x2, y) == Some(b));
            assert(b != id);
            assert(g.has_node(b));
            let q = g.index_of(b);
            lemma_index_of(g, q);
            assert(q != p);
            let q2 = if q < p { q } else { q - 1 };
            assert(h.nodes[q2].id == b);
        }
        lemma_fewer_edges_keep_order(h, g);
    }
}

/// Deleting a node of a graph that has an order, with the edges that start
/// at it, leaves a graph that has an order.
pub proof fn lemma_delete_keeps_order(g: GraphView, id: NodeId)
    requires
        g.wf(),
        toposort(g) is Some,
    ensures
        g.deleted(id).wf(),
        toposort(g.deleted(id)) is Some,
{
    lemma_sever_keeps_order(g, id);
    lemma_remove_unused_keeps_order(g.severed(id), id);
}

} // verus!
