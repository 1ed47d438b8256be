//! The typed node graph: handles, values, inputs and connections.

pub mod document;
pub mod laws;
pub mod node_types;
pub mod order;

use vstd::prelude::*;
use vstd::std_specs::convert::FromSpecImpl;
use crate::biome::Biomes;
use crate::decimal::Decimal;
use crate::graph::laws::{lemma_delete_keeps_order, lemma_disconnect_keeps_order};
use crate::graph::node_types::{
    lemma_declarations_agree, NodeDataView, NodeKind, NodeType, NodeTypeView,
};
use crate::graph::order::{
    lemma_index_of, lemma_unvisited_decreases, sort_from, toposort, unvisited, visit, visit_inputs,
};

verus! {

/// Handle of a node. Handles are handed out in increasing order and never
/// used twice within one graph.
#[derive(Clone, Copy, PartialEq, Eq, Structural, Debug, Hash)]
pub struct NodeId(pub u64);

/// What flows along a connection.
#[derive(Clone, Copy, PartialEq, Eq, Structural, Debug)]
pub enum Type {
    Scalar,
    Vector,
    Terrain,
}

/// A literal that an input falls back to while nothing is connected to it.
#[derive(Clone, Copy, PartialEq, Eq, Structural, Debug)]
pub enum Value {
    Scalar(Decimal),
    Vector(Decimal, Decimal, Decimal),
    Terrain,
}

impl Value {
    pub fn scalar(val: Decimal) -> (v: Value)
        ensures
            v == Value::Scalar(val),
    {
        Value::Scalar(val)
    }

    pub fn vector(x: Decimal, y: Decimal, z: Decimal) -> (v: Value)
        ensures
            v == Value::Vector(x, y, z),
    {
        Value::Vector(x, y, z)
    }

    pub fn terrain() -> (v: Value)
        ensures
            v == Value::Terrain,
    {
        Value::Terrain
    }

    /// The type of connection that could stand in for the literal.
    pub open spec fn spec_ty(self) -> Type {
        match self {
            Value::Scalar(_) => Type::Scalar,
            Value::Vector(_, _, _) => Type::Vector,
            Value::Terrain => Type::Terrain,
        }
    }

    pub fn ty(&self) -> (t: Type)
        ensures
            t == self.spec_ty(),
    {
        match self {
            Value::Scalar(_) => Type::Scalar,
            Value::Vector(_, _, _) => Type::Vector,
            Value::Terrain => Type::Terrain,
        }
    }
}

/// One input of a node: its literal and, when connected, the node and the
/// output that feed it. An input has at most one source.
#[derive(Clone, Copy, PartialEq, Eq, Debug)]
pub struct NodeInput {
    pub val: Value,
    pub connection: Option<(NodeId, u32)>,
}

impl NodeInput {
    /// The node that feeds the input, if any.
    pub open spec fn source(self) -> Option<NodeId> {
        match self.connection {
            Some(c) => Some(c.0),
            None => None,
        }
    }
}

impl From<Value> for NodeInput {
    fn from(val: Value) -> (input: NodeInput) {
        NodeInput { val, connection: None }
    }
}

impl FromSpecImpl<Value> for NodeInput {
    open spec fn obeys_from_spec() -> bool {
        true
    }

    open spec fn from_spec(val: Value) -> NodeInput {
        NodeInput { val, connection: None }
    }
}

/// What a node may read of the project while it emits its statements.
pub struct GraphProjectInfo<'a> {
    pub biomes: &'a Biomes,
}

/// A directed edge: output `out_idx` of node `from` feeds input `inp_idx` of
/// node `to`.
#[derive(Clone, Copy, PartialEq, Eq, Structural, Debug)]
pub struct Connection {
    pub from: NodeId,
    pub out_idx: u32,
    pub to: NodeId,
    pub inp_idx: u32,
}

/// A point of the editor's canvas.
#[derive(Clone, Copy, PartialEq, Eq, Structural, Debug)]
pub struct Pos {
    pub x: Decimal,
    pub y: Decimal,
}

/// Pan and zoom of the editor's canvas, kept with the graph.
#[derive(Clone, Copy, PartialEq, Eq, Structural, Debug)]
pub struct Transform {
    pub scaling: Decimal,
    pub translation: Pos,
}

/// A node of the graph: where the editor shows it, and what it is.
#[derive(Clone, PartialEq, Eq, Debug)]
pub struct Node {
    pub pos: Pos,
    pub ty: NodeType,
}

pub struct NodeView {
    pub id: NodeId,
    pub pos: Pos,
    pub ty: NodeTypeView,
}

/// A graph as a mathematical value: its nodes in ascending order of their
/// handles, the handle that the next new node gets, and the editor's view.
pub struct GraphView {
    pub nodes: Seq<NodeView>,
    pub curr_node_id: NodeId,
    pub transform: Transform,
}

impl GraphView {
    /// Handles ascend strictly, so no handle occurs twice, and every node
    /// has the inputs of its kind.
    pub open spec fn wf(self) -> bool {
        &&& forall|i: int, j: int|
            0 <= i < j < self.nodes.len() ==> (#[trigger] self.nodes[i]).id.0 < (
            #[trigger] self.nodes[j]).id.0
        &&& forall|i: int| 0 <= i < self.nodes.len() ==> (#[trigger] self.nodes[i]).ty.wf()
    }

    /// The handles of the nodes, ascending.
    pub open spec fn ids(self) -> Seq<NodeId> {
        Seq::new(self.nodes.len(), |i: int| self.nodes[i].id)
    }

    pub open spec fn has_node(self, id: NodeId) -> bool {
        exists|i: int| 0 <= i < self.nodes.len() && (#[trigger] self.nodes[i]).id == id
    }

    /// The place of the node `id` among the nodes.
    pub open spec fn index_of(self, id: NodeId) -> int {
        choose|i: int| 0 <= i < self.nodes.len() && (#[trigger] self.nodes[i]).id == id
    }

    /// The node that feeds input `k` of the node at place `i`, if any.
    pub open spec fn source(self, i: int, k: int) -> Option<NodeId> {
        self.nodes[i].ty.inputs[k].source()
    }

    /// Whether the node `a` has an input that the node `b` feeds.
    pub open spec fn depends_on(self, a: NodeId, b: NodeId) -> bool {
        exists|i: int, k: int|
            0 <= i < self.nodes.len() && 0 <= k < self.nodes[i].ty.inputs.len() && (
            #[trigger] self.nodes[i]).id == a && #[trigger] self.source(i, k) == Some(b)
    }

    /// Whether the graph holds the edge `c`.
    pub open spec fn has_edge(self, c: Connection) -> bool {
        exists|i: int|
            0 <= i < self.nodes.len() && (#[trigger] self.nodes[i]).id == c.to && c.inp_idx
                < self.nodes[i].ty.inputs.len() && self.nodes[i].ty.inputs[c.inp_idx as int].connection
                == Some((c.from, c.out_idx))
    }

    /// The set of all edges of the graph.
    pub open spec fn connections(self) -> Set<Connection> {
        Set::new(|c: Connection| self.has_edge(c))
    }

    /// Every source of every input is a node of the graph.
    pub open spec fn closed(self) -> bool {
        forall|i: int, k: int|
            0 <= i < self.nodes.len() && 0 <= k < self.nodes[i].ty.inputs.len() && (
            #[trigger] self.source(i, k)) is Some ==> self.has_node(self.source(i, k).unwrap())
    }

    /// Each node of `path` has an input that the next one feeds.
    pub open spec fn is_path(self, path: Seq<NodeId>) -> bool {
        forall|j: int| 0 <= j < path.len() - 1 ==> self.depends_on(#[trigger] path[j], path[j + 1])
    }

    /// Some node depends, directly or through others, on itself.
    pub open spec fn has_cycle(self) -> bool {
        exists|path: Seq<NodeId>| #[trigger]
            self.is_path(path) && path.len() >= 2 && path.first() == path.last()
    }
}

impl GraphView {
    /// `r` nodes have a handle below `id`, and they are the first `r`.
    pub open spec fn is_rank(self, id: NodeId, r: int) -> bool {
        &&& 0 <= r <= self.nodes.len()
        &&& forall|i: int| 0 <= i < r ==> (#[trigger] self.nodes[i]).id.0 < id.0
        &&& forall|i: int| r <= i < self.nodes.len() ==> (#[trigger] self.nodes[i]).id.0 >= id.0
    }

    /// How many nodes have a handle below `id`.
    pub open spec fn rank(self, id: NodeId) -> int {
        choose|r: int| self.is_rank(id, r)
    }

    /// The graph with the node `id` put in, in place of a node with that
    /// handle if there is one.
    pub open spec fn inserted(self, id: NodeId, pos: Pos, ty: NodeTypeView) -> GraphView {
        let node = NodeView { id, pos, ty };
        GraphView {
            nodes: if self.has_node(id) {
                self.nodes.update(self.index_of(id), node)
            } else {
                self.nodes.insert(self.rank(id), node)
            },
            ..self
        }
    }

    /// The graph with input `k` of the node at place `i` replaced.
    pub open spec fn with_input(self, i: int, k: int, input: NodeInput) -> GraphView {
        GraphView {
            nodes: self.nodes.update(
                i,
                NodeView { ty: self.nodes[i].ty.with_input(k, input), ..self.nodes[i] },
            ),
            ..self
        }
    }

    /// Whether the node `id` is there and has an input `k`.
    pub open spec fn input_valid(self, id: NodeId, k: u32) -> bool {
        self.has_node(id) && k < self.nodes[self.index_of(id)].ty.inputs.len()
    }

    /// Input `k` of the node `id`.
    pub open spec fn input(self, id: NodeId, k: u32) -> NodeInput {
        self.nodes[self.index_of(id)].ty.inputs[k as int]
    }

    /// The edge that ends at input `k` of the node `to`, if there is one.
    pub open spec fn edge_at(self, to: NodeId, k: u32) -> Option<Connection> {
        if self.input_valid(to, k) {
            match self.input(to, k).connection {
                Some(c) => Some(Connection { from: c.0, out_idx: c.1, to, inp_idx: k }),
                None => None,
            }
        } else {
            None
        }
    }

    /// The graph with the source of input `k` of the node `to` replaced.
    pub open spec fn with_connection(self, to: NodeId, k: u32, c: Option<(NodeId, u32)>) -> GraphView {
        self.with_input(
            self.index_of(to),
            k as int,
            NodeInput { val: self.input(to, k).val, connection: c },
        )
    }

    /// The graph with the edge `c` in place of whatever ended at its input.
    pub open spec fn with_edge(self, c: Connection) -> GraphView {
        self.with_connection(c.to, c.inp_idx, Some((c.from, c.out_idx)))
    }

    /// The graph with nothing connected to input `k` of the node `to`.
    pub open spec fn without_edge(self, to: NodeId, k: u32) -> GraphView {
        if self.input_valid(to, k) {
            self.with_connection(to, k, None)
        } else {
            self
        }
    }

    /// Both ends of the edge are there, and the output has the type of the
    /// input.
    pub open spec fn edge_fits(self, c: Connection) -> bool {
        &&& self.input_valid(c.to, c.inp_idx)
        &&& self.has_node(c.from)
        &&& c.out_idx < self.nodes[self.index_of(c.from)].ty.kind.spec_output_types().len()
        &&& self.nodes[self.index_of(c.from)].ty.kind.spec_output_types()[c.out_idx as int]
            == self.nodes[self.index_of(c.to)].ty.kind.spec_input_types()[c.inp_idx as int]
    }

    /// The edge fits, and the graph with the edge still has an order.
    pub open spec fn can_connect(self, c: Connection) -> bool {
        self.edge_fits(c) && toposort(self.with_edge(c)) is Some
    }

    /// The graph after an attempt to install the edge `c`: with the edge if
    /// it can be installed, else as it is.
    pub open spec fn connected(self, c: Connection) -> GraphView {
        if self.can_connect(c) {
            self.with_edge(c)
        } else {
            self
        }
    }

    /// The graph with the literal of input `k` of the node `id` replaced, if
    /// there is such an input.
    pub open spec fn with_value(self, id: NodeId, k: u32, val: Value) -> GraphView {
        if self.input_valid(id, k) {
            self.with_input(
                self.index_of(id),
                k as int,
                NodeInput { val, connection: self.input(id, k).connection },
            )
        } else {
            self
        }
    }

    /// The graph with the node `id` moved to `pos`, if there is such a node.
    pub open spec fn with_pos(self, id: NodeId, pos: Pos) -> GraphView {
        if self.has_node(id) {
            GraphView {
                nodes: self.nodes.update(
                    self.index_of(id),
                    NodeView { pos, ..self.nodes[self.index_of(id)] },
                ),
                ..self
            }
        } else {
            self
        }
    }

    /// The graph without the node `id` and without the edges that start at
    /// it.
    pub open spec fn deleted(self, id: NodeId) -> GraphView {
        self.severed(id).removed(id)
    }

    /// The input without its source if `id` is the source.
    pub open spec fn severed_input(input: NodeInput, id: NodeId) -> NodeInput {
        if input.source() == Some(id) {
            NodeInput { val: input.val, connection: None }
        } else {
            input
        }
    }

    /// The graph with the edges from `id` cut that end at the first `n` nodes
    /// or at the first `k` inputs of the node at place `n`.
    pub open spec fn severed_at(self, id: NodeId, n: int, k: int) -> GraphView {
        GraphView {
            nodes: Seq::new(
                self.nodes.len(),
                |i: int|
                    NodeView {
                        ty: NodeTypeView {
                            inputs: Seq::new(
                                self.nodes[i].ty.inputs.len(),
                                |j: int|
                                    if i < n || (i == n && j < k) {
                                        Self::severed_input(self.nodes[i].ty.inputs[j], id)
                                    } else {
                                        self.nodes[i].ty.inputs[j]
                                    },
                            ),
                            ..self.nodes[i].ty
                        },
                        ..self.nodes[i]
                    },
            ),
            ..self
        }
    }

    /// The graph with every edge from `id` cut.
    pub open spec fn severed(self, id: NodeId) -> GraphView {
        self.severed_at(id, self.nodes.len() as int, 0)
    }

    /// The graph without the node `id`.
    pub open spec fn removed(self, id: NodeId) -> GraphView {
        if self.has_node(id) {
            GraphView { nodes: self.nodes.remove(self.index_of(id)), ..self }
        } else {
            self
        }
    }

    /// The edges from `id` that end at the first `k` inputs of the node at
    /// place `i`, in the order of the inputs.
    pub open spec fn node_edges_from(self, id: NodeId, i: int, k: int) -> Seq<Connection>
        decreases k,
    {
        if k <= 0 {
            Seq::empty()
        } else {
            match self.nodes[i].ty.inputs[k - 1].connection {
                Some(c) => if c.0 == id {
                    self.node_edges_from(id, i, k - 1).push(
                        Connection {
                            from: id,
                            out_idx: c.1,
                            to: self.nodes[i].id,
                            inp_idx: (k - 1) as u32,
                        },
                    )
                } else {
                    self.node_edges_from(id, i, k - 1)
                },
                None => self.node_edges_from(id, i, k - 1),
            }
        }
    }

    /// The edges from `id` that end at the first `n` nodes, node by node.
    pub open spec fn edges_from(self, id: NodeId, n: int) -> Seq<Connection>
        decreases n,
    {
        if n <= 0 {
            Seq::empty()
        } else {
            self.edges_from(id, n - 1) + self.node_edges_from(
                id,
                n - 1,
                self.nodes[n - 1].ty.inputs.len() as int,
            )
        }
    }
}

#[derive(Clone, Debug)]
struct Slot {
    id: NodeId,
    node: Node,
}

/// The graph: its nodes by their handles, the handle that the next new node
/// gets, and the editor's view of the canvas.
#[derive(Clone, Debug)]
pub struct TerrainGraph {
    slots: Vec<Slot>,
    pub curr_node_id: NodeId,
    pub transform: Transform,
}

impl View for TerrainGraph {
    type V = GraphView;

    closed spec fn view(&self) -> GraphView {
        GraphView {
            nodes: Seq::new(
                self.slots@.len(),
                |i: int|
                    NodeView {
                        id: self.slots@[i].id,
                        pos: self.slots@[i].node.pos,
                        ty: self.slots@[i].node.ty@,
                    },
            ),
            curr_node_id: self.curr_node_id,
            transform: self.transform,
        }
    }
}

/// What the marks of the walk say of its stack and of the order so far.
spec fn marks_agree(
    g: GraphView,
    on_stack: Seq<bool>,
    finished: Seq<bool>,
    stack: Set<NodeId>,
    done: Seq<NodeId>,
) -> bool {
    &&& on_stack.len() == g.nodes.len()
    &&& finished.len() == g.nodes.len()
    &&& forall|p: int|
        0 <= p < g.nodes.len() ==> (finished[p] <==> done.contains((#[trigger] g.nodes[p]).id))
    &&& forall|p: int|
        0 <= p < g.nodes.len() ==> ((on_stack[p] && !finished[p]) <==> stack.contains(
            (#[trigger] g.nodes[p]).id,
        ))
    &&& forall|j: int| 0 <= j < done.len() ==> g.has_node(#[trigger] done[j])
}

impl TerrainGraph {
    pub open spec fn wf(&self) -> bool {
        self@.wf()
    }

    /// An empty graph. Its first node gets the handle 1.
    pub fn new() -> (g: TerrainGraph)
        ensures
            g.wf(),
            g@.nodes.len() == 0,
            g@.curr_node_id == NodeId(1),
            g@.transform == (Transform {
                scaling: Decimal { micros: 1_000_000 },
                translation: Pos { x: Decimal { micros: 0 }, y: Decimal { micros: 0 } },
            }),
    {
        TerrainGraph {
            slots: Vec::new(),
            curr_node_id: NodeId(1),
            transform: Transform {
                scaling: Decimal { micros: 1_000_000 },
                translation: Pos { x: Decimal { micros: 0 }, y: Decimal { micros: 0 } },
            },
        }
    }

    /// Number of nodes.
    pub fn len(&self) -> (n: usize)
        ensures
            n == self@.nodes.len(),
    {
        self.slots.len()
    }

    /// The handle of the node at place `i`, the nodes taken in ascending
    /// order of their handles.
    pub fn id_at(&self, i: usize) -> (id: NodeId)
        requires
            i < self@.nodes.len(),
        ensures
            id == self@.nodes[i as int].id,
    {
        self.slots[i].id
    }

    /// The node at place `i`.
    pub fn node_at(&self, i: usize) -> (node: &Node)
        requires
            i < self@.nodes.len(),
        ensures
            node.pos == self@.nodes[i as int].pos,
            node.ty@ == self@.nodes[i as int].ty,
    {
        &self.slots[i].node
    }

    /// How many nodes have a handle below `id`.
    fn rank(&self, id: NodeId) -> (r: usize)
        requires
            self.wf(),
        ensures
            self@.is_rank(id, r as int),
            r as int == self@.rank(id),
    {
        let mut lo: usize = 0;
        let mut hi: usize = self.slots.len();
        while lo < hi
            invariant
                self.wf(),
                lo <= hi <= self.slots.len(),
                forall|i: int| 0 <= i < lo ==> (#[trigger] self@.nodes[i]).id.0 < id.0,
                forall|i: int| hi <= i < self@.nodes.len() ==> (#[trigger] self@.nodes[i]).id.0 >= id.0,
            decreases hi - lo,
        {
            let mid = lo + (hi - lo) / 2;
            if self.slots[mid].id.0 < id.0 {
                assert forall|i: int| 0 <= i < mid + 1 implies (#[trigger] self@.nodes[i]).id.0
                    < id.0 by {
                    if i < mid {
                        assert(self@.nodes[i].id.0 < self@.nodes[mid as int].id.0);
                    }
                }
                lo = mid + 1;
            } else {
                assert forall|i: int| mid <= i < self@.nodes.len() implies (
                #[trigger] self@.nodes[i]).id.0 >= id.0 by {
                    if mid < i {
                        assert(self@.nodes[mid as int].id.0 < self@.nodes[i].id.0);
                    }
                }
                hi = mid;
            }
        }
        proof {
            let g = self@;
            assert(g.is_rank(id, lo as int));
            let r = g.rank(id);
            assert(g.is_rank(id, r));
            if r < lo {
                assert(g.nodes[r].id.0 < id.0);
            }
            if lo < r {
                assert(g.nodes[lo as int].id.0 < id.0);
            }
        }
        lo
    }

    /// The place of the node `id` among the nodes, which stand in ascending
    /// order of their handles.
    pub fn position(&self, id: NodeId) -> (found: Option<usize>)
        requires
            self.wf(),
        ensures
            match found {
                Some(i) => i < self@.nodes.len() && self@.nodes[i as int].id == id
                    && self@.has_node(id) && self@.index_of(id) == i,
                None => !self@.has_node(id),
            },
    {
        let r = self.rank(id);
        if r < self.slots.len() && self.slots[r].id.0 == id.0 {
            proof {
                assert(self@.nodes[r as int].id.0 == id.0);
                assert(self@.nodes[r as int].id == id);
                lemma_index_of(self@, r as int);
            }
            Some(r)
        } else {
            proof {
                if self@.has_node(id) {
                    let i = self@.index_of(id);
                    assert(self@.nodes[i].id == id);
                }
            }
            None
        }
    }

    /// Whether the graph has a node `id`.
    pub fn contains(&self, id: NodeId) -> (b: bool)
        requires
            self.wf(),
        ensures
            b == self@.has_node(id),
    {
        self.position(id).is_some()
    }

    /// The node `id`, if the graph has it.
    pub fn node(&self, id: NodeId) -> (node: Option<&Node>)
        requires
            self.wf(),
        ensures
            node is Some == self@.has_node(id),
            node is Some ==> node.unwrap().pos == self@.nodes[self@.index_of(id)].pos
                && node.unwrap().ty@ == self@.nodes[self@.index_of(id)].ty,
    {
        match self.position(id) {
            Some(i) => Some(&self.slots[i].node),
            None => None,
        }
    }
}

impl TerrainGraph {
    /// Puts a node under the handle `id`, in place of the node that has this
    /// handle if there is one.
    pub fn add_node_from_box_ty_with_id(&mut self, pos: Pos, ty: NodeType, id: NodeId)
        requires
            old(self).wf(),
            ty.wf(),
        ensures
            final(self).wf(),
            final(self)@ == old(self)@.inserted(id, pos, ty@),
    {
        let r = self.rank(id);
        let ghost before = self@;
        let ghost node = NodeView { id, pos, ty: ty@ };
        if r < self.slots.len() && self.slots[r].id.0 == id.0 {
            proof {
                assert(before.nodes[r as int].id == id);
                lemma_index_of(before, r as int);
            }
            self.slots[r] = Slot { id, node: Node { pos, ty } };
            assert(self@.nodes =~= before.nodes.update(r as int, node));
        } else {
            proof {
                if before.has_node(id) {
                    let i = before.index_of(id);
                    assert(before.nodes[i].id == id);
                }
            }
            self.slots.insert(r, Slot { id, node: Node { pos, ty } });
            assert(self@.nodes =~= before.nodes.insert(r as int, node));
            assert forall|i: int, j: int| 0 <= i < j < self@.nodes.len() implies (
            #[trigger] self@.nodes[i]).id.0 < (#[trigger] self@.nodes[j]).id.0 by {
                let a = if i < r { i } else { i - 1 };
                let b = if j < r { j } else { j - 1 };
                if i != r && j != r {
                    assert(before.nodes[a].id.0 < before.nodes[b].id.0);
                } else if i == r {
                    assert(before.nodes[b].id.0 >= id.0);
                    assert(before.nodes[b].id != id);
                } else {
                    assert(before.nodes[a].id.0 < id.0);
                }
            }
        }
    }

    /// Puts a node into the graph under a new handle, which it returns.
    pub fn add_node_from_box_ty(&mut self, pos: Pos, ty: NodeType) -> (id: NodeId)
        requires
            old(self).wf(),
            ty.wf(),
            old(self)@.curr_node_id.0 < u64::MAX,
        ensures
            final(self).wf(),
            id == old(self)@.curr_node_id,
            final(self)@ == (GraphView {
                curr_node_id: NodeId((id.0 + 1) as u64),
                ..old(self)@
            }).inserted(id, pos, ty@),
    {
        let id = self.curr_node_id;
        self.curr_node_id = NodeId(id.0 + 1);
        assert(self@.nodes =~= old(self)@.nodes);
        self.add_node_from_box_ty_with_id(pos, ty, id);
        id
    }

    /// Puts a fresh node of `kind` into the graph under a new handle, which
    /// it returns.
    pub fn add_node(&mut self, pos: Pos, kind: NodeKind) -> (id: NodeId)
        requires
            old(self).wf(),
            old(self)@.curr_node_id.0 < u64::MAX,
        ensures
            final(self).wf(),
            id == old(self)@.curr_node_id,
            final(self)@ == (GraphView {
                curr_node_id: NodeId((id.0 + 1) as u64),
                ..old(self)@
            }).inserted(id, pos, NodeTypeView::fresh(kind)),
    {
        self.add_node_from_box_ty(pos, NodeType::make(kind))
    }

    /// Replaces the source of input `k` of the node at place `i`.
    fn set_connection(&mut self, i: usize, k: usize, c: Option<(NodeId, u32)>)
        requires
            old(self).wf(),
            i < old(self)@.nodes.len(),
            k < old(self)@.nodes[i as int].ty.inputs.len(),
        ensures
            final(self).wf(),
            final(self)@ == old(self)@.with_input(
                i as int,
                k as int,
                NodeInput { val: old(self)@.nodes[i as int].ty.inputs[k as int].val, connection: c },
            ),
    {
        let ghost before = self@;
        let val = self.slots[i].node.ty.inputs()[k].val;
        let input = NodeInput { val, connection: c };
        self.slots[i].node.ty.set_input(k, input);
        assert(self@.nodes =~= before.with_input(i as int, k as int, input).nodes);
    }

    /// Installs the edge `conn` in place of whatever fed its input, if both
    /// ends are there, the types agree and the graph keeps an order. Returns
    /// whether it did and, if so, the edge that it replaced. If not, the
    /// graph is as it was.
    pub fn connect(&mut self, conn: Connection) -> (r: (bool, Option<Connection>))
        requires
            old(self).wf(),
        ensures
            final(self).wf(),
            r.0 == old(self)@.can_connect(conn),
            final(self)@ == old(self)@.connected(conn),
            toposort(old(self)@) is Some ==> toposort(final(self)@) is Some,
            r.1 == if r.0 {
                old(self)@.edge_at(conn.to, conn.inp_idx)
            } else {
                None
            },
    {
        let ghost before = self@;
        let to = match self.position(conn.to) {
            Some(i) => i,
            None => {
                return (false, None);
            },
        };
        let k = conn.inp_idx as usize;
        if k >= self.slots[to].node.ty.inputs().len() {
            return (false, None);
        }
        let from = match self.position(conn.from) {
            Some(i) => i,
            None => {
                return (false, None);
            },
        };
        let outs = self.slots[from].node.ty.outputs();
        if conn.out_idx as usize >= outs.len() {
            return (false, None);
        }
        let ins = self.slots[to].node.ty.kind().input_types();
        if outs[conn.out_idx as usize] != ins[k] {
            return (false, None);
        }
        assert(before.edge_fits(conn));
        let previous = self.slots[to].node.ty.inputs()[k].connection;
        self.set_connection(to, k, Some((conn.from, conn.out_idx)));
        assert(self@ == before.with_edge(conn));
        if graph_toposort(self).is_none() {
            let ghost tried = self@;
            self.set_connection(to, k, previous);
            proof {
                assert(self@.nodes[to as int].ty.inputs =~= before.nodes[to as int].ty.inputs);
                assert(self@.nodes =~= before.nodes);
            }
            return (false, None);
        }
        let broken = match previous {
            Some(c) => Some(Connection { from: c.0, out_idx: c.1, to: conn.to, inp_idx: conn.inp_idx }),
            None => None,
        };
        (true, broken)
    }

    /// Cuts whatever feeds input `inp_idx` of `node` and returns the edge
    /// that was cut, if there was one.
    pub fn disconnect(&mut self, node: NodeId, inp_idx: u32) -> (r: Option<Connection>)
        requires
            old(self).wf(),
        ensures
            final(self).wf(),
            final(self)@ == old(self)@.without_edge(node, inp_idx),
            r == old(self)@.edge_at(node, inp_idx),
            toposort(old(self)@) is Some ==> toposort(final(self)@) is Some,
    {
        proof {
            if toposort(self@) is Some {
                lemma_disconnect_keeps_order(self@, node, inp_idx);
            }
        }
        let to = match self.position(node) {
            Some(i) => i,
            None => {
                return None;
            },
        };
        let k = inp_idx as usize;
        if k >= self.slots[to].node.ty.inputs().len() {
            return None;
        }
        let previous = self.slots[to].node.ty.inputs()[k].connection;
        self.set_connection(to, k, None);
        match previous {
            Some(c) => Some(Connection { from: c.0, out_idx: c.1, to: node, inp_idx }),
            None => None,
        }
    }
}

impl TerrainGraph {
    /// Takes the node `id` out of the graph, after cutting every edge that
    /// starts at it. Returns the edges that were cut, in the order of the
    /// nodes and inputs that they ended at, and the node, if there was one.
    pub fn delete_node(&mut self, id: NodeId) -> (r: (Vec<Connection>, Option<Node>))
        requires
            old(self).wf(),
        ensures
            final(self).wf(),
            final(self)@ == old(self)@.deleted(id),
            toposort(old(self)@) is Some ==> toposort(final(self)@) is Some,
            r.0@ == old(self)@.edges_from(id, old(self)@.nodes.len() as int),
            r.1 is Some == old(self)@.has_node(id),
            r.1 is Some ==> r.1.unwrap().pos == old(self)@.nodes[old(self)@.index_of(id)].pos
                && r.1.unwrap().ty@ == old(self)@.severed(id).nodes[old(self)@.index_of(id)].ty,
    {
        let ghost before = self@;
        proof {
            if toposort(before) is Some {
                lemma_delete_keeps_order(before, id);
            }
        }
        let mut broken: Vec<Connection> = Vec::new();
        let n = self.slots.len();
        let mut i: usize = 0;
        assert(self@.nodes =~= before.severed_at(id, 0, 0).nodes) by {
            assert forall|x: int| 0 <= x < before.nodes.len() implies before.severed_at(
                id,
                0,
                0,
            ).nodes[x] == before.nodes[x] by {
                assert(before.severed_at(id, 0, 0).nodes[x].ty.inputs =~= before.nodes[x].ty.inputs);
            }
        }
        while i < n
            invariant
                before.wf(),
                self.wf(),
                n == before.nodes.len(),
                i <= n,
                self@ == before.severed_at(id, i as int, 0),
                self@.nodes.len() == n,
                broken@ == before.edges_from(id, i as int),
            decreases n - i,
        {
            assert(self@.nodes[i as int] == before.severed_at(id, i as int, 0).nodes[i as int]);
            let m = self.slots[i].node.ty.inputs().len();
            proof {
                lemma_declarations_agree(before.nodes[i as int].ty.kind);
                assert(before.nodes[i as int].ty.wf());
            }
            let mut k: usize = 0;
            assert(broken@ =~= before.edges_from(id, i as int) + before.node_edges_from(
                id,
                i as int,
                0,
            ));
            while k < m
                invariant
                    before.wf(),
                    self.wf(),
                    n == before.nodes.len(),
                    i < n,
                    m == before.nodes[i as int].ty.inputs.len(),
                    m <= 5,
                    k <= m,
                    self@ == before.severed_at(id, i as int, k as int),
                    self@.nodes.len() == n,
                    broken@ == before.edges_from(id, i as int) + before.node_edges_from(
                        id,
                        i as int,
                        k as int,
                    ),
                decreases m - k,
            {
                let ghost here = self@;
                let ghost edges = before.node_edges_from(id, i as int, k as int);
                assert(self@.nodes[i as int] == before.severed_at(id, i as int, k as int).nodes[i as int]);
                let input = self.slots[i].node.ty.inputs()[k];
                assert(input == before.nodes[i as int].ty.inputs[k as int]);
                let cut = match input.connection {
                    Some(c) => c.0 == id,
                    None => false,
                };
                if cut {
                    let c = input.connection.unwrap();
                    let edge = Connection {
                        from: id,
                        out_idx: c.1,
                        to: self.slots[i].id,
                        inp_idx: k as u32,
                    };
                    broken.push(edge);
                    self.set_connection(i, k, None);
                    assert(broken@ =~= before.edges_from(id, i as int) + edges.push(edge));
                }
                assert(self@.nodes =~= before.severed_at(id, i as int, k + 1).nodes) by {
                    let target = before.severed_at(id, i as int, k + 1);
                    assert forall|x: int| 0 <= x < before.nodes.len() implies self@.nodes[x]
                        == target.nodes[x] by {
                        assert(here.nodes[x] == before.severed_at(id, i as int, k as int).nodes[x]);
                        assert(self@.nodes[x].ty.inputs =~= target.nodes[x].ty.inputs);
                    }
                }
                k += 1;
            }
            assert(self@.nodes =~= before.severed_at(id, i + 1, 0).nodes) by {
                let target = before.severed_at(id, i + 1, 0);
                assert forall|x: int| 0 <= x < before.nodes.len() implies self@.nodes[x]
                    == target.nodes[x] by {
                    assert(self@.nodes[x].ty.inputs =~= target.nodes[x].ty.inputs);
                }
            }
            i += 1;
        }
        let ghost cut = self@;
        assert(cut == before.severed(id));
        proof {
            assert(cut.has_node(id) == before.has_node(id)) by {
                if before.has_node(id) {
                    let x = before.index_of(id);
                    assert(cut.nodes[x].id == id);
                }
                if cut.has_node(id) {
                    let x = cut.index_of(id);
                    assert(before.nodes[x].id == id);
                }
            }
        }
        match self.position(id) {
            Some(p) => {
                proof {
                    assert(before.nodes[p as int].id == id);
                    lemma_index_of(before, p as int);
                }
                let slot = self.slots.remove(p);
                assert(self@.nodes =~= cut.nodes.remove(p as int));
                (broken, Some(slot.node))
            },
            None => (broken, None),
        }
    }

    /// Replaces the literal of input `inp_idx` of `node` and returns the one
    /// that it held, if the node is there and has the input.
    pub fn set_input_value(&mut self, node: NodeId, inp_idx: u32, val: Value) -> (r: Option<Value>)
        requires
            old(self).wf(),
        ensures
            final(self).wf(),
            final(self)@ == old(self)@.with_value(node, inp_idx, val),
            r == if old(self)@.input_valid(node, inp_idx) {
                Some(old(self)@.input(node, inp_idx).val)
            } else {
                None
            },
    {
        let ghost before = self@;
        let i = match self.position(node) {
            Some(i) => i,
            None => {
                return None;
            },
        };
        let k = inp_idx as usize;
        if k >= self.slots[i].node.ty.inputs().len() {
            return None;
        }
        let input = self.slots[i].node.ty.inputs()[k];
        let replaced = NodeInput { val, connection: input.connection };
        self.slots[i].node.ty.set_input(k, replaced);
        assert(self@.nodes =~= before.with_input(i as int, k as int, replaced).nodes);
        Some(input.val)
    }

    /// Moves `node` to `pos` on the canvas and returns where it was, if the
    /// node is there.
    pub fn set_node_pos(&mut self, node: NodeId, pos: Pos) -> (r: Option<Pos>)
        requires
            old(self).wf(),
        ensures
            final(self).wf(),
            final(self)@ == old(self)@.with_pos(node, pos),
            r == if old(self)@.has_node(node) {
                Some(old(self)@.nodes[old(self)@.index_of(node)].pos)
            } else {
                None
            },
    {
        let ghost before = self@;
        let i = match self.position(node) {
            Some(i) => i,
            None => {
                return None;
            },
        };
        let was = self.slots[i].node.pos;
        self.slots[i].node.pos = pos;
        assert(self@.nodes =~= before.nodes.update(
            i as int,
            NodeView { pos, ..before.nodes[i as int] },
        ));
        Some(was)
    }

    /// Names the parameter that the parameter node `node` reads. Returns
    /// whether the graph has such a node; if not, nothing changes.
    pub fn set_param(&mut self, node: NodeId, param: String) -> (done: bool)
        requires
            old(self).wf(),
        ensures
            final(self).wf(),
            done == (old(self)@.has_node(node) && old(self)@.nodes[old(self)@.index_of(node)].ty.kind
                == NodeKind::BiomeParameter),
            done ==> final(self)@ == (GraphView {
                nodes: old(self)@.nodes.update(
                    old(self)@.index_of(node),
                    NodeView {
                        ty: NodeTypeView {
                            data: NodeDataView::BiomeParameter(param@),
                            ..old(self)@.nodes[old(self)@.index_of(node)].ty
                        },
                        ..old(self)@.nodes[old(self)@.index_of(node)]
                    },
                ),
                ..old(self)@
            }),
            !done ==> final(self)@ == old(self)@,
    {
        let ghost before = self@;
        let i = match self.position(node) {
            Some(i) => i,
            None => {
                return false;
            },
        };
        let done = self.slots[i].node.ty.set_param(param);
        if done {
            assert(self@.nodes =~= before.nodes.update(
                i as int,
                NodeView {
                    ty: NodeTypeView {
                        data: NodeDataView::BiomeParameter(param@),
                        ..before.nodes[i as int].ty
                    },
                    ..before.nodes[i as int]
                },
            ));
        } else {
            assert(self@.nodes =~= before.nodes);
        }
        done
    }

    /// Picks the biome that the weight node `node` reads. Returns whether
    /// the graph has such a node; if not, nothing changes.
    pub fn set_biome_idx(&mut self, node: NodeId, biome_idx: usize) -> (done: bool)
        requires
            old(self).wf(),
        ensures
            final(self).wf(),
            done == (old(self)@.has_node(node) && old(self)@.nodes[old(self)@.index_of(node)].ty.kind
                == NodeKind::BiomeWeight),
            done ==> final(self)@ == (GraphView {
                nodes: old(self)@.nodes.update(
                    old(self)@.index_of(node),
                    NodeView {
                        ty: NodeTypeView {
                            data: NodeDataView::BiomeWeight(biome_idx),
                            ..old(self)@.nodes[old(self)@.index_of(node)].ty
                        },
                        ..old(self)@.nodes[old(self)@.index_of(node)]
                    },
                ),
                ..old(self)@
            }),
            !done ==> final(self)@ == old(self)@,
    {
        let ghost before = self@;
        let i = match self.position(node) {
            Some(i) => i,
            None => {
                return false;
            },
        };
        let done = self.slots[i].node.ty.set_biome_idx(biome_idx);
        if done {
            assert(self@.nodes =~= before.nodes.update(
                i as int,
                NodeView {
                    ty: NodeTypeView {
                        data: NodeDataView::BiomeWeight(biome_idx),
                        ..before.nodes[i as int].ty
                    },
                    ..before.nodes[i as int]
                },
            ));
        } else {
            assert(self@.nodes =~= before.nodes);
        }
        done
    }
}

fn visit_node(
    graph: &TerrainGraph,
    id: NodeId,
    on_stack: &mut Vec<bool>,
    finished: &mut Vec<bool>,
    order: &mut Vec<NodeId>,
    Ghost(stack): Ghost<Set<NodeId>>,
) -> (ok: bool)
    requires
        graph.wf(),
        marks_agree(graph@, old(on_stack)@, old(finished)@, stack, old(order)@),
    ensures
        ok ==> visit(graph@, id, stack, old(order)@) == Some(final(order)@) && marks_agree(
            graph@,
            final(on_stack)@,
            final(finished)@,
            stack,
            final(order)@,
        ),
        !ok ==> visit(graph@, id, stack, old(order)@) is None,
    decreases unvisited(graph@, stack),
{
    let ghost g = graph@;
    let ghost done0 = order@;
    let p = match graph.position(id) {
        Some(p) => p,
        None => {
            proof {
                if done0.contains(id) {
                    let j = choose|j: int| 0 <= j < done0.len() && done0[j] == id;
                    assert(g.has_node(done0[j]));
                }
            }
            return false;
        },
    };
    if finished[p] {
        return true;
    }
    if on_stack[p] {
        return false;
    }
    proof {
        assert(!finished@[p as int]);
        assert(!(on_stack@[p as int] && !finished@[p as int]));
        assert(!done0.contains(id));
        assert(!stack.contains(id));
    }
    on_stack[p] = true;
    let ghost s2 = stack.insert(id);
    proof {
        lemma_unvisited_decreases(g, id, stack);
        assert forall|q: int| 0 <= q < g.nodes.len() implies ((on_stack@[q] && !finished@[q])
            <==> s2.contains((#[trigger] g.nodes[q]).id)) by {
            if q != p {
                lemma_index_of(g, q);
                assert(on_stack@[q] == old(on_stack)@[q]);
            }
        }
        assert(marks_agree(g, on_stack@, finished@, s2, order@));
    }
    let n_inputs = graph.slots[p].node.ty.inputs().len();
    let mut k: usize = 0;
    while k < n_inputs
        invariant
            graph.wf(),
            g == graph@,
            p < g.nodes.len(),
            g.nodes[p as int].id == id,
            n_inputs == g.nodes[p as int].ty.inputs.len(),
            k <= n_inputs,
            s2 == stack.insert(id),
            done0 == old(order)@,
            !done0.contains(id),
            !stack.contains(id),
            g.has_node(id),
            g.index_of(id) == p,
            unvisited(g, s2) < unvisited(g, stack),
            marks_agree(g, on_stack@, finished@, s2, order@),
            visit_inputs(g, p as int, k as int, s2, order@) == visit_inputs(g, p as int, 0, s2, done0),
        decreases n_inputs - k,
    {
        match graph.slots[p].node.ty.inputs()[k].connection {
            None => {},
            Some(c) => {
                assert(g.source(p as int, k as int) == Some(c.0));
                let ghost so_far = order@;
                let ok = visit_node(graph, c.0, on_stack, finished, order, Ghost(s2));
                if !ok {
                    assert(visit_inputs(g, p as int, k as int, s2, so_far) is None);
                    return false;
                }
            },
        }
        k += 1;
    }
    proof {
        let d = order@;
        assert(s2.contains(g.nodes[p as int].id));
        assert(on_stack@[p as int] && !finished@[p as int]);
        assert(!d.contains(id));
        assert forall|q: int| 0 <= q < g.nodes.len() implies (finished@.update(p as int, true)[q]
            <==> d.push(id).contains((#[trigger] g.nodes[q]).id)) by {
            if q == p {
                assert(d.push(id)[d.len() as int] == id);
            } else {
                lemma_index_of(g, q);
                lemma_index_of(g, p as int);
                if d.contains(g.nodes[q].id) {
                    let j = choose|j: int| 0 <= j < d.len() && d[j] == g.nodes[q].id;
                    assert(d.push(id)[j] == g.nodes[q].id);
                }
                if d.push(id).contains(g.nodes[q].id) {
                    let j = choose|j: int| 0 <= j < d.push(id).len() && d.push(id)[j] == g.nodes[q].id;
                    assert(j < d.len());
                    assert(d[j] == g.nodes[q].id);
                }
            }
        }
        assert forall|q: int| 0 <= q < g.nodes.len() implies ((on_stack@[q] && !finished@.update(
            p as int,
            true,
        )[q]) <==> stack.contains((#[trigger] g.nodes[q]).id)) by {
            if q != p {
                lemma_index_of(g, q);
                lemma_index_of(g, p as int);
            }
        }
        assert forall|j: int| 0 <= j < d.push(id).len() implies g.has_node(
            #[trigger] d.push(id)[j],
        ) by {
            if j < d.len() {
                assert(d.push(id)[j] == d[j]);
            }
        }
    }
    order.push(id);
    finished[p] = true;
    true
}

/// The order in which the nodes are compiled, or nothing if a node depends
/// on itself or on a node that the graph does not have. Every node is in the
/// order, whether anything reads its outputs or not.
pub fn graph_toposort(graph: &TerrainGraph) -> (sorted: Option<Vec<NodeId>>)
    requires
        graph.wf(),
    ensures
        match sorted {
            Some(order) => toposort(graph@) == Some(order@),
            None => toposort(graph@) is None,
        },
{
    let n = graph.slots.len();
    let mut on_stack: Vec<bool> = Vec::new();
    let mut finished: Vec<bool> = Vec::new();
    let mut i: usize = 0;
    while i < n
        invariant
            i <= n,
            on_stack@.len() == i,
            finished@.len() == i,
            forall|p: int| 0 <= p < i ==> !(#[trigger] on_stack@[p]),
            forall|p: int| 0 <= p < i ==> !(#[trigger] finished@[p]),
        decreases n - i,
    {
        on_stack.push(false);
        finished.push(false);
        i += 1;
    }
    let mut order: Vec<NodeId> = Vec::new();
    let mut r: usize = 0;
    while r < n
        invariant
            graph.wf(),
            n == graph@.nodes.len(),
            r <= n,
            marks_agree(graph@, on_stack@, finished@, Set::empty(), order@),
            sort_from(graph@, r as int, order@) == toposort(graph@),
        decreases n - r,
    {
        let ok = visit_node(graph, graph.slots[r].id, &mut on_stack, &mut finished, &mut order, Ghost(Set::empty()));
        if !ok {
            return None;
        }
        r += 1;
    }
    Some(order)
}

} // verus!
