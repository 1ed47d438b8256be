//! A graph as a document, and a document as a graph.

use vstd::prelude::*;
use vstd::string::*;
use crate::decimal::Decimal;
use crate::graph::node_types::{
    from_label, lemma_declarations_agree, lemma_label_names_kind, spec_from_label, NodeData,
    NodeDataView, NodeKind, NodeType, NodeTypeView,
};
use crate::graph::{
    GraphView, Node, NodeId, NodeInput, NodeView, Pos, TerrainGraph, Transform, Value,
};
use crate::json::{field_within, views_of, Field, Json, JsonView};
use crate::text::str_eq;

verus! {

/// A literal as a document: a scalar and a vector under the name of their
/// kind, a terrain as that name alone.
pub open spec fn value_json(val: Value) -> JsonView {
    match val {
        Value::Scalar(d) => JsonView::Object(seq![("Scalar"@, JsonView::Real(d))]),
        Value::Vector(x, y, z) => JsonView::Object(
            seq![
                (
                    "Vector"@,
                    JsonView::Array(seq![JsonView::Real(x), JsonView::Real(y), JsonView::Real(z)]),
                ),
            ],
        ),
        Value::Terrain => JsonView::Text("Terrain"@),
    }
}

/// The literal that a document stands for, if it stands for one.
pub open spec fn value_of_json(j: JsonView) -> Option<Value> {
    match j {
        JsonView::Text(s) => if s == "Terrain"@ {
            Some(Value::Terrain)
        } else {
            None
        },
        JsonView::Object(fields) => if fields.len() != 1 {
            None
        } else if fields[0].0 == "Scalar"@ {
            match fields[0].1.as_decimal() {
                Some(d) => Some(Value::Scalar(d)),
                None => None,
            }
        } else if fields[0].0 == "Vector"@ {
            match fields[0].1 {
                JsonView::Array(items) => if items.len() == 3 && items[0].as_decimal() is Some
                    && items[1].as_decimal() is Some && items[2].as_decimal() is Some {
                    Some(
                        Value::Vector(
                            items[0].as_decimal().unwrap(),
                            items[1].as_decimal().unwrap(),
                            items[2].as_decimal().unwrap(),
                        ),
                    )
                } else {
                    None
                },
                _ => None,
            }
        } else if fields[0].0 == "Terrain"@ && fields[0].1 is Null {
            Some(Value::Terrain)
        } else {
            None
        },
        _ => None,
    }
}

/// The source of an input as a document: nothing, or the handle of the node
/// and the index of its output.
pub open spec fn conn_json(conn: Option<(NodeId, u32)>) -> JsonView {
    match conn {
        Some(c) => JsonView::Array(seq![JsonView::UInt(c.0.0), JsonView::UInt(c.1 as u64)]),
        None => JsonView::Null,
    }
}

/// The source that a document stands for, if it stands for one.
pub open spec fn conn_of_json(j: JsonView) -> Option<Option<(NodeId, u32)>> {
    match j {
        JsonView::Null => Some(None),
        JsonView::Array(items) => if items.len() == 2 && items[0].as_u64() is Some
            && items[1].as_u64() is Some && items[1].as_u64().unwrap() <= u32::MAX {
            Some(Some((NodeId(items[0].as_u64().unwrap()), items[1].as_u64().unwrap() as u32)))
        } else {
            None
        },
        _ => None,
    }
}

pub open spec fn pos_json(pos: Pos) -> JsonView {
    JsonView::Object(seq![("x"@, JsonView::Real(pos.x)), ("y"@, JsonView::Real(pos.y))])
}

pub open spec fn pos_of_json(j: JsonView) -> Option<Pos> {
    match (j.get("x"@), j.get("y"@)) {
        (Some(x), Some(y)) => match (x.as_decimal(), y.as_decimal()) {
            (Some(x), Some(y)) => Some(Pos { x, y }),
            _ => None,
        },
        _ => None,
    }
}

pub open spec fn transform_json(t: Transform) -> JsonView {
    JsonView::Object(
        seq![("scaling"@, JsonView::Real(t.scaling)), ("translation"@, pos_json(t.translation))],
    )
}

pub open spec fn transform_of_json(j: JsonView) -> Option<Transform> {
    match (j.get("scaling"@), j.get("translation"@)) {
        (Some(s), Some(t)) => match (s.as_decimal(), pos_of_json(t)) {
            (Some(scaling), Some(translation)) => Some(Transform { scaling, translation }),
            _ => None,
        },
        _ => None,
    }
}

/// An input as a document.
pub open spec fn input_json(input: NodeInput) -> JsonView {
    JsonView::Object(seq![("val"@, value_json(input.val)), ("conn"@, conn_json(input.connection))])
}

/// The input that a document stands for, if it stands for one.
pub open spec fn input_of_json(j: JsonView) -> Option<NodeInput> {
    match (j.get("val"@), j.get("conn"@)) {
        (Some(v), Some(c)) => if j is Object {
            match (value_of_json(v), conn_of_json(c)) {
                (Some(val), Some(connection)) => Some(NodeInput { val, connection }),
                _ => None,
            }
        } else {
            None
        },
        _ => None,
    }
}

/// What a node holds besides its inputs, as a document.
pub open spec fn data_json(data: NodeDataView) -> JsonView {
    match data {
        NodeDataView::Plain => JsonView::Null,
        NodeDataView::BiomeParameter(param) => JsonView::Object(
            seq![("param"@, JsonView::Text(param))],
        ),
        NodeDataView::BiomeWeight(idx) => JsonView::Object(
            seq![("biome_idx"@, JsonView::UInt(idx as u64))],
        ),
    }
}

/// What the node holds after it has read the document `j`: a parameter
/// node takes a name from it, a weight node an index, if it holds one; all
/// else stays.
pub open spec fn data_after(data: NodeDataView, j: JsonView) -> NodeDataView {
    match data {
        NodeDataView::Plain => data,
        NodeDataView::BiomeParameter(_) => match j.get("param"@) {
            Some(p) => match p.as_text() {
                Some(name) => NodeDataView::BiomeParameter(name),
                None => data,
            },
            None => data,
        },
        NodeDataView::BiomeWeight(_) => match j.get("biome_idx"@) {
            Some(i) => match i.as_u64() {
                Some(idx) => if idx <= usize::MAX {
                    NodeDataView::BiomeWeight(idx as usize)
                } else {
                    data
                },
                None => data,
            },
            None => data,
        },
    }
}

/// The first `n` inputs as documents.
pub open spec fn inputs_json(inputs: Seq<NodeInput>) -> Seq<JsonView> {
    Seq::new(inputs.len(), |k: int| input_json(inputs[k]))
}

/// A node as a document: its handle, its place on the canvas, the label of
/// its kind, what it holds and its inputs.
pub open spec fn node_json(node: NodeView) -> JsonView {
    JsonView::Object(
        seq![
            ("id"@, JsonView::UInt(node.id.0)),
            ("pos"@, pos_json(node.pos)),
            ("ty"@, JsonView::Text(node.ty.kind.spec_label())),
            ("data"@, data_json(node.ty.data)),
            ("inputs"@, JsonView::Array(inputs_json(node.ty.inputs))),
        ],
    )
}

/// A graph as a document.
pub open spec fn graph_json(g: GraphView) -> JsonView {
    JsonView::Object(
        seq![
            ("transform"@, transform_json(g.transform)),
            ("curr_node_id"@, JsonView::UInt(g.curr_node_id.0)),
            ("nodes"@, JsonView::Array(nodes_json(g))),
        ],
    )
}

/// The documents of the nodes of a graph.
pub open spec fn nodes_json(g: GraphView) -> Seq<JsonView> {
    Seq::new(g.nodes.len(), |i: int| node_json(g.nodes[i]))
}

/// `base` with the first `n` inputs read from `items`, or nothing if one
/// of these is not an input.
pub open spec fn inputs_read(items: Seq<JsonView>, base: Seq<NodeInput>, n: int) -> Option<
    Seq<NodeInput>,
>
    decreases n,
{
    if n <= 0 {
        Some(base)
    } else {
        match (inputs_read(items, base, n - 1), input_of_json(items[n - 1])) {
            (Some(inputs), Some(input)) => Some(inputs.update(n - 1, input)),
            _ => None,
        }
    }
}

/// How many inputs are read: as many as the document has, but no more than
/// the kind declares.
pub open spec fn inputs_to_read(items: Seq<JsonView>, base: Seq<NodeInput>) -> int {
    if items.len() < base.len() {
        items.len() as int
    } else {
        base.len() as int
    }
}

/// The node that a document stands for, if it stands for one. A document
/// whose label names no kind of the catalog stands for none.
pub open spec fn node_of_json(j: JsonView) -> Option<NodeView> {
    if !(j is Object) {
        None
    } else {
        match (j.get("id"@), j.get("ty"@), j.get("inputs"@), j.get("pos"@)) {
            (Some(id), Some(ty), Some(inputs), Some(pos)) => match (
                id.as_u64(),
                ty.as_text(),
                inputs.as_array(),
                pos_of_json(pos),
            ) {
                (Some(id), Some(label), Some(items), Some(pos)) => match spec_from_label(label) {
                    Some(kind) => {
                        let fresh = NodeTypeView::fresh(kind);
                        match inputs_read(items, fresh.inputs, inputs_to_read(items, fresh.inputs)) {
                            Some(read) => Some(
                                NodeView {
                                    id: NodeId(id),
                                    pos,
                                    ty: NodeTypeView {
                                        kind,
                                        inputs: read,
                                        data: data_after(
                                            fresh.data,
                                            match j.get("data"@) {
                                                Some(d) => d,
                                                None => JsonView::Null,
                                            },
                                        ),
                                    },
                                },
                            ),
                            None => None,
                        }
                    },
                    None => None,
                },
                _ => None,
            },
            _ => None,
        }
    }
}

/// `base` with the nodes that the first `n` documents stand for put in;
/// a document that stands for no node is passed over, and of two nodes with
/// one handle the later stays.
pub open spec fn nodes_read(items: Seq<JsonView>, base: GraphView, n: int) -> GraphView
    decreases n,
{
    if n <= 0 {
        base
    } else {
        match node_of_json(items[n - 1]) {
            Some(node) => nodes_read(items, base, n - 1).inserted(node.id, node.pos, node.ty),
            None => nodes_read(items, base, n - 1),
        }
    }
}

/// The graph that a document stands for, if it stands for one.
pub open spec fn graph_of_json(j: JsonView) -> Option<GraphView> {
    if !(j is Object) {
        None
    } else {
        match (j.get("nodes"@), j.get("curr_node_id"@), j.get("transform"@)) {
            (Some(nodes), Some(next), Some(transform)) => match (
                nodes.as_array(),
                next.as_u64(),
                transform_of_json(transform),
            ) {
                (Some(items), Some(next), Some(transform)) => Some(
                    nodes_read(
                        items,
                        GraphView { nodes: Seq::empty(), curr_node_id: NodeId(next), transform },
                        items.len() as int,
                    ),
                ),
                _ => None,
            },
            _ => None,
        }
    }
}

fn field(key: &str, val: Json) -> (f: Field)
    ensures
        f.key@ == key@,
        f.val == val,
{
    Field { key: String::from_str(key), val }
}

fn object2(k0: &str, v0: Json, k1: &str, v1: Json) -> (j: Json)
    ensures
        j@ == JsonView::Object(seq![(k0@, v0@), (k1@, v1@)]),
{
    let mut fields: Vec<Field> = Vec::new();
    fields.push(field(k0, v0));
    fields.push(field(k1, v1));
    let j = Json::Object(fields);
    assert(j@->Object_0 =~= seq![(k0@, v0@), (k1@, v1@)]);
    j
}

fn object3(k0: &str, v0: Json, k1: &str, v1: Json, k2: &str, v2: Json) -> (j: Json)
    ensures
        j@ == JsonView::Object(seq![(k0@, v0@), (k1@, v1@), (k2@, v2@)]),
{
    let mut fields: Vec<Field> = Vec::new();
    fields.push(field(k0, v0));
    fields.push(field(k1, v1));
    fields.push(field(k2, v2));
    let j = Json::Object(fields);
    assert(j@->Object_0 =~= seq![(k0@, v0@), (k1@, v1@), (k2@, v2@)]);
    j
}

fn array3(a: Json, b: Json, c: Json) -> (j: Json)
    ensures
        j@ == JsonView::Array(seq![a@, b@, c@]),
{
    let mut items: Vec<Json> = Vec::new();
    items.push(a);
    items.push(b);
    items.push(c);
    let j = Json::Array(items);
    assert(j@->Array_0 =~= seq![a@, b@, c@]);
    j
}

fn array2(a: Json, b: Json) -> (j: Json)
    ensures
        j@ == JsonView::Array(seq![a@, b@]),
{
    let mut items: Vec<Json> = Vec::new();
    items.push(a);
    items.push(b);
    let j = Json::Array(items);
    assert(j@->Array_0 =~= seq![a@, b@]);
    j
}

/// Writes a literal as a document.
pub fn value_to_json(val: &Value) -> (j: Json)
    ensures
        j@ == value_json(*val),
{
    match val {
        Value::Scalar(d) => Json::object1("Scalar", Json::Real(*d)),
        Value::Vector(x, y, z) => Json::object1(
            "Vector",
            array3(Json::Real(*x), Json::Real(*y), Json::Real(*z)),
        ),
        Value::Terrain => Json::Text(String::from_str("Terrain")),
    }
}

/// Reads a literal from a document.
pub fn value_from_json(j: &Json) -> (r: Option<Value>)
    ensures
        r == value_of_json(j@),
{
    match j {
        Json::Text(s) => if str_eq(s.as_str(), "Terrain") {
            Some(Value::Terrain)
        } else {
            None
        },
        Json::Object(fields) => {
            if fields.len() != 1 {
                return None;
            }
            let key = fields[0].key.as_str();
            let val = &fields[0].val;
            assert(j@->Object_0[0] == (fields[0].key@, fields[0].val@));
            if str_eq(key, "Scalar") {
                match val.as_decimal() {
                    Some(d) => Some(Value::Scalar(d)),
                    None => None,
                }
            } else if str_eq(key, "Vector") {
                match val.as_array() {
                    Some(items) => {
                        if items.len() != 3 {
                            return None;
                        }
                        match (items[0].as_decimal(), items[1].as_decimal(), items[2].as_decimal()) {
                            (Some(x), Some(y), Some(z)) => Some(Value::Vector(x, y, z)),
                            _ => None,
                        }
                    },
                    None => None,
                }
            } else if str_eq(key, "Terrain") {
                match val {
                    Json::Null => Some(Value::Terrain),
                    _ => None,
                }
            } else {
                None
            }
        },
        _ => None,
    }
}

fn conn_to_json(conn: &Option<(NodeId, u32)>) -> (j: Json)
    ensures
        j@ == conn_json(*conn),
{
    match conn {
        Some(c) => array2(Json::UInt(c.0.0), Json::UInt(c.1 as u64)),
        None => Json::Null,
    }
}

fn conn_from_json(j: &Json) -> (r: Option<Option<(NodeId, u32)>>)
    ensures
        r == conn_of_json(j@),
{
    match j {
        Json::Null => Some(None),
        Json::Array(items) => {
            if items.len() != 2 {
                return None;
            }
            match (items[0].as_u64(), items[1].as_u64()) {
                (Some(id), Some(idx)) => if idx <= u32::MAX as u64 {
                    Some(Some((NodeId(id), idx as u32)))
                } else {
                    None
                },
                _ => None,
            }
        },
        _ => None,
    }
}

fn pos_to_json(pos: &Pos) -> (j: Json)
    ensures
        j@ == pos_json(*pos),
{
    object2("x", Json::Real(pos.x), "y", Json::Real(pos.y))
}

fn pos_from_json(j: &Json) -> (r: Option<Pos>)
    ensures
        r == pos_of_json(j@),
{
    let x = match j.get("x") {
        Some(x) => x.as_decimal(),
        None => None,
    };
    let y = match j.get("y") {
        Some(y) => y.as_decimal(),
        None => None,
    };
    match (x, y) {
        (Some(x), Some(y)) => Some(Pos { x, y }),
        _ => None,
    }
}

fn transform_to_json(t: &Transform) -> (j: Json)
    ensures
        j@ == transform_json(*t),
{
    object2("scaling", Json::Real(t.scaling), "translation", pos_to_json(&t.translation))
}

fn transform_from_json(j: &Json) -> (r: Option<Transform>)
    ensures
        r == transform_of_json(j@),
{
    let scaling = match j.get("scaling") {
        Some(s) => s.as_decimal(),
        None => None,
    };
    let translation = match j.get("translation") {
        Some(t) => pos_from_json(t),
        None => None,
    };
    match (scaling, translation) {
        (Some(scaling), Some(translation)) => Some(Transform { scaling, translation }),
        _ => None,
    }
}

fn input_to_json(input: &NodeInput) -> (j: Json)
    ensures
        j@ == input_json(*input),
{
    object2("val", value_to_json(&input.val), "conn", conn_to_json(&input.connection))
}

fn input_from_json(j: &Json) -> (r: Option<NodeInput>)
    ensures
        r == input_of_json(j@),
{
    match j {
        Json::Object(_) => {},
        _ => {
            return None;
        },
    }
    let val = match j.get("val") {
        Some(v) => v,
        None => {
            return None;
        },
    };
    let conn = match j.get("conn") {
        Some(c) => c,
        None => {
            return None;
        },
    };
    match (value_from_json(val), conn_from_json(conn)) {
        (Some(val), Some(connection)) => Some(NodeInput { val, connection }),
        _ => None,
    }
}

impl NodeType {
    /// What the node holds besides its inputs, as a document.
    pub fn custom_serialize(&self) -> (j: Json)
        ensures
            j@ == data_json(self@.data),
    {
        match self.data() {
            NodeData::Plain => Json::Null,
            NodeData::BiomeParameter(p) => Json::object1("param", Json::Text(p.param.clone())),
            NodeData::BiomeWeight(w) => Json::object1("biome_idx", Json::UInt(w.biome_idx as u64)),
        }
    }

    /// Takes from a document what this kind of node holds; a document that
    /// does not hold it changes nothing.
    pub fn custom_deserialize(&mut self, data: &Json)
        requires
            old(self).wf(),
        ensures
            final(self).wf(),
            final(self)@ == (NodeTypeView { data: data_after(old(self)@.data, data@), ..old(self)@ }),
    {
        match self.kind() {
            NodeKind::BiomeParameter => {
                let name = match data.get("param") {
                    Some(p) => p.as_str(),
                    None => None,
                };
                match name {
                    Some(name) => {
                        self.set_param(String::from_str(name));
                    },
                    None => {},
                }
            },
            NodeKind::BiomeWeight => {
                let idx = match data.get("biome_idx") {
                    Some(i) => i.as_u64(),
                    None => None,
                };
                match idx {
                    Some(idx) => {
                        if idx <= usize::MAX as u64 {
                            self.set_biome_idx(idx as usize);
                        }
                    },
                    None => {},
                }
            },
            _ => {},
        }
    }
}

fn inputs_to_json(inputs: &Vec<NodeInput>) -> (j: Json)
    ensures
        j@ == JsonView::Array(inputs_json(inputs@)),
{
    let mut items: Vec<Json> = Vec::new();
    let mut k: usize = 0;
    while k < inputs.len()
        invariant
            k <= inputs.len(),
            items@.len() == k,
            forall|x: int| 0 <= x < k ==> (#[trigger] items@[x])@ == input_json(inputs@[x]),
        decreases inputs.len() - k,
    {
        items.push(input_to_json(&inputs[k]));
        k += 1;
    }
    let j = Json::Array(items);
    assert(j@->Array_0 =~= inputs_json(inputs@));
    j
}

fn object5(
    k0: &str,
    v0: Json,
    k1: &str,
    v1: Json,
    k2: &str,
    v2: Json,
    k3: &str,
    v3: Json,
    k4: &str,
    v4: Json,
) -> (j: Json)
    ensures
        j@ == JsonView::Object(seq![(k0@, v0@), (k1@, v1@), (k2@, v2@), (k3@, v3@), (k4@, v4@)]),
{
    let mut fields: Vec<Field> = Vec::new();
    fields.push(field(k0, v0));
    fields.push(field(k1, v1));
    fields.push(field(k2, v2));
    fields.push(field(k3, v3));
    fields.push(field(k4, v4));
    let j = Json::Object(fields);
    assert(j@->Object_0 =~= seq![(k0@, v0@), (k1@, v1@), (k2@, v2@), (k3@, v3@), (k4@, v4@)]);
    j
}

fn node_to_json(id: NodeId, node: &Node) -> (j: Json)
    ensures
        j@ == node_json(NodeView { id, pos: node.pos, ty: node.ty@ }),
{
    object5(
        "id",
        Json::UInt(id.0),
        "pos",
        pos_to_json(&node.pos),
        "ty",
        Json::Text(String::from_str(node.ty.label())),
        "data",
        node.ty.custom_serialize(),
        "inputs",
        inputs_to_json(node.ty.inputs()),
    )
}

fn read_inputs(items: &Vec<Json>, ty: &mut NodeType) -> (ok: bool)
    requires
        old(ty).wf(),
    ensures
        final(ty).wf(),
        final(ty)@.kind == old(ty)@.kind,
        final(ty)@.data == old(ty)@.data,
        ok ==> inputs_read(
            views_of(items@),
            old(ty)@.inputs,
            inputs_to_read(views_of(items@), old(ty)@.inputs),
        ) == Some(final(ty)@.inputs),
        !ok ==> inputs_read(
            views_of(items@),
            old(ty)@.inputs,
            inputs_to_read(views_of(items@), old(ty)@.inputs),
        ) is None,
{
    let ghost base = ty@.inputs;
    let ghost docs = views_of(items@);
    let n = if items.len() < ty.inputs().len() {
        items.len()
    } else {
        ty.inputs().len()
    };
    let mut k: usize = 0;
    while k < n
        invariant
            k <= n,
            n == inputs_to_read(docs, base),
            n <= items@.len(),
            n <= base.len(),
            docs == views_of(items@),
            base == old(ty)@.inputs,
            ty.wf(),
            ty@.kind == old(ty)@.kind,
            ty@.data == old(ty)@.data,
            ty@.inputs.len() == base.len(),
            inputs_read(docs, base, k as int) == Some(ty@.inputs),
        decreases n - k,
    {
        assert(docs[k as int] == items@[k as int]@);
        match input_from_json(&items[k]) {
            Some(input) => {
                ty.set_input(k, input);
            },
            None => {
                proof {
                    assert(inputs_read(docs, base, k + 1) is None);
                    lemma_inputs_unread(docs, base, k + 1, n as int);
                }
                return false;
            },
        }
        k += 1;
    }
    true
}

fn node_from_json(j: &Json) -> (r: Option<(NodeId, Node)>)
    ensures
        match r {
            Some(n) => n.1.ty.wf() && node_of_json(j@) == Some(
                NodeView { id: n.0, pos: n.1.pos, ty: n.1.ty@ },
            ),
            None => node_of_json(j@) is None,
        },
{
    match j {
        Json::Object(_) => {},
        _ => {
            return None;
        },
    }
    let id = match j.get("id") {
        Some(id) => id.as_u64(),
        None => None,
    };
    let label = match j.get("ty") {
        Some(ty) => ty.as_str(),
        None => None,
    };
    let items = match j.get("inputs") {
        Some(inputs) => inputs.as_array(),
        None => None,
    };
    let pos = match j.get("pos") {
        Some(pos) => pos_from_json(pos),
        None => None,
    };
    let (id, label, items, pos) = match (id, label, items, pos) {
        (Some(id), Some(label), Some(items), Some(pos)) => (id, label, items, pos),
        _ => {
            return None;
        },
    };
    let kind = match from_label(label) {
        Some(kind) => kind,
        None => {
            return None;
        },
    };
    let mut ty = NodeType::make(kind);
    if !read_inputs(items, &mut ty) {
        return None;
    }
    match j.get("data") {
        Some(data) => {
            ty.custom_deserialize(data);
        },
        None => {
            ty.custom_deserialize(&Json::Null);
        },
    }
    Some((NodeId(id), Node { pos, ty }))
}

proof fn lemma_inputs_unread(items: Seq<JsonView>, base: Seq<NodeInput>, i: int, n: int)
    requires
        0 < i <= n,
        inputs_read(items, base, i) is None,
    ensures
        inputs_read(items, base, n) is None,
    decreases n - i,
{
    if i < n {
        lemma_inputs_unread(items, base, i, n - 1);
    }
}

impl TerrainGraph {
    /// The graph as a document.
    pub fn to_json(&self) -> (j: Json)
        requires
            self.wf(),
        ensures
            j@ == graph_json(self@),
    {
        let mut nodes: Vec<Json> = Vec::new();
        let mut i: usize = 0;
        while i < self.len()
            invariant
                i <= self@.nodes.len(),
                nodes@.len() == i,
                forall|x: int| 0 <= x < i ==> (#[trigger] nodes@[x])@ == node_json(self@.nodes[x]),
            decreases self@.nodes.len() - i,
        {
            nodes.push(node_to_json(self.id_at(i), self.node_at(i)));
            i += 1;
        }
        let array = Json::Array(nodes);
        assert(array@->Array_0 =~= nodes_json(self@));
        object3(
            "transform",
            transform_to_json(&self.transform),
            "curr_node_id",
            Json::UInt(self.curr_node_id.0),
            "nodes",
            array,
        )
    }

    /// The graph that a document stands for. A node whose kind is not in
    /// the catalog, or that is damaged, is left out; a document that is not
    /// a graph at all gives nothing.
    pub fn from_json(data: &Json) -> (r: Option<TerrainGraph>)
        ensures
            match r {
                Some(g) => g.wf() && graph_of_json(data@) == Some(g@),
                None => graph_of_json(data@) is None,
            },
    {
        match data {
            Json::Object(_) => {},
            _ => {
                return None;
            },
        }
        let items = match data.get("nodes") {
            Some(nodes) => nodes.as_array(),
            None => None,
        };
        let next = match data.get("curr_node_id") {
            Some(next) => next.as_u64(),
            None => None,
        };
        let transform = match data.get("transform") {
            Some(transform) => transform_from_json(transform),
            None => None,
        };
        let (items, next, transform) = match (items, next, transform) {
            (Some(items), Some(next), Some(transform)) => (items, next, transform),
            _ => {
                return None;
            },
        };
        let ghost docs = views_of(items@);
        let mut graph = TerrainGraph::new();
        graph.curr_node_id = NodeId(next);
        graph.transform = transform;
        let ghost base = GraphView { nodes: Seq::empty(), curr_node_id: NodeId(next), transform };
        assert(graph@.nodes =~= base.nodes);
        let mut i: usize = 0;
        while i < items.len()
            invariant
                i <= items.len(),
                graph.wf(),
                docs == views_of(items@),
                graph@ == nodes_read(docs, base, i as int),
            decreases items.len() - i,
        {
            assert(docs[i as int] == items@[i as int]@);
            match node_from_json(&items[i]) {
                Some(entry) => {
                    let (id, node) = entry;
                    graph.add_node_from_box_ty_with_id(node.pos, node.ty, id);
                },
                None => {},
            }
            i += 1;
        }
        Some(graph)
    }
}

proof fn lemma_value_round_trip(val: Value)
    ensures
        value_of_json(value_json(val)) == Some(val),
{
    reveal_strlit("Scalar");
    reveal_strlit("Vector");
    reveal_strlit("Terrain");
    match val {
        Value::Vector(x, y, z) => {
            assert("Vector"@ != "Scalar"@) by {
                assert("Vector"@[0] != "Scalar"@[0]);
            }
        },
        _ => {},
    }
}

proof fn lemma_pos_round_trip(pos: Pos)
    ensures
        pos_of_json(pos_json(pos)) == Some(pos),
{
    reveal_strlit("x");
    reveal_strlit("y");
    reveal_with_fuel(field_within, 3);
    assert("x"@ != "y"@) by {
        assert("x"@[0] != "y"@[0]);
    }
}

proof fn lemma_transform_round_trip(t: Transform)
    ensures
        transform_of_json(transform_json(t)) == Some(t),
{
    reveal_strlit("scaling");
    reveal_strlit("translation");
    reveal_with_fuel(field_within, 3);
    assert("scaling"@ != "translation"@) by {
        assert("scaling"@[0] != "translation"@[0]);
    }
    lemma_pos_round_trip(t.translation);
}

proof fn lemma_input_round_trip(input: NodeInput)
    ensures
        input_of_json(input_json(input)) == Some(input),
{
    reveal_strlit("val");
    reveal_strlit("conn");
    reveal_with_fuel(field_within, 3);
    assert("val"@ != "conn"@) by {
        assert("val"@[0] != "conn"@[0]);
    }
    lemma_value_round_trip(input.val);
}

/// What has been read of `inputs` after the first `n`: these as they are,
/// the others as `base` has them.
pub open spec fn read_upto(inputs: Seq<NodeInput>, base: Seq<NodeInput>, n: int) -> Seq<NodeInput> {
    Seq::new(
        base.len(),
        |k: int|
            if k < n {
                inputs[k]
            } else {
                base[k]
            },
    )
}

proof fn lemma_inputs_round_trip(inputs: Seq<NodeInput>, base: Seq<NodeInput>, n: int)
    requires
        inputs.len() == base.len(),
        0 <= n <= inputs.len(),
    ensures
        inputs_read(inputs_json(inputs), base, n) == Some(read_upto(inputs, base, n)),
    decreases n,
{
    if n > 0 {
        lemma_inputs_round_trip(inputs, base, n - 1);
        lemma_input_round_trip(inputs[n - 1]);
        assert(read_upto(inputs, base, n - 1).update(n - 1, inputs[n - 1]) =~= read_upto(
            inputs,
            base,
            n,
        ));
    } else {
        assert(read_upto(inputs, base, 0) =~= base);
    }
}

proof fn lemma_data_round_trip(ty: NodeTypeView)
    requires
        ty.wf(),
    ensures
        data_after(NodeTypeView::fresh(ty.kind).data, data_json(ty.data)) == ty.data,
{
    reveal_strlit("param");
    reveal_strlit("biome_idx");
    reveal_with_fuel(field_within, 2);
}

/// A node that has the inputs of its kind comes back from its document as
/// it was.
pub proof fn lemma_node_round_trip(node: NodeView)
    requires
        node.ty.wf(),
    ensures
        node_of_json(node_json(node)) == Some(node),
{
    reveal_strlit("id");
    reveal_strlit("pos");
    reveal_strlit("ty");
    reveal_strlit("data");
    reveal_strlit("inputs");
    reveal_with_fuel(field_within, 6);
    let j = node_json(node);
    let fields = j->Object_0;
    assert("id"@[0] != "pos"@[0]);
    assert("id"@[0] != "ty"@[0]);
    assert("id"@[0] != "data"@[0]);
    assert("pos"@[0] != "ty"@[0]);
    assert("pos"@[0] != "data"@[0]);
    assert("pos"@[0] != "inputs"@[0]);
    assert("ty"@[0] != "data"@[0]);
    assert("ty"@[0] != "inputs"@[0]);
    assert("data"@[0] != "inputs"@[0]);
    assert("id"@.len() != "inputs"@.len());
    assert(j.get("id"@) == Some(fields[0].1));
    assert(j.get("pos"@) == Some(fields[1].1));
    assert(j.get("ty"@) == Some(fields[2].1));
    assert(j.get("data"@) == Some(fields[3].1));
    assert(j.get("inputs"@) == Some(fields[4].1));
    lemma_pos_round_trip(node.pos);
    lemma_label_names_kind(node.ty.kind);
    lemma_declarations_agree(node.ty.kind);
    let fresh = NodeTypeView::fresh(node.ty.kind);
    let items = inputs_json(node.ty.inputs);
    lemma_inputs_round_trip(node.ty.inputs, fresh.inputs, node.ty.inputs.len() as int);
    assert(read_upto(node.ty.inputs, fresh.inputs, node.ty.inputs.len() as int) =~= node.ty.inputs);
    lemma_data_round_trip(node.ty);
}

proof fn lemma_nodes_round_trip(g: GraphView, base: GraphView, n: int)
    requires
        g.wf(),
        base.nodes.len() == 0,
        0 <= n <= g.nodes.len(),
    ensures
        nodes_read(nodes_json(g), base, n) == (GraphView {
            nodes: g.nodes.subrange(0, n),
            ..base
        }),
    decreases n,
{
    if n > 0 {
        lemma_nodes_round_trip(g, base, n - 1);
        let node = g.nodes[n - 1];
        lemma_node_round_trip(node);
        let h = GraphView { nodes: g.nodes.subrange(0, n - 1), ..base };
        assert(!h.has_node(node.id)) by {
            if h.has_node(node.id) {
                let i = h.index_of(node.id);
                assert(g.nodes[i].id.0 < g.nodes[n - 1].id.0);
            }
        }
        assert(h.is_rank(node.id, n - 1)) by {
            assert forall|i: int| 0 <= i < n - 1 implies (#[trigger] h.nodes[i]).id.0
                < node.id.0 by {
                assert(g.nodes[i].id.0 < g.nodes[n - 1].id.0);
            }
        }
        let r = h.rank(node.id);
        assert(h.is_rank(node.id, r));
        if r < n - 1 {
            assert(h.nodes[r].id.0 >= node.id.0);
            assert(g.nodes[r].id.0 < g.nodes[n - 1].id.0);
        }
        assert(h.nodes.insert(n - 1, node) =~= g.nodes.subrange(0, n));
    } else {
        assert(g.nodes.subrange(0, 0) =~= base.nodes);
    }
}

/// A graph comes back from its document as it was: its nodes with their
/// handles, inputs and edges, the handle that the next node gets, and the
/// view of the canvas.
pub proof fn lemma_graph_round_trip(g: GraphView)
    requires
        g.wf(),
    ensures
        graph_of_json(graph_json(g)) == Some(g),
{
    reveal_strlit("transform");
    reveal_strlit("curr_node_id");
    reveal_strlit("nodes");
    reveal_with_fuel(field_within, 4);
    let j = graph_json(g);
    let fields = j->Object_0;
    assert("transform"@[0] != "curr_node_id"@[0]);
    assert("transform"@[0] != "nodes"@[0]);
    assert("curr_node_id"@[0] != "nodes"@[0]);
    assert(j.get("transform"@) == Some(fields[0].1));
    assert(j.get("curr_node_id"@) == Some(fields[1].1));
    assert(j.get("nodes"@) == Some(fields[2].1));
    lemma_transform_round_trip(g.transform);
    let base = GraphView {
        nodes: Seq::empty(),
        curr_node_id: g.curr_node_id,
        transform: g.transform,
    };
    assert(nodes_json(g) =~= fields[2].1->Array_0);
    lemma_nodes_round_trip(g, base, g.nodes.len() as int);
    assert(g.nodes.subrange(0, g.nodes.len() as int) =~= g.nodes);
}

} // verus!
