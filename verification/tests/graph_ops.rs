use voxelweaver::decimal::Decimal;
use voxelweaver::graph::node_types::{NodeKind, NodeType};
use voxelweaver::graph::{
    graph_toposort, Connection, NodeId, NodeInput, Pos, TerrainGraph, Transform, Value,
};

fn at(x: i32, y: i32) -> Pos {
    Pos { x: Decimal::from_int(x), y: Decimal::from_int(y) }
}

fn edge(from: NodeId, out_idx: u32, to: NodeId, inp_idx: u32) -> Connection {
    Connection { from, out_idx, to, inp_idx }
}

fn ids(graph: &TerrainGraph) -> Vec<NodeId> {
    (0..graph.len()).map(|i| graph.id_at(i)).collect()
}

fn connection_of(graph: &TerrainGraph, node: NodeId, input: usize) -> Option<(NodeId, u32)> {
    graph.node(node).unwrap().ty.inputs()[input].connection
}

/// Nodes 1 to 5: an output fed by a heightmap, fed by a sum, fed by a noise
/// heightmap; and a position that nothing reads.
fn chain() -> TerrainGraph {
    let mut graph = TerrainGraph::new();
    let output = graph.add_node(at(0, 0), NodeKind::TerrainOutput);
    let height = graph.add_node(at(1, 0), NodeKind::HeightmapTerrain);
    let sum = graph.add_node(at(2, 0), NodeKind::Add);
    let noise = graph.add_node(at(3, 0), NodeKind::NoiseHeightmap);
    let _dead = graph.add_node(at(4, 0), NodeKind::Position);
    assert_eq!(graph.connect(edge(height, 0, output, 0)), (true, None));
    assert_eq!(graph.connect(edge(sum, 0, height, 0)), (true, None));
    assert_eq!(graph.connect(edge(noise, 0, sum, 1)), (true, None));
    graph
}

#[test]
fn new_graph_is_empty() {
    let graph = TerrainGraph::new();
    assert_eq!(graph.len(), 0);
    assert_eq!(graph.curr_node_id, NodeId(1));
    assert_eq!(
        graph.transform,
        Transform { scaling: Decimal::from_int(1), translation: at(0, 0) }
    );
    assert_eq!(graph_toposort(&graph), Some(vec![]));
}

#[test]
fn handles_are_handed_out_in_order_and_never_again() {
    let mut graph = TerrainGraph::new();
    let a = graph.add_node(at(0, 0), NodeKind::Add);
    let b = graph.add_node(at(0, 0), NodeKind::Sin);
    assert_eq!((a, b), (NodeId(1), NodeId(2)));
    let (_, removed) = graph.delete_node(b);
    assert!(removed.is_some());
    let c = graph.add_node_from_box_ty(at(0, 0), NodeType::make(NodeKind::Cos));
    assert_eq!(c, NodeId(3));
    assert_eq!(graph.curr_node_id, NodeId(4));
    assert_eq!(ids(&graph), vec![NodeId(1), NodeId(3)]);
    assert!(graph.contains(a));
    assert!(!graph.contains(b));
    assert_eq!(graph.position(c), Some(1));
    assert_eq!(graph.position(b), None);
    assert_eq!(graph.node(c).unwrap().ty.kind(), NodeKind::Cos);
    assert!(graph.node(NodeId(9)).is_none());
}

#[test]
fn node_under_a_given_handle_is_put_in_order_or_replaced() {
    let mut graph = TerrainGraph::new();
    graph.add_node_from_box_ty_with_id(at(0, 0), NodeType::make(NodeKind::Add), NodeId(7));
    graph.add_node_from_box_ty_with_id(at(0, 0), NodeType::make(NodeKind::Sin), NodeId(3));
    graph.add_node_from_box_ty_with_id(at(0, 0), NodeType::make(NodeKind::Cos), NodeId(5));
    assert_eq!(ids(&graph), vec![NodeId(3), NodeId(5), NodeId(7)]);
    graph.add_node_from_box_ty_with_id(at(9, 9), NodeType::make(NodeKind::Tan), NodeId(5));
    assert_eq!(ids(&graph), vec![NodeId(3), NodeId(5), NodeId(7)]);
    assert_eq!(graph.node(NodeId(5)).unwrap().ty.kind(), NodeKind::Tan);
    assert_eq!(graph.node(NodeId(5)).unwrap().pos, at(9, 9));
    assert_eq!(graph.curr_node_id, NodeId(1));
}

#[test]
fn order_holds_every_node_once_and_sources_first() {
    let graph = chain();
    let order = graph_toposort(&graph).unwrap();
    assert_eq!(order, vec![NodeId(4), NodeId(3), NodeId(2), NodeId(1), NodeId(5)]);
    let place = |id: NodeId| order.iter().position(|x| *x == id).unwrap();
    for i in 0..graph.len() {
        let id = graph.id_at(i);
        assert_eq!(order.iter().filter(|x| **x == id).count(), 1);
        for input in graph.node_at(i).ty.inputs() {
            if let Some((source, _)) = input.connection {
                assert!(place(source) < place(id));
            }
        }
    }
}

#[test]
fn order_takes_separate_parts_by_ascending_handle() {
    let mut graph = TerrainGraph::new();
    let a = graph.add_node(at(0, 0), NodeKind::Sin);
    let b = graph.add_node(at(0, 0), NodeKind::Cos);
    let c = graph.add_node(at(0, 0), NodeKind::Add);
    let d = graph.add_node(at(0, 0), NodeKind::Position);
    assert_eq!(graph.connect(edge(c, 0, a, 0)), (true, None));
    assert_eq!(graph_toposort(&graph), Some(vec![c, a, b, d]));
    assert_eq!(graph.connect(edge(b, 0, c, 1)), (true, None));
    assert_eq!(graph.connect(edge(a, 0, c, 0)), (false, None));
    assert_eq!(graph_toposort(&graph), Some(vec![b, c, a, d]));
}

#[test]
fn edge_that_closes_a_cycle_is_refused_and_nothing_changes() {
    let mut graph = TerrainGraph::new();
    let a = graph.add_node(at(0, 0), NodeKind::Add);
    let b = graph.add_node(at(0, 0), NodeKind::Multiply);
    let c = graph.add_node(at(0, 0), NodeKind::Sin);
    assert_eq!(graph.connect(edge(a, 0, b, 0)), (true, None));
    assert_eq!(graph.connect(edge(b, 0, c, 0)), (true, None));
    let before = graph.to_json();
    assert_eq!(graph.connect(edge(c, 0, a, 1)), (false, None));
    assert_eq!(graph.connect(edge(b, 0, a, 0)), (false, None));
    assert_eq!(graph.connect(edge(a, 0, a, 0)), (false, None));
    assert_eq!(graph.to_json(), before);
    assert_eq!(connection_of(&graph, a, 0), None);
    assert_eq!(connection_of(&graph, a, 1), None);
    assert_eq!(connection_of(&graph, b, 0), Some((a, 0)));
    assert_eq!(graph_toposort(&graph), Some(vec![a, b, c]));
}

#[test]
fn refused_replacement_keeps_the_edge_that_was_there() {
    let mut graph = TerrainGraph::new();
    let a = graph.add_node(at(0, 0), NodeKind::Add);
    let b = graph.add_node(at(0, 0), NodeKind::Multiply);
    let c = graph.add_node(at(0, 0), NodeKind::Sin);
    assert_eq!(graph.connect(edge(a, 0, b, 0)), (true, None));
    assert_eq!(graph.connect(edge(c, 0, a, 0)), (true, None));
    let before = graph.to_json();
    assert_eq!(graph.connect(edge(b, 0, a, 0)), (false, None));
    assert_eq!(connection_of(&graph, a, 0), Some((c, 0)));
    assert_eq!(graph.to_json(), before);
}

#[test]
fn edges_that_do_not_fit_are_refused() {
    let mut graph = TerrainGraph::new();
    let add = graph.add_node(at(0, 0), NodeKind::Add);
    let height = graph.add_node(at(0, 0), NodeKind::HeightmapTerrain);
    let output = graph.add_node(at(0, 0), NodeKind::TerrainOutput);
    let before = graph.to_json();
    // no such target, no such input, no such source, no such output
    assert_eq!(graph.connect(edge(add, 0, NodeId(99), 0)), (false, None));
    assert_eq!(graph.connect(edge(add, 0, height, 1)), (false, None));
    assert_eq!(graph.connect(edge(NodeId(99), 0, height, 0)), (false, None));
    assert_eq!(graph.connect(edge(add, 1, height, 0)), (false, None));
    assert_eq!(graph.connect(edge(output, 0, height, 0)), (false, None));
    // a terrain is no scalar, a scalar no terrain
    assert_eq!(graph.connect(edge(height, 0, add, 0)), (false, None));
    assert_eq!(graph.connect(edge(add, 0, output, 0)), (false, None));
    assert_eq!(graph.to_json(), before);
    assert_eq!(graph.connect(edge(add, 0, height, 0)), (true, None));
    assert_eq!(graph.connect(edge(height, 0, output, 0)), (true, None));
}

#[test]
fn connecting_again_replaces_and_returns_the_old_edge() {
    let mut graph = TerrainGraph::new();
    let a = graph.add_node(at(0, 0), NodeKind::Sin);
    let b = graph.add_node(at(0, 0), NodeKind::Cos);
    let sep = graph.add_node(at(0, 0), NodeKind::SeparateXYZ);
    let sum = graph.add_node(at(0, 0), NodeKind::Add);
    assert_eq!(graph.connect(edge(a, 0, sum, 0)), (true, None));
    assert_eq!(graph.connect(edge(b, 0, sum, 0)), (true, Some(edge(a, 0, sum, 0))));
    assert_eq!(graph.connect(edge(sep, 2, sum, 0)), (true, Some(edge(b, 0, sum, 0))));
    assert_eq!(connection_of(&graph, sum, 0), Some((sep, 2)));
    assert_eq!(connection_of(&graph, sum, 1), None);
}

#[test]
fn disconnect_returns_what_it_cut() {
    let mut graph = chain();
    assert_eq!(graph.disconnect(NodeId(3), 1), Some(edge(NodeId(4), 0, NodeId(3), 1)));
    assert_eq!(connection_of(&graph, NodeId(3), 1), None);
    assert_eq!(graph.disconnect(NodeId(3), 1), None);
    assert_eq!(graph.disconnect(NodeId(3), 0), None);
    assert_eq!(graph.disconnect(NodeId(3), 2), None);
    assert_eq!(graph.disconnect(NodeId(42), 0), None);
    assert_eq!(graph.node(NodeId(3)).unwrap().ty.inputs()[1].val, Value::Scalar(Decimal::from_int(0)));
}

#[test]
fn disconnect_then_reconnect_gives_the_graph_back() {
    let mut graph = chain();
    let before = graph.to_json();
    for _ in 0..2 {
        let cut = graph.disconnect(NodeId(2), 0).unwrap();
        assert_ne!(graph.to_json(), before);
        assert_eq!(graph.connect(cut), (true, None));
        assert_eq!(graph.to_json(), before);
    }
}

#[test]
fn deleting_a_node_cuts_the_edges_that_start_at_it() {
    let mut graph = TerrainGraph::new();
    let src = graph.add_node(at(5, 6), NodeKind::Sin);
    let sum = graph.add_node(at(0, 0), NodeKind::Add);
    let clamp = graph.add_node(at(0, 0), NodeKind::Clamp);
    let other = graph.add_node(at(0, 0), NodeKind::Cos);
    assert!(graph.connect(edge(other, 0, src, 0)).0);
    assert!(graph.connect(edge(src, 0, sum, 0)).0);
    assert!(graph.connect(edge(src, 0, sum, 1)).0);
    assert!(graph.connect(edge(other, 0, clamp, 0)).0);
    assert!(graph.connect(edge(src, 0, clamp, 2)).0);
    let (cut, node) = graph.delete_node(src);
    assert_eq!(cut, vec![edge(src, 0, sum, 0), edge(src, 0, sum, 1), edge(src, 0, clamp, 2)]);
    let node = node.unwrap();
    assert_eq!(node.pos, at(5, 6));
    assert_eq!(node.ty.kind(), NodeKind::Sin);
    assert_eq!(node.ty.inputs()[0].connection, Some((other, 0)));
    assert_eq!(ids(&graph), vec![sum, clamp, other]);
    assert_eq!(connection_of(&graph, sum, 0), None);
    assert_eq!(connection_of(&graph, sum, 1), None);
    assert_eq!(connection_of(&graph, clamp, 0), Some((other, 0)));
    assert_eq!(connection_of(&graph, clamp, 2), None);
    assert_eq!(graph_toposort(&graph), Some(vec![sum, other, clamp]));
}

#[test]
fn deleting_what_is_not_there_changes_nothing() {
    let mut graph = chain();
    let before = graph.to_json();
    let (cut, node) = graph.delete_node(NodeId(77));
    assert!(cut.is_empty());
    assert!(node.is_none());
    assert_eq!(graph.to_json(), before);
}

#[test]
fn deleted_node_and_its_edges_can_be_put_back() {
    let mut graph = chain();
    let before = graph.to_json();
    let (cut, node) = graph.delete_node(NodeId(3));
    let node = node.unwrap();
    graph.add_node_from_box_ty_with_id(node.pos, node.ty, NodeId(3));
    for c in cut {
        assert_eq!(graph.connect(c), (true, None));
    }
    assert_eq!(graph.to_json(), before);
}

#[test]
fn graph_with_a_cycle_or_a_missing_source_has_no_order() {
    let mut looped = NodeType::make(NodeKind::Sin);
    assert!(looped.set_input(
        0,
        NodeInput { val: Value::Scalar(Decimal::from_int(0)), connection: Some((NodeId(1), 0)) }
    ));
    let mut graph = TerrainGraph::new();
    graph.add_node_from_box_ty(at(0, 0), looped);
    assert_eq!(graph_toposort(&graph), None);

    let mut dangling = NodeType::make(NodeKind::Sin);
    assert!(dangling.set_input(
        0,
        NodeInput { val: Value::Scalar(Decimal::from_int(0)), connection: Some((NodeId(8), 0)) }
    ));
    let mut graph = TerrainGraph::new();
    graph.add_node_from_box_ty(at(0, 0), dangling);
    assert_eq!(graph_toposort(&graph), None);
}

#[test]
fn literals_positions_and_node_data_can_be_set() {
    let mut graph = chain();
    let half = Value::Scalar(Decimal::from_micros(500_000));
    assert_eq!(graph.set_input_value(NodeId(3), 0, half), Some(Value::Scalar(Decimal::from_int(0))));
    assert_eq!(graph.node(NodeId(3)).unwrap().ty.inputs()[0].val, half);
    assert_eq!(graph.set_input_value(NodeId(3), 1, half), Some(Value::Scalar(Decimal::from_int(0))));
    assert_eq!(connection_of(&graph, NodeId(3), 1), Some((NodeId(4), 0)));
    assert_eq!(graph.set_input_value(NodeId(3), 2, half), None);
    assert_eq!(graph.set_input_value(NodeId(30), 0, half), None);

    assert_eq!(graph.set_node_pos(NodeId(5), at(7, 8)), Some(at(4, 0)));
    assert_eq!(graph.node(NodeId(5)).unwrap().pos, at(7, 8));
    assert_eq!(graph.set_node_pos(NodeId(50), at(7, 8)), None);

    assert!(!graph.set_param(NodeId(5), String::from("wet")));
    assert!(!graph.set_biome_idx(NodeId(5), 2));
    let param = graph.add_node(at(0, 0), NodeKind::BiomeParameter);
    let weight = graph.add_node(at(0, 0), NodeKind::BiomeWeight);
    assert!(graph.set_param(param, String::from("wet")));
    assert!(graph.set_biome_idx(weight, 2));
    assert!(!graph.set_param(weight, String::from("wet")));
    assert!(!graph.set_param(NodeId(500), String::from("wet")));
}
