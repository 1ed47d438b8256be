use voxelweaver::action::{Action, ActionManager};
use voxelweaver::biome::{Biome, Biomes};
use voxelweaver::decimal::Decimal;
use voxelweaver::graph::node_types::{NodeKind, NodeType};
use voxelweaver::graph::{Connection, NodeId, Pos, TerrainGraph, Value};
use voxelweaver::json::Json;
use voxelweaver::project::Project;

fn at(x: i32, y: i32) -> Pos {
    Pos { x: Decimal::from_int(x), y: Decimal::from_int(y) }
}

fn edge(from: NodeId, out_idx: u32, to: NodeId, inp_idx: u32) -> Connection {
    Connection { from, out_idx, to, inp_idx }
}

fn project() -> Project {
    let mut graph = TerrainGraph::new();
    let output = graph.add_node(at(0, 0), NodeKind::TerrainOutput);
    let height = graph.add_node(at(1, 0), NodeKind::HeightmapTerrain);
    let sum = graph.add_node(at(2, 0), NodeKind::Add);
    let _sine = graph.add_node(at(3, 0), NodeKind::Sin);
    assert!(graph.connect(edge(height, 0, output, 0)).0);
    assert!(graph.connect(edge(sum, 0, height, 0)).0);
    let mut biomes = Biomes::new();
    biomes.add_parameter(String::from("wet"));
    Project { terrain_graph: graph, biomes }
}

/// Performs the action, checks that it changed the project, performs the
/// inverse and checks that the project is as it was.
fn there_and_back(action: Action) -> Json {
    let mut p = project();
    let before = p.to_json();
    let inverse = action.perform(&mut p);
    let changed = p.to_json();
    assert_ne!(changed, before);
    inverse.perform(&mut p);
    assert_eq!(p.to_json(), before);
    changed
}

fn unchanged_by(action: Action) {
    let mut p = project();
    let before = p.to_json();
    let inverse = action.perform(&mut p);
    assert_eq!(p.to_json(), before);
    assert!(matches!(inverse, Action::Compound(ref acts) if acts.is_empty()));
}

#[test]
fn graph_actions_and_their_inverses() {
    there_and_back(Action::GraphMoveNode(NodeId(2), at(5, -3)));
    there_and_back(Action::GraphAddNode(NodeId(9), at(1, 1), NodeType::make(NodeKind::Sin)));
    there_and_back(Action::GraphDeleteNode(NodeId(1)));
    there_and_back(Action::GraphConnect(edge(NodeId(4), 0, NodeId(3), 0)));
    there_and_back(Action::GraphDisconnect { to_node: NodeId(2), in_idx: 0 });
    there_and_back(Action::GraphSetInput {
        node: NodeId(3),
        in_idx: 1,
        val: Value::Scalar(Decimal::from_int(4)),
    });
}

#[test]
fn moving_a_node_wraps_and_comes_back() {
    let mut p = project();
    let far = Pos { x: Decimal::from_micros(i64::MAX), y: Decimal::from_micros(i64::MIN) };
    let inverse = Action::GraphMoveNode(NodeId(2), far).perform(&mut p);
    assert_eq!(
        p.terrain_graph.node(NodeId(2)).unwrap().pos,
        Pos { x: Decimal::from_micros(i64::MIN + 999_999), y: Decimal::from_micros(i64::MIN) }
    );
    inverse.perform(&mut p);
    assert_eq!(p.terrain_graph.node(NodeId(2)).unwrap().pos, at(1, 0));
}

#[test]
fn connecting_gives_the_action_that_cuts() {
    let mut p = project();
    let inverse = Action::GraphConnect(edge(NodeId(4), 0, NodeId(3), 1)).perform(&mut p);
    assert!(matches!(inverse, Action::GraphDisconnect { to_node: NodeId(3), in_idx: 1 }));
    assert_eq!(p.terrain_graph.node(NodeId(3)).unwrap().ty.inputs()[1].connection, Some((NodeId(4), 0)));
    let inverse = Action::GraphDisconnect { to_node: NodeId(1), in_idx: 0 }.perform(&mut p);
    assert!(matches!(inverse, Action::GraphConnect(c) if c == edge(NodeId(2), 0, NodeId(1), 0)));
}

#[test]
fn biome_actions_and_their_inverses() {
    let mut moor = Biome::new();
    moor.name = String::from("Moor");
    there_and_back(Action::BiomeCreate(0, moor.clone()));
    there_and_back(Action::BiomeCreate(1, moor));
    there_and_back(Action::BiomeDelete(0));
    there_and_back(Action::BiomeSetSize(Decimal::from_int(80)));
    there_and_back(Action::BiomeSetBlending(Decimal::from_micros(500_000)));
    there_and_back(Action::BiomeSetName(0, String::from("Fen")));
    there_and_back(Action::BiomeSetFrequency(0, Decimal::from_int(2)));
    there_and_back(Action::BiomeSetTexture(0, String::from("moss.png")));
    there_and_back(Action::BiomeSetMinDepth(0, -5));
    there_and_back(Action::BiomeSetMaxDepth(0, 5));
    there_and_back(Action::BiomeCreateParameter { param: String::from("heat") });
    there_and_back(Action::BiomeDeleteParameter { param: String::from("wet") });
}

#[test]
fn setting_a_parameter_gives_back_the_old_value() {
    let mut p = project();
    let set = |val: i32| Action::BiomeSetParameter {
        biome: 0,
        param: String::from("wet"),
        val: Decimal::from_int(val),
    };
    let inverse = set(3).perform(&mut p);
    assert!(matches!(inverse, Action::BiomeSetParameter { biome: 0, ref param, val }
        if param == "wet" && val == Decimal::from_int(0)));
    assert_eq!(p.biomes.biomes[0].param(&String::from("wet")), Decimal::from_int(3));
    let inverse = set(7).perform(&mut p);
    assert!(matches!(inverse, Action::BiomeSetParameter { val, .. } if val == Decimal::from_int(3)));
    assert_eq!(p.biomes.biomes[0].params.len(), 1);
    inverse.perform(&mut p);
    assert_eq!(p.biomes.biomes[0].param(&String::from("wet")), Decimal::from_int(3));
}

#[test]
fn actions_on_what_is_not_there_change_nothing() {
    unchanged_by(Action::GraphMoveNode(NodeId(40), at(1, 1)));
    unchanged_by(Action::GraphDeleteNode(NodeId(40)));
    unchanged_by(Action::GraphDisconnect { to_node: NodeId(3), in_idx: 0 });
    unchanged_by(Action::GraphDisconnect { to_node: NodeId(3), in_idx: 5 });
    unchanged_by(Action::GraphDisconnect { to_node: NodeId(40), in_idx: 0 });
    unchanged_by(Action::GraphSetInput { node: NodeId(3), in_idx: 2, val: Value::Terrain });
    unchanged_by(Action::BiomeCreate(2, Biome::new()));
    unchanged_by(Action::BiomeDelete(1));
    unchanged_by(Action::BiomeSetName(1, String::from("Fen")));
    unchanged_by(Action::BiomeSetFrequency(1, Decimal::from_int(2)));
    unchanged_by(Action::BiomeSetTexture(1, String::from("moss.png")));
    unchanged_by(Action::BiomeSetMinDepth(1, 0));
    unchanged_by(Action::BiomeSetMaxDepth(1, 0));
    unchanged_by(Action::BiomeSetParameter {
        biome: 1,
        param: String::from("wet"),
        val: Decimal::from_int(1),
    });
    unchanged_by(Action::Compound(vec![]));
}

#[test]
fn compound_is_undone_in_reverse() {
    let mut p = project();
    let before = p.to_json();
    let inverse = Action::Compound(vec![
        Action::BiomeSetName(0, String::from("Fen")),
        Action::BiomeSetName(0, String::from("Moor")),
        Action::Compound(vec![Action::BiomeSetSize(Decimal::from_int(1)), Action::BiomeDelete(0)]),
        Action::GraphDeleteNode(NodeId(3)),
    ])
    .perform(&mut p);
    assert_eq!(p.biomes.biomes.len(), 0);
    assert_eq!(p.terrain_graph.len(), 3);
    match &inverse {
        Action::Compound(acts) => {
            assert_eq!(acts.len(), 4);
            assert!(matches!(acts[0], Action::GraphAddNode(NodeId(3), _, _)));
            assert!(matches!(&acts[1], Action::Compound(inner) if inner.len() == 2
                && matches!(inner[0], Action::BiomeCreate(0, _))
                && matches!(inner[1], Action::BiomeSetSize(_))));
            assert!(matches!(&acts[2], Action::BiomeSetName(0, name) if name == "Fen"));
            assert!(matches!(&acts[3], Action::BiomeSetName(0, name) if name == "Biome"));
        }
        _ => panic!("the inverse of a compound is a compound"),
    }
    inverse.perform(&mut p);
    // the edge from the deleted node is not part of the inverse of the deletion
    assert_ne!(p.to_json(), before);
    assert_eq!(p.terrain_graph.connect(edge(NodeId(3), 0, NodeId(2), 0)), (true, None));
    assert_eq!(p.to_json(), before);
}

#[test]
fn undo_and_redo() {
    let mut p = project();
    let mut actions = ActionManager::new();
    assert!(!actions.can_undo());
    assert!(!actions.can_redo());
    let start = p.to_json();
    actions.undo(&mut p);
    actions.redo(&mut p);
    assert_eq!(p.to_json(), start);

    p.terrain_graph.connect_with_action(edge(NodeId(3), 0, NodeId(3), 0), &mut actions);
    assert!(!actions.can_undo());
    p.terrain_graph
        .add_node_from_box_ty_with_action(at(0, 0), NodeType::make(NodeKind::Cos), &mut actions);
    let with_node = p.to_json();
    p.terrain_graph.connect_with_action(edge(NodeId(5), 0, NodeId(3), 0), &mut actions);
    let with_edge = p.to_json();
    p.terrain_graph.connect_with_action(edge(NodeId(5), 0, NodeId(2), 0), &mut actions);
    let with_replaced = p.to_json();
    p.terrain_graph.disconnect_with_action(NodeId(3), 0, &mut actions);
    let with_cut = p.to_json();
    p.terrain_graph.disconnect_with_action(NodeId(3), 0, &mut actions);
    p.terrain_graph.delete_node_with_action(NodeId(40), &mut actions);
    assert_eq!(p.to_json(), with_cut);
    p.terrain_graph.delete_node_with_action(NodeId(5), &mut actions);
    let with_deleted = p.to_json();
    assert!(!p.terrain_graph.contains(NodeId(5)));
    assert_eq!(p.terrain_graph.node(NodeId(2)).unwrap().ty.inputs()[0].connection, None);
    assert!(actions.can_undo());
    assert!(!actions.can_redo());

    for state in [&with_cut, &with_replaced, &with_edge, &with_node] {
        assert!(actions.can_undo());
        actions.undo(&mut p);
        assert_eq!(&p.to_json(), state);
    }
    assert!(actions.can_undo());
    actions.undo(&mut p);
    assert!(!actions.can_undo());
    // the handle of the node that is gone is not handed out again
    assert_eq!(p.terrain_graph.curr_node_id, NodeId(6));
    p.terrain_graph.curr_node_id = NodeId(5);
    assert_eq!(p.to_json(), start);
    p.terrain_graph.curr_node_id = NodeId(6);
    actions.undo(&mut p);

    for state in [&with_node, &with_edge, &with_replaced, &with_cut, &with_deleted] {
        assert!(actions.can_redo());
        actions.redo(&mut p);
        assert_eq!(&p.to_json(), state);
    }
    assert!(!actions.can_redo());
    actions.undo(&mut p);
    assert!(actions.can_redo());
    actions.push_undo_action(Action::BiomeSetSize(Decimal::from_int(1)));
    assert!(!actions.can_redo());
}
