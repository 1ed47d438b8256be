use voxelweaver::biome::{Biome, BiomeParam, Biomes};
use voxelweaver::decimal::Decimal;
use voxelweaver::graph::document::{value_from_json, value_to_json};
use voxelweaver::graph::node_types::{NodeData, NodeKind, NodeType};
use voxelweaver::graph::{Connection, NodeId, Pos, TerrainGraph, Transform, Value};
use voxelweaver::json::{Field, Json};
use voxelweaver::project::Project;

fn at(x: i32, y: i32) -> Pos {
    Pos { x: Decimal::from_int(x), y: Decimal::from_int(y) }
}

fn number(micros: i64) -> Json {
    Json::Real(Decimal::from_micros(micros))
}

fn text(s: &str) -> Json {
    Json::Text(String::from(s))
}

fn object(fields: Vec<(&str, Json)>) -> Json {
    Json::Object(fields.into_iter().map(|(k, val)| Field { key: String::from(k), val }).collect())
}

fn sample() -> TerrainGraph {
    let mut graph = TerrainGraph::new();
    let height = graph.add_node(at(0, 0), NodeKind::HeightmapTerrain);
    let output = graph.add_node(at(300, 25), NodeKind::TerrainOutput);
    let weight = graph.add_node(at(-5, 2), NodeKind::BiomeWeight);
    let param = graph.add_node(at(1, 1), NodeKind::BiomeParameter);
    let scale = graph.add_node(at(1, 1), NodeKind::VectorScale);
    assert!(graph.connect(Connection { from: height, out_idx: 0, to: output, inp_idx: 0 }).0);
    assert!(graph.connect(Connection { from: weight, out_idx: 0, to: height, inp_idx: 0 }).0);
    assert!(graph.set_biome_idx(weight, 4));
    assert!(graph.set_param(param, String::from("wet")));
    assert!(graph
        .set_input_value(
            scale,
            0,
            Value::Vector(Decimal::from_int(1), Decimal::from_micros(-500_000), Decimal::from_int(0))
        )
        .is_some());
    graph.transform = Transform { scaling: Decimal::from_micros(1_250_000), translation: at(0, 300) };
    graph
}

#[test]
fn values_of_a_document() {
    let doc = object(vec![("a", Json::UInt(3)), ("b", Json::Int(-3)), ("a", Json::Null)]);
    assert_eq!(doc.get("a"), Some(&Json::UInt(3)));
    assert_eq!(doc.get("b"), Some(&Json::Int(-3)));
    assert_eq!(doc.get("c"), None);
    assert_eq!(Json::Null.get("a"), None);
    assert_eq!(Json::UInt(3).as_u64(), Some(3));
    assert_eq!(Json::Int(-3).as_u64(), None);
    assert_eq!(number(3_000_000).as_u64(), None);
    assert_eq!(Json::UInt(3).as_i64(), Some(3));
    assert_eq!(Json::UInt(u64::MAX).as_i64(), None);
    assert_eq!(Json::Int(-3).as_i64(), Some(-3));
    assert_eq!(Json::UInt(3).as_decimal(), Some(Decimal::from_int(3)));
    assert_eq!(Json::Int(-3).as_decimal(), Some(Decimal::from_int(-3)));
    assert_eq!(number(250_000).as_decimal(), Some(Decimal::from_micros(250_000)));
    assert_eq!(Json::UInt(u64::MAX).as_decimal(), Some(Decimal::from_micros(i64::MAX)));
    assert_eq!(Json::Int(i64::MIN).as_decimal(), Some(Decimal::from_micros(i64::MIN)));
    assert_eq!(text("3").as_decimal(), None);
    assert_eq!(text("wet").as_str(), Some("wet"));
    assert_eq!(Json::Null.as_str(), None);
    assert_eq!(Json::Array(vec![Json::Null]).as_array(), Some(&vec![Json::Null]));
    assert_eq!(doc.as_array(), None);
    assert_eq!(doc.as_object().map(|f| f.len()), Some(3));
    assert_eq!(Json::Bool(true).as_object(), None);
    assert_eq!(
        Json::object1("a", Json::Null).with_field("b", Json::Bool(false)),
        object(vec![("a", Json::Null), ("b", Json::Bool(false))])
    );
    assert_eq!(Json::UInt(1).with_field("b", Json::Null), Json::UInt(1));
}

#[test]
fn literals_as_documents() {
    let scalar = Value::Scalar(Decimal::from_micros(300_000));
    let vector = Value::Vector(Decimal::from_int(1), Decimal::from_int(2), Decimal::from_int(3));
    assert_eq!(value_to_json(&scalar), object(vec![("Scalar", number(300_000))]));
    assert_eq!(
        value_to_json(&vector),
        object(vec![("Vector", Json::Array(vec![number(1_000_000), number(2_000_000), number(3_000_000)]))])
    );
    assert_eq!(value_to_json(&Value::Terrain), text("Terrain"));
    for v in [scalar, vector, Value::Terrain] {
        assert_eq!(value_from_json(&value_to_json(&v)), Some(v));
    }
    assert_eq!(
        value_from_json(&object(vec![("Scalar", Json::UInt(2))])),
        Some(Value::Scalar(Decimal::from_int(2)))
    );
    assert_eq!(value_from_json(&object(vec![("Terrain", Json::Null)])), Some(Value::Terrain));
    assert_eq!(value_from_json(&text("Scalar")), None);
    assert_eq!(value_from_json(&object(vec![("Scalar", text("2"))])), None);
    assert_eq!(value_from_json(&object(vec![("Vector", Json::Array(vec![number(0), number(0)]))])), None);
    assert_eq!(
        value_from_json(&object(vec![("Scalar", number(0)), ("Vector", Json::Null)])),
        None
    );
    assert_eq!(value_from_json(&Json::Null), None);
}

#[test]
fn graph_as_a_document() {
    let mut graph = TerrainGraph::new();
    let height = graph.add_node(at(0, 0), NodeKind::HeightmapTerrain);
    let output = graph.add_node(at(300, 25), NodeKind::TerrainOutput);
    assert!(graph.connect(Connection { from: height, out_idx: 0, to: output, inp_idx: 0 }).0);
    assert_eq!(
        graph.to_json(),
        object(vec![
            (
                "transform",
                object(vec![
                    ("scaling", number(1_000_000)),
                    ("translation", object(vec![("x", number(0)), ("y", number(0))])),
                ])
            ),
            ("curr_node_id", Json::UInt(3)),
            (
                "nodes",
                Json::Array(vec![
                    object(vec![
                        ("id", Json::UInt(1)),
                        ("pos", object(vec![("x", number(0)), ("y", number(0))])),
                        ("ty", text("Heightmap Terrain")),
                        ("data", Json::Null),
                        (
                            "inputs",
                            Json::Array(vec![object(vec![
                                ("val", object(vec![("Scalar", number(0))])),
                                ("conn", Json::Null),
                            ])])
                        ),
                    ]),
                    object(vec![
                        ("id", Json::UInt(2)),
                        ("pos", object(vec![("x", number(300_000_000)), ("y", number(25_000_000))])),
                        ("ty", text("Terrain Output")),
                        ("data", Json::Null),
                        (
                            "inputs",
                            Json::Array(vec![object(vec![
                                ("val", text("Terrain")),
                                ("conn", Json::Array(vec![Json::UInt(1), Json::UInt(0)])),
                            ])])
                        ),
                    ]),
                ])
            ),
        ])
    );
}

#[test]
fn graph_comes_back_from_its_document() {
    let graph = sample();
    let doc = graph.to_json();
    let back = TerrainGraph::from_json(&doc).unwrap();
    assert_eq!(back.to_json(), doc);
    assert_eq!(back.curr_node_id, NodeId(6));
    assert_eq!(back.transform, graph.transform);
    assert_eq!(back.len(), 5);
    for i in 0..graph.len() {
        assert_eq!(back.id_at(i), graph.id_at(i));
        assert_eq!(back.node_at(i), graph.node_at(i));
    }
    assert!(matches!(back.node(NodeId(3)).unwrap().ty.data(), NodeData::BiomeWeight(w) if w.biome_idx == 4));
    assert!(matches!(back.node(NodeId(4)).unwrap().ty.data(), NodeData::BiomeParameter(p) if p.param == "wet"));
}

fn node_doc(id: u64, label: &str, inputs: Vec<Json>) -> Json {
    object(vec![
        ("id", Json::UInt(id)),
        ("pos", object(vec![("x", Json::UInt(1)), ("y", number(500_000))])),
        ("ty", text(label)),
        ("inputs", Json::Array(inputs)),
    ])
}

fn graph_doc(nodes: Vec<Json>) -> Json {
    object(vec![
        ("nodes", Json::Array(nodes)),
        ("curr_node_id", Json::UInt(40)),
        (
            "transform",
            object(vec![("scaling", Json::UInt(1)), ("translation", object(vec![("x", number(0)), ("y", number(0))]))]),
        ),
    ])
}

fn input_doc(val: Json, conn: Json) -> Json {
    object(vec![("val", val), ("conn", conn)])
}

#[test]
fn unknown_and_damaged_nodes_are_left_out() {
    let fine = input_doc(object(vec![("Scalar", number(2_000_000))]), Json::Null);
    let doc = graph_doc(vec![
        node_doc(7, "Sin", vec![fine]),
        node_doc(3, "Voronoi", vec![]),
        node_doc(5, "Add", vec![input_doc(text("Scalar"), Json::Null)]),
        object(vec![("id", Json::UInt(6)), ("ty", text("Cos")), ("inputs", Json::Array(vec![]))]),
        object(vec![("id", text("8")), ("ty", text("Cos")), ("inputs", Json::Array(vec![]))]),
        text("Cos"),
        node_doc(2, "Cos", vec![]),
    ]);
    let graph = TerrainGraph::from_json(&doc).unwrap();
    assert_eq!(graph.curr_node_id, NodeId(40));
    assert_eq!(graph.len(), 2);
    assert_eq!((graph.id_at(0), graph.id_at(1)), (NodeId(2), NodeId(7)));
    assert_eq!(graph.node_at(0).ty.kind(), NodeKind::Cos);
    assert_eq!(graph.node_at(0).pos, Pos { x: Decimal::from_int(1), y: Decimal::from_micros(500_000) });
    assert_eq!(graph.node_at(1).ty.inputs()[0].val, Value::Scalar(Decimal::from_int(2)));
}

#[test]
fn inputs_are_read_as_far_as_the_kind_has_them() {
    let two = object(vec![("Scalar", number(2_000_000))]);
    let conn = Json::Array(vec![Json::UInt(9), Json::UInt(1)]);
    let doc = graph_doc(vec![
        node_doc(1, "Clamp", vec![input_doc(two, conn)]),
        node_doc(
            2,
            "Sin",
            vec![input_doc(text("Terrain"), Json::Null), text("not read"), Json::Null],
        ),
        node_doc(3, "Position", vec![Json::Null]),
    ]);
    let graph = TerrainGraph::from_json(&doc).unwrap();
    assert_eq!(graph.len(), 3);
    let clamp = graph.node(NodeId(1)).unwrap();
    assert_eq!(clamp.ty.inputs().len(), 3);
    assert_eq!(clamp.ty.inputs()[0].val, Value::Scalar(Decimal::from_int(2)));
    assert_eq!(clamp.ty.inputs()[0].connection, Some((NodeId(9), 1)));
    assert_eq!(clamp.ty.inputs()[2].val, Value::Scalar(Decimal::from_int(1)));
    assert_eq!(clamp.ty.inputs()[2].connection, None);
    assert_eq!(graph.node(NodeId(2)).unwrap().ty.inputs()[0].val, Value::Terrain);
}

#[test]
fn later_node_with_a_handle_replaces_the_earlier() {
    let doc = graph_doc(vec![node_doc(4, "Sin", vec![]), node_doc(4, "Cos", vec![])]);
    let graph = TerrainGraph::from_json(&doc).unwrap();
    assert_eq!(graph.len(), 1);
    assert_eq!(graph.node(NodeId(4)).unwrap().ty.kind(), NodeKind::Cos);
}

#[test]
fn document_that_is_no_graph_gives_nothing() {
    assert!(TerrainGraph::from_json(&Json::Null).is_none());
    assert!(TerrainGraph::from_json(&Json::Array(vec![])).is_none());
    assert!(TerrainGraph::from_json(&object(vec![])).is_none());
    let whole = graph_doc(vec![]);
    assert!(TerrainGraph::from_json(&whole).is_some());
    for missing in ["nodes", "curr_node_id", "transform"] {
        let fields = match graph_doc(vec![]) {
            Json::Object(fields) => fields.into_iter().filter(|f| f.key != missing).collect(),
            _ => unreachable!(),
        };
        assert!(TerrainGraph::from_json(&Json::Object(fields)).is_none());
    }
    let bad_counter = object(vec![
        ("nodes", Json::Array(vec![])),
        ("curr_node_id", Json::Int(-1)),
        ("transform", object(vec![("scaling", number(0)), ("translation", object(vec![("x", number(0)), ("y", number(0))]))])),
    ]);
    assert!(TerrainGraph::from_json(&bad_counter).is_none());
    let bad_transform = object(vec![
        ("nodes", Json::Array(vec![])),
        ("curr_node_id", Json::UInt(1)),
        ("transform", object(vec![("scaling", number(0))])),
    ]);
    assert!(TerrainGraph::from_json(&bad_transform).is_none());
}

#[test]
fn what_a_node_holds_as_a_document() {
    let mut param = NodeType::make(NodeKind::BiomeParameter);
    assert_eq!(param.custom_serialize(), object(vec![("param", text(""))]));
    param.custom_deserialize(&object(vec![("param", text("wet"))]));
    assert_eq!(param.custom_serialize(), object(vec![("param", text("wet"))]));
    param.custom_deserialize(&object(vec![("param", Json::UInt(1))]));
    param.custom_deserialize(&Json::Null);
    assert_eq!(param.custom_serialize(), object(vec![("param", text("wet"))]));

    let mut weight = NodeType::make(NodeKind::BiomeWeight);
    weight.custom_deserialize(&object(vec![("biome_idx", Json::UInt(6))]));
    assert_eq!(weight.custom_serialize(), object(vec![("biome_idx", Json::UInt(6))]));
    weight.custom_deserialize(&object(vec![("biome_idx", Json::Int(-6))]));
    assert_eq!(weight.custom_serialize(), object(vec![("biome_idx", Json::UInt(6))]));

    let mut plain = NodeType::make(NodeKind::Add);
    plain.custom_deserialize(&object(vec![("param", text("wet")), ("biome_idx", Json::UInt(6))]));
    assert_eq!(plain.custom_serialize(), Json::Null);
    assert_eq!(plain, NodeType::make(NodeKind::Add));
}

fn sample_biomes() -> Biomes {
    let mut a = Biome::new();
    a.name = String::from("Moor");
    a.frequency = Decimal::from_micros(2_500_000);
    a.texture = String::from("moss.png");
    a.color = [Decimal::from_int(0), Decimal::from_micros(500_000), Decimal::from_int(1)];
    a.min_depth = -40;
    a.max_depth = 12;
    a.params.push(BiomeParam { name: String::from("wet"), val: Decimal::from_micros(750_000) });
    a.params.push(BiomeParam { name: String::from("heat"), val: Decimal::from_int(0) });
    let mut t = Biomes::new();
    t.biomes.push(a);
    t.biomes[0].params.push(BiomeParam { name: String::from("wet"), val: Decimal::from_int(0) });
    t.biomes[0].params.push(BiomeParam { name: String::from("heat"), val: Decimal::from_int(0) });
    t.add_parameter(String::from("wet"));
    t.add_parameter(String::from("heat"));
    t.biome_size = Decimal::from_int(120);
    t.biome_blending = Decimal::from_micros(100_000);
    t
}

#[test]
fn biome_table_as_a_document() {
    let doc = sample_biomes().to_json();
    assert_eq!(
        doc.get("params"),
        Some(&Json::Array(vec![text("wet"), text("heat")]))
    );
    assert_eq!(doc.get("size"), Some(&number(120_000_000)));
    assert_eq!(doc.get("blending"), Some(&number(100_000)));
    let biomes = doc.get("biomes").unwrap().as_array().unwrap();
    assert_eq!(biomes.len(), 2);
    assert_eq!(
        biomes[1],
        object(vec![
            ("name", text("Moor")),
            ("frequency", number(2_500_000)),
            ("params", object(vec![("wet", number(750_000)), ("heat", number(0))])),
            ("color", Json::Array(vec![number(0), number(500_000), number(1_000_000)])),
            ("texture", text("moss.png")),
            ("min_depth", Json::Int(-40)),
            ("max_depth", Json::UInt(12)),
        ])
    );
    assert_eq!(Biomes::from_json(&doc), Some(sample_biomes()));
}

#[test]
fn what_a_biome_lacks_is_filled_in() {
    let doc = object(vec![
        ("params", Json::Array(vec![text("wet"), Json::UInt(3), text("heat")])),
        (
            "biomes",
            Json::Array(vec![object(vec![
                ("name", text("Bare")),
                ("params", object(vec![("heat", Json::UInt(2)), ("wet", text("very"))])),
                ("min_depth", Json::Int(i64::MIN)),
                ("max_depth", Json::UInt(u64::MAX)),
            ])]),
        ),
    ]);
    let t = Biomes::from_json(&doc).unwrap();
    assert_eq!(t.biome_params, vec!["wet", "heat"]);
    assert_eq!(t.biome_size, Decimal::from_int(500));
    assert_eq!(t.biome_blending, Decimal::from_micros(250_000));
    assert_eq!(t.biomes.len(), 1);
    let b = &t.biomes[0];
    assert_eq!(b.name, "Bare");
    assert_eq!(b.frequency, Decimal::from_int(1));
    assert_eq!(b.texture, "");
    assert_eq!(b.color, [Decimal::from_int(1), Decimal::from_int(0), Decimal::from_int(0)]);
    assert_eq!(b.min_depth, i32::MIN);
    assert_eq!(b.max_depth, 99999);
    assert_eq!(
        b.params,
        vec![
            BiomeParam { name: String::from("wet"), val: Decimal::from_int(0) },
            BiomeParam { name: String::from("heat"), val: Decimal::from_int(2) },
        ]
    );
}

#[test]
fn damaged_biome_table_gives_nothing() {
    let biome = |fields: Vec<(&str, Json)>| {
        object(vec![("params", Json::Array(vec![])), ("biomes", Json::Array(vec![object(fields)]))])
    };
    assert!(Biomes::from_json(&biome(vec![("name", text("A")), ("params", object(vec![]))])).is_some());
    assert!(Biomes::from_json(&biome(vec![("params", object(vec![]))])).is_none());
    assert!(Biomes::from_json(&biome(vec![("name", text("A"))])).is_none());
    assert!(Biomes::from_json(&biome(vec![("name", Json::UInt(1)), ("params", object(vec![]))])).is_none());
    assert!(Biomes::from_json(&biome(vec![
        ("name", text("A")),
        ("params", object(vec![])),
        ("color", Json::Array(vec![number(0), number(0)])),
    ]))
    .is_none());
    assert!(Biomes::from_json(&biome(vec![
        ("name", text("A")),
        ("params", object(vec![])),
        ("color", text("red")),
    ]))
    .is_none());
    assert!(Biomes::from_json(&object(vec![("params", Json::Array(vec![]))])).is_none());
    assert!(Biomes::from_json(&object(vec![("biomes", Json::Array(vec![]))])).is_none());
    assert!(Biomes::from_json(&Json::Null).is_none());
    assert_eq!(
        Biomes::from_json(&object(vec![("params", Json::Array(vec![])), ("biomes", Json::Array(vec![]))]))
            .map(|t| t.biomes.len()),
        Some(0)
    );
}

#[test]
fn project_as_a_document_and_back() {
    let project = Project { terrain_graph: sample(), biomes: sample_biomes() };
    let doc = project.to_json();
    assert_eq!(doc.get("graph"), Some(&project.terrain_graph.to_json()));
    assert_eq!(doc.get("biomes"), Some(&project.biomes.to_json()));

    let mut loaded = Project { terrain_graph: TerrainGraph::new(), biomes: Biomes::new() };
    loaded.load_from_json(&doc);
    assert_eq!(loaded.to_json(), doc);
    assert_eq!(loaded.biomes, sample_biomes());

    // without a graph nothing is taken
    loaded.load_from_json(&object(vec![("biomes", Biomes::new().to_json())]));
    loaded.load_from_json(&object(vec![("graph", Json::Null), ("biomes", Biomes::new().to_json())]));
    loaded.load_from_json(&Json::Null);
    assert_eq!(loaded.to_json(), doc);

    // with a graph but without a table, the table is fresh
    loaded.load_from_json(&object(vec![("graph", TerrainGraph::new().to_json())]));
    assert_eq!(loaded.terrain_graph.len(), 0);
    assert_eq!(loaded.biomes, Biomes::new());
    loaded.biomes = sample_biomes();
    loaded.load_from_json(&object(vec![("graph", TerrainGraph::new().to_json()), ("biomes", Json::Null)]));
    assert_eq!(loaded.biomes, Biomes::new());
}
