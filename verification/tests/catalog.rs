use voxelweaver::biome::Biomes;
use voxelweaver::compiler::CompilationTarget;
use voxelweaver::decimal::Decimal;
use voxelweaver::graph::node_types::{all_kinds, from_label, Category, NodeData, NodeKind, NodeType};
use voxelweaver::graph::{GraphProjectInfo, NodeId, NodeInput, Type, Value};

fn scalar(micros: i64) -> Value {
    Value::Scalar(Decimal::from_micros(micros))
}

fn strings(items: &[&str]) -> Vec<String> {
    items.iter().map(|s| String::from(*s)).collect()
}

fn emit(kind: NodeKind, target: CompilationTarget, args: &[&str], outs: &[&str]) -> String {
    let biomes = Biomes::new();
    let info = GraphProjectInfo { biomes: &biomes };
    NodeType::make(kind).compile(target, &strings(args), &strings(outs), &info)
}

#[test]
fn catalog_lists_every_kind_once() {
    let kinds = all_kinds();
    assert_eq!(kinds.len(), 55);
    for (i, a) in kinds.iter().enumerate() {
        for b in kinds.iter().skip(i + 1) {
            assert_ne!(a, b);
            assert_ne!(a.label(), b.label());
        }
    }
    assert_eq!(kinds[0], NodeKind::TerrainOutput);
    assert_eq!(kinds[54], NodeKind::BiomeWeight);
}

#[test]
fn labels_name_their_kinds() {
    for kind in all_kinds() {
        assert_eq!(from_label(kind.label()), Some(kind));
    }
    assert_eq!(from_label("Terrain to SDF"), Some(NodeKind::TerrainToSDF));
    assert_eq!(from_label("SDF To Terrain"), Some(NodeKind::SDFToTerrain));
    assert_eq!(from_label("Map Range"), Some(NodeKind::MapRange));
    assert_eq!(from_label("map range"), None);
    assert_eq!(from_label(""), None);
    assert_eq!(from_label("Voronoi"), None);
}

#[test]
fn kinds_are_grouped() {
    assert_eq!(NodeKind::SDFToTerrain.category(), Category::Terrain);
    assert_eq!(NodeKind::RidgeHeightmap.category(), Category::Heightmap);
    assert_eq!(NodeKind::MapRange.category(), Category::Math);
    assert_eq!(NodeKind::Position.category(), Category::VectorMath);
    assert_eq!(NodeKind::Noise2D.category(), Category::Noise);
    assert_eq!(NodeKind::Atan.category(), Category::Trig);
    assert_eq!(NodeKind::BiomeWeight.category(), Category::Biome);
    assert_eq!(Category::VectorMath.label(), "Vector Math");
    let per_group = |c: Category| all_kinds().into_iter().filter(|k| k.category() == c).count();
    assert_eq!(per_group(Category::Terrain), 11);
    assert_eq!(per_group(Category::Heightmap), 2);
    assert_eq!(per_group(Category::Math), 20);
    assert_eq!(per_group(Category::VectorMath), 12);
    assert_eq!(per_group(Category::Noise), 2);
    assert_eq!(per_group(Category::Trig), 6);
    assert_eq!(per_group(Category::Biome), 2);
}

#[test]
fn declarations_agree_for_every_kind() {
    for kind in all_kinds() {
        let types = kind.input_types();
        let defaults = kind.input_defaults();
        assert_eq!(kind.input_names().len(), types.len());
        assert_eq!(defaults.len(), types.len());
        for (ty, default) in types.iter().zip(defaults.iter()) {
            assert_eq!(default.ty(), *ty);
        }
        assert_eq!(kind.output_names().len(), kind.outputs().len());
    }
}

#[test]
fn map_range_declares_five_distinct_inputs() {
    assert_eq!(
        NodeKind::MapRange.input_names(),
        vec!["x", "from min", "from max", "to min", "to max"]
    );
    assert_eq!(NodeKind::MapRange.input_types(), vec![Type::Scalar; 5]);
    assert_eq!(
        NodeKind::MapRange.input_defaults(),
        vec![scalar(0), scalar(0), scalar(1_000_000), scalar(0), scalar(1_000_000)]
    );
}

#[test]
fn declared_ports_of_some_kinds() {
    assert_eq!(NodeKind::TerrainOutput.input_types(), vec![Type::Terrain]);
    assert_eq!(NodeKind::TerrainOutput.outputs(), Vec::<Type>::new());
    assert_eq!(NodeKind::HeightmapTerrain.input_names(), vec!["height"]);
    assert_eq!(NodeKind::HeightmapTerrain.input_defaults(), vec![scalar(0)]);
    assert_eq!(NodeKind::HeightmapTerrain.outputs(), vec![Type::Terrain]);
    assert_eq!(NodeKind::ErodeTerrain.input_types(), vec![Type::Terrain, Type::Scalar]);
    assert_eq!(NodeKind::ErodeTerrain.input_defaults(), vec![Value::Terrain, scalar(500_000)]);
    assert_eq!(NodeKind::RidgeHeightmap.input_names(), vec!["scale", "min", "max"]);
    assert_eq!(
        NodeKind::RidgeHeightmap.input_defaults(),
        vec![scalar(1_000_000), scalar(0), scalar(50_000_000)]
    );
    assert_eq!(NodeKind::Log.input_names(), vec!["base", "x"]);
    assert_eq!(NodeKind::Log.input_defaults(), vec![scalar(2_718_282), scalar(1_000_000)]);
    assert_eq!(NodeKind::Equal.input_defaults(), vec![scalar(0), scalar(0), scalar(50_000)]);
    assert_eq!(NodeKind::SeparateXYZ.output_names(), vec!["x", "y", "z"]);
    assert_eq!(NodeKind::SeparateXYZ.outputs(), vec![Type::Scalar; 3]);
    assert_eq!(NodeKind::VectorScale.input_types(), vec![Type::Vector, Type::Scalar]);
    assert_eq!(NodeKind::Position.input_types(), Vec::<Type>::new());
    assert_eq!(NodeKind::Position.outputs(), vec![Type::Vector]);
    assert_eq!(
        NodeKind::Noise3D.input_names(),
        vec!["pos", "size", "amplitude", "lacunarity", "gain"]
    );
    assert_eq!(NodeKind::BiomeParameter.output_names(), vec!["x"]);
    assert_eq!(NodeKind::BiomeWeight.output_names(), vec!["weight"]);
}

#[test]
fn fresh_node_holds_defaults_and_no_connections() {
    let node = NodeType::make(NodeKind::Clamp);
    assert_eq!(node.kind(), NodeKind::Clamp);
    assert_eq!(node.label(), "Clamp");
    assert_eq!(
        node.inputs(),
        &vec![
            NodeInput { val: scalar(0), connection: None },
            NodeInput { val: scalar(0), connection: None },
            NodeInput { val: scalar(1_000_000), connection: None },
        ]
    );
    assert!(matches!(node.data(), NodeData::Plain));
    assert!(matches!(NodeType::make(NodeKind::BiomeWeight).data(), NodeData::BiomeWeight(w) if w.biome_idx == 0));
    assert!(matches!(NodeType::make(NodeKind::BiomeParameter).data(), NodeData::BiomeParameter(p) if p.param.is_empty()));
}

#[test]
fn input_from_a_value_is_unconnected() {
    let input = NodeInput::from(Value::Terrain);
    assert_eq!(input, NodeInput { val: Value::Terrain, connection: None });
}

#[test]
fn inputs_of_a_node_can_be_replaced() {
    let mut node = NodeType::make(NodeKind::Add);
    let input = NodeInput { val: scalar(2_000_000), connection: Some((NodeId(4), 1)) };
    assert!(node.set_input(1, input));
    assert_eq!(node.inputs()[1], input);
    assert_eq!(node.inputs()[0], NodeInput { val: scalar(0), connection: None });
    assert!(!node.set_input(2, input));
    assert_eq!(node.inputs().len(), 2);
    assert!(!node.set_param(String::from("wet")));
    assert!(!node.set_biome_idx(3));
}

#[test]
fn math_statements() {
    let w = CompilationTarget::WGSL;
    let h = CompilationTarget::UnrealHLSL;
    assert_eq!(emit(NodeKind::Add, w, &["a", "b"], &["v"]), "\tlet v = a + b;\n");
    assert_eq!(emit(NodeKind::Add, h, &["a", "b"], &["v"]), "\tfloat v = a + b;\n");
    assert_eq!(emit(NodeKind::Subtract, w, &["a", "b"], &["v"]), "\tlet v = a - b;\n");
    assert_eq!(emit(NodeKind::Multiply, h, &["a", "b"], &["v"]), "\tfloat v = a * b;\n");
    assert_eq!(emit(NodeKind::Power, w, &["a", "b"], &["v"]), "\tlet v = pow(a, b);\n");
    assert_eq!(emit(NodeKind::Min, w, &["a", "b"], &["v"]), "\tlet v = min(a, b);\n");
    assert_eq!(emit(NodeKind::Max, h, &["a", "b"], &["v"]), "\tfloat v = max(a, b);\n");
    assert_eq!(
        emit(NodeKind::GreaterThan, w, &["a", "b"], &["v"]),
        "\tlet v = select(0.0, 1.0, a > b);\n"
    );
    assert_eq!(
        emit(NodeKind::GreaterThan, h, &["a", "b"], &["v"]),
        "\tfloat v = a > b ? 1.0 : 0.0;\n"
    );
    assert_eq!(
        emit(NodeKind::LessThan, w, &["a", "b"], &["v"]),
        "\tlet v = select(0.0, 1.0, a < b);\n"
    );
    assert_eq!(emit(NodeKind::LessThan, h, &["a", "b"], &["v"]), "\tfloat v = a < b ? 1.0 : 0.0;\n");
    assert_eq!(
        emit(NodeKind::Equal, w, &["a", "b", "e"], &["v"]),
        "\tlet v = select(0.0, 1.0, abs(a - b) < e);\n"
    );
    assert_eq!(
        emit(NodeKind::Equal, h, &["a", "b", "e"], &["v"]),
        "\tfloat v = (abs(a - b) < e) ? 1.0 : 0.0;\n"
    );
    assert_eq!(emit(NodeKind::Floor, w, &["x"], &["v"]), "\tlet v = floor(x);\n");
    assert_eq!(emit(NodeKind::Round, w, &["x"], &["v"]), "\tlet v = round(x);\n");
    assert_eq!(emit(NodeKind::Ceil, h, &["x"], &["v"]), "\tfloat v = ceil(x);\n");
    assert_eq!(emit(NodeKind::Frac, w, &["x"], &["v"]), "\tlet v = fract(x);\n");
    assert_eq!(emit(NodeKind::Frac, h, &["x"], &["v"]), "\tfloat v = frac(x);\n");
    assert_eq!(emit(NodeKind::Abs, w, &["x"], &["v"]), "\tlet v = abs(x);\n");
    assert_eq!(emit(NodeKind::Sign, w, &["x"], &["v"]), "\tlet v = sign(x);\n");
    assert_eq!(
        emit(NodeKind::Clamp, w, &["x", "lo", "hi"], &["v"]),
        "\tlet v = clamp(x, lo, hi);\n"
    );
    assert_eq!(emit(NodeKind::Lerp, w, &["x", "lo", "hi"], &["v"]), "\tlet v = mix(lo, hi, x);\n");
    assert_eq!(
        emit(NodeKind::Lerp, h, &["x", "lo", "hi"], &["v"]),
        "\tfloat v = lerp(lo, hi, x);\n"
    );
}

#[test]
fn zero_divisors_are_guarded() {
    let w = CompilationTarget::WGSL;
    let h = CompilationTarget::UnrealHLSL;
    assert_eq!(emit(NodeKind::Divide, w, &["a", "b"], &["v"]), "\tlet v = a / dezero(b);\n");
    assert_eq!(emit(NodeKind::Divide, h, &["a", "b"], &["v"]), "\tfloat v = a / dezero(b);\n");
    assert_eq!(
        emit(NodeKind::Log, w, &["base", "x"], &["v"]),
        "\tlet v = log(x) / log(dezero(base));\n"
    );
    assert_eq!(
        emit(NodeKind::Log, h, &["base", "x"], &["v"]),
        "\tfloat v = log(x) / log(dezero(base));\n"
    );
}

#[test]
fn map_range_uses_all_five_arguments() {
    assert_eq!(
        emit(NodeKind::MapRange, CompilationTarget::WGSL, &["x", "a", "b", "c", "d"], &["v"]),
        "\tlet v = a + (x - a) * (d - c) / (b - a);\n"
    );
    assert_eq!(
        emit(NodeKind::MapRange, CompilationTarget::UnrealHLSL, &["x", "a", "b", "c", "d"], &["v"]),
        "\tfloat v = a + (x - a) * (d - c) / (b - a);\n"
    );
}

#[test]
fn terrain_statements() {
    let w = CompilationTarget::WGSL;
    let h = CompilationTarget::UnrealHLSL;
    assert_eq!(emit(NodeKind::TerrainOutput, w, &["t"], &[]), "\tterrain_out.terrain = t;\n");
    assert_eq!(emit(NodeKind::TerrainOutput, h, &["t"], &[]), "\tterrain_out = t;\n");
    assert_eq!(
        emit(NodeKind::HeightmapTerrain, w, &["0.0"], &["v"]),
        "\tlet v = make_terrain(2.0 * smoothstep(-2.5, 2.5, pos.y - 0.0) - 1.0);\n"
    );
    assert_eq!(
        emit(NodeKind::HeightmapTerrain, h, &["0.0"], &["v"]),
        "\tTerrain v = make_terrain(2.0 * smoothstep(-2.5, 2.5, pos.y - 0.0) - 1.0);\n"
    );
    assert_eq!(
        emit(NodeKind::FractalNoiseTerrain, w, &["s"], &["v"]),
        "\tlet v = make_terrain(cool_noise(seed, pos * s));\n"
    );
    assert_eq!(
        emit(NodeKind::BlobCaveTerrain, h, &["s"], &["v"]),
        "\tTerrain v = make_terrain(blob_cave_noise(seed, pos * s));\n"
    );
    assert_eq!(
        emit(NodeKind::SpaghettiCaveTerrain, w, &["s"], &["v"]),
        "\tlet v = make_terrain(spaghetti_cave_noise(seed, pos * s));\n"
    );
    assert_eq!(emit(NodeKind::InvertTerrain, w, &["t"], &["v"]), "\tlet v = terrain_invert(t);\n");
    assert_eq!(
        emit(NodeKind::ErodeTerrain, h, &["t", "d"], &["v"]),
        "\tTerrain v = terrain_erode(t, d);\n"
    );
    assert_eq!(
        emit(NodeKind::TerrainUnion, w, &["a", "b"], &["v"]),
        "\tlet v = terrain_union(a, b);\n"
    );
    assert_eq!(
        emit(NodeKind::TerrainIntersection, w, &["a", "b"], &["v"]),
        "\tlet v = terrain_intersect(a, b);\n"
    );
    assert_eq!(emit(NodeKind::TerrainToSDF, w, &["t"], &["v"]), "\tlet v = t.sdf;\n");
    assert_eq!(emit(NodeKind::TerrainToSDF, h, &["t"], &["v"]), "\tfloat v = t.sdf;\n");
    assert_eq!(emit(NodeKind::SDFToTerrain, w, &["d"], &["v"]), "\tlet v = Terrain(d);\n");
    assert_eq!(emit(NodeKind::SDFToTerrain, h, &["d"], &["v"]), "\tTerrain v;\n\tv.sdf = d;\n");
}

#[test]
fn heightmap_statements() {
    assert_eq!(
        emit(NodeKind::NoiseHeightmap, CompilationTarget::WGSL, &["s", "lo", "hi"], &["v"]),
        "\tlet v = noise_height(seed, pos, lo, hi, s);\n"
    );
    assert_eq!(
        emit(NodeKind::RidgeHeightmap, CompilationTarget::UnrealHLSL, &["s", "lo", "hi"], &["v"]),
        "\tfloat v = ridge_height(seed, pos, lo, hi, s);\n"
    );
}

#[test]
fn vector_statements() {
    let w = CompilationTarget::WGSL;
    let h = CompilationTarget::UnrealHLSL;
    assert_eq!(
        emit(NodeKind::CombineXYZ, w, &["x", "y", "z"], &["v"]),
        "\tlet v = vec3(x, y, z);\n"
    );
    assert_eq!(
        emit(NodeKind::CombineXYZ, h, &["x", "y", "z"], &["v"]),
        "\tfloat3 v = float3(x, y, z);\n"
    );
    assert_eq!(
        emit(NodeKind::SeparateXYZ, w, &["p"], &["a", "b", "c"]),
        "\tlet a = p.x;\n\tlet b = p.y;\n\tlet c = p.z;\n"
    );
    assert_eq!(
        emit(NodeKind::SeparateXYZ, h, &["p"], &["a", "b", "c"]),
        "\tfloat a = p.x;\n\tfloat b = p.y;\n\tfloat c = p.z;\n"
    );
    assert_eq!(emit(NodeKind::VectorAdd, w, &["a", "b"], &["v"]), "\tlet v = a + b;\n");
    assert_eq!(emit(NodeKind::VectorAdd, h, &["a", "b"], &["v"]), "\tfloat v = a + b;\n");
    assert_eq!(emit(NodeKind::VectorSubtract, w, &["a", "b"], &["v"]), "\tlet v = a - b;\n");
    assert_eq!(emit(NodeKind::VectorScale, w, &["a", "s"], &["v"]), "\tlet v = a * s;\n");
    assert_eq!(emit(NodeKind::VectorMultiply, w, &["a", "b"], &["v"]), "\tlet v = a * b;\n");
    assert_eq!(emit(NodeKind::DotProduct, w, &["a", "b"], &["v"]), "\tlet v = dot(a, b);\n");
    assert_eq!(emit(NodeKind::CrossProduct, w, &["a", "b"], &["v"]), "\tlet v = cross(a, b);\n");
    assert_eq!(emit(NodeKind::Length, h, &["a"], &["v"]), "\tfloat v = length(a);\n");
    assert_eq!(emit(NodeKind::Distance, w, &["a", "b"], &["v"]), "\tlet v = distance(a, b);\n");
    assert_eq!(emit(NodeKind::Normalize, w, &["a"], &["v"]), "\tlet v = normalize(a);\n");
    assert_eq!(emit(NodeKind::Normalize, h, &["a"], &["v"]), "\tfloat3 v = normalize(a);\n");
    assert_eq!(emit(NodeKind::Position, w, &[], &["v"]), "\tlet v = pos;\n");
    assert_eq!(emit(NodeKind::Position, h, &[], &["v"]), "\tfloat3 v = pos;\n");
}

#[test]
fn trig_statements() {
    let w = CompilationTarget::WGSL;
    assert_eq!(emit(NodeKind::Sin, w, &["x"], &["v"]), "\tlet v = sin(x);\n");
    assert_eq!(emit(NodeKind::Cos, w, &["x"], &["v"]), "\tlet v = cos(x);\n");
    assert_eq!(emit(NodeKind::Tan, w, &["x"], &["v"]), "\tlet v = tan(x);\n");
    assert_eq!(emit(NodeKind::Asin, w, &["x"], &["v"]), "\tlet v = asin(x);\n");
    assert_eq!(emit(NodeKind::Acos, w, &["x"], &["v"]), "\tlet v = acos(x);\n");
    assert_eq!(
        emit(NodeKind::Atan, CompilationTarget::UnrealHLSL, &["x"], &["v"]),
        "\tfloat v = atan(x);\n"
    );
}

#[test]
fn noise_sums_four_octaves() {
    assert_eq!(
        emit(NodeKind::Noise3D, CompilationTarget::WGSL, &["p", "s", "a", "l", "g"], &["v"]),
        "\tvar v = 0.0+ a * noise01(seed, p * max(s * 0.2, 0.0))\
+ a * g * noise01(seed, p * max(s * l * 0.2, 0.0))\
+ a * g * g * noise01(seed, p * max(s * l * l * 0.2, 0.0))\
+ a * g * g * g * noise01(seed, p * max(s * l * l * l * 0.2, 0.0));\n"
    );
    assert_eq!(
        emit(NodeKind::Noise2D, CompilationTarget::UnrealHLSL, &["p", "s", "a", "l", "g"], &["v"]),
        "\tfloat v = 0.0+ a * noise01(seed, float3(1.0, 0.0, 1.0) * p * max(s * 0.2, 0.0))\
+ a * g * noise01(seed, float3(1.0, 0.0, 1.0) * p * max(s * l * 0.2, 0.0))\
+ a * g * g * noise01(seed, float3(1.0, 0.0, 1.0) * p * max(s * l * l * 0.2, 0.0))\
+ a * g * g * g * noise01(seed, float3(1.0, 0.0, 1.0) * p * max(s * l * l * l * 0.2, 0.0));\n"
    );
    assert!(emit(NodeKind::Noise2D, CompilationTarget::WGSL, &["p", "s", "a", "l", "g"], &["v"])
        .starts_with("\tvar v = 0.0+ a * noise01(seed, vec3(1.0, 0.0, 1.0) * p * max(s * 0.2, 0.0))"));
}

#[test]
fn biome_nodes_read_the_table() {
    let mut biomes = Biomes::new();
    biomes.add_parameter(String::from("heat"));
    biomes.add_parameter(String::from("wet"));
    let info = GraphProjectInfo { biomes: &biomes };
    let outs = strings(&["v"]);
    let none: Vec<String> = Vec::new();

    let mut param = NodeType::make(NodeKind::BiomeParameter);
    assert_eq!(
        param.compile(CompilationTarget::WGSL, &none, &outs, &info),
        "\tlet v = 0.0;\n"
    );
    assert!(param.set_param(String::from("wet")));
    assert_eq!(param.compile(CompilationTarget::WGSL, &none, &outs, &info), "\tlet v = b_1;\n");
    assert_eq!(
        param.compile(CompilationTarget::UnrealHLSL, &none, &outs, &info),
        "\tfloat v = b_1;\n"
    );
    assert!(param.set_param(String::from("dry")));
    assert_eq!(
        param.compile(CompilationTarget::UnrealHLSL, &none, &outs, &info),
        "\tfloat v = 0.0;\n"
    );

    let mut weight = NodeType::make(NodeKind::BiomeWeight);
    assert_eq!(
        weight.compile(CompilationTarget::WGSL, &none, &outs, &info),
        "\tlet v = biome_w[0];\n"
    );
    assert_eq!(
        weight.compile(CompilationTarget::UnrealHLSL, &none, &outs, &info),
        "\tfloat v = biome_w.w[0];\n"
    );
    assert!(weight.set_biome_idx(1));
    assert_eq!(weight.compile(CompilationTarget::WGSL, &none, &outs, &info), "\tlet v = 0.0;\n");
}

#[test]
fn statements_are_appended_to_what_is_there() {
    let biomes = Biomes::new();
    let info = GraphProjectInfo { biomes: &biomes };
    let node = NodeType::make(NodeKind::Abs);
    let mut out = String::from("// head\n");
    node.compile_wgsl(&strings(&["x"]), &strings(&["v"]), &mut out, &info);
    node.compile_hlsl(&strings(&["y"]), &strings(&["w"]), &mut out, &info);
    assert_eq!(out, "// head\n\tlet v = abs(x);\n\tfloat w = abs(y);\n");
}

#[test]
fn literals_in_both_languages() {
    let v = Value::vector(Decimal::from_int(1), Decimal::from_micros(500_000), Decimal::from_int(-2));
    assert_eq!(Value::scalar(Decimal::from_int(0)).to_string(CompilationTarget::WGSL), "0.0");
    assert_eq!(
        Value::scalar(Decimal::from_micros(300_000)).to_string(CompilationTarget::UnrealHLSL),
        "0.3"
    );
    assert_eq!(v.to_string(CompilationTarget::WGSL), "vec3(1.0, 0.5, -2.0)");
    assert_eq!(v.to_string(CompilationTarget::UnrealHLSL), "float3(1.0, 0.5, -2.0)");
    assert_eq!(Value::terrain().to_string(CompilationTarget::WGSL), "make_terrain(1.0)");
    assert_eq!(Value::terrain().to_string(CompilationTarget::UnrealHLSL), "make_terrain(1.0)");
    assert_eq!(Value::terrain().ty(), Type::Terrain);
    assert_eq!(v.ty(), Type::Vector);
}
