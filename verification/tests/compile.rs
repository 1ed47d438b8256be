use voxelweaver::biome::{Biome, BiomeParam, Biomes};
use voxelweaver::compiler::biomes::{compile_biome_distribution, compile_biome_parameters};
use voxelweaver::compiler::graph::compile_graph;
use voxelweaver::compiler::{
    compile, compile_texture_reducer, CompilationTarget, ShaderLibrary, TextureSlot, TextureSlots,
};
use voxelweaver::decimal::Decimal;
use voxelweaver::graph::node_types::{NodeKind, NodeType};
use voxelweaver::graph::{
    Connection, GraphProjectInfo, NodeId, NodeInput, Pos, TerrainGraph, Value,
};

fn origin() -> Pos {
    Pos { x: Decimal::from_int(0), y: Decimal::from_int(0) }
}

fn library() -> ShaderLibrary {
    ShaderLibrary {
        common_wgsl: String::from("// common\n"),
        fnl_wgsl: String::from("// noise\n"),
        blank_wgsl: String::from("// blank wgsl\n"),
        blank_ush: String::from("// blank ush\n"),
        preamble_wgsl: String::from("fn terrain<ProjectName>(seed: i32, pos: vec3<f32>) -> TerrainOutput {\n\tvar terrain_out: TerrainOutput;"),
        preamble_ush: String::from("Terrain terrain<ProjectName>(int seed, float3 pos) {\n\tTerrain terrain_out;"),
        postamble_wgsl: String::from("\treturn terrain_out;\n}\n"),
        postamble_ush: String::from("\treturn terrain_out;\n}\n"),
        vertex_color_ush: String::from("// colours of <ProjectName>\n"),
    }
}

fn slots(entries: &[(&str, u32)]) -> TextureSlots {
    TextureSlots {
        entries: entries
            .iter()
            .map(|(path, slot)| TextureSlot { path: String::from(*path), slot: *slot })
            .collect(),
    }
}

fn textured(texture: &str) -> Biome {
    let mut b = Biome::new();
    b.texture = String::from(texture);
    b
}

fn table(biomes: Vec<Biome>) -> Biomes {
    let mut t = Biomes::new();
    t.biomes = biomes;
    t
}

fn reducer(t: &Biomes, textures: &TextureSlots) -> String {
    let mut out = String::new();
    compile_texture_reducer(&mut out, t, textures);
    out
}

fn sample_graph() -> TerrainGraph {
    let mut graph = TerrainGraph::new();
    let height = graph.add_node(origin(), NodeKind::HeightmapTerrain);
    let output = graph.add_node(origin(), NodeKind::TerrainOutput);
    let noise = graph.add_node(origin(), NodeKind::NoiseHeightmap);
    let wet = graph.add_node(origin(), NodeKind::BiomeParameter);
    assert!(graph.connect(Connection { from: height, out_idx: 0, to: output, inp_idx: 0 }).0);
    assert!(graph.connect(Connection { from: noise, out_idx: 0, to: height, inp_idx: 0 }).0);
    assert!(graph.connect(Connection { from: wet, out_idx: 0, to: noise, inp_idx: 2 }).0);
    assert!(graph.set_param(wet, String::from("wet")));
    graph
}

fn sample_biomes() -> Biomes {
    let mut a = textured("rock.png");
    a.min_depth = -10;
    a.max_depth = 40;
    a.params.push(BiomeParam { name: String::from("wet"), val: Decimal::from_micros(250_000) });
    let mut b = textured("moss.png");
    b.min_depth = 0;
    b.max_depth = 100;
    b.frequency = Decimal::from_int(3);
    let mut t = table(vec![a, b, textured("sand.png")]);
    t.add_parameter(String::from("wet"));
    t
}

#[test]
fn texture_slots_default_to_zero() {
    let textures = slots(&[("rock.png", 3), ("moss.png", 1), ("rock.png", 9)]);
    assert_eq!(textures.get(&String::from("rock.png")), 3);
    assert_eq!(textures.get(&String::from("moss.png")), 1);
    assert_eq!(textures.get(&String::from("sand.png")), 0);
    assert_eq!(textures.get(&String::new()), 0);
    assert_eq!(TextureSlots::new().get(&String::from("rock.png")), 0);
}

#[test]
fn no_biomes_reduce_to_the_null_material() {
    assert_eq!(
        reducer(&table(vec![]), &slots(&[("rock.png", 3)])),
        "fn reduce_material(biome_w_: array<f32, 0>) -> ReducedMaterial {\n\
         \tvar biome_w = biome_w_;\n\
         \treturn ReducedMaterial(0, 0, 0.0);\n}\n"
    );
}

#[test]
fn one_biome_reduces_to_its_slot_twice() {
    assert_eq!(
        reducer(&table(vec![textured("rock.png")]), &slots(&[("rock.png", 3)])),
        "fn reduce_material(biome_w_: array<f32, 1>) -> ReducedMaterial {\n\
         \tvar biome_w = biome_w_;\n\
         \treturn ReducedMaterial(3, 3, 0.0);\n}\n"
    );
}

#[test]
fn two_biomes_blend_by_the_share_of_the_second_weight() {
    assert_eq!(
        reducer(
            &table(vec![textured("rock.png"), textured("moss.png")]),
            &slots(&[("moss.png", 7), ("rock.png", 3)])
        ),
        "fn reduce_material(biome_w_: array<f32, 2>) -> ReducedMaterial {\n\
         \tvar biome_w = biome_w_;\n\
         \treturn ReducedMaterial(3, 7, biome_w[1] / (biome_w[0] + biome_w[1]));\n}\n"
    );
}

#[test]
fn more_biomes_are_scanned_for_the_two_greatest_weights() {
    let mut out = String::from("// before\n");
    compile_texture_reducer(
        &mut out,
        &table(vec![textured("rock.png"), textured("moss.png"), textured("gone.png"), textured("sand.png")]),
        &slots(&[("moss.png", 7), ("rock.png", 3), ("sand.png", 12)]),
    );
    assert_eq!(
        out,
        "// before\n\
         fn reduce_material(biome_w_: array<f32, 4>) -> ReducedMaterial {\n\
         \tvar biome_w = biome_w_;\n\
         \tvar tex0 = 0;\n\
         \tvar tex1 = 1;\n\
         \tif biome_w[1] > biome_w[0] {\n\
         \t\ttex0 = 1;\n\
         \t\ttex1 = 0;\n\
         \t}\n\
         \tfor(var i = 2; i < 4; i++) {\n\
         \t\tif biome_w[i] > biome_w[tex0] {\n\
         \t\t\ttex1 = tex0;\n\
         \t\t\ttex0 = i;\n\
         \t\t} else if biome_w[i] > biome_w[tex1] {\n\
         \t\t\ttex1 = i;\n\
         \t\t}\n\
         \t}\n\
         \tlet tex_w = biome_w[tex1] / (biome_w[tex0] + biome_w[tex1]);\n\
         \tvar tex_slot_map = array(3u, 7u, 0u, 12u, );\n\
         \treturn ReducedMaterial(tex_slot_map[tex0], tex_slot_map[tex1], tex_w);\n}\n"
    );
}

#[test]
fn fixed_text_of_each_language() {
    let lib = library();
    assert_eq!(CompilationTarget::WGSL.blank_sdf(&lib), "// blank wgsl\n");
    assert_eq!(CompilationTarget::UnrealHLSL.blank_sdf(&lib), "// blank ush\n");
    assert_eq!(CompilationTarget::WGSL.postamble(&lib), "\treturn terrain_out;\n}\n");
    assert_eq!(CompilationTarget::UnrealHLSL.postamble(&lib), "\treturn terrain_out;\n}\n");
    assert_eq!(
        CompilationTarget::WGSL.preamble(&sample_biomes(), &lib),
        "// common\n// noise\n\nconst N_BIOMES = 3u;\nstruct TerrainOutput {\n    terrain: Terrain,\n    biome_w: array<f32, 3>\n}\n"
    );
    assert_eq!(
        CompilationTarget::UnrealHLSL.preamble(&Biomes::new(), &lib),
        "\n#define N_BIOMES<ProjectName> 1\n\
struct BiomeWeights<ProjectName> {\n    float w[N_BIOMES<ProjectName>];\n};\n\n\
BiomeWeights<ProjectName> lerp_biome_w<ProjectName>(BiomeWeights<ProjectName> a, BiomeWeights<ProjectName> b, float w) {\n\
\x20   BiomeWeights<ProjectName> result;\n\
\x20   for(int i = 0; i < N_BIOMES<ProjectName>; i++) {\n\
\x20       result.w[i] = a.w[i] * (1.0 - w) + b.w[i] * w;\n\
\x20   }\n\
\x20   return result;\n}\n\n#pragma once\n"
    );
}

#[test]
fn source_is_put_together_in_order() {
    let graph = sample_graph();
    let biomes = sample_biomes();
    let lib = library();
    let textures = slots(&[("rock.png", 3), ("moss.png", 7)]);
    for (target, name, scope) in [
        (CompilationTarget::WGSL, Some("Island"), ""),
        (CompilationTarget::WGSL, None, ""),
        (CompilationTarget::UnrealHLSL, Some("Island"), "Island"),
        (CompilationTarget::UnrealHLSL, None, "DefaultProject"),
    ] {
        let mut expected = target.preamble(&biomes, &lib);
        compile_biome_distribution(&mut expected, &biomes, target);
        match target {
            CompilationTarget::WGSL => {
                expected.push_str(&lib.preamble_wgsl);
                expected.push_str("\nlet biome_w = biome_distribution<ProjectName>(seed, pos);\n");
            }
            CompilationTarget::UnrealHLSL => {
                expected.push_str(&lib.preamble_ush);
                expected.push_str(
                    "\nBiomeWeights<ProjectName> biome_w = biome_distribution<ProjectName>(seed, pos);\n",
                );
            }
        }
        compile_biome_parameters(&mut expected, &biomes, target);
        compile_graph(&mut expected, &graph, target, &GraphProjectInfo { biomes: &biomes });
        expected.push_str(target.postamble(&lib));
        match target {
            CompilationTarget::WGSL => compile_texture_reducer(&mut expected, &biomes, &textures),
            CompilationTarget::UnrealHLSL => expected.push_str(&lib.vertex_color_ush),
        }
        assert!(expected.contains("<ProjectName>"));
        let expected = expected.replace("<ProjectName>", scope);
        let source = compile(&graph, &biomes, &textures, target, name, &lib);
        assert_eq!(source, expected);
        assert!(!source.contains("<ProjectName>"));
    }
}

#[test]
fn the_name_of_the_project_scopes_the_second_language_only() {
    let graph = sample_graph();
    let biomes = sample_biomes();
    let lib = library();
    let textures = TextureSlots::new();
    let wgsl = compile(&graph, &biomes, &textures, CompilationTarget::WGSL, Some("Island"), &lib);
    assert!(wgsl.contains("fn terrain(seed: i32, pos: vec3<f32>) -> TerrainOutput {"));
    assert!(wgsl.contains("\nlet biome_w = biome_distribution(seed, pos);\n"));
    assert!(!wgsl.contains("Island"));
    let hlsl = compile(&graph, &biomes, &textures, CompilationTarget::UnrealHLSL, Some("Island"), &lib);
    assert!(hlsl.contains("Terrain terrainIsland(int seed, float3 pos) {"));
    assert!(hlsl.contains("\n#define N_BIOMESIsland 3\n"));
    assert!(hlsl.contains("\nBiomeWeightsIsland biome_w = biome_distributionIsland(seed, pos);\n"));
    assert!(hlsl.ends_with("// colours of Island\n"));
    let unnamed = compile(&graph, &biomes, &textures, CompilationTarget::UnrealHLSL, None, &lib);
    assert!(unnamed.contains("Terrain terrainDefaultProject(int seed, float3 pos) {"));
    assert_eq!(unnamed, hlsl.replace("Island", "DefaultProject"));
}

#[test]
fn graph_section_of_the_sample() {
    let source = compile(
        &sample_graph(),
        &sample_biomes(),
        &TextureSlots::new(),
        CompilationTarget::WGSL,
        None,
        &library(),
    );
    assert!(source.contains(
        "\tvar b_0 = biome_w[0] * 0.25 + biome_w[1] * 0 + biome_w[2] * 0;\n\
         \tlet val_0 = b_0;\n\
         \tlet val_1 = noise_height(seed, pos, 0.0, val_0, 1.0);\n\
         \tlet val_2 = make_terrain(2.0 * smoothstep(-2.5, 2.5, pos.y - val_1) - 1.0);\n\
         \tterrain_out.terrain = val_2;\n\
         \treturn terrain_out;\n}\n\
         fn reduce_material(biome_w_: array<f32, 3>) -> ReducedMaterial {\n"
    ));
}

#[test]
fn equal_inputs_give_equal_source() {
    let lib = library();
    for target in [CompilationTarget::WGSL, CompilationTarget::UnrealHLSL] {
        let first = compile(
            &sample_graph(),
            &sample_biomes(),
            &slots(&[("rock.png", 3), ("moss.png", 7)]),
            target,
            Some("Island"),
            &lib,
        );
        let second = compile(
            &sample_graph(),
            &sample_biomes(),
            &slots(&[("rock.png", 3), ("moss.png", 7)]),
            target,
            Some("Island"),
            &library(),
        );
        assert_eq!(first, second);
        let other = compile(
            &sample_graph(),
            &sample_biomes(),
            &slots(&[("rock.png", 4), ("moss.png", 7)]),
            target,
            Some("Island"),
            &lib,
        );
        assert_eq!(first == other, target == CompilationTarget::UnrealHLSL);
    }
}

#[test]
fn reconnecting_an_edge_gives_the_same_source() {
    let lib = library();
    let biomes = sample_biomes();
    let textures = TextureSlots::new();
    let mut graph = sample_graph();
    let before = compile(&graph, &biomes, &textures, CompilationTarget::WGSL, None, &lib);
    for _ in 0..2 {
        let cut = graph.disconnect(NodeId(1), 0).unwrap();
        let without = compile(&graph, &biomes, &textures, CompilationTarget::WGSL, None, &lib);
        assert_ne!(without, before);
        assert_eq!(graph.connect(cut), (true, None));
        let again = compile(&graph, &biomes, &textures, CompilationTarget::WGSL, None, &lib);
        assert_eq!(again, before);
    }
}

#[test]
fn graph_without_an_order_leaves_its_section_empty() {
    let mut looped = NodeType::make(NodeKind::Sin);
    assert!(looped.set_input(
        0,
        NodeInput { val: Value::Scalar(Decimal::from_int(0)), connection: Some((NodeId(1), 0)) }
    ));
    let mut graph = TerrainGraph::new();
    graph.add_node_from_box_ty(origin(), looped);
    let lib = library();
    let source =
        compile(&graph, &Biomes::new(), &TextureSlots::new(), CompilationTarget::WGSL, None, &lib);
    let empty = compile(
        &TerrainGraph::new(),
        &Biomes::new(),
        &TextureSlots::new(),
        CompilationTarget::WGSL,
        None,
        &lib,
    );
    assert_eq!(source, empty);
    assert!(source.contains("\nlet biome_w = biome_distribution(seed, pos);\n\treturn terrain_out;\n}\n"));
}
