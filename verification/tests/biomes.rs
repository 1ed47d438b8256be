use voxelweaver::biome::{Biome, BiomeParam, Biomes, BIOME_DEPTH_LIMIT};
use voxelweaver::compiler::biomes::{
    collect_depth_cuts, compile_biome_distribution, compile_biome_distribution_layer,
    compile_biome_parameters, compile_biome_preview, f32_typename, f32_var_decl, fract_fn_name,
    i32_var_decl, mix_fn_name, vec2_typename, vec2_var_decl,
};
use voxelweaver::compiler::{CompilationTarget, ShaderLibrary};
use voxelweaver::decimal::Decimal;

fn biome(min_depth: i32, max_depth: i32, frequency_micros: i64) -> Biome {
    let mut b = Biome::new();
    b.min_depth = min_depth;
    b.max_depth = max_depth;
    b.frequency = Decimal::from_micros(frequency_micros);
    b
}

fn table(biomes: Vec<Biome>) -> Biomes {
    let mut t = Biomes::new();
    t.biomes = biomes;
    t
}

fn distribution(t: &Biomes, target: CompilationTarget) -> String {
    let mut out = String::new();
    compile_biome_distribution(&mut out, t, target);
    out
}

fn layer(t: &Biomes, min_depth: i64, max_depth: i64, target: CompilationTarget) -> String {
    let mut out = String::new();
    compile_biome_distribution_layer(&mut out, t, min_depth, max_depth, target);
    out
}

fn count(text: &str, part: &str) -> usize {
    text.matches(part).count()
}

fn library() -> ShaderLibrary {
    ShaderLibrary {
        common_wgsl: String::from("// common <ProjectName>\n"),
        fnl_wgsl: String::from("// fnl\n"),
        blank_wgsl: String::new(),
        blank_ush: String::new(),
        preamble_wgsl: String::new(),
        preamble_ush: String::new(),
        postamble_wgsl: String::new(),
        postamble_ush: String::new(),
        vertex_color_ush: String::new(),
    }
}

const SCAN_HEAD_WGSL: &str = "\tvar biome_scl = 0.002;\n\
\tvar biome_smoothing = 0.25;\n\
\tvar biome_uv = vec2(pos.x * biome_scl, pos.z * biome_scl);\n\
\tvar biome_uv_n = floor(biome_uv);\n\
\tvar biome_uv_f = fract(biome_uv);\n\
\tvar dist = 8.0;\n\
\tfor(var i = -2; i <= 2; i++) {\n\
\t\tfor(var j = -2; j <= 2; j++) {\n\
\t\t\tvar g = vec2(f32(i), f32(j));\n\
\t\t\tvar o = hash2(biome_uv_n + g);\n\
\t\t\tvar d = length(g - biome_uv_f + o);\n\
\t\t\tvar biome = hash2(biome_uv_n + g + vec2(f32(seed), f32(seed))).x;\n\
\t\t\tvar h = smoothstep(-1.0, 1.0, (dist - d) / biome_smoothing);\n\
\t\t\tdist = mix(dist, d, h) - h * (1.0 - h) * biome_smoothing / (1.0 + 3.0 * biome_smoothing);\n";

const SCAN_HEAD_HLSL: &str = "\tfloat biome_scl = 0.002;\n\
\tfloat biome_smoothing = 0.25;\n\
\tfloat2 biome_uv = float2(pos.x * biome_scl, pos.z * biome_scl);\n\
\tfloat2 biome_uv_n = floor(biome_uv);\n\
\tfloat2 biome_uv_f = frac(biome_uv);\n\
\tfloat dist = 8.0;\n\
\tfor(int i = -2; i <= 2; i++) {\n\
\t\tfor(int j = -2; j <= 2; j++) {\n\
\t\t\tfloat2 g = float2(float(i), float(j));\n\
\t\t\tfloat2 o = hash2(biome_uv_n + g);\n\
\t\t\tfloat d = length(g - biome_uv_f + o);\n\
\t\t\tfloat biome = hash2(biome_uv_n + g + float2(seed, seed)).x;\n\
\t\t\tfloat h = smoothstep(-1.0, 1.0, (dist - d) / biome_smoothing);\n\
\t\t\tdist = lerp(dist, d, h) - h * (1.0 - h) * biome_smoothing / (1.0 + 3.0 * biome_smoothing);\n";

fn branch(mix: &str, idx: usize, from: &str, to: &str) -> String {
    format!(
        "\t\t\tif (biome >= {from} && biome < {to}) {{\n\
\t\t\t\tbiome_w[{idx}] = {mix}(biome_w[{idx}], 1.0, h) - h * (1.0 - h) * biome_smoothing / (1.0 + 3.0 * biome_smoothing);\n\
\t\t\t}} else {{\n\
\t\t\t\tbiome_w[{idx}] = {mix}(biome_w[{idx}], 0.0, h) - h * (1.0 - h) * biome_smoothing / (1.0 + 3.0 * biome_smoothing);\n\
\t\t\t}}\n"
    )
}

fn scan_tail(int: &str, float: &str, n: usize) -> String {
    format!(
        "\t\t}}\n\t}}\n\t{float} biome_w_sum = 0.0;\n\
\tfor ({int} i = 0; i < {n}; i++) {{\n\t\tbiome_w_sum += biome_w[i];\n\t}}\n\
\tfor ({int} i = 0; i < {n}; i++) {{\n\t\tbiome_w[i] /= biome_w_sum;\n\t}}\n"
    )
}

#[test]
fn words_of_the_two_languages() {
    let w = CompilationTarget::WGSL;
    let h = CompilationTarget::UnrealHLSL;
    assert_eq!((i32_var_decl(w), i32_var_decl(h)), ("var", "int"));
    assert_eq!((f32_var_decl(w), f32_var_decl(h)), ("var", "float"));
    assert_eq!((f32_typename(w), f32_typename(h)), ("f32", "float"));
    assert_eq!((vec2_var_decl(w), vec2_var_decl(h)), ("var", "float2"));
    assert_eq!((vec2_typename(w), vec2_typename(h)), ("vec2", "float2"));
    assert_eq!((mix_fn_name(w), mix_fn_name(h)), ("mix", "lerp"));
    assert_eq!((fract_fn_name(w), fract_fn_name(h)), ("fract", "frac"));
}

#[test]
fn fresh_table_has_one_biome() {
    let t = Biomes::new();
    assert!(t.biome_params.is_empty());
    assert_eq!(t.biomes.len(), 1);
    assert_eq!(t.biomes[0].name, "Biome");
    assert_eq!(t.biomes[0].frequency, Decimal::from_int(1));
    assert_eq!(t.biomes[0].texture, "");
    assert_eq!(
        t.biomes[0].color,
        [Decimal::from_int(1), Decimal::from_int(0), Decimal::from_int(0)]
    );
    assert_eq!(t.biomes[0].min_depth, -BIOME_DEPTH_LIMIT);
    assert_eq!(t.biomes[0].max_depth, BIOME_DEPTH_LIMIT);
    assert!(t.biomes[0].params.is_empty());
    assert_eq!(t.biome_size, Decimal::from_int(500));
    assert_eq!(t.biome_blending, Decimal::from_micros(250_000));
}

#[test]
fn parameters_are_declared_unless_unnamed() {
    let mut t = Biomes::new();
    t.add_parameter(String::from("wet"));
    t.add_parameter(String::new());
    t.add_parameter(String::from("heat"));
    assert_eq!(t.biome_params, vec!["wet", "heat"]);
}

#[test]
fn frequency_never_falls_below_a_hundredth() {
    assert_eq!(biome(0, 1, 2_500_000).frequency(), Decimal::from_micros(2_500_000));
    assert_eq!(biome(0, 1, 10_000).frequency(), Decimal::from_micros(10_000));
    assert_eq!(biome(0, 1, 9_999).frequency(), Decimal::from_micros(10_000));
    assert_eq!(biome(0, 1, 0).frequency(), Decimal::from_micros(10_000));
    assert_eq!(biome(0, 1, -7_000_000).frequency(), Decimal::from_micros(10_000));
}

#[test]
fn missing_parameter_counts_as_zero() {
    let mut b = Biome::new();
    b.params.push(BiomeParam { name: String::from("wet"), val: Decimal::from_micros(500_000) });
    b.params.push(BiomeParam { name: String::from("wet"), val: Decimal::from_int(9) });
    assert_eq!(b.param(&String::from("wet")), Decimal::from_micros(500_000));
    assert_eq!(b.param(&String::from("heat")), Decimal::from_int(0));
}

#[test]
fn depth_cuts_ascend_and_hold_each_bound_once() {
    assert_eq!(collect_depth_cuts(&table(vec![])), Vec::<i32>::new());
    assert_eq!(collect_depth_cuts(&Biomes::new()), vec![-99999, 99999]);
    assert_eq!(collect_depth_cuts(&table(vec![biome(5, 5, 1)])), vec![5]);
    assert_eq!(
        collect_depth_cuts(&table(vec![biome(0, 100, 1), biome(-10, 40, 1), biome(40, 100, 1)])),
        vec![-10, 0, 40, 100]
    );
    assert_eq!(
        collect_depth_cuts(&table(vec![biome(7, -3, 1), biome(i32::MAX, i32::MIN, 1)])),
        vec![i32::MIN, -3, 7, i32::MAX]
    );
}

#[test]
fn one_layer_more_than_cuts_and_one_seam_for_each_cut() {
    let cases = vec![
        (table(vec![biome(5, 5, 1)]), 1),
        (Biomes::new(), 2),
        (table(vec![biome(-10, 40, 1), biome(0, 100, 1)]), 4),
        (table(vec![biome(-10, 40, 1), biome(-10, 40, 1), biome(40, 90, 1)]), 3),
        (table(vec![biome(1, 2, 1), biome(3, 4, 1), biome(5, 6, 1), biome(7, 8, 1)]), 8),
    ];
    for (t, cuts) in cases {
        assert_eq!(collect_depth_cuts(&t).len(), cuts);
        for target in [CompilationTarget::WGSL, CompilationTarget::UnrealHLSL] {
            let text = distribution(&t, target);
            let (head, lerp) = match target {
                CompilationTarget::WGSL => ("fn biome_distribution", "\t\treturn lerp_biome_w"),
                CompilationTarget::UnrealHLSL => {
                    ("BiomeWeights<ProjectName> biome_distribution", "\t\treturn lerp_biome_w")
                }
            };
            // the layers and the function that picks among them
            assert_eq!(count(&text, head), cuts + 2);
            assert_eq!(count(&text, lerp), cuts);
            assert_eq!(count(&text, "\tif (pos.y < "), 1);
            assert_eq!(count(&text, "\t} else if (pos.y < "), 2 * cuts - 1);
        }
    }
}

#[test]
fn table_without_biomes_has_one_layer_and_no_seam() {
    assert_eq!(
        distribution(&table(vec![]), CompilationTarget::WGSL),
        "fn biome_distribution0(seed: i32, pos: vec3<f32>) -> array<f32, 0> {\n\
\tvar biome_w: array<f32, 0>;\n".to_owned()
            + SCAN_HEAD_WGSL
            + &scan_tail("var", "var", 0)
            + "\treturn biome_w;\n}\n\n\
fn biome_distribution(seed: i32, pos: vec3<f32>) -> array<f32, 0> {\n\
\treturn biome_distribution0<ProjectName>(seed, pos);\n}\n\n"
    );
}

#[test]
fn distribution_of_the_fresh_table() {
    let layer_body = "\tvar biome_w: array<f32, 1>;\n\tbiome_w[0] = 0.0;\n\tbiome_w[0] = 1.0;\n\treturn biome_w;\n}\n\n";
    let expected = format!(
        "fn biome_distribution0(seed: i32, pos: vec3<f32>) -> array<f32, 1> {{\n{layer_body}\
fn biome_distribution1(seed: i32, pos: vec3<f32>) -> array<f32, 1> {{\n{layer_body}\
fn biome_distribution2(seed: i32, pos: vec3<f32>) -> array<f32, 1> {{\n{layer_body}\
fn biome_distribution(seed: i32, pos: vec3<f32>) -> array<f32, 1> {{\n\
\tif (pos.y < -99999.5) {{\n\
\t\treturn biome_distribution0<ProjectName>(seed, pos);\n\
\t}} else if (pos.y < -99998.5) {{\n\
\t\treturn lerp_biome_w<ProjectName>(biome_distribution0<ProjectName>(seed, pos), biome_distribution1<ProjectName>(seed, pos), pos.y - -99999.5);\n\
\t}} else if (pos.y < 99998.5) {{\n\
\t\treturn biome_distribution1<ProjectName>(seed, pos);\n\
\t}} else if (pos.y < 99999.5) {{\n\
\t\treturn lerp_biome_w<ProjectName>(biome_distribution1<ProjectName>(seed, pos), biome_distribution2<ProjectName>(seed, pos), pos.y - 99998.5);\n\
\t}} else {{\n\
\t\treturn biome_distribution2<ProjectName>(seed, pos);\n\
\t}}\n}}\n\n"
    );
    assert_eq!(distribution(&Biomes::new(), CompilationTarget::WGSL), expected);
}

#[test]
fn distribution_with_one_cut_in_the_second_language() {
    let layer_body = "\tfloat biome_w[1];\n\tbiome_w[0] = 0.0;\n\tbiome_w[0] = 1.0;\n\
\tBiomeWeights<ProjectName> weights;\n\tweights.w = biome_w;\n\treturn weights;\n}\n\n";
    let expected = format!(
        "BiomeWeights<ProjectName> biome_distribution0<ProjectName>(int seed, float3 pos) {{\n{layer_body}\
BiomeWeights<ProjectName> biome_distribution1<ProjectName>(int seed, float3 pos) {{\n{layer_body}\
BiomeWeights<ProjectName> biome_distribution<ProjectName>(int seed, float3 pos) {{\n\
\tif (pos.y < 6.5) {{\n\
\t\treturn biome_distribution0<ProjectName>(seed, pos);\n\
\t}} else if (pos.y < 7.5) {{\n\
\t\treturn lerp_biome_w<ProjectName>(biome_distribution0<ProjectName>(seed, pos), biome_distribution1<ProjectName>(seed, pos), pos.y - 6.5);\n\
\t}} else {{\n\
\t\treturn biome_distribution1<ProjectName>(seed, pos);\n\
\t}}\n}}\n\n"
    );
    assert_eq!(distribution(&table(vec![biome(7, 7, 1)]), CompilationTarget::UnrealHLSL), expected);
}

#[test]
fn layer_shares_the_unit_interval_by_frequency() {
    let t = table(vec![biome(-10, 40, 1_000_000), biome(0, 100, 3_000_000)]);
    let expected = "\tvar biome_w: array<f32, 2>;\n\tbiome_w[0] = 0.0;\n\tbiome_w[1] = 0.0;\n"
        .to_owned()
        + SCAN_HEAD_WGSL
        + &branch("mix", 0, "0", "0.25")
        + &branch("mix", 1, "0.25", "1")
        + &scan_tail("var", "var", 2)
        + "\treturn biome_w;\n";
    assert_eq!(layer(&t, 0, 40, CompilationTarget::WGSL), expected);

    let expected = "\tfloat biome_w[2];\n\tbiome_w[0] = 0.0;\n\tbiome_w[1] = 0.0;\n".to_owned()
        + SCAN_HEAD_HLSL
        + &branch("lerp", 0, "0", "0.25")
        + &branch("lerp", 1, "0.25", "1")
        + &scan_tail("int", "float", 2)
        + "\tBiomeWeights<ProjectName> weights;\n\tweights.w = biome_w;\n\treturn weights;\n";
    assert_eq!(layer(&t, 0, 40, CompilationTarget::UnrealHLSL), expected);
}

#[test]
fn layer_leaves_out_biomes_that_do_not_reach_into_it() {
    let t = table(vec![biome(-10, 40, 1_000_000), biome(0, 100, 3_000_000)]);
    let only = |idx: usize, lo: i64, hi: i64| {
        let text = layer(&t, lo, hi, CompilationTarget::WGSL);
        assert_eq!(count(&text, "if (biome >= "), 1);
        assert!(text.contains(&branch("mix", idx, "0", "1")));
    };
    only(0, -10, 0);
    only(0, i32::MIN as i64, -9);
    only(1, 40, 100);
    only(1, 99, i32::MAX as i64);
    let none = layer(&t, 200, 300, CompilationTarget::WGSL);
    assert_eq!(count(&none, "if (biome >= "), 0);
    let expected = "\tvar biome_w: array<f32, 2>;\n\tbiome_w[0] = 0.0;\n\tbiome_w[1] = 0.0;\n"
        .to_owned()
        + SCAN_HEAD_WGSL
        + &scan_tail("var", "var", 2)
        + "\treturn biome_w;\n";
    assert_eq!(none, expected);
}

#[test]
fn shares_are_rounded_down_and_meet_end_to_end() {
    let t = table(vec![biome(0, 9, 1_000_000), biome(0, 9, 1_000_000), biome(0, 9, 1_000_000)]);
    let text = layer(&t, 0, 9, CompilationTarget::WGSL);
    assert!(text.contains(&branch("mix", 0, "0", "0.333333")));
    assert!(text.contains(&branch("mix", 1, "0.333333", "0.666666")));
    assert!(text.contains(&branch("mix", 2, "0.666666", "1")));

    // a frequency of nothing counts as a hundredth
    let t = table(vec![biome(0, 9, 0), biome(0, 9, 990_000)]);
    let text = layer(&t, 0, 9, CompilationTarget::WGSL);
    assert!(text.contains(&branch("mix", 0, "0", "0.01")));
    assert!(text.contains(&branch("mix", 1, "0.01", "1")));
}

#[test]
fn cell_size_and_blend_are_written_into_the_scan() {
    let mut t = table(vec![biome(0, 9, 1_000_000), biome(0, 9, 1_000_000)]);
    t.biome_size = Decimal::from_int(50);
    t.biome_blending = Decimal::from_int(1);
    let text = layer(&t, 0, 9, CompilationTarget::WGSL);
    assert!(text.contains("\tvar biome_scl = 0.02;\n\tvar biome_smoothing = 1;\n"));
    t.biome_size = Decimal::from_int(0);
    let text = layer(&t, 0, 9, CompilationTarget::UnrealHLSL);
    assert!(text.contains("\tfloat biome_scl = 1000000;\n"));
}

#[test]
fn parameters_are_blended_over_the_biomes() {
    let mut wet = biome(0, 1, 1_000_000);
    wet.params.push(BiomeParam { name: String::from("wet"), val: Decimal::from_micros(500_000) });
    wet.params.push(BiomeParam { name: String::from("gone"), val: Decimal::from_int(3) });
    let mut dry = biome(0, 1, 1_000_000);
    dry.params.push(BiomeParam { name: String::from("heat"), val: Decimal::from_micros(-1_250_000) });
    let mut t = table(vec![wet, dry]);
    t.add_parameter(String::from("wet"));
    t.add_parameter(String::from("heat"));

    let mut out = String::from("{\n");
    compile_biome_parameters(&mut out, &t, CompilationTarget::WGSL);
    assert_eq!(
        out,
        "{\n\tvar b_0 = biome_w[0] * 0.5 + biome_w[1] * 0;\n\
         \tvar b_1 = biome_w[0] * 0 + biome_w[1] * -1.25;\n"
    );
    let mut out = String::new();
    compile_biome_parameters(&mut out, &t, CompilationTarget::UnrealHLSL);
    assert_eq!(
        out,
        "\tfloat b_0 = biome_w.w[0] * 0.5 + biome_w.w[1] * 0;\n\
         \tfloat b_1 = biome_w.w[0] * 0 + biome_w.w[1] * -1.25;\n"
    );

    let mut out = String::new();
    compile_biome_parameters(&mut out, &Biomes::new(), CompilationTarget::WGSL);
    assert_eq!(out, "");
    let mut none = table(vec![]);
    none.add_parameter(String::from("wet"));
    let mut out = String::new();
    compile_biome_parameters(&mut out, &none, CompilationTarget::WGSL);
    assert_eq!(out, "\tvar b_0 = ;\n");
}

#[test]
fn preview_colours_by_weight() {
    let mut green = biome(3, 3, 1_000_000);
    green.color = [Decimal::from_int(0), Decimal::from_micros(750_000), Decimal::from_int(0)];
    let t = table(vec![biome(3, 3, 1_000_000), green]);
    let source = compile_biome_preview(&t, &library());
    let scoped = distribution(&t, CompilationTarget::WGSL).replace("<ProjectName>", "");
    assert_eq!(
        source,
        "const N_BIOMES = 2u;\n".to_owned()
            + &scoped
            + "fn preview_color(pos: vec3<f32>) -> vec3<f32> {\n\
let biome_w = biome_distribution(666, pos);\n\
\treturn vec3(1.0, 0.0, 0.0) * biome_w[0] + vec3(0.0, 0.75, 0.0) * biome_w[1];\n\
}\n\
// common \n// fnl\n"
    );
    assert!(scoped.contains("\t\treturn biome_distribution0(seed, pos);\n"));
}
