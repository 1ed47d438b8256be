//! The spatial distribution of the biomes.
//!
//! The depth bounds of the biomes cut the depth axis into layers. For each
//! layer one function is generated that gives every biome its weight at a
//! point: cells of a jittered grid are scanned around the point, each cell
//! picks a biome of the layer with a chance in proportion to its frequency,
//! and the picks of near cells are blended smoothly. A last function picks
//! the layer by the height of the point and blends the two layers next to a
//! cut across one unit of height.

use vstd::prelude::*;
use vstd::string::*;
use crate::biome::{Biome, BiomeView, Biomes, BiomesView};
use crate::compiler::{CompilationTarget, ShaderLibrary, ShaderLibraryView, PROJECT_NAME_TOKEN};
use crate::decimal::{plain_text_of, point_text, Decimal};
use crate::text::{nat_text, replace_all, replace_text, usize_to_string};

verus! {

/// The word that declares an integer variable.
pub open spec fn spec_i32_var_decl(target: CompilationTarget) -> Seq<char> {
    match target {
        CompilationTarget::WGSL => "var"@,
        CompilationTarget::UnrealHLSL => "int"@,
    }
}

pub fn i32_var_decl(target: CompilationTarget) -> (s: &'static str)
    ensures
        s@ == spec_i32_var_decl(target),
{
    match target {
        CompilationTarget::WGSL => "var",
        CompilationTarget::UnrealHLSL => "int",
    }
}

/// The word that declares a scalar variable.
pub open spec fn spec_f32_var_decl(target: CompilationTarget) -> Seq<char> {
    match target {
        CompilationTarget::WGSL => "var"@,
        CompilationTarget::UnrealHLSL => "float"@,
    }
}

pub fn f32_var_decl(target: CompilationTarget) -> (s: &'static str)
    ensures
        s@ == spec_f32_var_decl(target),
{
    match target {
        CompilationTarget::WGSL => "var",
        CompilationTarget::UnrealHLSL => "float",
    }
}

/// The name of the scalar type.
pub open spec fn spec_f32_typename(target: CompilationTarget) -> Seq<char> {
    match target {
        CompilationTarget::WGSL => "f32"@,
        CompilationTarget::UnrealHLSL => "float"@,
    }
}

pub fn f32_typename(target: CompilationTarget) -> (s: &'static str)
    ensures
        s@ == spec_f32_typename(target),
{
    match target {
        CompilationTarget::WGSL => "f32",
        CompilationTarget::UnrealHLSL => "float",
    }
}

/// The word that declares a variable of two components.
pub open spec fn spec_vec2_var_decl(target: CompilationTarget) -> Seq<char> {
    match target {
        CompilationTarget::WGSL => "var"@,
        CompilationTarget::UnrealHLSL => "float2"@,
    }
}

pub fn vec2_var_decl(target: CompilationTarget) -> (s: &'static str)
    ensures
        s@ == spec_vec2_var_decl(target),
{
    match target {
        CompilationTarget::WGSL => "var",
        CompilationTarget::UnrealHLSL => "float2",
    }
}

/// The name of the type of two components.
pub open spec fn spec_vec2_typename(target: CompilationTarget) -> Seq<char> {
    match target {
        CompilationTarget::WGSL => "vec2"@,
        CompilationTarget::UnrealHLSL => "float2"@,
    }
}

pub fn vec2_typename(target: CompilationTarget) -> (s: &'static str)
    ensures
        s@ == spec_vec2_typename(target),
{
    match target {
        CompilationTarget::WGSL => "vec2",
        CompilationTarget::UnrealHLSL => "float2",
    }
}

/// The intrinsic that blends two values.
pub open spec fn spec_mix_fn_name(target: CompilationTarget) -> Seq<char> {
    match target {
        CompilationTarget::WGSL => "mix"@,
        CompilationTarget::UnrealHLSL => "lerp"@,
    }
}

pub fn mix_fn_name(target: CompilationTarget) -> (s: &'static str)
    ensures
        s@ == spec_mix_fn_name(target),
{
    match target {
        CompilationTarget::WGSL => "mix",
        CompilationTarget::UnrealHLSL => "lerp",
    }
}

/// The intrinsic that takes the fraction of a value.
pub open spec fn spec_fract_fn_name(target: CompilationTarget) -> Seq<char> {
    match target {
        CompilationTarget::WGSL => "fract"@,
        CompilationTarget::UnrealHLSL => "frac"@,
    }
}

pub fn fract_fn_name(target: CompilationTarget) -> (s: &'static str)
    ensures
        s@ == spec_fract_fn_name(target),
{
    match target {
        CompilationTarget::WGSL => "fract",
        CompilationTarget::UnrealHLSL => "frac",
    }
}

/// The most biomes that a table may hold for its layers to be counted and
/// its frequencies to be summed without overflow.
pub const MAX_BIOMES: usize = 0x3fff_ffff;

/// `s`, which ascends strictly, with `d` put in its place unless it is there.
pub open spec fn insert_cut(s: Seq<i32>, d: i32) -> Seq<i32>
    decreases s.len(),
{
    if s.len() == 0 {
        seq![d]
    } else if s.last() < d {
        s.push(d)
    } else if s.last() == d {
        s
    } else {
        insert_cut(s.drop_last(), d).push(s.last())
    }
}

/// The depth bounds of the first `n` biomes, ascending, each once.
pub open spec fn cuts_upto(biomes: Seq<BiomeView>, n: int) -> Seq<i32>
    decreases n,
{
    if n <= 0 {
        Seq::empty()
    } else {
        insert_cut(insert_cut(cuts_upto(biomes, n - 1), biomes[n - 1].min_depth), biomes[n - 1].max_depth)
    }
}

/// The depth cuts: the depth bounds of all biomes, ascending, each once.
pub open spec fn depth_cuts(biomes: Seq<BiomeView>) -> Seq<i32> {
    cuts_upto(biomes, biomes.len() as int)
}

pub open spec fn ascending(s: Seq<i32>) -> bool {
    forall|i: int, j: int| 0 <= i < j < s.len() ==> s[i] < s[j]
}

/// Whether `d` is a depth bound of one of the first `n` biomes.
pub open spec fn is_bound(biomes: Seq<BiomeView>, n: int, d: i32) -> bool {
    exists|i: int|
        0 <= i < n && ((#[trigger] biomes[i]).min_depth == d || biomes[i].max_depth == d)
}

/// Where the layer `i` begins: the lowest layer at the least depth there is,
/// the highest one step below the last cut, every other at the cut below it.
pub open spec fn layer_lower(cuts: Seq<i32>, i: int) -> int {
    if i <= 0 {
        i32::MIN as int
    } else if i >= cuts.len() {
        cuts.last() - 1
    } else {
        cuts[i - 1] as int
    }
}

/// Where the layer `i` ends: the lowest layer one step above the first cut,
/// the highest at the greatest depth there is, every other at the cut above
/// it.
pub open spec fn layer_upper(cuts: Seq<i32>, i: int) -> int {
    if i >= cuts.len() {
        i32::MAX as int
    } else if i <= 0 {
        cuts[0] + 1
    } else {
        cuts[i] as int
    }
}

/// Whether the depth range of the biome overlaps the layer in more than a
/// point.
pub open spec fn in_layer(b: BiomeView, lower: int, upper: int) -> bool {
    (if b.max_depth < upper {
        b.max_depth as int
    } else {
        upper
    }) > (if b.min_depth > lower {
        b.min_depth as int
    } else {
        lower
    })
}

/// The sum of the frequencies of those of the first `n` biomes that are in
/// the layer, in millionths.
pub open spec fn layer_frequency(biomes: Seq<BiomeView>, lower: int, upper: int, n: int) -> int
    decreases n,
{
    if n <= 0 {
        0
    } else if in_layer(biomes[n - 1], lower, upper) {
        layer_frequency(biomes, lower, upper, n - 1) + biomes[n - 1].effective_frequency()
    } else {
        layer_frequency(biomes, lower, upper, n - 1)
    }
}

/// The share `part / whole`, rounded down to millionths, in its shortest
/// spelling.
pub open spec fn share_text(part: int, whole: int) -> Seq<char> {
    plain_text_of(part * 1_000_000 / whole)
}

/// The threshold `steps` halves away from the cut `cut`.
pub open spec fn half_text(cut: int, steps: int) -> Seq<char> {
    plain_text_of(cut * 1_000_000 + steps * 500_000)
}

/// The declaration of the array of weights.
pub open spec fn weights_decl(target: CompilationTarget, n: nat) -> Seq<char> {
    match target {
        CompilationTarget::WGSL => "\tvar biome_w: array<f32, "@ + nat_text(n) + ">;\n"@,
        CompilationTarget::UnrealHLSL => "\tfloat biome_w["@ + nat_text(n) + "];\n"@,
    }
}

fn weights_decl_string(target: CompilationTarget, n: usize) -> (s: String)
    ensures
        s@ == weights_decl(target, n as nat),
{
    let digits = usize_to_string(n);
    match target {
        CompilationTarget::WGSL => {
            let mut s = String::from_str("\tvar biome_w: array<f32, ");
            s.append(digits.as_str());
            s.append(">;\n");
            s
        },
        CompilationTarget::UnrealHLSL => {
            let mut s = String::from_str("\tfloat biome_w[");
            s.append(digits.as_str());
            s.append("];\n");
            s
        },
    }
}

/// `acc` and the statements that set the first `n` weights to zero.
pub open spec fn with_zeroes(acc: Seq<char>, n: nat) -> Seq<char>
    decreases n,
{
    if n == 0 {
        acc
    } else {
        with_zeroes(acc, (n - 1) as nat) + "\tbiome_w["@ + nat_text((n - 1) as nat) + "] = 0.0;\n"@
    }
}

/// The words that turn the seed into an offset of two components.
pub open spec fn spec_seed_vec(target: CompilationTarget) -> Seq<char> {
    match target {
        CompilationTarget::WGSL => "vec2(f32(seed), f32(seed))"@,
        CompilationTarget::UnrealHLSL => "float2(seed, seed)"@,
    }
}

fn seed_vec(target: CompilationTarget) -> (s: &'static str)
    ensures
        s@ == spec_seed_vec(target),
{
    match target {
        CompilationTarget::WGSL => "vec2(f32(seed), f32(seed))",
        CompilationTarget::UnrealHLSL => "float2(seed, seed)",
    }
}

/// The head of the scan of the cells: the point is scaled by `scale` onto
/// the grid, the 25 cells around it are walked, each cell gets a feature
/// point and, from a second hash that the seed moves, a number `biome`
/// between zero and one that picks its biome; the least distance to a
/// feature point is tracked as a smooth minimum with the blend factor `h`.
pub open spec fn cells_head(target: CompilationTarget, scale: Seq<char>, smoothing: Seq<char>) -> Seq<
    char,
> {
    "\t"@ + spec_f32_var_decl(target) + " biome_scl = "@ + scale + ";\n"@ + "\t"@
        + spec_f32_var_decl(target) + " biome_smoothing = "@ + smoothing + ";\n"@ + "\t"@
        + spec_vec2_var_decl(target) + " biome_uv = "@ + spec_vec2_typename(target)
        + "(pos.x * biome_scl, pos.z * biome_scl);\n"@ + "\t"@ + spec_vec2_var_decl(target)
        + " biome_uv_n = floor(biome_uv);\n"@ + "\t"@ + spec_vec2_var_decl(target)
        + " biome_uv_f = "@ + spec_fract_fn_name(target) + "(biome_uv);\n"@ + "\t"@
        + spec_f32_var_decl(target) + " dist = 8.0;\n"@ + "\tfor("@
        + spec_i32_var_decl(target) + " i = -2; i <= 2; i++) {\n"@ + "\t\tfor("@
        + spec_i32_var_decl(target) + " j = -2; j <= 2; j++) {\n"@ + "\t\t\t"@
        + spec_vec2_var_decl(target) + " g = "@ + spec_vec2_typename(target) + "("@
        + spec_f32_typename(target) + "(i), "@ + spec_f32_typename(target) + "(j));\n"@
        + "\t\t\t"@ + spec_vec2_var_decl(target) + " o = hash2(biome_uv_n + g);\n"@
        + "\t\t\t"@ + spec_f32_var_decl(target) + " d = length(g - biome_uv_f + o);\n"@
        + "\t\t\t"@ + spec_f32_var_decl(target) + " biome = hash2(biome_uv_n + g + "@
        + spec_seed_vec(target) + ").x;\n"@ + "\t\t\t"@ + spec_f32_var_decl(target)
        + " h = smoothstep(-1.0, 1.0, (dist - d) / biome_smoothing);\n"@ + "\t\t\tdist = "@
        + spec_mix_fn_name(target)
        + "(dist, d, h) - h * (1.0 - h) * biome_smoothing / (1.0 + 3.0 * biome_smoothing);\n"@
}

fn cells_head_string(target: CompilationTarget, scale: &str, smoothing: &str) -> (s: String)
    ensures
        s@ == cells_head(target, scale@, smoothing@),
{
    let mut s = String::from_str("\t");
    s.append(f32_var_decl(target));
    s.append(" biome_scl = ");
    s.append(scale);
    s.append(";\n");
    s.append("\t");
    s.append(f32_var_decl(target));
    s.append(" biome_smoothing = ");
    s.append(smoothing);
    s.append(";\n");
    s.append("\t");
    s.append(vec2_var_decl(target));
    s.append(" biome_uv = ");
    s.append(vec2_typename(target));
    s.append("(pos.x * biome_scl, pos.z * biome_scl);\n");
    s.append("\t");
    s.append(vec2_var_decl(target));
    s.append(" biome_uv_n = floor(biome_uv);\n");
    s.append("\t");
    s.append(vec2_var_decl(target));
    s.append(" biome_uv_f = ");
    s.append(fract_fn_name(target));
    s.append("(biome_uv);\n");
    s.append("\t");
    s.append(f32_var_decl(target));
    s.append(" dist = 8.0;\n");
    s.append("\tfor(");
    s.append(i32_var_decl(target));
    s.append(" i = -2; i <= 2; i++) {\n");
    s.append("\t\tfor(");
    s.append(i32_var_decl(target));
    s.append(" j = -2; j <= 2; j++) {\n");
    s.append("\t\t\t");
    s.append(vec2_var_decl(target));
    s.append(" g = ");
    s.append(vec2_typename(target));
    s.append("(");
    s.append(f32_typename(target));
    s.append("(i), ");
    s.append(f32_typename(target));
    s.append("(j));\n");
    s.append("\t\t\t");
    s.append(vec2_var_decl(target));
    s.append(" o = hash2(biome_uv_n + g);\n");
    s.append("\t\t\t");
    s.append(f32_var_decl(target));
    s.append(" d = length(g - biome_uv_f + o);\n");
    s.append("\t\t\t");
    s.append(f32_var_decl(target));
    s.append(" biome = hash2(biome_uv_n + g + ");
    s.append(seed_vec(target));
    s.append(").x;\n");
    s.append("\t\t\t");
    s.append(f32_var_decl(target));
    s.append(" h = smoothstep(-1.0, 1.0, (dist - d) / biome_smoothing);\n");
    s.append("\t\t\tdist = ");
    s.append(mix_fn_name(target));
    s.append("(dist, d, h) - h * (1.0 - h) * biome_smoothing / (1.0 + 3.0 * biome_smoothing);\n");
    s
}

/// What a cell does to the weight of the biome `idx`: the weight is blended
/// toward one if the cell's number lies in the biome's share `from` to `to`
/// of the unit interval, and toward zero if not.
pub open spec fn branch_text(
    target: CompilationTarget,
    idx: Seq<char>,
    from: Seq<char>,
    to: Seq<char>,
) -> Seq<char> {
    "\t\t\tif (biome >= "@ + from + " && biome < "@ + to + ") {\n"@ + "\t\t\t\tbiome_w["@
        + idx + "] = "@ + spec_mix_fn_name(target) + "(biome_w["@ + idx
        + "], 1.0, h) - h * (1.0 - h) * biome_smoothing / (1.0 + 3.0 * biome_smoothing);\n"@
        + "\t\t\t} else {\n"@ + "\t\t\t\tbiome_w["@ + idx + "] = "@
        + spec_mix_fn_name(target) + "(biome_w["@ + idx
        + "], 0.0, h) - h * (1.0 - h) * biome_smoothing / (1.0 + 3.0 * biome_smoothing);\n"@
        + "\t\t\t}\n"@
}

fn branch_text_string(target: CompilationTarget, idx: &str, from: &str, to: &str) -> (s: String)
    ensures
        s@ == branch_text(target, idx@, from@, to@),
{
    let mut s = String::from_str("\t\t\tif (biome >= ");
    s.append(from);
    s.append(" && biome < ");
    s.append(to);
    s.append(") {\n");
    s.append("\t\t\t\tbiome_w[");
    s.append(idx);
    s.append("] = ");
    s.append(mix_fn_name(target));
    s.append("(biome_w[");
    s.append(idx);
    s.append("], 1.0, h) - h * (1.0 - h) * biome_smoothing / (1.0 + 3.0 * biome_smoothing);\n");
    s.append("\t\t\t} else {\n");
    s.append("\t\t\t\tbiome_w[");
    s.append(idx);
    s.append("] = ");
    s.append(mix_fn_name(target));
    s.append("(biome_w[");
    s.append(idx);
    s.append("], 0.0, h) - h * (1.0 - h) * biome_smoothing / (1.0 + 3.0 * biome_smoothing);\n");
    s.append("\t\t\t}\n");
    s
}

/// The end of the scan, after which the weights are divided by their sum.
pub open spec fn cells_tail(target: CompilationTarget, count: Seq<char>) -> Seq<char> {
    "\t\t}\n"@ + "\t}\n"@ + "\t"@ + spec_f32_var_decl(target) + " biome_w_sum = 0.0;\n"@
        + "\tfor ("@ + spec_i32_var_decl(target) + " i = 0; i < "@ + count + "; i++) {\n"@
        + "\t\tbiome_w_sum += biome_w[i];\n"@ + "\t}\n"@ + "\tfor ("@
        + spec_i32_var_decl(target) + " i = 0; i < "@ + count + "; i++) {\n"@
        + "\t\tbiome_w[i] /= biome_w_sum;\n"@ + "\t}\n"@
}

fn cells_tail_string(target: CompilationTarget, count: &str) -> (s: String)
    ensures
        s@ == cells_tail(target, count@),
{
    let mut s = String::from_str("\t\t}\n");
    s.append("\t}\n");
    s.append("\t");
    s.append(f32_var_decl(target));
    s.append(" biome_w_sum = 0.0;\n");
    s.append("\tfor (");
    s.append(i32_var_decl(target));
    s.append(" i = 0; i < ");
    s.append(count);
    s.append("; i++) {\n");
    s.append("\t\tbiome_w_sum += biome_w[i];\n");
    s.append("\t}\n");
    s.append("\tfor (");
    s.append(i32_var_decl(target));
    s.append(" i = 0; i < ");
    s.append(count);
    s.append("; i++) {\n");
    s.append("\t\tbiome_w[i] /= biome_w_sum;\n");
    s.append("\t}\n");
    s
}

/// How a layer hands back its weights.
pub open spec fn layer_return(target: CompilationTarget) -> Seq<char> {
    match target {
        CompilationTarget::WGSL => "\treturn biome_w;\n"@,
        CompilationTarget::UnrealHLSL =>
            "\tBiomeWeights<ProjectName> weights;\n\tweights.w = biome_w;\n\treturn weights;\n"@,
    }
}

fn layer_return_str(target: CompilationTarget) -> (s: &'static str)
    ensures
        s@ == layer_return(target),
{
    match target {
        CompilationTarget::WGSL => "\treturn biome_w;\n",
        CompilationTarget::UnrealHLSL =>
            "\tBiomeWeights<ProjectName> weights;\n\tweights.w = biome_w;\n\treturn weights;\n",
    }
}

/// `acc` and the branches of those of the first `n` biomes that are in the
/// layer. The shares of these biomes lie one after the other in the unit
/// interval, each as long as its frequency is to the sum `total` of all.
pub open spec fn with_branches(
    acc: Seq<char>,
    biomes: Seq<BiomeView>,
    lower: int,
    upper: int,
    total: int,
    target: CompilationTarget,
    n: int,
) -> Seq<char>
    decreases n,
{
    if n <= 0 {
        acc
    } else if in_layer(biomes[n - 1], lower, upper) {
        with_branches(acc, biomes, lower, upper, total, target, n - 1) + branch_text(
            target,
            nat_text((n - 1) as nat),
            share_text(layer_frequency(biomes, lower, upper, n - 1), total),
            share_text(layer_frequency(biomes, lower, upper, n), total),
        )
    } else {
        with_branches(acc, biomes, lower, upper, total, target, n - 1)
    }
}

/// The body of the function of one layer. A table of one biome gives it the
/// weight one; any other table scans the cells.
pub open spec fn layer_text(
    biomes: BiomesView,
    lower: int,
    upper: int,
    target: CompilationTarget,
) -> Seq<char> {
    let n = biomes.biomes.len();
    if n == 1 {
        with_zeroes(weights_decl(target, n), n) + "\tbiome_w[0] = 1.0;\n"@ + layer_return(target)
    } else {
        with_branches(
            with_zeroes(weights_decl(target, n), n) + cells_head(
                target,
                plain_text_of(crate::decimal::reciprocal_micros(biomes.biome_size.micros as int)),
                biomes.biome_blending.plain_text(),
            ),
            biomes.biomes,
            lower,
            upper,
            layer_frequency(biomes.biomes, lower, upper, n as int),
            target,
            n as int,
        ) + cells_tail(target, nat_text(n)) + layer_return(target)
    }
}

/// The head of the function of the layer `i`.
pub open spec fn layer_head(target: CompilationTarget, i: nat, n: nat) -> Seq<char> {
    match target {
        CompilationTarget::WGSL => "fn biome_distribution"@ + nat_text(i)
            + "(seed: i32, pos: vec3<f32>) -> array<f32, "@ + nat_text(n) + "> {\n"@,
        CompilationTarget::UnrealHLSL => "BiomeWeights<ProjectName> biome_distribution"@ + nat_text(i)
            + "<ProjectName>(int seed, float3 pos) {\n"@,
    }
}

/// The head of the function that picks the layer.
pub open spec fn dispatcher_head(target: CompilationTarget, n: nat) -> Seq<char> {
    match target {
        CompilationTarget::WGSL => "fn biome_distribution(seed: i32, pos: vec3<f32>) -> array<f32, "@
            + nat_text(n) + "> {\n"@,
        CompilationTarget::UnrealHLSL =>
            "BiomeWeights<ProjectName> biome_distribution<ProjectName>(int seed, float3 pos) {\n"@,
    }
}

/// `acc` and the functions of the first `n` layers.
pub open spec fn with_layers(
    acc: Seq<char>,
    biomes: BiomesView,
    cuts: Seq<i32>,
    target: CompilationTarget,
    n: int,
) -> Seq<char>
    decreases n,
{
    if n <= 0 {
        acc
    } else {
        with_layers(acc, biomes, cuts, target, n - 1) + layer_head(
            target,
            (n - 1) as nat,
            biomes.biomes.len(),
        ) + layer_text(biomes, layer_lower(cuts, n - 1), layer_upper(cuts, n - 1), target) + "}\n\n"@
    }
}

/// The seam at one cut: below `below`, half a unit under the cut, the layer
/// `i` alone counts; from there up to `above`, half a unit over the cut, the
/// layers `i` and `next` are blended in proportion to the height.
pub open spec fn seam_text(
    opening: Seq<char>,
    i: Seq<char>,
    next: Seq<char>,
    below: Seq<char>,
    above: Seq<char>,
) -> Seq<char> {
    opening + below + ") {\n"@ + "\t\treturn biome_distribution"@ + i
        + "<ProjectName>(seed, pos);\n"@ + "\t} else if (pos.y < "@ + above + ") {\n"@
        + "\t\treturn lerp_biome_w<ProjectName>(biome_distribution"@ + i
        + "<ProjectName>(seed, pos), biome_distribution"@ + next
        + "<ProjectName>(seed, pos), pos.y - "@ + below + ");\n"@
}

fn seam_text_string(opening: &str, i: &str, next: &str, below: &str, above: &str) -> (s: String)
    ensures
        s@ == seam_text(opening@, i@, next@, below@, above@),
{
    let mut s = String::from_str(opening);
    s.append(below);
    s.append(") {\n");
    s.append("\t\treturn biome_distribution");
    s.append(i);
    s.append("<ProjectName>(seed, pos);\n");
    s.append("\t} else if (pos.y < ");
    s.append(above);
    s.append(") {\n");
    s.append("\t\treturn lerp_biome_w<ProjectName>(biome_distribution");
    s.append(i);
    s.append("<ProjectName>(seed, pos), biome_distribution");
    s.append(next);
    s.append("<ProjectName>(seed, pos), pos.y - ");
    s.append(below);
    s.append(");\n");
    s
}

/// How the seam `i` opens: the first with a test, every other as one more
/// case of it.
pub open spec fn seam_opening(i: int) -> Seq<char> {
    if i == 0 {
        "\tif (pos.y < "@
    } else {
        "\t} else if (pos.y < "@
    }
}

/// `acc` and the seams at the first `n` cuts.
pub open spec fn with_seams(acc: Seq<char>, cuts: Seq<i32>, n: int) -> Seq<char>
    decreases n,
{
    if n <= 0 {
        acc
    } else {
        with_seams(acc, cuts, n - 1) + seam_text(
            seam_opening(n - 1),
            nat_text((n - 1) as nat),
            nat_text(n as nat),
            half_text(cuts[n - 1] as int, -1),
            half_text(cuts[n - 1] as int, 1),
        )
    }
}

/// How the function that picks the layer ends: above the last seam the
/// highest layer alone counts. Without a cut there is one layer and no test.
pub open spec fn dispatcher_tail(d: nat) -> Seq<char> {
    if d == 0 {
        "\treturn biome_distribution0<ProjectName>(seed, pos);\n}\n\n"@
    } else {
        "\t} else {\n\t\treturn biome_distribution"@ + nat_text(d)
            + "<ProjectName>(seed, pos);\n\t}\n}\n\n"@
    }
}

/// The source of the distribution: with `d` depth cuts, `d + 1` layer
/// functions, then the function that picks the layer, with `d` seams.
pub open spec fn distribution_text(biomes: BiomesView, target: CompilationTarget) -> Seq<char> {
    let cuts = depth_cuts(biomes.biomes);
    with_seams(
        with_layers(Seq::empty(), biomes, cuts, target, cuts.len() as int + 1) + dispatcher_head(
            target,
            biomes.biomes.len(),
        ),
        cuts,
        cuts.len() as int,
    ) + dispatcher_tail(cuts.len())
}

/// The word that names the weights where a parameter is blended.
pub open spec fn spec_weights_word(target: CompilationTarget) -> Seq<char> {
    match target {
        CompilationTarget::WGSL => "biome_w["@,
        CompilationTarget::UnrealHLSL => "biome_w.w["@,
    }
}

/// What stands between the terms of a sum: nothing before the first.
pub open spec fn plus_before(i: int) -> Seq<char> {
    if i > 0 {
        " + "@
    } else {
        ""@
    }
}

/// `acc` and, for each of the first `n` biomes, its weight times its value
/// of the parameter `name`.
pub open spec fn with_terms(
    acc: Seq<char>,
    biomes: Seq<BiomeView>,
    name: Seq<char>,
    target: CompilationTarget,
    n: int,
) -> Seq<char>
    decreases n,
{
    if n <= 0 {
        acc
    } else {
        with_terms(acc, biomes, name, target, n - 1) + plus_before(n - 1) + spec_weights_word(target)
            + nat_text((n - 1) as nat) + "] * "@ + biomes[n - 1].param(name).plain_text()
    }
}

/// `acc` and, for each of the first `n` declared parameters, the statement
/// that sets `b_<i>` to the parameter's value blended over the biomes.
pub open spec fn with_parameters(
    acc: Seq<char>,
    biomes: BiomesView,
    target: CompilationTarget,
    n: int,
) -> Seq<char>
    decreases n,
{
    if n <= 0 {
        acc
    } else {
        with_terms(
            with_parameters(acc, biomes, target, n - 1) + "\t"@ + spec_f32_var_decl(target) + " b_"@
                + nat_text((n - 1) as nat) + " = "@,
            biomes.biomes,
            biomes.biome_params[n - 1],
            target,
            biomes.biomes.len() as int,
        ) + ";\n"@
    }
}

/// The statements that blend every declared parameter.
pub open spec fn parameters_text(biomes: BiomesView, target: CompilationTarget) -> Seq<char> {
    with_parameters(Seq::empty(), biomes, target, biomes.biome_params.len() as int)
}

proof fn lemma_insert_cut_at(s: Seq<i32>, d: i32, i: int)
    requires
        0 <= i <= s.len(),
        forall|j: int| i <= j < s.len() ==> s[j] > d,
        i > 0 ==> s[i - 1] <= d,
    ensures
        insert_cut(s, d) == if i > 0 && s[i - 1] == d {
            s
        } else {
            s.insert(i, d)
        },
    decreases s.len() - i,
{
    if i == s.len() {
        if s.len() == 0 {
            assert(s.insert(0, d) =~= seq![d]);
        } else if s.last() < d {
            assert(s.insert(i, d) =~= s.push(d));
        }
    } else {
        let rest = s.drop_last();
        lemma_insert_cut_at(rest, d, i);
        if i > 0 && s[i - 1] == d {
            assert(rest.push(s.last()) =~= s);
        } else {
            assert(rest.insert(i, d).push(s.last()) =~= s.insert(i, d));
        }
    }
}

/// Putting a bound into ascending cuts keeps them ascending and adds the
/// bound to what they hold, nothing else.
pub proof fn lemma_insert_cut_keeps(s: Seq<i32>, d: i32)
    requires
        ascending(s),
    ensures
        ascending(insert_cut(s, d)),
        forall|x: i32| #[trigger] insert_cut(s, d).contains(x) <==> (s.contains(x) || x == d),
        s.len() <= insert_cut(s, d).len() <= s.len() + 1,
    decreases s.len(),
{
    let r = insert_cut(s, d);
    if s.len() == 0 {
        assert(r[0] == d);
    } else if s.last() < d {
        assert forall|i: int, j: int| 0 <= i < j < r.len() implies r[i] < r[j] by {
            if j == s.len() {
                if i < s.len() - 1 {
                    assert(s[i] < s[s.len() - 1]);
                }
            }
        }
        assert forall|x: i32| r.contains(x) <==> (s.contains(x) || x == d) by {
            if s.contains(x) {
                let i = choose|i: int| 0 <= i < s.len() && s[i] == x;
                assert(r[i] == x);
            }
            if x == d {
                assert(r[s.len() as int] == d);
            }
        }
    } else if s.last() == d {
        assert(s[s.len() - 1] == d);
    } else {
        let rest = s.drop_last();
        assert(ascending(rest));
        lemma_insert_cut_keeps(rest, d);
        let inner = insert_cut(rest, d);
        assert forall|i: int, j: int| 0 <= i < j < r.len() implies r[i] < r[j] by {
            if j == inner.len() {
                assert(inner.contains(inner[i]));
                if rest.contains(inner[i]) {
                    let x = choose|x: int| 0 <= x < rest.len() && rest[x] == inner[i];
                    assert(s[x] < s[s.len() - 1]);
                }
            }
        }
        assert forall|x: i32| r.contains(x) <==> (s.contains(x) || x == d) by {
            if r.contains(x) {
                let i = choose|i: int| 0 <= i < r.len() && r[i] == x;
                if i < inner.len() {
                    assert(inner.contains(x));
                    if rest.contains(x) {
                        let y = choose|y: int| 0 <= y < rest.len() && rest[y] == x;
                        assert(s[y] == x);
                    }
                } else {
                    assert(s[s.len() - 1] == x);
                }
            }
            if s.contains(x) {
                let y = choose|y: int| 0 <= y < s.len() && s[y] == x;
                if y < rest.len() {
                    assert(rest[y] == x);
                    assert(rest.contains(x));
                    assert(insert_cut(rest, d).contains(x));
                    assert(inner.contains(x));
                    let i = choose|i: int| 0 <= i < inner.len() && inner[i] == x;
                    assert(r[i] == x);
                } else {
                    assert(r[inner.len() as int] == x);
                }
            }
            if x == d {
                assert(insert_cut(rest, d).contains(d));
                let i = choose|i: int| 0 <= i < inner.len() && inner[i] == d;
                assert(r[i] == d);
            }
        }
    }
}

/// The depth cuts ascend strictly and are exactly the depth bounds of the
/// biomes, so there are as many cuts as the bounds take distinct values.
pub proof fn lemma_depth_cuts(biomes: Seq<BiomeView>, n: int)
    requires
        0 <= n <= biomes.len(),
    ensures
        ascending(cuts_upto(biomes, n)),
        forall|x: i32| #[trigger] cuts_upto(biomes, n).contains(x) <==> is_bound(biomes, n, x),
        cuts_upto(biomes, n).len() <= 2 * n,
        n > 0 ==> cuts_upto(biomes, n).len() >= 1,
    decreases n,
{
    if n > 0 {
        lemma_depth_cuts(biomes, n - 1);
        let a = cuts_upto(biomes, n - 1);
        let b = insert_cut(a, biomes[n - 1].min_depth);
        lemma_insert_cut_keeps(a, biomes[n - 1].min_depth);
        lemma_insert_cut_keeps(b, biomes[n - 1].max_depth);
        let c = cuts_upto(biomes, n);
        assert forall|x: i32| c.contains(x) <==> is_bound(biomes, n, x) by {
            assert(insert_cut(b, biomes[n - 1].max_depth).contains(x) <==> (b.contains(x) || x
                == biomes[n - 1].max_depth));
            assert(insert_cut(a, biomes[n - 1].min_depth).contains(x) <==> (a.contains(x) || x
                == biomes[n - 1].min_depth));
            assert(cuts_upto(biomes, n - 1).contains(x) <==> is_bound(biomes, n - 1, x));
            if is_bound(biomes, n, x) {
                let i = choose|i: int|
                    0 <= i < n && ((#[trigger] biomes[i]).min_depth == x || biomes[i].max_depth == x);
                if i < n - 1 {
                    assert(is_bound(biomes, n - 1, x));
                }
            }
            if c.contains(x) {
                if a.contains(x) {
                    assert(is_bound(biomes, n - 1, x));
                    let i = choose|i: int|
                        0 <= i < n - 1 && ((#[trigger] biomes[i]).min_depth == x
                            || biomes[i].max_depth == x);
                    assert(biomes[i].min_depth == x || biomes[i].max_depth == x);
                } else {
                    assert(biomes[n - 1].min_depth == x || biomes[n - 1].max_depth == x);
                }
            }
        }
    } else {
        assert forall|x: i32| cuts_upto(biomes, n).contains(x) <==> is_bound(biomes, n, x) by {}
    }
}

fn insert_cut_into(cuts: &mut Vec<i32>, d: i32)
    ensures
        final(cuts)@ == insert_cut(old(cuts)@, d),
{
    let mut i: usize = cuts.len();
    while i > 0 && cuts[i - 1] > d
        invariant
            i <= cuts.len(),
            cuts@ == old(cuts)@,
            forall|j: int| i <= j < cuts.len() ==> cuts@[j] > d,
        decreases i,
    {
        i -= 1;
    }
    proof {
        lemma_insert_cut_at(cuts@, d, i as int);
    }
    if i > 0 && cuts[i - 1] == d {
        return ;
    }
    cuts.insert(i, d);
}

/// The depth cuts of the table.
pub fn collect_depth_cuts(biomes: &Biomes) -> (cuts: Vec<i32>)
    ensures
        cuts@ == depth_cuts(biomes@.biomes),
{
    let mut cuts: Vec<i32> = Vec::new();
    let mut i: usize = 0;
    while i < biomes.biomes.len()
        invariant
            i <= biomes.biomes.len(),
            cuts@ == cuts_upto(biomes@.biomes, i as int),
        decreases biomes.biomes.len() - i,
    {
        insert_cut_into(&mut cuts, biomes.biomes[i].min_depth);
        insert_cut_into(&mut cuts, biomes.biomes[i].max_depth);
        i += 1;
    }
    cuts
}

fn biome_in_layer(biome: &Biome, lower: i64, upper: i64) -> (r: bool)
    ensures
        r == in_layer(biome@, lower as int, upper as int),
{
    let top = if (biome.max_depth as i64) < upper {
        biome.max_depth as i64
    } else {
        upper
    };
    let bottom = if (biome.min_depth as i64) > lower {
        biome.min_depth as i64
    } else {
        lower
    };
    top > bottom
}

proof fn lemma_layer_frequency_bounds(
    biomes: Seq<BiomeView>,
    lower: int,
    upper: int,
    a: int,
    b: int,
)
    requires
        0 <= a <= b <= biomes.len(),
    ensures
        0 <= layer_frequency(biomes, lower, upper, a) <= layer_frequency(biomes, lower, upper, b),
        layer_frequency(biomes, lower, upper, b) <= b * 0x8000_0000_0000_0000,
    decreases b,
{
    if b > 0 {
        if a < b {
            lemma_layer_frequency_bounds(biomes, lower, upper, a, b - 1);
        } else {
            lemma_layer_frequency_bounds(biomes, lower, upper, a - 1, b - 1);
        }
    }
}

fn share_string(part: u128, whole: u128) -> (s: String)
    requires
        part <= whole,
        0 < whole <= 0x1_0000_0000_0000_0000_0000_0000,
    ensures
        s@ == share_text(part as int, whole as int),
{
    assert(0 <= (part * 1_000_000) / (whole as int) <= 1_000_000) by (nonlinear_arith)
        requires
            0 <= part <= whole,
            0 < whole,
    ;
    assert(part * 1_000_000 <= 0x1_0000_0000_0000_0000_0000_0000 * 1_000_000) by (nonlinear_arith)
        requires
            part <= 0x1_0000_0000_0000_0000_0000_0000,
    ;
    let q = part * 1_000_000 / whole;
    let d = Decimal { micros: q as i64 };
    d.to_plain()
}

/// Appends the body of the function of the layer that spans the depths
/// from `min_depth` to `max_depth`.
pub fn compile_biome_distribution_layer(
    out: &mut String,
    biomes: &Biomes,
    min_depth: i64,
    max_depth: i64,
    target: CompilationTarget,
)
    requires
        biomes@.biomes.len() <= MAX_BIOMES,
    ensures
        final(out)@ == old(out)@ + layer_text(biomes@, min_depth as int, max_depth as int, target),
{
    let ghost view = biomes@;
    let ghost lower = min_depth as int;
    let ghost upper = max_depth as int;
    let n = biomes.biomes.len();
    let mut s = weights_decl_string(target, n);
    let ghost decl = s@;
    let mut i: usize = 0;
    while i < n
        invariant
            i <= n,
            s@ == with_zeroes(decl, i as nat),
        decreases n - i,
    {
        let digits = usize_to_string(i);
        s.append("\tbiome_w[");
        s.append(digits.as_str());
        s.append("] = 0.0;\n");
        i += 1;
    }
    if n == 1 {
        s.append("\tbiome_w[0] = 1.0;\n");
    } else {
        let mut total: u128 = 0;
        let mut i: usize = 0;
        while i < n
            invariant
                i <= n,
                n == biomes.biomes.len(),
                n <= MAX_BIOMES,
                view == biomes@,
                total == layer_frequency(view.biomes, lower, upper, i as int),
                total <= i * 0x8000_0000_0000_0000,
                lower == min_depth as int,
                upper == max_depth as int,
            decreases n - i,
        {
            if biome_in_layer(&biomes.biomes[i], min_depth, max_depth) {
                let f = biomes.biomes[i].frequency();
                total = total + f.micros as u128;
            }
            i += 1;
        }
        let scale = biomes.biome_size.reciprocal().to_plain();
        let smoothing = biomes.biome_blending.to_plain();
        let head = cells_head_string(target, scale.as_str(), smoothing.as_str());
        s.append(head.as_str());
        let ghost start = s@;
        let mut part: u128 = 0;
        let mut i: usize = 0;
        while i < n
            invariant
                i <= n,
                n == biomes.biomes.len(),
                n <= MAX_BIOMES,
                view == biomes@,
                lower == min_depth as int,
                upper == max_depth as int,
                total == layer_frequency(view.biomes, lower, upper, n as int),
                part == layer_frequency(view.biomes, lower, upper, i as int),
                s@ == with_branches(start, view.biomes, lower, upper, total as int, target, i as int),
            decreases n - i,
        {
            if biome_in_layer(&biomes.biomes[i], min_depth, max_depth) {
                let f = biomes.biomes[i].frequency();
                proof {
                    lemma_layer_frequency_bounds(view.biomes, lower, upper, i + 1, n as int);
                    lemma_layer_frequency_bounds(view.biomes, lower, upper, i as int, i + 1);
                    assert(n * 0x8000_0000_0000_0000 <= 0x1_0000_0000_0000_0000_0000_0000)
                        by (nonlinear_arith)
                        requires
                            n <= 0xffff_ffff,
                    ;
                }
                let next = part + f.micros as u128;
                let from = share_string(part, total);
                let to = share_string(next, total);
                let idx = usize_to_string(i);
                let branch = branch_text_string(target, idx.as_str(), from.as_str(), to.as_str());
                s.append(branch.as_str());
                part = next;
            }
            i += 1;
        }
        let count = usize_to_string(n);
        let tail = cells_tail_string(target, count.as_str());
        s.append(tail.as_str());
    }
    s.append(layer_return_str(target));
    out.append(s.as_str());
}

fn layer_head_string(target: CompilationTarget, i: usize, n: usize) -> (s: String)
    ensures
        s@ == layer_head(target, i as nat, n as nat),
{
    let index = usize_to_string(i);
    match target {
        CompilationTarget::WGSL => {
            let count = usize_to_string(n);
            let mut s = String::from_str("fn biome_distribution");
            s.append(index.as_str());
            s.append("(seed: i32, pos: vec3<f32>) -> array<f32, ");
            s.append(count.as_str());
            s.append("> {\n");
            s
        },
        CompilationTarget::UnrealHLSL => {
            let mut s = String::from_str("BiomeWeights<ProjectName> biome_distribution");
            s.append(index.as_str());
            s.append("<ProjectName>(int seed, float3 pos) {\n");
            s
        },
    }
}

fn dispatcher_head_string(target: CompilationTarget, n: usize) -> (s: String)
    ensures
        s@ == dispatcher_head(target, n as nat),
{
    match target {
        CompilationTarget::WGSL => {
            let count = usize_to_string(n);
            let mut s = String::from_str(
                "fn biome_distribution(seed: i32, pos: vec3<f32>) -> array<f32, ",
            );
            s.append(count.as_str());
            s.append("> {\n");
            s
        },
        CompilationTarget::UnrealHLSL => String::from_str(
            "BiomeWeights<ProjectName> biome_distribution<ProjectName>(int seed, float3 pos) {\n",
        ),
    }
}

fn half_string(cut: i32, steps: i8) -> (s: String)
    requires
        -1 <= steps <= 1,
    ensures
        s@ == half_text(cut as int, steps as int),
{
    Decimal::from_halves(cut, steps).to_plain()
}

fn append_layers(text: &mut String, biomes: &Biomes, cuts: &Vec<i32>, target: CompilationTarget)
    requires
        biomes@.biomes.len() <= MAX_BIOMES,
        cuts@.len() <= 2 * biomes@.biomes.len(),
    ensures
        final(text)@ == with_layers(old(text)@, biomes@, cuts@, target, cuts@.len() as int + 1),
{
    let ghost view = biomes@;
    let ghost start = text@;
    let d = cuts.len();
    let n = biomes.biomes.len();
    let mut i: usize = 0;
    while i <= d
        invariant
            i <= d + 1,
            d == cuts@.len(),
            d <= 2 * n,
            n == biomes.biomes.len(),
            n <= MAX_BIOMES,
            view == biomes@,
            text@ == with_layers(start, view, cuts@, target, i as int),
        decreases d + 1 - i,
    {
        let lower: i64 = if i == 0 {
            i32::MIN as i64
        } else if i == d {
            cuts[d - 1] as i64 - 1
        } else {
            cuts[i - 1] as i64
        };
        let upper: i64 = if i == d {
            i32::MAX as i64
        } else if i == 0 {
            cuts[0] as i64 + 1
        } else {
            cuts[i] as i64
        };
        let head = layer_head_string(target, i, n);
        text.append(head.as_str());
        compile_biome_distribution_layer(text, biomes, lower, upper, target);
        text.append("}\n\n");
        i += 1;
    }
}

fn append_seams(text: &mut String, cuts: &Vec<i32>)
    requires
        cuts@.len() < usize::MAX,
    ensures
        final(text)@ == with_seams(old(text)@, cuts@, cuts@.len() as int),
{
    let ghost start = text@;
    let d = cuts.len();
    let mut i: usize = 0;
    while i < d
        invariant
            i <= d,
            d == cuts@.len(),
            d < usize::MAX,
            text@ == with_seams(start, cuts@, i as int),
        decreases d - i,
    {
        let opening = if i == 0 {
            "\tif (pos.y < "
        } else {
            "\t} else if (pos.y < "
        };
        let index = usize_to_string(i);
        let next = usize_to_string(i + 1);
        let below = half_string(cuts[i], -1);
        let above = half_string(cuts[i], 1);
        let seam = seam_text_string(
            opening,
            index.as_str(),
            next.as_str(),
            below.as_str(),
            above.as_str(),
        );
        text.append(seam.as_str());
        i += 1;
    }
}

fn dispatcher_tail_string(d: usize) -> (s: String)
    ensures
        s@ == dispatcher_tail(d as nat),
{
    if d == 0 {
        String::from_str("\treturn biome_distribution0<ProjectName>(seed, pos);\n}\n\n")
    } else {
        let last = usize_to_string(d);
        let mut s = String::from_str("\t} else {\n\t\treturn biome_distribution");
        s.append(last.as_str());
        s.append("<ProjectName>(seed, pos);\n\t}\n}\n\n");
        s
    }
}

/// Appends the source of the distribution of the biomes: one function for
/// each layer between the depth cuts, and the function that picks the layer.
pub fn compile_biome_distribution(out: &mut String, biomes: &Biomes, target: CompilationTarget)
    requires
        biomes@.biomes.len() <= MAX_BIOMES,
    ensures
        final(out)@ == old(out)@ + distribution_text(biomes@, target),
{
    let cuts = collect_depth_cuts(biomes);
    proof {
        lemma_depth_cuts(biomes@.biomes, biomes@.biomes.len() as int);
    }
    let mut text = String::new();
    append_layers(&mut text, biomes, &cuts, target);
    let head = dispatcher_head_string(target, biomes.biomes.len());
    text.append(head.as_str());
    append_seams(&mut text, &cuts);
    let tail = dispatcher_tail_string(cuts.len());
    text.append(tail.as_str());
    out.append(text.as_str());
}

/// Appends, for each declared parameter, the statement that blends its
/// values over the biomes by their weights. A biome that has no value for a
/// parameter counts with zero.
pub fn compile_biome_parameters(out: &mut String, biomes: &Biomes, target: CompilationTarget)
    ensures
        final(out)@ == old(out)@ + parameters_text(biomes@, target),
{
    let ghost view = biomes@;
    let word = match target {
        CompilationTarget::WGSL => "biome_w[",
        CompilationTarget::UnrealHLSL => "biome_w.w[",
    };
    let mut text = String::new();
    let mut p: usize = 0;
    while p < biomes.biome_params.len()
        invariant
            p <= biomes.biome_params.len(),
            view == biomes@,
            word@ == spec_weights_word(target),
            text@ == with_parameters(Seq::empty(), view, target, p as int),
        decreases biomes.biome_params.len() - p,
    {
        let index = usize_to_string(p);
        text.append("\t");
        text.append(f32_var_decl(target));
        text.append(" b_");
        text.append(index.as_str());
        text.append(" = ");
        let ghost start = text@;
        let ghost name = view.biome_params[p as int];
        let mut b: usize = 0;
        while b < biomes.biomes.len()
            invariant
                b <= biomes.biomes.len(),
                p < biomes.biome_params.len(),
                view == biomes@,
                name == view.biome_params[p as int],
                word@ == spec_weights_word(target),
                text@ == with_terms(start, view.biomes, name, target, b as int),
            decreases biomes.biomes.len() - b,
        {
            let sep = if b > 0 {
                " + "
            } else {
                ""
            };
            let index = usize_to_string(b);
            let val = biomes.biomes[b].param(&biomes.biome_params[p]).to_plain();
            text.append(sep);
            text.append(word);
            text.append(index.as_str());
            text.append("] * ");
            text.append(val.as_str());
            b += 1;
        }
        text.append(";\n");
        p += 1;
    }
    out.append(text.as_str());
}

/// `acc` and, for each of the first `n` biomes, its colour times its weight.
pub open spec fn with_colors(acc: Seq<char>, biomes: Seq<BiomeView>, n: int) -> Seq<char>
    decreases n,
{
    if n <= 0 {
        acc
    } else {
        with_colors(acc, biomes, n - 1) + plus_before(n - 1) + "vec3("@
            + biomes[n - 1].color[0].literal_text() + ", "@ + biomes[n - 1].color[1].literal_text()
            + ", "@ + biomes[n - 1].color[2].literal_text() + ") * biome_w["@ + nat_text(
            (n - 1) as nat,
        ) + "]"@
    }
}

/// The source of the preview before the token of the project's name is
/// taken out: the distribution of the biomes, a function that colours a
/// point by the weights of the biomes there, and the helper functions.
pub open spec fn unscoped_preview_text(biomes: BiomesView, lib: ShaderLibraryView) -> Seq<char> {
    with_colors(
        "const N_BIOMES = "@ + nat_text(biomes.biomes.len()) + "u;\n"@ + distribution_text(
            biomes,
            CompilationTarget::WGSL,
        )
            + "fn preview_color(pos: vec3<f32>) -> vec3<f32> {\nlet biome_w = biome_distribution(666, pos);\n\treturn "@,
        biomes.biomes,
        biomes.biomes.len() as int,
    ) + ";\n}\n"@ + lib.common_wgsl + lib.fnl_wgsl
}

/// The source of the preview of the biomes.
pub open spec fn preview_text(biomes: BiomesView, lib: ShaderLibraryView) -> Seq<char> {
    replace_all(unscoped_preview_text(biomes, lib), PROJECT_NAME_TOKEN@, ""@)
}

/// Compiles the biome table alone, for a view that shows where each biome
/// lies: the source colours a point by the colours of the biomes, weighed by
/// their weights there.
pub fn compile_biome_preview(biomes: &Biomes, lib: &ShaderLibrary) -> (source: String)
    requires
        biomes@.biomes.len() <= MAX_BIOMES,
    ensures
        source@ == preview_text(biomes@, lib@),
{
    let n = biomes.biomes.len();
    let count = usize_to_string(n);
    let mut out = String::from_str("const N_BIOMES = ");
    out.append(count.as_str());
    out.append("u;\n");
    compile_biome_distribution(&mut out, biomes, CompilationTarget::WGSL);
    out.append(
        "fn preview_color(pos: vec3<f32>) -> vec3<f32> {\nlet biome_w = biome_distribution(666, pos);\n\treturn ",
    );
    let ghost start = out@;
    let mut i: usize = 0;
    while i < n
        invariant
            i <= n,
            n == biomes.biomes.len(),
            out@ == with_colors(start, biomes@.biomes, i as int),
        decreases n - i,
    {
        let sep = if i > 0 {
            " + "
        } else {
            ""
        };
        let r = biomes.biomes[i].color[0].to_literal();
        let g = biomes.biomes[i].color[1].to_literal();
        let b = biomes.biomes[i].color[2].to_literal();
        let index = usize_to_string(i);
        out.append(sep);
        out.append("vec3(");
        out.append(r.as_str());
        out.append(", ");
        out.append(g.as_str());
        out.append(", ");
        out.append(b.as_str());
        out.append(") * biome_w[");
        out.append(index.as_str());
        out.append("]");
        i += 1;
    }
    out.append(";\n}\n");
    out.append(lib.common_wgsl.as_str());
    out.append(lib.fnl_wgsl.as_str());
    proof {
        reveal_strlit("<ProjectName>");
    }
    replace_text(out.as_str(), PROJECT_NAME_TOKEN, "")
}

} // verus!
