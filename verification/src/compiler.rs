//! Compilation of a graph and a biome table into shader source.
//!
//! The source of one compilation is, in this order: the fixed text that
//! opens it, the distribution of the biomes, the opening of the terrain
//! function, the blended parameters, the statements of the graph, and the
//! closing of the function with what follows it. It depends on what is
//! handed in and on nothing else, so equal inputs give equal source.

pub mod biomes;
pub mod graph;

use vstd::prelude::*;
use vstd::string::*;
use crate::biome::{Biomes, BiomesView};
use crate::compiler::biomes::{
    compile_biome_distribution, compile_biome_parameters, distribution_text, parameters_text,
    MAX_BIOMES,
};
use crate::compiler::graph::{compile_graph, graph_text};
use crate::graph::{GraphProjectInfo, GraphView, TerrainGraph, Value};
use crate::text::{join7, nat_text, nat_to_string, replace_all, replace_text, usize_to_string};

verus! {

/// The two shading languages that source is generated for.
#[derive(Clone, Copy, PartialEq, Eq, Structural, Debug)]
pub enum CompilationTarget {
    WGSL,
    UnrealHLSL,
}

/// The token that stands for the name of the project in generated source.
pub const PROJECT_NAME_TOKEN: &'static str = "<ProjectName>";

/// The name that is used where a project has none.
pub const DEFAULT_PROJECT_NAME: &'static str = "DefaultProject";

/// The fixed text that generated source is set between. The library does
/// not look into it; it is put into the source as it is.
#[derive(Clone, PartialEq, Eq, Debug)]
pub struct ShaderLibrary {
    /// Shared helper functions of the first shading language.
    pub common_wgsl: String,
    /// Noise functions of the first shading language.
    pub fnl_wgsl: String,
    /// What is used in place of compiled source while there is none.
    pub blank_wgsl: String,
    pub blank_ush: String,
    /// The opening of the function that the statements of the graph fill.
    pub preamble_wgsl: String,
    pub preamble_ush: String,
    /// The closing of that function.
    pub postamble_wgsl: String,
    pub postamble_ush: String,
    /// What follows the closing in the second shading language.
    pub vertex_color_ush: String,
}

pub struct ShaderLibraryView {
    pub common_wgsl: Seq<char>,
    pub fnl_wgsl: Seq<char>,
    pub blank_wgsl: Seq<char>,
    pub blank_ush: Seq<char>,
    pub preamble_wgsl: Seq<char>,
    pub preamble_ush: Seq<char>,
    pub postamble_wgsl: Seq<char>,
    pub postamble_ush: Seq<char>,
    pub vertex_color_ush: Seq<char>,
}

impl View for ShaderLibrary {
    type V = ShaderLibraryView;

    open spec fn view(&self) -> ShaderLibraryView {
        ShaderLibraryView {
            common_wgsl: self.common_wgsl@,
            fnl_wgsl: self.fnl_wgsl@,
            blank_wgsl: self.blank_wgsl@,
            blank_ush: self.blank_ush@,
            preamble_wgsl: self.preamble_wgsl@,
            preamble_ush: self.preamble_ush@,
            postamble_wgsl: self.postamble_wgsl@,
            postamble_ush: self.postamble_ush@,
            vertex_color_ush: self.vertex_color_ush@,
        }
    }
}

/// One texture and the slot of the atlas that it was given.
#[derive(Clone, PartialEq, Eq, Debug)]
pub struct TextureSlot {
    pub path: String,
    pub slot: u32,
}

/// Which slot of the atlas each texture has: what the compiler sees of the
/// textures during one compilation.
#[derive(Clone, PartialEq, Eq, Debug)]
pub struct TextureSlots {
    pub entries: Vec<TextureSlot>,
}

impl View for TextureSlots {
    type V = Seq<(Seq<char>, u32)>;

    open spec fn view(&self) -> Seq<(Seq<char>, u32)> {
        Seq::new(self.entries@.len(), |i: int| (self.entries@[i].path@, self.entries@[i].slot))
    }
}

/// The slot that the first `n` entries give to `path`: that of the first
/// entry with this path, or slot 0, which stands for a texture that is not
/// there.
pub open spec fn slot_within(entries: Seq<(Seq<char>, u32)>, path: Seq<char>, n: int) -> u32
    decreases n,
{
    if n <= 0 {
        0
    } else if known_within(entries, path, n - 1) {
        slot_within(entries, path, n - 1)
    } else if entries[n - 1].0 == path {
        entries[n - 1].1
    } else {
        0
    }
}

/// Whether one of the first `n` entries is for `path`.
pub open spec fn known_within(entries: Seq<(Seq<char>, u32)>, path: Seq<char>, n: int) -> bool
    decreases n,
{
    if n <= 0 {
        false
    } else {
        known_within(entries, path, n - 1) || entries[n - 1].0 == path
    }
}

/// The slot of the texture `path`.
pub open spec fn slot_of(entries: Seq<(Seq<char>, u32)>, path: Seq<char>) -> u32 {
    slot_within(entries, path, entries.len() as int)
}

proof fn lemma_slot_found(entries: Seq<(Seq<char>, u32)>, path: Seq<char>, i: int, n: int)
    requires
        0 < i <= n,
        known_within(entries, path, i),
    ensures
        known_within(entries, path, n),
        slot_within(entries, path, n) == slot_within(entries, path, i),
    decreases n - i,
{
    if i < n {
        lemma_slot_found(entries, path, i, n - 1);
    }
}

proof fn lemma_slot_unknown(entries: Seq<(Seq<char>, u32)>, path: Seq<char>, n: int)
    requires
        !known_within(entries, path, n),
    ensures
        slot_within(entries, path, n) == 0,
    decreases n,
{
    if n > 0 {
        lemma_slot_unknown(entries, path, n - 1);
    }
}

impl TextureSlots {
    /// No texture has a slot.
    pub fn new() -> (t: TextureSlots)
        ensures
            t@ == Seq::<(Seq<char>, u32)>::empty(),
    {
        let t = TextureSlots { entries: Vec::new() };
        assert(t@ =~= Seq::<(Seq<char>, u32)>::empty());
        t
    }

    /// The slot of the texture `path`, or 0 if it has none.
    pub fn get(&self, path: &String) -> (slot: u32)
        ensures
            slot == slot_of(self@, path@),
    {
        let mut i: usize = 0;
        while i < self.entries.len()
            invariant
                i <= self.entries.len(),
                !known_within(self@, path@, i as int),
            decreases self.entries.len() - i,
        {
            if self.entries[i].path == *path {
                proof {
                    lemma_slot_found(self@, path@, i + 1, self.entries.len() as int);
                }
                return self.entries[i].slot;
            }
            i += 1;
        }
        proof {
            lemma_slot_unknown(self@, path@, self.entries.len() as int);
        }
        0
    }
}

/// The word that makes a vector of three components.
pub open spec fn vec3_name(target: CompilationTarget) -> Seq<char> {
    match target {
        CompilationTarget::WGSL => "vec3"@,
        CompilationTarget::UnrealHLSL => "float3"@,
    }
}

/// How a literal is written in the source for `target`: a scalar as a
/// decimal with a fraction, a vector as the target's constructor of three
/// such decimals, a terrain as the terrain that is solid everywhere.
pub open spec fn value_text(val: Value, target: CompilationTarget) -> Seq<char> {
    match val {
        Value::Scalar(d) => d.literal_text(),
        Value::Vector(x, y, z) => vec3_name(target) + "("@ + x.literal_text() + ", "@
            + y.literal_text() + ", "@ + z.literal_text() + ")"@,
        Value::Terrain => "make_terrain(1.0)"@,
    }
}

impl Value {
    /// Writes the literal as source for `target`.
    pub fn to_string(&self, target: CompilationTarget) -> (s: String)
        ensures
            s@ == value_text(*self, target),
    {
        match self {
            Value::Scalar(d) => d.to_literal(),
            Value::Vector(x, y, z) => {
                let name = match target {
                    CompilationTarget::WGSL => "vec3",
                    CompilationTarget::UnrealHLSL => "float3",
                };
                let xs = x.to_literal();
                let ys = y.to_literal();
                let zs = z.to_literal();
                let mut s = join7(name, "(", xs.as_str(), ", ", ys.as_str(), ", ", zs.as_str());
                s.append(")");
                s
            },
            Value::Terrain => String::from_str("make_terrain(1.0)"),
        }
    }
}

/// The text that opens the source: for the first shading language the
/// helper functions and a structure for the result, for the second the
/// structure of the weights and the function that blends two of them. Both
/// state the number `n` of biomes.
pub open spec fn preamble_text(target: CompilationTarget, n: nat, lib: ShaderLibraryView) -> Seq<
    char,
> {
    match target {
        CompilationTarget::WGSL => lib.common_wgsl + lib.fnl_wgsl + "\nconst N_BIOMES = "@
            + nat_text(n) + "u;\nstruct TerrainOutput {\n    terrain: Terrain,\n    biome_w: array<f32, "@
            + nat_text(n) + ">\n}\n"@,
        CompilationTarget::UnrealHLSL => "\n#define N_BIOMES<ProjectName> "@ + nat_text(n)
            + "\nstruct BiomeWeights<ProjectName> {\n    float w[N_BIOMES<ProjectName>];\n};\n\nBiomeWeights<ProjectName> lerp_biome_w<ProjectName>(BiomeWeights<ProjectName> a, BiomeWeights<ProjectName> b, float w) {\n    BiomeWeights<ProjectName> result;\n    for(int i = 0; i < N_BIOMES<ProjectName>; i++) {\n        result.w[i] = a.w[i] * (1.0 - w) + b.w[i] * w;\n    }\n    return result;\n}\n\n#pragma once\n"@,
    }
}

/// The fixed text that closes the terrain function.
pub open spec fn postamble_text(target: CompilationTarget, lib: ShaderLibraryView) -> Seq<char> {
    match target {
        CompilationTarget::WGSL => lib.postamble_wgsl,
        CompilationTarget::UnrealHLSL => lib.postamble_ush,
    }
}

/// The fixed text that stands in for compiled source.
pub open spec fn blank_text(target: CompilationTarget, lib: ShaderLibraryView) -> Seq<char> {
    match target {
        CompilationTarget::WGSL => lib.blank_wgsl,
        CompilationTarget::UnrealHLSL => lib.blank_ush,
    }
}

/// The fixed text that opens the terrain function.
pub open spec fn opening_text(target: CompilationTarget, lib: ShaderLibraryView) -> Seq<char> {
    match target {
        CompilationTarget::WGSL => lib.preamble_wgsl,
        CompilationTarget::UnrealHLSL => lib.preamble_ush,
    }
}

/// The statement that evaluates the distribution of the biomes at the
/// point.
pub open spec fn weights_line(target: CompilationTarget) -> Seq<char> {
    match target {
        CompilationTarget::WGSL => "let biome_w = biome_distribution<ProjectName>(seed, pos);\n"@,
        CompilationTarget::UnrealHLSL =>
            "BiomeWeights<ProjectName> biome_w = biome_distribution<ProjectName>(seed, pos);\n"@,
    }
}

impl CompilationTarget {
    /// The source that is used while nothing has been compiled.
    pub fn blank_sdf<'a>(&self, lib: &'a ShaderLibrary) -> (s: &'a str)
        ensures
            s@ == blank_text(*self, lib@),
    {
        match self {
            CompilationTarget::WGSL => lib.blank_wgsl.as_str(),
            CompilationTarget::UnrealHLSL => lib.blank_ush.as_str(),
        }
    }

    /// The text that opens the source.
    pub fn preamble(&self, biomes: &Biomes, lib: &ShaderLibrary) -> (s: String)
        ensures
            s@ == preamble_text(*self, biomes@.biomes.len(), lib@),
    {
        let count = usize_to_string(biomes.biomes.len());
        match self {
            CompilationTarget::WGSL => {
                let mut s = lib.common_wgsl.clone();
                s.append(lib.fnl_wgsl.as_str());
                s.append("\nconst N_BIOMES = ");
                s.append(count.as_str());
                s.append("u;\nstruct TerrainOutput {\n    terrain: Terrain,\n    biome_w: array<f32, ");
                s.append(count.as_str());
                s.append(">\n}\n");
                s
            },
            CompilationTarget::UnrealHLSL => {
                let mut s = String::from_str("\n#define N_BIOMES<ProjectName> ");
                s.append(count.as_str());
                s.append(
                    "\nstruct BiomeWeights<ProjectName> {\n    float w[N_BIOMES<ProjectName>];\n};\n\nBiomeWeights<ProjectName> lerp_biome_w<ProjectName>(BiomeWeights<ProjectName> a, BiomeWeights<ProjectName> b, float w) {\n    BiomeWeights<ProjectName> result;\n    for(int i = 0; i < N_BIOMES<ProjectName>; i++) {\n        result.w[i] = a.w[i] * (1.0 - w) + b.w[i] * w;\n    }\n    return result;\n}\n\n#pragma once\n",
                );
                s
            },
        }
    }

    /// The text that closes the terrain function.
    pub fn postamble<'a>(&self, lib: &'a ShaderLibrary) -> (s: &'a str)
        ensures
            s@ == postamble_text(*self, lib@),
    {
        match self {
            CompilationTarget::WGSL => lib.postamble_wgsl.as_str(),
            CompilationTarget::UnrealHLSL => lib.postamble_ush.as_str(),
        }
    }
}

/// `acc` and the slots of the textures of the first `n` biomes, as the
/// elements of an array.
pub open spec fn with_slots(
    acc: Seq<char>,
    biomes: BiomesView,
    textures: Seq<(Seq<char>, u32)>,
    n: int,
) -> Seq<char>
    decreases n,
{
    if n <= 0 {
        acc
    } else {
        with_slots(acc, biomes, textures, n - 1) + nat_text(
            slot_of(textures, biomes.biomes[n - 1].texture) as nat,
        ) + "u, "@
    }
}

/// The function that reduces the weights of the biomes to two textures and a
/// blend between them. Without biomes it names slot 0 twice; one biome gives
/// its slot twice and no blend; two biomes give their slots and the share of
/// the second weight in both; more biomes are scanned once for the two
/// greatest weights, and the blend is the share of the second greatest in
/// the two.
pub open spec fn reducer_text(biomes: BiomesView, textures: Seq<(Seq<char>, u32)>) -> Seq<char> {
    let n = biomes.biomes.len();
    let head = "fn reduce_material(biome_w_: array<f32, "@ + nat_text(n)
        + ">) -> ReducedMaterial {\n\tvar biome_w = biome_w_;\n"@;
    if n == 0 {
        head + "\treturn ReducedMaterial(0, 0, 0.0);\n"@ + "}\n"@
    } else if n == 1 {
        head + "\treturn ReducedMaterial("@ + nat_text(
            slot_of(textures, biomes.biomes[0].texture) as nat,
        ) + ", "@ + nat_text(slot_of(textures, biomes.biomes[0].texture) as nat) + ", 0.0);\n"@
            + "}\n"@
    } else if n == 2 {
        head + "\treturn ReducedMaterial("@ + nat_text(
            slot_of(textures, biomes.biomes[0].texture) as nat,
        ) + ", "@ + nat_text(slot_of(textures, biomes.biomes[1].texture) as nat)
            + ", biome_w[1] / (biome_w[0] + biome_w[1]));\n"@ + "}\n"@
    } else {
        with_slots(
            head + "\tvar tex0 = 0;\n\tvar tex1 = 1;\n\tif biome_w[1] > biome_w[0] {\n\t\ttex0 = 1;\n\t\ttex1 = 0;\n\t}\n\tfor(var i = 2; i < "@ + nat_text(n)
                + "; i++) {\n\t\tif biome_w[i] > biome_w[tex0] {\n\t\t\ttex1 = tex0;\n\t\t\ttex0 = i;\n\t\t} else if biome_w[i] > biome_w[tex1] {\n\t\t\ttex1 = i;\n\t\t}\n\t}\n\tlet tex_w = biome_w[tex1] / (biome_w[tex0] + biome_w[tex1]);\n\tvar tex_slot_map = array("@,
            biomes,
            textures,
            n as int,
        ) + ");\n\treturn ReducedMaterial(tex_slot_map[tex0], tex_slot_map[tex1], tex_w);\n"@
            + "}\n"@
    }
}

fn slot_string(biomes: &Biomes, textures: &TextureSlots, i: usize) -> (s: String)
    requires
        i < biomes.biomes.len(),
    ensures
        s@ == nat_text(slot_of(textures@, biomes@.biomes[i as int].texture) as nat),
{
    let slot = textures.get(&biomes.biomes[i].texture);
    nat_to_string(slot as u128)
}

/// Appends the function that reduces the weights of the biomes to two
/// textures and a blend.
pub fn compile_texture_reducer(out: &mut String, biomes: &Biomes, textures: &TextureSlots)
    ensures
        final(out)@ == old(out)@ + reducer_text(biomes@, textures@),
{
    let n = biomes.biomes.len();
    let count = usize_to_string(n);
    let mut s = String::from_str("fn reduce_material(biome_w_: array<f32, ");
    s.append(count.as_str());
    s.append(">) -> ReducedMaterial {\n\tvar biome_w = biome_w_;\n");
    if n == 0 {
        s.append("\treturn ReducedMaterial(0, 0, 0.0);\n");
    } else if n == 1 {
        let slot = slot_string(biomes, textures, 0);
        s.append("\treturn ReducedMaterial(");
        s.append(slot.as_str());
        s.append(", ");
        s.append(slot.as_str());
        s.append(", 0.0);\n");
    } else if n == 2 {
        let slot0 = slot_string(biomes, textures, 0);
        let slot1 = slot_string(biomes, textures, 1);
        s.append("\treturn ReducedMaterial(");
        s.append(slot0.as_str());
        s.append(", ");
        s.append(slot1.as_str());
        s.append(", biome_w[1] / (biome_w[0] + biome_w[1]));\n");
    } else {
        s.append("\tvar tex0 = 0;\n\tvar tex1 = 1;\n\tif biome_w[1] > biome_w[0] {\n\t\ttex0 = 1;\n\t\ttex1 = 0;\n\t}\n\tfor(var i = 2; i < ");
        s.append(count.as_str());
        s.append(
            "; i++) {\n\t\tif biome_w[i] > biome_w[tex0] {\n\t\t\ttex1 = tex0;\n\t\t\ttex0 = i;\n\t\t} else if biome_w[i] > biome_w[tex1] {\n\t\t\ttex1 = i;\n\t\t}\n\t}\n\tlet tex_w = biome_w[tex1] / (biome_w[tex0] + biome_w[tex1]);\n\tvar tex_slot_map = array(",
        );
        let ghost start = s@;
        let mut i: usize = 0;
        while i < n
            invariant
                i <= n,
                n == biomes.biomes.len(),
                s@ == with_slots(start, biomes@, textures@, i as int),
            decreases n - i,
        {
            let slot = slot_string(biomes, textures, i);
            s.append(slot.as_str());
            s.append("u, ");
            i += 1;
        }
        s.append(");\n\treturn ReducedMaterial(tex_slot_map[tex0], tex_slot_map[tex1], tex_w);\n");
    }
    s.append("}\n");
    out.append(s.as_str());
}

/// The name that stands for the project in the source: none in the first
/// shading language, the given name or a default in the second.
pub open spec fn scope_name(target: CompilationTarget, project_name: Option<Seq<char>>) -> Seq<char> {
    match target {
        CompilationTarget::WGSL => ""@,
        CompilationTarget::UnrealHLSL => match project_name {
            Some(name) => name,
            None => DEFAULT_PROJECT_NAME@,
        },
    }
}

/// What follows the closing of the terrain function: in the first shading
/// language the function that reduces the weights to textures, in the second
/// a fixed text.
pub open spec fn ending_text(
    target: CompilationTarget,
    biomes: BiomesView,
    textures: Seq<(Seq<char>, u32)>,
    lib: ShaderLibraryView,
) -> Seq<char> {
    match target {
        CompilationTarget::WGSL => reducer_text(biomes, textures),
        CompilationTarget::UnrealHLSL => lib.vertex_color_ush,
    }
}

/// The source before the name of the project is put in.
pub open spec fn unscoped_text(
    g: GraphView,
    biomes: BiomesView,
    textures: Seq<(Seq<char>, u32)>,
    target: CompilationTarget,
    lib: ShaderLibraryView,
) -> Seq<char> {
    preamble_text(target, biomes.biomes.len(), lib) + distribution_text(biomes, target)
        + opening_text(target, lib) + "\n"@ + weights_line(target) + parameters_text(biomes, target)
        + graph_text(g, target, biomes) + postamble_text(target, lib) + ending_text(
        target,
        biomes,
        textures,
        lib,
    )
}

/// The whole source for `target`: [`unscoped_text`] with every token that
/// stands for the name of the project replaced by [`scope_name`].
pub open spec fn compile_text(
    g: GraphView,
    biomes: BiomesView,
    textures: Seq<(Seq<char>, u32)>,
    target: CompilationTarget,
    project_name: Option<Seq<char>>,
    lib: ShaderLibraryView,
) -> Seq<char> {
    replace_all(
        unscoped_text(g, biomes, textures, target, lib),
        PROJECT_NAME_TOKEN@,
        scope_name(target, project_name),
    )
}

/// What `project_name` holds as a sequence, if it holds a name.
pub open spec fn name_view(project_name: Option<&str>) -> Option<Seq<char>> {
    match project_name {
        Some(name) => Some(name@),
        None => None,
    }
}

/// Compiles the graph and the biome table to source for `target`. The
/// source is a function of the arguments: two calls with equal graph, table,
/// slots, target, name and fixed text give the same source.
pub fn compile(
    graph: &TerrainGraph,
    biomes: &Biomes,
    textures: &TextureSlots,
    target: CompilationTarget,
    project_name: Option<&str>,
    lib: &ShaderLibrary,
) -> (source: String)
    requires
        graph.wf(),
        biomes@.biomes.len() <= MAX_BIOMES,
    ensures
        source@ == compile_text(graph@, biomes@, textures@, target, name_view(project_name), lib@),
{
    let mut out = target.preamble(biomes, lib);
    compile_biome_distribution(&mut out, biomes, target);
    match target {
        CompilationTarget::WGSL => {
            out.append(lib.preamble_wgsl.as_str());
            out.append("\n");
            out.append("let biome_w = biome_distribution<ProjectName>(seed, pos);\n");
        },
        CompilationTarget::UnrealHLSL => {
            out.append(lib.preamble_ush.as_str());
            out.append("\n");
            out.append(
                "BiomeWeights<ProjectName> biome_w = biome_distribution<ProjectName>(seed, pos);\n",
            );
        },
    }
    compile_biome_parameters(&mut out, biomes, target);
    compile_graph(&mut out, graph, target, &GraphProjectInfo { biomes });
    out.append(target.postamble(lib));
    proof {
        reveal_strlit("<ProjectName>");
    }
    match target {
        CompilationTarget::WGSL => {
            compile_texture_reducer(&mut out, biomes, textures);
            replace_text(out.as_str(), PROJECT_NAME_TOKEN, "")
        },
        CompilationTarget::UnrealHLSL => {
            out.append(lib.vertex_color_ush.as_str());
            let name = match project_name {
                Some(name) => name,
                None => DEFAULT_PROJECT_NAME,
            };
            replace_text(out.as_str(), PROJECT_NAME_TOKEN, name)
        },
    }
}

} // verus!
