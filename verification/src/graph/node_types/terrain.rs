//! Nodes that make, combine and convert terrains.

use vstd::prelude::*;
use vstd::string::*;
use crate::compiler::CompilationTarget;
use crate::graph::node_types::{
    scalar_decl, spec_scalar_decl, spec_terrain_decl, terrain_decl, Category, NodeKind,
};
use crate::text::{join3, join5, join7};

verus! {

/// The expression of a terrain node whose one output is a terrain.
pub open spec fn terrain_expr(kind: NodeKind, a: Seq<Seq<char>>) -> Seq<char> {
    match kind {
        NodeKind::HeightmapTerrain => "make_terrain(2.0 * smoothstep(-2.5, 2.5, pos.y - "@ + a[0]
            + ") - 1.0)"@,
        NodeKind::FractalNoiseTerrain => "make_terrain(cool_noise(seed, pos * "@ + a[0] + "))"@,
        NodeKind::BlobCaveTerrain => "make_terrain(blob_cave_noise(seed, pos * "@ + a[0] + "))"@,
        NodeKind::SpaghettiCaveTerrain => "make_terrain(spaghetti_cave_noise(seed, pos * "@ + a[0]
            + "))"@,
        NodeKind::InvertTerrain => "terrain_invert("@ + a[0] + ")"@,
        NodeKind::ErodeTerrain => "terrain_erode("@ + a[0] + ", "@ + a[1] + ")"@,
        NodeKind::TerrainUnion => "terrain_union("@ + a[0] + ", "@ + a[1] + ")"@,
        NodeKind::TerrainIntersection => "terrain_intersect("@ + a[0] + ", "@ + a[1] + ")"@,
        _ => Seq::empty(),
    }
}

/// The statements of a terrain node. The output node sets the terminal
/// symbol `terrain_out`; the two converters read or set the distance field of
/// a terrain; every other kind declares its output and sets it to
/// [`terrain_expr`].
pub open spec fn terrain_text(
    kind: NodeKind,
    target: CompilationTarget,
    args: Seq<Seq<char>>,
    outs: Seq<Seq<char>>,
) -> Seq<char> {
    match kind {
        NodeKind::TerrainOutput => match target {
            CompilationTarget::WGSL => "\tterrain_out.terrain = "@ + args[0] + ";\n"@,
            CompilationTarget::UnrealHLSL => "\tterrain_out = "@ + args[0] + ";\n"@,
        },
        NodeKind::TerrainToSDF => "\t"@ + spec_scalar_decl(target) + " "@ + outs[0] + " = "@
            + args[0] + ".sdf;\n"@,
        NodeKind::SDFToTerrain => match target {
            CompilationTarget::WGSL => "\tlet "@ + outs[0] + " = Terrain("@ + args[0] + ");\n"@,
            CompilationTarget::UnrealHLSL => "\tTerrain "@ + outs[0] + ";\n\t"@ + outs[0]
                + ".sdf = "@ + args[0] + ";\n"@,
        },
        _ => "\t"@ + spec_terrain_decl(target) + " "@ + outs[0] + " = "@ + terrain_expr(kind, args)
            + ";\n"@,
    }
}

fn terrain_expr_string(kind: NodeKind, args: &Vec<String>) -> (s: String)
    requires
        kind.spec_category() == Category::Terrain,
        args@.len() == kind.spec_input_types().len(),
    ensures
        s@ == terrain_expr(kind, args.deep_view()),
{
    match kind {
        NodeKind::HeightmapTerrain => join3(
            "make_terrain(2.0 * smoothstep(-2.5, 2.5, pos.y - ",
            args[0].as_str(),
            ") - 1.0)",
        ),
        NodeKind::FractalNoiseTerrain => join3(
            "make_terrain(cool_noise(seed, pos * ",
            args[0].as_str(),
            "))",
        ),
        NodeKind::BlobCaveTerrain => join3(
            "make_terrain(blob_cave_noise(seed, pos * ",
            args[0].as_str(),
            "))",
        ),
        NodeKind::SpaghettiCaveTerrain => join3(
            "make_terrain(spaghetti_cave_noise(seed, pos * ",
            args[0].as_str(),
            "))",
        ),
        NodeKind::InvertTerrain => join3("terrain_invert(", args[0].as_str(), ")"),
        NodeKind::ErodeTerrain => join5(
            "terrain_erode(",
            args[0].as_str(),
            ", ",
            args[1].as_str(),
            ")",
        ),
        NodeKind::TerrainUnion => join5(
            "terrain_union(",
            args[0].as_str(),
            ", ",
            args[1].as_str(),
            ")",
        ),
        NodeKind::TerrainIntersection => join5(
            "terrain_intersect(",
            args[0].as_str(),
            ", ",
            args[1].as_str(),
            ")",
        ),
        _ => String::new(),
    }
}

/// Writes the statements of a terrain node.
pub fn emit_terrain(
    kind: NodeKind,
    target: CompilationTarget,
    args: &Vec<String>,
    outs: &Vec<String>,
) -> (s: String)
    requires
        kind.spec_category() == Category::Terrain,
        args@.len() == kind.spec_input_types().len(),
        outs@.len() == kind.spec_output_types().len(),
    ensures
        s@ == terrain_text(kind, target, args.deep_view(), outs.deep_view()),
{
    match kind {
        NodeKind::TerrainOutput => match target {
            CompilationTarget::WGSL => join3("\tterrain_out.terrain = ", args[0].as_str(), ";\n"),
            CompilationTarget::UnrealHLSL => join3("\tterrain_out = ", args[0].as_str(), ";\n"),
        },
        NodeKind::TerrainToSDF => join7(
            "\t",
            scalar_decl(target),
            " ",
            outs[0].as_str(),
            " = ",
            args[0].as_str(),
            ".sdf;\n",
        ),
        NodeKind::SDFToTerrain => match target {
            CompilationTarget::WGSL => join5(
                "\tlet ",
                outs[0].as_str(),
                " = Terrain(",
                args[0].as_str(),
                ");\n",
            ),
            CompilationTarget::UnrealHLSL => join7(
                "\tTerrain ",
                outs[0].as_str(),
                ";\n\t",
                outs[0].as_str(),
                ".sdf = ",
                args[0].as_str(),
                ";\n",
            ),
        },
        _ => {
            let expr = terrain_expr_string(kind, args);
            join7("\t", terrain_decl(target), " ", outs[0].as_str(), " = ", expr.as_str(), ";\n")
        },
    }
}

} // verus!
