//! Nodes that sample a height field.

use vstd::prelude::*;
use vstd::string::*;
use crate::compiler::CompilationTarget;
use crate::graph::node_types::{scalar_decl, spec_scalar_decl, Category, NodeKind};
use crate::text::join7;

verus! {

/// The primitive that a heightmap node calls.
pub open spec fn heightmap_fn(kind: NodeKind) -> Seq<char> {
    match kind {
        NodeKind::NoiseHeightmap => "noise_height(seed, pos, "@,
        _ => "ridge_height(seed, pos, "@,
    }
}

/// The statement of a heightmap node: the primitive is called with the
/// lower bound, the upper bound and the scale, in that order.
pub open spec fn heightmap_text(
    kind: NodeKind,
    target: CompilationTarget,
    args: Seq<Seq<char>>,
    outs: Seq<Seq<char>>,
) -> Seq<char> {
    "\t"@ + spec_scalar_decl(target) + " "@ + outs[0] + " = "@ + (heightmap_fn(kind) + args[1]
        + ", "@ + args[2] + ", "@ + args[0] + ")"@) + ";\n"@
}

/// Writes the statement of a heightmap node.
pub fn emit_heightmap(
    kind: NodeKind,
    target: CompilationTarget,
    args: &Vec<String>,
    outs: &Vec<String>,
) -> (s: String)
    requires
        kind.spec_category() == Category::Heightmap,
        args@.len() == kind.spec_input_types().len(),
        outs@.len() == kind.spec_output_types().len(),
    ensures
        s@ == heightmap_text(kind, target, args.deep_view(), outs.deep_view()),
{
    let name = match kind {
        NodeKind::NoiseHeightmap => "noise_height(seed, pos, ",
        _ => "ridge_height(seed, pos, ",
    };
    let expr = join7(
        name,
        args[1].as_str(),
        ", ",
        args[2].as_str(),
        ", ",
        args[0].as_str(),
        ")",
    );
    join7("\t", scalar_decl(target), " ", outs[0].as_str(), " = ", expr.as_str(), ";\n")
}

} // verus!
