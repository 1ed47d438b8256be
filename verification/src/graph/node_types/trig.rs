//! Trigonometric nodes.

use vstd::prelude::*;
use vstd::string::*;
use crate::compiler::CompilationTarget;
use crate::graph::node_types::{scalar_decl, spec_scalar_decl, Category, NodeKind};
use crate::text::{join3, join7};

verus! {

/// The intrinsic that a trigonometric node calls, with its opening bracket.
pub open spec fn trig_fn(kind: NodeKind) -> Seq<char> {
    match kind {
        NodeKind::Sin => "sin("@,
        NodeKind::Cos => "cos("@,
        NodeKind::Tan => "tan("@,
        NodeKind::Asin => "asin("@,
        NodeKind::Acos => "acos("@,
        _ => "atan("@,
    }
}

/// The statement of a trigonometric node.
pub open spec fn trig_text(
    kind: NodeKind,
    target: CompilationTarget,
    args: Seq<Seq<char>>,
    outs: Seq<Seq<char>>,
) -> Seq<char> {
    "\t"@ + spec_scalar_decl(target) + " "@ + outs[0] + " = "@ + (trig_fn(kind) + args[0] + ")"@)
        + ";\n"@
}

/// Writes the statement of a trigonometric node.
pub fn emit_trig(
    kind: NodeKind,
    target: CompilationTarget,
    args: &Vec<String>,
    outs: &Vec<String>,
) -> (s: String)
    requires
        kind.spec_category() == Category::Trig,
        args@.len() == kind.spec_input_types().len(),
        outs@.len() == kind.spec_output_types().len(),
    ensures
        s@ == trig_text(kind, target, args.deep_view(), outs.deep_view()),
{
    let name = match kind {
        NodeKind::Sin => "sin(",
        NodeKind::Cos => "cos(",
        NodeKind::Tan => "tan(",
        NodeKind::Asin => "asin(",
        NodeKind::Acos => "acos(",
        _ => "atan(",
    };
    let expr = join3(name, args[0].as_str(), ")");
    join7("\t", scalar_decl(target), " ", outs[0].as_str(), " = ", expr.as_str(), ";\n")
}

} // verus!
