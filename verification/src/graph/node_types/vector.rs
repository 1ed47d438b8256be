//! Vector algebra nodes.

use vstd::prelude::*;
use vstd::string::*;
use crate::compiler::CompilationTarget;
use crate::graph::node_types::{
    scalar_decl, spec_scalar_decl, spec_vector_decl, vector_decl, Category, NodeKind,
};
use crate::text::{join3, join5, join7};

verus! {

/// The word that declares the output of a vector node. The element-wise
/// operations and the cross product declare theirs as the scalar operations
/// do.
pub open spec fn vector_decl_of(kind: NodeKind, target: CompilationTarget) -> Seq<char> {
    match kind {
        NodeKind::CombineXYZ | NodeKind::Normalize | NodeKind::Position => spec_vector_decl(
            target,
        ),
        _ => spec_scalar_decl(target),
    }
}

/// The expression of a vector node with one output.
pub open spec fn vector_expr(kind: NodeKind, target: CompilationTarget, a: Seq<Seq<char>>) -> Seq<
    char,
> {
    match kind {
        NodeKind::CombineXYZ => match target {
            CompilationTarget::WGSL => "vec3("@ + a[0] + ", "@ + a[1] + ", "@ + a[2] + ")"@,
            CompilationTarget::UnrealHLSL => "float3("@ + a[0] + ", "@ + a[1] + ", "@ + a[2]
                + ")"@,
        },
        NodeKind::VectorAdd => a[0] + " + "@ + a[1],
        NodeKind::VectorSubtract => a[0] + " - "@ + a[1],
        NodeKind::VectorScale => a[0] + " * "@ + a[1],
        NodeKind::VectorMultiply => a[0] + " * "@ + a[1],
        NodeKind::DotProduct => "dot("@ + a[0] + ", "@ + a[1] + ")"@,
        NodeKind::CrossProduct => "cross("@ + a[0] + ", "@ + a[1] + ")"@,
        NodeKind::Length => "length("@ + a[0] + ")"@,
        NodeKind::Distance => "distance("@ + a[0] + ", "@ + a[1] + ")"@,
        NodeKind::Normalize => "normalize("@ + a[0] + ")"@,
        NodeKind::Position => "pos"@,
        _ => Seq::empty(),
    }
}

/// The statement that sets one output to one component of a vector.
pub open spec fn component_text(
    target: CompilationTarget,
    out: Seq<char>,
    vec: Seq<char>,
    field: Seq<char>,
) -> Seq<char> {
    "\t"@ + spec_scalar_decl(target) + " "@ + out + " = "@ + vec + field
}

/// The statements of a vector node. The node that takes a vector apart has
/// one statement for each component; every other kind declares its output and
/// sets it to [`vector_expr`].
pub open spec fn vector_text(
    kind: NodeKind,
    target: CompilationTarget,
    args: Seq<Seq<char>>,
    outs: Seq<Seq<char>>,
) -> Seq<char> {
    match kind {
        NodeKind::SeparateXYZ => component_text(target, outs[0], args[0], ".x;\n"@)
            + component_text(target, outs[1], args[0], ".y;\n"@) + component_text(
            target,
            outs[2],
            args[0],
            ".z;\n"@,
        ),
        _ => "\t"@ + vector_decl_of(kind, target) + " "@ + outs[0] + " = "@ + vector_expr(
            kind,
            target,
            args,
        ) + ";\n"@,
    }
}

fn vector_expr_string(kind: NodeKind, target: CompilationTarget, args: &Vec<String>) -> (s: String)
    requires
        kind.spec_category() == Category::VectorMath,
        kind != NodeKind::SeparateXYZ,
        args@.len() == kind.spec_input_types().len(),
    ensures
        s@ == vector_expr(kind, target, args.deep_view()),
{
    match kind {
        NodeKind::CombineXYZ => match target {
            CompilationTarget::WGSL => join7(
                "vec3(",
                args[0].as_str(),
                ", ",
                args[1].as_str(),
                ", ",
                args[2].as_str(),
                ")",
            ),
            CompilationTarget::UnrealHLSL => join7(
                "float3(",
                args[0].as_str(),
                ", ",
                args[1].as_str(),
                ", ",
                args[2].as_str(),
                ")",
            ),
        },
        NodeKind::VectorAdd => join3(args[0].as_str(), " + ", args[1].as_str()),
        NodeKind::VectorSubtract => join3(args[0].as_str(), " - ", args[1].as_str()),
        NodeKind::VectorScale => join3(args[0].as_str(), " * ", args[1].as_str()),
        NodeKind::VectorMultiply => join3(args[0].as_str(), " * ", args[1].as_str()),
        NodeKind::DotProduct => join5("dot(", args[0].as_str(), ", ", args[1].as_str(), ")"),
        NodeKind::CrossProduct => join5("cross(", args[0].as_str(), ", ", args[1].as_str(), ")"),
        NodeKind::Length => join3("length(", args[0].as_str(), ")"),
        NodeKind::Distance => join5("distance(", args[0].as_str(), ", ", args[1].as_str(), ")"),
        NodeKind::Normalize => join3("normalize(", args[0].as_str(), ")"),
        NodeKind::Position => String::from_str("pos"),
        _ => String::new(),
    }
}

fn component_string(target: CompilationTarget, out: &str, vec: &str, field: &str) -> (s: String)
    ensures
        s@ == component_text(target, out@, vec@, field@),
{
    join7("\t", scalar_decl(target), " ", out, " = ", vec, field)
}

/// Writes the statements of a vector node.
pub fn emit_vector(
    kind: NodeKind,
    target: CompilationTarget,
    args: &Vec<String>,
    outs: &Vec<String>,
) -> (s: String)
    requires
        kind.spec_category() == Category::VectorMath,
        args@.len() == kind.spec_input_types().len(),
        outs@.len() == kind.spec_output_types().len(),
    ensures
        s@ == vector_text(kind, target, args.deep_view(), outs.deep_view()),
{
    match kind {
        NodeKind::SeparateXYZ => {
            let mut s = component_string(target, outs[0].as_str(), args[0].as_str(), ".x;\n");
            let y = component_string(target, outs[1].as_str(), args[0].as_str(), ".y;\n");
            let z = component_string(target, outs[2].as_str(), args[0].as_str(), ".z;\n");
            s.append(y.as_str());
            s.append(z.as_str());
            s
        },
        _ => {
            let decl = match kind {
                NodeKind::CombineXYZ | NodeKind::Normalize | NodeKind::Position => vector_decl(
                    target,
                ),
                _ => scalar_decl(target),
            };
            let expr = vector_expr_string(kind, target, args);
            join7("\t", decl, " ", outs[0].as_str(), " = ", expr.as_str(), ";\n")
        },
    }
}

} // verus!
