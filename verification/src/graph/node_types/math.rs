//! Scalar arithmetic, comparison and rounding nodes.

use vstd::prelude::*;
use vstd::string::*;
use crate::compiler::CompilationTarget;
use crate::graph::node_types::{scalar_decl, spec_scalar_decl, Category, NodeKind};
use crate::text::{join3, join5, join7};

verus! {

/// The expression that a math node computes from its arguments. Division and
/// the base of a logarithm go through `dezero`, so that a zero never reaches
/// them.
pub open spec fn math_expr(kind: NodeKind, target: CompilationTarget, a: Seq<Seq<char>>) -> Seq<
    char,
> {
    match kind {
        NodeKind::Add => a[0] + " + "@ + a[1],
        NodeKind::Subtract => a[0] + " - "@ + a[1],
        NodeKind::Multiply => a[0] + " * "@ + a[1],
        NodeKind::Divide => a[0] + " / dezero("@ + a[1] + ")"@,
        NodeKind::Power => "pow("@ + a[0] + ", "@ + a[1] + ")"@,
        NodeKind::Log => "log("@ + a[1] + ") / log(dezero("@ + a[0] + "))"@,
        NodeKind::Min => "min("@ + a[0] + ", "@ + a[1] + ")"@,
        NodeKind::Max => "max("@ + a[0] + ", "@ + a[1] + ")"@,
        NodeKind::GreaterThan => match target {
            CompilationTarget::WGSL => "select(0.0, 1.0, "@ + a[0] + " > "@ + a[1] + ")"@,
            CompilationTarget::UnrealHLSL => a[0] + " > "@ + a[1] + " ? 1.0 : 0.0"@,
        },
        NodeKind::LessThan => match target {
            CompilationTarget::WGSL => "select(0.0, 1.0, "@ + a[0] + " < "@ + a[1] + ")"@,
            CompilationTarget::UnrealHLSL => a[0] + " < "@ + a[1] + " ? 1.0 : 0.0"@,
        },
        NodeKind::Equal => match target {
            CompilationTarget::WGSL => "select(0.0, 1.0, abs("@ + a[0] + " - "@ + a[1] + ") < "@
                + a[2] + ")"@,
            CompilationTarget::UnrealHLSL => "(abs("@ + a[0] + " - "@ + a[1] + ") < "@ + a[2]
                + ") ? 1.0 : 0.0"@,
        },
        NodeKind::Floor => "floor("@ + a[0] + ")"@,
        NodeKind::Round => "round("@ + a[0] + ")"@,
        NodeKind::Ceil => "ceil("@ + a[0] + ")"@,
        NodeKind::Frac => match target {
            CompilationTarget::WGSL => "fract("@ + a[0] + ")"@,
            CompilationTarget::UnrealHLSL => "frac("@ + a[0] + ")"@,
        },
        NodeKind::Abs => "abs("@ + a[0] + ")"@,
        NodeKind::Sign => "sign("@ + a[0] + ")"@,
        NodeKind::Clamp => "clamp("@ + a[0] + ", "@ + a[1] + ", "@ + a[2] + ")"@,
        NodeKind::Lerp => match target {
            CompilationTarget::WGSL => "mix("@ + a[1] + ", "@ + a[2] + ", "@ + a[0] + ")"@,
            CompilationTarget::UnrealHLSL => "lerp("@ + a[1] + ", "@ + a[2] + ", "@ + a[0] + ")"@,
        },
        NodeKind::MapRange => a[1] + " + ("@ + a[0] + " - "@ + a[1] + ") * ("@ + a[4] + " - "@
            + a[3] + ") / ("@ + a[2] + " - "@ + a[1] + ")"@,
        _ => Seq::empty(),
    }
}

/// The statement of a math node: its one output is declared and set to
/// [`math_expr`].
pub open spec fn math_text(
    kind: NodeKind,
    target: CompilationTarget,
    args: Seq<Seq<char>>,
    outs: Seq<Seq<char>>,
) -> Seq<char> {
    "\t"@ + spec_scalar_decl(target) + " "@ + outs[0] + " = "@ + math_expr(kind, target, args)
        + ";\n"@
}

fn math_expr_string(kind: NodeKind, target: CompilationTarget, args: &Vec<String>) -> (s: String)
    requires
        kind.spec_category() == Category::Math,
        args@.len() == kind.spec_input_types().len(),
    ensures
        s@ == math_expr(kind, target, args.deep_view()),
{
    match kind {
        NodeKind::Add => join3(args[0].as_str(), " + ", args[1].as_str()),
        NodeKind::Subtract => join3(args[0].as_str(), " - ", args[1].as_str()),
        NodeKind::Multiply => join3(args[0].as_str(), " * ", args[1].as_str()),
        NodeKind::Divide => {
            let mut s = join3(args[0].as_str(), " / dezero(", args[1].as_str());
            s.append(")");
            s
        },
        NodeKind::Power => join5("pow(", args[0].as_str(), ", ", args[1].as_str(), ")"),
        NodeKind::Log => join5("log(", args[1].as_str(), ") / log(dezero(", args[0].as_str(), "))"),
        NodeKind::Min => join5("min(", args[0].as_str(), ", ", args[1].as_str(), ")"),
        NodeKind::Max => join5("max(", args[0].as_str(), ", ", args[1].as_str(), ")"),
        NodeKind::GreaterThan => match target {
            CompilationTarget::WGSL => join5(
                "select(0.0, 1.0, ",
                args[0].as_str(),
                " > ",
                args[1].as_str(),
                ")",
            ),
            CompilationTarget::UnrealHLSL => {
                let mut s = join3(args[0].as_str(), " > ", args[1].as_str());
                s.append(" ? 1.0 : 0.0");
                s
            },
        },
        NodeKind::LessThan => match target {
            CompilationTarget::WGSL => join5(
                "select(0.0, 1.0, ",
                args[0].as_str(),
                " < ",
                args[1].as_str(),
                ")",
            ),
            CompilationTarget::UnrealHLSL => {
                let mut s = join3(args[0].as_str(), " < ", args[1].as_str());
                s.append(" ? 1.0 : 0.0");
                s
            },
        },
        NodeKind::Equal => match target {
            CompilationTarget::WGSL => join7(
                "select(0.0, 1.0, abs(",
                args[0].as_str(),
                " - ",
                args[1].as_str(),
                ") < ",
                args[2].as_str(),
                ")",
            ),
            CompilationTarget::UnrealHLSL => join7(
                "(abs(",
                args[0].as_str(),
                " - ",
                args[1].as_str(),
                ") < ",
                args[2].as_str(),
                ") ? 1.0 : 0.0",
            ),
        },
        NodeKind::Floor => join3("floor(", args[0].as_str(), ")"),
        NodeKind::Round => join3("round(", args[0].as_str(), ")"),
        NodeKind::Ceil => join3("ceil(", args[0].as_str(), ")"),
        NodeKind::Frac => match target {
            CompilationTarget::WGSL => join3("fract(", args[0].as_str(), ")"),
            CompilationTarget::UnrealHLSL => join3("frac(", args[0].as_str(), ")"),
        },
        NodeKind::Abs => join3("abs(", args[0].as_str(), ")"),
        NodeKind::Sign => join3("sign(", args[0].as_str(), ")"),
        NodeKind::Clamp => join7(
            "clamp(",
            args[0].as_str(),
            ", ",
            args[1].as_str(),
            ", ",
            args[2].as_str(),
            ")",
        ),
        NodeKind::Lerp => match target {
            CompilationTarget::WGSL => join7(
                "mix(",
                args[1].as_str(),
                ", ",
                args[2].as_str(),
                ", ",
                args[0].as_str(),
                ")",
            ),
            CompilationTarget::UnrealHLSL => join7(
                "lerp(",
                args[1].as_str(),
                ", ",
                args[2].as_str(),
                ", ",
                args[0].as_str(),
                ")",
            ),
        },
        NodeKind::MapRange => {
            let mut s = join7(
                args[1].as_str(),
                " + (",
                args[0].as_str(),
                " - ",
                args[1].as_str(),
                ") * (",
                args[4].as_str(),
            );
            s.append(" - ");
            s.append(args[3].as_str());
            s.append(") / (");
            s.append(args[2].as_str());
            s.append(" - ");
            s.append(args[1].as_str());
            s.append(")");
            s
        },
        _ => String::new(),
    }
}

/// Writes the statement of a math node.
pub fn emit_math(
    kind: NodeKind,
    target: CompilationTarget,
    args: &Vec<String>,
    outs: &Vec<String>,
) -> (s: String)
    requires
        kind.spec_category() == Category::Math,
        args@.len() == kind.spec_input_types().len(),
        outs@.len() == kind.spec_output_types().len(),
    ensures
        s@ == math_text(kind, target, args.deep_view(), outs.deep_view()),
{
    let expr = math_expr_string(kind, target, args);
    join7("\t", scalar_decl(target), " ", outs[0].as_str(), " = ", expr.as_str(), ";\n")
}

} // verus!
