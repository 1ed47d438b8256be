//! Fractal noise nodes.

use vstd::prelude::*;
use vstd::string::*;
use crate::compiler::CompilationTarget;
use crate::graph::node_types::{Category, NodeKind};
use crate::text::join3;

verus! {

/// Number of octaves that a noise node sums.
pub const OCTAVES: usize = 4;

/// `base` multiplied `n` times by `factor`, written out as a product.
pub open spec fn scaled(base: Seq<char>, factor: Seq<char>, n: nat) -> Seq<char>
    decreases n,
{
    if n == 0 {
        base
    } else {
        scaled(base, factor, (n - 1) as nat) + " * "@ + factor
    }
}

/// What the sample position is multiplied by before it is scaled: nothing in
/// three dimensions, a mask that drops the height in two.
pub open spec fn plane_mask(kind: NodeKind, target: CompilationTarget) -> Seq<char> {
    match kind {
        NodeKind::Noise2D => match target {
            CompilationTarget::WGSL => "vec3(1.0, 0.0, 1.0) * "@,
            CompilationTarget::UnrealHLSL => "float3(1.0, 0.0, 1.0) * "@,
        },
        _ => Seq::empty(),
    }
}

/// `acc` followed by the first `n` octaves. Octave `k` samples at the size
/// multiplied `k` times by the lacunarity and weighs the sample by the
/// amplitude multiplied `k` times by the gain.
pub open spec fn with_octaves(
    acc: Seq<char>,
    mask: Seq<char>,
    args: Seq<Seq<char>>,
    n: nat,
) -> Seq<char>
    decreases n,
{
    if n == 0 {
        acc
    } else {
        with_octaves(acc, mask, args, (n - 1) as nat) + "+ "@ + scaled(
            args[2],
            args[4],
            (n - 1) as nat,
        ) + " * noise01(seed, "@ + mask + args[0] + " * max("@ + scaled(
            args[1],
            args[3],
            (n - 1) as nat,
        ) + " * 0.2, 0.0))"@
    }
}

/// The word that declares the sum of the octaves.
pub open spec fn noise_decl(target: CompilationTarget) -> Seq<char> {
    match target {
        CompilationTarget::WGSL => "\tvar "@,
        CompilationTarget::UnrealHLSL => "\tfloat "@,
    }
}

/// The statement of a noise node: a sum that starts at zero and adds
/// [`OCTAVES`] octaves.
pub open spec fn noise_text(
    kind: NodeKind,
    target: CompilationTarget,
    args: Seq<Seq<char>>,
    outs: Seq<Seq<char>>,
) -> Seq<char> {
    with_octaves(
        noise_decl(target) + outs[0] + " = 0.0"@,
        plane_mask(kind, target),
        args,
        OCTAVES as nat,
    ) + ";\n"@
}

/// Writes the statement of a noise node.
pub fn emit_noise(
    kind: NodeKind,
    target: CompilationTarget,
    args: &Vec<String>,
    outs: &Vec<String>,
) -> (s: String)
    requires
        kind.spec_category() == Category::Noise,
        args@.len() == kind.spec_input_types().len(),
        outs@.len() == kind.spec_output_types().len(),
    ensures
        s@ == noise_text(kind, target, args.deep_view(), outs.deep_view()),
{
    let decl = match target {
        CompilationTarget::WGSL => "\tvar ",
        CompilationTarget::UnrealHLSL => "\tfloat ",
    };
    let mask = match kind {
        NodeKind::Noise2D => match target {
            CompilationTarget::WGSL => "vec3(1.0, 0.0, 1.0) * ",
            CompilationTarget::UnrealHLSL => "float3(1.0, 0.0, 1.0) * ",
        },
        _ => "",
    };
    proof {
        reveal_strlit("");
        assert(""@ =~= Seq::<char>::empty());
    }
    let mut s = join3(decl, outs[0].as_str(), " = 0.0");
    let mut size = args[1].clone();
    let mut amp = args[2].clone();
    let ghost start = s@;
    let mut i: usize = 0;
    while i < OCTAVES
        invariant
            i <= OCTAVES,
            args@.len() == 5,
            mask@ == plane_mask(kind, target),
            s@ == with_octaves(start, mask@, args.deep_view(), i as nat),
            size@ == scaled(args.deep_view()[1], args.deep_view()[3], i as nat),
            amp@ == scaled(args.deep_view()[2], args.deep_view()[4], i as nat),
        decreases OCTAVES - i,
    {
        s.append("+ ");
        s.append(amp.as_str());
        s.append(" * noise01(seed, ");
        s.append(mask);
        s.append(args[0].as_str());
        s.append(" * max(");
        s.append(size.as_str());
        s.append(" * 0.2, 0.0))");
        size.append(" * ");
        size.append(args[3].as_str());
        amp.append(" * ");
        amp.append(args[4].as_str());
        i += 1;
    }
    s.append(";\n");
    s
}

} // verus!
