//! Nodes that read the biome table: a blended parameter, or the weight of one
//! biome.

use vstd::prelude::*;
use vstd::string::*;
use crate::compiler::CompilationTarget;
use crate::graph::node_types::{scalar_decl, spec_scalar_decl};
use crate::text::{join5, nat_text, usize_to_string};

verus! {

/// Which declared parameter a parameter node reads, by name.
#[derive(Clone, PartialEq, Eq, Debug)]
pub struct BiomeParameter {
    pub param: String,
}

/// Which biome a weight node reads, by its place in the table.
#[derive(Clone, Copy, PartialEq, Eq, Structural, Debug)]
pub struct BiomeWeight {
    pub biome_idx: usize,
}

/// The place of the first of the first `n` names that equals `name`, or -1.
pub open spec fn position_within(names: Seq<Seq<char>>, name: Seq<char>, n: int) -> int
    decreases n,
{
    if n <= 0 {
        -1
    } else if position_within(names, name, n - 1) >= 0 {
        position_within(names, name, n - 1)
    } else if names[n - 1] == name {
        n - 1
    } else {
        -1
    }
}

/// The place of the first name that equals `name`, or -1.
pub open spec fn position_of(names: Seq<Seq<char>>, name: Seq<char>) -> int {
    position_within(names, name, names.len() as int)
}

proof fn lemma_position_found(names: Seq<Seq<char>>, name: Seq<char>, i: int, n: int)
    requires
        0 < i <= n,
        position_within(names, name, i) >= 0,
    ensures
        position_within(names, name, n) == position_within(names, name, i),
    decreases n - i,
{
    if i < n {
        lemma_position_found(names, name, i, n - 1);
    }
}

/// A position that was found lies within the names and holds the name.
pub proof fn lemma_position_of_bounds(names: Seq<Seq<char>>, name: Seq<char>, n: int)
    requires
        0 <= n <= names.len(),
    ensures
        -1 <= position_within(names, name, n) < n,
        position_within(names, name, n) >= 0 ==> names[position_within(names, name, n)] == name,
    decreases n,
{
    if n > 0 {
        lemma_position_of_bounds(names, name, n - 1);
    }
}

/// The place of the first of `names` that equals `name`.
pub fn find_name(names: &Vec<String>, name: &String) -> (found: Option<usize>)
    ensures
        match found {
            Some(i) => i as int == position_of(names.deep_view(), name@),
            None => position_of(names.deep_view(), name@) == -1,
        },
{
    let mut i: usize = 0;
    while i < names.len()
        invariant
            i <= names.len(),
            position_within(names.deep_view(), name@, i as int) == -1,
        decreases names.len() - i,
    {
        if names[i] == *name {
            proof {
                lemma_position_found(names.deep_view(), name@, i + 1, names.len() as int);
            }
            return Some(i);
        }
        i += 1;
    }
    None
}

/// The statement of a parameter node: the blended value `b_<i>` of the
/// parameter at place `i`, or zero when no parameter of that name is
/// declared.
pub open spec fn parameter_text(
    target: CompilationTarget,
    params: Seq<Seq<char>>,
    param: Seq<char>,
    out: Seq<char>,
) -> Seq<char> {
    if position_of(params, param) >= 0 {
        "\t"@ + spec_scalar_decl(target) + " "@ + out + " = b_"@ + nat_text(
            position_of(params, param) as nat,
        ) + ";\n"@
    } else {
        "\t"@ + spec_scalar_decl(target) + " "@ + out + " = 0.0;\n"@
    }
}

/// The word that names the array of weights.
pub open spec fn weights_name(target: CompilationTarget) -> Seq<char> {
    match target {
        CompilationTarget::WGSL => " = biome_w["@,
        CompilationTarget::UnrealHLSL => " = biome_w.w["@,
    }
}

/// The statement of a weight node: the weight of the biome at place
/// `biome_idx`, or zero when the table has no such biome.
pub open spec fn weight_text(
    target: CompilationTarget,
    biome_count: nat,
    biome_idx: nat,
    out: Seq<char>,
) -> Seq<char> {
    if biome_idx < biome_count {
        "\t"@ + spec_scalar_decl(target) + " "@ + out + weights_name(target) + nat_text(biome_idx)
            + "];\n"@
    } else {
        "\t"@ + spec_scalar_decl(target) + " "@ + out + " = 0.0;\n"@
    }
}

impl BiomeParameter {
    /// Writes the statement of the node.
    pub fn emit(&self, target: CompilationTarget, params: &Vec<String>, out: &str) -> (s: String)
        ensures
            s@ == parameter_text(target, params.deep_view(), self.param@, out@),
    {
        match find_name(params, &self.param) {
            Some(idx) => {
                let mut s = join5("\t", scalar_decl(target), " ", out, " = b_");
                let digits = usize_to_string(idx);
                s.append(digits.as_str());
                s.append(";\n");
                s
            },
            None => join5("\t", scalar_decl(target), " ", out, " = 0.0;\n"),
        }
    }
}

impl BiomeWeight {
    /// Writes the statement of the node.
    pub fn emit(&self, target: CompilationTarget, biome_count: usize, out: &str) -> (s: String)
        ensures
            s@ == weight_text(target, biome_count as nat, self.biome_idx as nat, out@),
    {
        if self.biome_idx < biome_count {
            let name = match target {
                CompilationTarget::WGSL => " = biome_w[",
                CompilationTarget::UnrealHLSL => " = biome_w.w[",
            };
            let mut s = join5("\t", scalar_decl(target), " ", out, name);
            let digits = usize_to_string(self.biome_idx);
            s.append(digits.as_str());
            s.append("];\n");
            s
        } else {
            join5("\t", scalar_decl(target), " ", out, " = 0.0;\n")
        }
    }
}

} // verus!
