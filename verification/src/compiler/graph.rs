//! Lowering of the graph: the statements of its nodes, in order.
//!
//! Every output gets a variable of its own. The variables are numbered from
//! zero in the order in which the outputs are produced, so a name depends on
//! the order of the nodes and on how many outputs each has, and on nothing
//! else.

use vstd::prelude::*;
use vstd::string::*;
use crate::biome::BiomesView;
use crate::compiler::{value_text, CompilationTarget};
use crate::graph::node_types::lemma_declarations_agree;
use crate::graph::order::{lemma_index_of, lemma_toposort_sound, ordered, toposort};
use crate::graph::{graph_toposort, GraphProjectInfo, GraphView, NodeId, NodeInput, TerrainGraph};
use crate::text::{lemma_nat_text_injective, nat_text, nat_to_string};

verus! {

/// The name of the variable with the number `c`.
pub open spec fn var_name(c: nat) -> Seq<char> {
    "val_"@ + nat_text(c)
}

/// How many outputs the node `id` has.
pub open spec fn out_count(g: GraphView, id: NodeId) -> nat {
    g.nodes[g.index_of(id)].ty.kind.spec_output_types().len()
}

/// How many outputs the first `j` nodes of `order` have together: the
/// number of the first variable of the node at place `j`.
pub open spec fn base_at(g: GraphView, order: Seq<NodeId>, j: int) -> nat
    decreases j,
{
    if j <= 0 {
        0
    } else {
        base_at(g, order, j - 1) + out_count(g, order[j - 1])
    }
}

/// What stands for an input in the statements of its node: the variable of
/// the output that feeds it, or its literal if nothing does.
pub open spec fn arg_text(
    g: GraphView,
    order: Seq<NodeId>,
    target: CompilationTarget,
    input: NodeInput,
) -> Seq<char> {
    match input.connection {
        Some(c) => var_name(base_at(g, order, order.index_of(c.0)) + c.1 as nat),
        None => value_text(input.val, target),
    }
}

/// What stands for each input of the node `id`.
pub open spec fn node_args(
    g: GraphView,
    order: Seq<NodeId>,
    target: CompilationTarget,
    id: NodeId,
) -> Seq<Seq<char>> {
    Seq::new(
        g.nodes[g.index_of(id)].ty.inputs.len(),
        |k: int| arg_text(g, order, target, g.nodes[g.index_of(id)].ty.inputs[k]),
    )
}

/// The variables of the outputs of the node at place `j` of `order`.
pub open spec fn node_outs(g: GraphView, order: Seq<NodeId>, j: int) -> Seq<Seq<char>> {
    Seq::new(out_count(g, order[j]), |o: int| var_name(base_at(g, order, j) + o as nat))
}

/// The statements of the node at place `j` of `order`.
pub open spec fn node_stmt(
    g: GraphView,
    order: Seq<NodeId>,
    j: int,
    target: CompilationTarget,
    biomes: BiomesView,
) -> Seq<char> {
    g.nodes[g.index_of(order[j])].ty.text(
        target,
        node_args(g, order, target, order[j]),
        node_outs(g, order, j),
        biomes,
    )
}

/// The statements of the first `n` nodes of `order`.
pub open spec fn lowered(
    g: GraphView,
    order: Seq<NodeId>,
    n: int,
    target: CompilationTarget,
    biomes: BiomesView,
) -> Seq<char>
    decreases n,
{
    if n <= 0 {
        Seq::empty()
    } else {
        lowered(g, order, n - 1, target, biomes) + node_stmt(g, order, n - 1, target, biomes)
    }
}

/// Input `k` of the node at place `i` is fed, if at all, by an output that
/// its source has.
pub open spec fn input_resolves(g: GraphView, i: int, k: int) -> bool {
    match g.nodes[i].ty.inputs[k].connection {
        Some(c) => g.has_node(c.0) && c.1 < out_count(g, c.0),
        None => true,
    }
}

/// Every edge starts at an output that its source has.
pub open spec fn edges_resolve(g: GraphView) -> bool {
    forall|i: int, k: int|
        0 <= i < g.nodes.len() && 0 <= k < g.nodes[i].ty.inputs.len() ==> #[trigger] input_resolves(
            g,
            i,
            k,
        )
}

/// The statements of the whole graph. A graph that has no order, or an edge
/// from an output that is not there, has none.
pub open spec fn graph_text(g: GraphView, target: CompilationTarget, biomes: BiomesView) -> Seq<
    char,
> {
    match toposort(g) {
        Some(order) => if edges_resolve(g) {
            lowered(g, order, order.len() as int, target, biomes)
        } else {
            Seq::empty()
        },
        None => Seq::empty(),
    }
}

/// The numbers of the variables go up by one from output to output and
/// from node to node: an output that is produced later has a greater number
/// and a different name, whether anything reads it or not.
pub proof fn lemma_output_names_increase(
    g: GraphView,
    order: Seq<NodeId>,
    j1: int,
    o1: nat,
    j2: int,
    o2: nat,
)
    requires
        0 <= j1 <= j2 < order.len(),
        o1 < out_count(g, order[j1]),
        o2 < out_count(g, order[j2]),
        j1 < j2 || o1 < o2,
    ensures
        base_at(g, order, j1) + o1 < base_at(g, order, j2) + o2,
        node_outs(g, order, j1)[o1 as int] == var_name(base_at(g, order, j1) + o1),
        node_outs(g, order, j2)[o2 as int] == var_name(base_at(g, order, j2) + o2),
        node_outs(g, order, j1)[o1 as int] != node_outs(g, order, j2)[o2 as int],
    decreases j2 - j1,
{
    if j1 < j2 {
        lemma_base_at_monotonic(g, order, j1 + 1, j2);
    }
    let a = base_at(g, order, j1) + o1;
    let b = base_at(g, order, j2) + o2;
    assert(a < b);
    if var_name(a) == var_name(b) {
        lemma_var_name_injective(a, b);
    }
}

proof fn lemma_base_at_monotonic(g: GraphView, order: Seq<NodeId>, a: int, b: int)
    requires
        0 <= a <= b,
    ensures
        base_at(g, order, a) <= base_at(g, order, b),
    decreases b - a,
{
    if a < b {
        lemma_base_at_monotonic(g, order, a, b - 1);
    }
}

/// Different numbers give different names.
pub proof fn lemma_var_name_injective(a: nat, b: nat)
    requires
        var_name(a) == var_name(b),
    ensures
        a == b,
{
    let prefix = "val_"@;
    assert(var_name(a).subrange(prefix.len() as int, var_name(a).len() as int) =~= nat_text(a));
    assert(var_name(b).subrange(prefix.len() as int, var_name(b).len() as int) =~= nat_text(b));
    lemma_nat_text_injective(a, b);
}

fn var_name_string(c: u128) -> (s: String)
    ensures
        s@ == var_name(c as nat),
{
    let mut s = String::from_str("val_");
    let digits = nat_to_string(c);
    s.append(digits.as_str());
    s
}

/// A node of `order` stands at one place only, and that place tells the
/// node's place in the graph apart from those of the others.
proof fn lemma_places_differ(g: GraphView, order: Seq<NodeId>, a: int, b: int)
    requires
        g.wf(),
        ordered(g, order),
        0 <= a < order.len(),
        0 <= b < order.len(),
        a != b,
    ensures
        g.index_of(order[a]) != g.index_of(order[b]),
        0 <= g.index_of(order[a]) < g.nodes.len(),
        g.nodes[g.index_of(order[a])].id == order[a],
        order.index_of(order[a]) == a,
{
    assert(g.has_node(order[a]));
    assert(g.has_node(order[b]));
    assert(order[a] != order[b]);
    let x = order.index_of(order[a]);
    assert(order.contains(order[a]));
    assert(order[x] == order[a]);
}

/// Appends the statements of the graph to `out`, node by node in the order
/// of [`graph_toposort`]. Nothing is appended for a graph that has no order
/// or an edge from an output that is not there.
pub fn compile_graph(
    out: &mut String,
    graph: &TerrainGraph,
    target: CompilationTarget,
    info: &GraphProjectInfo,
)
    requires
        graph.wf(),
    ensures
        final(out)@ == old(out)@ + graph_text(graph@, target, info.biomes@),
{
    let ghost g = graph@;
    let ghost biomes = info.biomes@;
    assert(out@ =~= out@ + Seq::<char>::empty());
    let order = match graph_toposort(graph) {
        Some(order) => order,
        None => {
            return ;
        },
    };
    proof {
        lemma_toposort_sound(g);
    }
    let n = graph.len();
    let mut bases: Vec<u128> = Vec::new();
    let mut i: usize = 0;
    while i < n
        invariant
            i <= n,
            bases@.len() == i,
            forall|x: int| 0 <= x < i ==> bases@[x] == 0,
        decreases n - i,
    {
        bases.push(0);
        i += 1;
    }
    let mut text = String::new();
    let mut counter: u128 = 0;
    let mut j: usize = 0;
    while j < order.len()
        invariant
            graph.wf(),
            g == graph@,
            biomes == info.biomes@,
            toposort(g) == Some(order@),
            ordered(g, order@),
            order@.len() == g.nodes.len(),
            n == g.nodes.len(),
            bases@.len() == n,
            j <= order.len(),
            counter == base_at(g, order@, j as int),
            counter <= 3 * j,
            forall|x: int| 0 <= x < bases@.len() ==> #[trigger] bases@[x] <= counter,
            text@ == lowered(g, order@, j as int, target, biomes),
            forall|j2: int|
                0 <= j2 < j ==> bases@[g.index_of(#[trigger] order@[j2])] == base_at(g, order@, j2),
            forall|j2: int, k: int|
                0 <= j2 < j && 0 <= k < g.nodes[g.index_of(order@[j2])].ty.inputs.len()
                    ==> #[trigger] input_resolves(g, g.index_of(order@[j2]), k),
            out@ == old(out)@,
        decreases order.len() - j,
    {
        let id = order[j];
        assert(g.has_node(order@[j as int]));
        let p = match graph.position(id) {
            Some(p) => p,
            None => {
                return ;
            },
        };
        let node = graph.node_at(p);
        let inputs = node.ty.inputs();
        let mut args: Vec<String> = Vec::new();
        let mut k: usize = 0;
        while k < inputs.len()
            invariant
                graph.wf(),
                g == graph@,
                toposort(g) == Some(order@),
                ordered(g, order@),
                n == g.nodes.len(),
                bases@.len() == n,
                j < order.len(),
                id == order@[j as int],
                p < n,
                g.index_of(id) == p,
                g.nodes[p as int].id == id,
                inputs@ == g.nodes[p as int].ty.inputs,
                k <= inputs.len(),
                counter <= 3 * j,
                forall|x: int| 0 <= x < bases@.len() ==> #[trigger] bases@[x] <= counter,
                forall|j2: int|
                    0 <= j2 < j ==> bases@[g.index_of(#[trigger] order@[j2])] == base_at(
                        g,
                        order@,
                        j2,
                    ),
                args@.len() == k,
                forall|x: int|
                    0 <= x < k ==> (#[trigger] args@[x])@ == arg_text(g, order@, target, inputs@[x]),
                forall|x: int| 0 <= x < k ==> #[trigger] input_resolves(g, p as int, x),
                out@ == old(out)@,
            decreases inputs.len() - k,
        {
            match inputs[k].connection {
                Some(c) => {
                    let sp = match graph.position(c.0) {
                        Some(sp) => sp,
                        None => {
                            assert(!input_resolves(g, p as int, k as int));
                            return ;
                        },
                    };
                    let count = graph.node_at(sp).ty.outputs().len();
                    if c.1 as usize >= count {
                        assert(!input_resolves(g, p as int, k as int));
                        return ;
                    }
                    proof {
                        assert(g.source(p as int, k as int) == Some(c.0));
                        assert(g.depends_on(order@[j as int], c.0));
                        let before = order@.subrange(0, j as int);
                        assert(before.contains(c.0));
                        let j2 = choose|j2: int| 0 <= j2 < before.len() && before[j2] == c.0;
                        assert(order@[j2] == c.0);
                        lemma_places_differ(g, order@, j2, j as int);
                        assert(bases@[sp as int] == base_at(g, order@, j2));
                        assert(input_resolves(g, p as int, k as int));
                    }
                    let name = var_name_string(bases[sp] + c.1 as u128);
                    args.push(name);
                },
                None => {
                    let literal = inputs[k].val.to_string(target);
                    args.push(literal);
                },
            }
            k += 1;
        }
        let count = node.ty.outputs().len();
        proof {
            lemma_declarations_agree(g.nodes[p as int].ty.kind);
        }
        let mut outs: Vec<String> = Vec::new();
        let mut o: usize = 0;
        while o < count
            invariant
                o <= count,
                count <= 3,
                counter <= 3 * j,
                outs@.len() == o,
                forall|x: int| 0 <= x < o ==> (#[trigger] outs@[x])@ == var_name((counter + x) as nat),
            decreases count - o,
        {
            let name = var_name_string(counter + o as u128);
            outs.push(name);
            o += 1;
        }
        proof {
            assert(args.deep_view() =~= node_args(g, order@, target, id));
            assert(outs.deep_view() =~= node_outs(g, order@, j as int));
            assert(g.nodes[p as int].ty.wf());
        }
        let stmt = node.ty.compile(target, &args, &outs, info);
        text.append(stmt.as_str());
        let ghost old_bases = bases@;
        bases[p] = counter;
        counter = counter + count as u128;
        proof {
            assert forall|j2: int| 0 <= j2 < j + 1 implies bases@[g.index_of(#[trigger] order@[j2])]
                == base_at(g, order@, j2) by {
                if j2 < j {
                    lemma_places_differ(g, order@, j2, j as int);
                }
            }
        }
        j += 1;
    }
    proof {
        assert forall|i: int, k: int|
            0 <= i < g.nodes.len() && 0 <= k < g.nodes[i].ty.inputs.len() implies #[trigger] input_resolves(
            g,
            i,
            k,
        ) by {
            lemma_index_of(g, i);
            assert(order@.contains(g.nodes[i].id));
            let j2 = choose|j2: int| 0 <= j2 < order@.len() && order@[j2] == g.nodes[i].id;
            assert(input_resolves(g, g.index_of(order@[j2]), k));
        }
        assert(edges_resolve(g));
    }
    out.append(text.as_str());
}

} // verus!
