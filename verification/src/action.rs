//! Actions on a project and their inverses, for undoing and redoing.
//!
//! Performing an action changes the project and gives back the action that
//! changes it back. An action that cannot be performed, because what it
//! names is not there, changes nothing; its inverse is the empty compound,
//! which changes nothing either.

use vstd::prelude::*;
use vstd::string::*;
use crate::biome::{with_param, Biome, BiomeView, Biomes, BiomesView};
use crate::decimal::Decimal;
use crate::graph::laws::lemma_cut_nothing;
use crate::graph::node_types::biome::{find_name, lemma_position_of_bounds, position_of};
use crate::graph::node_types::{NodeType, NodeTypeView};
use crate::graph::{Connection, GraphView, NodeId, Pos, TerrainGraph, Value};
use crate::project::Project;

verus! {

/// A change to a project.
#[allow(inconsistent_fields)]
#[derive(Debug)]
pub enum Action {
    /// Moves a node by an offset.
    GraphMoveNode(NodeId, Pos),
    GraphAddNode(NodeId, Pos, NodeType),
    GraphDeleteNode(NodeId),
    GraphConnect(Connection),
    GraphDisconnect { to_node: NodeId, in_idx: u32 },
    GraphSetInput { node: NodeId, in_idx: u32, val: Value },
    BiomeCreate(usize, Biome),
    BiomeDelete(usize),
    BiomeSetSize(Decimal),
    BiomeSetBlending(Decimal),
    BiomeSetName(usize, String),
    BiomeSetFrequency(usize, Decimal),
    BiomeSetTexture(usize, String),
    BiomeSetMinDepth(usize, i32),
    BiomeSetMaxDepth(usize, i32),
    BiomeSetParameter { biome: usize, param: String, val: Decimal },
    BiomeCreateParameter { param: String },
    BiomeDeleteParameter { param: String },
    /// Several actions, performed one after the other.
    Compound(Vec<Action>),
}

#[allow(inconsistent_fields)]
pub enum ActionView {
    GraphMoveNode(NodeId, Pos),
    GraphAddNode(NodeId, Pos, NodeTypeView),
    GraphDeleteNode(NodeId),
    GraphConnect(Connection),
    GraphDisconnect { to_node: NodeId, in_idx: u32 },
    GraphSetInput { node: NodeId, in_idx: u32, val: Value },
    BiomeCreate(usize, BiomeView),
    BiomeDelete(usize),
    BiomeSetSize(Decimal),
    BiomeSetBlending(Decimal),
    BiomeSetName(usize, Seq<char>),
    BiomeSetFrequency(usize, Decimal),
    BiomeSetTexture(usize, Seq<char>),
    BiomeSetMinDepth(usize, i32),
    BiomeSetMaxDepth(usize, i32),
    BiomeSetParameter { biome: usize, param: Seq<char>, val: Decimal },
    BiomeCreateParameter { param: Seq<char> },
    BiomeDeleteParameter { param: Seq<char> },
    Compound(Seq<ActionView>),
}

/// The action as a mathematical value.
pub open spec fn action_view(a: Action) -> ActionView
    decreases a,
{
    match a {
        Action::GraphMoveNode(id, offset) => ActionView::GraphMoveNode(id, offset),
        Action::GraphAddNode(id, pos, ty) => ActionView::GraphAddNode(id, pos, ty@),
        Action::GraphDeleteNode(id) => ActionView::GraphDeleteNode(id),
        Action::GraphConnect(c) => ActionView::GraphConnect(c),
        Action::GraphDisconnect { to_node, in_idx } => ActionView::GraphDisconnect { to_node, in_idx },
        Action::GraphSetInput { node, in_idx, val } => ActionView::GraphSetInput { node, in_idx, val },
        Action::BiomeCreate(idx, biome) => ActionView::BiomeCreate(idx, biome@),
        Action::BiomeDelete(idx) => ActionView::BiomeDelete(idx),
        Action::BiomeSetSize(d) => ActionView::BiomeSetSize(d),
        Action::BiomeSetBlending(d) => ActionView::BiomeSetBlending(d),
        Action::BiomeSetName(idx, name) => ActionView::BiomeSetName(idx, name@),
        Action::BiomeSetFrequency(idx, d) => ActionView::BiomeSetFrequency(idx, d),
        Action::BiomeSetTexture(idx, texture) => ActionView::BiomeSetTexture(idx, texture@),
        Action::BiomeSetMinDepth(idx, d) => ActionView::BiomeSetMinDepth(idx, d),
        Action::BiomeSetMaxDepth(idx, d) => ActionView::BiomeSetMaxDepth(idx, d),
        Action::BiomeSetParameter { biome, param, val } => ActionView::BiomeSetParameter {
            biome,
            param: param@,
            val,
        },
        Action::BiomeCreateParameter { param } => ActionView::BiomeCreateParameter { param: param@ },
        Action::BiomeDeleteParameter { param } => ActionView::BiomeDeleteParameter { param: param@ },
        Action::Compound(acts) => ActionView::Compound(
            Seq::new(
                acts.len() as nat,
                |i: int|
                    if 0 <= i < acts.len() {
                        proof {
                            vstd::std_specs::vec::axiom_vec_index_decreases(acts, i);
                        }
                        action_view(acts[i])
                    } else {
                        ActionView::GraphDeleteNode(NodeId(0))
                    },
            ),
        ),
    }
}

impl View for Action {
    type V = ActionView;

    open spec fn view(&self) -> ActionView {
        action_view(*self)
    }
}

/// A project as a mathematical value.
pub struct ProjectView {
    pub graph: GraphView,
    pub biomes: BiomesView,
}

impl View for Project {
    type V = ProjectView;

    open spec fn view(&self) -> ProjectView {
        ProjectView { graph: self.terrain_graph@, biomes: self.biomes@ }
    }
}

/// The action that changes nothing.
pub open spec fn nothing() -> ActionView {
    ActionView::Compound(Seq::empty())
}

/// A position moved by an offset, each coordinate wrapped around where it
/// leaves the range of a decimal.
pub open spec fn moved(pos: Pos, offset: Pos) -> Pos {
    Pos {
        x: Decimal { micros: pos.x.micros.wrapping_add(offset.x.micros) },
        y: Decimal { micros: pos.y.micros.wrapping_add(offset.y.micros) },
    }
}

/// The offset that takes back what `offset` does.
pub open spec fn opposite(offset: Pos) -> Pos {
    Pos {
        x: Decimal { micros: 0i64.wrapping_sub(offset.x.micros) },
        y: Decimal { micros: 0i64.wrapping_sub(offset.y.micros) },
    }
}

/// The table with the biome at place `idx` replaced.
pub open spec fn with_biome(biomes: BiomesView, idx: int, b: BiomeView) -> BiomesView {
    BiomesView { biomes: biomes.biomes.update(idx, b), ..biomes }
}

/// The project after the action `a`, and the inverse of `a`.
pub open spec fn performed(p: ProjectView, a: ActionView) -> (ProjectView, ActionView)
    decreases a, 0nat,
{
    let g = p.graph;
    let b = p.biomes;
    match a {
        ActionView::GraphMoveNode(id, offset) => if g.has_node(id) {
            (
                ProjectView { graph: g.with_pos(id, moved(g.nodes[g.index_of(id)].pos, offset)), ..p },
                ActionView::GraphMoveNode(id, opposite(offset)),
            )
        } else {
            (p, nothing())
        },
        ActionView::GraphAddNode(id, pos, ty) => (
            ProjectView { graph: g.inserted(id, pos, ty), ..p },
            ActionView::GraphDeleteNode(id),
        ),
        ActionView::GraphDeleteNode(id) => if g.has_node(id) {
            (
                ProjectView { graph: g.deleted(id), ..p },
                ActionView::GraphAddNode(
                    id,
                    g.nodes[g.index_of(id)].pos,
                    g.severed(id).nodes[g.index_of(id)].ty,
                ),
            )
        } else {
            (p, nothing())
        },
        ActionView::GraphConnect(c) => (
            ProjectView { graph: g.connected(c), ..p },
            ActionView::GraphDisconnect { to_node: c.to, in_idx: c.inp_idx },
        ),
        ActionView::GraphDisconnect { to_node, in_idx } => match g.edge_at(to_node, in_idx) {
            Some(c) => (
                ProjectView { graph: g.without_edge(to_node, in_idx), ..p },
                ActionView::GraphConnect(c),
            ),
            None => (p, nothing()),
        },
        ActionView::GraphSetInput { node, in_idx, val } => if g.input_valid(node, in_idx) {
            (
                ProjectView { graph: g.with_value(node, in_idx, val), ..p },
                ActionView::GraphSetInput { node, in_idx, val: g.input(node, in_idx).val },
            )
        } else {
            (p, nothing())
        },
        ActionView::BiomeCreate(idx, biome) => if idx <= b.biomes.len() {
            (
                ProjectView {
                    biomes: BiomesView { biomes: b.biomes.insert(idx as int, biome), ..b },
                    ..p
                },
                ActionView::BiomeDelete(idx),
            )
        } else {
            (p, nothing())
        },
        ActionView::BiomeDelete(idx) => if idx < b.biomes.len() {
            (
                ProjectView { biomes: BiomesView { biomes: b.biomes.remove(idx as int), ..b }, ..p },
                ActionView::BiomeCreate(idx, b.biomes[idx as int]),
            )
        } else {
            (p, nothing())
        },
        ActionView::BiomeSetSize(d) => (
            ProjectView { biomes: BiomesView { biome_size: d, ..b }, ..p },
            ActionView::BiomeSetSize(b.biome_size),
        ),
        ActionView::BiomeSetBlending(d) => (
            ProjectView { biomes: BiomesView { biome_blending: d, ..b }, ..p },
            ActionView::BiomeSetBlending(b.biome_blending),
        ),
        ActionView::BiomeSetName(idx, name) => if idx < b.biomes.len() {
            (
                ProjectView {
                    biomes: with_biome(b, idx as int, BiomeView { name, ..b.biomes[idx as int] }),
                    ..p
                },
                ActionView::BiomeSetName(idx, b.biomes[idx as int].name),
            )
        } else {
            (p, nothing())
        },
        ActionView::BiomeSetFrequency(idx, d) => if idx < b.biomes.len() {
            (
                ProjectView {
                    biomes: with_biome(b, idx as int, BiomeView { frequency: d, ..b.biomes[idx as int] }),
                    ..p
                },
                ActionView::BiomeSetFrequency(idx, b.biomes[idx as int].frequency),
            )
        } else {
            (p, nothing())
        },
        ActionView::BiomeSetTexture(idx, texture) => if idx < b.biomes.len() {
            (
                ProjectView {
                    biomes: with_biome(b, idx as int, BiomeView { texture, ..b.biomes[idx as int] }),
                    ..p
                },
                ActionView::BiomeSetTexture(idx, b.biomes[idx as int].texture),
            )
        } else {
            (p, nothing())
        },
        ActionView::BiomeSetMinDepth(idx, d) => if idx < b.biomes.len() {
            (
                ProjectView {
                    biomes: with_biome(b, idx as int, BiomeView { min_depth: d, ..b.biomes[idx as int] }),
                    ..p
                },
                ActionView::BiomeSetMinDepth(idx, b.biomes[idx as int].min_depth),
            )
        } else {
            (p, nothing())
        },
        ActionView::BiomeSetMaxDepth(idx, d) => if idx < b.biomes.len() {
            (
                ProjectView {
                    biomes: with_biome(b, idx as int, BiomeView { max_depth: d, ..b.biomes[idx as int] }),
                    ..p
                },
                ActionView::BiomeSetMaxDepth(idx, b.biomes[idx as int].max_depth),
            )
        } else {
            (p, nothing())
        },
        ActionView::BiomeSetParameter { biome, param, val } => if biome < b.biomes.len() {
            (
                ProjectView {
                    biomes: with_biome(
                        b,
                        biome as int,
                        BiomeView {
                            params: with_param(b.biomes[biome as int].params, param, val),
                            ..b.biomes[biome as int]
                        },
                    ),
                    ..p
                },
                ActionView::BiomeSetParameter {
                    biome,
                    param,
                    val: b.biomes[biome as int].param(param),
                },
            )
        } else {
            (p, nothing())
        },
        ActionView::BiomeCreateParameter { param } => (
            ProjectView { biomes: BiomesView { biome_params: b.biome_params.push(param), ..b }, ..p },
            ActionView::BiomeDeleteParameter { param },
        ),
        ActionView::BiomeDeleteParameter { param } => (
            if position_of(b.biome_params, param) >= 0 {
                ProjectView {
                    biomes: BiomesView {
                        biome_params: b.biome_params.remove(
                            position_of(b.biome_params, param),
                        ),
                        ..b
                    },
                    ..p
                }
            } else {
                p
            },
            ActionView::BiomeCreateParameter { param },
        ),
        ActionView::Compound(acts) => {
            let r = performed_all(p, acts, acts.len() as int);
            (r.0, ActionView::Compound(r.1.reverse()))
        },
    }
}

/// The project after the first `n` of `acts`, and their inverses in the
/// order of the actions.
pub open spec fn performed_all(p: ProjectView, acts: Seq<ActionView>, n: int) -> (
    ProjectView,
    Seq<ActionView>,
)
    decreases acts, n,
{
    if n <= 0 || n > acts.len() {
        (p, Seq::empty())
    } else {
        let r = performed_all(p, acts, n - 1);
        let s = performed(r.0, acts[n - 1]);
        (s.0, r.1.push(s.1))
    }
}

fn nothing_to_undo() -> (a: Action)
    ensures
        a@ == nothing(),
{
    let a = Action::Compound(Vec::new());
    assert(a@->Compound_0 =~= Seq::<ActionView>::empty());
    a
}

impl Biomes {
    /// Puts the biome at place `idx` of the table, if the table has that
    /// many biomes before it. Returns whether it did.
    pub fn insert_biome(&mut self, idx: usize, biome: Biome) -> (done: bool)
        ensures
            done == (idx <= old(self)@.biomes.len()),
            final(self)@ == if done {
                BiomesView { biomes: old(self)@.biomes.insert(idx as int, biome@), ..old(self)@ }
            } else {
                old(self)@
            },
    {
        if idx > self.biomes.len() {
            return false;
        }
        let ghost before = self@;
        self.biomes.insert(idx, biome);
        assert(self@.biomes =~= before.biomes.insert(idx as int, biome@));
        true
    }

    /// Takes the biome at place `idx` out of the table, if there is one.
    pub fn remove_biome(&mut self, idx: usize) -> (r: Option<Biome>)
        ensures
            match r {
                Some(b) => idx < old(self)@.biomes.len() && b@ == old(self)@.biomes[idx as int]
                    && final(self)@ == (BiomesView {
                    biomes: old(self)@.biomes.remove(idx as int),
                    ..old(self)@
                }),
                None => idx >= old(self)@.biomes.len() && final(self)@ == old(self)@,
            },
    {
        if idx >= self.biomes.len() {
            return None;
        }
        let ghost before = self@;
        let biome = self.biomes.remove(idx);
        assert(self@.biomes =~= before.biomes.remove(idx as int));
        Some(biome)
    }
}

impl Action {
    /// Performs the action on the project and returns its inverse.
    pub fn perform(self, project: &mut Project) -> (inverse: Action)
        requires
            old(project).terrain_graph.wf(),
            actions_fit(self@),
        ensures
            final(project).terrain_graph.wf(),
            final(project)@ == performed(old(project)@, self@).0,
            inverse@ == performed(old(project)@, self@).1,
            actions_fit(inverse@),
        decreases action_size(self@), 0nat,
    {
        match self {
            Action::GraphMoveNode(id, offset) => {
                match project.terrain_graph.node(id) {
                    Some(node) => {
                        let pos = Pos {
                            x: node.pos.x.wrapping_add(offset.x),
                            y: node.pos.y.wrapping_add(offset.y),
                        };
                        project.terrain_graph.set_node_pos(id, pos);
                        Action::GraphMoveNode(
                            id,
                            Pos { x: offset.x.wrapping_neg(), y: offset.y.wrapping_neg() },
                        )
                    },
                    None => nothing_to_undo(),
                }
            },
            Action::GraphAddNode(id, pos, ty) => {
                project.terrain_graph.add_node_from_box_ty_with_id(pos, ty, id);
                Action::GraphDeleteNode(id)
            },
            Action::GraphDeleteNode(id) => {
                if !project.terrain_graph.contains(id) {
                    return nothing_to_undo();
                }
                let (_, node) = project.terrain_graph.delete_node(id);
                match node {
                    Some(node) => Action::GraphAddNode(id, node.pos, node.ty),
                    None => nothing_to_undo(),
                }
            },
            Action::GraphConnect(c) => {
                project.terrain_graph.connect(c);
                Action::GraphDisconnect { to_node: c.to, in_idx: c.inp_idx }
            },
            Action::GraphDisconnect { to_node, in_idx } => {
                match project.terrain_graph.disconnect(to_node, in_idx) {
                    Some(c) => Action::GraphConnect(c),
                    None => {
                        proof {
                            lemma_cut_nothing(old(project)@.graph, to_node, in_idx);
                        }
                        nothing_to_undo()
                    },
                }
            },
            Action::GraphSetInput { node, in_idx, val } => {
                match project.terrain_graph.set_input_value(node, in_idx, val) {
                    Some(was) => Action::GraphSetInput { node, in_idx, val: was },
                    None => nothing_to_undo(),
                }
            },
            Action::BiomeCreate(idx, biome) => {
                if project.biomes.insert_biome(idx, biome) {
                    Action::BiomeDelete(idx)
                } else {
                    nothing_to_undo()
                }
            },
            Action::BiomeDelete(idx) => {
                match project.biomes.remove_biome(idx) {
                    Some(biome) => Action::BiomeCreate(idx, biome),
                    None => nothing_to_undo(),
                }
            },
            Action::BiomeSetSize(size) => {
                let was = project.biomes.biome_size;
                project.biomes.biome_size = size;
                Action::BiomeSetSize(was)
            },
            Action::BiomeSetBlending(blending) => {
                let was = project.biomes.biome_blending;
                project.biomes.biome_blending = blending;
                Action::BiomeSetBlending(was)
            },
            Action::BiomeSetName(idx, name) => {
                match project.biomes.remove_biome(idx) {
                    Some(biome) => {
                        let mut biome = biome;
                        let was = biome.name;
                        biome.name = name;
                        project.biomes.insert_biome(idx, biome);
                        proof {
                            lemma_put_back(old(project)@.biomes, idx as int, biome@);
                        }
                        Action::BiomeSetName(idx, was)
                    },
                    None => nothing_to_undo(),
                }
            },
            Action::BiomeSetFrequency(idx, frequency) => {
                match project.biomes.remove_biome(idx) {
                    Some(biome) => {
                        let mut biome = biome;
                        let was = biome.frequency;
                        biome.frequency = frequency;
                        project.biomes.insert_biome(idx, biome);
                        proof {
                            lemma_put_back(old(project)@.biomes, idx as int, biome@);
                        }
                        Action::BiomeSetFrequency(idx, was)
                    },
                    None => nothing_to_undo(),
                }
            },
            Action::BiomeSetTexture(idx, texture) => {
                match project.biomes.remove_biome(idx) {
                    Some(biome) => {
                        let mut biome = biome;
                        let was = biome.texture;
                        biome.texture = texture;
                        project.biomes.insert_biome(idx, biome);
                        proof {
                            lemma_put_back(old(project)@.biomes, idx as int, biome@);
                        }
                        Action::BiomeSetTexture(idx, was)
                    },
                    None => nothing_to_undo(),
                }
            },
            Action::BiomeSetMinDepth(idx, depth) => {
                match project.biomes.remove_biome(idx) {
                    Some(biome) => {
                        let mut biome = biome;
                        let was = biome.min_depth;
                        biome.min_depth = depth;
                        project.biomes.insert_biome(idx, biome);
                        proof {
                            lemma_put_back(old(project)@.biomes, idx as int, biome@);
                        }
                        Action::BiomeSetMinDepth(idx, was)
                    },
                    None => nothing_to_undo(),
                }
            },
            Action::BiomeSetMaxDepth(idx, depth) => {
                match project.biomes.remove_biome(idx) {
                    Some(biome) => {
                        let mut biome = biome;
                        let was = biome.max_depth;
                        biome.max_depth = depth;
                        project.biomes.insert_biome(idx, biome);
                        proof {
                            lemma_put_back(old(project)@.biomes, idx as int, biome@);
                        }
                        Action::BiomeSetMaxDepth(idx, was)
                    },
                    None => nothing_to_undo(),
                }
            },
            Action::BiomeSetParameter { biome, param, val } => {
                match project.biomes.remove_biome(biome) {
                    Some(b) => {
                        let mut b = b;
                        let was = b.set_param(param.clone(), val);
                        project.biomes.insert_biome(biome, b);
                        proof {
                            lemma_put_back(old(project)@.biomes, biome as int, b@);
                        }
                        Action::BiomeSetParameter { biome, param, val: was }
                    },
                    None => nothing_to_undo(),
                }
            },
            Action::BiomeCreateParameter { param } => {
                let ghost before = project.biomes@;
                project.biomes.biome_params.push(param.clone());
                proof {
                    assert(project.biomes@.biome_params =~= before.biome_params.push(param@));
                    assert(project.biomes@.biomes =~= before.biomes);
                }
                Action::BiomeDeleteParameter { param }
            },
            Action::BiomeDeleteParameter { param } => {
                let ghost before = project.biomes@;
                match find_name(&project.biomes.biome_params, &param) {
                    Some(idx) => {
                        proof {
                            lemma_position_of_bounds(
                                before.biome_params,
                                param@,
                                before.biome_params.len() as int,
                            );
                        }
                        project.biomes.biome_params.remove(idx);
                        proof {
                            assert(project.biomes@.biome_params =~= before.biome_params.remove(
                                idx as int,
                            ));
                            assert(project.biomes@.biomes =~= before.biomes);
                        }
                    },
                    None => {},
                }
                Action::BiomeCreateParameter { param }
            },
            Action::Compound(acts) => {
                let ghost all = action_view(Action::Compound(acts))->Compound_0;
                proof {
                    assert(all =~= views_of(acts@));
                    assert forall|i: int| 0 <= i < acts@.len() implies actions_fit(
                        (#[trigger] acts@[i])@,
                    ) by {
                        assert(actions_fit(all[i]));
                    }
                    assert(action_size(self@) == 1 + actions_size(all, all.len() as int));
                }
                let inverses = perform_all(acts, project);
                let inverse = Action::Compound(inverses);
                proof {
                    assert(inverse@->Compound_0 =~= performed_all(
                        old(project)@,
                        all,
                        all.len() as int,
                    ).1.reverse());
                    assert forall|i: int| 0 <= i < inverse@->Compound_0.len() implies actions_fit(
                        #[trigger] inverse@->Compound_0[i],
                    ) by {
                        assert(inverse@->Compound_0[i] == inverses@[i]@);
                    }
                }
                inverse
            },
        }
    }
}

/// The actions of a compound as mathematical values.
pub open spec fn views_of(acts: Seq<Action>) -> Seq<ActionView> {
    Seq::new(acts.len(), |i: int| acts[i]@)
}

/// How many actions an action holds, itself counted.
pub open spec fn action_size(a: ActionView) -> nat
    decreases a, 0nat,
{
    match a {
        ActionView::Compound(acts) => 1 + actions_size(acts, acts.len() as int),
        _ => 1,
    }
}

/// How many actions the first `n` of `acts` hold together.
pub open spec fn actions_size(acts: Seq<ActionView>, n: int) -> nat
    decreases acts, n,
{
    if n <= 0 || n > acts.len() {
        0
    } else {
        actions_size(acts, n - 1) + action_size(acts[n - 1])
    }
}

proof fn lemma_size_of_part(acts: Seq<ActionView>, i: int, n: int)
    requires
        0 <= i < n <= acts.len(),
    ensures
        action_size(acts[i]) <= actions_size(acts, n),
    decreases n,
{
    if i < n - 1 {
        lemma_size_of_part(acts, i, n - 1);
    }
}

/// Performs the actions one after the other and returns their inverses,
/// that of the last action first.
fn perform_all(acts: Vec<Action>, project: &mut Project) -> (inverses: Vec<Action>)
    requires
        old(project).terrain_graph.wf(),
        forall|i: int| 0 <= i < acts@.len() ==> actions_fit((#[trigger] acts@[i])@),
    ensures
        final(project).terrain_graph.wf(),
        final(project)@ == performed_all(old(project)@, views_of(acts@), acts@.len() as int).0,
        inverses@.len() == acts@.len(),
        performed_all(old(project)@, views_of(acts@), acts@.len() as int).1.len() == acts@.len(),
        forall|i: int|
            0 <= i < inverses@.len() ==> (#[trigger] inverses@[i])@ == performed_all(
                old(project)@,
                views_of(acts@),
                acts@.len() as int,
            ).1.reverse()[i],
        forall|i: int| 0 <= i < inverses@.len() ==> actions_fit((#[trigger] inverses@[i])@),
    decreases actions_size(views_of(acts@), acts@.len() as int), 1nat,
{
    let ghost all = views_of(acts@);
    let ghost start = project@;
    let ghost total = actions_size(views_of(acts@), acts@.len() as int);
    let mut rest = acts;
    let n = rest.len();
    let mut inverses: Vec<Action> = Vec::new();
    let mut i: usize = 0;
    while i < n
        invariant
            i <= n,
            n == all.len(),
            total == actions_size(all, n as int),
            total == actions_size(views_of(acts@), acts@.len() as int),
            rest@.len() == n - i,
            forall|k: int| 0 <= k < rest@.len() ==> (#[trigger] rest@[k])@ == all[i + k],
            forall|k: int| 0 <= k < all.len() ==> actions_fit(#[trigger] all[k]),
            project.terrain_graph.wf(),
            project@ == performed_all(start, all, i as int).0,
            inverses@.len() == i,
            performed_all(start, all, i as int).1.len() == i,
            forall|k: int|
                0 <= k < i ==> (#[trigger] inverses@[k])@ == performed_all(start, all, i as int).1[k],
            forall|k: int| 0 <= k < i ==> actions_fit((#[trigger] inverses@[k])@),
        decreases n - i,
    {
        let act = rest.remove(0);
        proof {
            assert(act@ == all[i as int]);
            lemma_size_of_part(all, i as int, n as int);
        }
        let inverse = act.perform(project);
        inverses.push(inverse);
        i += 1;
    }
    let ghost forward = performed_all(start, all, n as int).1;
    let mut reversed: Vec<Action> = Vec::new();
    let mut k: usize = n;
    while k > 0
        invariant
            k <= n,
            inverses@.len() == k,
            forward.len() == n,
            forall|x: int| 0 <= x < k ==> (#[trigger] inverses@[x])@ == forward[x],
            forall|x: int| 0 <= x < k ==> actions_fit((#[trigger] inverses@[x])@),
            reversed@.len() == n - k,
            forall|x: int|
                0 <= x < reversed@.len() ==> (#[trigger] reversed@[x])@ == forward[n - 1 - x],
            forall|x: int| 0 <= x < reversed@.len() ==> actions_fit((#[trigger] reversed@[x])@),
        decreases k,
    {
        match inverses.pop() {
            Some(inverse) => {
                reversed.push(inverse);
            },
            None => {},
        }
        k -= 1;
    }
    reversed
}

/// Every node that the action adds, by itself or within a compound, has the
/// inputs of its kind.
pub open spec fn actions_fit(a: ActionView) -> bool
    decreases a,
{
    match a {
        ActionView::GraphAddNode(_, _, ty) => ty.wf(),
        ActionView::Compound(acts) => forall|i: int|
            0 <= i < acts.len() ==> actions_fit(#[trigger] acts[i]),
        _ => true,
    }
}

proof fn lemma_put_back(biomes: BiomesView, idx: int, b: BiomeView)
    requires
        0 <= idx < biomes.biomes.len(),
    ensures
        biomes.biomes.remove(idx).insert(idx, b) == biomes.biomes.update(idx, b),
{
    assert(biomes.biomes.remove(idx).insert(idx, b) =~= biomes.biomes.update(idx, b));
}

/// What has been done and can be undone, and what has been undone and can
/// be done again.
#[derive(Debug)]
pub struct ActionManager {
    undo_stack: Vec<Action>,
    redo_stack: Vec<Action>,
}

impl ActionManager {
    /// The inverses of what has been done, that of the last action last.
    pub closed spec fn undo_view(&self) -> Seq<ActionView> {
        views_of(self.undo_stack@)
    }

    /// The inverses of what has been undone, that of the last undoing last.
    pub closed spec fn redo_view(&self) -> Seq<ActionView> {
        views_of(self.redo_stack@)
    }

    /// Every action that is kept can be performed.
    pub open spec fn wf(&self) -> bool {
        &&& forall|i: int| 0 <= i < self.undo_view().len() ==> actions_fit(#[trigger] self.undo_view()[i])
        &&& forall|i: int| 0 <= i < self.redo_view().len() ==> actions_fit(#[trigger] self.redo_view()[i])
    }

    pub fn new() -> (m: ActionManager)
        ensures
            m.wf(),
            m.undo_view() == Seq::<ActionView>::empty(),
            m.redo_view() == Seq::<ActionView>::empty(),
    {
        let m = ActionManager { undo_stack: Vec::new(), redo_stack: Vec::new() };
        assert(m.undo_view() =~= Seq::<ActionView>::empty());
        assert(m.redo_view() =~= Seq::<ActionView>::empty());
        m
    }

    /// Keeps the inverse of something that was just done. What was undone
    /// before can no longer be done again.
    pub fn push_undo_action(&mut self, act: Action)
        requires
            old(self).wf(),
            actions_fit(act@),
        ensures
            final(self).wf(),
            final(self).undo_view() == old(self).undo_view().push(act@),
            final(self).redo_view() == Seq::<ActionView>::empty(),
    {
        let ghost before = self.undo_view();
        self.redo_stack.clear();
        self.undo_stack.push(act);
        assert(self.undo_view() =~= before.push(act@));
        assert(self.redo_view() =~= Seq::<ActionView>::empty());
    }

    pub fn can_undo(&self) -> (b: bool)
        ensures
            b == (self.undo_view().len() > 0),
    {
        !self.undo_stack.is_empty()
    }

    pub fn can_redo(&self) -> (b: bool)
        ensures
            b == (self.redo_view().len() > 0),
    {
        !self.redo_stack.is_empty()
    }

    /// Undoes what was done last, if anything, and keeps what does it again.
    pub fn undo(&mut self, project: &mut Project)
        requires
            old(self).wf(),
            old(project).terrain_graph.wf(),
        ensures
            final(self).wf(),
            final(project).terrain_graph.wf(),
            old(self).undo_view().len() == 0 ==> final(project)@ == old(project)@ && final(self).undo_view() == old(self).undo_view() && final(self).redo_view() == old(self).redo_view(),
            old(self).undo_view().len() > 0 ==> final(project)@ == performed(
                old(project)@,
                old(self).undo_view().last(),
            ).0 && final(self).undo_view() == old(self).undo_view().drop_last() && final(self).redo_view() == old(self).redo_view().push(
                performed(old(project)@, old(self).undo_view().last()).1,
            ),
    {
        let ghost undo = self.undo_view();
        let ghost redo = self.redo_view();
        match self.undo_stack.pop() {
            Some(act) => {
                assert(act@ == undo.last());
                assert(actions_fit(undo[undo.len() - 1]));
                let inverse = act.perform(project);
                self.redo_stack.push(inverse);
                assert(self.undo_view() =~= undo.drop_last());
                assert(self.redo_view() =~= redo.push(inverse@));
                assert forall|i: int| 0 <= i < self.undo_view().len() implies actions_fit(
                    #[trigger] self.undo_view()[i],
                ) by {
                    assert(self.undo_view()[i] == undo[i]);
                }
                assert forall|i: int| 0 <= i < self.redo_view().len() implies actions_fit(
                    #[trigger] self.redo_view()[i],
                ) by {
                    if i < redo.len() {
                        assert(self.redo_view()[i] == redo[i]);
                    }
                }
            },
            None => {
                assert(self.undo_view() =~= undo);
            },
        }
    }

    /// Does again what was undone last, if anything, and keeps what undoes
    /// it.
    pub fn redo(&mut self, project: &mut Project)
        requires
            old(self).wf(),
            old(project).terrain_graph.wf(),
        ensures
            final(self).wf(),
            final(project).terrain_graph.wf(),
            old(self).redo_view().len() == 0 ==> final(project)@ == old(project)@ && final(self).undo_view() == old(self).undo_view() && final(self).redo_view() == old(self).redo_view(),
            old(self).redo_view().len() > 0 ==> final(project)@ == performed(
                old(project)@,
                old(self).redo_view().last(),
            ).0 && final(self).redo_view() == old(self).redo_view().drop_last() && final(self).undo_view() == old(self).undo_view().push(
                performed(old(project)@, old(self).redo_view().last()).1,
            ),
    {
        let ghost undo = self.undo_view();
        let ghost redo = self.redo_view();
        match self.redo_stack.pop() {
            Some(act) => {
                assert(act@ == redo.last());
                assert(actions_fit(redo[redo.len() - 1]));
                let inverse = act.perform(project);
                self.undo_stack.push(inverse);
                assert(self.redo_view() =~= redo.drop_last());
                assert(self.undo_view() =~= undo.push(inverse@));
                assert forall|i: int| 0 <= i < self.redo_view().len() implies actions_fit(
                    #[trigger] self.redo_view()[i],
                ) by {
                    assert(self.redo_view()[i] == redo[i]);
                }
                assert forall|i: int| 0 <= i < self.undo_view().len() implies actions_fit(
                    #[trigger] self.undo_view()[i],
                ) by {
                    if i < undo.len() {
                        assert(self.undo_view()[i] == undo[i]);
                    }
                }
            },
            None => {
                assert(self.redo_view() =~= redo);
            },
        }
    }
}

/// The action that puts back a node that was deleted: the node itself, then
/// the first `n` of the edges that were cut.
pub open spec fn restoring(id: NodeId, pos: Pos, ty: NodeTypeView, cut: Seq<Connection>, n: int) -> Seq<
    ActionView,
>
    decreases n,
{
    if n <= 0 {
        seq![ActionView::GraphAddNode(id, pos, ty)]
    } else {
        restoring(id, pos, ty, cut, n - 1).push(ActionView::GraphConnect(cut[n - 1]))
    }
}

impl TerrainGraph {
    /// Puts a node into the graph under a new handle and keeps the action
    /// that deletes it again.
    pub fn add_node_from_box_ty_with_action(
        &mut self,
        pos: Pos,
        ty: NodeType,
        actions: &mut ActionManager,
    )
        requires
            old(self).wf(),
            ty.wf(),
            old(self)@.curr_node_id.0 < u64::MAX,
            old(actions).wf(),
        ensures
            final(self).wf(),
            final(actions).wf(),
            final(self)@ == (GraphView {
                curr_node_id: NodeId((old(self)@.curr_node_id.0 + 1) as u64),
                ..old(self)@
            }).inserted(old(self)@.curr_node_id, pos, ty@),
            final(actions).undo_view() == old(actions).undo_view().push(
                ActionView::GraphDeleteNode(old(self)@.curr_node_id),
            ),
            final(actions).redo_view() == Seq::<ActionView>::empty(),
    {
        let node = self.add_node_from_box_ty(pos, ty);
        actions.push_undo_action(Action::GraphDeleteNode(node));
    }

    /// Deletes a node and keeps the action that puts it back with the edges
    /// that were cut. If there is no such node, nothing is kept.
    pub fn delete_node_with_action(&mut self, id: NodeId, actions: &mut ActionManager)
        requires
            old(self).wf(),
            old(actions).wf(),
        ensures
            final(self).wf(),
            final(actions).wf(),
            final(self)@ == old(self)@.deleted(id),
            !old(self)@.has_node(id) ==> final(actions).undo_view() == old(actions).undo_view()
                && final(actions).redo_view() == old(actions).redo_view(),
            old(self)@.has_node(id) ==> final(actions).undo_view() == old(actions).undo_view().push(
                ActionView::Compound(
                    restoring(
                        id,
                        old(self)@.nodes[old(self)@.index_of(id)].pos,
                        old(self)@.severed(id).nodes[old(self)@.index_of(id)].ty,
                        old(self)@.edges_from(id, old(self)@.nodes.len() as int),
                        old(self)@.edges_from(id, old(self)@.nodes.len() as int).len() as int,
                    ),
                ),
            ) && final(actions).redo_view() == Seq::<ActionView>::empty(),
    {
        let ghost g = self@;
        let (cut, node) = self.delete_node(id);
        let node = match node {
            Some(node) => node,
            None => {
                return ;
            },
        };
        proof {
            let i = g.index_of(id);
            assert(g.nodes[i].ty.wf());
            assert(g.severed(id).nodes[i].ty.wf());
        }
        let ghost pos = node.pos;
        let ghost ty = node.ty@;
        let mut acts: Vec<Action> = Vec::new();
        acts.push(Action::GraphAddNode(id, node.pos, node.ty));
        assert(views_of(acts@) =~= restoring(id, pos, ty, cut@, 0));
        let mut k: usize = 0;
        while k < cut.len()
            invariant
                k <= cut.len(),
                ty.wf(),
                views_of(acts@) == restoring(id, pos, ty, cut@, k as int),
                forall|i: int| 0 <= i < acts@.len() ==> actions_fit((#[trigger] acts@[i])@),
            decreases cut.len() - k,
        {
            let ghost before = views_of(acts@);
            acts.push(Action::GraphConnect(cut[k]));
            assert(views_of(acts@) =~= before.push(ActionView::GraphConnect(cut@[k as int])));
            k += 1;
        }
        let act = Action::Compound(acts);
        proof {
            assert(act@->Compound_0 =~= views_of(acts@));
            assert forall|i: int| 0 <= i < act@->Compound_0.len() implies actions_fit(
                #[trigger] act@->Compound_0[i],
            ) by {
                assert(act@->Compound_0[i] == acts@[i]@);
            }
        }
        actions.push_undo_action(act);
    }

    /// Installs an edge and, if it was installed, keeps the action that
    /// cuts it again and puts back the edge that it replaced.
    pub fn connect_with_action(&mut self, conn: Connection, actions: &mut ActionManager)
        requires
            old(self).wf(),
            old(actions).wf(),
        ensures
            final(self).wf(),
            final(actions).wf(),
            final(self)@ == old(self)@.connected(conn),
            !old(self)@.can_connect(conn) ==> final(actions).undo_view() == old(actions).undo_view()
                && final(actions).redo_view() == old(actions).redo_view(),
            old(self)@.can_connect(conn) ==> final(actions).redo_view() == Seq::<ActionView>::empty()
                && final(actions).undo_view() == old(actions).undo_view().push(
                match old(self)@.edge_at(conn.to, conn.inp_idx) {
                    Some(replaced) => ActionView::Compound(
                        seq![
                            ActionView::GraphDisconnect { to_node: conn.to, in_idx: conn.inp_idx },
                            ActionView::GraphConnect(replaced),
                        ],
                    ),
                    None => ActionView::GraphDisconnect { to_node: conn.to, in_idx: conn.inp_idx },
                },
            ),
    {
        let (connected, replaced) = self.connect(conn);
        if !connected {
            return ;
        }
        let cut = Action::GraphDisconnect { to_node: conn.to, in_idx: conn.inp_idx };
        match replaced {
            Some(replaced) => {
                let mut acts: Vec<Action> = Vec::new();
                acts.push(cut);
                acts.push(Action::GraphConnect(replaced));
                let act = Action::Compound(acts);
                proof {
                    reveal_with_fuel(action_view, 3);
                    reveal_with_fuel(actions_fit, 2);
                    assert(act@->Compound_0 =~= seq![
                        ActionView::GraphDisconnect { to_node: conn.to, in_idx: conn.inp_idx },
                        ActionView::GraphConnect(replaced),
                    ]);
                }
                actions.push_undo_action(act);
            },
            None => {
                actions.push_undo_action(cut);
            },
        }
    }

    /// Cuts what feeds an input and, if anything was cut, keeps the action
    /// that installs it again.
    pub fn disconnect_with_action(&mut self, node: NodeId, inp_idx: u32, actions: &mut ActionManager)
        requires
            old(self).wf(),
            old(actions).wf(),
        ensures
            final(self).wf(),
            final(actions).wf(),
            final(self)@ == old(self)@.without_edge(node, inp_idx),
            match old(self)@.edge_at(node, inp_idx) {
                Some(cut) => final(actions).undo_view() == old(actions).undo_view().push(
                    ActionView::GraphConnect(cut),
                ) && final(actions).redo_view() == Seq::<ActionView>::empty(),
                None => final(actions).undo_view() == old(actions).undo_view() && final(actions).redo_view() == old(actions).redo_view(),
            },
    {
        match self.disconnect(node, inp_idx) {
            Some(conn) => {
                actions.push_undo_action(Action::GraphConnect(conn));
            },
            None => {},
        }
    }
}

} // verus!
