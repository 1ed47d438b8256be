//! A project: a graph and a biome table, saved as one document.

use vstd::prelude::*;
use vstd::string::*;
use crate::biome::document::{biomes_json, biomes_of_json};
use crate::biome::{Biomes, BiomesView};
use crate::graph::document::{graph_json, graph_of_json};
use crate::graph::{GraphView, TerrainGraph};
use crate::json::{Field, Json, JsonView};

verus! {

/// What a project holds.
#[derive(Clone, Debug)]
pub struct Project {
    pub terrain_graph: TerrainGraph,
    pub biomes: Biomes,
}

/// A project as a document.
pub open spec fn project_json(graph: GraphView, biomes: BiomesView) -> JsonView {
    JsonView::Object(seq![("graph"@, graph_json(graph)), ("biomes"@, biomes_json(biomes))])
}

/// The graph that a project takes from a document, if the document holds
/// one.
pub open spec fn loaded_graph(j: JsonView) -> Option<GraphView> {
    if !(j is Object) {
        None
    } else {
        match j.get("graph"@) {
            Some(graph) => graph_of_json(graph),
            None => None,
        }
    }
}

/// The biome table that a project takes from a document that holds a
/// graph: the table that the document holds, or a fresh one if it holds
/// none.
pub open spec fn loaded_biomes(j: JsonView) -> BiomesView {
    match j.get("biomes"@) {
        Some(biomes) => match biomes_of_json(biomes) {
            Some(b) => b,
            None => BiomesView::fresh(),
        },
        None => BiomesView::fresh(),
    }
}

impl Project {
    /// The project as a document.
    pub fn to_json(&self) -> (j: Json)
        requires
            self.terrain_graph.wf(),
        ensures
            j@ == project_json(self.terrain_graph@, self.biomes@),
    {
        let mut fields: Vec<Field> = Vec::new();
        fields.push(Field { key: String::from_str("graph"), val: self.terrain_graph.to_json() });
        fields.push(Field { key: String::from_str("biomes"), val: self.biomes.to_json() });
        let j = Json::Object(fields);
        assert(j@->Object_0 =~= project_json(self.terrain_graph@, self.biomes@)->Object_0);
        j
    }

    /// Replaces graph and biome table by those that a document holds. A
    /// document that holds no graph changes nothing; one that holds a graph
    /// but no biome table gives a fresh table.
    pub fn load_from_json(&mut self, data: &Json)
        requires
            old(self).terrain_graph.wf(),
        ensures
            final(self).terrain_graph.wf(),
            match loaded_graph(data@) {
                Some(graph) => final(self).terrain_graph@ == graph && final(self).biomes@
                    == loaded_biomes(data@),
                None => final(self).terrain_graph@ == old(self).terrain_graph@ && final(self).biomes@
                    == old(self).biomes@,
            },
    {
        match data {
            Json::Object(_) => {},
            _ => {
                return ;
            },
        }
        let graph = match data.get("graph") {
            Some(graph) => TerrainGraph::from_json(graph),
            None => None,
        };
        let graph = match graph {
            Some(graph) => graph,
            None => {
                return ;
            },
        };
        let biomes = match data.get("biomes") {
            Some(biomes) => match Biomes::from_json(biomes) {
                Some(biomes) => biomes,
                None => Biomes::new(),
            },
            None => Biomes::new(),
        };
        self.terrain_graph = graph;
        self.biomes = biomes;
    }
}

} // verus!
