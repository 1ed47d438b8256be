//! The catalog of node kinds.
//!
//! A kind fixes the label shown to the user, the typed inputs with their
//! default literals, the typed outputs, and the statements it emits for each
//! target. The catalog is closed: every kind is a variant of [`NodeKind`], and
//! [`catalog`] lists them in the order in which they are offered.

pub mod biome;
pub mod heightmap;
pub mod math;
pub mod noise;
pub mod terrain;
pub mod trig;
pub mod vector;

use vstd::prelude::*;
use vstd::string::*;
use crate::compiler::CompilationTarget;
use crate::decimal::Decimal;
use crate::biome::BiomesView;
use crate::graph::node_types::biome::{parameter_text, weight_text, BiomeParameter, BiomeWeight};
use crate::graph::node_types::heightmap::{emit_heightmap, heightmap_text};
use crate::graph::node_types::math::{emit_math, math_text};
use crate::graph::node_types::noise::{emit_noise, noise_text};
use crate::graph::node_types::terrain::{emit_terrain, terrain_text};
use crate::graph::node_types::trig::{emit_trig, trig_text};
use crate::graph::node_types::vector::{emit_vector, vector_text};
use crate::graph::{GraphProjectInfo, NodeId, NodeInput, Type, Value};
use crate::text::str_eq;

verus! {

/// The groups under which the kinds are offered.
#[derive(Clone, Copy, PartialEq, Eq, Structural, Debug)]
pub enum Category {
    Terrain,
    Heightmap,
    Math,
    VectorMath,
    Noise,
    Trig,
    Biome,
}

/// Every kind of node.
#[derive(Clone, Copy, PartialEq, Eq, Structural, Debug)]
pub enum NodeKind {
    TerrainOutput,
    HeightmapTerrain,
    FractalNoiseTerrain,
    BlobCaveTerrain,
    SpaghettiCaveTerrain,
    InvertTerrain,
    ErodeTerrain,
    TerrainUnion,
    TerrainIntersection,
    TerrainToSDF,
    SDFToTerrain,
    NoiseHeightmap,
    RidgeHeightmap,
    Add,
    Subtract,
    Multiply,
    Divide,
    Power,
    Log,
    Min,
    Max,
    GreaterThan,
    LessThan,
    Equal,
    Floor,
    Round,
    Ceil,
    Frac,
    Abs,
    Sign,
    Clamp,
    Lerp,
    MapRange,
    CombineXYZ,
    SeparateXYZ,
    VectorAdd,
    VectorSubtract,
    VectorScale,
    VectorMultiply,
    DotProduct,
    CrossProduct,
    Length,
    Distance,
    Normalize,
    Position,
    Noise3D,
    Noise2D,
    Sin,
    Cos,
    Tan,
    Asin,
    Acos,
    Atan,
    BiomeParameter,
    BiomeWeight,
}

/// Number of kinds in the catalog.
pub const KIND_COUNT: usize = 55;

/// All kinds, group by group, in the order in which they are offered.
pub open spec fn catalog() -> Seq<NodeKind> {
    seq![
        NodeKind::TerrainOutput,
        NodeKind::HeightmapTerrain,
        NodeKind::FractalNoiseTerrain,
        NodeKind::BlobCaveTerrain,
        NodeKind::SpaghettiCaveTerrain,
        NodeKind::InvertTerrain,
        NodeKind::ErodeTerrain,
        NodeKind::TerrainUnion,
        NodeKind::TerrainIntersection,
        NodeKind::TerrainToSDF,
        NodeKind::SDFToTerrain,
        NodeKind::NoiseHeightmap,
        NodeKind::RidgeHeightmap,
        NodeKind::Add,
        NodeKind::Subtract,
        NodeKind::Multiply,
        NodeKind::Divide,
        NodeKind::Power,
        NodeKind::Log,
        NodeKind::Min,
        NodeKind::Max,
        NodeKind::GreaterThan,
        NodeKind::LessThan,
        NodeKind::Equal,
        NodeKind::Floor,
        NodeKind::Round,
        NodeKind::Ceil,
        NodeKind::Frac,
        NodeKind::Abs,
        NodeKind::Sign,
        NodeKind::Clamp,
        NodeKind::Lerp,
        NodeKind::MapRange,
        NodeKind::CombineXYZ,
        NodeKind::SeparateXYZ,
        NodeKind::VectorAdd,
        NodeKind::VectorSubtract,
        NodeKind::VectorScale,
        NodeKind::VectorMultiply,
        NodeKind::DotProduct,
        NodeKind::CrossProduct,
        NodeKind::Length,
        NodeKind::Distance,
        NodeKind::Normalize,
        NodeKind::Position,
        NodeKind::Noise3D,
        NodeKind::Noise2D,
        NodeKind::Sin,
        NodeKind::Cos,
        NodeKind::Tan,
        NodeKind::Asin,
        NodeKind::Acos,
        NodeKind::Atan,
        NodeKind::BiomeParameter,
        NodeKind::BiomeWeight,
    ]
}

impl Category {
    pub open spec fn spec_label(self) -> Seq<char> {
        match self {
            Category::Terrain => "Terrain"@,
            Category::Heightmap => "Heightmap"@,
            Category::Math => "Math"@,
            Category::VectorMath => "Vector Math"@,
            Category::Noise => "Noise"@,
            Category::Trig => "Trig"@,
            Category::Biome => "Biome"@,
        }
    }

    /// The name of the group.
    pub fn label(self) -> (s: &'static str)
        ensures
            s@ == self.spec_label(),
    {
        match self {
            Category::Terrain => "Terrain",
            Category::Heightmap => "Heightmap",
            Category::Math => "Math",
            Category::VectorMath => "Vector Math",
            Category::Noise => "Noise",
            Category::Trig => "Trig",
            Category::Biome => "Biome",
        }
    }
}

impl NodeKind {
    /// The kind's place in [`catalog`].
    pub open spec fn spec_index(self) -> int {
        match self {
            NodeKind::TerrainOutput => 0,
            NodeKind::HeightmapTerrain => 1,
            NodeKind::FractalNoiseTerrain => 2,
            NodeKind::BlobCaveTerrain => 3,
            NodeKind::SpaghettiCaveTerrain => 4,
            NodeKind::InvertTerrain => 5,
            NodeKind::ErodeTerrain => 6,
            NodeKind::TerrainUnion => 7,
            NodeKind::TerrainIntersection => 8,
            NodeKind::TerrainToSDF => 9,
            NodeKind::SDFToTerrain => 10,
            NodeKind::NoiseHeightmap => 11,
            NodeKind::RidgeHeightmap => 12,
            NodeKind::Add => 13,
            NodeKind::Subtract => 14,
            NodeKind::Multiply => 15,
            NodeKind::Divide => 16,
            NodeKind::Power => 17,
            NodeKind::Log => 18,
            NodeKind::Min => 19,
            NodeKind::Max => 20,
            NodeKind::GreaterThan => 21,
            NodeKind::LessThan => 22,
            NodeKind::Equal => 23,
            NodeKind::Floor => 24,
            NodeKind::Round => 25,
            NodeKind::Ceil => 26,
            NodeKind::Frac => 27,
            NodeKind::Abs => 28,
            NodeKind::Sign => 29,
            NodeKind::Clamp => 30,
            NodeKind::Lerp => 31,
            NodeKind::MapRange => 32,
            NodeKind::CombineXYZ => 33,
            NodeKind::SeparateXYZ => 34,
            NodeKind::VectorAdd => 35,
            NodeKind::VectorSubtract => 36,
            NodeKind::VectorScale => 37,
            NodeKind::VectorMultiply => 38,
            NodeKind::DotProduct => 39,
            NodeKind::CrossProduct => 40,
            NodeKind::Length => 41,
            NodeKind::Distance => 42,
            NodeKind::Normalize => 43,
            NodeKind::Position => 44,
            NodeKind::Noise3D => 45,
            NodeKind::Noise2D => 46,
            NodeKind::Sin => 47,
            NodeKind::Cos => 48,
            NodeKind::Tan => 49,
            NodeKind::Asin => 50,
            NodeKind::Acos => 51,
            NodeKind::Atan => 52,
            NodeKind::BiomeParameter => 53,
            NodeKind::BiomeWeight => 54,
        }
    }

    pub open spec fn spec_label(self) -> Seq<char> {
        match self {
            NodeKind::TerrainOutput => "Terrain Output"@,
            NodeKind::HeightmapTerrain => "Heightmap Terrain"@,
            NodeKind::FractalNoiseTerrain => "Fractal Noise Terrain"@,
            NodeKind::BlobCaveTerrain => "Blob Cave Terrain"@,
            NodeKind::SpaghettiCaveTerrain => "Spaghetti Cave Terrain"@,
            NodeKind::InvertTerrain => "Invert Terrain"@,
            NodeKind::ErodeTerrain => "Erode Terrain"@,
            NodeKind::TerrainUnion => "Terrain Union"@,
            NodeKind::TerrainIntersection => "Terrain Intersection"@,
            NodeKind::TerrainToSDF => "Terrain to SDF"@,
            NodeKind::SDFToTerrain => "SDF To Terrain"@,
            NodeKind::NoiseHeightmap => "Noise Heightmap"@,
            NodeKind::RidgeHeightmap => "Ridge Heightmap"@,
            NodeKind::Add => "Add"@,
            NodeKind::Subtract => "Subtract"@,
            NodeKind::Multiply => "Multiply"@,
            NodeKind::Divide => "Divide"@,
            NodeKind::Power => "Power"@,
            NodeKind::Log => "Log"@,
            NodeKind::Min => "Min"@,
            NodeKind::Max => "Max"@,
            NodeKind::GreaterThan => "Greater Than"@,
            NodeKind::LessThan => "Less Than"@,
            NodeKind::Equal => "Equal"@,
            NodeKind::Floor => "Floor"@,
            NodeKind::Round => "Round"@,
            NodeKind::Ceil => "Ceil"@,
            NodeKind::Frac => "Frac"@,
            NodeKind::Abs => "Abs"@,
            NodeKind::Sign => "Sign"@,
            NodeKind::Clamp => "Clamp"@,
            NodeKind::Lerp => "Lerp"@,
            NodeKind::MapRange => "Map Range"@,
            NodeKind::CombineXYZ => "Combine XYZ"@,
            NodeKind::SeparateXYZ => "Separate XYZ"@,
            NodeKind::VectorAdd => "Vector Add"@,
            NodeKind::VectorSubtract => "Vector Subtract"@,
            NodeKind::VectorScale => "Vector Scale"@,
            NodeKind::VectorMultiply => "Vector Multiply"@,
            NodeKind::DotProduct => "Dot Product"@,
            NodeKind::CrossProduct => "Cross Product"@,
            NodeKind::Length => "Length"@,
            NodeKind::Distance => "Distance"@,
            NodeKind::Normalize => "Normalize"@,
            NodeKind::Position => "Position"@,
            NodeKind::Noise3D => "Noise 3D"@,
            NodeKind::Noise2D => "Noise 2D"@,
            NodeKind::Sin => "Sin"@,
            NodeKind::Cos => "Cos"@,
            NodeKind::Tan => "Tan"@,
            NodeKind::Asin => "Asin"@,
            NodeKind::Acos => "Acos"@,
            NodeKind::Atan => "Atan"@,
            NodeKind::BiomeParameter => "Biome Parameter"@,
            NodeKind::BiomeWeight => "Biome Weight"@,
        }
    }

    pub open spec fn spec_category(self) -> Category {
        match self {
            NodeKind::TerrainOutput | NodeKind::HeightmapTerrain
            | NodeKind::FractalNoiseTerrain | NodeKind::BlobCaveTerrain
            | NodeKind::SpaghettiCaveTerrain | NodeKind::InvertTerrain
            | NodeKind::ErodeTerrain | NodeKind::TerrainUnion | NodeKind::TerrainIntersection
            | NodeKind::TerrainToSDF | NodeKind::SDFToTerrain => Category::Terrain,
            NodeKind::NoiseHeightmap | NodeKind::RidgeHeightmap => Category::Heightmap,
            NodeKind::Add | NodeKind::Subtract | NodeKind::Multiply | NodeKind::Divide
            | NodeKind::Power | NodeKind::Log | NodeKind::Min | NodeKind::Max
            | NodeKind::GreaterThan | NodeKind::LessThan | NodeKind::Equal | NodeKind::Floor
            | NodeKind::Round | NodeKind::Ceil | NodeKind::Frac | NodeKind::Abs
            | NodeKind::Sign | NodeKind::Clamp | NodeKind::Lerp | NodeKind::MapRange => Category::Math,
            NodeKind::CombineXYZ | NodeKind::SeparateXYZ | NodeKind::VectorAdd
            | NodeKind::VectorSubtract | NodeKind::VectorScale | NodeKind::VectorMultiply
            | NodeKind::DotProduct | NodeKind::CrossProduct | NodeKind::Length
            | NodeKind::Distance | NodeKind::Normalize | NodeKind::Position => Category::VectorMath,
            NodeKind::Noise3D | NodeKind::Noise2D => Category::Noise,
            NodeKind::Sin | NodeKind::Cos | NodeKind::Tan | NodeKind::Asin | NodeKind::Acos
            | NodeKind::Atan => Category::Trig,
            NodeKind::BiomeParameter | NodeKind::BiomeWeight => Category::Biome,
        }
    }

    /// The names of the inputs, in their order.
    pub open spec fn spec_input_names(self) -> Seq<Seq<char>> {
        match self {
            NodeKind::TerrainOutput | NodeKind::InvertTerrain | NodeKind::TerrainToSDF => seq!["terrain"@],
            NodeKind::HeightmapTerrain => seq!["height"@],
            NodeKind::FractalNoiseTerrain | NodeKind::BlobCaveTerrain
            | NodeKind::SpaghettiCaveTerrain => seq!["scale"@],
            NodeKind::ErodeTerrain => seq!["terrain"@, "depth"@],
            NodeKind::TerrainUnion | NodeKind::TerrainIntersection | NodeKind::Add
            | NodeKind::Subtract | NodeKind::Multiply | NodeKind::Divide | NodeKind::Min
            | NodeKind::Max | NodeKind::GreaterThan | NodeKind::LessThan | NodeKind::VectorAdd
            | NodeKind::VectorSubtract | NodeKind::VectorMultiply | NodeKind::DotProduct
            | NodeKind::CrossProduct | NodeKind::Distance => seq!["a"@, "b"@],
            NodeKind::SDFToTerrain => seq!["sdf"@],
            NodeKind::NoiseHeightmap | NodeKind::RidgeHeightmap => seq!["scale"@, "min"@, "max"@],
            NodeKind::Power => seq!["base"@, "exp"@],
            NodeKind::Log => seq!["base"@, "x"@],
            NodeKind::Equal => seq!["a"@, "b"@, "eps"@],
            NodeKind::Floor | NodeKind::Round | NodeKind::Ceil | NodeKind::Frac
            | NodeKind::Abs | NodeKind::Sign | NodeKind::Sin | NodeKind::Cos | NodeKind::Tan
            | NodeKind::Asin | NodeKind::Acos | NodeKind::Atan => seq!["x"@],
            NodeKind::Clamp | NodeKind::Lerp => seq!["x"@, "min"@, "max"@],
            NodeKind::MapRange => seq!["x"@, "from min"@, "from max"@, "to min"@, "to max"@],
            NodeKind::CombineXYZ => seq!["x"@, "y"@, "z"@],
            NodeKind::SeparateXYZ | NodeKind::Length | NodeKind::Normalize => seq!["vec"@],
            NodeKind::VectorScale => seq!["vec"@, "scl"@],
            NodeKind::Position | NodeKind::BiomeParameter | NodeKind::BiomeWeight => Seq::empty(),
            NodeKind::Noise3D | NodeKind::Noise2D => seq!["pos"@, "size"@, "amplitude"@, "lacunarity"@, "gain"@],
        }
    }

    /// The types of the inputs, in their order.
    pub open spec fn spec_input_types(self) -> Seq<Type> {
        match self {
            NodeKind::TerrainOutput | NodeKind::InvertTerrain | NodeKind::TerrainToSDF => seq![Type::Terrain],
            NodeKind::HeightmapTerrain | NodeKind::FractalNoiseTerrain
            | NodeKind::BlobCaveTerrain | NodeKind::SpaghettiCaveTerrain
            | NodeKind::SDFToTerrain | NodeKind::Floor | NodeKind::Round | NodeKind::Ceil
            | NodeKind::Frac | NodeKind::Abs | NodeKind::Sign | NodeKind::Sin | NodeKind::Cos
            | NodeKind::Tan | NodeKind::Asin | NodeKind::Acos | NodeKind::Atan => seq![Type::Scalar],
            NodeKind::ErodeTerrain => seq![Type::Terrain, Type::Scalar],
            NodeKind::TerrainUnion | NodeKind::TerrainIntersection => seq![Type::Terrain, Type::Terrain],
            NodeKind::NoiseHeightmap | NodeKind::RidgeHeightmap | NodeKind::Equal
            | NodeKind::Clamp | NodeKind::Lerp | NodeKind::CombineXYZ => seq![Type::Scalar, Type::Scalar, Type::Scalar],
            NodeKind::Add | NodeKind::Subtract | NodeKind::Multiply | NodeKind::Divide
            | NodeKind::Power | NodeKind::Log | NodeKind::Min | NodeKind::Max
            | NodeKind::GreaterThan | NodeKind::LessThan => seq![Type::Scalar, Type::Scalar],
            NodeKind::MapRange => seq![Type::Scalar, Type::Scalar, Type::Scalar, Type::Scalar, Type::Scalar],
            NodeKind::SeparateXYZ | NodeKind::Length | NodeKind::Normalize => seq![Type::Vector],
            NodeKind::VectorAdd | NodeKind::VectorSubtract | NodeKind::VectorMultiply
            | NodeKind::DotProduct | NodeKind::CrossProduct | NodeKind::Distance => seq![Type::Vector, Type::Vector],
            NodeKind::VectorScale => seq![Type::Vector, Type::Scalar],
            NodeKind::Position | NodeKind::BiomeParameter | NodeKind::BiomeWeight => Seq::empty(),
            NodeKind::Noise3D | NodeKind::Noise2D => seq![Type::Vector, Type::Scalar, Type::Scalar, Type::Scalar, Type::Scalar],
        }
    }

    /// The literals that the inputs of a fresh node hold, in their order.
    pub open spec fn spec_input_defaults(self) -> Seq<Value> {
        match self {
            NodeKind::TerrainOutput | NodeKind::InvertTerrain | NodeKind::TerrainToSDF => seq![Value::Terrain],
            NodeKind::HeightmapTerrain | NodeKind::SDFToTerrain | NodeKind::Floor
            | NodeKind::Round | NodeKind::Ceil | NodeKind::Frac | NodeKind::Abs
            | NodeKind::Sign | NodeKind::Sin | NodeKind::Cos | NodeKind::Tan | NodeKind::Asin
            | NodeKind::Acos | NodeKind::Atan => seq![scalar(0)],
            NodeKind::FractalNoiseTerrain | NodeKind::BlobCaveTerrain
            | NodeKind::SpaghettiCaveTerrain => seq![scalar(300_000)],
            NodeKind::ErodeTerrain => seq![Value::Terrain, scalar(500_000)],
            NodeKind::TerrainUnion | NodeKind::TerrainIntersection => seq![Value::Terrain, Value::Terrain],
            NodeKind::NoiseHeightmap => seq![scalar(1_000_000), scalar(0), scalar(10_000_000)],
            NodeKind::RidgeHeightmap => seq![scalar(1_000_000), scalar(0), scalar(50_000_000)],
            NodeKind::Add | NodeKind::Subtract | NodeKind::Multiply | NodeKind::Divide
            | NodeKind::Power | NodeKind::Min | NodeKind::Max | NodeKind::GreaterThan
            | NodeKind::LessThan => seq![scalar(0), scalar(0)],
            NodeKind::Log => seq![scalar(2_718_282), scalar(1_000_000)],
            NodeKind::Equal => seq![scalar(0), scalar(0), scalar(50_000)],
            NodeKind::Clamp | NodeKind::Lerp => seq![scalar(0), scalar(0), scalar(1_000_000)],
            NodeKind::MapRange => seq![scalar(0), scalar(0), scalar(1_000_000), scalar(0), scalar(1_000_000)],
            NodeKind::CombineXYZ => seq![scalar(0), scalar(0), scalar(0)],
            NodeKind::SeparateXYZ | NodeKind::Length | NodeKind::Normalize => seq![origin()],
            NodeKind::VectorAdd | NodeKind::VectorSubtract | NodeKind::VectorMultiply
            | NodeKind::DotProduct | NodeKind::CrossProduct | NodeKind::Distance => seq![origin(), origin()],
            NodeKind::VectorScale => seq![origin(), scalar(1_000_000)],
            NodeKind::Position | NodeKind::BiomeParameter | NodeKind::BiomeWeight => Seq::empty(),
            NodeKind::Noise3D | NodeKind::Noise2D => seq![origin(), scalar(1_000_000), scalar(1_000_000), scalar(2_000_000), scalar(500_000)],
        }
    }

    /// The names of the outputs, in their order.
    pub open spec fn spec_output_names(self) -> Seq<Seq<char>> {
        match self {
            NodeKind::TerrainOutput => Seq::empty(),
            NodeKind::HeightmapTerrain | NodeKind::FractalNoiseTerrain
            | NodeKind::BlobCaveTerrain | NodeKind::SpaghettiCaveTerrain
            | NodeKind::InvertTerrain | NodeKind::ErodeTerrain | NodeKind::TerrainUnion
            | NodeKind::TerrainIntersection | NodeKind::SDFToTerrain => seq!["terrain"@],
            NodeKind::TerrainToSDF => seq!["sdf"@],
            NodeKind::NoiseHeightmap | NodeKind::RidgeHeightmap => seq!["height"@],
            NodeKind::Add | NodeKind::Subtract | NodeKind::Multiply | NodeKind::Divide
            | NodeKind::Min | NodeKind::Max | NodeKind::GreaterThan | NodeKind::LessThan
            | NodeKind::Equal | NodeKind::VectorAdd | NodeKind::VectorSubtract
            | NodeKind::VectorMultiply => seq!["c"@],
            NodeKind::Power | NodeKind::Log | NodeKind::Floor | NodeKind::Round
            | NodeKind::Ceil | NodeKind::Frac | NodeKind::Abs | NodeKind::Sign
            | NodeKind::Clamp | NodeKind::Lerp | NodeKind::MapRange | NodeKind::VectorScale
            | NodeKind::Sin | NodeKind::Cos | NodeKind::Tan | NodeKind::Asin | NodeKind::Acos
            | NodeKind::Atan => seq!["out"@],
            NodeKind::CombineXYZ | NodeKind::Normalize => seq!["vec"@],
            NodeKind::SeparateXYZ => seq!["x"@, "y"@, "z"@],
            NodeKind::DotProduct => seq!["dot"@],
            NodeKind::CrossProduct => seq!["cross"@],
            NodeKind::Length => seq!["length"@],
            NodeKind::Distance => seq!["distance"@],
            NodeKind::Position => seq!["position"@],
            NodeKind::Noise3D | NodeKind::Noise2D => seq!["noise"@],
            NodeKind::BiomeParameter => seq!["x"@],
            NodeKind::BiomeWeight => seq!["weight"@],
        }
    }

    /// The types of the outputs, in their order.
    pub open spec fn spec_output_types(self) -> Seq<Type> {
        match self {
            NodeKind::TerrainOutput => Seq::empty(),
            NodeKind::HeightmapTerrain | NodeKind::FractalNoiseTerrain
            | NodeKind::BlobCaveTerrain | NodeKind::SpaghettiCaveTerrain
            | NodeKind::InvertTerrain | NodeKind::ErodeTerrain | NodeKind::TerrainUnion
            | NodeKind::TerrainIntersection | NodeKind::SDFToTerrain => seq![Type::Terrain],
            NodeKind::TerrainToSDF | NodeKind::NoiseHeightmap | NodeKind::RidgeHeightmap
            | NodeKind::Add | NodeKind::Subtract | NodeKind::Multiply | NodeKind::Divide
            | NodeKind::Power | NodeKind::Log | NodeKind::Min | NodeKind::Max
            | NodeKind::GreaterThan | NodeKind::LessThan | NodeKind::Equal | NodeKind::Floor
            | NodeKind::Round | NodeKind::Ceil | NodeKind::Frac | NodeKind::Abs
            | NodeKind::Sign | NodeKind::Clamp | NodeKind::Lerp | NodeKind::MapRange
            | NodeKind::DotProduct | NodeKind::Length | NodeKind::Distance | NodeKind::Noise3D
            | NodeKind::Noise2D | NodeKind::Sin | NodeKind::Cos | NodeKind::Tan
            | NodeKind::Asin | NodeKind::Acos | NodeKind::Atan | NodeKind::BiomeParameter
            | NodeKind::BiomeWeight => seq![Type::Scalar],
            NodeKind::CombineXYZ | NodeKind::VectorAdd | NodeKind::VectorSubtract
            | NodeKind::VectorScale | NodeKind::VectorMultiply | NodeKind::CrossProduct
            | NodeKind::Normalize | NodeKind::Position => seq![Type::Vector],
            NodeKind::SeparateXYZ => seq![Type::Scalar, Type::Scalar, Type::Scalar],
        }
    }

    /// The label shown to the user; it also names the kind in saved files.
    pub fn label(self) -> (s: &'static str)
        ensures
            s@ == self.spec_label(),
    {
        match self {
            NodeKind::TerrainOutput => "Terrain Output",
            NodeKind::HeightmapTerrain => "Heightmap Terrain",
            NodeKind::FractalNoiseTerrain => "Fractal Noise Terrain",
            NodeKind::BlobCaveTerrain => "Blob Cave Terrain",
            NodeKind::SpaghettiCaveTerrain => "Spaghetti Cave Terrain",
            NodeKind::InvertTerrain => "Invert Terrain",
            NodeKind::ErodeTerrain => "Erode Terrain",
            NodeKind::TerrainUnion => "Terrain Union",
            NodeKind::TerrainIntersection => "Terrain Intersection",
            NodeKind::TerrainToSDF => "Terrain to SDF",
            NodeKind::SDFToTerrain => "SDF To Terrain",
            NodeKind::NoiseHeightmap => "Noise Heightmap",
            NodeKind::RidgeHeightmap => "Ridge Heightmap",
            NodeKind::Add => "Add",
            NodeKind::Subtract => "Subtract",
            NodeKind::Multiply => "Multiply",
            NodeKind::Divide => "Divide",
            NodeKind::Power => "Power",
            NodeKind::Log => "Log",
            NodeKind::Min => "Min",
            NodeKind::Max => "Max",
            NodeKind::GreaterThan => "Greater Than",
            NodeKind::LessThan => "Less Than",
            NodeKind::Equal => "Equal",
            NodeKind::Floor => "Floor",
            NodeKind::Round => "Round",
            NodeKind::Ceil => "Ceil",
            NodeKind::Frac => "Frac",
            NodeKind::Abs => "Abs",
            NodeKind::Sign => "Sign",
            NodeKind::Clamp => "Clamp",
            NodeKind::Lerp => "Lerp",
            NodeKind::MapRange => "Map Range",
            NodeKind::CombineXYZ => "Combine XYZ",
            NodeKind::SeparateXYZ => "Separate XYZ",
            NodeKind::VectorAdd => "Vector Add",
            NodeKind::VectorSubtract => "Vector Subtract",
            NodeKind::VectorScale => "Vector Scale",
            NodeKind::VectorMultiply => "Vector Multiply",
            NodeKind::DotProduct => "Dot Product",
            NodeKind::CrossProduct => "Cross Product",
            NodeKind::Length => "Length",
            NodeKind::Distance => "Distance",
            NodeKind::Normalize => "Normalize",
            NodeKind::Position => "Position",
            NodeKind::Noise3D => "Noise 3D",
            NodeKind::Noise2D => "Noise 2D",
            NodeKind::Sin => "Sin",
            NodeKind::Cos => "Cos",
            NodeKind::Tan => "Tan",
            NodeKind::Asin => "Asin",
            NodeKind::Acos => "Acos",
            NodeKind::Atan => "Atan",
            NodeKind::BiomeParameter => "Biome Parameter",
            NodeKind::BiomeWeight => "Biome Weight",
        }
    }

    /// The group under which the kind is offered.
    pub fn category(self) -> (c: Category)
        ensures
            c == self.spec_category(),
    {
        match self {
            NodeKind::TerrainOutput | NodeKind::HeightmapTerrain
            | NodeKind::FractalNoiseTerrain | NodeKind::BlobCaveTerrain
            | NodeKind::SpaghettiCaveTerrain | NodeKind::InvertTerrain
            | NodeKind::ErodeTerrain | NodeKind::TerrainUnion | NodeKind::TerrainIntersection
            | NodeKind::TerrainToSDF | NodeKind::SDFToTerrain => Category::Terrain,
            NodeKind::NoiseHeightmap | NodeKind::RidgeHeightmap => Category::Heightmap,
            NodeKind::Add | NodeKind::Subtract | NodeKind::Multiply | NodeKind::Divide
            | NodeKind::Power | NodeKind::Log | NodeKind::Min | NodeKind::Max
            | NodeKind::GreaterThan | NodeKind::LessThan | NodeKind::Equal | NodeKind::Floor
            | NodeKind::Round | NodeKind::Ceil | NodeKind::Frac | NodeKind::Abs
            | NodeKind::Sign | NodeKind::Clamp | NodeKind::Lerp | NodeKind::MapRange => Category::Math,
            NodeKind::CombineXYZ | NodeKind::SeparateXYZ | NodeKind::VectorAdd
            | NodeKind::VectorSubtract | NodeKind::VectorScale | NodeKind::VectorMultiply
            | NodeKind::DotProduct | NodeKind::CrossProduct | NodeKind::Length
            | NodeKind::Distance | NodeKind::Normalize | NodeKind::Position => Category::VectorMath,
            NodeKind::Noise3D | NodeKind::Noise2D => Category::Noise,
            NodeKind::Sin | NodeKind::Cos | NodeKind::Tan | NodeKind::Asin | NodeKind::Acos
            | NodeKind::Atan => Category::Trig,
            NodeKind::BiomeParameter | NodeKind::BiomeWeight => Category::Biome,
        }
    }

    pub fn input_names(self) -> (names: Vec<&'static str>)
        ensures
            names@.len() == self.spec_input_names().len(),
            forall|i: int| 0 <= i < names@.len() ==> (#[trigger] names@[i])@ == self.spec_input_names()[i],
    {
        match self {
            NodeKind::TerrainOutput | NodeKind::InvertTerrain | NodeKind::TerrainToSDF => vec!["terrain"],
            NodeKind::HeightmapTerrain => vec!["height"],
            NodeKind::FractalNoiseTerrain | NodeKind::BlobCaveTerrain
            | NodeKind::SpaghettiCaveTerrain => vec!["scale"],
            NodeKind::ErodeTerrain => vec!["terrain", "depth"],
            NodeKind::TerrainUnion | NodeKind::TerrainIntersection | NodeKind::Add
            | NodeKind::Subtract | NodeKind::Multiply | NodeKind::Divide | NodeKind::Min
            | NodeKind::Max | NodeKind::GreaterThan | NodeKind::LessThan | NodeKind::VectorAdd
            | NodeKind::VectorSubtract | NodeKind::VectorMultiply | NodeKind::DotProduct
            | NodeKind::CrossProduct | NodeKind::Distance => vec!["a", "b"],
            NodeKind::SDFToTerrain => vec!["sdf"],
            NodeKind::NoiseHeightmap | NodeKind::RidgeHeightmap => vec!["scale", "min", "max"],
            NodeKind::Power => vec!["base", "exp"],
            NodeKind::Log => vec!["base", "x"],
            NodeKind::Equal => vec!["a", "b", "eps"],
            NodeKind::Floor | NodeKind::Round | NodeKind::Ceil | NodeKind::Frac
            | NodeKind::Abs | NodeKind::Sign | NodeKind::Sin | NodeKind::Cos | NodeKind::Tan
            | NodeKind::Asin | NodeKind::Acos | NodeKind::Atan => vec!["x"],
            NodeKind::Clamp | NodeKind::Lerp => vec!["x", "min", "max"],
            NodeKind::MapRange => vec!["x", "from min", "from max", "to min", "to max"],
            NodeKind::CombineXYZ => vec!["x", "y", "z"],
            NodeKind::SeparateXYZ | NodeKind::Length | NodeKind::Normalize => vec!["vec"],
            NodeKind::VectorScale => vec!["vec", "scl"],
            NodeKind::Position | NodeKind::BiomeParameter | NodeKind::BiomeWeight => Vec::new(),
            NodeKind::Noise3D | NodeKind::Noise2D => vec!["pos", "size", "amplitude", "lacunarity", "gain"],
        }
    }

    pub fn input_types(self) -> (types: Vec<Type>)
        ensures
            types@ == self.spec_input_types(),
    {
        match self {
            NodeKind::TerrainOutput | NodeKind::InvertTerrain | NodeKind::TerrainToSDF => vec![Type::Terrain],
            NodeKind::HeightmapTerrain | NodeKind::FractalNoiseTerrain
            | NodeKind::BlobCaveTerrain | NodeKind::SpaghettiCaveTerrain
            | NodeKind::SDFToTerrain | NodeKind::Floor | NodeKind::Round | NodeKind::Ceil
            | NodeKind::Frac | NodeKind::Abs | NodeKind::Sign | NodeKind::Sin | NodeKind::Cos
            | NodeKind::Tan | NodeKind::Asin | NodeKind::Acos | NodeKind::Atan => vec![Type::Scalar],
            NodeKind::ErodeTerrain => vec![Type::Terrain, Type::Scalar],
            NodeKind::TerrainUnion | NodeKind::TerrainIntersection => vec![Type::Terrain, Type::Terrain],
            NodeKind::NoiseHeightmap | NodeKind::RidgeHeightmap | NodeKind::Equal
            | NodeKind::Clamp | NodeKind::Lerp | NodeKind::CombineXYZ => vec![Type::Scalar, Type::Scalar, Type::Scalar],
            NodeKind::Add | NodeKind::Subtract | NodeKind::Multiply | NodeKind::Divide
            | NodeKind::Power | NodeKind::Log | NodeKind::Min | NodeKind::Max
            | NodeKind::GreaterThan | NodeKind::LessThan => vec![Type::Scalar, Type::Scalar],
            NodeKind::MapRange => vec![Type::Scalar, Type::Scalar, Type::Scalar, Type::Scalar, Type::Scalar],
            NodeKind::SeparateXYZ | NodeKind::Length | NodeKind::Normalize => vec![Type::Vector],
            NodeKind::VectorAdd | NodeKind::VectorSubtract | NodeKind::VectorMultiply
            | NodeKind::DotProduct | NodeKind::CrossProduct | NodeKind::Distance => vec![Type::Vector, Type::Vector],
            NodeKind::VectorScale => vec![Type::Vector, Type::Scalar],
            NodeKind::Position | NodeKind::BiomeParameter | NodeKind::BiomeWeight => Vec::new(),
            NodeKind::Noise3D | NodeKind::Noise2D => vec![Type::Vector, Type::Scalar, Type::Scalar, Type::Scalar, Type::Scalar],
        }
    }

    pub fn input_defaults(self) -> (defaults: Vec<Value>)
        ensures
            defaults@ == self.spec_input_defaults(),
    {
        match self {
            NodeKind::TerrainOutput | NodeKind::InvertTerrain | NodeKind::TerrainToSDF => vec![Value::Terrain],
            NodeKind::HeightmapTerrain | NodeKind::SDFToTerrain | NodeKind::Floor
            | NodeKind::Round | NodeKind::Ceil | NodeKind::Frac | NodeKind::Abs
            | NodeKind::Sign | NodeKind::Sin | NodeKind::Cos | NodeKind::Tan | NodeKind::Asin
            | NodeKind::Acos | NodeKind::Atan => vec![make_scalar(0)],
            NodeKind::FractalNoiseTerrain | NodeKind::BlobCaveTerrain
            | NodeKind::SpaghettiCaveTerrain => vec![make_scalar(300_000)],
            NodeKind::ErodeTerrain => vec![Value::Terrain, make_scalar(500_000)],
            NodeKind::TerrainUnion | NodeKind::TerrainIntersection => vec![Value::Terrain, Value::Terrain],
            NodeKind::NoiseHeightmap => vec![make_scalar(1_000_000), make_scalar(0), make_scalar(10_000_000)],
            NodeKind::RidgeHeightmap => vec![make_scalar(1_000_000), make_scalar(0), make_scalar(50_000_000)],
            NodeKind::Add | NodeKind::Subtract | NodeKind::Multiply | NodeKind::Divide
            | NodeKind::Power | NodeKind::Min | NodeKind::Max | NodeKind::GreaterThan
            | NodeKind::LessThan => vec![make_scalar(0), make_scalar(0)],
            NodeKind::Log => vec![make_scalar(2_718_282), make_scalar(1_000_000)],
            NodeKind::Equal => vec![make_scalar(0), make_scalar(0), make_scalar(50_000)],
            NodeKind::Clamp | NodeKind::Lerp => vec![make_scalar(0), make_scalar(0), make_scalar(1_000_000)],
            NodeKind::MapRange => vec![make_scalar(0), make_scalar(0), make_scalar(1_000_000), make_scalar(0), make_scalar(1_000_000)],
            NodeKind::CombineXYZ => vec![make_scalar(0), make_scalar(0), make_scalar(0)],
            NodeKind::SeparateXYZ | NodeKind::Length | NodeKind::Normalize => vec![make_origin()],
            NodeKind::VectorAdd | NodeKind::VectorSubtract | NodeKind::VectorMultiply
            | NodeKind::DotProduct | NodeKind::CrossProduct | NodeKind::Distance => vec![make_origin(), make_origin()],
            NodeKind::VectorScale => vec![make_origin(), make_scalar(1_000_000)],
            NodeKind::Position | NodeKind::BiomeParameter | NodeKind::BiomeWeight => Vec::new(),
            NodeKind::Noise3D | NodeKind::Noise2D => vec![make_origin(), make_scalar(1_000_000), make_scalar(1_000_000), make_scalar(2_000_000), make_scalar(500_000)],
        }
    }

    pub fn output_names(self) -> (names: Vec<&'static str>)
        ensures
            names@.len() == self.spec_output_names().len(),
            forall|i: int| 0 <= i < names@.len() ==> (#[trigger] names@[i])@ == self.spec_output_names()[i],
    {
        match self {
            NodeKind::TerrainOutput => Vec::new(),
            NodeKind::HeightmapTerrain | NodeKind::FractalNoiseTerrain
            | NodeKind::BlobCaveTerrain | NodeKind::SpaghettiCaveTerrain
            | NodeKind::InvertTerrain | NodeKind::ErodeTerrain | NodeKind::TerrainUnion
            | NodeKind::TerrainIntersection | NodeKind::SDFToTerrain => vec!["terrain"],
            NodeKind::TerrainToSDF => vec!["sdf"],
            NodeKind::NoiseHeightmap | NodeKind::RidgeHeightmap => vec!["height"],
            NodeKind::Add | NodeKind::Subtract | NodeKind::Multiply | NodeKind::Divide
            | NodeKind::Min | NodeKind::Max | NodeKind::GreaterThan | NodeKind::LessThan
            | NodeKind::Equal | NodeKind::VectorAdd | NodeKind::VectorSubtract
            | NodeKind::VectorMultiply => vec!["c"],
            NodeKind::Power | NodeKind::Log | NodeKind::Floor | NodeKind::Round
            | NodeKind::Ceil | NodeKind::Frac | NodeKind::Abs | NodeKind::Sign
            | NodeKind::Clamp | NodeKind::Lerp | NodeKind::MapRange | NodeKind::VectorScale
            | NodeKind::Sin | NodeKind::Cos | NodeKind::Tan | NodeKind::Asin | NodeKind::Acos
            | NodeKind::Atan => vec!["out"],
            NodeKind::CombineXYZ | NodeKind::Normalize => vec!["vec"],
            NodeKind::SeparateXYZ => vec!["x", "y", "z"],
            NodeKind::DotProduct => vec!["dot"],
            NodeKind::CrossProduct => vec!["cross"],
            NodeKind::Length => vec!["length"],
            NodeKind::Distance => vec!["distance"],
            NodeKind::Position => vec!["position"],
            NodeKind::Noise3D | NodeKind::Noise2D => vec!["noise"],
            NodeKind::BiomeParameter => vec!["x"],
            NodeKind::BiomeWeight => vec!["weight"],
        }
    }

    /// The declared outputs of the kind.
    pub fn outputs(self) -> (types: Vec<Type>)
        ensures
            types@ == self.spec_output_types(),
    {
        match self {
            NodeKind::TerrainOutput => Vec::new(),
            NodeKind::HeightmapTerrain | NodeKind::FractalNoiseTerrain
            | NodeKind::BlobCaveTerrain | NodeKind::SpaghettiCaveTerrain
            | NodeKind::InvertTerrain | NodeKind::ErodeTerrain | NodeKind::TerrainUnion
            | NodeKind::TerrainIntersection | NodeKind::SDFToTerrain => vec![Type::Terrain],
            NodeKind::TerrainToSDF | NodeKind::NoiseHeightmap | NodeKind::RidgeHeightmap
            | NodeKind::Add | NodeKind::Subtract | NodeKind::Multiply | NodeKind::Divide
            | NodeKind::Power | NodeKind::Log | NodeKind::Min | NodeKind::Max
            | NodeKind::GreaterThan | NodeKind::LessThan | NodeKind::Equal | NodeKind::Floor
            | NodeKind::Round | NodeKind::Ceil | NodeKind::Frac | NodeKind::Abs
            | NodeKind::Sign | NodeKind::Clamp | NodeKind::Lerp | NodeKind::MapRange
            | NodeKind::DotProduct | NodeKind::Length | NodeKind::Distance | NodeKind::Noise3D
            | NodeKind::Noise2D | NodeKind::Sin | NodeKind::Cos | NodeKind::Tan
            | NodeKind::Asin | NodeKind::Acos | NodeKind::Atan | NodeKind::BiomeParameter
            | NodeKind::BiomeWeight => vec![Type::Scalar],
            NodeKind::CombineXYZ | NodeKind::VectorAdd | NodeKind::VectorSubtract
            | NodeKind::VectorScale | NodeKind::VectorMultiply | NodeKind::CrossProduct
            | NodeKind::Normalize | NodeKind::Position => vec![Type::Vector],
            NodeKind::SeparateXYZ => vec![Type::Scalar, Type::Scalar, Type::Scalar],
        }
    }
}

/// The word that declares a scalar result.
pub open spec fn spec_scalar_decl(target: CompilationTarget) -> Seq<char> {
    match target {
        CompilationTarget::WGSL => "let"@,
        CompilationTarget::UnrealHLSL => "float"@,
    }
}

/// The word that declares a vector result.
pub open spec fn spec_vector_decl(target: CompilationTarget) -> Seq<char> {
    match target {
        CompilationTarget::WGSL => "let"@,
        CompilationTarget::UnrealHLSL => "float3"@,
    }
}

/// The word that declares a terrain result.
pub open spec fn spec_terrain_decl(target: CompilationTarget) -> Seq<char> {
    match target {
        CompilationTarget::WGSL => "let"@,
        CompilationTarget::UnrealHLSL => "Terrain"@,
    }
}

pub fn scalar_decl(target: CompilationTarget) -> (s: &'static str)
    ensures
        s@ == spec_scalar_decl(target),
{
    match target {
        CompilationTarget::WGSL => "let",
        CompilationTarget::UnrealHLSL => "float",
    }
}

pub fn vector_decl(target: CompilationTarget) -> (s: &'static str)
    ensures
        s@ == spec_vector_decl(target),
{
    match target {
        CompilationTarget::WGSL => "let",
        CompilationTarget::UnrealHLSL => "float3",
    }
}

pub fn terrain_decl(target: CompilationTarget) -> (s: &'static str)
    ensures
        s@ == spec_terrain_decl(target),
{
    match target {
        CompilationTarget::WGSL => "let",
        CompilationTarget::UnrealHLSL => "Terrain",
    }
}

/// The scalar literal of `micros` millionths.
pub open spec fn scalar(micros: i64) -> Value {
    Value::Scalar(Decimal { micros })
}

/// The vector literal with all three components zero.
pub open spec fn origin() -> Value {
    Value::Vector(Decimal { micros: 0 }, Decimal { micros: 0 }, Decimal { micros: 0 })
}

fn make_scalar(micros: i64) -> (v: Value)
    ensures
        v == scalar(micros),
{
    Value::Scalar(Decimal { micros })
}

fn make_origin() -> (v: Value)
    ensures
        v == origin(),
{
    Value::Vector(Decimal { micros: 0 }, Decimal { micros: 0 }, Decimal { micros: 0 })
}

/// All kinds, in the order of [`catalog`].
pub fn all_kinds() -> (kinds: Vec<NodeKind>)
    ensures
        kinds@ == catalog(),
{
    vec![
        NodeKind::TerrainOutput,
        NodeKind::HeightmapTerrain,
        NodeKind::FractalNoiseTerrain,
        NodeKind::BlobCaveTerrain,
        NodeKind::SpaghettiCaveTerrain,
        NodeKind::InvertTerrain,
        NodeKind::ErodeTerrain,
        NodeKind::TerrainUnion,
        NodeKind::TerrainIntersection,
        NodeKind::TerrainToSDF,
        NodeKind::SDFToTerrain,
        NodeKind::NoiseHeightmap,
        NodeKind::RidgeHeightmap,
        NodeKind::Add,
        NodeKind::Subtract,
        NodeKind::Multiply,
        NodeKind::Divide,
        NodeKind::Power,
        NodeKind::Log,
        NodeKind::Min,
        NodeKind::Max,
        NodeKind::GreaterThan,
        NodeKind::LessThan,
        NodeKind::Equal,
        NodeKind::Floor,
        NodeKind::Round,
        NodeKind::Ceil,
        NodeKind::Frac,
        NodeKind::Abs,
        NodeKind::Sign,
        NodeKind::Clamp,
        NodeKind::Lerp,
        NodeKind::MapRange,
        NodeKind::CombineXYZ,
        NodeKind::SeparateXYZ,
        NodeKind::VectorAdd,
        NodeKind::VectorSubtract,
        NodeKind::VectorScale,
        NodeKind::VectorMultiply,
        NodeKind::DotProduct,
        NodeKind::CrossProduct,
        NodeKind::Length,
        NodeKind::Distance,
        NodeKind::Normalize,
        NodeKind::Position,
        NodeKind::Noise3D,
        NodeKind::Noise2D,
        NodeKind::Sin,
        NodeKind::Cos,
        NodeKind::Tan,
        NodeKind::Asin,
        NodeKind::Acos,
        NodeKind::Atan,
        NodeKind::BiomeParameter,
        NodeKind::BiomeWeight,
    ]
}

/// Every kind stands in the catalog, at its own index and nowhere else.
pub proof fn lemma_catalog_complete(kind: NodeKind)
    ensures
        0 <= kind.spec_index() < catalog().len(),
        catalog()[kind.spec_index()] == kind,
        catalog().len() == KIND_COUNT,
        forall|i: int| 0 <= i < catalog().len() && catalog()[i] == kind ==> i == kind.spec_index(),
{
}

/// The first kind of the catalog that carries the label, if any does.
pub open spec fn spec_from_label(label: Seq<char>) -> Option<NodeKind> {
    spec_from_label_within(label, catalog().len() as int)
}

/// The first of the first `n` kinds of the catalog that carries the label.
pub open spec fn spec_from_label_within(label: Seq<char>, n: int) -> Option<NodeKind>
    decreases n,
{
    if n <= 0 {
        None
    } else {
        match spec_from_label_within(label, n - 1) {
            Some(kind) => Some(kind),
            None => if catalog()[n - 1].spec_label() == label {
                Some(catalog()[n - 1])
            } else {
                None
            },
        }
    }
}

proof fn lemma_from_label_found(label: Seq<char>, i: int, n: int)
    requires
        0 < i <= n,
        spec_from_label_within(label, i) is Some,
    ensures
        spec_from_label_within(label, n) == spec_from_label_within(label, i),
    decreases n - i,
{
    if i < n {
        lemma_from_label_found(label, i, n - 1);
    }
}

/// The mark of the label of each kind.
pub open spec fn label_mark_of(kind: NodeKind) -> (nat, char, char, char) {
    match kind {
        NodeKind::TerrainOutput => (14, 'T', 't', 'u'),
        NodeKind::HeightmapTerrain => (17, 'H', 'n', 'i'),
        NodeKind::FractalNoiseTerrain => (21, 'F', 'n', 'i'),
        NodeKind::BlobCaveTerrain => (17, 'B', 'n', 'i'),
        NodeKind::SpaghettiCaveTerrain => (22, 'S', 'n', 'i'),
        NodeKind::InvertTerrain => (14, 'I', 'n', 'i'),
        NodeKind::ErodeTerrain => (13, 'E', 'n', 'i'),
        NodeKind::TerrainUnion => (13, 'T', 'n', 'o'),
        NodeKind::TerrainIntersection => (20, 'T', 'n', 'o'),
        NodeKind::TerrainToSDF => (14, 'T', 'F', 'D'),
        NodeKind::SDFToTerrain => (14, 'S', 'n', 'i'),
        NodeKind::NoiseHeightmap => (15, 'N', 'p', 'a'),
        NodeKind::RidgeHeightmap => (15, 'R', 'p', 'a'),
        NodeKind::Add => (3, 'A', 'd', 'd'),
        NodeKind::Subtract => (8, 'S', 't', 'c'),
        NodeKind::Multiply => (8, 'M', 'y', 'l'),
        NodeKind::Divide => (6, 'D', 'e', 'd'),
        NodeKind::Power => (5, 'P', 'r', 'e'),
        NodeKind::Log => (3, 'L', 'g', 'o'),
        NodeKind::Min => (3, 'M', 'n', 'i'),
        NodeKind::Max => (3, 'M', 'x', 'a'),
        NodeKind::GreaterThan => (12, 'G', 'n', 'a'),
        NodeKind::LessThan => (9, 'L', 'n', 'a'),
        NodeKind::Equal => (5, 'E', 'l', 'a'),
        NodeKind::Floor => (5, 'F', 'r', 'o'),
        NodeKind::Round => (5, 'R', 'd', 'n'),
        NodeKind::Ceil => (4, 'C', 'l', 'i'),
        NodeKind::Frac => (4, 'F', 'c', 'a'),
        NodeKind::Abs => (3, 'A', 's', 'b'),
        NodeKind::Sign => (4, 'S', 'n', 'g'),
        NodeKind::Clamp => (5, 'C', 'p', 'm'),
        NodeKind::Lerp => (4, 'L', 'p', 'r'),
        NodeKind::MapRange => (9, 'M', 'e', 'g'),
        NodeKind::CombineXYZ => (11, 'C', 'Z', 'Y'),
        NodeKind::SeparateXYZ => (12, 'S', 'Z', 'Y'),
        NodeKind::VectorAdd => (10, 'V', 'd', 'd'),
        NodeKind::VectorSubtract => (15, 'V', 't', 'c'),
        NodeKind::VectorScale => (12, 'V', 'e', 'l'),
        NodeKind::VectorMultiply => (15, 'V', 'y', 'l'),
        NodeKind::DotProduct => (11, 'D', 't', 'c'),
        NodeKind::CrossProduct => (13, 'C', 't', 'c'),
        NodeKind::Length => (6, 'L', 'h', 't'),
        NodeKind::Distance => (8, 'D', 'e', 'c'),
        NodeKind::Normalize => (9, 'N', 'e', 'z'),
        NodeKind::Position => (8, 'P', 'n', 'o'),
        NodeKind::Noise3D => (8, 'N', 'D', '3'),
        NodeKind::Noise2D => (8, 'N', 'D', '2'),
        NodeKind::Sin => (3, 'S', 'n', 'i'),
        NodeKind::Cos => (3, 'C', 's', 'o'),
        NodeKind::Tan => (3, 'T', 'n', 'a'),
        NodeKind::Asin => (4, 'A', 'n', 'i'),
        NodeKind::Acos => (4, 'A', 's', 'o'),
        NodeKind::Atan => (4, 'A', 'n', 'a'),
        NodeKind::BiomeParameter => (15, 'B', 'r', 'e'),
        NodeKind::BiomeWeight => (12, 'B', 't', 'h'),
    }
}

/// No two kinds carry the same label.
pub proof fn lemma_labels_distinct(a: NodeKind, b: NodeKind)
    requires
        a.spec_label() == b.spec_label(),
    ensures
        a == b,
{
    lemma_label_starts(a);
    lemma_label_starts(b);
}

/// What tells the labels apart: how long a label is, how it starts and how
/// it ends.
pub open spec fn label_mark(label: Seq<char>) -> (nat, char, char, char) {
    (label.len(), label[0], label[label.len() - 1], label[label.len() - 2])
}

proof fn lemma_label_starts(kind: NodeKind)
    ensures
        label_mark(kind.spec_label()) == label_mark_of(kind),
{
    reveal_strlit("Terrain Output");
    reveal_strlit("Heightmap Terrain");
    reveal_strlit("Fractal Noise Terrain");
    reveal_strlit("Blob Cave Terrain");
    reveal_strlit("Spaghetti Cave Terrain");
    reveal_strlit("Invert Terrain");
    reveal_strlit("Erode Terrain");
    reveal_strlit("Terrain Union");
    reveal_strlit("Terrain Intersection");
    reveal_strlit("Terrain to SDF");
    reveal_strlit("SDF To Terrain");
    reveal_strlit("Noise Heightmap");
    reveal_strlit("Ridge Heightmap");
    reveal_strlit("Add");
    reveal_strlit("Subtract");
    reveal_strlit("Multiply");
    reveal_strlit("Divide");
    reveal_strlit("Power");
    reveal_strlit("Log");
    reveal_strlit("Min");
    reveal_strlit("Max");
    reveal_strlit("Greater Than");
    reveal_strlit("Less Than");
    reveal_strlit("Equal");
    reveal_strlit("Floor");
    reveal_strlit("Round");
    reveal_strlit("Ceil");
    reveal_strlit("Frac");
    reveal_strlit("Abs");
    reveal_strlit("Sign");
    reveal_strlit("Clamp");
    reveal_strlit("Lerp");
    reveal_strlit("Map Range");
    reveal_strlit("Combine XYZ");
    reveal_strlit("Separate XYZ");
    reveal_strlit("Vector Add");
    reveal_strlit("Vector Subtract");
    reveal_strlit("Vector Scale");
    reveal_strlit("Vector Multiply");
    reveal_strlit("Dot Product");
    reveal_strlit("Cross Product");
    reveal_strlit("Length");
    reveal_strlit("Distance");
    reveal_strlit("Normalize");
    reveal_strlit("Position");
    reveal_strlit("Noise 3D");
    reveal_strlit("Noise 2D");
    reveal_strlit("Sin");
    reveal_strlit("Cos");
    reveal_strlit("Tan");
    reveal_strlit("Asin");
    reveal_strlit("Acos");
    reveal_strlit("Atan");
    reveal_strlit("Biome Parameter");
    reveal_strlit("Biome Weight");
}

/// Looking a kind up by its own label finds it.
pub proof fn lemma_label_names_kind(kind: NodeKind)
    ensures
        spec_from_label(kind.spec_label()) == Some(kind),
{
    lemma_catalog_complete(kind);
    lemma_label_found_at(kind, catalog().len() as int);
}

proof fn lemma_label_found_at(kind: NodeKind, n: int)
    requires
        0 <= n <= catalog().len(),
    ensures
        spec_from_label_within(kind.spec_label(), n) == if n <= kind.spec_index() {
            None
        } else {
            Some(kind)
        },
    decreases n,
{
    if n > 0 {
        lemma_label_found_at(kind, n - 1);
        lemma_catalog_complete(kind);
        if catalog()[n - 1].spec_label() == kind.spec_label() {
            lemma_labels_distinct(catalog()[n - 1], kind);
        }
    }
}

/// Looks a kind up by its label, as saved files name it.
pub fn from_label(label: &str) -> (found: Option<NodeKind>)
    ensures
        found == spec_from_label(label@),
{
    let kinds = all_kinds();
    let mut i: usize = 0;
    while i < kinds.len()
        invariant
            i <= kinds.len(),
            kinds@ == catalog(),
            spec_from_label_within(label@, i as int) is None,
        decreases kinds.len() - i,
    {
        if str_eq(kinds[i].label(), label) {
            proof {
                lemma_from_label_found(label@, i + 1, catalog().len() as int);
            }
            return Some(kinds[i]);
        }
        i += 1;
    }
    None
}

/// What a node holds besides its inputs.
#[derive(PartialEq, Eq, Debug)]
pub enum NodeData {
    Plain,
    BiomeParameter(BiomeParameter),
    BiomeWeight(BiomeWeight),
}

pub enum NodeDataView {
    Plain,
    BiomeParameter(Seq<char>),
    BiomeWeight(usize),
}

impl View for NodeData {
    type V = NodeDataView;

    open spec fn view(&self) -> NodeDataView {
        match self {
            NodeData::Plain => NodeDataView::Plain,
            NodeData::BiomeParameter(p) => NodeDataView::BiomeParameter(p.param@),
            NodeData::BiomeWeight(w) => NodeDataView::BiomeWeight(w.biome_idx),
        }
    }
}

impl Clone for NodeData {
    fn clone(&self) -> (c: NodeData)
        ensures
            c@ == self@,
    {
        match self {
            NodeData::Plain => NodeData::Plain,
            NodeData::BiomeParameter(p) => NodeData::BiomeParameter(
                BiomeParameter { param: p.param.clone() },
            ),
            NodeData::BiomeWeight(w) => NodeData::BiomeWeight(BiomeWeight { biome_idx: w.biome_idx }),
        }
    }
}

/// One node of a kind: the kind, its inputs and what else it holds.
#[derive(PartialEq, Eq, Debug)]
pub struct NodeType {
    kind: NodeKind,
    inputs: Vec<NodeInput>,
    data: NodeData,
}

pub struct NodeTypeView {
    pub kind: NodeKind,
    pub inputs: Seq<NodeInput>,
    pub data: NodeDataView,
}

/// An input that holds `val` and has no source.
pub open spec fn unconnected(val: Value) -> NodeInput {
    NodeInput { val, connection: None }
}

impl NodeTypeView {
    /// The node has the inputs that its kind declares, and holds what its
    /// kind holds.
    pub open spec fn wf(self) -> bool {
        &&& self.inputs.len() == self.kind.spec_input_types().len()
        &&& match self.kind {
            NodeKind::BiomeParameter => self.data is BiomeParameter,
            NodeKind::BiomeWeight => self.data is BiomeWeight,
            _ => self.data is Plain,
        }
    }

    /// A node of `kind` as it is first made: every input holds its default
    /// and has no source.
    pub open spec fn fresh(kind: NodeKind) -> NodeTypeView {
        NodeTypeView {
            kind,
            inputs: Seq::new(
                kind.spec_input_defaults().len(),
                |i: int| unconnected(kind.spec_input_defaults()[i]),
            ),
            data: match kind {
                NodeKind::BiomeParameter => NodeDataView::BiomeParameter(Seq::empty()),
                NodeKind::BiomeWeight => NodeDataView::BiomeWeight(0),
                _ => NodeDataView::Plain,
            },
        }
    }

    /// The node with input `idx` replaced.
    pub open spec fn with_input(self, idx: int, input: NodeInput) -> NodeTypeView {
        NodeTypeView { inputs: self.inputs.update(idx, input), ..self }
    }

    /// The statements that the node emits for `target`, given the text of
    /// each argument and the name of each output. They use these texts and
    /// names only, and define each output once.
    pub open spec fn text(
        self,
        target: CompilationTarget,
        args: Seq<Seq<char>>,
        outs: Seq<Seq<char>>,
        biomes: BiomesView,
    ) -> Seq<char> {
        match self.kind.spec_category() {
            Category::Terrain => terrain_text(self.kind, target, args, outs),
            Category::Heightmap => heightmap_text(self.kind, target, args, outs),
            Category::Math => math_text(self.kind, target, args, outs),
            Category::VectorMath => vector_text(self.kind, target, args, outs),
            Category::Noise => noise_text(self.kind, target, args, outs),
            Category::Trig => trig_text(self.kind, target, args, outs),
            Category::Biome => match self.data {
                NodeDataView::BiomeParameter(param) => parameter_text(
                    target,
                    biomes.biome_params,
                    param,
                    outs[0],
                ),
                NodeDataView::BiomeWeight(idx) => weight_text(
                    target,
                    biomes.biomes.len(),
                    idx as nat,
                    outs[0],
                ),
                NodeDataView::Plain => Seq::empty(),
            },
        }
    }
}

impl View for NodeType {
    type V = NodeTypeView;

    closed spec fn view(&self) -> NodeTypeView {
        NodeTypeView { kind: self.kind, inputs: self.inputs@, data: self.data@ }
    }
}

impl Clone for NodeType {
    fn clone(&self) -> (c: NodeType)
        ensures
            c@ == self@,
    {
        NodeType { kind: self.kind, inputs: self.inputs.clone(), data: self.data.clone() }
    }
}

/// The kinds declare as many names, types and defaults as they have inputs,
/// and as many names as they have outputs.
pub proof fn lemma_declarations_agree(kind: NodeKind)
    ensures
        kind.spec_input_names().len() == kind.spec_input_types().len(),
        kind.spec_input_defaults().len() == kind.spec_input_types().len(),
        kind.spec_output_names().len() == kind.spec_output_types().len(),
        kind.spec_input_types().len() <= 5,
        kind.spec_output_types().len() <= 3,
        forall|i: int|
            0 <= i < kind.spec_input_types().len() ==> (
            #[trigger] kind.spec_input_defaults()[i]).spec_ty() == kind.spec_input_types()[i],
{
}

impl NodeType {
    pub open spec fn wf(&self) -> bool {
        self@.wf()
    }

    /// A node of `kind` with every input at its default and unconnected.
    pub fn make(kind: NodeKind) -> (node: NodeType)
        ensures
            node.wf(),
            node@ == NodeTypeView::fresh(kind),
    {
        let defaults = kind.input_defaults();
        let mut inputs: Vec<NodeInput> = Vec::new();
        let mut i: usize = 0;
        while i < defaults.len()
            invariant
                i <= defaults.len(),
                defaults@ == kind.spec_input_defaults(),
                inputs@.len() == i,
                forall|k: int| 0 <= k < i ==> inputs@[k] == unconnected(defaults@[k]),
            decreases defaults.len() - i,
        {
            inputs.push(NodeInput { val: defaults[i], connection: None });
            i += 1;
        }
        let data = match kind {
            NodeKind::BiomeParameter => NodeData::BiomeParameter(
                BiomeParameter { param: String::new() },
            ),
            NodeKind::BiomeWeight => NodeData::BiomeWeight(BiomeWeight { biome_idx: 0 }),
            _ => NodeData::Plain,
        };
        proof {
            lemma_declarations_agree(kind);
            assert(inputs@ =~= NodeTypeView::fresh(kind).inputs);
        }
        NodeType { kind, inputs, data }
    }

    pub fn kind(&self) -> (kind: NodeKind)
        ensures
            kind == self@.kind,
    {
        self.kind
    }

    pub fn label(&self) -> (s: &'static str)
        ensures
            s@ == self@.kind.spec_label(),
    {
        self.kind.label()
    }

    pub fn inputs(&self) -> (inputs: &Vec<NodeInput>)
        ensures
            inputs@ == self@.inputs,
    {
        &self.inputs
    }

    pub fn outputs(&self) -> (types: Vec<Type>)
        ensures
            types@ == self@.kind.spec_output_types(),
    {
        self.kind.outputs()
    }

    pub fn data(&self) -> (data: &NodeData)
        ensures
            data@ == self@.data,
    {
        &self.data
    }

    /// Replaces input `idx`, literal and source. Returns whether the node has
    /// such an input; if not, nothing changes.
    pub fn set_input(&mut self, idx: usize, input: NodeInput) -> (done: bool)
        ensures
            done == (idx < old(self)@.inputs.len()),
            final(self)@ == if done {
                old(self)@.with_input(idx as int, input)
            } else {
                old(self)@
            },
    {
        if idx < self.inputs.len() {
            self.inputs[idx] = input;
            true
        } else {
            false
        }
    }

    /// Names the parameter that a parameter node reads. Returns whether the
    /// node is one; if not, nothing changes.
    pub fn set_param(&mut self, param: String) -> (done: bool)
        ensures
            done == (old(self)@.kind == NodeKind::BiomeParameter),
            final(self)@ == if done {
                NodeTypeView { data: NodeDataView::BiomeParameter(param@), ..old(self)@ }
            } else {
                old(self)@
            },
    {
        match self.kind {
            NodeKind::BiomeParameter => {
                self.data = NodeData::BiomeParameter(BiomeParameter { param });
                true
            },
            _ => false,
        }
    }

    /// Picks the biome that a weight node reads. Returns whether the node
    /// is one; if not, nothing changes.
    pub fn set_biome_idx(&mut self, biome_idx: usize) -> (done: bool)
        ensures
            done == (old(self)@.kind == NodeKind::BiomeWeight),
            final(self)@ == if done {
                NodeTypeView { data: NodeDataView::BiomeWeight(biome_idx), ..old(self)@ }
            } else {
                old(self)@
            },
    {
        match self.kind {
            NodeKind::BiomeWeight => {
                self.data = NodeData::BiomeWeight(BiomeWeight { biome_idx });
                true
            },
            _ => false,
        }
    }

    /// The statements of the node for `target`.
    pub fn compile(
        &self,
        target: CompilationTarget,
        args: &Vec<String>,
        out_varnames: &Vec<String>,
        info: &GraphProjectInfo,
    ) -> (s: String)
        requires
            self.wf(),
            args@.len() == self@.inputs.len(),
            out_varnames@.len() == self@.kind.spec_output_types().len(),
        ensures
            s@ == self@.text(target, args.deep_view(), out_varnames.deep_view(), info.biomes@),
    {
        match self.kind.category() {
            Category::Terrain => emit_terrain(self.kind, target, args, out_varnames),
            Category::Heightmap => emit_heightmap(self.kind, target, args, out_varnames),
            Category::Math => emit_math(self.kind, target, args, out_varnames),
            Category::VectorMath => emit_vector(self.kind, target, args, out_varnames),
            Category::Noise => emit_noise(self.kind, target, args, out_varnames),
            Category::Trig => emit_trig(self.kind, target, args, out_varnames),
            Category::Biome => match &self.data {
                NodeData::BiomeParameter(p) => p.emit(
                    target,
                    &info.biomes.biome_params,
                    out_varnames[0].as_str(),
                ),
                NodeData::BiomeWeight(w) => w.emit(
                    target,
                    info.biomes.biomes.len(),
                    out_varnames[0].as_str(),
                ),
                NodeData::Plain => String::new(),
            },
        }
    }

    /// Appends the statements of the node in the first shading language.
    pub fn compile_wgsl(
        &self,
        args: &Vec<String>,
        out_varnames: &Vec<String>,
        out: &mut String,
        info: &GraphProjectInfo,
    )
        requires
            self.wf(),
            args@.len() == self@.inputs.len(),
            out_varnames@.len() == self@.kind.spec_output_types().len(),
        ensures
            final(out)@ == old(out)@ + self@.text(
                CompilationTarget::WGSL,
                args.deep_view(),
                out_varnames.deep_view(),
                info.biomes@,
            ),
    {
        let s = self.compile(CompilationTarget::WGSL, args, out_varnames, info);
        out.append(s.as_str());
    }

    /// Appends the statements of the node in the second shading language.
    pub fn compile_hlsl(
        &self,
        args: &Vec<String>,
        out_varnames: &Vec<String>,
        out: &mut String,
        info: &GraphProjectInfo,
    )
        requires
            self.wf(),
            args@.len() == self@.inputs.len(),
            out_varnames@.len() == self@.kind.spec_output_types().len(),
        ensures
            final(out)@ == old(out)@ + self@.text(
                CompilationTarget::UnrealHLSL,
                args.deep_view(),
                out_varnames.deep_view(),
                info.biomes@,
            ),
    {
        let s = self.compile(CompilationTarget::UnrealHLSL, args, out_varnames, info);
        out.append(s.as_str());
    }
}

} // verus!
