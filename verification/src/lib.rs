//! Procedural terrain graphs and their compilation to shader source.

pub mod action;
pub mod biome;
pub mod compiler;
pub mod decimal;
pub mod graph;
pub mod json;
pub mod project;
pub mod search;
pub mod text;
