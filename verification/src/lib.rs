//! Density-function graphs for voxel terrain.
//!
//! A density function is a node of a directed acyclic graph. Sampled at a block
//! position it yields a scalar density; sampled through an applier it fills a
//! slab of densities. Densities are fixed-point numbers (see [`fixed`]), so that
//! every platform computes the same terrain and every bound is exact.
//!
//! - [`function`] holds the node kinds, [`semantics`] what they mean,
//!   [`sample`] and [`fill`] how they are evaluated, and [`bounds`] the proof
//!   that every sample lies within the static bounds of its function.
//! - [`math`] builds arithmetic nodes and folds constants; [`built_in`] and
//!   [`registry`] assemble the named graphs that the terrain is made of.
//! - [`visitor`] rewrites graphs from the leaves up.
//! - [`binding`], [`caches`] and [`chunk`] bind a graph to a chunk and sample
//!   it through the chunk's caches; [`interpolation`] interpolates between
//!   the corners of a cell.
//! - [`noise`] states what the graph asks of the noises, splines and island
//!   masks it samples; [`oracle`] takes them in as a function.
pub mod applier;
pub mod binding;
pub mod blender;
pub mod bounds;
pub mod built_in;
pub mod caches;
pub mod chunk;
pub mod fill;
pub mod fixed;
pub mod flat;
pub mod function;
pub mod handle;
pub mod interface;
pub mod interpolation;
pub mod lerp;
pub mod math;
pub mod noise;
pub mod oracle;
pub mod position;
pub mod registry;
pub mod sample;
pub mod semantics;
pub mod visitor;
