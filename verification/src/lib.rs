//! Rendering of palette-indexed voxel models to 2-D rasters.
//!
//! A voxel model (a grid of unit cubes, each carrying a 1-based palette
//! index) is projected onto a canvas once per combination of viewing side
//! and projection style, using a painter's-algorithm depth sort and fixed
//! multi-pixel stamps.

pub mod canvas;
pub mod color;
pub mod depth;
pub mod enums;
pub mod laws;
pub mod model;
pub mod project;
pub mod render;
pub mod sort;
