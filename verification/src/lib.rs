//! The Utah teapot as an indexed triangle mesh, in exact arithmetic.
//!
//! Thirty-two bicubic Bezier patches are sampled on a uniform grid of
//! `rows` by `cols` parameters each. Every number that the library hands out
//! is an integer or a quotient of two integers: a position is a point in
//! homogeneous coordinates, a tangent is a direction over a positive scale,
//! a texture coordinate is a pair of fractions. Rounding to floating point,
//! and with it the unit normal, is left to the caller.

pub mod assemble;
pub mod basis;
pub mod grid;
pub mod mesh;
pub mod patch;
pub mod surface;
pub mod table;
pub mod vertex;

pub use assemble::{check_resolution, create_vertices, ResolutionError};
pub use basis::{basis, basis_slope};
pub use grid::triangulate;
pub use mesh::Mesh;
pub use patch::{blend3, tesselate_patch, MAX_SAMPLES, TERM_LIMIT, WEIGHT_LIMIT};
pub use table::{control_points, PATCHES, PATCH_COUNT};
pub use vertex::{vtx, Fraction, Tangent, Uv, Vertex, UNIT};
