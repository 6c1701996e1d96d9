//! Estimation of the printed weight of a 3D-printable solid.
//!
//! The solid is described as a triangulated surface mesh on an integer
//! coordinate grid. Three pure stages form a pipeline: the enclosed volume
//! of the mesh is computed by signed-tetrahedron summation, the volume is
//! rescaled to target dimensions through the mesh's bounding box, and a
//! shell/infill decomposition model turns the scaled volume into a mass in
//! grams. All quantities are exact rationals; callers that live in floating
//! point convert at the boundary.

use vstd::prelude::*;

pub mod material;
pub mod mesh;
pub mod response;
pub mod rational;
pub mod scaling;
pub mod volume;
pub mod weight;

verus! {

/// Everything that a stage of the pipeline can report instead of a value.
#[derive(Clone, Copy, Debug, PartialEq, Eq, Structural)]
pub enum WeightError {
    /// A face references a vertex index out of range, a coordinate lies
    /// outside the supported grid, or the mesh has too many faces.
    InvalidMesh,
    /// A bounding-box extent of zero along some axis (or a mesh without
    /// vertices) would make the per-axis scale factor undefined.
    DegenerateGeometry,
    /// An infill percentage outside the interval [0, 100].
    OutOfRangeInfill,
    /// An intermediate product of the exact rational computation does not
    /// fit in 128 bits.
    ArithmeticOverflow,
}

} // verus!
