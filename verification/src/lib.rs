//! Marching-cubes isosurface extraction over a dense occupancy grid.
//!
//! A [`volume::VolumeField`] holds `dim * dim * dim` scalar samples; a sample
//! greater than zero counts as "inside" the surface.  Each voxel (unit cell of
//! the grid) is classified into one of 256 configurations, and the lookup
//! tables in [`tables`] translate a configuration into the triangles that
//! approximate the surface inside that voxel.  Vertices are placed at the
//! midpoints of the crossed cube edges and are therefore held exactly in
//! half-unit integer coordinates.
//!
//! The voxel domain can be split into disjoint slabs ([`partition`]) so that
//! workers may process slabs concurrently and concatenate their private
//! buffers afterwards; the resulting mesh is proved independent of the split.

use vstd::prelude::*;

pub mod geometry;
pub mod volume;
pub mod classify;
pub mod tables;
pub mod table_data;
pub mod triangulate;
pub mod partition;
pub mod extract;
pub mod laws;

verus! {

/// Faults a run can report.
#[derive(Clone, Copy, PartialEq, Eq, Structural, Debug)]
pub enum MeshError {
    /// The backing sample array does not hold exactly `dim * dim * dim`
    /// samples, so corner accesses could fall outside it.
    OutOfBounds,
    /// A triangle-table row lacks a sentinel, breaks a triple, references an
    /// edge outside `[0, 11]`, or promises geometry for a homogeneous
    /// configuration.
    MalformedTable,
}

} // verus!
