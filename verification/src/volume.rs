//! The dense volumetric sample grid that an extraction run reads.

use vstd::prelude::*;

use crate::MeshError;

verus! {

/// A dense grid of `dim * dim * dim` scalar occupancy samples, flattened so
/// that the sample at grid point `(x, y, z)` sits at index
/// `x * dim * dim + y * dim + z`.  A sample greater than zero counts as
/// "inside" the surface.  The field is never mutated during a run.
#[derive(Debug)]
pub struct VolumeField {
    /// The flattened samples.
    pub data: Vec<u8>,
    /// The grid dimension `D`; grid points range over `[0, D - 1]` per axis.
    pub dim: usize,
}

/// Flat index of the sample at grid point `(x, y, z)` in a grid of dimension
/// `d`.
pub open spec fn sample_index(d: int, x: int, y: int, z: int) -> int {
    x * d * d + y * d + z
}

impl VolumeField {
    /// The backing array holds exactly one sample per grid point.  Corner
    /// accesses of in-range voxels then always stay inside the array.
    pub open spec fn wf(&self) -> bool {
        self.data@.len() == self.dim * self.dim * self.dim
    }

    /// Builds a field after enforcing that the array length matches the
    /// declared dimension; a mismatch would let corner reads fall outside
    /// the array and is rejected as [`MeshError::OutOfBounds`].
    pub fn new(data: Vec<u8>, dim: usize) -> (r: Result<VolumeField, MeshError>)
        ensures
            match r {
                Ok(v) => {
                    &&& data@.len() == dim * dim * dim
                    &&& v.data@ == data@
                    &&& v.dim == dim
                    &&& v.wf()
                },
                Err(e) => {
                    &&& e == MeshError::OutOfBounds
                    &&& data@.len() != dim * dim * dim
                },
            },
    {
        let cube: Option<usize> = match dim.checked_mul(dim) {
            Some(sq) => sq.checked_mul(dim),
            None => None,
        };
        match cube {
            Some(len) if len == data.len() => Ok(VolumeField { data, dim }),
            _ => {
                proof {
                    if cube is None && dim * dim > usize::MAX {
                        assert(dim * dim * dim > usize::MAX) by (nonlinear_arith)
                            requires
                                dim >= 0,
                                dim * dim > usize::MAX,
                        ;
                    }
                    assert(data.len() == data@.len());
                    assert(data@.len() != dim * dim * dim);
                }
                Err(MeshError::OutOfBounds)
            },
        }
    }

    /// Reads the sample at grid point `(x, y, z)`.
    pub fn sample(&self, x: usize, y: usize, z: usize) -> (s: u8)
        requires
            self.wf(),
            x < self.dim,
            y < self.dim,
            z < self.dim,
        ensures
            s == self.data@[sample_index(self.dim as int, x as int, y as int, z as int)],
    {
        proof {
            assert(self.data.len() == self.data@.len());
            lemma_sample_index_bounds(self.dim as int, x as int, y as int, z as int);
        }
        self.data[x * self.dim * self.dim + y * self.dim + z]
    }
}

/// The flat index of an in-range grid point lies inside the cube of samples.
pub proof fn lemma_sample_index_in_cube(d: int, x: int, y: int, z: int)
    requires
        0 <= x < d,
        0 <= y < d,
        0 <= z < d,
    ensures
        0 <= sample_index(d, x, y, z) < d * d * d,
{
    assert(0 <= x * d * d + y * d + z < d * d * d) by (nonlinear_arith)
        requires
            0 <= x < d,
            0 <= y < d,
            0 <= z < d,
    ;
}

/// The flat index of an in-range grid point lies inside the array, and every
/// partial sum and product on the way to it stays representable.
pub proof fn lemma_sample_index_bounds(d: int, x: int, y: int, z: int)
    requires
        0 <= x < d,
        0 <= y < d,
        0 <= z < d,
        d * d * d <= usize::MAX,
    ensures
        0 <= sample_index(d, x, y, z) < d * d * d,
        x * d <= usize::MAX,
        x * d * d <= usize::MAX,
        x * d * d + y * d <= usize::MAX,
        x * d * d + y * d + z <= usize::MAX,
{
    assert(0 <= x * d * d + y * d + z < d * d * d && x * d <= d * d * d && x * d * d + y * d + z
        >= x * d * d + y * d >= x * d * d) by (nonlinear_arith)
        requires
            0 <= x < d,
            0 <= y < d,
            0 <= z < d,
    ;
}

/// A dimension whose cube fits the address space leaves room to double any
/// grid coordinate, so half-unit vertex coordinates never overflow.
pub proof fn lemma_doubled_coordinate_fits(d: int)
    requires
        2 <= d,
        d * d * d <= usize::MAX,
    ensures
        2 * d + 2 <= usize::MAX,
{
    assert(d * d * d >= 4 * d) by (nonlinear_arith)
        requires
            d >= 2,
    ;
}

} // verus!
