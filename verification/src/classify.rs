//! Per-voxel classification: which of the 8 corners lie inside the surface.

use vstd::prelude::*;

use crate::volume::{sample_index, VolumeField};

verus! {

/// Canonical offset of corner `i` of a voxel, in the order the cube index is
/// built: bit `i` of the index stands for this corner.
pub open spec fn corner_offset(i: int) -> (int, int, int) {
    if i == 0 {
        (0, 0, 0)
    } else if i == 1 {
        (1, 0, 0)
    } else if i == 2 {
        (1, 1, 0)
    } else if i == 3 {
        (0, 1, 0)
    } else if i == 4 {
        (0, 0, 1)
    } else if i == 5 {
        (1, 0, 1)
    } else if i == 6 {
        (1, 1, 1)
    } else {
        (0, 1, 1)
    }
}

/// Whether corner `i` of the voxel at `(x, y, z)` samples a value greater
/// than zero, i.e. lies inside the surface.
pub open spec fn corner_inside(v: Seq<u8>, d: int, x: int, y: int, z: int, i: int) -> bool {
    v[sample_index(d, x + corner_offset(i).0, y + corner_offset(i).1, z + corner_offset(i).2)] > 0
}

/// Contribution of corner `i` to the cube index: its bit, as 0 or 1.
pub open spec fn corner_bit(v: Seq<u8>, d: int, x: int, y: int, z: int, i: int) -> int {
    if corner_inside(v, d, x, y, z, i) {
        1
    } else {
        0
    }
}

/// The 8-bit configuration of the voxel at `(x, y, z)`: bit `i` is set iff
/// corner `i` lies inside the surface.
pub open spec fn spec_cube_index(v: Seq<u8>, d: int, x: int, y: int, z: int) -> int {
    corner_bit(v, d, x, y, z, 0) + 2 * corner_bit(v, d, x, y, z, 1) + 4 * corner_bit(
        v,
        d,
        x,
        y,
        z,
        2,
    ) + 8 * corner_bit(v, d, x, y, z, 3) + 16 * corner_bit(v, d, x, y, z, 4) + 32 * corner_bit(
        v,
        d,
        x,
        y,
        z,
        5,
    ) + 64 * corner_bit(v, d, x, y, z, 6) + 128 * corner_bit(v, d, x, y, z, 7)
}

/// A cube index is always an 8-bit configuration in `[0, 255]`.
pub proof fn lemma_cube_index_range(v: Seq<u8>, d: int, x: int, y: int, z: int)
    ensures
        0 <= spec_cube_index(v, d, x, y, z) <= 255,
{
}

/// Samples the 8 canonical corners of the voxel whose minimum grid
/// coordinate is `(x, y, z)` and packs the inside/outside outcomes into the
/// voxel's configuration index.
pub fn get_cube_index(volume: &VolumeField, x: usize, y: usize, z: usize) -> (ci: u8)
    requires
        volume.wf(),
        x + 1 < volume.dim,
        y + 1 < volume.dim,
        z + 1 < volume.dim,
    ensures
        ci == spec_cube_index(volume.data@, volume.dim as int, x as int, y as int, z as int),
{
    let mut ci: u8 = 0;
    if volume.sample(x, y, z) > 0 {
        ci = ci + 1;
    }
    if volume.sample(x + 1, y, z) > 0 {
        ci = ci + 2;
    }
    if volume.sample(x + 1, y + 1, z) > 0 {
        ci = ci + 4;
    }
    if volume.sample(x, y + 1, z) > 0 {
        ci = ci + 8;
    }
    if volume.sample(x, y, z + 1) > 0 {
        ci = ci + 16;
    }
    if volume.sample(x + 1, y, z + 1) > 0 {
        ci = ci + 32;
    }
    if volume.sample(x + 1, y + 1, z + 1) > 0 {
        ci = ci + 64;
    }
    if volume.sample(x, y + 1, z + 1) > 0 {
        ci = ci + 128;
    }
    ci
}

} // verus!
