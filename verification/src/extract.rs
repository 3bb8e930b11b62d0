//! Whole-volume extraction: iterating the voxel domain, slab by slab, and
//! merging the slabs' private buffers into one mesh.

use vstd::prelude::*;

use crate::geometry::Triangle;
use crate::partition::{partition_ranges, slabs_cover};
use crate::tables::Tables;
use crate::triangulate::{voxel_tris, voxel_triangles};
use crate::volume::VolumeField;

verus! {

/// Triangles of the voxels `(x, y, 0 ..= z_end - 1)`, in iteration order.
pub open spec fn mesh_z(v: Seq<u8>, d: int, tri: Seq<i8>, x: int, y: int, z_end: int) -> Seq<
    Triangle,
>
    decreases z_end,
{
    if z_end <= 0 {
        Seq::empty()
    } else {
        mesh_z(v, d, tri, x, y, z_end - 1) + voxel_tris(v, d, tri, x, y, z_end - 1)
    }
}

/// Triangles of the voxels `(x, 0 ..= y_end - 1, *)`, in iteration order.
pub open spec fn mesh_y(v: Seq<u8>, d: int, tri: Seq<i8>, x: int, y_end: int) -> Seq<Triangle>
    decreases y_end,
{
    if y_end <= 0 {
        Seq::empty()
    } else {
        mesh_y(v, d, tri, x, y_end - 1) + mesh_z(v, d, tri, x, y_end - 1, d - 1)
    }
}

/// Triangles of the voxel slab `x0 <= x < x1`, in iteration order.
pub open spec fn mesh_x(v: Seq<u8>, d: int, tri: Seq<i8>, x0: int, x1: int) -> Seq<Triangle>
    decreases x1 - x0,
{
    if x1 <= x0 {
        Seq::empty()
    } else {
        mesh_x(v, d, tri, x0, x1 - 1) + mesh_y(v, d, tri, x1 - 1, d - 1)
    }
}

/// The mesh of the whole voxel domain `[0, d - 2]³` of a volume `v` of
/// dimension `d`, under the triangle table `tri`.
pub open spec fn full_mesh(v: Seq<u8>, d: int, tri: Seq<i8>) -> Seq<Triangle> {
    mesh_x(v, d, tri, 0, d - 1)
}

/// Splitting a slab anywhere splits its mesh: the triangles of `[a, c)` are
/// those of `[a, b)` followed by those of `[b, c)`.  This is what makes
/// per-slab buffers mergeable by plain concatenation.
pub proof fn lemma_mesh_x_concat(v: Seq<u8>, d: int, tri: Seq<i8>, a: int, b: int, c: int)
    requires
        a <= b <= c,
    ensures
        mesh_x(v, d, tri, a, c) == mesh_x(v, d, tri, a, b) + mesh_x(v, d, tri, b, c),
    decreases c - b,
{
    if c == b {
        assert(mesh_x(v, d, tri, a, c) =~= mesh_x(v, d, tri, a, b) + mesh_x(v, d, tri, b, c));
    } else {
        lemma_mesh_x_concat(v, d, tri, a, b, c - 1);
        assert(mesh_x(v, d, tri, a, c) =~= mesh_x(v, d, tri, a, b) + mesh_x(v, d, tri, b, c));
    }
}

/// Runs the classify-and-triangulate pipeline over the slab of voxels with
/// `x0 <= x < x1`, visiting each of its voxels exactly once, in order.
#[verifier::loop_isolation(false)]
pub fn generate_triangles_range(volume: &VolumeField, tables: &Tables, x0: usize, x1: usize) -> (r:
    Vec<Triangle>)
    requires
        volume.wf(),
        tables.wf(),
        x0 <= x1,
        x1 + 1 <= volume.dim,
    ensures
        r@ == mesh_x(volume.data@, volume.dim as int, tables.tri@, x0 as int, x1 as int),
{
    let ghost v = volume.data@;
    let ghost d = volume.dim as int;
    let ghost t = tables.tri@;
    let mut out: Vec<Triangle> = Vec::new();
    let mut x: usize = x0;
    proof {
        assert(out@ =~= mesh_x(v, d, t, x0 as int, x0 as int));
    }
    while x < x1
        invariant
            x0 <= x <= x1,
            out@ == mesh_x(v, d, t, x0 as int, x as int),
        decreases x1 - x,
    {
        let mut y: usize = 0;
        proof {
            assert(out@ =~= mesh_x(v, d, t, x0 as int, x as int) + mesh_y(v, d, t, x as int, 0));
        }
        while y < volume.dim - 1
            invariant
                x < x1,
                y + 1 <= volume.dim,
                out@ == mesh_x(v, d, t, x0 as int, x as int) + mesh_y(v, d, t, x as int, y as int),
            decreases volume.dim - 1 - y,
        {
            let mut z: usize = 0;
            proof {
                assert(out@ =~= mesh_x(v, d, t, x0 as int, x as int) + mesh_y(
                    v,
                    d,
                    t,
                    x as int,
                    y as int,
                ) + mesh_z(v, d, t, x as int, y as int, 0));
            }
            while z < volume.dim - 1
                invariant
                    x < x1,
                    y + 1 < volume.dim,
                    z + 1 <= volume.dim,
                    out@ == mesh_x(v, d, t, x0 as int, x as int) + mesh_y(v, d, t, x as int, y as int)
                        + mesh_z(v, d, t, x as int, y as int, z as int),
                decreases volume.dim - 1 - z,
            {
                voxel_triangles(volume, tables, x, y, z, &mut out);
                proof {
                    assert(out@ =~= mesh_x(v, d, t, x0 as int, x as int) + mesh_y(
                        v,
                        d,
                        t,
                        x as int,
                        y as int,
                    ) + mesh_z(v, d, t, x as int, y as int, z + 1));
                }
                z = z + 1;
            }
            proof {
                assert(out@ =~= mesh_x(v, d, t, x0 as int, x as int) + mesh_y(
                    v,
                    d,
                    t,
                    x as int,
                    y + 1,
                ));
            }
            y = y + 1;
        }
        proof {
            assert(out@ =~= mesh_x(v, d, t, x0 as int, x + 1));
        }
        x = x + 1;
    }
    out
}

/// Extracts the mesh of the whole voxel domain in one sequential sweep.
pub fn generate_triangles(volume: &VolumeField, tables: &Tables) -> (r: Vec<Triangle>)
    requires
        volume.wf(),
        tables.wf(),
    ensures
        r@ == full_mesh(volume.data@, volume.dim as int, tables.tri@),
{
    if volume.dim < 1 {
        let r: Vec<Triangle> = Vec::new();
        proof {
            assert(r@ =~= full_mesh(volume.data@, volume.dim as int, tables.tri@));
        }
        r
    } else {
        generate_triangles_range(volume, tables, 0, volume.dim - 1)
    }
}

/// Splits the voxel domain into `workers` disjoint slabs, extracts each
/// slab's triangles into its own private buffer, and concatenates the
/// buffers in slab order.  The result is the same mesh a single sweep
/// produces, whatever the worker count.
pub fn extract_mesh(volume: &VolumeField, tables: &Tables, workers: usize) -> (r: Vec<Triangle>)
    requires
        volume.wf(),
        tables.wf(),
        1 <= workers,
    ensures
        r@ == full_mesh(volume.data@, volume.dim as int, tables.tri@),
{
    let ghost v = volume.data@;
    let ghost d = volume.dim as int;
    let ghost t = tables.tri@;
    if volume.dim < 1 {
        let r: Vec<Triangle> = Vec::new();
        proof {
            assert(r@ =~= full_mesh(v, d, t));
        }
        return r;
    }
    let n: usize = volume.dim - 1;
    let parts = partition_ranges(n, workers);
    let mut mesh: Vec<Triangle> = Vec::new();
    let mut k: usize = 0;
    proof {
        assert(mesh@ =~= mesh_x(v, d, t, 0, 0));
    }
    while k < workers
        invariant
            volume.wf(),
            tables.wf(),
            v == volume.data@,
            d == volume.dim as int,
            t == tables.tri@,
            n + 1 == volume.dim,
            parts@.len() == workers,
            slabs_cover(parts@, n as int),
            k <= workers,
            mesh@ == mesh_x(v, d, t, 0, (if k == 0 {
                0int
            } else {
                parts@[k - 1].1 as int
            })),
        decreases workers - k,
    {
        let (a, b): (usize, usize) = parts[k];
        proof {
            assert((parts@[k as int]).0 <= parts@[k as int].1);
            if k > 0 {
                assert((parts@[k - 1]).1 == parts@[k as int].0);
            }
            crate::partition::lemma_slab_end_bound(parts@, n as int, k as int);
        }
        let mut local: Vec<Triangle> = generate_triangles_range(volume, tables, a, b);
        proof {
            lemma_mesh_x_concat(v, d, t, 0, a as int, b as int);
        }
        mesh.append(&mut local);
        k = k + 1;
    }
    proof {
        assert((parts@[workers - 1]).1 == n);
    }
    mesh
}

} // verus!
