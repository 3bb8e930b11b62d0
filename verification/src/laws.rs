//! Global properties of the extraction pipeline, stated and proved once
//! over the specification functions the executable contracts use.

use vstd::prelude::*;

use crate::classify::{corner_inside, corner_offset, spec_cube_index};
use crate::extract::{full_mesh, lemma_mesh_x_concat, mesh_x, mesh_y, mesh_z};
use crate::geometry::Triangle;
use crate::partition::{lemma_slab_bounds_monotone, slabs_cover};
use crate::tables::{row_of, tables_wf};
use crate::triangulate::voxel_tris;
use crate::volume::lemma_sample_index_in_cube;

verus! {

/// A voxel none of whose corner samples is positive has configuration 0.
proof fn lemma_cube_index_zero(v: Seq<u8>, d: int, x: int, y: int, z: int)
    requires
        v.len() == d * d * d,
        forall|i: int| 0 <= i < v.len() ==> !(#[trigger] v[i] > 0),
        0 <= x && x + 1 < d,
        0 <= y && y + 1 < d,
        0 <= z && z + 1 < d,
    ensures
        spec_cube_index(v, d, x, y, z) == 0,
{
    assert forall|c: int| 0 <= c < 8 implies !corner_inside(v, d, x, y, z, c) by {
        let ox = corner_offset(c).0;
        let oy = corner_offset(c).1;
        let oz = corner_offset(c).2;
        lemma_sample_index_in_cube(d, x + ox, y + oy, z + oz);
    }
}

/// A voxel of an all-outside volume contributes no triangles: its
/// configuration is 0, whose table row starts with the sentinel.
proof fn lemma_voxel_empty(v: Seq<u8>, d: int, edge: Seq<u32>, tri: Seq<i8>, x: int, y: int, z: int)
    requires
        tables_wf(edge, tri),
        v.len() == d * d * d,
        forall|i: int| 0 <= i < v.len() ==> !(#[trigger] v[i] > 0),
        0 <= x && x + 1 < d,
        0 <= y && y + 1 < d,
        0 <= z && z + 1 < d,
    ensures
        voxel_tris(v, d, tri, x, y, z) == Seq::<Triangle>::empty(),
{
    lemma_cube_index_zero(v, d, x, y, z);
    assert(row_of(tri, 0)[0] == -1);
    assert(voxel_tris(v, d, tri, x, y, z) =~= Seq::<Triangle>::empty());
}

proof fn lemma_mesh_z_empty(
    v: Seq<u8>,
    d: int,
    edge: Seq<u32>,
    tri: Seq<i8>,
    x: int,
    y: int,
    z_end: int,
)
    requires
        tables_wf(edge, tri),
        v.len() == d * d * d,
        forall|i: int| 0 <= i < v.len() ==> !(#[trigger] v[i] > 0),
        0 <= x && x + 1 < d,
        0 <= y && y + 1 < d,
        z_end <= d - 1,
    ensures
        mesh_z(v, d, tri, x, y, z_end) == Seq::<Triangle>::empty(),
    decreases z_end,
{
    if z_end <= 0 {
    } else {
        lemma_mesh_z_empty(v, d, edge, tri, x, y, z_end - 1);
        lemma_voxel_empty(v, d, edge, tri, x, y, z_end - 1);
        assert(mesh_z(v, d, tri, x, y, z_end) =~= Seq::<Triangle>::empty());
    }
}

proof fn lemma_mesh_y_empty(
    v: Seq<u8>,
    d: int,
    edge: Seq<u32>,
    tri: Seq<i8>,
    x: int,
    y_end: int,
)
    requires
        tables_wf(edge, tri),
        v.len() == d * d * d,
        forall|i: int| 0 <= i < v.len() ==> !(#[trigger] v[i] > 0),
        0 <= x && x + 1 < d,
        y_end <= d - 1,
    ensures
        mesh_y(v, d, tri, x, y_end) == Seq::<Triangle>::empty(),
    decreases y_end,
{
    if y_end <= 0 {
    } else {
        lemma_mesh_y_empty(v, d, edge, tri, x, y_end - 1);
        lemma_mesh_z_empty(v, d, edge, tri, x, y_end - 1, d - 1);
        assert(mesh_y(v, d, tri, x, y_end) =~= Seq::<Triangle>::empty());
    }
}

proof fn lemma_mesh_x_empty(v: Seq<u8>, d: int, edge: Seq<u32>, tri: Seq<i8>, x0: int, x1: int)
    requires
        tables_wf(edge, tri),
        v.len() == d * d * d,
        forall|i: int| 0 <= i < v.len() ==> !(#[trigger] v[i] > 0),
        0 <= x0,
        x1 <= d - 1,
    ensures
        mesh_x(v, d, tri, x0, x1) == Seq::<Triangle>::empty(),
    decreases x1 - x0,
{
    if x1 <= x0 {
    } else {
        lemma_mesh_x_empty(v, d, edge, tri, x0, x1 - 1);
        lemma_mesh_y_empty(v, d, edge, tri, x1 - 1, d - 1);
        assert(mesh_x(v, d, tri, x0, x1) =~= Seq::<Triangle>::empty());
    }
}

/// An all-outside volume — no sample greater than zero — yields the empty
/// mesh, whatever the dimension; and since the mesh is independent of the
/// slab split, whatever the worker count.
pub proof fn lemma_all_outside_empty(v: Seq<u8>, d: int, edge: Seq<u32>, tri: Seq<i8>)
    requires
        tables_wf(edge, tri),
        v.len() == d * d * d,
        forall|i: int| 0 <= i < v.len() ==> !(#[trigger] v[i] > 0),
    ensures
        full_mesh(v, d, tri) == Seq::<Triangle>::empty(),
{
    lemma_mesh_x_empty(v, d, edge, tri, 0, d - 1);
}

/// The meshes of a sequence of slabs, concatenated in slab order.
pub open spec fn slab_meshes(v: Seq<u8>, d: int, tri: Seq<i8>, r: Seq<(usize, usize)>) -> Seq<
    Triangle,
>
    decreases r.len(),
{
    if r.len() == 0 {
        Seq::empty()
    } else {
        mesh_x(v, d, tri, r[0].0 as int, r[0].1 as int) + slab_meshes(
            v,
            d,
            tri,
            r.subrange(1, r.len() as int),
        )
    }
}

/// Merge over consecutive slabs from `a` to `n`, by induction on the slabs.
proof fn lemma_slab_meshes_concat(v: Seq<u8>, d: int, tri: Seq<i8>, r: Seq<(usize, usize)>, n: int)
    requires
        r.len() >= 1,
        r[r.len() - 1].1 == n,
        forall|k: int| 0 <= k < r.len() ==> (#[trigger] r[k]).0 <= r[k].1,
        forall|k: int| 0 <= k < r.len() - 1 ==> (#[trigger] r[k]).1 == r[k + 1].0,
    ensures
        slab_meshes(v, d, tri, r) == mesh_x(v, d, tri, r[0].0 as int, n),
    decreases r.len(),
{
    let a = r[0].0 as int;
    if r.len() == 1 {
        assert(r.subrange(1, r.len() as int).len() == 0);
        assert(slab_meshes(v, d, tri, r.subrange(1, r.len() as int)) == Seq::<Triangle>::empty());
        assert(slab_meshes(v, d, tri, r) =~= mesh_x(v, d, tri, a, n));
    } else {
        let rest = r.subrange(1, r.len() as int);
        assert(forall|k: int|
            0 <= k < rest.len() ==> (#[trigger] rest[k]).0 == r[k + 1].0 && rest[k].1 == r[k
                + 1].1);
        assert(rest[rest.len() - 1].1 == n);
        lemma_slab_meshes_concat(v, d, tri, rest, n);
        let b = r[0].1 as int;
        assert(rest[0].0 == b);
        if rest.len() >= 2 {
            lemma_slab_bounds_monotone(rest, 0, rest.len() - 1);
        }
        assert(b <= n);
        lemma_mesh_x_concat(v, d, tri, a, b, n);
        assert(slab_meshes(v, d, tri, r) =~= mesh_x(v, d, tri, a, n));
    }
}

/// Merge law of the domain decomposition: for any disjoint, exhaustive
/// cover of the iteration range `[0, n)` by consecutive slabs, concatenating
/// the slabs' meshes in order reproduces the mesh of the whole range — no
/// triangle is dropped, none is duplicated.  With `n == d - 1` this is the
/// full mesh, so the result is the same for every worker count.
pub proof fn lemma_slab_merge(v: Seq<u8>, d: int, tri: Seq<i8>, r: Seq<(usize, usize)>, n: int)
    requires
        slabs_cover(r, n),
    ensures
        slab_meshes(v, d, tri, r) == mesh_x(v, d, tri, 0, n),
        n == d - 1 ==> slab_meshes(v, d, tri, r) == full_mesh(v, d, tri),
{
    lemma_slab_meshes_concat(v, d, tri, r, n);
}

/// Determinism: the mesh is a function of the volume's samples, the grid
/// dimension and the triangle table alone, so any two runs over the same
/// immutable volume produce the same triangle sequence — and with it the
/// same multiset and count.
pub proof fn lemma_deterministic(
    v: Seq<u8>,
    d: int,
    tri: Seq<i8>,
    m1: Seq<Triangle>,
    m2: Seq<Triangle>,
)
    requires
        m1 == full_mesh(v, d, tri),
        m2 == full_mesh(v, d, tri),
    ensures
        m1 == m2,
        m1.to_multiset() == m2.to_multiset(),
        m1.len() == m2.len(),
{
}

} // verus!
