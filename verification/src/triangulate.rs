//! Table-driven triangulation of one voxel.

use vstd::prelude::*;

use crate::classify::{get_cube_index, spec_cube_index};
use crate::geometry::{get_vertex_position, vertex_at, Point, Triangle};
use crate::tables::{prefix_ok, row_of, Tables};
use crate::volume::{lemma_doubled_coordinate_fits, VolumeField};

verus! {

/// The triangle that the edge triple `(e0, e1, e2)` yields at the voxel at
/// `(x, y, z)`, each corner placed on its edge midpoint.
pub open spec fn triangle_from(e0: int, e1: int, e2: int, x: int, y: int, z: int) -> Triangle {
    Triangle { a: vertex_at(e0, x, y, z), b: vertex_at(e1, x, y, z), c: vertex_at(e2, x, y, z) }
}

/// The triangles decoded from `row` starting at entry `i`: triples are read
/// in table order until the first sentinel (or the end of the row), each
/// resolved at the voxel at `(x, y, z)`.
pub open spec fn row_tris_from(row: Seq<i8>, i: int, x: int, y: int, z: int) -> Seq<Triangle>
    decreases row.len() - i,
{
    if i < 0 || i + 3 > row.len() || row[i] == -1 {
        Seq::empty()
    } else {
        seq![triangle_from(row[i] as int, row[i + 1] as int, row[i + 2] as int, x, y, z)]
            + row_tris_from(row, i + 3, x, y, z)
    }
}

/// All triangles the voxel at `(x, y, z)` contributes: its configuration's
/// table row, decoded from the start.
pub open spec fn voxel_tris(v: Seq<u8>, d: int, tri: Seq<i8>, x: int, y: int, z: int) -> Seq<
    Triangle,
> {
    row_tris_from(row_of(tri, spec_cube_index(v, d, x, y, z)), 0, x, y, z)
}

/// Classifies the voxel at `(x, y, z)`, skips it when its edge mask shows it
/// is homogeneous, and otherwise decodes its triangle-table row, appending
/// each resolved triangle to `out` in table order.
pub fn voxel_triangles(
    volume: &VolumeField,
    tables: &Tables,
    x: usize,
    y: usize,
    z: usize,
    out: &mut Vec<Triangle>,
)
    requires
        volume.wf(),
        tables.wf(),
        x + 1 < volume.dim,
        y + 1 < volume.dim,
        z + 1 < volume.dim,
    ensures
        final(out)@ == old(out)@ + voxel_tris(
            volume.data@,
            volume.dim as int,
            tables.tri@,
            x as int,
            y as int,
            z as int,
        ),
{
    let ci: u8 = get_cube_index(volume, x, y, z);
    let ghost row = row_of(tables.tri@, ci as int);
    if tables.edge_mask(ci) == 0 {
        proof {
            assert(row[0] == -1);
            assert(old(out)@ + row_tris_from(row, 0, x as int, y as int, z as int) =~= old(out)@);
        }
        return ;
    }
    proof {
        assert(volume.data.len() == volume.data@.len());
        lemma_doubled_coordinate_fits(volume.dim as int);
    }
    let ghost s = choose|s: int| prefix_ok(row, s);
    let base: usize = (ci as usize) * 16;
    let mut j: usize = 0;
    while tables.tri[base + j] != -1
        invariant
            volume.wf(),
            tables.wf(),
            x + 1 < volume.dim,
            y + 1 < volume.dim,
            z + 1 < volume.dim,
            2 * volume.dim + 2 <= usize::MAX,
            base == ci * 16,
            ci < 256,
            row == row_of(tables.tri@, ci as int),
            prefix_ok(row, s),
            j % 3 == 0,
            j <= s,
            out@ + row_tris_from(row, j as int, x as int, y as int, z as int) == old(out)@
                + row_tris_from(row, 0, x as int, y as int, z as int),
        decreases 12 - j,
    {
        proof {
            if j == s {
                assert(row[j as int] == tables.tri@[(ci * 16 + j) as int]);
                assert(false);
            }
            assert(j + 3 <= s) by {
                assert(j < s && j % 3 == 0 && s % 3 == 0);
            }
            assert(row[j as int] == tables.tri@[(ci * 16 + j) as int]);
            assert(row[j + 1] == tables.tri@[(ci * 16 + j + 1) as int]);
            assert(row[j + 2] == tables.tri@[(ci * 16 + j + 2) as int]);
            assert(0 <= row[j as int] <= 11);
            assert(0 <= row[j + 1] <= 11);
            assert(0 <= row[j + 2] <= 11);
        }
        let e0: i8 = tables.tri[base + j];
        let e1: i8 = tables.tri[base + j + 1];
        let e2: i8 = tables.tri[base + j + 2];
        let pa: Point = get_vertex_position(e0 as usize, x, y, z);
        let pb: Point = get_vertex_position(e1 as usize, x, y, z);
        let pc: Point = get_vertex_position(e2 as usize, x, y, z);
        let ghost prev = out@;
        out.push(Triangle { a: pa, b: pb, c: pc });
        proof {
            let gx = x as int;
            let gy = y as int;
            let gz = z as int;
            let t = triangle_from(row[j as int] as int, row[j + 1] as int, row[j + 2] as int, gx, gy, gz);
            assert(out@ =~= prev + seq![t]);
            assert(row_tris_from(row, j as int, gx, gy, gz) == seq![t] + row_tris_from(
                row,
                j + 3,
                gx,
                gy,
                gz,
            ));
            assert(out@ + row_tris_from(row, j + 3, gx, gy, gz) =~= prev + row_tris_from(
                row,
                j as int,
                gx,
                gy,
                gz,
            ));
        }
        j = j + 3;
    }
    proof {
        let gx = x as int;
        let gy = y as int;
        let gz = z as int;
        assert(row[j as int] == tables.tri@[(ci * 16 + j) as int]);
        assert(row_tris_from(row, j as int, gx, gy, gz) =~= Seq::empty());
        assert(out@ =~= out@ + row_tris_from(row, j as int, gx, gy, gz));
    }
}

} // verus!
