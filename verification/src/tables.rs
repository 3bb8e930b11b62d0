//! The marching-cubes lookup tables.
//!
//! The tables are reference data, not derived here: a 256-entry edge table
//! (which of a voxel's 12 edges the surface crosses, per configuration) and
//! a 256-row triangle table (which edge triples form the triangulation).
//! Triangle rows are held flat with a stride of 16 entries; a row lists edge
//! indices in `[0, 11]`, three per triangle, and is terminated by the first
//! `-1` sentinel, which lands at entry 12 at the latest.  The canonical data
//! is proved well-formed once and for all; caller-supplied data is validated
//! once, at load time.

use vstd::prelude::*;

use crate::table_data::{
    canonical_mask, canonical_mask_value, canonical_row, canonical_row_data,
    lemma_canonical_config_ok,
};
use crate::MeshError;

verus! {

/// Row `ci` of the flat triangle table.
pub open spec fn row_of(tri: Seq<i8>, ci: int) -> Seq<i8> {
    tri.subrange(ci * 16, ci * 16 + 16)
}

/// `s` is a fitting sentinel position for `row`: it holds the first `-1`,
/// sits on a triple boundary no later than entry 12, and every entry before
/// it is an edge index in `[0, 11]`.
pub open spec fn prefix_ok(row: Seq<i8>, s: int) -> bool {
    &&& 0 <= s <= 12
    &&& s % 3 == 0
    &&& row[s] == -1
    &&& forall|k: int| 0 <= k < s ==> 0 <= #[trigger] row[k] <= 11
}

/// A well-formed triangle-table row: full stride, complete triples of
/// in-range edge indices, then a sentinel.
pub open spec fn row_wf(row: Seq<i8>) -> bool {
    &&& row.len() == 16
    &&& exists|s: int| prefix_ok(row, s)
}

/// The whole table pair is well-formed: both tables full, every row
/// well-formed, and a configuration whose edge mask is zero (a homogeneous
/// voxel — in particular the all-outside and all-inside ones) contributes no
/// geometry.
pub open spec fn tables_wf(edge: Seq<u32>, tri: Seq<i8>) -> bool {
    &&& edge.len() == 256
    &&& tri.len() == 4096
    &&& edge[0] == 0
    &&& edge[255] == 0
    &&& forall|c: int|
        0 <= c < 256 ==> (row_wf(#[trigger] row_of(tri, c)) && (edge[c] == 0 ==> row_of(tri, c)[0]
            == -1))
}

/// Range law of the lookup data: in a validated table every configuration's
/// row has a sentinel on a triple boundary no later than entry 12, and every
/// edge index before it — exactly the entries the triangulator consumes —
/// lies in `[0, 11]`.
pub proof fn lemma_consumed_edges_in_range(edge: Seq<u32>, tri: Seq<i8>, c: int)
    requires
        tables_wf(edge, tri),
        0 <= c < 256,
    ensures
        exists|s: int| prefix_ok(row_of(tri, c), s),
{
    assert(row_wf(row_of(tri, c)));
}

/// The pair of lookup tables an extraction run consults.  Built fresh by
/// [`Tables::standard`], whose canonical data is proved well-formed once and
/// for all, or from caller-supplied data by [`Tables::from_parts`], which
/// validates it; either way the data is well-formed whenever [`Tables::wf`]
/// holds.
#[derive(Debug)]
pub struct Tables {
    /// Configuration to 12-bit crossed-edge mask.
    pub edge: Vec<u32>,
    /// Flat triangle rows, stride 16, sentinel-terminated.
    pub tri: Vec<i8>,
}

/// Scans one flat row for its sentinel.  Returns the sentinel position when
/// the row is well-formed, and `None` exactly when it is not.
fn scan_row(tri: &Vec<i8>, ci: usize) -> (r: Option<usize>)
    requires
        tri@.len() == 4096,
        ci < 256,
    ensures
        match r {
            Some(s) => prefix_ok(row_of(tri@, ci as int), s as int),
            None => !row_wf(row_of(tri@, ci as int)),
        },
{
    let ghost row = row_of(tri@, ci as int);
    let base: usize = ci * 16;
    let mut j: usize = 0;
    while j < 16
        invariant
            tri@.len() == 4096,
            ci < 256,
            base == ci * 16,
            j <= 16,
            row == row_of(tri@, ci as int),
            forall|k: int| 0 <= k < j ==> 0 <= #[trigger] row[k] <= 11,
        decreases 16 - j,
    {
        let e: i8 = tri[base + j];
        proof {
            assert(row[j as int] == tri@[(ci * 16 + j) as int]);
        }
        if e == -1 {
            if j <= 12 && j % 3 == 0 {
                proof {
                    assert(prefix_ok(row, j as int));
                }
                return Some(j);
            } else {
                proof {
                    assert forall|s: int| !prefix_ok(row, s) by {
                        if prefix_ok(row, s) {
                            if s < j {
                                assert(0 <= row[s] <= 11);
                            } else if s > j {
                                assert(0 <= row[j as int] <= 11);
                            }
                        }
                    }
                }
                return None;
            }
        } else if e < 0 || e > 11 {
            proof {
                assert forall|s: int| !prefix_ok(row, s) by {
                    if prefix_ok(row, s) {
                        if s < j {
                            assert(0 <= row[s] <= 11);
                        } else if s > j {
                            assert(0 <= row[j as int] <= 11);
                        }
                    }
                }
            }
            return None;
        }
        j = j + 1;
    }
    proof {
        assert forall|s: int| !prefix_ok(row, s) by {
            if prefix_ok(row, s) {
                assert(0 <= row[s] <= 11);
            }
        }
    }
    None
}

/// The canonical edge table: one mask per configuration.
pub open spec fn canonical_edge_masks() -> Seq<u32> {
    Seq::new(256, |c: int| canonical_mask(c))
}

/// The canonical triangle table, flattened with a stride of 16.
pub open spec fn canonical_triangle_rows() -> Seq<i8> {
    Seq::new(4096, |i: int| canonical_row(i / 16)[i % 16])
}

/// Row `c` of the flat canonical triangle table is the canonical row of
/// configuration `c`.
pub proof fn lemma_row_of_canonical(c: int)
    requires
        0 <= c < 256,
    ensures
        row_of(canonical_triangle_rows(), c) == canonical_row(c),
{
    lemma_canonical_config_ok(c);
    assert forall|j: int| 0 <= j < 16 implies canonical_triangle_rows()[c * 16 + j]
        == canonical_row(c)[j] by {
        assert((c * 16 + j) / 16 == c && (c * 16 + j) % 16 == j) by (nonlinear_arith)
            requires
                0 <= j < 16,
        ;
    }
    assert(row_of(canonical_triangle_rows(), c) =~= canonical_row(c));
}

/// The canonical tables are well-formed: this is proved once, so building
/// them can never fail.
pub proof fn lemma_canonical_tables_wf()
    ensures
        tables_wf(canonical_edge_masks(), canonical_triangle_rows()),
{
    assert forall|c: int|
        0 <= c < 256 implies (row_wf(#[trigger] row_of(canonical_triangle_rows(), c)) && (
        canonical_edge_masks()[c] == 0 ==> row_of(canonical_triangle_rows(), c)[0] == -1)) by {
        lemma_canonical_config_ok(c);
        lemma_row_of_canonical(c);
    }
}

/// Early-exit law of the canonical data: the edge mask vanishes exactly
/// where the triangle row is empty — at the two homogeneous configurations,
/// 0 (all corners outside) and 255 (all corners inside) — so skipping voxels
/// whose mask is zero cannot change the mesh.
pub proof fn lemma_canonical_early_exit(c: int)
    requires
        0 <= c < 256,
    ensures
        (canonical_edge_masks()[c] == 0) <==> (row_of(canonical_triangle_rows(), c)[0] == -1),
        (canonical_edge_masks()[c] == 0) <==> (c == 0 || c == 255),
{
    lemma_canonical_config_ok(c);
    lemma_row_of_canonical(c);
}

impl Tables {
    /// The held data is well-formed.
    pub open spec fn wf(&self) -> bool {
        tables_wf(self.edge@, self.tri@)
    }

    /// Validates caller-supplied table data, detecting every malformed-table
    /// fault once, up front: the result is `Ok` exactly when the data is
    /// well-formed, and the fault is reported as
    /// [`MeshError::MalformedTable`] otherwise.
    pub fn from_parts(edge: Vec<u32>, tri: Vec<i8>) -> (r: Result<Tables, MeshError>)
        ensures
            match r {
                Ok(t) => {
                    &&& tables_wf(edge@, tri@)
                    &&& t.wf()
                    &&& t.edge@ == edge@
                    &&& t.tri@ == tri@
                },
                Err(e) => {
                    &&& e == MeshError::MalformedTable
                    &&& !tables_wf(edge@, tri@)
                },
            },
    {
        if edge.len() != 256 || tri.len() != 4096 {
            return Err(MeshError::MalformedTable);
        }
        if edge[0] != 0 || edge[255] != 0 {
            return Err(MeshError::MalformedTable);
        }
        let mut ci: usize = 0;
        while ci < 256
            invariant
                edge@.len() == 256,
                tri@.len() == 4096,
                edge@[0] == 0,
                edge@[255] == 0,
                ci <= 256,
                forall|c: int|
                    0 <= c < ci ==> (row_wf(#[trigger] row_of(tri@, c)) && (edge@[c] == 0
                        ==> row_of(tri@, c)[0] == -1)),
            decreases 256 - ci,
        {
            match scan_row(&tri, ci) {
                Some(s) => {
                    if edge[ci] == 0 && s != 0 {
                        proof {
                            assert(0 <= row_of(tri@, ci as int)[0] <= 11);
                            assert(!tables_wf(edge@, tri@));
                        }
                        return Err(MeshError::MalformedTable);
                    }
                },
                None => {
                    proof {
                        assert(!tables_wf(edge@, tri@));
                    }
                    return Err(MeshError::MalformedTable);
                },
            }
            ci = ci + 1;
        }
        Ok(Tables { edge, tri })
    }


    /// Builds the canonical tables.  The data is an immutable asset
    /// reproduced verbatim and proved well-formed once and for all, so
    /// construction cannot fail; the result holds exactly the canonical
    /// masks and rows.
    pub fn standard() -> (t: Tables)
        ensures
            t.wf(),
            t.edge@ == canonical_edge_masks(),
            t.tri@ == canonical_triangle_rows(),
    {
        let mut edge: Vec<u32> = Vec::new();
        let mut c: usize = 0;
        while c < 256
            invariant
                c <= 256,
                edge@.len() == c,
                forall|i: int| 0 <= i < c ==> edge@[i] == canonical_mask(i),
            decreases 256 - c,
        {
            edge.push(canonical_mask_value(c));
            c = c + 1;
        }
        let mut tri: Vec<i8> = Vec::new();
        let mut c2: usize = 0;
        while c2 < 256
            invariant
                c2 <= 256,
                tri@.len() == c2 * 16,
                forall|k: int, j: int|
                    0 <= k < c2 && 0 <= j < 16 ==> tri@[k * 16 + j] == #[trigger] canonical_row(
                        k,
                    )[j],
            decreases 256 - c2,
        {
            let row: [i8; 16] = canonical_row_data(c2);
            let mut j: usize = 0;
            while j < 16
                invariant
                    j <= 16,
                    c2 < 256,
                    tri@.len() == c2 * 16 + j,
                    row@ == canonical_row(c2 as int),
                    forall|k: int, j2: int|
                        0 <= k < c2 && 0 <= j2 < 16 ==> tri@[k * 16 + j2]
                            == #[trigger] canonical_row(k)[j2],
                    forall|j2: int|
                        0 <= j2 < j ==> tri@[c2 * 16 + j2] == #[trigger] canonical_row(
                            c2 as int,
                        )[j2],
                decreases 16 - j,
            {
                tri.push(row[j]);
                j = j + 1;
            }
            c2 = c2 + 1;
        }
        proof {
            assert(edge@ =~= canonical_edge_masks());
            assert forall|i: int| 0 <= i < 4096 implies tri@[i] == canonical_triangle_rows()[i] by {
                let k = i / 16;
                let j = i % 16;
                assert(0 <= k < 256 && 0 <= j < 16 && i == k * 16 + j) by (nonlinear_arith)
                    requires
                        0 <= i < 4096,
                        k == i / 16,
                        j == i % 16,
                ;
                assert(tri@[k * 16 + j] == canonical_row(k)[j]);
            }
            assert(tri@ =~= canonical_triangle_rows());
            lemma_canonical_tables_wf();
        }
        Tables { edge, tri }
    }

    /// The edge mask of configuration `ci`: bit `e` is set iff the surface
    /// crosses edge `e`.  Zero means the voxel is homogeneous and can be
    /// skipped.
    pub fn edge_mask(&self, ci: u8) -> (m: u32)
        requires
            self.wf(),
        ensures
            m == self.edge@[ci as int],
    {
        self.edge[ci as usize]
    }

    /// A copy of triangle-table row `ci`, sentinel included.
    pub fn triangle_row(&self, ci: u8) -> (row: Vec<i8>)
        requires
            self.wf(),
        ensures
            row@ == row_of(self.tri@, ci as int),
    {
        let base: usize = (ci as usize) * 16;
        let mut row: Vec<i8> = Vec::new();
        let mut j: usize = 0;
        while j < 16
            invariant
                self.wf(),
                base == (ci as usize) * 16,
                j <= 16,
                row@.len() == j,
                forall|k: int| 0 <= k < j ==> row@[k] == row_of(self.tri@, ci as int)[k],
            decreases 16 - j,
        {
            row.push(self.tri[base + j]);
            j = j + 1;
        }
        proof {
            assert(row@ =~= row_of(self.tri@, ci as int));
        }
        row
    }
}

} // verus!
