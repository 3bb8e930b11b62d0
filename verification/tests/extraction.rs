//! End-to-end extraction scenarios.

use marching_cubes::extract::{extract_mesh, generate_triangles};
use marching_cubes::geometry::{Point, Triangle};
use marching_cubes::tables::Tables;
use marching_cubes::volume::VolumeField;

fn volume_from(data: Vec<u8>, dim: usize) -> VolumeField {
    VolumeField::new(data, dim).expect("volume length must match dimension")
}

fn tables() -> Tables {
    Tables::standard()
}

fn triangle_key(t: &Triangle) -> (usize, usize, usize, usize, usize, usize, usize, usize, usize) {
    (t.a.x, t.a.y, t.a.z, t.b.x, t.b.y, t.b.z, t.c.x, t.c.y, t.c.z)
}

fn sorted(mesh: &[Triangle]) -> Vec<Triangle> {
    let mut m: Vec<Triangle> = mesh.to_vec();
    m.sort_by_key(triangle_key);
    m
}

#[test]
fn all_zero_volume_yields_empty_mesh() {
    let tabs = tables();
    for dim in [1usize, 2, 3, 5] {
        let vol = volume_from(vec![0u8; dim * dim * dim], dim);
        for w in 1usize..=64 {
            let mesh = extract_mesh(&vol, &tabs, w);
            assert_eq!(mesh.len(), 0, "dim {} workers {}", dim, w);
        }
        assert_eq!(generate_triangles(&vol, &tabs).len(), 0);
    }
}

#[test]
fn single_inside_corner_yields_one_table_triangle() {
    let tabs = tables();
    // D = 2: one voxel; only the sample at grid point (1, 1, 1) is inside.
    let mut data = vec![0u8; 8];
    data[1 * 4 + 1 * 2 + 1] = 1;
    let vol = volume_from(data, 2);
    let mesh = extract_mesh(&vol, &tabs, 1);
    // Grid point (1, 1, 1) is corner 6, so the configuration is 1 << 6 = 64,
    // whose table row is the single triple (6, 7, 11); the vertices are the
    // fixed half-unit edge midpoints of voxel (0, 0, 0).
    let expected = Triangle {
        a: Point { x: 1, y: 2, z: 2 },
        b: Point { x: 0, y: 1, z: 2 },
        c: Point { x: 0, y: 2, z: 1 },
    };
    assert_eq!(mesh.len(), 1);
    assert_eq!(mesh[0], expected);
    // The row the mesh was decoded from is the table's own.
    let row = tabs.triangle_row(64);
    assert_eq!(&row[..4], &[6, 7, 11, -1]);
}

#[test]
fn partition_count_invariance() {
    let tabs = tables();
    let dim: usize = 5;
    let mut data = vec![0u8; dim * dim * dim];
    for (i, s) in data.iter_mut().enumerate() {
        *s = if (i * 7) % 3 == 0 { 1 } else { 0 };
    }
    let vol = volume_from(data, dim);
    let reference = extract_mesh(&vol, &tabs, 1);
    assert!(reference.len() > 0, "the scenario volume must be non-trivial");
    assert_eq!(generate_triangles(&vol, &tabs), reference);
    let reference_sorted = sorted(&reference);
    for w in 2..dim {
        let mesh = extract_mesh(&vol, &tabs, w);
        assert_eq!(mesh.len(), reference.len(), "triangle count with {} workers", w);
        assert_eq!(sorted(&mesh), reference_sorted, "triangle multiset with {} workers", w);
    }
}

#[test]
fn two_runs_are_bitwise_identical() {
    let tabs = tables();
    let dim: usize = 4;
    let mut data = vec![0u8; dim * dim * dim];
    for (i, s) in data.iter_mut().enumerate() {
        *s = (i % 2) as u8;
    }
    let vol = volume_from(data, dim);
    for w in [1usize, 2, 3] {
        let first = extract_mesh(&vol, &tabs, w);
        let second = extract_mesh(&vol, &tabs, w);
        assert_eq!(first, second);
    }
}

#[test]
fn hollow_corner_end_to_end() {
    let tabs = tables();
    // D = 4: every sample inside except grid point (0, 0, 0), which belongs
    // to voxel (0, 0, 0) alone; every other voxel is homogeneous.
    let dim: usize = 4;
    let mut data = vec![1u8; dim * dim * dim];
    data[0] = 0;
    let vol = volume_from(data, dim);
    // Corner 0 outside leaves configuration 254, whose row is the single
    // triple (8, 3, 0), resolved at voxel (0, 0, 0).
    let row = tabs.triangle_row(254);
    assert_eq!(&row[..4], &[8, 3, 0, -1]);
    let expected = Triangle {
        a: Point { x: 0, y: 0, z: 1 },
        b: Point { x: 0, y: 1, z: 0 },
        c: Point { x: 1, y: 0, z: 0 },
    };
    for w in 1usize..=8 {
        let mesh = extract_mesh(&vol, &tabs, w);
        assert_eq!(mesh.len(), 1, "workers {}", w);
        assert_eq!(mesh[0], expected, "workers {}", w);
    }
}
