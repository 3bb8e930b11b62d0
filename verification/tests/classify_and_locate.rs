//! Classification, vertex placement, and volume construction.

use marching_cubes::classify::get_cube_index;
use marching_cubes::geometry::{get_vertex_position, Point};
use marching_cubes::volume::VolumeField;
use marching_cubes::MeshError;

/// Flat index of grid point `(x, y, z)` in a grid of dimension `d`.
fn at(d: usize, x: usize, y: usize, z: usize) -> usize {
    x * d * d + y * d + z
}

#[test]
fn volume_new_checks_the_length() {
    assert!(VolumeField::new(vec![0u8; 27], 3).is_ok());
    assert!(VolumeField::new(vec![0u8; 1], 1).is_ok());
    assert!(VolumeField::new(Vec::new(), 0).is_ok());
    assert_eq!(VolumeField::new(vec![0u8; 7], 2).unwrap_err(), MeshError::OutOfBounds);
    assert_eq!(VolumeField::new(vec![0u8; 1000], 64).unwrap_err(), MeshError::OutOfBounds);
}

#[test]
fn each_corner_sets_its_own_bit() {
    let corners = [
        (0usize, 0usize, 0usize),
        (1, 0, 0),
        (1, 1, 0),
        (0, 1, 0),
        (0, 0, 1),
        (1, 0, 1),
        (1, 1, 1),
        (0, 1, 1),
    ];
    for (i, &(cx, cy, cz)) in corners.iter().enumerate() {
        let mut data = vec![0u8; 8];
        data[at(2, cx, cy, cz)] = 1;
        let vol = VolumeField::new(data, 2).unwrap();
        assert_eq!(get_cube_index(&vol, 0, 0, 0), 1u8 << i, "corner {}", i);
    }
}

#[test]
fn homogeneous_voxels_classify_to_the_extremes() {
    let vol = VolumeField::new(vec![0u8; 8], 2).unwrap();
    assert_eq!(get_cube_index(&vol, 0, 0, 0), 0);
    let vol = VolumeField::new(vec![1u8; 8], 2).unwrap();
    assert_eq!(get_cube_index(&vol, 0, 0, 0), 255);
}

#[test]
fn classification_reads_the_right_voxel() {
    // D = 3: mark grid point (2, 2, 2); only voxel (1, 1, 1) sees it, as its
    // corner 6.
    let mut data = vec![0u8; 27];
    data[at(3, 2, 2, 2)] = 1;
    let vol = VolumeField::new(data, 3).unwrap();
    assert_eq!(get_cube_index(&vol, 1, 1, 1), 64);
    assert_eq!(get_cube_index(&vol, 0, 0, 0), 0);
    assert_eq!(get_cube_index(&vol, 1, 0, 0), 0);
    assert_eq!(get_cube_index(&vol, 0, 1, 1), 0);
}

#[test]
fn vertex_positions_are_the_half_unit_edge_midpoints() {
    // Doubled coordinates of the 12 edge midpoints of the unit voxel.
    let expected = [
        (1usize, 0usize, 0usize),
        (2, 1, 0),
        (1, 2, 0),
        (0, 1, 0),
        (1, 0, 2),
        (2, 1, 2),
        (1, 2, 2),
        (0, 1, 2),
        (0, 0, 1),
        (2, 0, 1),
        (2, 2, 1),
        (0, 2, 1),
    ];
    for (e, &(ex, ey, ez)) in expected.iter().enumerate() {
        let p = get_vertex_position(e, 0, 0, 0);
        assert_eq!(p, Point { x: ex, y: ey, z: ez }, "edge {}", e);
        let q = get_vertex_position(e, 1, 2, 3);
        assert_eq!(q, Point { x: 2 + ex, y: 4 + ey, z: 6 + ez }, "edge {} translated", e);
    }
}
