//! Load-time validation of the lookup tables, and their range invariants.

use marching_cubes::tables::Tables;
use marching_cubes::MeshError;

fn blank_tri() -> Vec<i8> {
    vec![-1i8; 4096]
}

fn blank_edge() -> Vec<u32> {
    vec![0u32; 256]
}

#[test]
fn standard_tables_hold_the_canonical_masks() {
    let tabs = Tables::standard();
    assert_eq!(tabs.edge_mask(0), 0x000);
    assert_eq!(tabs.edge_mask(1), 0x109);
    assert_eq!(tabs.edge_mask(64), 0x460);
    assert_eq!(tabs.edge_mask(254), 0x109);
    assert_eq!(tabs.edge_mask(255), 0x000);
}

#[test]
fn every_row_is_well_formed() {
    // Range invariant on consumption: each row terminates on a triple
    // boundary by entry 12, and every consumed edge index lies in [0, 11].
    let tabs = Tables::standard();
    for ci in 0u16..256 {
        let row = tabs.triangle_row(ci as u8);
        assert_eq!(row.len(), 16);
        let sentinel = row
            .iter()
            .position(|&e| e == -1)
            .expect("every row must hold a sentinel");
        assert!(sentinel <= 12, "configuration {}", ci);
        assert_eq!(sentinel % 3, 0, "configuration {}", ci);
        for &e in &row[..sentinel] {
            assert!((0..=11).contains(&e), "configuration {}", ci);
        }
        // The mask vanishes exactly where the row is empty, which happens
        // exactly at the two homogeneous configurations.
        let mask_zero = tabs.edge_mask(ci as u8) == 0;
        assert_eq!(mask_zero, sentinel == 0, "configuration {}", ci);
        assert_eq!(mask_zero, ci == 0 || ci == 255, "configuration {}", ci);
    }
}

#[test]
fn from_parts_accepts_well_formed_data() {
    let t = Tables::from_parts(blank_edge(), blank_tri());
    assert!(t.is_ok());
}

#[test]
fn from_parts_rejects_wrong_lengths() {
    assert_eq!(
        Tables::from_parts(vec![0u32; 255], blank_tri()).unwrap_err(),
        MeshError::MalformedTable
    );
    assert_eq!(
        Tables::from_parts(blank_edge(), vec![-1i8; 4095]).unwrap_err(),
        MeshError::MalformedTable
    );
}

#[test]
fn from_parts_rejects_out_of_range_edge_index() {
    let mut edge = blank_edge();
    edge[5] = 0x001;
    let mut tri = blank_tri();
    tri[5 * 16] = 0;
    tri[5 * 16 + 1] = 12;
    tri[5 * 16 + 2] = 1;
    assert_eq!(Tables::from_parts(edge, tri).unwrap_err(), MeshError::MalformedTable);
}

#[test]
fn from_parts_rejects_incomplete_triple() {
    let mut edge = blank_edge();
    edge[9] = 0x001;
    let mut tri = blank_tri();
    tri[9 * 16] = 0;
    tri[9 * 16 + 1] = 1;
    // sentinel after two entries: the triple is incomplete
    assert_eq!(Tables::from_parts(edge, tri).unwrap_err(), MeshError::MalformedTable);
}

#[test]
fn from_parts_rejects_missing_sentinel() {
    let mut edge = blank_edge();
    edge[3] = 0x001;
    let mut tri = blank_tri();
    for k in 0..16 {
        tri[3 * 16 + k] = 1;
    }
    assert_eq!(Tables::from_parts(edge, tri).unwrap_err(), MeshError::MalformedTable);
}

#[test]
fn from_parts_rejects_geometry_for_homogeneous_configuration() {
    // edge mask 0 promises no geometry, so a non-empty row is inconsistent
    let edge = blank_edge();
    let mut tri = blank_tri();
    tri[7 * 16] = 0;
    tri[7 * 16 + 1] = 1;
    tri[7 * 16 + 2] = 2;
    assert_eq!(Tables::from_parts(edge, tri).unwrap_err(), MeshError::MalformedTable);
}
