use wave_sim::cube::{classify, corner_flagged, corner_offset_of, edge_corners_of, edge_mask};
use wave_sim::cube::{triangle_entry, triangles_in};
use wave_sim::extract::{surface_crossings, ExtractError};
use wave_sim::weld::weld;
use wave_sim::GridShape;

#[test]
fn classification_sets_one_bit_per_corner_below() {
    assert_eq!(classify(&[false; 8]), 0);
    assert_eq!(classify(&[true; 8]), 255);
    assert_eq!(classify(&[true, false, false, false, false, false, false, false]), 1);
    assert_eq!(classify(&[true, false, false, false, false, false, false, true]), 129);
    assert_eq!(classify(&[false, true, false, true, false, false, true, false]), 74);
    for i in 0..8 {
        assert!(corner_flagged(74, i) == (i == 1 || i == 3 || i == 6));
    }
}

#[test]
fn corner_and_edge_layout() {
    assert_eq!(corner_offset_of(0), (0, 0, 0));
    assert_eq!(corner_offset_of(2), (1, 0, 1));
    assert_eq!(corner_offset_of(7), (0, 1, 1));
    assert_eq!(edge_corners_of(3), (3, 0));
    assert_eq!(edge_corners_of(7), (7, 4));
    assert_eq!(edge_corners_of(11), (3, 7));
}

#[test]
fn edge_mask_matches_canonical_values() {
    assert_eq!(edge_mask(0), 0);
    assert_eq!(edge_mask(255), 0);
    assert_eq!(edge_mask(1), 0x109);
    assert_eq!(edge_mask(2), 0x203);
    assert_eq!(edge_mask(15), 0xf00);
    assert_eq!(edge_mask(51), 0x0aa);
    assert_eq!(edge_mask(128), 0x8c0);
    assert_eq!(edge_mask(254), 0x109);
}

#[test]
fn triangulation_rows() {
    assert_eq!(triangles_in(0), 0);
    assert_eq!(triangles_in(255), 0);
    assert_eq!(triangles_in(1), 1);
    assert_eq!(triangles_in(3), 2);
    assert_eq!(triangles_in(126), 4);
    let row1: Vec<u8> = (0..4).map(|k| triangle_entry(1, k)).collect();
    assert_eq!(row1, vec![0, 8, 3, 15]);
    let row3: Vec<u8> = (0..6).map(|k| triangle_entry(3, k)).collect();
    assert_eq!(row3, vec![1, 8, 3, 9, 8, 1]);
    let row254: Vec<u8> = (0..3).map(|k| triangle_entry(254, k)).collect();
    assert_eq!(row254, vec![0, 3, 8]);
}

#[test]
fn every_used_edge_is_crossed() {
    for c in 0..=255u8 {
        let mask = edge_mask(c);
        let t = triangles_in(c);
        for k in 0..3 * t {
            let e = triangle_entry(c, k);
            assert!(e < 12);
            assert!(mask & (1 << e) != 0, "case {} edge {}", c, e);
        }
        if mask != 0 {
            assert!(t > 0);
        }
    }
}

#[test]
fn wrong_field_length_is_invalid_input() {
    let s = GridShape::new(2, 2, 2).unwrap();
    assert_eq!(surface_crossings(&s, &vec![false; 7]), Err(ExtractError::InvalidInput));
    assert_eq!(surface_crossings(&s, &vec![false; 9]), Err(ExtractError::InvalidInput));
}

#[test]
fn grid_without_cells_gives_empty_surface() {
    let s = GridShape::new(1, 4, 4).unwrap();
    let mut below = vec![false; 16];
    below[3] = true;
    assert_eq!(surface_crossings(&s, &below), Ok(vec![]));
}

#[test]
fn single_corner_below_gives_one_triangle() {
    let s = GridShape::new(2, 2, 2).unwrap();
    let mut below = vec![false; 8];
    below[0] = true;
    assert_eq!(surface_crossings(&s, &below), Ok(vec![(0, 4), (0, 2), (0, 1)]));
}

fn field_flags(values: &[f32], iso: f32) -> Vec<bool> {
    values.iter().map(|&v| v < iso).collect()
}

#[test]
fn threshold_outside_the_value_range_gives_empty_surface() {
    let s = GridShape::new(4, 3, 5).unwrap();
    let values: Vec<f32> = (0..s.len()).map(|i| ((i * 7919) % 13) as f32 - 6.0).collect();
    assert_eq!(surface_crossings(&s, &field_flags(&values, -6.5)), Ok(vec![]));
    assert_eq!(surface_crossings(&s, &field_flags(&values, 6.5)), Ok(vec![]));
    assert!(!surface_crossings(&s, &field_flags(&values, 0.5)).unwrap().is_empty());
}

#[test]
fn weld_keeps_first_occurrences() {
    let a = (1u32, 2u32, 3u32);
    let b = (1u32, 2u32, 4u32);
    let c = (0u32, 0u32, 0u32);
    let (firsts, indices) = weld(&vec![a, b, a, c, b, c]);
    assert_eq!(firsts, vec![0, 1, 3]);
    assert_eq!(indices, vec![0, 1, 0, 2, 1, 2]);
    let (firsts, indices) = weld(&vec![]);
    assert!(firsts.is_empty() && indices.is_empty());
}

/// Crossing position keys of a field, as a mesher computes them.
fn crossing_keys(s: &GridShape, values: &[f32], iso: f32) -> Vec<(u32, u32, u32)> {
    let crossings = surface_crossings(s, &field_flags(values, iso)).unwrap();
    crossings
        .iter()
        .map(|&(a, b)| {
            let (pa, pb) = (s.coords(a), s.coords(b));
            let mu = (iso - values[a]) / (values[b] - values[a]);
            let lerp = |u: usize, v: usize| u as f32 + mu * (v as f32 - u as f32);
            (lerp(pa.0, pb.0).to_bits(), lerp(pa.1, pb.1).to_bits(), lerp(pa.2, pb.2).to_bits())
        })
        .collect()
}

fn ramp_keys(s: &GridShape, iso: f32) -> Vec<(u32, u32, u32)> {
    let values: Vec<f32> = (0..s.len()).map(|i| s.coords(i).2 as f32).collect();
    crossing_keys(s, &values, iso)
}

#[test]
fn planar_level_set_in_one_cell_is_one_welded_quad() {
    let s = GridShape::new(2, 2, 2).unwrap();
    let keys = ramp_keys(&s, 0.5);
    assert_eq!(keys.len(), 6);
    let (firsts, indices) = weld(&keys);
    assert_eq!(firsts.len(), 4);
    assert_eq!(indices.len(), 6);
}

#[test]
fn planar_level_set_welds_across_cells() {
    let s = GridShape::new(4, 4, 4).unwrap();
    let keys = ramp_keys(&s, 0.5);
    assert_eq!(keys.len(), 9 * 6);
    let (firsts, indices) = weld(&keys);
    assert_eq!(firsts.len(), 16);
    assert_eq!(indices.len(), 54);
    for &(_, _, z) in &keys {
        assert_eq!(f32::from_bits(z), 0.5);
    }
}

#[test]
fn curved_level_set_welds_every_shared_edge() {
    let s = GridShape::new(9, 8, 7).unwrap();
    let values: Vec<f32> = (0..s.len())
        .map(|i| {
            let (x, y, z) = s.coords(i);
            let d = [x as f32 - 4.13, y as f32 - 3.71, z as f32 - 3.29];
            (d[0] * d[0] + 1.3 * d[1] * d[1] + 0.7 * d[2] * d[2]).sqrt()
        })
        .collect();
    let iso = 2.77;
    let crossings = surface_crossings(&s, &field_flags(&values, iso)).unwrap();
    assert!(crossings.iter().all(|&(a, b)| a < b && b < s.len()));
    let mut edges = crossings.clone();
    edges.sort();
    edges.dedup();
    let keys = crossing_keys(&s, &values, iso);
    let (firsts, indices) = weld(&keys);
    assert_eq!(firsts.len(), edges.len());
    assert!(firsts.len() * 2 < keys.len());
    for (j, &(a, b)) in crossings.iter().enumerate() {
        assert_eq!(crossings[firsts[indices[j] as usize]], (a, b));
    }
}
