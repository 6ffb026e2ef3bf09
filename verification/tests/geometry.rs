use std::collections::BTreeSet;

use taled_editor::grid::{
    flip_mask_h, flip_mask_v, flip_tiles_h, flip_tiles_v, rotate_mask_cw, rotate_tiles_cw,
};
use taled_editor::region::{
    TileSelectionRegion, selection_bounds, selection_cells_from_mask, selection_cells_from_region,
    selection_dimensions, selection_mask_from_cells, selection_region_from_cells,
};
use taled_editor::shape::{ShapeFillMode, fill_ellipse_cells, shape_fill_cells};

fn region(a: (i32, i32), b: (i32, i32)) -> TileSelectionRegion {
    TileSelectionRegion { start_cell: a, end_cell: b }
}

/// The ellipse test of the editor's float formula, cell by cell.
fn float_ellipse(min_x: u32, min_y: u32, max_x: u32, max_y: u32) -> BTreeSet<(u32, u32)> {
    let w = (max_x - min_x + 1) as f32;
    let h = (max_y - min_y + 1) as f32;
    let cx = min_x as f32 + w / 2.0;
    let cy = min_y as f32 + h / 2.0;
    let rx = w / 2.0;
    let ry = h / 2.0;
    let mut cells = BTreeSet::new();
    for ty in min_y..=max_y {
        for tx in min_x..=max_x {
            let nx = (tx as f32 + 0.5 - cx) / rx.max(f32::EPSILON);
            let ny = (ty as f32 + 0.5 - cy) / ry.max(f32::EPSILON);
            if nx * nx + ny * ny <= 1.0 {
                cells.insert((tx, ty));
            }
        }
    }
    cells
}

#[test]
fn bounds_normalize_corners() {
    assert_eq!(selection_bounds(&region((5, 1), (2, 7))), (2, 1, 5, 7));
    assert_eq!(selection_bounds(&region((-3, -4), (-3, -4))), (-3, -4, -3, -4));
    assert_eq!(selection_dimensions(&region((5, 1), (2, 7))), (4, 7));
}

#[test]
fn region_cells_and_bounding_box_round_trip() {
    let r = region((3, 2), (1, 4));
    let cells = selection_cells_from_region(r);
    assert_eq!(cells.len(), 9);
    assert!(cells.contains(&(1, 2)) && cells.contains(&(3, 4)) && !cells.contains(&(0, 2)));
    assert_eq!(selection_region_from_cells(&cells), Some(region((1, 2), (3, 4))));
    assert_eq!(selection_region_from_cells(&BTreeSet::new()), None);
    let scattered: BTreeSet<(i32, i32)> = [(4, -1), (-2, 6), (0, 0)].into_iter().collect();
    assert_eq!(selection_region_from_cells(&scattered), Some(region((-2, -1), (4, 6))));
}

#[test]
fn masks_round_trip_through_cells() {
    let r = region((10, 20), (12, 21));
    let cells: BTreeSet<(i32, i32)> = [(10, 20), (12, 20), (11, 21)].into_iter().collect();
    let mask = selection_mask_from_cells(&r, &cells);
    assert_eq!(mask, vec![true, false, true, false, true, false]);
    let back = selection_cells_from_mask(10, 20, 3, 2, &mask);
    assert_eq!(back, cells);
    // A mask shorter than the rectangle leaves the rest unselected.
    let short = selection_cells_from_mask(0, 0, 2, 2, &[true]);
    assert_eq!(short, [(0, 0)].into_iter().collect());
}

#[test]
fn flips_and_rotation_move_tiles() {
    let tiles = vec![1, 2, 3, 4, 5, 6];
    assert_eq!(flip_tiles_h(3, 2, &tiles), vec![3, 2, 1, 6, 5, 4]);
    assert_eq!(flip_tiles_v(3, 2, &tiles), vec![4, 5, 6, 1, 2, 3]);
    assert_eq!(rotate_tiles_cw(3, 2, &tiles), vec![4, 1, 5, 2, 6, 3]);
    let twice = rotate_tiles_cw(2, 3, &rotate_tiles_cw(3, 2, &tiles));
    assert_eq!(twice, flip_tiles_h(3, 2, &flip_tiles_v(3, 2, &tiles)));
    let mut turned = tiles.clone();
    let (mut w, mut h) = (3, 2);
    for _ in 0..4 {
        turned = rotate_tiles_cw(w, h, &turned);
        std::mem::swap(&mut w, &mut h);
    }
    assert_eq!(turned, tiles);
}

#[test]
fn mask_transforms_follow_tiles() {
    let mask = vec![true, false, false, true, true, false];
    assert_eq!(flip_mask_h(3, 2, &mask), vec![false, false, true, false, true, true]);
    assert_eq!(flip_mask_v(3, 2, &mask), vec![true, true, false, true, false, false]);
    assert_eq!(rotate_mask_cw(3, 2, &mask), vec![true, true, true, false, false, false]);
    // Missing entries read as unselected.
    assert_eq!(flip_mask_h(2, 1, &[true]), vec![false, true]);
}

#[test]
fn rectangle_fill_covers_the_box() {
    let cells = shape_fill_cells(ShapeFillMode::Rectangle, 4, 1, 2, 2);
    let expected: BTreeSet<(u32, u32)> =
        [(2, 1), (3, 1), (4, 1), (2, 2), (3, 2), (4, 2)].into_iter().collect();
    assert_eq!(cells, expected);
    assert_eq!(shape_fill_cells(ShapeFillMode::Rectangle, 7, 7, 7, 7).len(), 1);
}

#[test]
fn ellipse_fill_matches_the_float_formula() {
    for (a, b, c, d) in [(0, 0, 0, 0), (0, 0, 4, 4), (3, 2, 9, 5), (0, 0, 1, 6), (5, 5, 14, 11)] {
        let cells = shape_fill_cells(ShapeFillMode::Ellipse, a, b, c, d);
        assert_eq!(cells, float_ellipse(a, b, c, d), "ellipse {a},{b}..{c},{d}");
    }
    let five = shape_fill_cells(ShapeFillMode::Ellipse, 0, 0, 4, 4);
    assert_eq!(five.len(), 21);
    assert!(!five.contains(&(0, 0)) && five.contains(&(2, 2)) && five.contains(&(0, 2)));
}

#[test]
fn ellipse_cells_are_added_to_existing_ones() {
    let mut cells: BTreeSet<(u32, u32)> = [(100, 100)].into_iter().collect();
    fill_ellipse_cells(&mut cells, 0, 0, 2, 2);
    assert!(cells.contains(&(100, 100)));
    assert_eq!(cells.len(), 1 + float_ellipse(0, 0, 2, 2).len());
}
