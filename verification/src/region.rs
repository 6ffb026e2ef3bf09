//! Rectangular tile selections and the cell sets they describe.

use std::collections::BTreeSet;
use vstd::prelude::*;
use crate::grid::{grid, mask_at, mask_get, lemma_grid_cell, lemma_next_row};

verus! {

broadcast use {vstd::std_specs::btree::group_btree_axioms, vstd::laws_cmp::group_laws_cmp};

/// A selection rectangle given by the cell where the gesture started and
/// the cell where it ended (in either order).
#[derive(Clone, Copy, Debug, PartialEq, Eq)]
pub struct TileSelectionRegion {
    pub start_cell: (i32, i32),
    pub end_cell: (i32, i32),
}

pub open spec fn min_i32(a: i32, b: i32) -> i32 {
    if a <= b { a } else { b }
}

pub open spec fn max_i32(a: i32, b: i32) -> i32 {
    if a <= b { b } else { a }
}

impl TileSelectionRegion {
    /// `(min_x, min_y, max_x, max_y)` of the rectangle.
    pub open spec fn bounds(self) -> (i32, i32, i32, i32) {
        (
            min_i32(self.start_cell.0, self.end_cell.0),
            min_i32(self.start_cell.1, self.end_cell.1),
            max_i32(self.start_cell.0, self.end_cell.0),
            max_i32(self.start_cell.1, self.end_cell.1),
        )
    }

    /// Every cell inside the rectangle, borders included.
    pub open spec fn cell_set(self) -> Set<(i32, i32)> {
        let (min_x, min_y, max_x, max_y) = self.bounds();
        Set::new(|p: (i32, i32)| min_x <= p.0 <= max_x && min_y <= p.1 <= max_y)
    }

    /// Width of the rectangle in cells.
    pub open spec fn width(self) -> int {
        self.bounds().2 - self.bounds().0 + 1
    }

    /// Height of the rectangle in cells.
    pub open spec fn height(self) -> int {
        self.bounds().3 - self.bounds().1 + 1
    }
}

/// Whether `r` is the smallest rectangle, with `start_cell` as its top-left
/// and `end_cell` as its bottom-right corner, that holds every cell of `s`.
pub open spec fn is_bounding_region(s: Set<(i32, i32)>, r: TileSelectionRegion) -> bool {
    &&& forall|c: (i32, i32)|
        s.contains(c) ==> r.start_cell.0 <= c.0 <= r.end_cell.0 && r.start_cell.1 <= c.1
            <= r.end_cell.1
    &&& exists|c: (i32, i32)| s.contains(c) && c.0 == r.start_cell.0
    &&& exists|c: (i32, i32)| s.contains(c) && c.1 == r.start_cell.1
    &&& exists|c: (i32, i32)| s.contains(c) && c.0 == r.end_cell.0
    &&& exists|c: (i32, i32)| s.contains(c) && c.1 == r.end_cell.1
}

/// The bounding rectangle of a set of cells; `None` for the empty set.
pub open spec fn bounding_region(s: Set<(i32, i32)>) -> Option<TileSelectionRegion> {
    if s.is_empty() {
        None
    } else {
        Some(choose|r: TileSelectionRegion| is_bounding_region(s, r))
    }
}

/// A set has at most one bounding rectangle.
pub proof fn lemma_bounding_region_unique(s: Set<(i32, i32)>, r1: TileSelectionRegion, r2: TileSelectionRegion)
    requires
        is_bounding_region(s, r1),
        is_bounding_region(s, r2),
    ensures
        r1 == r2,
{
    let a = choose|c: (i32, i32)| s.contains(c) && c.0 == r1.start_cell.0;
    let b = choose|c: (i32, i32)| s.contains(c) && c.0 == r2.start_cell.0;
    let c1 = choose|c: (i32, i32)| s.contains(c) && c.1 == r1.start_cell.1;
    let c2 = choose|c: (i32, i32)| s.contains(c) && c.1 == r2.start_cell.1;
    let d1 = choose|c: (i32, i32)| s.contains(c) && c.0 == r1.end_cell.0;
    let d2 = choose|c: (i32, i32)| s.contains(c) && c.0 == r2.end_cell.0;
    let e1 = choose|c: (i32, i32)| s.contains(c) && c.1 == r1.end_cell.1;
    let e2 = choose|c: (i32, i32)| s.contains(c) && c.1 == r2.end_cell.1;
    assert(r1.start_cell == r2.start_cell);
    assert(r1.end_cell == r2.end_cell);
}

/// The normalized corners of a selection rectangle.
pub fn selection_bounds(region: &TileSelectionRegion) -> (b: (i32, i32, i32, i32))
    ensures
        b == region.bounds(),
{
    let min_x = if region.start_cell.0 <= region.end_cell.0 {
        region.start_cell.0
    } else {
        region.end_cell.0
    };
    let min_y = if region.start_cell.1 <= region.end_cell.1 {
        region.start_cell.1
    } else {
        region.end_cell.1
    };
    let max_x = if region.start_cell.0 <= region.end_cell.0 {
        region.end_cell.0
    } else {
        region.start_cell.0
    };
    let max_y = if region.start_cell.1 <= region.end_cell.1 {
        region.end_cell.1
    } else {
        region.start_cell.1
    };
    (min_x, min_y, max_x, max_y)
}

/// All cells covered by a selection rectangle.
pub fn selection_cells_from_region(region: TileSelectionRegion) -> (cells: BTreeSet<(i32, i32)>)
    ensures
        cells@ == region.cell_set(),
{
    let (min_x, min_y, max_x, max_y) = selection_bounds(&region);
    let mut cells: BTreeSet<(i32, i32)> = BTreeSet::new();
    let mut y: i64 = min_y as i64;
    while y <= max_y as i64
        invariant
            min_y <= y <= max_y + 1,
            min_x <= max_x,
            (min_x, min_y, max_x, max_y) == region.bounds(),
            cells@ == Set::new(
                |p: (i32, i32)| min_x <= p.0 <= max_x && min_y <= p.1 && p.1 < y,
            ),
        decreases max_y + 1 - y,
    {
        let mut x: i64 = min_x as i64;
        while x <= max_x as i64
            invariant
                min_x <= x <= max_x + 1,
                min_y <= y <= max_y,
                cells@ == Set::new(
                    |p: (i32, i32)|
                        (min_x <= p.0 <= max_x && min_y <= p.1 && p.1 < y) || (p.1 == y
                            && min_x <= p.0 && p.0 < x),
                ),
            decreases max_x + 1 - x,
        {
            cells.insert((x as i32, y as i32));
            x = x + 1;
        }
        y = y + 1;
    }
    cells
}

/// The smallest rectangle holding every cell of a set, or `None` for an
/// empty set.
pub fn selection_region_from_cells(cells: &BTreeSet<(i32, i32)>) -> (r: Option<
    TileSelectionRegion,
>)
    ensures
        match r {
            None => cells@.is_empty(),
            Some(reg) => !cells@.is_empty() && is_bounding_region(cells@, reg),
        },
        r == bounding_region(cells@),
{
    if cells.is_empty() {
        return None;
    }
    let mut found = false;
    let mut min_x: i32 = 0;
    let mut min_y: i32 = 0;
    let mut max_x: i32 = 0;
    let mut max_y: i32 = 0;
    for c in it: cells.iter()
        invariant
            it.seq().unref().to_set() == cells@,
            found == (it.index() > 0),
            found ==> forall|j: int|
                0 <= j < it.index() ==> min_x <= (#[trigger] it.seq()[j]).0 <= max_x && min_y
                    <= it.seq()[j].1 <= max_y,
            found ==> exists|p: (i32, i32)| cells@.contains(p) && p.0 == min_x,
            found ==> exists|p: (i32, i32)| cells@.contains(p) && p.1 == min_y,
            found ==> exists|p: (i32, i32)| cells@.contains(p) && p.0 == max_x,
            found ==> exists|p: (i32, i32)| cells@.contains(p) && p.1 == max_y,
    {
        proof {
            assert(it.seq().unref()[it.index()] == *c);
            assert(cells@.contains(*c));
        }
        let (x, y) = *c;
        if !found {
            min_x = x;
            min_y = y;
            max_x = x;
            max_y = y;
            found = true;
        } else {
            if x < min_x {
                min_x = x;
            }
            if y < min_y {
                min_y = y;
            }
            if x > max_x {
                max_x = x;
            }
            if y > max_y {
                max_y = y;
            }
        }
    }
    let reg = TileSelectionRegion { start_cell: (min_x, min_y), end_cell: (max_x, max_y) };
    proof {
        let other = choose|r: TileSelectionRegion| is_bounding_region(cells@, r);
        assert(is_bounding_region(cells@, reg));
        lemma_bounding_region_unique(cells@, reg, other);
    }
    Some(reg)
}

/// The cells a mask marks inside the `w`×`h` rectangle at `(ox, oy)`.
pub open spec fn mask_cell_set(ox: int, oy: int, w: int, h: int, mask: Seq<bool>) -> Set<(i32, i32)> {
    Set::new(
        |p: (i32, i32)|
            ox <= p.0 < ox + w && oy <= p.1 < oy + h && mask_at(mask, (p.1 - oy) * w + (p.0 - ox)),
    )
}

/// The row-major mask of a selection rectangle: an entry for each of its
/// cells, set where the cell belongs to `cells`.
pub open spec fn region_mask(region: TileSelectionRegion, cells: Set<(i32, i32)>) -> Seq<bool> {
    let (min_x, min_y, _, _) = region.bounds();
    grid(
        region.width(),
        region.height(),
        |x: int, y: int| cells.contains(((min_x + x) as i32, (min_y + y) as i32)),
    )
}

/// Width and height of a selection rectangle in cells.
pub fn selection_dimensions(region: &TileSelectionRegion) -> (d: (u32, u32))
    requires
        region.width() <= i32::MAX,
        region.height() <= i32::MAX,
    ensures
        d.0 == region.width(),
        d.1 == region.height(),
{
    let (min_x, min_y, max_x, max_y) = selection_bounds(region);
    ((max_x - min_x + 1) as u32, (max_y - min_y + 1) as u32)
}

/// The mask of `cells` over the rectangle of `region`.
pub fn selection_mask_from_cells(region: &TileSelectionRegion, cells: &BTreeSet<(i32, i32)>) -> (mask:
    Vec<bool>)
    requires
        region.width() <= i32::MAX,
        region.height() <= i32::MAX,
        region.width() * region.height() <= usize::MAX,
    ensures
        mask@ == region_mask(*region, cells@),
{
    let (min_x, min_y, max_x, max_y) = selection_bounds(region);
    let width = (max_x - min_x + 1) as usize;
    let height = (max_y - min_y + 1) as usize;
    let mut mask: Vec<bool> = Vec::new();
    let mut ly: usize = 0;
    while ly < height
        invariant
            ly <= height,
            width == region.width(),
            height == region.height(),
            (min_x, min_y, max_x, max_y) == region.bounds(),
            width == max_x - min_x + 1,
            height == max_y - min_y + 1,
            region.width() <= i32::MAX,
            region.height() <= i32::MAX,
            mask@.len() == ly * width,
            forall|k: int|
                0 <= k < mask@.len() ==> #[trigger] mask@[k] == cells@.contains(
                    ((min_x + k % (width as int)) as i32, (min_y + k / (width as int)) as i32),
                ),
        decreases height - ly,
    {
        let mut lx: usize = 0;
        while lx < width
            invariant
                lx <= width,
                ly < height,
                width == region.width(),
                height == region.height(),
                (min_x, min_y, max_x, max_y) == region.bounds(),
                width == max_x - min_x + 1,
                height == max_y - min_y + 1,
                region.width() <= i32::MAX,
                region.height() <= i32::MAX,
                mask@.len() == ly * width + lx,
                forall|k: int|
                    0 <= k < mask@.len() ==> #[trigger] mask@[k] == cells@.contains(
                        ((min_x + k % (width as int)) as i32, (min_y + k / (width as int)) as i32),
                    ),
            decreases width - lx,
        {
            proof {
                lemma_grid_cell(width as int, height as int, lx as int, ly as int);
            }
            let present = cells.contains(&(min_x + lx as i32, min_y + ly as i32));
            mask.push(present);
            lx = lx + 1;
        }
        proof {
            lemma_next_row(width as int, ly as int);
        }
        ly = ly + 1;
    }
    proof {
        assert(height * width == width * height) by (nonlinear_arith);
    }
    assert(mask@ =~= region_mask(*region, cells@));
    mask
}

/// The cells that a mask marks, placed with its top-left corner at
/// `(origin_x, origin_y)`.
pub fn selection_cells_from_mask(
    origin_x: i32,
    origin_y: i32,
    width: u32,
    height: u32,
    mask: &[bool],
) -> (cells: BTreeSet<(i32, i32)>)
    requires
        width * height <= u32::MAX + 1,
        width <= i32::MAX + 1,
        height <= i32::MAX + 1,
        origin_x + width <= i32::MAX + 1,
        origin_y + height <= i32::MAX + 1,
    ensures
        cells@ == mask_cell_set(origin_x as int, origin_y as int, width as int, height as int, mask@),
{
    let mut cells: BTreeSet<(i32, i32)> = BTreeSet::new();
    let mut ly: u32 = 0;
    while ly < height
        invariant
            ly <= height,
            width * height <= u32::MAX + 1,
            width <= i32::MAX + 1,
            height <= i32::MAX + 1,
            origin_x + width <= i32::MAX + 1,
            origin_y + height <= i32::MAX + 1,
            cells@ == Set::new(
                |p: (i32, i32)|
                    origin_x <= p.0 < origin_x + width && origin_y <= p.1 < origin_y + ly
                        && mask_at(mask@, (p.1 - origin_y) * width + (p.0 - origin_x)),
            ),
        decreases height - ly,
    {
        let mut lx: u32 = 0;
        while lx < width
            invariant
                lx <= width,
                ly < height,
                width * height <= u32::MAX + 1,
                width <= i32::MAX + 1,
                height <= i32::MAX + 1,
                origin_x + width <= i32::MAX + 1,
                origin_y + height <= i32::MAX + 1,
                cells@ == Set::new(
                    |p: (i32, i32)|
                        ((origin_x <= p.0 < origin_x + width && origin_y <= p.1 < origin_y + ly)
                            || (p.1 == origin_y + ly && origin_x <= p.0 < origin_x + lx))
                            && mask_at(mask@, (p.1 - origin_y) * width + (p.0 - origin_x)),
                ),
            decreases width - lx,
        {
            proof {
                lemma_grid_cell(width as int, height as int, lx as int, ly as int);
            }
            let idx = (ly * width + lx) as usize;
            if mask_get(mask, idx) {
                cells.insert((origin_x + lx as i32, origin_y + ly as i32));
            }
            lx = lx + 1;
        }
        ly = ly + 1;
    }
    cells
}

/// Reading a selection through its mask and back keeps exactly the cells
/// that lie inside the rectangle.
pub proof fn lemma_mask_roundtrip(region: TileSelectionRegion, cells: Set<(i32, i32)>)
    ensures
        mask_cell_set(
            region.bounds().0 as int,
            region.bounds().1 as int,
            region.width(),
            region.height(),
            region_mask(region, cells),
        ) == cells.intersect(region.cell_set()),
{
    let (min_x, min_y, max_x, max_y) = region.bounds();
    let w = region.width();
    let h = region.height();
    let m = region_mask(region, cells);
    let lhs = mask_cell_set(min_x as int, min_y as int, w, h, m);
    assert forall|p: (i32, i32)| lhs.contains(p) <==> cells.intersect(region.cell_set()).contains(
        p,
    ) by {
        if min_x <= p.0 <= max_x && min_y <= p.1 <= max_y {
            lemma_grid_cell(w, h, p.0 - min_x, p.1 - min_y);
        }
    }
    assert(lhs =~= cells.intersect(region.cell_set()));
}

} // verus!
