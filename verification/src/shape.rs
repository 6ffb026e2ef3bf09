//! Cells covered by the rectangle and ellipse shape-fill tools.

use std::collections::BTreeSet;
use vstd::prelude::*;

verus! {

broadcast use {vstd::std_specs::btree::group_btree_axioms, vstd::laws_cmp::group_laws_cmp};

/// Which shape the shape-fill tool draws.
#[derive(Clone, Copy, Debug, PartialEq, Eq, Structural)]
pub enum ShapeFillMode {
    Rectangle,
    Ellipse,
}

/// Cells of the rectangle `[min_x, max_x] × [min_y, max_y]`.
pub open spec fn rect_cell_set(min_x: u32, min_y: u32, max_x: u32, max_y: u32) -> Set<(u32, u32)> {
    Set::new(|p: (u32, u32)| min_x <= p.0 <= max_x && min_y <= p.1 <= max_y)
}

/// Whether the center of cell `(tx, ty)` lies inside or on the ellipse
/// inscribed in the rectangle `[min_x, max_x] × [min_y, max_y]`.
///
/// With `w`, `h` the rectangle's size, the cell center's offset from the
/// ellipse center, scaled by the radii, is `a / w` and `b / h` with
/// `a = 2 (tx - min_x) + 1 - w` and `b = 2 (ty - min_y) + 1 - h`; the
/// center is inside when `(a / w)² + (b / h)² ≤ 1`.
///
/// The test is exact. Where a cell center lies on or within a rounding
/// error of the ellipse's edge, a test done in single-precision floating
/// point can decide the other way, so on large shapes a few boundary
/// cells differ from such a test (of the ellipse filling columns 0 to 58
/// and rows 0 to 59, cell (0, 24) lies just outside the exact ellipse).
pub open spec fn in_ellipse(min_x: int, min_y: int, max_x: int, max_y: int, tx: int, ty: int) -> bool {
    let w = max_x - min_x + 1;
    let h = max_y - min_y + 1;
    let a = 2 * (tx - min_x) + 1 - w;
    let b = 2 * (ty - min_y) + 1 - h;
    a * a * (h * h) + b * b * (w * w) <= w * w * (h * h)
}

/// Cells of the rectangle whose centers lie in its inscribed ellipse.
pub open spec fn ellipse_cell_set(min_x: u32, min_y: u32, max_x: u32, max_y: u32) -> Set<(u32, u32)> {
    Set::new(
        |p: (u32, u32)|
            min_x <= p.0 <= max_x && min_y <= p.1 <= max_y && in_ellipse(
                min_x as int,
                min_y as int,
                max_x as int,
                max_y as int,
                p.0 as int,
                p.1 as int,
            ),
    )
}

pub open spec fn min_u32(a: u32, b: u32) -> u32 {
    if a <= b { a } else { b }
}

pub open spec fn max_u32(a: u32, b: u32) -> u32 {
    if a <= b { b } else { a }
}

/// The cells a shape-fill gesture from `(start_x, start_y)` to
/// `(end_x, end_y)` paints.
pub open spec fn shape_cell_set(mode: ShapeFillMode, start_x: u32, start_y: u32, end_x: u32, end_y: u32) -> Set<
    (u32, u32),
> {
    let min_x = min_u32(start_x, end_x);
    let max_x = max_u32(start_x, end_x);
    let min_y = min_u32(start_y, end_y);
    let max_y = max_u32(start_y, end_y);
    match mode {
        ShapeFillMode::Rectangle => rect_cell_set(min_x, min_y, max_x, max_y),
        ShapeFillMode::Ellipse => ellipse_cell_set(min_x, min_y, max_x, max_y),
    }
}

/// The inequality of [`in_ellipse`], evaluated without overflow.
fn ellipse_contains(w: u32, h: u32, dx: u32, dy: u32) -> (inside: bool)
    requires
        0 < w,
        0 < h,
        dx < w,
        dy < h,
    ensures
        inside == ({
            let a = 2 * dx + 1 - w;
            let b = 2 * dy + 1 - h;
            a * a * (h * h) + b * b * (w * w) <= w * w * (h * h)
        }),
{
    let w2 = w as u128;
    let h2 = h as u128;
    let two_dx = 2 * (dx as u128) + 1;
    let two_dy = 2 * (dy as u128) + 1;
    let a: u128 = if two_dx >= w2 { two_dx - w2 } else { w2 - two_dx };
    let b: u128 = if two_dy >= h2 { two_dy - h2 } else { h2 - two_dy };
    proof {
        assert(a < w2 && b < h2);
        assert(a * a <= w2 * w2 && b * b <= h2 * h2) by (nonlinear_arith)
            requires
                a < w2,
                b < h2,
        ;
        assert(w2 * w2 < 0x1_0000_0000_0000_0000 && h2 * h2 <= 0x1_0000_0000_0000_0000)
            by (nonlinear_arith)
            requires
                w2 < 0x1_0000_0000,
                h2 < 0x1_0000_0000,
        ;
        assert(a * a * (h2 * h2) < 0x1_0000_0000_0000_0000_0000_0000_0000_0000) by (nonlinear_arith)
            requires
                a * a <= w2 * w2,
                w2 * w2 < 0x1_0000_0000_0000_0000,
                h2 * h2 <= 0x1_0000_0000_0000_0000,
        ;
        assert(w2 * w2 * (h2 * h2 - b * b) < 0x1_0000_0000_0000_0000_0000_0000_0000_0000)
            by (nonlinear_arith)
            requires
                b * b <= h2 * h2,
                w2 * w2 < 0x1_0000_0000_0000_0000,
                h2 * h2 <= 0x1_0000_0000_0000_0000,
        ;
    }
    let lhs = a * a * (h2 * h2);
    let rhs = (w2 * w2) * (h2 * h2 - b * b);
    proof {
        let ai = 2 * dx + 1 - w;
        let bi = 2 * dy + 1 - h;
        assert(a * a == ai * ai) by (nonlinear_arith)
            requires
                a == ai || a == -ai,
        ;
        assert(b * b == bi * bi) by (nonlinear_arith)
            requires
                b == bi || b == -bi,
        ;
        assert((lhs <= rhs) == (ai * ai * (h * h) + bi * bi * (w * w) <= w * w * (h * h)))
            by (nonlinear_arith)
            requires
                lhs == a * a * (h2 * h2),
                rhs == (w2 * w2) * (h2 * h2 - b * b),
                a * a == ai * ai,
                b * b == bi * bi,
                w2 == w,
                h2 == h,
        ;
    }
    lhs <= rhs
}

/// Adds to `cells` the cells of the rectangle whose centers lie in its
/// inscribed ellipse.
pub fn fill_ellipse_cells(
    cells: &mut BTreeSet<(u32, u32)>,
    min_x: u32,
    min_y: u32,
    max_x: u32,
    max_y: u32,
)
    requires
        min_x <= max_x,
        min_y <= max_y,
        max_x - min_x + 1 <= u32::MAX,
        max_y - min_y + 1 <= u32::MAX,
    ensures
        final(cells)@ == old(cells)@.union(ellipse_cell_set(min_x, min_y, max_x, max_y)),
{
    let w = max_x - min_x + 1;
    let h = max_y - min_y + 1;
    let ghost start = cells@;
    let mut ty: u64 = min_y as u64;
    while ty <= max_y as u64
        invariant
            min_y <= ty <= max_y + 1,
            min_x <= max_x,
            w == max_x - min_x + 1,
            h == max_y - min_y + 1,
            cells@ == start.union(
                Set::new(
                    |p: (u32, u32)|
                        min_x <= p.0 <= max_x && min_y <= p.1 && p.1 < ty && in_ellipse(
                            min_x as int,
                            min_y as int,
                            max_x as int,
                            max_y as int,
                            p.0 as int,
                            p.1 as int,
                        ),
                ),
            ),
        decreases max_y + 1 - ty,
    {
        let mut tx: u64 = min_x as u64;
        while tx <= max_x as u64
            invariant
                min_x <= tx <= max_x + 1,
                min_y <= ty <= max_y,
                w == max_x - min_x + 1,
                h == max_y - min_y + 1,
                cells@ == start.union(
                    Set::new(
                        |p: (u32, u32)|
                            ((min_x <= p.0 <= max_x && min_y <= p.1 && p.1 < ty) || (p.1 == ty
                                && min_x <= p.0 && p.0 < tx)) && in_ellipse(
                                min_x as int,
                                min_y as int,
                                max_x as int,
                                max_y as int,
                                p.0 as int,
                                p.1 as int,
                            ),
                    ),
                ),
            decreases max_x + 1 - tx,
        {
            let inside = ellipse_contains(w, h, (tx - min_x as u64) as u32, (ty - min_y as u64) as u32);
            if inside {
                cells.insert((tx as u32, ty as u32));
            }
            tx = tx + 1;
        }
        ty = ty + 1;
    }
}

/// The cells a shape-fill gesture paints, for either shape.
pub fn shape_fill_cells(mode: ShapeFillMode, start_x: u32, start_y: u32, end_x: u32, end_y: u32) -> (cells:
    BTreeSet<(u32, u32)>)
    requires
        mode == ShapeFillMode::Ellipse ==> max_u32(start_x, end_x) - min_u32(start_x, end_x) + 1
            <= u32::MAX && max_u32(start_y, end_y) - min_u32(start_y, end_y) + 1 <= u32::MAX,
    ensures
        cells@ == shape_cell_set(mode, start_x, start_y, end_x, end_y),
{
    let min_x = if start_x <= end_x { start_x } else { end_x };
    let max_x = if start_x <= end_x { end_x } else { start_x };
    let min_y = if start_y <= end_y { start_y } else { end_y };
    let max_y = if start_y <= end_y { end_y } else { start_y };
    let mut cells: BTreeSet<(u32, u32)> = BTreeSet::new();
    match mode {
        ShapeFillMode::Rectangle => {
            let mut y: u64 = min_y as u64;
            while y <= max_y as u64
                invariant
                    min_y <= y <= max_y + 1,
                    min_x <= max_x,
                    cells@ == Set::new(
                        |p: (u32, u32)| min_x <= p.0 <= max_x && min_y <= p.1 && p.1 < y,
                    ),
                decreases max_y + 1 - y,
            {
                let mut x: u64 = min_x as u64;
                while x <= max_x as u64
                    invariant
                        min_x <= x <= max_x + 1,
                        min_y <= y <= max_y,
                        cells@ == Set::new(
                            |p: (u32, u32)|
                                (min_x <= p.0 <= max_x && min_y <= p.1 && p.1 < y) || (p.1 == y
                                    && min_x <= p.0 && p.0 < x),
                        ),
                    decreases max_x + 1 - x,
                {
                    cells.insert((x as u32, y as u32));
                    x = x + 1;
                }
                y = y + 1;
            }
            assert(cells@ =~= rect_cell_set(min_x, min_y, max_x, max_y));
        },
        ShapeFillMode::Ellipse => {
            fill_ellipse_cells(&mut cells, min_x, min_y, max_x, max_y);
            assert(cells@ =~= ellipse_cell_set(min_x, min_y, max_x, max_y));
        },
    }
    cells
}

} // verus!
