//! Row-major tile grids and the flips and rotation applied to a floating
//! selection.

use vstd::prelude::*;
use vstd::arithmetic::div_mod::{lemma_fundamental_div_mod, lemma_fundamental_div_mod_converse};

verus! {

/// The row-major grid of width `w` and height `h` whose cell `(x, y)` is
/// `f(x, y)`.
pub open spec fn grid<T>(w: int, h: int, f: spec_fn(int, int) -> T) -> Seq<T> {
    Seq::new((w * h) as nat, |i: int| f(i % w, i / w))
}

/// A mask entry; entries past the end of the mask read as unselected.
pub open spec fn mask_at(mask: Seq<bool>, i: int) -> bool {
    0 <= i < mask.len() && mask[i]
}

/// The first `n` entries of a mask, padded with `false`.
pub open spec fn padded_mask(mask: Seq<bool>, n: int) -> Seq<bool> {
    Seq::new(n as nat, |i: int| mask_at(mask, i))
}

/// Mirror left-to-right.
pub open spec fn flip_h_seq<T>(w: int, h: int, t: Seq<T>) -> Seq<T> {
    grid(w, h, |x: int, y: int| t[y * w + (w - 1 - x)])
}

/// Mirror top-to-bottom.
pub open spec fn flip_v_seq<T>(w: int, h: int, t: Seq<T>) -> Seq<T> {
    grid(w, h, |x: int, y: int| t[(h - 1 - y) * w + x])
}

/// Quarter turn clockwise: a `w`×`h` grid becomes an `h`×`w` grid.
pub open spec fn rotate_cw_seq<T>(w: int, h: int, t: Seq<T>) -> Seq<T> {
    grid(h, w, |x: int, y: int| t[(h - 1 - x) * w + y])
}

/// Index arithmetic of a cell inside a `w`×`h` grid.
pub proof fn lemma_grid_cell(w: int, h: int, x: int, y: int)
    requires
        0 <= x < w,
        0 <= y < h,
    ensures
        0 <= y * w + x < w * h,
        (y * w + x) % w == x,
        (y * w + x) / w == y,
{
    lemma_fundamental_div_mod_converse(y * w + x, w, y, x);
    assert(0 <= y * w) by (nonlinear_arith)
        requires
            0 <= y,
            0 <= w,
    ;
    assert(y * w + x < w * h) by (nonlinear_arith)
        requires
            0 <= x < w,
            0 <= y < h,
    ;
}

/// Every index of a `w`×`h` grid is the index of one of its cells.
pub proof fn lemma_grid_decompose(w: int, h: int, i: int)
    requires
        0 <= i < w * h,
        0 <= w,
    ensures
        0 < w,
        0 <= i % w < w,
        0 <= i / w < h,
        i == (i / w) * w + i % w,
{
    assert(w != 0) by (nonlinear_arith)
        requires
            0 <= i < w * h,
    ;
    lemma_fundamental_div_mod(i, w);
    assert(0 <= i % w < w) by {
        vstd::arithmetic::div_mod::lemma_mod_bound(i, w);
    }
    assert(0 <= i / w < h) by (nonlinear_arith)
        requires
            i == w * (i / w) + i % w,
            0 <= i % w < w,
            0 <= i < w * h,
            0 < w,
    ;
    assert(i == (i / w) * w + i % w) by (nonlinear_arith)
        requires
            i == w * (i / w) + i % w,
    ;
}

/// The next row starts `w` entries after the current one.
pub proof fn lemma_next_row(w: int, y: int)
    ensures
        (y + 1) * w == y * w + w,
{
    assert((y + 1) * w == y * w + w) by (nonlinear_arith);
}

/// Mirrors a tile grid left-to-right.
pub fn flip_tiles_h(w: u32, h: u32, tiles: &[u32]) -> (out: Vec<u32>)
    requires
        w * h <= u32::MAX,
        tiles@.len() >= w * h,
    ensures
        out@ == flip_h_seq(w as int, h as int, tiles@),
{
    let mut out: Vec<u32> = Vec::new();
    let mut y: u32 = 0;
    while y < h
        invariant
            y <= h,
            w * h <= u32::MAX,
            tiles@.len() >= w * h,
            out@.len() == y * w,
            forall|k: int| 0 <= k < out@.len() ==> #[trigger] out@[k] == tiles@[(k / w as int) * w + (w - 1 - k % w as int)],
        decreases h - y,
    {
        let mut x: u32 = 0;
        while x < w
            invariant
                x <= w,
                y < h,
                w * h <= u32::MAX,
                tiles@.len() >= w * h,
                out@.len() == y * w + x,
                forall|k: int|
                    0 <= k < out@.len() ==> #[trigger] out@[k] == tiles@[(k / w as int) * w + (w - 1 - k % w as int)],
            decreases w - x,
        {
            proof {
                lemma_grid_cell(w as int, h as int, x as int, y as int);
                lemma_grid_cell(w as int, h as int, (w - 1 - x) as int, y as int);
            }
            let v = tiles[(y * w + (w - 1 - x)) as usize];
            out.push(v);
            proof {
                let k = y * w + x;
                assert(k % (w as int) == x && k / (w as int) == y);
            }
            x = x + 1;
        }
        proof {
            lemma_next_row(w as int, y as int);
        }
        y = y + 1;
    }
    proof {
        assert(h * w == w * h) by (nonlinear_arith);
    }
    assert(out@ =~= flip_h_seq(w as int, h as int, tiles@));
    out
}

/// A mask entry, reading past the end as unselected.
pub fn mask_get(mask: &[bool], i: usize) -> (b: bool)
    ensures
        b == mask_at(mask@, i as int),
{
    if i < mask.len() {
        mask[i]
    } else {
        false
    }
}

/// Mirrors a tile grid top-to-bottom.
pub fn flip_tiles_v(w: u32, h: u32, tiles: &[u32]) -> (out: Vec<u32>)
    requires
        w * h <= u32::MAX,
        tiles@.len() >= w * h,
    ensures
        out@ == flip_v_seq(w as int, h as int, tiles@),
{
    let mut out: Vec<u32> = Vec::new();
    let mut y: u32 = 0;
    while y < h
        invariant
            y <= h,
            w * h <= u32::MAX,
            tiles@.len() >= w * h,
            out@.len() == y * w,
            forall|k: int| 0 <= k < out@.len() ==> #[trigger] out@[k] == tiles@[(h - 1 - k / w as int) * w + k % w as int],
        decreases h - y,
    {
        let mut x: u32 = 0;
        while x < w
            invariant
                x <= w,
                y < h,
                w * h <= u32::MAX,
                tiles@.len() >= w * h,
                out@.len() == y * w + x,
                forall|k: int| 0 <= k < out@.len() ==> #[trigger] out@[k] == tiles@[(h - 1 - k / w as int) * w + k % w as int],
            decreases w - x,
        {
            proof {
                lemma_grid_cell(w as int, h as int, x as int, y as int);
                lemma_grid_cell(w as int, h as int, (x) as int, (h - 1 - y) as int);
                assert((w * h) as int == (w * h) as int) by (nonlinear_arith);
            }
            let v = tiles[((h - 1 - y) * w + x) as usize];
            out.push(v);
            x = x + 1;
        }
        proof {
            lemma_next_row(w as int, y as int);
        }
        y = y + 1;
    }
    proof {
        assert(h * w == w * h) by (nonlinear_arith);
    }
    assert(out@ =~= flip_v_seq(w as int, h as int, tiles@));
    out
}

/// Turns a tile grid a quarter clockwise; the result is `h` wide and `w` high.
pub fn rotate_tiles_cw(w: u32, h: u32, tiles: &[u32]) -> (out: Vec<u32>)
    requires
        w * h <= u32::MAX,
        tiles@.len() >= w * h,
    ensures
        out@ == rotate_cw_seq(w as int, h as int, tiles@),
{
    let mut out: Vec<u32> = Vec::new();
    let mut dy: u32 = 0;
    while dy < w
        invariant
            dy <= w,
            w * h <= u32::MAX,
            tiles@.len() >= w * h,
            out@.len() == dy * h,
            forall|k: int| 0 <= k < out@.len() ==> #[trigger] out@[k] == tiles@[(h - 1 - k % h as int) * w + k / h as int],
        decreases w - dy,
    {
        let mut dx: u32 = 0;
        while dx < h
            invariant
                dx <= h,
                dy < w,
                w * h <= u32::MAX,
                tiles@.len() >= w * h,
                out@.len() == dy * h + dx,
                forall|k: int| 0 <= k < out@.len() ==> #[trigger] out@[k] == tiles@[(h - 1 - k % h as int) * w + k / h as int],
            decreases h - dx,
        {
            proof {
                lemma_grid_cell(h as int, w as int, dx as int, dy as int);
                lemma_grid_cell(w as int, h as int, (dy) as int, (h - 1 - dx) as int);
                assert((h * w) as int == (w * h) as int) by (nonlinear_arith);
            }
            let v = tiles[((h - 1 - dx) * w + dy) as usize];
            out.push(v);
            dx = dx + 1;
        }
        proof {
            lemma_next_row(h as int, dy as int);
        }
        dy = dy + 1;
    }
    proof {
        assert(w * h == h * w) by (nonlinear_arith);
    }
    assert(out@ =~= rotate_cw_seq(w as int, h as int, tiles@));
    out
}

/// Mirrors a selection mask left-to-right; missing entries read as unselected.
pub fn flip_mask_h(w: u32, h: u32, mask: &[bool]) -> (out: Vec<bool>)
    requires
        w * h <= u32::MAX,
    ensures
        out@ == flip_h_seq(w as int, h as int, padded_mask(mask@, w * h)),
{
    let mut out: Vec<bool> = Vec::new();
    let mut y: u32 = 0;
    while y < h
        invariant
            y <= h,
            w * h <= u32::MAX,
            out@.len() == y * w,
            forall|k: int| 0 <= k < out@.len() ==> #[trigger] out@[k] == mask_at(mask@, (k / w as int) * w + (w - 1 - k % w as int)),
        decreases h - y,
    {
        let mut x: u32 = 0;
        while x < w
            invariant
                x <= w,
                y < h,
                w * h <= u32::MAX,
                out@.len() == y * w + x,
                forall|k: int| 0 <= k < out@.len() ==> #[trigger] out@[k] == mask_at(mask@, (k / w as int) * w + (w - 1 - k % w as int)),
            decreases w - x,
        {
            proof {
                lemma_grid_cell(w as int, h as int, x as int, y as int);
                lemma_grid_cell(w as int, h as int, (w - 1 - x) as int, (y) as int);
                assert((w * h) as int == (w * h) as int) by (nonlinear_arith);
            }
            let v = mask_get(mask, (y * w + (w - 1 - x)) as usize);
            out.push(v);
            x = x + 1;
        }
        proof {
            lemma_next_row(w as int, y as int);
        }
        y = y + 1;
    }
    proof {
        assert(h * w == w * h) by (nonlinear_arith);
    }
    assert forall|k: int| 0 <= k < out@.len() implies out@[k] == flip_h_seq(
        w as int,
        h as int,
        padded_mask(mask@, w * h),
    )[k] by {
        lemma_grid_decompose(w as int, h as int, k);
        lemma_grid_cell(w as int, h as int, w - 1 - k % (w as int), k / (w as int));
    }
    assert(out@ =~= flip_h_seq(w as int, h as int, padded_mask(mask@, w * h)));
    out
}

/// Mirrors a selection mask top-to-bottom; missing entries read as unselected.
pub fn flip_mask_v(w: u32, h: u32, mask: &[bool]) -> (out: Vec<bool>)
    requires
        w * h <= u32::MAX,
    ensures
        out@ == flip_v_seq(w as int, h as int, padded_mask(mask@, w * h)),
{
    let mut out: Vec<bool> = Vec::new();
    let mut y: u32 = 0;
    while y < h
        invariant
            y <= h,
            w * h <= u32::MAX,
            out@.len() == y * w,
            forall|k: int| 0 <= k < out@.len() ==> #[trigger] out@[k] == mask_at(mask@, (h - 1 - k / w as int) * w + k % w as int),
        decreases h - y,
    {
        let mut x: u32 = 0;
        while x < w
            invariant
                x <= w,
                y < h,
                w * h <= u32::MAX,
                out@.len() == y * w + x,
                forall|k: int| 0 <= k < out@.len() ==> #[trigger] out@[k] == mask_at(mask@, (h - 1 - k / w as int) * w + k % w as int),
            decreases w - x,
        {
            proof {
                lemma_grid_cell(w as int, h as int, x as int, y as int);
                lemma_grid_cell(w as int, h as int, (x) as int, (h - 1 - y) as int);
                assert((w * h) as int == (w * h) as int) by (nonlinear_arith);
            }
            let v = mask_get(mask, ((h - 1 - y) * w + x) as usize);
            out.push(v);
            x = x + 1;
        }
        proof {
            lemma_next_row(w as int, y as int);
        }
        y = y + 1;
    }
    proof {
        assert(h * w == w * h) by (nonlinear_arith);
    }
    assert forall|k: int| 0 <= k < out@.len() implies out@[k] == flip_v_seq(
        w as int,
        h as int,
        padded_mask(mask@, w * h),
    )[k] by {
        lemma_grid_decompose(w as int, h as int, k);
        lemma_grid_cell(w as int, h as int, k % (w as int), h - 1 - k / (w as int));
    }
    assert(out@ =~= flip_v_seq(w as int, h as int, padded_mask(mask@, w * h)));
    out
}

/// Turns a selection mask a quarter clockwise; missing entries read as unselected.
pub fn rotate_mask_cw(w: u32, h: u32, mask: &[bool]) -> (out: Vec<bool>)
    requires
        w * h <= u32::MAX,
    ensures
        out@ == rotate_cw_seq(w as int, h as int, padded_mask(mask@, w * h)),
{
    let mut out: Vec<bool> = Vec::new();
    let mut dy: u32 = 0;
    while dy < w
        invariant
            dy <= w,
            w * h <= u32::MAX,
            out@.len() == dy * h,
            forall|k: int| 0 <= k < out@.len() ==> #[trigger] out@[k] == mask_at(mask@, (h - 1 - k % h as int) * w + k / h as int),
        decreases w - dy,
    {
        let mut dx: u32 = 0;
        while dx < h
            invariant
                dx <= h,
                dy < w,
                w * h <= u32::MAX,
                out@.len() == dy * h + dx,
                forall|k: int| 0 <= k < out@.len() ==> #[trigger] out@[k] == mask_at(mask@, (h - 1 - k % h as int) * w + k / h as int),
            decreases h - dx,
        {
            proof {
                lemma_grid_cell(h as int, w as int, dx as int, dy as int);
                lemma_grid_cell(w as int, h as int, (dy) as int, (h - 1 - dx) as int);
                assert((h * w) as int == (w * h) as int) by (nonlinear_arith);
            }
            let v = mask_get(mask, ((h - 1 - dx) * w + dy) as usize);
            out.push(v);
            dx = dx + 1;
        }
        proof {
            lemma_next_row(h as int, dy as int);
        }
        dy = dy + 1;
    }
    proof {
        assert(w * h == h * w) by (nonlinear_arith);
    }
    assert forall|k: int| 0 <= k < out@.len() implies out@[k] == rotate_cw_seq(
        w as int,
        h as int,
        padded_mask(mask@, w * h),
    )[k] by {
        lemma_grid_decompose(h as int, w as int, k);
        lemma_grid_cell(w as int, h as int, k / (h as int), h - 1 - k % (h as int));
    }
    assert(out@ =~= rotate_cw_seq(w as int, h as int, padded_mask(mask@, w * h)));
    out
}

/// Mirroring left-to-right twice gives back the grid.
pub proof fn lemma_flip_h_involution<T>(w: nat, h: nat, t: Seq<T>)
    requires
        t.len() == w * h,
    ensures
        flip_h_seq(w as int, h as int, flip_h_seq(w as int, h as int, t)) == t,
{
    let once = flip_h_seq(w as int, h as int, t);
    let twice = flip_h_seq(w as int, h as int, once);
    assert forall|i: int| 0 <= i < t.len() implies twice[i] == t[i] by {
        lemma_grid_decompose(w as int, h as int, i);
        let x = i % (w as int);
        let y = i / (w as int);
        lemma_grid_cell(w as int, h as int, w - 1 - x, y);
    }
    assert(twice =~= t);
}

/// Mirroring top-to-bottom twice gives back the grid.
pub proof fn lemma_flip_v_involution<T>(w: nat, h: nat, t: Seq<T>)
    requires
        t.len() == w * h,
    ensures
        flip_v_seq(w as int, h as int, flip_v_seq(w as int, h as int, t)) == t,
{
    let once = flip_v_seq(w as int, h as int, t);
    let twice = flip_v_seq(w as int, h as int, once);
    assert forall|i: int| 0 <= i < t.len() implies twice[i] == t[i] by {
        lemma_grid_decompose(w as int, h as int, i);
        let x = i % (w as int);
        let y = i / (w as int);
        lemma_grid_cell(w as int, h as int, x, h - 1 - y);
    }
    assert(twice =~= t);
}

/// The two mirrors commute.
pub proof fn lemma_flips_commute<T>(w: nat, h: nat, t: Seq<T>)
    requires
        t.len() == w * h,
    ensures
        flip_h_seq(w as int, h as int, flip_v_seq(w as int, h as int, t)) == flip_v_seq(
            w as int,
            h as int,
            flip_h_seq(w as int, h as int, t),
        ),
{
    let a = flip_h_seq(w as int, h as int, flip_v_seq(w as int, h as int, t));
    let b = flip_v_seq(w as int, h as int, flip_h_seq(w as int, h as int, t));
    assert forall|i: int| 0 <= i < a.len() implies a[i] == b[i] by {
        lemma_grid_decompose(w as int, h as int, i);
        let x = i % (w as int);
        let y = i / (w as int);
        lemma_grid_cell(w as int, h as int, w - 1 - x, y);
        lemma_grid_cell(w as int, h as int, x, h - 1 - y);
    }
    assert(a =~= b);
}

/// Two quarter turns are a half turn: both mirrors at once.
pub proof fn lemma_rotate_twice<T>(w: nat, h: nat, t: Seq<T>)
    requires
        t.len() == w * h,
    ensures
        rotate_cw_seq(h as int, w as int, rotate_cw_seq(w as int, h as int, t)) == flip_h_seq(
            w as int,
            h as int,
            flip_v_seq(w as int, h as int, t),
        ),
{
    let r1 = rotate_cw_seq(w as int, h as int, t);
    let r2 = rotate_cw_seq(h as int, w as int, r1);
    let f = flip_h_seq(w as int, h as int, flip_v_seq(w as int, h as int, t));
    assert(h * w == w * h) by (nonlinear_arith);
    assert forall|i: int| 0 <= i < f.len() implies r2[i] == f[i] by {
        lemma_grid_decompose(w as int, h as int, i);
        let x = i % (w as int);
        let y = i / (w as int);
        // r2 reads r1 at the cell (y, w - 1 - x) of an h-wide grid
        lemma_grid_cell(h as int, w as int, y, w - 1 - x);
        // r1 reads t at the cell (w - 1 - x, h - 1 - y)
        lemma_grid_cell(w as int, h as int, w - 1 - x, h - 1 - y);
        // f reads through the two mirrors
        lemma_grid_cell(w as int, h as int, w - 1 - x, y);
    }
    assert(r2 =~= f);
}

/// Four quarter turns give back the grid.
pub proof fn lemma_rotate_four_times<T>(w: nat, h: nat, t: Seq<T>)
    requires
        t.len() == w * h,
    ensures
        rotate_cw_seq(
            h as int,
            w as int,
            rotate_cw_seq(
                w as int,
                h as int,
                rotate_cw_seq(h as int, w as int, rotate_cw_seq(w as int, h as int, t)),
            ),
        ) == t,
{
    let half = rotate_cw_seq(h as int, w as int, rotate_cw_seq(w as int, h as int, t));
    lemma_rotate_twice(w, h, t);
    let fv = flip_v_seq(w as int, h as int, t);
    assert(fv.len() == w * h);
    assert(half.len() == w * h);
    lemma_rotate_twice(w, h, half);
    // half turn of a half turn: flip_h(flip_v(flip_h(flip_v(t))))
    lemma_flips_commute(w, h, fv);
    lemma_flip_v_involution(w, h, t);
    let hv = flip_h_seq(w as int, h as int, fv);
    assert(hv.len() == w * h);
    lemma_flips_commute(w, h, t);
    lemma_flip_h_involution(w, h, fv);
    lemma_flip_v_involution(w, h, flip_h_seq(w as int, h as int, t));
    lemma_flip_h_involution(w, h, t);
}

/// A mask already `n` entries long is its own padding.
pub proof fn lemma_padded_full(mask: Seq<bool>)
    ensures
        padded_mask(mask, mask.len() as int) == mask,
{
    assert(padded_mask(mask, mask.len() as int) =~= mask);
}

/// The three ways a selection can be turned over.
#[derive(Clone, Copy, Debug, PartialEq, Eq, Structural)]
pub enum GridTransform {
    FlipH,
    FlipV,
    RotateCw,
}

/// A grid after the transform.
pub open spec fn transform_seq<T>(kind: GridTransform, w: int, h: int, t: Seq<T>) -> Seq<T> {
    match kind {
        GridTransform::FlipH => flip_h_seq(w, h, t),
        GridTransform::FlipV => flip_v_seq(w, h, t),
        GridTransform::RotateCw => rotate_cw_seq(w, h, t),
    }
}

/// Width and height of a `w`×`h` grid after the transform.
pub open spec fn transform_dims(kind: GridTransform, w: u32, h: u32) -> (u32, u32) {
    match kind {
        GridTransform::RotateCw => (h, w),
        _ => (w, h),
    }
}

/// Applies the transform to a tile grid.
pub fn transform_tiles(kind: GridTransform, w: u32, h: u32, tiles: &[u32]) -> (out: Vec<u32>)
    requires
        w * h <= u32::MAX,
        tiles@.len() >= w * h,
    ensures
        out@ == transform_seq(kind, w as int, h as int, tiles@),
{
    match kind {
        GridTransform::FlipH => flip_tiles_h(w, h, tiles),
        GridTransform::FlipV => flip_tiles_v(w, h, tiles),
        GridTransform::RotateCw => rotate_tiles_cw(w, h, tiles),
    }
}

/// Applies the transform to a selection mask.
pub fn transform_mask(kind: GridTransform, w: u32, h: u32, mask: &[bool]) -> (out: Vec<bool>)
    requires
        w * h <= u32::MAX,
    ensures
        out@ == transform_seq(kind, w as int, h as int, padded_mask(mask@, w * h)),
{
    match kind {
        GridTransform::FlipH => flip_mask_h(w, h, mask),
        GridTransform::FlipV => flip_mask_v(w, h, mask),
        GridTransform::RotateCw => rotate_mask_cw(w, h, mask),
    }
}

} // verus!
