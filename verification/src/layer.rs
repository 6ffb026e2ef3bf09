//! Tile layers: a row-major grid of global tile ids, with bounds-checked
//! access and the clipped region reads and writes that moving a selection
//! needs.

use vstd::prelude::*;
use crate::grid::{grid, mask_at, mask_get, lemma_grid_cell, lemma_grid_decompose, lemma_next_row};

verus! {

/// Why an edit of the document was refused.
#[derive(Clone, Copy, Debug, PartialEq, Eq, Structural)]
pub enum EditorError {
    /// No layer has this index.
    UnknownLayer(usize),
    /// The layer is locked against edits.
    LayerLocked,
    /// The layer holds objects, not tiles.
    NotTileLayer,
    /// The cell lies outside the layer.
    OutOfBounds(u32, u32),
    /// The layer holds tiles, not objects.
    NotObjectLayer,
    /// No object on the layer has this id.
    ObjectNotFound(u32),
}

/// A layer of tiles: `tiles[y * width + x]` is the global tile id at
/// `(x, y)`, 0 for an empty cell.
#[derive(Debug)]
pub struct TileLayer {
    pub width: u32,
    pub height: u32,
    pub tiles: Vec<u32>,
}

/// The mathematical content of a tile layer.
pub struct TileLayerView {
    pub width: u32,
    pub height: u32,
    pub tiles: Seq<u32>,
}

impl View for TileLayer {
    type V = TileLayerView;

    open spec fn view(&self) -> TileLayerView {
        TileLayerView { width: self.width, height: self.height, tiles: self.tiles@ }
    }
}

impl TileLayerView {
    /// The grid holds one entry per cell.
    pub open spec fn wf(self) -> bool {
        self.tiles.len() == self.width * self.height
    }

    pub open spec fn in_bounds(self, x: int, y: int) -> bool {
        0 <= x < self.width && 0 <= y < self.height
    }

    pub open spec fn tile(self, x: int, y: int) -> u32 {
        self.tiles[y * self.width + x]
    }

    /// The same layer with one cell changed.
    pub open spec fn with_tile(self, x: int, y: int, gid: u32) -> TileLayerView {
        TileLayerView {
            width: self.width,
            height: self.height,
            tiles: self.tiles.update(y * self.width + x, gid),
        }
    }

    /// `w`×`h` tiles read from the rectangle at `(min_x, min_y)`; cells
    /// outside the layer read as 0.
    pub open spec fn capture(self, min_x: int, min_y: int, w: int, h: int) -> Seq<u32> {
        grid(
            w,
            h,
            |x: int, y: int|
                if self.in_bounds(min_x + x, min_y + y) {
                    self.tile(min_x + x, min_y + y)
                } else {
                    0
                },
        )
    }

    /// Local coordinates, inside the `w`×`h` rectangle at `(min_x, min_y)`,
    /// of the cell stored at index `i`.
    pub open spec fn local_x(self, i: int, min_x: int) -> int {
        i % (self.width as int) - min_x
    }

    pub open spec fn local_y(self, i: int, min_y: int) -> int {
        i / (self.width as int) - min_y
    }

    /// Whether the cell at index `i` is one of the first `upto` cells, in
    /// row-major order, of the `w`×`h` rectangle at `(min_x, min_y)`, and
    /// is selected by `mask` (every cell is, without a mask).
    pub open spec fn picked(
        self,
        i: int,
        min_x: int,
        min_y: int,
        w: int,
        h: int,
        upto: int,
        mask: Option<Seq<bool>>,
    ) -> bool {
        let lx = self.local_x(i, min_x);
        let ly = self.local_y(i, min_y);
        &&& 0 <= lx < w
        &&& 0 <= ly < h
        &&& ly * w + lx < upto
        &&& match mask {
            Some(m) => mask_at(m, ly * w + lx),
            None => true,
        }
    }

    /// The value a region write puts into the cell stored at index `i`.
    pub open spec fn source_value(self, i: int, min_x: int, min_y: int, w: int, src: Option<Seq<u32>>) -> u32 {
        match src {
            Some(s) => s[self.local_y(i, min_y) * w + self.local_x(i, min_x)],
            None => 0,
        }
    }

    /// The tiles after the first `upto` cells of a region write.
    pub open spec fn painted(
        self,
        min_x: int,
        min_y: int,
        w: int,
        h: int,
        upto: int,
        src: Option<Seq<u32>>,
        mask: Option<Seq<bool>>,
    ) -> Seq<u32> {
        Seq::new(
            self.tiles.len(),
            |i: int|
                if self.picked(i, min_x, min_y, w, h, upto, mask) {
                    self.source_value(i, min_x, min_y, w, src)
                } else {
                    self.tiles[i]
                },
        )
    }

    /// The tiles after writing `src` (a `w`×`h` grid) at `(min_x, min_y)`:
    /// only cells selected by `mask` and inside the layer change.
    pub open spec fn written(
        self,
        min_x: int,
        min_y: int,
        w: int,
        h: int,
        src: Seq<u32>,
        mask: Option<Seq<bool>>,
    ) -> Seq<u32> {
        self.painted(min_x, min_y, w, h, w * h, Some(src), mask)
    }

    /// The tiles after emptying the cells that `mask` selects in the
    /// `w`×`h` rectangle at `(min_x, min_y)`.
    pub open spec fn cleared(self, min_x: int, min_y: int, w: int, h: int, mask: Seq<bool>) -> Seq<u32> {
        self.painted(min_x, min_y, w, h, w * h, None, Some(mask))
    }
}

/// The layer index of a cell is a cell of the layer, and back.
pub proof fn lemma_layer_index(t: TileLayerView, x: int, y: int)
    requires
        t.wf(),
        t.in_bounds(x, y),
    ensures
        0 <= y * t.width + x < t.tiles.len(),
        (y * t.width + x) % (t.width as int) == x,
        (y * t.width + x) / (t.width as int) == y,
{
    lemma_grid_cell(t.width as int, t.height as int, x, y);
}

impl TileLayer {
    /// Index of `(x, y)` in `tiles`, or `None` outside the layer.
    pub fn index_of(&self, x: u32, y: u32) -> (r: Option<usize>)
        requires
            self@.wf(),
        ensures
            match r {
                Some(i) => self@.in_bounds(x as int, y as int) && i == y * self.width + x && i
                    < self.tiles@.len(),
                None => !self@.in_bounds(x as int, y as int),
            },
    {
        let n = self.tiles.len();
        if x < self.width && y < self.height {
            proof {
                lemma_layer_index(self@, x as int, y as int);
                assert(0 <= y * self.width <= y * self.width + x < n);
            }
            Some(y as usize * self.width as usize + x as usize)
        } else {
            None
        }
    }

    /// The tile at `(x, y)`, or `None` outside the layer.
    pub fn tile_at(&self, x: u32, y: u32) -> (r: Option<u32>)
        requires
            self@.wf(),
        ensures
            match r {
                Some(g) => self@.in_bounds(x as int, y as int) && g == self@.tile(x as int, y as int),
                None => !self@.in_bounds(x as int, y as int),
            },
    {
        match self.index_of(x, y) {
            Some(i) => Some(self.tiles[i]),
            None => None,
        }
    }

    /// Puts `gid` at `(x, y)`; refuses a cell outside the layer.
    pub fn set_tile(&mut self, x: u32, y: u32, gid: u32) -> (r: Result<(), EditorError>)
        requires
            old(self)@.wf(),
        ensures
            final(self)@.wf(),
            match r {
                Ok(()) => old(self)@.in_bounds(x as int, y as int) && final(self)@ == old(
                    self,
                )@.with_tile(x as int, y as int, gid),
                Err(e) => !old(self)@.in_bounds(x as int, y as int) && e == EditorError::OutOfBounds(
                    x,
                    y,
                ) && final(self)@ == old(self)@,
            },
    {
        match self.index_of(x, y) {
            Some(i) => {
                self.tiles.set(i, gid);
                Ok(())
            },
            None => Err(EditorError::OutOfBounds(x, y)),
        }
    }

}

/// Two cells of a `w`-wide grid with the same index are the same cell.
pub proof fn lemma_grid_unique(w: int, x1: int, y1: int, x2: int, y2: int)
    requires
        0 <= x1 < w,
        0 <= x2 < w,
        y1 * w + x1 == y2 * w + x2,
    ensures
        x1 == x2,
        y1 == y2,
{
    vstd::arithmetic::div_mod::lemma_fundamental_div_mod_converse(y1 * w + x1, w, y1, x1);
    vstd::arithmetic::div_mod::lemma_fundamental_div_mod_converse(y2 * w + x2, w, y2, x2);
}

/// Every stored index is the index of a cell inside the layer.
pub proof fn lemma_index_cell(t: TileLayerView, i: int)
    requires
        t.wf(),
        0 <= i < t.tiles.len(),
    ensures
        t.width > 0,
        t.in_bounds(i % (t.width as int), i / (t.width as int)),
        i == (i / (t.width as int)) * t.width + i % (t.width as int),
{
    lemma_grid_decompose(t.width as int, t.height as int, i);
}

/// Writing back, through the same mask, the tiles read from a rectangle
/// before its masked cells were emptied gives back the layer as it was.
pub proof fn lemma_write_back_restores(t: TileLayerView, min_x: int, min_y: int, w: int, h: int, mask: Seq<bool>)
    requires
        t.wf(),
        w >= 0,
        h >= 0,
    ensures
        (TileLayerView { tiles: t.cleared(min_x, min_y, w, h, mask), ..t }).written(
            min_x,
            min_y,
            w,
            h,
            t.capture(min_x, min_y, w, h),
            Some(mask),
        ) == t.tiles,
{
    let c = TileLayerView { tiles: t.cleared(min_x, min_y, w, h, mask), ..t };
    let cap = t.capture(min_x, min_y, w, h);
    let out = c.written(min_x, min_y, w, h, cap, Some(mask));
    assert forall|i: int| 0 <= i < t.tiles.len() implies out[i] == t.tiles[i] by {
        lemma_index_cell(t, i);
        let lx = t.local_x(i, min_x);
        let ly = t.local_y(i, min_y);
        if c.picked(i, min_x, min_y, w, h, w * h, Some(mask)) {
            lemma_grid_cell(w, h, lx, ly);
            assert(cap[ly * w + lx] == t.tile(min_x + lx, min_y + ly));
        }
    }
    assert(out =~= t.tiles);
}

/// Writing the tiles read from a rectangle back into the same rectangle,
/// through any mask, changes nothing.
pub proof fn lemma_write_captured_keeps(t: TileLayerView, min_x: int, min_y: int, w: int, h: int, mask: Seq<bool>)
    requires
        t.wf(),
        w >= 0,
        h >= 0,
    ensures
        t.written(min_x, min_y, w, h, t.capture(min_x, min_y, w, h), Some(mask)) == t.tiles,
{
    let cap = t.capture(min_x, min_y, w, h);
    let out = t.written(min_x, min_y, w, h, cap, Some(mask));
    assert forall|i: int| 0 <= i < t.tiles.len() implies out[i] == t.tiles[i] by {
        lemma_index_cell(t, i);
        let lx = t.local_x(i, min_x);
        let ly = t.local_y(i, min_y);
        if t.picked(i, min_x, min_y, w, h, w * h, Some(mask)) {
            lemma_grid_cell(w, h, lx, ly);
            assert(cap[ly * w + lx] == t.tile(min_x + lx, min_y + ly));
        }
    }
    assert(out =~= t.tiles);
}

/// The loop behind the three region operations: writes `src` (or 0 when
/// `src` is `None`) into the cells of the `width`×`height` rectangle at
/// `(min_x, min_y)` that `mask` selects and that lie inside the layer.
fn paint_region(
    tile_layer: &mut TileLayer,
    min_x: i32,
    min_y: i32,
    width: u32,
    height: u32,
    src: Option<&[u32]>,
    mask: Option<&[bool]>,
)
    requires
        old(tile_layer)@.wf(),
        width * height <= u32::MAX + 1,
        width <= i32::MAX + 1,
        height <= i32::MAX + 1,
        min_x + width <= i32::MAX + 1,
        min_y + height <= i32::MAX + 1,
        src matches Some(s) ==> s@.len() >= width * height,
    ensures
        final(tile_layer)@.wf(),
        final(tile_layer).width == old(tile_layer).width,
        final(tile_layer).height == old(tile_layer).height,
        final(tile_layer)@.tiles == old(tile_layer)@.painted(
            min_x as int,
            min_y as int,
            width as int,
            height as int,
            width * height,
            match src {
                Some(s) => Some(s@),
                None => None,
            },
            match mask {
                Some(m) => Some(m@),
                None => None,
            },
        ),
{
    let ghost t0 = tile_layer@;
    let ghost srcv: Option<Seq<u32>> = match src {
        Some(s) => Some(s@),
        None => None,
    };
    let ghost maskv: Option<Seq<bool>> = match mask {
        Some(m) => Some(m@),
        None => None,
    };
    let mut ly: u32 = 0;
    while ly < height
        invariant
            ly <= height,
            t0.wf(),
            tile_layer.width == t0.width,
            tile_layer.height == t0.height,
            width * height <= u32::MAX + 1,
            width <= i32::MAX + 1,
            height <= i32::MAX + 1,
            min_x + width <= i32::MAX + 1,
            min_y + height <= i32::MAX + 1,
            src matches Some(s) ==> s@.len() >= width * height,
            srcv == match src {
                Some(s) => Some(s@),
                None => None::<Seq<u32>>,
            },
            maskv == match mask {
                Some(m) => Some(m@),
                None => None::<Seq<bool>>,
            },
            tile_layer@.tiles == t0.painted(
                min_x as int,
                min_y as int,
                width as int,
                height as int,
                ly * width,
                srcv,
                maskv,
            ),
        decreases height - ly,
    {
        let mut lx: u32 = 0;
        while lx < width
            invariant
                lx <= width,
                ly < height,
                t0.wf(),
                tile_layer.width == t0.width,
                tile_layer.height == t0.height,
                width * height <= u32::MAX + 1,
                width <= i32::MAX + 1,
                height <= i32::MAX + 1,
                min_x + width <= i32::MAX + 1,
                min_y + height <= i32::MAX + 1,
                src matches Some(s) ==> s@.len() >= width * height,
                srcv == match src {
                    Some(s) => Some(s@),
                    None => None::<Seq<u32>>,
                },
                maskv == match mask {
                    Some(m) => Some(m@),
                    None => None::<Seq<bool>>,
                },
                tile_layer@.tiles == t0.painted(
                    min_x as int,
                    min_y as int,
                    width as int,
                    height as int,
                    ly * width + lx,
                    srcv,
                    maskv,
                ),
            decreases width - lx,
        {
            proof {
                lemma_grid_cell(width as int, height as int, lx as int, ly as int);
            }
            let idx = ly * width + lx;
            let selected = match mask {
                Some(m) => mask_get(m, idx as usize),
                None => true,
            };
            let x = min_x + lx as i32;
            let y = min_y + ly as i32;
            let ghost k = ly * width + lx;
            let ghost before = tile_layer@.tiles;
            if selected && tile_layer_in_bounds(tile_layer, x, y) {
                let gid = match src {
                    Some(s) => s[idx as usize],
                    None => 0,
                };
                let j = match tile_layer.index_of(x as u32, y as u32) {
                    Some(j) => j,
                    None => 0,
                };
                proof {
                    lemma_layer_index(t0, x as int, y as int);
                }
                tile_layer.tiles.set(j, gid);
                proof {
                    let next = t0.painted(min_x as int, min_y as int, width as int, height as int, k + 1, srcv, maskv);
                    assert forall|i: int| 0 <= i < t0.tiles.len() implies tile_layer@.tiles[i] == next[i] by {
                        lemma_index_cell(t0, i);
                        let lxi = t0.local_x(i, min_x as int);
                        let lyi = t0.local_y(i, min_y as int);
                        if i == j {
                            assert(lxi == lx && lyi == ly);
                        } else if 0 <= lxi < width && 0 <= lyi < height && lyi * width + lxi == k {
                            lemma_grid_unique(width as int, lxi, lyi, lx as int, ly as int);
                            assert(false);
                        }
                    }
                    assert(tile_layer@.tiles =~= next);
                }
            } else {
                proof {
                    let next = t0.painted(min_x as int, min_y as int, width as int, height as int, k + 1, srcv, maskv);
                    assert forall|i: int| 0 <= i < t0.tiles.len() implies before[i] == next[i] by {
                        lemma_index_cell(t0, i);
                        let lxi = t0.local_x(i, min_x as int);
                        let lyi = t0.local_y(i, min_y as int);
                        if 0 <= lxi < width && 0 <= lyi < height && lyi * width + lxi == k {
                            lemma_grid_unique(width as int, lxi, lyi, lx as int, ly as int);
                        }
                    }
                    assert(before =~= next);
                }
            }
            lx = lx + 1;
        }
        proof {
            lemma_next_row(width as int, ly as int);
        }
        ly = ly + 1;
    }
    proof {
        assert(height * width == width * height) by (nonlinear_arith);
    }
}

/// Whether a signed cell lies inside the layer.
pub fn tile_layer_in_bounds(tile_layer: &TileLayer, x: i32, y: i32) -> (b: bool)
    ensures
        b == tile_layer@.in_bounds(x as int, y as int),
{
    x >= 0 && y >= 0 && (x as u32) < tile_layer.width && (y as u32) < tile_layer.height
}

/// Reads the `width`×`height` rectangle at `(min_x, min_y)`; cells outside
/// the layer read as 0.
pub fn capture_region_clipped(tile_layer: &TileLayer, min_x: i32, min_y: i32, width: u32, height: u32) -> (tiles:
    Vec<u32>)
    requires
        tile_layer@.wf(),
        width * height <= u32::MAX,
        width <= i32::MAX + 1,
        height <= i32::MAX + 1,
        min_x + width <= i32::MAX + 1,
        min_y + height <= i32::MAX + 1,
    ensures
        tiles@ == tile_layer@.capture(min_x as int, min_y as int, width as int, height as int),
{
    let ghost t = tile_layer@;
    let mut tiles: Vec<u32> = Vec::new();
    let mut ly: u32 = 0;
    while ly < height
        invariant
            ly <= height,
            t == tile_layer@,
            t.wf(),
            width * height <= u32::MAX,
            width <= i32::MAX + 1,
            height <= i32::MAX + 1,
            min_x + width <= i32::MAX + 1,
            min_y + height <= i32::MAX + 1,
            tiles@.len() == ly * width,
            forall|k: int|
                0 <= k < tiles@.len() ==> #[trigger] tiles@[k] == (if t.in_bounds(
                    min_x + k % (width as int),
                    min_y + k / (width as int),
                ) {
                    t.tile(min_x + k % (width as int), min_y + k / (width as int))
                } else {
                    0
                }),
        decreases height - ly,
    {
        let mut lx: u32 = 0;
        while lx < width
            invariant
                lx <= width,
                ly < height,
                t == tile_layer@,
                t.wf(),
                width * height <= u32::MAX,
                width <= i32::MAX + 1,
                height <= i32::MAX + 1,
                min_x + width <= i32::MAX + 1,
                min_y + height <= i32::MAX + 1,
                tiles@.len() == ly * width + lx,
                forall|k: int|
                    0 <= k < tiles@.len() ==> #[trigger] tiles@[k] == (if t.in_bounds(
                        min_x + k % (width as int),
                        min_y + k / (width as int),
                    ) {
                        t.tile(min_x + k % (width as int), min_y + k / (width as int))
                    } else {
                        0
                    }),
            decreases width - lx,
        {
            proof {
                lemma_grid_cell(width as int, height as int, lx as int, ly as int);
            }
            let x = min_x + lx as i32;
            let y = min_y + ly as i32;
            let gid = if tile_layer_in_bounds(tile_layer, x, y) {
                match tile_layer.tile_at(x as u32, y as u32) {
                    Some(g) => g,
                    None => 0,
                }
            } else {
                0
            };
            tiles.push(gid);
            lx = lx + 1;
        }
        proof {
            lemma_next_row(width as int, ly as int);
        }
        ly = ly + 1;
    }
    proof {
        assert(height * width == width * height) by (nonlinear_arith);
    }
    assert(tiles@ =~= t.capture(min_x as int, min_y as int, width as int, height as int));
    tiles
}

/// Writes the `width`×`height` grid `tiles` with its top-left corner at
/// `(min_x, min_y)`, skipping cells that `mask` (when given) leaves out and
/// cells outside the layer.
pub fn write_region_tiles_clipped(
    tile_layer: &mut TileLayer,
    min_x: i32,
    min_y: i32,
    width: u32,
    height: u32,
    tiles: &[u32],
    mask: Option<&[bool]>,
) -> (r: Result<(), EditorError>)
    requires
        old(tile_layer)@.wf(),
        width * height <= u32::MAX + 1,
        width <= i32::MAX + 1,
        height <= i32::MAX + 1,
        min_x + width <= i32::MAX + 1,
        min_y + height <= i32::MAX + 1,
        tiles@.len() >= width * height,
    ensures
        r == Ok::<(), EditorError>(()),
        final(tile_layer)@.wf(),
        final(tile_layer).width == old(tile_layer).width,
        final(tile_layer).height == old(tile_layer).height,
        final(tile_layer)@.tiles == old(tile_layer)@.written(
            min_x as int,
            min_y as int,
            width as int,
            height as int,
            tiles@,
            match mask {
                Some(m) => Some(m@),
                None => None,
            },
        ),
{
    paint_region(tile_layer, min_x, min_y, width, height, Some(tiles), mask);
    Ok(())
}

/// Empties the cells that `mask` selects in the `width`×`height`
/// rectangle at `(min_x, min_y)`, skipping cells outside the layer.
pub fn clear_region_tiles_masked(
    tile_layer: &mut TileLayer,
    min_x: i32,
    min_y: i32,
    width: u32,
    height: u32,
    mask: &[bool],
) -> (r: Result<(), EditorError>)
    requires
        old(tile_layer)@.wf(),
        width * height <= u32::MAX + 1,
        width <= i32::MAX + 1,
        height <= i32::MAX + 1,
        min_x + width <= i32::MAX + 1,
        min_y + height <= i32::MAX + 1,
    ensures
        r == Ok::<(), EditorError>(()),
        final(tile_layer)@.wf(),
        final(tile_layer).width == old(tile_layer).width,
        final(tile_layer).height == old(tile_layer).height,
        final(tile_layer)@.tiles == old(tile_layer)@.cleared(
            min_x as int,
            min_y as int,
            width as int,
            height as int,
            mask@,
        ),
{
    paint_region(tile_layer, min_x, min_y, width, height, None, Some(mask));
    Ok(())
}

} // verus!
