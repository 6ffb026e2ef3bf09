//! The tile palette: the viewfinder over the active tileset and picking
//! the tile to paint with.

use vstd::prelude::*;
use crate::editor::{EditorState, EditorView};

verus! {

/// The columns and rows of tiles the viewfinder shows at a zoom level:
/// level 0 is the widest view, level 2 the closest, anything else the
/// middle one.
pub fn vf_grid_size(level: u8) -> (r: (i32, i32))
    ensures
        r == (if level == 0 {
            (9i32, 3i32)
        } else if level == 2 {
            (3i32, 1i32)
        } else {
            (6i32, 2i32)
        }),
{
    match level {
        0 => (9, 3),
        2 => (3, 1),
        _ => (6, 2),
    }
}

/// The global id of the palette tile at column `col`, row `row` of a
/// tileset `ts_cols` tiles wide whose local ids are `tile_ids` in reading
/// order, if there is a tile there.
pub open spec fn palette_pick(col: i32, row: i32, ts_cols: i32, first_gid: u32, tile_ids: Seq<u32>) -> Option<
    u32,
> {
    if col < 0 || col >= ts_cols || row < 0 {
        None
    } else {
        let idx = row * ts_cols + col;
        if idx < tile_ids.len() {
            Some((first_gid + tile_ids[idx]) as u32)
        } else {
            None
        }
    }
}

impl EditorState {
    /// Selects the palette tile at column `col`, row `row` (cells of the
    /// viewfinder, counted from the tileset's top left) as the tile to
    /// paint with; a tap beside the tileset changes nothing.
    pub fn tap_select_tile(&mut self, col: i32, row: i32, ts_cols: i32, first_gid: u32, tile_ids: &[u32])
        requires
            0 <= col < ts_cols && 0 <= row ==> row * ts_cols + col <= i32::MAX,
            forall|k: int| 0 <= k < tile_ids@.len() ==> first_gid + #[trigger] tile_ids@[k] <= u32::MAX,
        ensures
            final(self)@ == (match palette_pick(col, row, ts_cols, first_gid, tile_ids@) {
                Some(gid) => EditorView { selected_gid: gid, ..old(self)@ },
                None => old(self)@,
            }),
    {
        if col < 0 || col >= ts_cols || row < 0 {
            return;
        }
        assert(0 <= row * ts_cols) by (nonlinear_arith)
            requires
                0 <= row,
                0 < ts_cols,
        ;
        let idx = (row * ts_cols + col) as usize;
        if idx < tile_ids.len() {
            let lid = tile_ids[idx];
            self.selected_gid = first_gid + lid;
        }
    }
}

} // verus!
