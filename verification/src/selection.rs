//! Making, combining, dismissing and restoring the tile selection.

use std::collections::BTreeSet;
use vstd::prelude::*;
use crate::cellset::{intersection_of, signed_cells, subtract_from, to_signed_cells, union_into};
use crate::document::{LayerKindView, doc_wf, is_tile_layer, tile_view};
use crate::editor::{
    EditorState, EditorView, Status, TileSelectionMode, UndoActionKind, clone_cells,
};
use crate::flood::{component, magic_wand_cells, matching_cells, same_tile_cells};
use crate::layer::TileLayerView;
use crate::region::{
    TileSelectionRegion, bounding_region, selection_cells_from_region, selection_region_from_cells,
};

verus! {

broadcast use {vstd::std_specs::btree::group_btree_axioms, vstd::laws_cmp::group_laws_cmp};

/// The selection after combining the current one with `cells`.
pub open spec fn merged_selection(
    mode: TileSelectionMode,
    existing: Option<Set<(i32, i32)>>,
    cells: Set<(i32, i32)>,
) -> Set<(i32, i32)> {
    let ex = match existing {
        Some(e) => e,
        None => Set::empty(),
    };
    match mode {
        TileSelectionMode::Replace => cells,
        TileSelectionMode::Add => ex.union(cells),
        TileSelectionMode::Subtract => ex.difference(cells),
        TileSelectionMode::Intersect => ex.intersect(cells),
    }
}

/// The tile layer the editor works on, when the active layer holds tiles.
pub open spec fn active_tile_layer(s: EditorView) -> Option<TileLayerView> {
    match s.session {
        Some(ss) => if is_tile_layer(ss.document, s.active_layer as int) {
            Some(tile_view(ss.document, s.active_layer as int))
        } else {
            None
        },
        None => None,
    }
}

/// The tile under `(x, y)`, 0 outside the layer.
pub open spec fn tile_or_empty(t: TileLayerView, x: u32, y: u32) -> u32 {
    if t.in_bounds(x as int, y as int) {
        t.tile(x as int, y as int)
    } else {
        0
    }
}

impl EditorView {
    /// The state after the selection becomes `merged`, recorded as one
    /// selection change.
    pub open spec fn with_selection_change(self, merged: Set<(i32, i32)>) -> EditorView {
        EditorView {
            selection_undo: self.selection_undo.push(self.selection_cells),
            selection_redo: Seq::empty(),
            undo_order: self.undo_order.push(UndoActionKind::SelectionChange),
            redo_order: Seq::empty(),
            selection: bounding_region(merged),
            selection_cells: if merged.is_empty() {
                None
            } else {
                Some(merged)
            },
            preview: None,
            preview_cells: None,
            canvas_dirty: true,
            ..self
        }
    }

    /// The state after a new selection `cells` is combined with the current
    /// one in the current mode.
    pub open spec fn after_select(self, cells: Set<(i32, i32)>) -> EditorView {
        self.with_selection_change(merged_selection(self.tile_selection_mode, self.selection_cells, cells))
    }

    /// The state after the selection is dismissed and the dismissal
    /// recorded for undo.
    pub open spec fn after_dismiss(self) -> EditorView {
        EditorView {
            selection_undo: self.selection_undo.push(self.selection_cells),
            selection_redo: Seq::empty(),
            undo_order: self.undo_order.push(UndoActionKind::SelectionChange),
            redo_order: Seq::empty(),
            selection: None,
            selection_cells: None,
            preview: None,
            preview_cells: None,
            last_tap_at: None,
            transfer: None,
            canvas_dirty: true,
            status: Status::SelectionCleared,
            ..self
        }
    }

    /// The state after the selection is dropped without an undo step.
    pub open spec fn without_selection(self) -> EditorView {
        EditorView {
            last_tap_at: None,
            preview: None,
            preview_cells: None,
            selection: None,
            selection_cells: None,
            transfer: None,
            canvas_dirty: true,
            ..self
        }
    }

    /// The state with every preview and closing animation dropped.
    pub open spec fn without_previews(self) -> EditorView {
        EditorView {
            preview: None,
            preview_cells: None,
            closing: None,
            closing_cells: None,
            closing_started_at: None,
            last_tap_at: None,
            canvas_dirty: true,
            ..self
        }
    }

    /// The state with the selection put back to `cells`.
    pub open spec fn with_restored_selection(self, cells: Option<Set<(i32, i32)>>) -> EditorView {
        EditorView {
            selection: match cells {
                Some(c) => bounding_region(c),
                None => None,
            },
            selection_cells: cells,
            preview: None,
            preview_cells: None,
            last_tap_at: None,
            transfer: None,
            canvas_dirty: true,
            ..self
        }
    }
}

/// Window within which a second tap on the selection dismisses it.
pub const DOUBLE_TAP_WINDOW_MS: u64 = 320;

/// What a tap at `(x, y)` at time `now_ms` does to the selection: whether
/// the tap was consumed, and the state after it.
pub open spec fn tap_outcome(s: EditorView, x: u32, y: u32, now_ms: u64) -> (bool, EditorView) {
    match s.selection_cells {
        None => (false, s),
        Some(cells) => {
            if cells.contains((x as i32, y as i32)) {
                if s.last_tap_at matches Some(t) && (if now_ms >= t { now_ms - t } else { 0 })
                    < DOUBLE_TAP_WINDOW_MS {
                    (true, s.after_dismiss())
                } else {
                    (
                        s.tile_selection_mode == TileSelectionMode::Replace,
                        EditorView { last_tap_at: Some(now_ms), ..s },
                    )
                }
            } else if s.tile_selection_mode == TileSelectionMode::Replace {
                (true, s.after_dismiss())
            } else {
                (false, s)
            }
        },
    }
}

impl EditorState {
    /// Makes `cells` the new selection, combined with the current one in
    /// the current selection mode, and records the change for undo.
    pub fn set_tile_selection(&mut self, cells: BTreeSet<(i32, i32)>)
        ensures
            final(self)@ == old(self)@.after_select(cells@),
    {
        let ghost before = self@;
        let previous = clone_cells(&self.tile_selection_cells);
        self.selection_undo_stack.push(previous);
        self.selection_redo_stack = Vec::new();
        self.undo_action_order.push(UndoActionKind::SelectionChange);
        self.redo_action_order = Vec::new();
        let merged = match self.tile_selection_mode {
            TileSelectionMode::Replace => cells,
            TileSelectionMode::Add => {
                let mut merged = match &self.tile_selection_cells {
                    Some(e) => e.clone(),
                    None => BTreeSet::new(),
                };
                union_into(&mut merged, &cells);
                merged
            },
            TileSelectionMode::Subtract => {
                let mut existing = match &self.tile_selection_cells {
                    Some(e) => e.clone(),
                    None => BTreeSet::new(),
                };
                subtract_from(&mut existing, &cells);
                existing
            },
            TileSelectionMode::Intersect => {
                let existing = match &self.tile_selection_cells {
                    Some(e) => e.clone(),
                    None => BTreeSet::new(),
                };
                intersection_of(&existing, &cells)
            },
        };
        proof {
            assert(merged@ =~= merged_selection(before.tile_selection_mode, before.selection_cells, cells@));
        }
        if merged.is_empty() {
            self.tile_selection = None;
            self.tile_selection_cells = None;
            proof {
                assert(bounding_region(merged@) is None);
            }
        } else {
            self.tile_selection = selection_region_from_cells(&merged);
            self.tile_selection_cells = Some(merged);
        }
        self.tile_selection_preview = None;
        self.tile_selection_preview_cells = None;
        self.canvas_dirty = true;
        proof {
            assert(self@.selection_undo =~= before.selection_undo.push(before.selection_cells));
            assert(self@.selection_redo =~= Seq::<Option<Set<(i32, i32)>>>::empty());
            assert(self@.undo_order =~= before.undo_order.push(UndoActionKind::SelectionChange));
            assert(self@.redo_order =~= Seq::<UndoActionKind>::empty());
        }
    }
}


/// Width and height of the rectangle spanned by two corners.
pub open spec fn span(a: i32, b: i32) -> int {
    if a <= b {
        b - a + 1
    } else {
        a - b + 1
    }
}

/// The cells that the magic wand picks at `(x, y)` on `t`.
pub open spec fn wand_selection(t: TileLayerView, x: u32, y: u32) -> Set<(i32, i32)> {
    signed_cells(component(t, tile_or_empty(t, x, y), (x, y)))
}

/// The cells holding the same tile as `(x, y)` on `t`.
pub open spec fn same_tile_selection(t: TileLayerView, x: u32, y: u32) -> Set<(i32, i32)> {
    signed_cells(matching_cells(t, tile_or_empty(t, x, y)))
}

impl EditorState {
    /// Selects the rectangle between two corners, combined with the
    /// current selection in the current mode.
    pub fn select_tile_region(&mut self, start_x: i32, start_y: i32, end_x: i32, end_y: i32)
        requires
            i32::MIN <= start_x - end_x <= i32::MAX,
            i32::MIN <= start_y - end_y <= i32::MAX,
        ensures
            final(self)@ == old(self)@.after_select(
                (TileSelectionRegion { start_cell: (start_x, start_y), end_cell: (end_x, end_y) }).cell_set(),
            ).with_status(Status::SelectedRegion(span(start_x, end_x) as u32, span(start_y, end_y) as u32)),
    {
        let region = TileSelectionRegion { start_cell: (start_x, start_y), end_cell: (end_x, end_y) };
        let cells = selection_cells_from_region(region);
        self.set_tile_selection(cells);
        let dx: i64 = start_x as i64 - end_x as i64;
        let dy: i64 = start_y as i64 - end_y as i64;
        let w: u32 = (if dx < 0 {
            -dx
        } else {
            dx
        }) as u32 + 1;
        let h: u32 = (if dy < 0 {
            -dy
        } else {
            dy
        }) as u32 + 1;
        self.status = Status::SelectedRegion(w, h);
    }

    /// Selects the four-connected region of equal tiles around `(x, y)` on
    /// the active tile layer; does nothing when there is none.
    pub fn apply_magic_wand_selection(&mut self, x: u32, y: u32)
        requires
            old(self)@.wf(),
        ensures
            match active_tile_layer(old(self)@) {
                None => final(self)@ == old(self)@,
                Some(t) => final(self)@ == old(self)@.after_select(wand_selection(t, x, y)).with_status(
                    Status::MagicWandSelected(wand_selection(t, x, y).len() as usize),
                ),
            },
    {
        let cells = match &self.session {
            None => {
                return;
            },
            Some(session) => match session.document().tile_layer(self.active_layer) {
                None => {
                    return;
                },
                Some(layer) => {
                    proof {
                        let doc = session@.document;
                        assert(doc_wf(doc));
                        assert(match doc[self.active_layer as int].kind {
                            LayerKindView::Tile(t) => t.wf(),
                            LayerKindView::Object(_) => true,
                        });
                    }
                    let target = match layer.tile_at(x, y) {
                        Some(g) => g,
                        None => 0,
                    };
                    let found = magic_wand_cells(layer, x, y, target);
                    to_signed_cells(&found)
                },
            },
        };
        let count = cells.len();
        self.set_tile_selection(cells);
        self.status = Status::MagicWandSelected(count);
    }

    /// Selects every cell of the active tile layer holding the same tile as
    /// `(x, y)`; does nothing when there is no active tile layer.
    pub fn apply_select_same_tile_selection(&mut self, x: u32, y: u32)
        requires
            old(self)@.wf(),
        ensures
            match active_tile_layer(old(self)@) {
                None => final(self)@ == old(self)@,
                Some(t) => final(self)@ == old(self)@.after_select(same_tile_selection(t, x, y)).with_status(
                    Status::SelectedSameTiles(same_tile_selection(t, x, y).len() as usize),
                ),
            },
    {
        let cells = match &self.session {
            None => {
                return;
            },
            Some(session) => match session.document().tile_layer(self.active_layer) {
                None => {
                    return;
                },
                Some(layer) => {
                    proof {
                        let doc = session@.document;
                        assert(doc_wf(doc));
                        assert(match doc[self.active_layer as int].kind {
                            LayerKindView::Tile(t) => t.wf(),
                            LayerKindView::Object(_) => true,
                        });
                    }
                    let target = match layer.tile_at(x, y) {
                        Some(g) => g,
                        None => 0,
                    };
                    let found = same_tile_cells(layer, target);
                    to_signed_cells(&found)
                },
            },
        };
        let count = cells.len();
        self.set_tile_selection(cells);
        self.status = Status::SelectedSameTiles(count);
    }

    /// Clears the selection and records the clearing for undo.
    pub fn dismiss_selection(&mut self)
        ensures
            final(self)@ == old(self)@.after_dismiss(),
    {
        let ghost before = self@;
        let previous = clone_cells(&self.tile_selection_cells);
        self.selection_undo_stack.push(previous);
        self.selection_redo_stack = Vec::new();
        self.undo_action_order.push(UndoActionKind::SelectionChange);
        self.redo_action_order = Vec::new();
        self.tile_selection = None;
        self.tile_selection_cells = None;
        self.tile_selection_preview = None;
        self.tile_selection_preview_cells = None;
        self.tile_selection_last_tap_at = None;
        self.tile_selection_transfer = None;
        self.canvas_dirty = true;
        self.status = Status::SelectionCleared;
        proof {
            assert(self@.selection_undo =~= before.selection_undo.push(before.selection_cells));
            assert(self@.selection_redo =~= Seq::<Option<Set<(i32, i32)>>>::empty());
            assert(self@.undo_order =~= before.undo_order.push(UndoActionKind::SelectionChange));
            assert(self@.redo_order =~= Seq::<UndoActionKind>::empty());
        }
    }

    /// Handles a tap at `(x, y)` at time `now_ms` against the selection: a
    /// second tap inside it within the double-tap window, or a tap outside
    /// it in replace mode, clears it. Tells whether the tap was consumed.
    pub fn try_dismiss_selection(&mut self, x: u32, y: u32, now_ms: u64) -> (consumed: bool)
        ensures
            (consumed, final(self)@) == tap_outcome(old(self)@, x, y, now_ms),
    {
        let inside = match &self.tile_selection_cells {
            None => {
                return false;
            },
            Some(cells) => cells.contains(&(x as i32, y as i32)),
        };
        if inside {
            if let Some(last) = self.tile_selection_last_tap_at {
                let elapsed = if now_ms >= last {
                    now_ms - last
                } else {
                    0
                };
                if elapsed < DOUBLE_TAP_WINDOW_MS {
                    self.dismiss_selection();
                    return true;
                }
            }
            self.tile_selection_last_tap_at = Some(now_ms);
            self.tile_selection_mode == TileSelectionMode::Replace
        } else {
            if self.tile_selection_mode == TileSelectionMode::Replace {
                self.dismiss_selection();
                return true;
            }
            false
        }
    }

    /// Drops the selection, its preview and any floating selection without
    /// recording an undo step.
    pub fn dismiss_tile_selection(&mut self)
        ensures
            final(self)@ == old(self)@.without_selection(),
    {
        self.tile_selection_last_tap_at = None;
        self.tile_selection_preview = None;
        self.tile_selection_preview_cells = None;
        self.tile_selection = None;
        self.tile_selection_cells = None;
        self.tile_selection_transfer = None;
        self.canvas_dirty = true;
    }

    /// Drops every selection preview and closing animation.
    pub fn clear_preview_state(&mut self)
        ensures
            final(self)@ == old(self)@.without_previews(),
    {
        self.tile_selection_preview = None;
        self.tile_selection_preview_cells = None;
        self.tile_selection_closing = None;
        self.tile_selection_closing_cells = None;
        self.tile_selection_closing_started_at = None;
        self.tile_selection_last_tap_at = None;
        self.canvas_dirty = true;
    }
}

} // verus!
