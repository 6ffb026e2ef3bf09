//! Copy, cut, move, place and delete of the tile selection, and turning
//! it over, both while it floats above the map and in place.

use std::collections::BTreeSet;
use vstd::prelude::*;
use crate::document::{tile_layer_status, tile_view, with_tiles};
use crate::editor::{
    ClipboardView, EditorState, EditorView, Status, TileClipboard, TileSelectionTransfer,
    TileSelectionTransferMode, TransferView, UndoActionKind,
};
use crate::grid::{GridTransform, lemma_padded_full, transform_dims, transform_mask, transform_seq, transform_tiles};
use crate::history::{SessionView, clear_outcome, transform_outcome, write_outcome};
use crate::layer::{EditorError, TileLayerView, capture_region_clipped};
use crate::region::{
    TileSelectionRegion, bounding_region, mask_cell_set, region_mask, selection_bounds,
    selection_cells_from_mask, selection_dimensions, selection_mask_from_cells,
    selection_region_from_cells,
};
use crate::selection::active_tile_layer;

verus! {

broadcast use {vstd::std_specs::btree::group_btree_axioms, vstd::laws_cmp::group_laws_cmp};

/// A `w`×`h` rectangle at `(min_x, min_y)` whose cells, masks and grids
/// stay within the ranges of cell coordinates and grid sizes.
pub open spec fn span_fits(min_x: int, min_y: int, w: int, h: int) -> bool {
    &&& 0 <= w <= i32::MAX
    &&& 0 <= h <= i32::MAX
    &&& w * h <= u32::MAX
    &&& min_x + w <= i32::MAX + 1
    &&& min_y + h <= i32::MAX + 1
}

/// A selection rectangle that can be lifted, masked and turned over.
pub open spec fn region_fits(r: TileSelectionRegion) -> bool {
    let (min_x, min_y, _, _) = r.bounds();
    span_fits(min_x as int, min_y as int, r.width(), r.height()) && span_fits(
        min_x as int,
        min_y as int,
        r.height(),
        r.width(),
    )
}

/// Whether a `w`×`h` rectangle at `(min_x, min_y)` fits.
pub fn check_span(min_x: i32, min_y: i32, w: u32, h: u32) -> (b: bool)
    ensures
        b == span_fits(min_x as int, min_y as int, w as int, h as int),
{
    if w > 0x7fff_ffff || h > 0x7fff_ffff {
        return false;
    }
    assert(w as u64 * h as u64 <= 0x7fff_ffff * 0x7fff_ffff) by (nonlinear_arith)
        requires
            w <= 0x7fff_ffff,
            h <= 0x7fff_ffff,
    ;
    let area: u64 = w as u64 * h as u64;
    area <= 0xffff_ffff && min_x as i64 + w as i64 <= 0x8000_0000 && min_y as i64 + h as i64
        <= 0x8000_0000
}

/// Whether a selection rectangle fits.
pub fn check_region(r: &TileSelectionRegion) -> (b: bool)
    ensures
        b == region_fits(*r),
{
    let (min_x, min_y, max_x, max_y) = selection_bounds(r);
    let w: i64 = max_x as i64 - min_x as i64 + 1;
    let h: i64 = max_y as i64 - min_y as i64 + 1;
    if w > 0x7fff_ffff || h > 0x7fff_ffff {
        return false;
    }
    check_span(min_x, min_y, w as u32, h as u32) && check_span(min_x, min_y, h as u32, w as u32)
}

impl TransferView {
    /// The floating grid and its mask hold one entry per cell, and their
    /// size stays within the ranges of grid sizes.
    pub open spec fn wf(self) -> bool {
        &&& self.tiles.len() == self.width * self.height
        &&& self.mask.len() == self.width * self.height
        &&& self.width * self.height <= u32::MAX
        &&& self.width <= i32::MAX
        &&& self.height <= i32::MAX
    }
}

/// The clipboard content of a floating selection.
pub open spec fn clipboard_of(t: TransferView) -> ClipboardView {
    ClipboardView { width: t.width, height: t.height, tiles: t.tiles, mask: t.mask }
}

/// The floating selection lifted from region `r` with cells `c` of the
/// tile layer `t`, which is layer `layer` of the document.
pub open spec fn lifted(
    layer: usize,
    r: TileSelectionRegion,
    c: Set<(i32, i32)>,
    t: TileLayerView,
    mode: TileSelectionTransferMode,
) -> TransferView {
    let (min_x, min_y, _, _) = r.bounds();
    TransferView {
        source_layer: layer,
        source_selection: r,
        source_mask: region_mask(r, c),
        width: r.width() as u32,
        height: r.height() as u32,
        tiles: t.capture(min_x as int, min_y as int, r.width(), r.height()),
        mask: region_mask(r, c),
        mode,
    }
}

impl EditorView {
    /// The selection the editor acts on: its rectangle and cells, with the
    /// active tile layer they lie on.
    pub open spec fn selected_region(self) -> Option<(TileSelectionRegion, Set<(i32, i32)>, TileLayerView)> {
        match self.selection {
            Some(r) => match self.selection_cells {
                Some(c) => match active_tile_layer(self) {
                    Some(t) => Some((r, c, t)),
                    None => None,
                },
                None => None,
            },
            None => None,
        }
    }

    /// The state after a document edit that became the session `next` and
    /// is recorded as one document step of the shared history.
    pub open spec fn recorded_edit(self, next: SessionView) -> EditorView {
        EditorView {
            session: Some(next),
            canvas_dirty: true,
            tiles_dirty: true,
            undo_order: self.undo_order.push(UndoActionKind::DocumentEdit),
            redo_order: Seq::empty(),
            selection_redo: Seq::empty(),
            ..self
        }
    }

    /// Writing the floating selection at the selection's corner on the
    /// active layer, as a recorded edit: whether it was written, and the
    /// state after.
    pub open spec fn transfer_copied(self) -> (bool, EditorView) {
        match (self.transfer, self.selection, self.session) {
            (Some(t), Some(sel), Some(ss)) => {
                let (min_x, min_y, _, _) = sel.bounds();
                let i = self.active_layer as int;
                if !span_fits(min_x as int, min_y as int, t.width as int, t.height as int) {
                    (false, self)
                } else {
                    match write_outcome(
                        ss.document,
                        i,
                        min_x as int,
                        min_y as int,
                        t.width as int,
                        t.height as int,
                        t.tiles,
                        Some(t.mask),
                    ) {
                        Ok(lt) => (true, self.recorded_edit(ss.after_edit(with_tiles(ss.document, i, lt)))),
                        Err(_) => (false, self),
                    }
                }
            },
            _ => (false, self),
        }
    }

    /// The state after Copy: a floating selection is stamped again at its
    /// current place; otherwise the selection is lifted as a floating copy
    /// and put on the clipboard.
    pub open spec fn after_copy(self) -> EditorView {
        match self.transfer {
            Some(t) => {
                let (placed, s) = self.transfer_copied();
                if placed {
                    s.with_status(Status::CopiedAtCurrentPosition(t.width, t.height))
                } else {
                    s
                }
            },
            None => match self.selected_region() {
                None => self,
                Some((r, c, t)) => if !region_fits(r) {
                    self.with_status(Status::SelectionTooLarge)
                } else {
                    let tr = lifted(self.active_layer, r, c, t, TileSelectionTransferMode::Copy);
                    EditorView {
                        clipboard: Some(clipboard_of(tr)),
                        transfer: Some(tr),
                        ..self
                    }.without_previews().with_status(Status::CopiedRegion(tr.width, tr.height))
                },
            },
        }
    }
}

impl EditorState {
    /// The selection's rectangle and cells when the active layer holds
    /// tiles.
    fn selected_tile_selection(&self) -> (r: Option<(TileSelectionRegion, BTreeSet<(i32, i32)>)>)
        requires
            self@.wf(),
        ensures
            match r {
                Some((reg, c)) => self@.selected_region() matches Some((reg2, c2, _)) && reg == reg2
                    && c@ == c2,
                None => self@.selected_region() is None,
            },
    {
        let selection = match self.tile_selection {
            Some(s) => s,
            None => {
                return None;
            },
        };
        let cells = match &self.tile_selection_cells {
            Some(c) => c.clone(),
            None => {
                return None;
            },
        };
        let is_tile = match &self.session {
            Some(session) => session.document().tile_layer(self.active_layer).is_some(),
            None => false,
        };
        if is_tile {
            Some((selection, cells))
        } else {
            None
        }
    }

    /// Lifts the selection as a floating copy, with its clipboard content;
    /// `None` when there is no selection on a tile layer or it is too large.
    fn capture_tile_selection_transfer(&self) -> (r: Option<(TileSelectionTransfer, TileClipboard)>)
        requires
            self@.wf(),
        ensures
            match r {
                Some((tr, cb)) => self@.selected_region() matches Some((reg, c, t)) && region_fits(reg)
                    && tr@ == lifted(self.active_layer, reg, c, t, TileSelectionTransferMode::Copy)
                    && cb@ == clipboard_of(tr@) && tr@.wf(),
                None => self@.selected_region() is None || (self@.selected_region() matches Some(
                    (reg, _, _),
                ) && !region_fits(reg)),
            },
    {
        let (selection, cells) = match self.selected_tile_selection() {
            Some(p) => p,
            None => {
                return None;
            },
        };
        if !check_region(&selection) {
            return None;
        }
        let layer = match &self.session {
            Some(session) => match session.document().tile_layer(self.active_layer) {
                Some(l) => l,
                None => {
                    return None;
                },
            },
            None => {
                return None;
            },
        };
        proof {
            let doc = self@.session->Some_0.document;
            assert(crate::document::doc_wf(doc));
            assert(match doc[self.active_layer as int].kind {
                crate::document::LayerKindView::Tile(t) => t.wf(),
                crate::document::LayerKindView::Object(_) => true,
            });
        }
        let (min_x, min_y, _, _) = selection_bounds(&selection);
        let (width, height) = selection_dimensions(&selection);
        let mask = selection_mask_from_cells(&selection, &cells);
        let tiles = capture_region_clipped(layer, min_x, min_y, width, height);
        let transfer = TileSelectionTransfer {
            source_layer: self.active_layer,
            source_selection: selection,
            source_mask: mask.clone(),
            width,
            height,
            tiles: tiles.clone(),
            mask: mask.clone(),
            mode: TileSelectionTransferMode::Copy,
        };
        let clipboard = TileClipboard { width, height, tiles, mask };
        Some((transfer, clipboard))
    }
}

impl EditorState {
    /// Notes a recorded document edit in the shared history.
    fn note_recorded_edit(&mut self)
        ensures
            final(self)@ == (EditorView {
                canvas_dirty: true,
                tiles_dirty: true,
                undo_order: old(self)@.undo_order.push(UndoActionKind::DocumentEdit),
                redo_order: Seq::empty(),
                selection_redo: Seq::empty(),
                ..old(self)@
            }),
    {
        self.canvas_dirty = true;
        self.tiles_dirty = true;
        self.undo_action_order.push(UndoActionKind::DocumentEdit);
        self.redo_action_order = Vec::new();
        self.selection_redo_stack = Vec::new();
        proof {
            assert(self@.redo_order =~= Seq::<UndoActionKind>::empty());
            assert(self@.selection_redo =~= Seq::<Option<Set<(i32, i32)>>>::empty());
        }
    }

    /// Stamps the floating selection at the selection's corner on the
    /// active layer as one recorded edit; tells whether it was written.
    pub fn apply_transfer_copy(&mut self) -> (placed: bool)
        requires
            old(self)@.wf(),
        ensures
            final(self)@.wf(),
            (placed, final(self)@) == old(self)@.transfer_copied(),
    {
        let selection = match self.tile_selection {
            Some(s) => s,
            None => {
                return false;
            },
        };
        let layer = self.active_layer;
        let (min_x, min_y, _, _) = selection_bounds(&selection);
        let r = match &self.tile_selection_transfer {
            None => {
                return false;
            },
            Some(t) => {
                if !check_span(min_x, min_y, t.width, t.height) {
                    return false;
                }
                match &mut self.session {
                    None => {
                        return false;
                    },
                    Some(session) => session.write_region(
                        layer,
                        min_x,
                        min_y,
                        t.width,
                        t.height,
                        t.tiles.as_slice(),
                        Some(t.mask.as_slice()),
                    ),
                }
            },
        };
        match r {
            Ok(()) => {
                self.note_recorded_edit();
                true
            },
            Err(_) => false,
        }
    }

    /// Copy: stamps a floating selection again where it is; otherwise
    /// lifts the selection as a floating copy and puts it on the clipboard.
    pub fn copy_tile_selection(&mut self)
        requires
            old(self)@.wf(),
        ensures
            final(self)@.wf(),
            final(self)@ == old(self)@.after_copy(),
    {
        if self.tile_selection_transfer.is_some() {
            let placed = self.apply_transfer_copy();
            if placed {
                match &self.tile_selection_transfer {
                    Some(t) => {
                        self.status = Status::CopiedAtCurrentPosition(t.width, t.height);
                    },
                    None => {},
                }
            }
            return;
        }
        match self.selected_tile_selection() {
            None => {
                return;
            },
            Some((selection, _)) => {
                if !check_region(&selection) {
                    self.status = Status::SelectionTooLarge;
                    return;
                }
            },
        }
        let (transfer, clipboard) = match self.capture_tile_selection_transfer() {
            Some(p) => p,
            None => {
                return;
            },
        };
        let (w, h) = (transfer.width, transfer.height);
        self.tile_clipboard = Some(clipboard);
        self.tile_selection_transfer = Some(transfer);
        self.clear_preview_state();
        self.status = Status::CopiedRegion(w, h);
    }
}

impl EditorView {
    /// The state after Cut: a floating copy becomes a cut by emptying its
    /// source cells; otherwise the selection is lifted, its cells emptied,
    /// and it floats as a cut. The emptying opens a history batch that the
    /// later place or cancel closes; a refused emptying closes it at once.
    pub open spec fn after_cut(self) -> EditorView {
        match self.transfer {
            Some(t) => if t.mode == TileSelectionTransferMode::Cut {
                self.with_status(Status::AlreadyCutMode)
            } else {
                match self.session {
                    None => self.with_status(Status::NoMapLoaded),
                    Some(ss) => {
                        let (min_x, min_y, _, _) = t.source_selection.bounds();
                        let i = t.source_layer as int;
                        let b = ss.begun();
                        if !span_fits(min_x as int, min_y as int, t.width as int, t.height as int) {
                            self.with_status(Status::SelectionTooLarge)
                        } else {
                            match clear_outcome(
                                b.document,
                                i,
                                min_x as int,
                                min_y as int,
                                t.width as int,
                                t.height as int,
                                t.source_mask,
                            ) {
                                Ok(lt) => EditorView {
                                    session: Some(b.after_edit(with_tiles(b.document, i, lt))),
                                    canvas_dirty: true,
                                    tiles_dirty: true,
                                    transfer: Some(TransferView { mode: TileSelectionTransferMode::Cut, ..t }),
                                    status: Status::CutConverted(t.width, t.height),
                                    ..self
                                },
                                Err(e) => EditorView {
                                    session: Some(b.aborted()),
                                    status: Status::CutFailed(e),
                                    ..self
                                },
                            }
                        }
                    },
                }
            },
            None => match (self.selected_region(), self.session) {
                (Some((r, c, lt)), Some(ss)) => if !region_fits(r) {
                    self.with_status(Status::SelectionTooLarge)
                } else {
                    let tr = lifted(self.active_layer, r, c, lt, TileSelectionTransferMode::Copy);
                    let (min_x, min_y, _, _) = r.bounds();
                    let i = self.active_layer as int;
                    let b = ss.begun();
                    match clear_outcome(
                        b.document,
                        i,
                        min_x as int,
                        min_y as int,
                        tr.width as int,
                        tr.height as int,
                        tr.source_mask,
                    ) {
                        Ok(nt) => EditorView {
                            session: Some(b.after_edit(with_tiles(b.document, i, nt))),
                            canvas_dirty: true,
                            tiles_dirty: true,
                            clipboard: Some(clipboard_of(tr)),
                            transfer: Some(TransferView { mode: TileSelectionTransferMode::Cut, ..tr }),
                            ..self
                        }.without_previews().with_status(Status::CutRegion(tr.width, tr.height)),
                        Err(e) => EditorView { session: Some(b.aborted()), status: Status::CutFailed(e), ..self },
                    }
                },
                _ => self,
            },
        }
    }
}

impl EditorState {
    /// Cut: empties the selection's cells and lets it float as a cut, or
    /// turns a floating copy into a cut.
    pub fn cut_tile_selection(&mut self)
        requires
            old(self)@.wf(),
        ensures
            final(self)@.wf(),
            final(self)@ == old(self)@.after_cut(),
    {
        let ghost before = self@;
        if self.tile_selection_transfer.is_some() {
            let r = match &self.tile_selection_transfer {
                None => {
                    return;
                },
                Some(t) => {
                    if t.mode == TileSelectionTransferMode::Cut {
                        self.status = Status::AlreadyCutMode;
                        return;
                    }
                    let (min_x, min_y, _, _) = selection_bounds(&t.source_selection);
                    match &mut self.session {
                        None => {
                            self.status = Status::NoMapLoaded;
                            return;
                        },
                        Some(session) => {
                            if !check_span(min_x, min_y, t.width, t.height) {
                                self.status = Status::SelectionTooLarge;
                                return;
                            }
                            session.begin_history_batch();
                            let r = session.clear_region(
                                t.source_layer,
                                min_x,
                                min_y,
                                t.width,
                                t.height,
                                t.source_mask.as_slice(),
                            );
                            if r.is_err() {
                                session.abort_history_batch();
                            }
                            r
                        },
                    }
                },
            };
            match r {
                Ok(()) => {
                    self.canvas_dirty = true;
                    self.tiles_dirty = true;
                    let (w, h) = match &mut self.tile_selection_transfer {
                        Some(t) => {
                            t.mode = TileSelectionTransferMode::Cut;
                            (t.width, t.height)
                        },
                        None => (0, 0),
                    };
                    self.status = Status::CutConverted(w, h);
                },
                Err(e) => {
                    self.status = Status::CutFailed(e);
                },
            }
            return;
        }
        match self.selected_tile_selection() {
            None => {
                return;
            },
            Some((selection, _)) => {
                if !check_region(&selection) {
                    self.status = Status::SelectionTooLarge;
                    return;
                }
            },
        }
        let (transfer, clipboard) = match self.capture_tile_selection_transfer() {
            Some(p) => p,
            None => {
                return;
            },
        };
        let (min_x, min_y, _, _) = selection_bounds(&transfer.source_selection);
        let (w, h) = (transfer.width, transfer.height);
        let r = match &mut self.session {
            None => {
                return;
            },
            Some(session) => {
                session.begin_history_batch();
                let r = session.clear_region(
                    transfer.source_layer,
                    min_x,
                    min_y,
                    w,
                    h,
                    transfer.source_mask.as_slice(),
                );
                if r.is_err() {
                    session.abort_history_batch();
                }
                r
            },
        };
        match r {
            Ok(()) => {
                self.canvas_dirty = true;
                self.tiles_dirty = true;
                self.tile_clipboard = Some(clipboard);
                self.tile_selection_transfer = Some(
                    TileSelectionTransfer { mode: TileSelectionTransferMode::Cut, ..transfer },
                );
                self.clear_preview_state();
                self.status = Status::CutRegion(w, h);
            },
            Err(e) => {
                self.status = Status::CutFailed(e);
            },
        }
    }
}

impl EditorView {
    /// The state after the floating selection is given up and its source
    /// deleted: a cut's source is already empty and its batch is dropped
    /// from the history; a copy's source cells are emptied as a recorded
    /// edit. The selection is dropped either way.
    pub open spec fn after_transfer_deleted(self) -> EditorView {
        match self.transfer {
            None => self,
            Some(t) => {
                let s1 = EditorView { transfer: None, ..self };
                let s2 = if t.mode == TileSelectionTransferMode::Cut {
                    EditorView {
                        session: match self.session {
                            Some(ss) => Some(ss.aborted()),
                            None => None,
                        },
                        canvas_dirty: true,
                        tiles_dirty: true,
                        ..s1
                    }
                } else {
                    match self.session {
                        None => s1,
                        Some(ss) => {
                            let (min_x, min_y, _, _) = t.source_selection.bounds();
                            let i = t.source_layer as int;
                            if !span_fits(min_x as int, min_y as int, t.width as int, t.height as int) {
                                s1
                            } else {
                                match clear_outcome(
                                    ss.document,
                                    i,
                                    min_x as int,
                                    min_y as int,
                                    t.width as int,
                                    t.height as int,
                                    t.source_mask,
                                ) {
                                    Ok(lt) => s1.recorded_edit(ss.after_edit(with_tiles(ss.document, i, lt))),
                                    Err(_) => s1,
                                }
                            }
                        },
                    }
                };
                EditorView {
                    selection: None,
                    selection_cells: None,
                    preview: None,
                    preview_cells: None,
                    status: Status::DeletedSourceAndExited,
                    ..s2
                }
            },
        }
    }

    /// The state after Delete: a floating selection is given up with its
    /// source; otherwise the selected cells are emptied as a recorded edit
    /// and the selection is dropped.
    pub open spec fn after_delete(self) -> EditorView {
        match self.transfer {
            Some(_) => self.after_transfer_deleted(),
            None => match (self.selected_region(), self.session) {
                (Some((r, c, _)), Some(ss)) => if !region_fits(r) {
                    self.with_status(Status::SelectionTooLarge)
                } else {
                    let (min_x, min_y, _, _) = r.bounds();
                    let i = self.active_layer as int;
                    match clear_outcome(
                        ss.document,
                        i,
                        min_x as int,
                        min_y as int,
                        r.width(),
                        r.height(),
                        region_mask(r, c),
                    ) {
                        Ok(lt) => self.recorded_edit(
                            ss.after_edit(with_tiles(ss.document, i, lt)),
                        ).without_selection().with_status(Status::ClearedSelectedRegion),
                        Err(e) => self.with_status(Status::DeleteFailed(e)),
                    }
                },
                _ => self.with_status(Status::SelectTileRegionFirst),
            },
        }
    }

    /// The state after the floating selection is canceled: a cut writes
    /// its tiles back into the emptied source cells and drops its batch
    /// from the history; the selection is dropped either way.
    pub open spec fn after_cancel(self) -> EditorView {
        match self.transfer {
            None => self,
            Some(t) => if t.mode == TileSelectionTransferMode::Cut {
                match self.session {
                    None => EditorView { transfer: None, ..self },
                    Some(ss) => {
                        let (min_x, min_y, _, _) = t.source_selection.bounds();
                        let i = t.source_layer as int;
                        let (restored, ok) = if span_fits(
                            min_x as int,
                            min_y as int,
                            t.width as int,
                            t.height as int,
                        ) {
                            match write_outcome(
                                ss.document,
                                i,
                                min_x as int,
                                min_y as int,
                                t.width as int,
                                t.height as int,
                                t.tiles,
                                Some(t.source_mask),
                            ) {
                                Ok(lt) => (ss.after_edit(with_tiles(ss.document, i, lt)), true),
                                Err(_) => (ss, false),
                            }
                        } else {
                            (ss, false)
                        };
                        let s1 = EditorView {
                            session: Some(restored.aborted()),
                            canvas_dirty: true,
                            tiles_dirty: true,
                            ..self
                        };
                        let s2 = if ok {
                            s1
                        } else {
                            s1.with_status(Status::CancelRestoreFailed)
                        };
                        s2.without_selection()
                    },
                }
            } else {
                self.without_selection()
            },
        }
    }

    /// The state after Place: the floating selection is written at the
    /// selection's corner on the active layer as a recorded edit (closing
    /// a cut's batch), and the written cells become the selection. On
    /// another layer than its source, the move is canceled instead.
    pub open spec fn after_place(self) -> EditorView {
        match self.transfer {
            None => self.with_status(Status::NothingToPlace),
            Some(t) => match self.selection {
                None => self.with_status(Status::MoveSelectionBeforePlacing),
                Some(sel) => if t.source_layer != self.active_layer {
                    self.after_cancel().with_status(Status::CanceledLayerChanged)
                } else {
                    match self.session {
                        None => self.with_status(Status::NoMapLoaded),
                        Some(ss) => {
                            let (min_x, min_y, _, _) = sel.bounds();
                            let i = self.active_layer as int;
                            if !span_fits(min_x as int, min_y as int, t.width as int, t.height as int) {
                                self.with_status(Status::SelectionTooLarge)
                            } else {
                                match write_outcome(
                                    ss.document,
                                    i,
                                    min_x as int,
                                    min_y as int,
                                    t.width as int,
                                    t.height as int,
                                    t.tiles,
                                    Some(t.mask),
                                ) {
                                    Ok(lt) => {
                                        let edited = ss.after_edit(with_tiles(ss.document, i, lt));
                                        let next = if t.mode == TileSelectionTransferMode::Cut {
                                            edited.finished()
                                        } else {
                                            edited
                                        };
                                        let cells = mask_cell_set(
                                            min_x as int,
                                            min_y as int,
                                            t.width as int,
                                            t.height as int,
                                            t.mask,
                                        );
                                        EditorView {
                                            selection: bounding_region(cells),
                                            selection_cells: Some(cells),
                                            transfer: None,
                                            status: Status::PlacedSelection(min_x, min_y),
                                            ..self.recorded_edit(next)
                                        }
                                    },
                                    Err(e) => EditorView {
                                        session: Some(
                                            if t.mode == TileSelectionTransferMode::Cut {
                                                ss.aborted()
                                            } else {
                                                ss
                                            },
                                        ),
                                        transfer: None,
                                        status: Status::PlaceFailed(e),
                                        ..self
                                    },
                                }
                            }
                        },
                    }
                },
            },
        }
    }
}

impl EditorState {
    /// Gives up the floating selection and deletes its source.
    pub fn delete_transfer_and_exit(&mut self)
        requires
            old(self)@.wf(),
        ensures
            final(self)@.wf(),
            final(self)@ == old(self)@.after_transfer_deleted(),
    {
        let transfer = match self.tile_selection_transfer.take() {
            Some(t) => t,
            None => {
                return;
            },
        };
        if transfer.mode == TileSelectionTransferMode::Cut {
            match &mut self.session {
                Some(session) => session.abort_history_batch(),
                None => {},
            }
            self.canvas_dirty = true;
            self.tiles_dirty = true;
        } else {
            let (min_x, min_y, _, _) = selection_bounds(&transfer.source_selection);
            let r = match &mut self.session {
                None => Err(EditorError::NotTileLayer),
                Some(session) => {
                    if check_span(min_x, min_y, transfer.width, transfer.height) {
                        session.clear_region(
                            transfer.source_layer,
                            min_x,
                            min_y,
                            transfer.width,
                            transfer.height,
                            transfer.source_mask.as_slice(),
                        )
                    } else {
                        Err(EditorError::NotTileLayer)
                    }
                },
            };
            if r.is_ok() {
                self.note_recorded_edit();
            }
        }
        self.tile_selection = None;
        self.tile_selection_cells = None;
        self.tile_selection_preview = None;
        self.tile_selection_preview_cells = None;
        self.status = Status::DeletedSourceAndExited;
    }

    /// Delete: gives up a floating selection with its source, or empties
    /// the selected cells and drops the selection.
    pub fn delete_selection(&mut self)
        requires
            old(self)@.wf(),
        ensures
            final(self)@.wf(),
            final(self)@ == old(self)@.after_delete(),
    {
        if self.tile_selection_transfer.is_some() {
            self.delete_transfer_and_exit();
            return;
        }
        let (selection, cells) = match self.selected_tile_selection() {
            Some(p) => p,
            None => {
                self.status = Status::SelectTileRegionFirst;
                return;
            },
        };
        if !check_region(&selection) {
            self.status = Status::SelectionTooLarge;
            return;
        }
        let (min_x, min_y, _, _) = selection_bounds(&selection);
        let (w, h) = selection_dimensions(&selection);
        let mask = selection_mask_from_cells(&selection, &cells);
        let layer = self.active_layer;
        let r = match &mut self.session {
            None => {
                self.status = Status::NoMapLoaded;
                return;
            },
            Some(session) => session.clear_region(layer, min_x, min_y, w, h, mask.as_slice()),
        };
        match r {
            Ok(()) => {
                self.note_recorded_edit();
                self.dismiss_tile_selection();
                self.status = Status::ClearedSelectedRegion;
            },
            Err(e) => {
                self.status = Status::DeleteFailed(e);
            },
        }
    }

    /// Cancels the floating selection: a cut's tiles go back to where they
    /// came from and its batch leaves the history.
    pub fn cancel_tile_selection_transfer(&mut self)
        requires
            old(self)@.wf(),
        ensures
            final(self)@.wf(),
            final(self)@ == old(self)@.after_cancel(),
    {
        let transfer = match self.tile_selection_transfer.take() {
            Some(t) => t,
            None => {
                return;
            },
        };
        if transfer.mode == TileSelectionTransferMode::Cut {
            let (min_x, min_y, _, _) = selection_bounds(&transfer.source_selection);
            let restored = match &mut self.session {
                None => {
                    return;
                },
                Some(session) => {
                    let r = if check_span(min_x, min_y, transfer.width, transfer.height) {
                        session.write_region(
                            transfer.source_layer,
                            min_x,
                            min_y,
                            transfer.width,
                            transfer.height,
                            transfer.tiles.as_slice(),
                            Some(transfer.source_mask.as_slice()),
                        )
                    } else {
                        Err(EditorError::NotTileLayer)
                    };
                    session.abort_history_batch();
                    r.is_ok()
                },
            };
            if !restored {
                self.status = Status::CancelRestoreFailed;
            }
            self.canvas_dirty = true;
            self.tiles_dirty = true;
        }
        self.dismiss_tile_selection();
    }

    /// Place: writes the floating selection where it now is and makes the
    /// written cells the selection.
    pub fn place_tile_selection_transfer(&mut self)
        requires
            old(self)@.wf(),
        ensures
            final(self)@.wf(),
            final(self)@ == old(self)@.after_place(),
    {
        let ghost before = self@;
        let (source_layer, mode, width, height) = match &self.tile_selection_transfer {
            Some(t) => (t.source_layer, t.mode, t.width, t.height),
            None => {
                self.status = Status::NothingToPlace;
                return;
            },
        };
        let selection = match self.tile_selection {
            Some(s) => s,
            None => {
                self.status = Status::MoveSelectionBeforePlacing;
                return;
            },
        };
        let layer = self.active_layer;
        if source_layer != layer {
            self.cancel_tile_selection_transfer();
            self.status = Status::CanceledLayerChanged;
            return;
        }
        let (min_x, min_y, _, _) = selection_bounds(&selection);
        let r = match &self.tile_selection_transfer {
            None => {
                return;
            },
            Some(t) => match &mut self.session {
                None => {
                    self.status = Status::NoMapLoaded;
                    return;
                },
                Some(session) => {
                    if !check_span(min_x, min_y, t.width, t.height) {
                        self.status = Status::SelectionTooLarge;
                        return;
                    }
                    let r = session.write_region(
                        layer,
                        min_x,
                        min_y,
                        t.width,
                        t.height,
                        t.tiles.as_slice(),
                        Some(t.mask.as_slice()),
                    );
                    if mode == TileSelectionTransferMode::Cut {
                        if r.is_ok() {
                            let _ = session.finish_history_batch();
                        } else {
                            session.abort_history_batch();
                        }
                    }
                    r
                },
            },
        };
        match r {
            Ok(()) => {
                self.note_recorded_edit();
                let cells = match &self.tile_selection_transfer {
                    Some(t) => selection_cells_from_mask(min_x, min_y, width, height, t.mask.as_slice()),
                    None => BTreeSet::new(),
                };
                self.tile_selection = selection_region_from_cells(&cells);
                self.tile_selection_cells = Some(cells);
                self.tile_selection_transfer = None;
                self.status = Status::PlacedSelection(min_x, min_y);
            },
            Err(e) => {
                self.tile_selection_transfer = None;
                self.status = Status::PlaceFailed(e);
            },
        }
    }
}

/// What the status line reports after a transform.
pub open spec fn transform_status(kind: GridTransform) -> Status {
    match kind {
        GridTransform::FlipH => Status::Flipped(true),
        GridTransform::FlipV => Status::Flipped(false),
        GridTransform::RotateCw => Status::Rotated,
    }
}

/// What the status line reports when a transform is refused.
pub open spec fn transform_failed(kind: GridTransform, e: EditorError) -> Status {
    match kind {
        GridTransform::RotateCw => Status::RotateFailed(e),
        _ => Status::FlipFailed(e),
    }
}

impl EditorView {
    /// The state with the selection reshaped to the floating selection's
    /// mask at the selection's corner.
    pub open spec fn resized(self) -> EditorView {
        match (self.transfer, self.selection) {
            (Some(t), Some(sel)) => {
                let (min_x, min_y, _, _) = sel.bounds();
                if span_fits(min_x as int, min_y as int, t.width as int, t.height as int) {
                    let cells = mask_cell_set(min_x as int, min_y as int, t.width as int, t.height as int, t.mask);
                    EditorView { selection: bounding_region(cells), selection_cells: Some(cells), ..self }
                } else {
                    self
                }
            },
            _ => self,
        }
    }

    /// The state after turning the selection over: a floating selection
    /// is turned in the air (and copied to the clipboard); otherwise the
    /// selected cells are turned over in place as a recorded edit.
    pub open spec fn after_transform(self, kind: GridTransform) -> EditorView {
        match self.transfer {
            Some(t) => {
                let (nw, nh) = transform_dims(kind, t.width, t.height);
                let nt = TransferView {
                    tiles: transform_seq(kind, t.width as int, t.height as int, t.tiles),
                    mask: transform_seq(kind, t.width as int, t.height as int, t.mask),
                    width: nw,
                    height: nh,
                    ..t
                };
                let s1 = EditorView { transfer: Some(nt), clipboard: Some(clipboard_of(nt)), ..self };
                let s2 = if kind == GridTransform::RotateCw {
                    s1.resized()
                } else {
                    s1
                };
                EditorView { canvas_dirty: true, status: transform_status(kind), ..s2 }
            },
            None => match (self.selected_region(), self.session) {
                (Some((r, c, _)), Some(ss)) => if !region_fits(r) {
                    self.with_status(Status::SelectionTooLarge)
                } else {
                    let (min_x, min_y, _, _) = r.bounds();
                    let w = r.width() as u32;
                    let h = r.height() as u32;
                    let mask = region_mask(r, c);
                    let next_mask = transform_seq(kind, w as int, h as int, mask);
                    let (nw, nh) = transform_dims(kind, w, h);
                    let i = self.active_layer as int;
                    match transform_outcome(ss.document, i, min_x as int, min_y as int, w, h, mask, next_mask, kind) {
                        Ok(lt) => {
                            let cells = mask_cell_set(min_x as int, min_y as int, nw as int, nh as int, next_mask);
                            let s1 = self.recorded_edit(ss.after_edit(with_tiles(ss.document, i, lt)));
                            EditorView {
                                selection_cells: Some(cells),
                                selection: if kind == GridTransform::RotateCw {
                                    bounding_region(cells)
                                } else {
                                    s1.selection
                                },
                                status: transform_status(kind),
                                ..s1
                            }
                        },
                        Err(e) => self.with_status(transform_failed(kind, e)),
                    }
                },
                _ => self.with_status(Status::SelectRegionFirst),
            },
        }
    }
}

impl EditorState {
    /// Copies the floating selection to the clipboard.
    fn sync_clipboard_from_transfer(&mut self)
        ensures
            final(self)@ == (match old(self)@.transfer {
                Some(t) => EditorView { clipboard: Some(clipboard_of(t)), ..old(self)@ },
                None => old(self)@,
            }),
    {
        match &self.tile_selection_transfer {
            Some(t) => {
                self.tile_clipboard = Some(
                    TileClipboard { width: t.width, height: t.height, tiles: t.tiles.clone(), mask: t.mask.clone() },
                );
            },
            None => {},
        }
    }

    /// Reshapes the selection to the floating selection's mask.
    fn resize_transfer_selection(&mut self)
        ensures
            final(self)@ == old(self)@.resized(),
    {
        let selection = match self.tile_selection {
            Some(s) => s,
            None => {
                return;
            },
        };
        let (min_x, min_y, _, _) = selection_bounds(&selection);
        let cells = match &self.tile_selection_transfer {
            Some(t) => {
                if !check_span(min_x, min_y, t.width, t.height) {
                    return;
                }
                selection_cells_from_mask(min_x, min_y, t.width, t.height, t.mask.as_slice())
            },
            None => {
                return;
            },
        };
        self.tile_selection = selection_region_from_cells(&cells);
        self.tile_selection_cells = Some(cells);
    }

    /// Turns the selection over: flips or rotates the floating selection,
    /// or the selected cells in place.
    pub fn transform_tile_selection(&mut self, kind: GridTransform)
        requires
            old(self)@.wf(),
        ensures
            final(self)@.wf(),
            final(self)@ == old(self)@.after_transform(kind),
    {
        let ghost before = self@;
        match &mut self.tile_selection_transfer {
            Some(t) => {
                let ghost t0 = t@;
                proof {
                    lemma_padded_full(t0.mask);
                }
                let tiles = transform_tiles(kind, t.width, t.height, t.tiles.as_slice());
                let mask = transform_mask(kind, t.width, t.height, t.mask.as_slice());
                let (nw, nh) = match kind {
                    GridTransform::RotateCw => (t.height, t.width),
                    _ => (t.width, t.height),
                };
                proof {
                    assert(nw * nh == t0.width * t0.height) by (nonlinear_arith)
                        requires
                            (nw == t0.width && nh == t0.height) || (nw == t0.height && nh == t0.width),
                    ;
                }
                t.tiles = tiles;
                t.mask = mask;
                t.width = nw;
                t.height = nh;
                self.sync_clipboard_from_transfer();
                if kind == GridTransform::RotateCw {
                    self.resize_transfer_selection();
                }
                self.canvas_dirty = true;
                self.status = match kind {
                    GridTransform::FlipH => Status::Flipped(true),
                    GridTransform::FlipV => Status::Flipped(false),
                    GridTransform::RotateCw => Status::Rotated,
                };
                return;
            },
            None => {},
        }
        let (selection, cells) = match self.selected_tile_selection() {
            Some(p) => p,
            None => {
                self.status = Status::SelectRegionFirst;
                return;
            },
        };
        if !check_region(&selection) {
            self.status = Status::SelectionTooLarge;
            return;
        }
        let (min_x, min_y, _, _) = selection_bounds(&selection);
        let (w, h) = selection_dimensions(&selection);
        let mask = selection_mask_from_cells(&selection, &cells);
        let next_mask = transform_mask(kind, w, h, mask.as_slice());
        proof {
            lemma_padded_full(mask@);
        }
        let (nw, nh) = match kind {
            GridTransform::RotateCw => (h, w),
            _ => (w, h),
        };
        let layer = self.active_layer;
        let r = match &mut self.session {
            None => {
                self.status = Status::NoMapLoaded;
                return;
            },
            Some(session) => session.transform_region(
                layer,
                min_x,
                min_y,
                w,
                h,
                mask.as_slice(),
                next_mask.as_slice(),
                kind,
            ),
        };
        match r {
            Ok(()) => {
                self.note_recorded_edit();
                let next_cells = selection_cells_from_mask(min_x, min_y, nw, nh, next_mask.as_slice());
                if kind == GridTransform::RotateCw {
                    self.tile_selection = selection_region_from_cells(&next_cells);
                }
                self.tile_selection_cells = Some(next_cells);
                self.status = match kind {
                    GridTransform::FlipH => Status::Flipped(true),
                    GridTransform::FlipV => Status::Flipped(false),
                    GridTransform::RotateCw => Status::Rotated,
                };
            },
            Err(e) => {
                self.status = match kind {
                    GridTransform::RotateCw => Status::RotateFailed(e),
                    _ => Status::FlipFailed(e),
                };
            },
        }
    }

    /// Flips the selection left to right.
    pub fn flip_tile_selection_x(&mut self)
        requires
            old(self)@.wf(),
        ensures
            final(self)@.wf(),
            final(self)@ == old(self)@.after_transform(GridTransform::FlipH),
    {
        self.transform_tile_selection(GridTransform::FlipH);
    }

    /// Flips the selection top to bottom.
    pub fn flip_tile_selection_y(&mut self)
        requires
            old(self)@.wf(),
        ensures
            final(self)@.wf(),
            final(self)@ == old(self)@.after_transform(GridTransform::FlipV),
    {
        self.transform_tile_selection(GridTransform::FlipV);
    }

    /// Rotates the selection a quarter turn clockwise.
    pub fn rotate_tile_selection_cw(&mut self)
        requires
            old(self)@.wf(),
        ensures
            final(self)@.wf(),
            final(self)@ == old(self)@.after_transform(GridTransform::RotateCw),
    {
        self.transform_tile_selection(GridTransform::RotateCw);
    }
}

/// Canceling a cut puts every emptied cell back and closes the history
/// batch the cut opened: the document is the one from before the cut, the
/// undo steps are those from before it (less the step of a batch that
/// was already open, which the cancel aborts), and nothing stays selected
/// or floating.
pub proof fn lemma_cancel_cut_restores(s: EditorView)
    requires
        s.wf(),
        s.transfer is None,
        s.selected_region() is Some,
        region_fits(s.selected_region()->Some_0.0),
        s.session is Some,
        tile_layer_status(s.session->Some_0.document, s.active_layer as int) is Ok,
    ensures
        ({
            let v = s.after_cut().after_cancel();
            &&& v.session is Some
            &&& v.session->Some_0.document == s.session->Some_0.document
            &&& v.session->Some_0.undo == s.session->Some_0.aborted().undo
            &&& !s.session->Some_0.batch_active ==> v.session->Some_0.undo == s.session->Some_0.undo
            &&& !v.session->Some_0.batch_active
            &&& v.selection is None
            &&& v.selection_cells is None
            &&& v.transfer is None
        }),
{
    let ss = s.session->Some_0;
    let doc = ss.document;
    let i = s.active_layer as int;
    let (r, c, lt) = s.selected_region()->Some_0;
    let (min_x, min_y, _, _) = r.bounds();
    let w = r.width();
    let h = r.height();
    assert(lt == tile_view(doc, i));
    assert(lt.wf());
    let cleared_t = TileLayerView { tiles: lt.cleared(min_x as int, min_y as int, w, h, region_mask(r, c)), ..lt };
    let b = ss.begun();
    let ss2 = b.after_edit(with_tiles(doc, i, cleared_t));
    let u = s.after_cut();
    assert(u.session == Some(ss2));
    let doc2 = ss2.document;
    assert(tile_view(doc2, i) == cleared_t);
    assert(tile_layer_status(doc2, i) is Ok);
    crate::layer::lemma_write_back_restores(lt, min_x as int, min_y as int, w, h, region_mask(r, c));
    let back = TileLayerView {
        tiles: cleared_t.written(
            min_x as int,
            min_y as int,
            w,
            h,
            lt.capture(min_x as int, min_y as int, w, h),
            Some(region_mask(r, c)),
        ),
        ..cleared_t
    };
    assert(back == lt);
    assert(with_tiles(doc2, i, lt) =~= doc);
    if !(ss.batch_active && ss.batch_recorded) {
        assert(ss2.undo.drop_last() =~= ss.undo);
    }
}

/// A cut moved to another place and placed there is one step of the
/// shared history: undoing it gives back the document from before the
/// cut, with the undo steps from before it.
pub proof fn lemma_cut_and_place_undoes_as_one(s: EditorView, moved: TileSelectionRegion)
    requires
        s.wf(),
        s.transfer is None,
        s.selected_region() is Some,
        region_fits(s.selected_region()->Some_0.0),
        s.session is Some,
        !s.session->Some_0.batch_active,
        tile_layer_status(s.session->Some_0.document, s.active_layer as int) is Ok,
        span_fits(
            moved.bounds().0 as int,
            moved.bounds().1 as int,
            s.selected_region()->Some_0.0.width(),
            s.selected_region()->Some_0.0.height(),
        ),
    ensures
        ({
            let p = (EditorView { selection: Some(moved), ..s.after_cut() }).after_place();
            let v = p.after_undo();
            &&& p.transfer is None
            &&& p.undo_order == s.undo_order.push(UndoActionKind::DocumentEdit)
            &&& v.session is Some
            &&& v.session->Some_0.document == s.session->Some_0.document
            &&& v.session->Some_0.undo == s.session->Some_0.undo
            &&& v.undo_order == s.undo_order
        }),
{
    let ss = s.session->Some_0;
    let doc = ss.document;
    let i = s.active_layer as int;
    let (r, c, lt) = s.selected_region()->Some_0;
    let (min_x, min_y, _, _) = r.bounds();
    let w = r.width();
    let h = r.height();
    assert(lt == tile_view(doc, i));
    let cleared_t = TileLayerView { tiles: lt.cleared(min_x as int, min_y as int, w, h, region_mask(r, c)), ..lt };
    let b = ss.begun();
    let ss2 = b.after_edit(with_tiles(doc, i, cleared_t));
    let u = s.after_cut();
    assert(u.session == Some(ss2));
    let doc2 = ss2.document;
    assert(tile_view(doc2, i) == cleared_t);
    assert(tile_layer_status(doc2, i) is Ok);
    let m = EditorView { selection: Some(moved), ..u };
    let p = m.after_place();
    assert(p.undo_order == s.undo_order.push(UndoActionKind::DocumentEdit));
    assert(p.undo_order.drop_last() =~= s.undo_order);
    assert(ss2.undo == ss.undo.push(doc));
}

/// Flipping a floating selection twice along the same axis gives back
/// the floating selection and the clipboard it started with.
pub proof fn lemma_double_flip_restores_transfer(s: EditorView, kind: GridTransform)
    requires
        s.wf(),
        s.transfer is Some,
        kind != GridTransform::RotateCw,
    ensures
        s.after_transform(kind).after_transform(kind).transfer == s.transfer,
        s.after_transform(kind).after_transform(kind).clipboard == Some(clipboard_of(s.transfer->Some_0)),
{
    let t = s.transfer->Some_0;
    let w = t.width as nat;
    let h = t.height as nat;
    if kind == GridTransform::FlipH {
        crate::grid::lemma_flip_h_involution(w, h, t.tiles);
        crate::grid::lemma_flip_h_involution(w, h, t.mask);
    } else {
        crate::grid::lemma_flip_v_involution(w, h, t.tiles);
        crate::grid::lemma_flip_v_involution(w, h, t.mask);
    }
}

/// Four quarter turns of a floating selection give back the floating
/// selection it started with.
pub proof fn lemma_four_rotations_restore_transfer(s: EditorView)
    requires
        s.wf(),
        s.transfer is Some,
    ensures
        s.after_transform(GridTransform::RotateCw).after_transform(GridTransform::RotateCw).after_transform(
            GridTransform::RotateCw,
        ).after_transform(GridTransform::RotateCw).transfer == s.transfer,
{
    let t = s.transfer->Some_0;
    let w = t.width as nat;
    let h = t.height as nat;
    crate::grid::lemma_rotate_four_times(w, h, t.tiles);
    crate::grid::lemma_rotate_four_times(w, h, t.mask);
}

/// Copying the selection and placing the copy where it was lifted leaves
/// the document as it was (the placement is still recorded as a step).
pub proof fn lemma_copy_in_place_keeps_document(s: EditorView)
    requires
        s.wf(),
        s.transfer is None,
        s.selected_region() is Some,
        region_fits(s.selected_region()->Some_0.0),
        s.session is Some,
        tile_layer_status(s.session->Some_0.document, s.active_layer as int) is Ok,
    ensures
        ({
            let p = s.after_copy().after_place();
            &&& p.session is Some
            &&& p.session->Some_0.document == s.session->Some_0.document
            &&& p.transfer is None
            &&& p.status == Status::PlacedSelection(
                s.selected_region()->Some_0.0.bounds().0,
                s.selected_region()->Some_0.0.bounds().1,
            )
        }),
{
    let ss = s.session->Some_0;
    let doc = ss.document;
    let i = s.active_layer as int;
    let (r, c, lt) = s.selected_region()->Some_0;
    let (min_x, min_y, _, _) = r.bounds();
    assert(lt == tile_view(doc, i));
    crate::layer::lemma_write_captured_keeps(lt, min_x as int, min_y as int, r.width(), r.height(), region_mask(r, c));
    let written = TileLayerView {
        tiles: lt.written(
            min_x as int,
            min_y as int,
            r.width(),
            r.height(),
            lt.capture(min_x as int, min_y as int, r.width(), r.height()),
            Some(region_mask(r, c)),
        ),
        ..lt
    };
    assert(written == lt);
    assert(with_tiles(doc, i, lt) =~= doc);
}


/// Stamping a floating selection again (Copy while it floats) writes it
/// at the selection's corner on the active tile layer, when the layer
/// takes edits and the rectangle fits: a cell of the target rectangle
/// that the floating selection's mask selects takes its floating tile;
/// every other cell of the layer, unselected cells of the rectangle
/// included, keeps its tile; the other layers are untouched.
pub proof fn lemma_stamp_writes_only_masked_cells(s: EditorView, x: int, y: int)
    requires
        s.wf(),
        s.transfer is Some,
        s.selection is Some,
        s.session is Some,
        tile_view(s.session->Some_0.document, s.active_layer as int).in_bounds(x, y),
    ensures
        ({
            let tr = s.transfer->Some_0;
            let (min_x, min_y, _, _) = s.selection->Some_0.bounds();
            let doc = s.session->Some_0.document;
            let i = s.active_layer as int;
            let t = tile_view(doc, i);
            let (placed, v) = s.transfer_copied();
            let lx = x - min_x;
            let ly = y - min_y;
            let k = ly * tr.width + lx;
            &&& placed == (span_fits(min_x as int, min_y as int, tr.width as int, tr.height as int)
                && tile_layer_status(doc, i) is Ok)
            &&& !placed ==> v == s
            &&& placed ==> {
                let nd = v.session->Some_0.document;
                &&& nd.len() == doc.len()
                &&& forall|j: int| 0 <= j < doc.len() && j != i ==> nd[j] == doc[j]
                &&& tile_layer_status(nd, i) is Ok
                &&& tile_view(nd, i).tile(x, y) == (if 0 <= lx < tr.width && 0 <= ly < tr.height
                    && tr.mask[k] {
                    tr.tiles[k]
                } else {
                    t.tile(x, y)
                })
            }
        }),
{
    let tr = s.transfer->Some_0;
    let (min_x, min_y, _, _) = s.selection->Some_0.bounds();
    let ss = s.session->Some_0;
    let doc = ss.document;
    let i = s.active_layer as int;
    let (placed, v) = s.transfer_copied();
    if placed {
        let t = tile_view(doc, i);
        assert(t.wf());
        let w = tr.width as int;
        let h = tr.height as int;
        let lt = TileLayerView { tiles: t.written(min_x as int, min_y as int, w, h, tr.tiles, Some(tr.mask)), ..t };
        let nd = with_tiles(doc, i, lt);
        assert(v.session == Some(ss.after_edit(nd)));
        assert(tile_view(nd, i) == lt);
        crate::layer::lemma_layer_index(t, x, y);
        let idx = y * t.width + x;
        let lx = x - min_x;
        let ly = y - min_y;
        assert(t.local_x(idx, min_x as int) == lx);
        assert(t.local_y(idx, min_y as int) == ly);
        assert(lt.tile(x, y) == lt.tiles[idx]);
        if 0 <= lx < w && 0 <= ly < h {
            crate::grid::lemma_grid_cell(w, h, lx, ly);
        }
    }
}

} // verus!
