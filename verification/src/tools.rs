//! The tile tools: what a tap on a cell does under each tool, shape
//! fills, and the edit batch that groups one touch gesture into a single
//! undo step.

use vstd::prelude::*;
use crate::document::{LayerView, tile_layer_status, tile_view, with_tiles};
use crate::editor::{EditorState, EditorView, Status, Tool, UndoActionKind};
use crate::history::{after_edits, cells_painted, fill_outcome, lemma_batch_records_once, lemma_batch_undoes_as_one, set_tile_outcome};
use crate::layer::{EditorError, TileLayerView};
use crate::region::TileSelectionRegion;
use crate::selection::{active_tile_layer, same_tile_selection, wand_selection};
use crate::shape::{ShapeFillMode, max_u32, min_u32, shape_cell_set, shape_fill_cells};

verus! {

broadcast use {vstd::std_specs::btree::group_btree_axioms, vstd::laws_cmp::group_laws_cmp};

/// Every cell of the set lies on the layer.
pub open spec fn cells_in_bounds(t: TileLayerView, cells: Set<(u32, u32)>) -> bool {
    forall|c: (u32, u32)| #[trigger] cells.contains(c) ==> t.in_bounds(c.0 as int, c.1 as int)
}

/// The status a shape fill reports.
pub open spec fn shape_status(mode: ShapeFillMode, sx: u32, sy: u32, ex: u32, ey: u32) -> Status {
    Status::ShapeFilled(mode, shape_cell_set(mode, sx, sy, ex, ey).len() as usize)
}

impl EditorView {
    /// The state after a tile edit of the active layer whose result on a
    /// document is `outcome`: an accepted edit changes the document and
    /// marks the canvas for redrawing; a refused one is reported.
    pub open spec fn after_tile_edit(
        self,
        outcome: spec_fn(Seq<LayerView>) -> Result<TileLayerView, EditorError>,
    ) -> EditorView {
        match self.session {
            None => self.with_status(Status::NoMapLoaded),
            Some(ss) => match outcome(ss.document) {
                Ok(t) => EditorView {
                    session: Some(ss.after_edit(with_tiles(ss.document, self.active_layer as int, t))),
                    canvas_dirty: true,
                    tiles_dirty: true,
                    ..self
                },
                Err(e) => self.with_status(Status::EditFailed(e)),
            },
        }
    }

    /// The state after filling the shape between two corners with the
    /// selected tile: the fill happens when the active layer takes edits
    /// and every cell of the shape lies on it; the status reports the
    /// shape and its cell count either way.
    pub open spec fn after_shape_fill(self, sx: u32, sy: u32, ex: u32, ey: u32) -> EditorView {
        let cells = shape_cell_set(self.shape_fill_mode, sx, sy, ex, ey);
        let i = self.active_layer as int;
        let edited = match self.session {
            None => self,
            Some(ss) => if tile_layer_status(ss.document, i) is Ok && cells_in_bounds(
                tile_view(ss.document, i),
                cells,
            ) {
                EditorView {
                    session: Some(
                        ss.after_edit(
                            with_tiles(
                                ss.document,
                                i,
                                cells_painted(tile_view(ss.document, i), cells, self.selected_gid),
                            ),
                        ),
                    ),
                    canvas_dirty: true,
                    tiles_dirty: true,
                    ..self
                }
            } else {
                self
            },
        };
        edited.with_status(shape_status(self.shape_fill_mode, sx, sy, ex, ey))
    }

    /// The state after a tap on cell `(x, y)` with the current tool.
    pub open spec fn after_cell_tool(self, x: u32, y: u32) -> EditorView {
        let s = EditorView { selected_cell: Some((x, y)), ..self };
        let i = s.active_layer as int;
        let gid = s.selected_gid;
        match s.tool {
            Tool::Paint => s.after_tile_edit(
                |doc: Seq<LayerView>| set_tile_outcome(doc, i, x, y, gid),
            ),
            Tool::Erase => s.after_tile_edit(|doc: Seq<LayerView>| set_tile_outcome(doc, i, x, y, 0)),
            Tool::Fill => s.after_tile_edit(|doc: Seq<LayerView>| fill_outcome(doc, i, x, y, gid)),
            Tool::ShapeFill => s.after_shape_fill(x, y, x, y),
            Tool::Select => match active_tile_layer(s) {
                Some(_) => s.after_select(
                    (TileSelectionRegion {
                        start_cell: (x as i32, y as i32),
                        end_cell: (x as i32, y as i32),
                    }).cell_set(),
                ).with_status(Status::SelectedRegion(1, 1)),
                None => s,
            },
            Tool::MagicWand => match active_tile_layer(s) {
                Some(t) => s.after_select(wand_selection(t, x, y)).with_status(
                    Status::MagicWandSelected(wand_selection(t, x, y).len() as usize),
                ),
                None => s,
            },
            Tool::SelectSameTile => match active_tile_layer(s) {
                Some(t) => s.after_select(same_tile_selection(t, x, y)).with_status(
                    Status::SelectedSameTiles(same_tile_selection(t, x, y).len() as usize),
                ),
                None => s,
            },
            _ => s,
        }
    }

    /// The state after a touch gesture opens its edit batch.
    pub open spec fn after_batch_start(self) -> EditorView {
        if self.touch_edit_batch_active {
            self
        } else {
            EditorView {
                session: match self.session {
                    Some(ss) => Some(ss.begun()),
                    None => None,
                },
                touch_edit_batch_active: true,
                ..self
            }
        }
    }

    /// The state after a touch gesture closes its edit batch: a batch that
    /// recorded an undo step becomes one document step of the shared
    /// history, and the redo side is cleared.
    pub open spec fn after_batch_finish(self) -> EditorView {
        if !self.touch_edit_batch_active {
            self
        } else {
            let recorded = match self.session {
                Some(ss) => ss.finish_recorded(),
                None => false,
            };
            let base = EditorView {
                session: match self.session {
                    Some(ss) => Some(ss.finished()),
                    None => None,
                },
                touch_edit_batch_active: false,
                canvas_dirty: true,
                ..self
            };
            if recorded {
                EditorView {
                    undo_order: base.undo_order.push(UndoActionKind::DocumentEdit),
                    redo_order: Seq::empty(),
                    selection_redo: Seq::empty(),
                    ..base
                }
            } else {
                base
            }
        }
    }
}

impl EditorState {
    /// Notes the result of a tile edit: an accepted edit marks the canvas
    /// for redrawing, a refused one is reported.
    fn note_tile_edit(&mut self, r: Result<(), EditorError>)
        ensures
            match r {
                Ok(()) => final(self)@ == (EditorView {
                    canvas_dirty: true,
                    tiles_dirty: true,
                    ..old(self)@
                }),
                Err(e) => final(self)@ == old(self)@.with_status(Status::EditFailed(e)),
            },
    {
        match r {
            Ok(()) => {
                self.canvas_dirty = true;
                self.tiles_dirty = true;
            },
            Err(e) => {
                self.status = Status::EditFailed(e);
            },
        }
    }

    /// Puts `gid` at `(x, y)` on the active layer.
    fn paint_cell(&mut self, x: u32, y: u32, gid: u32)
        requires
            old(self)@.wf(),
        ensures
            final(self)@.wf(),
            final(self)@ == old(self)@.after_tile_edit(
                |doc: Seq<LayerView>| set_tile_outcome(doc, old(self)@.active_layer as int, x, y, gid),
            ),
    {
        let layer = self.active_layer;
        let r = match &mut self.session {
            None => {
                self.status = Status::NoMapLoaded;
                return;
            },
            Some(session) => session.set_tile(layer, x, y, gid),
        };
        self.note_tile_edit(r);
    }

    /// Bucket fill with the selected tile at `(x, y)` on the active layer.
    pub fn apply_fill(&mut self, x: u32, y: u32)
        requires
            old(self)@.wf(),
        ensures
            final(self)@.wf(),
            final(self)@ == old(self)@.after_tile_edit(
                |doc: Seq<LayerView>|
                    fill_outcome(doc, old(self)@.active_layer as int, x, y, old(self)@.selected_gid),
            ),
    {
        let layer = self.active_layer;
        let gid = self.selected_gid;
        let r = match &mut self.session {
            None => {
                self.status = Status::NoMapLoaded;
                return;
            },
            Some(session) => session.flood_fill(layer, x, y, gid),
        };
        self.note_tile_edit(r);
    }

    /// Fills the shape between two corners with the selected tile, in the
    /// current shape mode, and reports how many cells the shape has.
    pub fn apply_shape_fill(&mut self, start_x: u32, start_y: u32, end_x: u32, end_y: u32)
        requires
            old(self)@.wf(),
            old(self)@.shape_fill_mode == ShapeFillMode::Ellipse ==> max_u32(start_x, end_x)
                - min_u32(start_x, end_x) + 1 <= u32::MAX && max_u32(start_y, end_y) - min_u32(
                start_y,
                end_y,
            ) + 1 <= u32::MAX,
        ensures
            final(self)@.wf(),
            final(self)@ == old(self)@.after_shape_fill(start_x, start_y, end_x, end_y),
    {
        let ghost before = self@;
        let layer = self.active_layer;
        let gid = self.selected_gid;
        let mode = self.shape_fill_mode;
        let cells = shape_fill_cells(mode, start_x, start_y, end_x, end_y);
        let count = cells.len();
        let r = match &mut self.session {
            None => Err(EditorError::UnknownLayer(layer)),
            Some(session) => session.set_cells(layer, &cells, gid),
        };
        if r.is_ok() {
            self.canvas_dirty = true;
            self.tiles_dirty = true;
        }
        self.status = Status::ShapeFilled(mode, count);
        proof {
            match before.session {
                None => {},
                Some(ss) => {
                    let t = tile_view(ss.document, layer as int);
                    if tile_layer_status(ss.document, layer as int) is Ok && r is Err {
                        let c = choose|c: (u32, u32)|
                            #[trigger] cells@.contains(c) && !t.in_bounds(c.0 as int, c.1 as int);
                        assert(cells@.contains(c));
                        assert(!cells_in_bounds(t, cells@));
                    }
                },
            }
        }
    }

    /// What a tap on cell `(x, y)` does under the current tool: paint,
    /// erase, fill, a one-cell shape fill, or one of the selections.
    pub fn apply_cell_tool(&mut self, x: u32, y: u32)
        requires
            old(self)@.wf(),
        ensures
            final(self)@.wf(),
            final(self)@ == old(self)@.after_cell_tool(x, y),
    {
        self.selected_cell = Some((x, y));
        let layer = self.active_layer;
        match self.tool {
            Tool::Paint => {
                let gid = self.selected_gid;
                self.paint_cell(x, y, gid);
            },
            Tool::Erase => {
                self.paint_cell(x, y, 0);
            },
            Tool::Fill => {
                self.apply_fill(x, y);
            },
            Tool::ShapeFill => {
                self.apply_shape_fill(x, y, x, y);
            },
            Tool::Select => {
                let is_tile = match &self.session {
                    Some(session) => session.document().tile_layer(layer).is_some(),
                    None => false,
                };
                if is_tile {
                    self.select_tile_region(x as i32, y as i32, x as i32, y as i32);
                }
            },
            Tool::MagicWand => {
                self.apply_magic_wand_selection(x, y);
            },
            Tool::SelectSameTile => {
                self.apply_select_same_tile_selection(x, y);
            },
            _ => {},
        }
    }

    /// Opens the edit batch of a touch gesture, once.
    pub fn start_touch_edit_batch(&mut self)
        requires
            old(self)@.wf(),
        ensures
            final(self)@.wf(),
            final(self)@ == old(self)@.after_batch_start(),
    {
        if !self.touch_edit_batch_active {
            match &mut self.session {
                Some(session) => session.begin_history_batch(),
                None => {},
            }
            self.touch_edit_batch_active = true;
        }
    }

    /// Closes the edit batch of a touch gesture; a batch that changed the
    /// document becomes one undo step.
    pub fn finish_touch_edit_batch(&mut self)
        requires
            old(self)@.wf(),
        ensures
            final(self)@.wf(),
            final(self)@ == old(self)@.after_batch_finish(),
    {
        if self.touch_edit_batch_active {
            let ghost before = self@;
            let recorded = match &mut self.session {
                Some(session) => session.finish_history_batch(),
                None => false,
            };
            if recorded {
                self.undo_action_order.push(UndoActionKind::DocumentEdit);
                self.redo_action_order = Vec::new();
                self.selection_redo_stack = Vec::new();
                proof {
                    assert(self@.redo_order =~= Seq::<UndoActionKind>::empty());
                    assert(self@.selection_redo =~= Seq::<Option<Set<(i32, i32)>>>::empty());
                }
            }
            self.touch_edit_batch_active = false;
            self.canvas_dirty = true;
        }
    }
}

/// The edits of one touch gesture form one step of the shared history:
/// after the gesture's batch is closed, a single undo gives back the
/// document from before the gesture, with the history from before it.
pub proof fn lemma_gesture_undoes_as_one(s: EditorView, docs: Seq<Seq<LayerView>>)
    requires
        !s.touch_edit_batch_active,
        s.session is Some,
        !s.session->Some_0.batch_active,
        docs.len() > 0,
    ensures
        ({
            let ss = s.session->Some_0;
            let g = s.after_batch_start();
            let f = (EditorView { session: Some(after_edits(ss.begun(), docs)), ..g }).after_batch_finish();
            let u = f.after_undo();
            &&& f.undo_order == s.undo_order.push(UndoActionKind::DocumentEdit)
            &&& u.session is Some
            &&& u.session->Some_0.document == ss.document
            &&& u.session->Some_0.undo == ss.undo
            &&& u.undo_order == s.undo_order
            &&& u.redo_order == seq![UndoActionKind::DocumentEdit]
        }),
{
    let ss = s.session->Some_0;
    lemma_batch_undoes_as_one(ss, docs);
    lemma_batch_records_once(ss, docs);
    let g = s.after_batch_start();
    let f = (EditorView { session: Some(after_edits(ss.begun(), docs)), ..g }).after_batch_finish();
    let a = after_edits(ss.begun(), docs);
    assert(f.session == Some(a.finished()));
    assert(a.finish_recorded());
    assert(f.undo_order == s.undo_order.push(UndoActionKind::DocumentEdit));
    assert(f.undo_order.drop_last() =~= s.undo_order);
    assert(a.finished().undo.len() > 0);
    let u = f.after_undo();
    assert(u.session == Some(a.finished().undone()));
    assert(Seq::<UndoActionKind>::empty().push(UndoActionKind::DocumentEdit) =~= seq![
        UndoActionKind::DocumentEdit,
    ]);
}

} // verus!
