//! Undo and redo for the editor: selection changes and document edits
//! share one ordered history, and each step goes back to the stack it
//! came from.

use std::collections::BTreeSet;
use vstd::prelude::*;
use crate::document::{Document, LayerKind, LayerKindView, LayerView};
use crate::editor::{EditorState, EditorView, Status, UndoActionKind, cells_view, clone_cells};
use crate::region::{bounding_region, selection_region_from_cells};

verus! {

broadcast use {vstd::std_specs::btree::group_btree_axioms, vstd::laws_cmp::group_laws_cmp};

/// Whether layer `i` is an object layer holding an object with id `id`.
pub open spec fn object_exists(doc: Seq<LayerView>, i: int, id: u32) -> bool {
    0 <= i < doc.len() && match doc[i].kind {
        LayerKindView::Object(ids) => ids.contains(id),
        LayerKindView::Tile(_) => false,
    }
}

impl Document {
    /// Whether layer `layer_index` is an object layer holding object `id`.
    pub fn has_object(&self, layer_index: usize, id: u32) -> (b: bool)
        ensures
            b == object_exists(self@, layer_index as int, id),
    {
        if layer_index >= self.layers.len() {
            return false;
        }
        match &self.layers[layer_index].kind {
            LayerKind::Tile(_) => false,
            LayerKind::Object(o) => {
                assert(self@[layer_index as int] == self.layers@[layer_index as int]@);
                let mut k: usize = 0;
                while k < o.object_ids.len()
                    invariant
                        k <= o.object_ids@.len(),
                        0 <= layer_index < self@.len(),
                        self@[layer_index as int].kind == LayerKindView::Object(o.object_ids@),
                        forall|j: int| 0 <= j < k ==> o.object_ids@[j] != id,
                    decreases o.object_ids@.len() - k,
                {
                    if o.object_ids[k] == id {
                        proof {
                            assert(o.object_ids@[k as int] == id);
                            assert(o.object_ids@.contains(id));
                        }
                        return true;
                    }
                    k = k + 1;
                }
                false
            },
        }
    }
}

impl EditorView {
    /// The state after a history step has changed the document: the active
    /// layer is brought back into range, an object selection that no longer
    /// exists is dropped, and transient previews and the floating selection
    /// are discarded. Without any layer, every selection is dropped.
    pub open spec fn normalized(self) -> EditorView {
        match self.session {
            None => self,
            Some(ss) => {
                let n = ss.document.len();
                if n == 0 {
                    EditorView {
                        active_layer: 0,
                        selected_object: None,
                        selected_cell: None,
                        shape_fill_preview: None,
                        selection: None,
                        selection_cells: None,
                        preview: None,
                        preview_cells: None,
                        closing: None,
                        closing_cells: None,
                        closing_started_at: None,
                        last_tap_at: None,
                        transfer: None,
                        ..self
                    }
                } else {
                    let layer: usize = if self.active_layer >= n {
                        (n - 1) as usize
                    } else {
                        self.active_layer
                    };
                    EditorView {
                        active_layer: layer,
                        selected_object: match self.selected_object {
                            Some(id) => if object_exists(ss.document, layer as int, id) {
                                Some(id)
                            } else {
                                None
                            },
                            None => None,
                        },
                        shape_fill_preview: None,
                        preview: None,
                        preview_cells: None,
                        closing: None,
                        closing_cells: None,
                        closing_started_at: None,
                        last_tap_at: None,
                        transfer: None,
                        ..self
                    }
                }
            },
        }
    }

    /// The state marked for a full redraw, reporting `status`.
    pub open spec fn redrawn(self, status: Status) -> EditorView {
        EditorView { canvas_dirty: true, tiles_dirty: true, status, ..self }
    }

    /// The state after an undo: the most recent step of the shared history
    /// is taken back. A selection step restores the previous selection; a
    /// document step steps the session back. With no recorded step, the
    /// session's own history is tried.
    pub open spec fn after_undo(self) -> EditorView {
        let n = self.undo_order.len();
        if n > 0 && self.undo_order[n - 1] == UndoActionKind::SelectionChange {
            let m = self.selection_undo.len();
            let prev = if m > 0 {
                self.selection_undo[m - 1]
            } else {
                None
            };
            EditorView {
                undo_order: self.undo_order.drop_last(),
                selection_undo: if m > 0 {
                    self.selection_undo.drop_last()
                } else {
                    self.selection_undo
                },
                selection_redo: self.selection_redo.push(self.selection_cells),
                redo_order: self.redo_order.push(UndoActionKind::SelectionChange),
                ..self
            }.with_restored_selection(prev).with_status(Status::UndoSelection)
        } else {
            match self.session {
                None => if n > 0 {
                    self
                } else {
                    self.with_status(Status::NothingToUndo)
                },
                Some(ss) => if ss.undo.len() == 0 {
                    if n > 0 {
                        self
                    } else {
                        self.with_status(Status::NothingToUndo)
                    }
                } else if n > 0 {
                    EditorView {
                        session: Some(ss.undone()),
                        undo_order: self.undo_order.drop_last(),
                        redo_order: self.redo_order.push(UndoActionKind::DocumentEdit),
                        ..self
                    }.normalized().redrawn(Status::UndoApplied)
                } else {
                    EditorView { session: Some(ss.undone()), ..self }.normalized().redrawn(
                        Status::UndoApplied,
                    )
                },
            }
        }
    }

    /// The state after a redo: the most recently undone step is applied
    /// again, mirroring `after_undo`.
    pub open spec fn after_redo(self) -> EditorView {
        let n = self.redo_order.len();
        if n > 0 && self.redo_order[n - 1] == UndoActionKind::SelectionChange {
            let m = self.selection_redo.len();
            let next = if m > 0 {
                self.selection_redo[m - 1]
            } else {
                None
            };
            EditorView {
                redo_order: self.redo_order.drop_last(),
                selection_redo: if m > 0 {
                    self.selection_redo.drop_last()
                } else {
                    self.selection_redo
                },
                selection_undo: self.selection_undo.push(self.selection_cells),
                undo_order: self.undo_order.push(UndoActionKind::SelectionChange),
                ..self
            }.with_restored_selection(next).with_status(Status::RedoSelection)
        } else {
            match self.session {
                None => if n > 0 {
                    self
                } else {
                    self.with_status(Status::NothingToRedo)
                },
                Some(ss) => if ss.redo.len() == 0 {
                    if n > 0 {
                        self
                    } else {
                        self.with_status(Status::NothingToRedo)
                    }
                } else if n > 0 {
                    EditorView {
                        session: Some(ss.redone()),
                        redo_order: self.redo_order.drop_last(),
                        undo_order: self.undo_order.push(UndoActionKind::DocumentEdit),
                        ..self
                    }.normalized().redrawn(Status::RedoApplied)
                } else {
                    EditorView { session: Some(ss.redone()), ..self }.normalized().redrawn(
                        Status::RedoApplied,
                    )
                },
            }
        }
    }
}

impl EditorState {
    /// Puts the selection back to `cells`, dropping previews and any
    /// floating selection.
    pub fn restore_selection_cells(&mut self, cells: Option<BTreeSet<(i32, i32)>>)
        ensures
            final(self)@ == old(self)@.with_restored_selection(cells_view(cells)),
    {
        self.tile_selection = match &cells {
            Some(c) => selection_region_from_cells(c),
            None => None,
        };
        self.tile_selection_cells = cells;
        self.tile_selection_preview = None;
        self.tile_selection_preview_cells = None;
        self.tile_selection_last_tap_at = None;
        self.tile_selection_transfer = None;
        self.canvas_dirty = true;
    }

    /// Brings the editor state back in line with the document after a
    /// history step.
    pub fn normalize_after_history_change(&mut self)
        ensures
            final(self)@ == old(self)@.normalized(),
    {
        let (layer_count, object_kept) = match &self.session {
            None => {
                return;
            },
            Some(session) => {
                let document = session.document();
                let layer_count = document.layers.len();
                let layer = if layer_count > 0 && self.active_layer >= layer_count {
                    layer_count - 1
                } else {
                    self.active_layer
                };
                let kept = match self.selected_object {
                    Some(id) => document.has_object(layer, id),
                    None => true,
                };
                (layer_count, kept)
            },
        };
        if layer_count == 0 {
            self.active_layer = 0;
            self.selected_object = None;
            self.selected_cell = None;
            self.shape_fill_preview = None;
            self.tile_selection = None;
            self.tile_selection_cells = None;
            self.tile_selection_preview = None;
            self.tile_selection_preview_cells = None;
            self.tile_selection_closing = None;
            self.tile_selection_closing_cells = None;
            self.tile_selection_closing_started_at = None;
            self.tile_selection_last_tap_at = None;
            self.tile_selection_transfer = None;
            return;
        }
        if self.active_layer >= layer_count {
            self.active_layer = layer_count - 1;
        }
        if !object_kept {
            self.selected_object = None;
        }
        self.shape_fill_preview = None;
        self.tile_selection_preview = None;
        self.tile_selection_preview_cells = None;
        self.tile_selection_closing = None;
        self.tile_selection_closing_cells = None;
        self.tile_selection_closing_started_at = None;
        self.tile_selection_last_tap_at = None;
        self.tile_selection_transfer = None;
    }
}

impl EditorState {
    /// Takes back the most recent step of the shared history.
    pub fn apply_undo(&mut self)
        requires
            old(self)@.wf(),
        ensures
            final(self)@ == old(self)@.after_undo(),
            final(self)@.wf(),
    {
        let ghost before = self@;
        let n = self.undo_action_order.len();
        if n > 0 && self.undo_action_order[n - 1] == UndoActionKind::SelectionChange {
            let _ = self.undo_action_order.pop();
            let prev = match self.selection_undo_stack.pop() {
                Some(p) => p,
                None => None,
            };
            let current = clone_cells(&self.tile_selection_cells);
            self.selection_redo_stack.push(current);
            self.redo_action_order.push(UndoActionKind::SelectionChange);
            proof {
                let m = before.selection_undo.len();
                if m > 0 {
                    assert(self@.selection_undo =~= before.selection_undo.drop_last());
                    assert(cells_view(prev) == before.selection_undo[m - 1]);
                } else {
                    assert(self@.selection_undo =~= before.selection_undo);
                }
                assert(self@.selection_redo =~= before.selection_redo.push(before.selection_cells));
                assert(self@.undo_order =~= before.undo_order.drop_last());
                assert(self@.redo_order =~= before.redo_order.push(UndoActionKind::SelectionChange));
            }
            self.restore_selection_cells(prev);
            self.status = Status::UndoSelection;
            return;
        }
        let changed = match &mut self.session {
            None => false,
            Some(session) => session.undo(),
        };
        if changed {
            if n > 0 {
                let _ = self.undo_action_order.pop();
                self.redo_action_order.push(UndoActionKind::DocumentEdit);
                proof {
                    assert(self@.undo_order =~= before.undo_order.drop_last());
                    assert(self@.redo_order =~= before.redo_order.push(UndoActionKind::DocumentEdit));
                }
            }
            self.normalize_after_history_change();
            self.canvas_dirty = true;
            self.tiles_dirty = true;
            self.status = Status::UndoApplied;
        } else if n == 0 {
            self.status = Status::NothingToUndo;
        }
    }

    /// Applies again the most recently undone step of the shared history.
    pub fn apply_redo(&mut self)
        requires
            old(self)@.wf(),
        ensures
            final(self)@ == old(self)@.after_redo(),
            final(self)@.wf(),
    {
        let ghost before = self@;
        let n = self.redo_action_order.len();
        if n > 0 && self.redo_action_order[n - 1] == UndoActionKind::SelectionChange {
            let _ = self.redo_action_order.pop();
            let next = match self.selection_redo_stack.pop() {
                Some(p) => p,
                None => None,
            };
            let current = clone_cells(&self.tile_selection_cells);
            self.selection_undo_stack.push(current);
            self.undo_action_order.push(UndoActionKind::SelectionChange);
            proof {
                let m = before.selection_redo.len();
                if m > 0 {
                    assert(self@.selection_redo =~= before.selection_redo.drop_last());
                    assert(cells_view(next) == before.selection_redo[m - 1]);
                } else {
                    assert(self@.selection_redo =~= before.selection_redo);
                }
                assert(self@.selection_undo =~= before.selection_undo.push(before.selection_cells));
                assert(self@.redo_order =~= before.redo_order.drop_last());
                assert(self@.undo_order =~= before.undo_order.push(UndoActionKind::SelectionChange));
            }
            self.restore_selection_cells(next);
            self.status = Status::RedoSelection;
            return;
        }
        let changed = match &mut self.session {
            None => false,
            Some(session) => session.redo(),
        };
        if changed {
            if n > 0 {
                let _ = self.redo_action_order.pop();
                self.undo_action_order.push(UndoActionKind::DocumentEdit);
                proof {
                    assert(self@.redo_order =~= before.redo_order.drop_last());
                    assert(self@.undo_order =~= before.undo_order.push(UndoActionKind::DocumentEdit));
                }
            }
            self.normalize_after_history_change();
            self.canvas_dirty = true;
            self.tiles_dirty = true;
            self.status = Status::RedoApplied;
        } else if n == 0 {
            self.status = Status::NothingToRedo;
        }
    }
}

impl EditorView {
    /// The selection rectangle is the bounding box of the selected cells.
    pub open spec fn selection_consistent(self) -> bool {
        self.selection == match self.selection_cells {
            Some(c) => bounding_region(c),
            None => None,
        }
    }
}

/// Undoing a selection change puts back the selection it replaced, leaves
/// the document and the earlier history as they were, and offers the
/// change for redo.
pub proof fn lemma_undo_restores_selection(s: EditorView, cells: Set<(i32, i32)>)
    requires
        s.selection_consistent(),
    ensures
        ({
            let t = s.after_select(cells).after_undo();
            &&& t.selection_cells == s.selection_cells
            &&& t.selection == s.selection
            &&& t.session == s.session
            &&& t.selection_undo == s.selection_undo
            &&& t.undo_order == s.undo_order
            &&& t.selection_redo == seq![s.after_select(cells).selection_cells]
            &&& t.redo_order == seq![UndoActionKind::SelectionChange]
        }),
{
    let u = s.after_select(cells);
    assert(u.undo_order.drop_last() =~= s.undo_order);
    assert(u.selection_undo.drop_last() =~= s.selection_undo);
    assert(Seq::<Option<Set<(i32, i32)>>>::empty().push(u.selection_cells) =~= seq![u.selection_cells]);
    assert(Seq::<UndoActionKind>::empty().push(UndoActionKind::SelectionChange) =~= seq![
        UndoActionKind::SelectionChange,
    ]);
}

/// Redoing an undone selection change brings the changed selection back,
/// with the same history as right after the change.
pub proof fn lemma_redo_replays_selection(s: EditorView, cells: Set<(i32, i32)>)
    requires
        s.selection_consistent(),
    ensures
        ({
            let u = s.after_select(cells);
            let t = u.after_undo().after_redo();
            &&& t.selection_cells == u.selection_cells
            &&& t.selection == u.selection
            &&& t.session == u.session
            &&& t.selection_undo == u.selection_undo
            &&& t.undo_order == u.undo_order
            &&& t.selection_redo.len() == 0
            &&& t.redo_order.len() == 0
        }),
{
    let u = s.after_select(cells);
    lemma_undo_restores_selection(s, cells);
    let v = u.after_undo();
    assert(v.redo_order.len() == 1);
    assert(v.selection_redo.len() == 1);
    assert(v.selection_undo.push(v.selection_cells) =~= u.selection_undo);
    assert(v.undo_order.push(UndoActionKind::SelectionChange) =~= u.undo_order);
}

/// Undoing the dismissal of a selection brings the selection back.
pub proof fn lemma_undo_restores_dismissed_selection(s: EditorView)
    requires
        s.selection_consistent(),
    ensures
        s.after_dismiss().after_undo().selection_cells == s.selection_cells,
        s.after_dismiss().after_undo().selection == s.selection,
        s.after_dismiss().after_undo().undo_order == s.undo_order,
        s.after_dismiss().after_undo().selection_undo == s.selection_undo,
{
    let u = s.after_dismiss();
    assert(u.undo_order.drop_last() =~= s.undo_order);
    assert(u.selection_undo.drop_last() =~= s.selection_undo);
}

} // verus!
