//! Objects on object layers: deleting the selected one, and how a
//! dragged object snaps.

use vstd::prelude::*;
use crate::editor::{EditorState, EditorView, Status, UndoActionKind};
use crate::history::remove_object_outcome;

verus! {

impl EditorView {
    /// The state after the selected object is deleted from the active
    /// layer as one document step; a refused deletion is reported.
    pub open spec fn after_delete_object(self) -> EditorView {
        match (self.selected_object, self.session) {
            (Some(id), Some(ss)) => match remove_object_outcome(ss.document, self.active_layer as int, id) {
                Ok(next) => EditorView {
                    session: Some(ss.after_edit(next)),
                    selected_object: None,
                    undo_order: self.undo_order.push(UndoActionKind::DocumentEdit),
                    redo_order: Seq::empty(),
                    canvas_dirty: true,
                    tiles_dirty: true,
                    ..self
                },
                Err(e) => self.with_status(Status::DeleteObjectFailed(e)),
            },
            _ => self,
        }
    }
}

impl EditorState {
    /// Deletes the selected object from the active layer.
    pub fn delete_selected_object(&mut self)
        requires
            old(self)@.wf(),
        ensures
            final(self)@.wf(),
            final(self)@ == old(self)@.after_delete_object(),
    {
        let id = match self.selected_object {
            Some(id) => id,
            None => {
                return;
            },
        };
        let layer = self.active_layer;
        let r = match &mut self.session {
            Some(session) => session.remove_object(layer, id),
            None => {
                return;
            },
        };
        match r {
            Ok(()) => {
                self.selected_object = None;
                self.undo_action_order.push(UndoActionKind::DocumentEdit);
                self.redo_action_order = Vec::new();
                self.canvas_dirty = true;
                self.tiles_dirty = true;
                proof {
                    assert(self@.redo_order =~= Seq::<UndoActionKind>::empty());
                }
            },
            Err(e) => {
                self.status = Status::DeleteObjectFailed(e);
            },
        }
    }
}


/// Where a dragged object snaps to: the tile grid or whole pixels, at
/// most one of the two.
#[derive(Clone, Copy, Debug, PartialEq, Eq, Structural)]
pub struct ObjectSnap {
    pub snap_to_grid: bool,
    pub snap_to_int: bool,
}

impl ObjectSnap {
    /// Toggles grid snapping (`is_grid`) or pixel snapping; switching one
    /// on switches the other off.
    pub fn toggle_snap(&mut self, is_grid: bool)
        ensures
            is_grid ==> final(self).snap_to_grid == !old(self).snap_to_grid && final(self).snap_to_int == (
            old(self).snap_to_int && old(self).snap_to_grid),
            !is_grid ==> final(self).snap_to_int == !old(self).snap_to_int && final(self).snap_to_grid == (
            old(self).snap_to_grid && old(self).snap_to_int),
            !(final(self).snap_to_grid && final(self).snap_to_int),
    {
        if is_grid {
            self.snap_to_grid = !self.snap_to_grid;
            if self.snap_to_grid {
                self.snap_to_int = false;
            }
        } else {
            self.snap_to_int = !self.snap_to_int;
            if self.snap_to_int {
                self.snap_to_grid = false;
            }
        }
    }
}

} // verus!
