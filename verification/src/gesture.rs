//! The single-finger gesture on the canvas: what pressing, dragging and
//! releasing over the map's cells do under each tool. The caller turns
//! screen positions into cells and reads the clock.

use vstd::prelude::*;
use crate::editor::{
    EditorState, EditorView, ShapeFillPreview, Status, TileSelectionMode, Tool, TouchGesture, TransferView,
    UndoActionKind,
};
use crate::region::{TileSelectionRegion, bounding_region, selection_bounds, selection_cells_from_region};
use crate::selection::{span, tap_outcome};
use crate::shape::{ShapeFillMode, max_u32, min_u32};
use crate::document::{tile_layer_status, tile_view, with_tiles};
use crate::history::set_tile_outcome;
use crate::layer::{EditorError, TileLayerView, lemma_grid_unique, lemma_layer_index};


verus! {

broadcast use {vstd::std_specs::btree::group_btree_axioms, vstd::laws_cmp::group_laws_cmp};

/// How long a finger must rest before a paint drag starts, in milliseconds.
pub const LONG_PRESS_MS: u64 = 120;

/// The tools that work on tile selections.
pub open spec fn selects_tiles(tool: Tool) -> bool {
    tool == Tool::Select || tool == Tool::MagicWand || tool == Tool::SelectSameTile
}

/// A press at `anchor` (or off the map) with a selection tool, in replace
/// mode, outside the current selection: the gesture can only dismiss it.
pub open spec fn starts_outside(s: EditorView, anchor: Option<(u32, u32)>) -> bool {
    &&& selects_tiles(s.tool)
    &&& s.tile_selection_mode == TileSelectionMode::Replace
    &&& s.transfer is None
    &&& s.selection_cells is Some
    &&& match anchor {
        None => true,
        Some(c) => !s.selection_cells->Some_0.contains((c.0 as i32, c.1 as i32)),
    }
}

/// The rectangle between two corners.
pub open spec fn corners(a: (i32, i32), b: (i32, i32)) -> TileSelectionRegion {
    TileSelectionRegion { start_cell: a, end_cell: b }
}

/// Both corner differences fit in cell coordinates.
pub open spec fn corners_fit(a: (i32, i32), b: (i32, i32)) -> bool {
    i32::MIN <= a.0 - b.0 <= i32::MAX && i32::MIN <= a.1 - b.1 <= i32::MAX
}

/// Where a floating selection lifted from `t` lands when the finger moved
/// from `anchor` to `current`: its source rectangle shifted by the move,
/// when the result stays within cell coordinates.
pub open spec fn moved_region(t: TransferView, anchor: (i32, i32), current: (i32, i32)) -> Option<
    TileSelectionRegion,
> {
    let (sx, sy, _, _) = t.source_selection.bounds();
    let nx = sx + (current.0 - anchor.0);
    let ny = sy + (current.1 - anchor.1);
    let ex = nx + t.width - 1;
    let ey = ny + t.height - 1;
    if i32::MIN <= current.0 - anchor.0 <= i32::MAX && i32::MIN <= current.1 - anchor.1 <= i32::MAX
        && i32::MIN <= nx <= i32::MAX && i32::MIN <= ny <= i32::MAX && i32::MIN <= ex <= i32::MAX
        && i32::MIN <= ey <= i32::MAX {
        Some(TileSelectionRegion { start_cell: (nx as i32, ny as i32), end_cell: (ex as i32, ey as i32) })
    } else {
        None
    }
}

/// A shape between two corners whose cells can be counted: an ellipse's
/// box must be narrower than the full range of columns and rows.
pub open spec fn shape_fits(mode: ShapeFillMode, sx: u32, sy: u32, ex: u32, ey: u32) -> bool {
    mode == ShapeFillMode::Ellipse ==> max_u32(sx, ex) - min_u32(sx, ex) + 1 <= u32::MAX && max_u32(sy, ey)
        - min_u32(sy, ey) + 1 <= u32::MAX
}

impl EditorView {
    /// The state after a finger goes down on `anchor` (or off the map) at
    /// time `now`: the gesture starts and its edit batch opens.
    pub open spec fn after_touch_start(self, anchor: Option<(u32, u32)>, now: u64) -> EditorView {
        let outside = starts_outside(self, anchor);
        (EditorView {
            gesture: Some(
                TouchGesture {
                    started_at: now,
                    drag_active: false,
                    outside_existing_selection: outside,
                    anchor_cell: if outside {
                        None
                    } else {
                        match anchor {
                            Some(c) => Some((c.0 as i32, c.1 as i32)),
                            None => None,
                        }
                    },
                    last_applied_cell: None,
                },
            ),
            ..self
        }).after_batch_start()
    }

    /// The state after the finger moves over `cell` (the map cell under it,
    /// if any) and `signed` (the grid cell under it, possibly off the map)
    /// at time `now`: paint tools paint after a long press, shape fill
    /// previews its shape, and the select tool previews a rectangle or
    /// moves the floating selection.
    pub open spec fn after_drag(self, cell: Option<(u32, u32)>, signed: Option<(i32, i32)>, now: u64) -> EditorView {
        match self.gesture {
            None => self,
            Some(g) => match self.tool {
                Tool::Paint | Tool::Erase => {
                    let elapsed = if now >= g.started_at {
                        now - g.started_at
                    } else {
                        0
                    };
                    let should = elapsed >= LONG_PRESS_MS || g.drag_active;
                    let g1 = TouchGesture { drag_active: g.drag_active || should, ..g };
                    let s1 = EditorView { gesture: Some(g1), ..self };
                    match cell {
                        Some(c) => if should && g.last_applied_cell != Some(c) {
                            EditorView {
                                gesture: Some(TouchGesture { last_applied_cell: Some(c), ..g1 }),
                                ..s1.after_cell_tool(c.0, c.1)
                            }
                        } else {
                            s1
                        },
                        None => s1,
                    }
                },
                Tool::ShapeFill => {
                    let s1 = EditorView { gesture: Some(TouchGesture { drag_active: true, ..g }), ..self };
                    match (g.anchor_cell, cell) {
                        (Some(a), Some(c)) => EditorView {
                            shape_fill_preview: Some(
                                ShapeFillPreview { start_cell: (a.0 as u32, a.1 as u32), end_cell: c },
                            ),
                            ..s1
                        },
                        _ => s1,
                    }
                },
                Tool::Select => {
                    let s1 = EditorView { gesture: Some(TouchGesture { drag_active: true, ..g }), ..self };
                    match (g.anchor_cell, signed) {
                        (Some(a), Some(c)) => match self.transfer {
                            Some(t) => match moved_region(t, a, c) {
                                Some(r) => EditorView {
                                    selection: Some(r),
                                    selection_cells: Some(r.cell_set()),
                                    canvas_dirty: true,
                                    ..s1
                                },
                                None => s1,
                            },
                            None => EditorView {
                                preview_cells: Some(corners(a, c).cell_set()),
                                canvas_dirty: true,
                                ..s1
                            },
                        },
                        _ => s1,
                    }
                },
                _ => self,
            },
        }
    }

    /// The state after a tap on `c` with a selection tool at time `now`:
    /// the tap dismisses the selection, or falls through to the tool.
    pub open spec fn after_selection_tap(self, c: (u32, u32), now: u64) -> EditorView {
        let (consumed, s) = tap_outcome(self, c.0, c.1, now);
        if consumed {
            s
        } else {
            s.after_cell_tool(c.0, c.1)
        }
    }

    /// What a release with the select tool does, on the state `self`
    /// whose gesture `g` has just ended.
    pub open spec fn release_select(
        self,
        g: Option<TouchGesture>,
        cell: Option<(u32, u32)>,
        signed: Option<(i32, i32)>,
        now: u64,
    ) -> EditorView {
        let s = EditorView { preview_cells: None, ..self };
        let (was_drag, outside, anchor) = match g {
            Some(g) => (g.drag_active, g.outside_existing_selection, g.anchor_cell),
            None => (false, false, None),
        };
        if self.transfer is Some {
            s
        } else if outside {
            s.after_dismiss()
        } else {
            match anchor {
                Some(a) if was_drag => {
                    let end = match signed {
                        Some(e) => e,
                        None => a,
                    };
                    if corners_fit(a, end) {
                        s.after_select(corners(a, end).cell_set()).with_status(
                            Status::SelectedRegion(span(a.0, end.0) as u32, span(a.1, end.1) as u32),
                        )
                    } else {
                        s.with_status(Status::SelectionTooLarge)
                    }
                },
                _ => match cell {
                    Some(c) => s.after_selection_tap(c, now),
                    None => s,
                },
            }
        }
    }

    /// What a release does under the current tool, on the state `self`
    /// whose gesture `g` has just ended.
    pub open spec fn release_action(
        self,
        g: Option<TouchGesture>,
        cell: Option<(u32, u32)>,
        signed: Option<(i32, i32)>,
        now: u64,
    ) -> EditorView {
        let was_drag = match g {
            Some(g) => g.drag_active,
            None => false,
        };
        let outside = match g {
            Some(g) => g.outside_existing_selection,
            None => false,
        };
        match self.tool {
            Tool::Paint | Tool::Erase => match cell {
                Some(c) => if !was_drag {
                    self.after_cell_tool(c.0, c.1)
                } else {
                    self
                },
                None => self,
            },
            Tool::Fill => match cell {
                Some(c) => self.after_cell_tool(c.0, c.1),
                None => self,
            },
            Tool::ShapeFill => match self.shape_fill_preview {
                Some(p) => {
                    let s = EditorView { shape_fill_preview: None, ..self };
                    if shape_fits(s.shape_fill_mode, p.start_cell.0, p.start_cell.1, p.end_cell.0, p.end_cell.1) {
                        s.after_shape_fill(p.start_cell.0, p.start_cell.1, p.end_cell.0, p.end_cell.1)
                    } else {
                        s.with_status(Status::SelectionTooLarge)
                    }
                },
                None => self,
            },
            Tool::MagicWand | Tool::SelectSameTile => if outside {
                self.after_dismiss()
            } else {
                match cell {
                    Some(c) => self.after_selection_tap(c, now),
                    None => self,
                }
            },
            Tool::Select => self.release_select(g, cell, signed, now),
            _ => self,
        }
    }

    /// The state after the finger lifts over `cell` and `signed` at time
    /// `now`: taps apply the tool, shape fill fills its preview, the select
    /// tool selects the dragged rectangle, and the gesture's edit batch
    /// closes.
    pub open spec fn after_release(self, cell: Option<(u32, u32)>, signed: Option<(i32, i32)>, now: u64) -> EditorView {
        (EditorView { gesture: None, ..self }).release_action(self.gesture, cell, signed, now).after_batch_finish()
    }
}

impl EditorState {
    /// A finger goes down on `anchor` (the map cell under it, if any) at
    /// time `now`.
    pub fn start_single_gesture(&mut self, anchor: Option<(u32, u32)>, now: u64)
        requires
            old(self)@.wf(),
        ensures
            final(self)@.wf(),
            final(self)@ == old(self)@.after_touch_start(anchor, now),
    {
        let selecting = match self.tool {
            Tool::Select | Tool::MagicWand | Tool::SelectSameTile => true,
            _ => false,
        };
        let outside = selecting && self.tile_selection_mode == TileSelectionMode::Replace
            && self.tile_selection_transfer.is_none() && match &self.tile_selection_cells {
            None => false,
            Some(cells) => match anchor {
                None => true,
                Some(c) => !cells.contains(&(c.0 as i32, c.1 as i32)),
            },
        };
        let anchor_cell = if outside {
            None
        } else {
            match anchor {
                Some(c) => Some((c.0 as i32, c.1 as i32)),
                None => None,
            }
        };
        self.single_touch_gesture = Some(
            TouchGesture {
                started_at: now,
                drag_active: false,
                outside_existing_selection: outside,
                anchor_cell,
                last_applied_cell: None,
            },
        );
        self.start_touch_edit_batch();
    }

    /// The finger moves over `cell` (the map cell under it, if any) and
    /// `signed` (the grid cell under it, possibly off the map) at time
    /// `now`.
    pub fn handle_drag(&mut self, cell: Option<(u32, u32)>, signed: Option<(i32, i32)>, now: u64)
        requires
            old(self)@.wf(),
        ensures
            final(self)@.wf(),
            final(self)@ == old(self)@.after_drag(cell, signed, now),
    {
        let g = match self.single_touch_gesture {
            Some(g) => g,
            None => {
                return;
            },
        };
        match self.tool {
            Tool::Paint | Tool::Erase => {
                let elapsed = if now >= g.started_at {
                    now - g.started_at
                } else {
                    0
                };
                let should = elapsed >= LONG_PRESS_MS || g.drag_active;
                let g1 = TouchGesture { drag_active: g.drag_active || should, ..g };
                self.single_touch_gesture = Some(g1);
                match cell {
                    Some(c) => {
                        let repeat = match g.last_applied_cell {
                            Some(l) => l.0 == c.0 && l.1 == c.1,
                            None => false,
                        };
                        if should && !repeat {
                            self.apply_cell_tool(c.0, c.1);
                            self.single_touch_gesture = Some(TouchGesture { last_applied_cell: Some(c), ..g1 });
                        }
                    },
                    None => {},
                }
            },
            Tool::ShapeFill => {
                self.single_touch_gesture = Some(TouchGesture { drag_active: true, ..g });
                match (g.anchor_cell, cell) {
                    (Some(a), Some(c)) => {
                        self.shape_fill_preview = Some(
                            ShapeFillPreview { start_cell: (a.0 as u32, a.1 as u32), end_cell: c },
                        );
                    },
                    _ => {},
                }
            },
            Tool::Select => {
                self.single_touch_gesture = Some(TouchGesture { drag_active: true, ..g });
                match (g.anchor_cell, signed) {
                    (Some(a), Some(c)) => {
                        let moved = match &self.tile_selection_transfer {
                            Some(t) => Some(moved_transfer_region(t.source_selection, t.width, t.height, a, c)),
                            None => None,
                        };
                        match moved {
                            Some(Some(r)) => {
                                self.tile_selection = Some(r);
                                self.tile_selection_cells = Some(selection_cells_from_region(r));
                                self.canvas_dirty = true;
                            },
                            Some(None) => {},
                            None => {
                                let r = TileSelectionRegion { start_cell: a, end_cell: c };
                                self.tile_selection_preview_cells = Some(selection_cells_from_region(r));
                                self.canvas_dirty = true;
                            },
                        }
                    },
                    _ => {},
                }
            },
            _ => {},
        }
    }

    /// A tap on `c` with a selection tool at time `now`.
    fn selection_tap(&mut self, c: (u32, u32), now: u64)
        requires
            old(self)@.wf(),
        ensures
            final(self)@.wf(),
            final(self)@ == old(self)@.after_selection_tap(c, now),
    {
        if !self.try_dismiss_selection(c.0, c.1, now) {
            self.apply_cell_tool(c.0, c.1);
        }
    }

    /// A release with the select tool, after gesture `g` ended.
    fn release_select(&mut self, g: Option<TouchGesture>, cell: Option<(u32, u32)>, signed: Option<(i32, i32)>, now: u64)
        requires
            old(self)@.wf(),
        ensures
            final(self)@.wf(),
            final(self)@ == old(self)@.release_select(g, cell, signed, now),
    {
        let (was_drag, outside, anchor) = match g {
            Some(g) => (g.drag_active, g.outside_existing_selection, g.anchor_cell),
            None => (false, false, None),
        };
        self.tile_selection_preview_cells = None;
        if self.tile_selection_transfer.is_some() {
            return;
        }
        if outside {
            self.dismiss_selection();
            return;
        }
        match anchor {
            Some(a) if was_drag => {
                let end = match signed {
                    Some(e) => e,
                    None => a,
                };
                let dx: i64 = a.0 as i64 - end.0 as i64;
                let dy: i64 = a.1 as i64 - end.1 as i64;
                if -0x8000_0000 <= dx && dx <= 0x7fff_ffff && -0x8000_0000 <= dy && dy <= 0x7fff_ffff {
                    self.select_tile_region(a.0, a.1, end.0, end.1);
                } else {
                    self.status = Status::SelectionTooLarge;
                }
            },
            _ => {
                match cell {
                    Some(c) => self.selection_tap(c, now),
                    None => {},
                }
            },
        }
    }

    /// What a release does under the current tool, after gesture `g` ended.
    fn release_action(&mut self, g: Option<TouchGesture>, cell: Option<(u32, u32)>, signed: Option<(i32, i32)>, now: u64)
        requires
            old(self)@.wf(),
        ensures
            final(self)@.wf(),
            final(self)@ == old(self)@.release_action(g, cell, signed, now),
    {
        let (was_drag, outside) = match g {
            Some(g) => (g.drag_active, g.outside_existing_selection),
            None => (false, false),
        };
        match self.tool {
            Tool::Paint | Tool::Erase => {
                match cell {
                    Some(c) => {
                        if !was_drag {
                            self.apply_cell_tool(c.0, c.1);
                        }
                    },
                    None => {},
                }
            },
            Tool::Fill => {
                match cell {
                    Some(c) => self.apply_cell_tool(c.0, c.1),
                    None => {},
                }
            },
            Tool::ShapeFill => {
                match self.shape_fill_preview.take() {
                    Some(p) => {
                        if shape_fits_check(self.shape_fill_mode, p.start_cell.0, p.start_cell.1, p.end_cell.0, p.end_cell.1) {
                            self.apply_shape_fill(p.start_cell.0, p.start_cell.1, p.end_cell.0, p.end_cell.1);
                        } else {
                            self.status = Status::SelectionTooLarge;
                        }
                    },
                    None => {},
                }
            },
            Tool::MagicWand | Tool::SelectSameTile => {
                if outside {
                    self.dismiss_selection();
                } else {
                    match cell {
                        Some(c) => self.selection_tap(c, now),
                        None => {},
                    }
                }
            },
            Tool::Select => self.release_select(g, cell, signed, now),
            _ => {},
        }
    }

    /// The finger lifts over `cell` and `signed` at time `now`.
    pub fn handle_release(&mut self, cell: Option<(u32, u32)>, signed: Option<(i32, i32)>, now: u64)
        requires
            old(self)@.wf(),
        ensures
            final(self)@.wf(),
            final(self)@ == old(self)@.after_release(cell, signed, now),
    {
        let gesture = self.single_touch_gesture.take();
        self.release_action(gesture, cell, signed, now);
        self.finish_touch_edit_batch();
    }

    /// A second finger came down: the single-finger gesture ends, its
    /// batch closes and any shape preview is dropped.
    pub fn cancel_single_gesture(&mut self)
        requires
            old(self)@.wf(),
        ensures
            final(self)@.wf(),
            final(self)@ == (EditorView { gesture: None, shape_fill_preview: None, ..old(self)@.after_batch_finish() }),
    {
        self.finish_touch_edit_batch();
        self.single_touch_gesture = None;
        self.shape_fill_preview = None;
    }
}

/// Pressing on one cell with the select tool, dragging, and lifting over
/// another selects exactly the rectangle between the two cells (when
/// nothing was selected or floating, in replace mode), as one selection
/// step of the history.
pub proof fn lemma_drag_selects_rectangle(
    s: EditorView,
    a: (u32, u32),
    e: (i32, i32),
    over: Option<(u32, u32)>,
    t0: u64,
    t1: u64,
    t2: u64,
)
    requires
        s.tool == Tool::Select,
        s.tile_selection_mode == TileSelectionMode::Replace,
        s.transfer is None,
        s.selection_cells is None,
        !s.touch_edit_batch_active,
        s.session matches Some(ss) ==> !ss.batch_active,
        corners_fit((a.0 as i32, a.1 as i32), e),
    ensures
        ({
            let r = corners((a.0 as i32, a.1 as i32), e);
            let v = s.after_touch_start(Some(a), t0).after_drag(over, Some(e), t1).after_release(over, Some(e), t2);
            &&& v.selection_cells == Some(r.cell_set())
            &&& v.selection == bounding_region(r.cell_set())
            &&& v.gesture is None
            &&& v.undo_order.last() == UndoActionKind::SelectionChange
        }),
{
    let ai = (a.0 as i32, a.1 as i32);
    let r = corners(ai, e);
    assert(r.cell_set().contains(ai));
    let s1 = s.after_touch_start(Some(a), t0);
    assert(s1.gesture == Some(
        TouchGesture {
            started_at: t0,
            drag_active: false,
            outside_existing_selection: false,
            anchor_cell: Some(ai),
            last_applied_cell: None,
        },
    ));
    let s2 = s1.after_drag(over, Some(e), t1);
    assert(s2.gesture->Some_0.drag_active);
    assert(s2.gesture->Some_0.anchor_cell == Some(ai));
    let s3 = (EditorView { gesture: None, ..s2 }).release_action(s2.gesture, over, Some(e), t2);
    assert(s3.selection_cells == Some(r.cell_set()));
}

/// A press outside the selection (in replace mode, with a selection tool
/// and nothing floating) only dismisses the selection, wherever the
/// finger is dragged and lifted.
pub proof fn lemma_press_outside_only_dismisses(
    s: EditorView,
    anchor: Option<(u32, u32)>,
    over: Option<(u32, u32)>,
    signed: Option<(i32, i32)>,
    t0: u64,
    t1: u64,
    t2: u64,
)
    requires
        starts_outside(s, anchor),
    ensures
        ({
            let v = s.after_touch_start(anchor, t0).after_drag(over, signed, t1).after_release(over, signed, t2);
            &&& v.selection is None
            &&& v.selection_cells is None
            &&& v.status == crate::editor::Status::SelectionCleared
        }),
{
    let s1 = s.after_touch_start(anchor, t0);
    assert(s1.gesture->Some_0.outside_existing_selection);
    assert(s1.gesture->Some_0.anchor_cell is None);
    let s2 = s1.after_drag(over, signed, t1);
    assert(s2.gesture->Some_0.outside_existing_selection);
    assert(s2.transfer is None);
}

/// Pressing a finger down never changes the map: tools act on drag or
/// release.
pub proof fn lemma_press_keeps_document(s: EditorView, anchor: Option<(u32, u32)>, t: u64)
    ensures
        match (s.session, s.after_touch_start(anchor, t).session) {
            (Some(a), Some(b)) => a.document == b.document && a.undo == b.undo,
            (None, None) => true,
            _ => false,
        },
{
}

/// Where a floating selection lands after the finger moved from `anchor`
/// to `current`; `None` when it would leave cell coordinates.
fn moved_transfer_region(
    source: TileSelectionRegion,
    width: u32,
    height: u32,
    anchor: (i32, i32),
    current: (i32, i32),
) -> (r: Option<TileSelectionRegion>)
    ensures
        forall|t: TransferView|
            t.source_selection == source && t.width == width && t.height == height ==> r == moved_region(
                t,
                anchor,
                current,
            ),
{
    let (sx, sy, _, _) = selection_bounds(&source);
    let dx: i64 = current.0 as i64 - anchor.0 as i64;
    let dy: i64 = current.1 as i64 - anchor.1 as i64;
    let nx: i64 = sx as i64 + dx;
    let ny: i64 = sy as i64 + dy;
    let ex: i64 = nx + width as i64 - 1;
    let ey: i64 = ny + height as i64 - 1;
    let lo: i64 = -0x8000_0000;
    let hi: i64 = 0x7fff_ffff;
    if lo <= dx && dx <= hi && lo <= dy && dy <= hi && lo <= nx && nx <= hi && lo <= ny && ny <= hi && lo
        <= ex && ex <= hi && lo <= ey && ey <= hi {
        Some(TileSelectionRegion { start_cell: (nx as i32, ny as i32), end_cell: (ex as i32, ey as i32) })
    } else {
        None
    }
}

/// Whether the shape between two corners can be filled.
fn shape_fits_check(mode: ShapeFillMode, sx: u32, sy: u32, ex: u32, ey: u32) -> (b: bool)
    ensures
        b == shape_fits(mode, sx, sy, ex, ey),
{
    match mode {
        ShapeFillMode::Rectangle => true,
        ShapeFillMode::Ellipse => {
            let wx = if sx <= ex {
                ex - sx
            } else {
                sx - ex
            };
            let wy = if sy <= ey {
                ey - sy
            } else {
                sy - ey
            };
            wx < 0xffff_ffff && wy < 0xffff_ffff
        },
    }
}


/// A tap with a selection tool keeps the tool and the (ended) gesture,
/// and a select-tool tap leaves no selection preview behind.
proof fn lemma_selection_tap_keeps(s: EditorView, c: (u32, u32), now: u64)
    requires
        s.preview_cells is None,
    ensures
        s.after_selection_tap(c, now).gesture == s.gesture,
        s.after_selection_tap(c, now).tool == s.tool,
        s.tool == Tool::Select ==> s.after_selection_tap(c, now).preview_cells is None,
{
    let (consumed, t) = tap_outcome(s, c.0, c.1, now);
    assert(t.gesture == s.gesture && t.tool == s.tool && t.preview_cells is None);
    if !consumed {
        let u = EditorView { selected_cell: Some((c.0, c.1)), ..t };
        assert(u.tool == s.tool);
    }
}

/// What a release does under any tool keeps the tool and the gesture;
/// shape fill drops its preview and the select tool its selection preview.
proof fn lemma_release_action_keeps(
    s: EditorView,
    g: Option<TouchGesture>,
    cell: Option<(u32, u32)>,
    signed: Option<(i32, i32)>,
    now: u64,
)
    ensures
        s.release_action(g, cell, signed, now).gesture == s.gesture,
        s.release_action(g, cell, signed, now).tool == s.tool,
        s.tool == Tool::ShapeFill ==> s.release_action(g, cell, signed, now).shape_fill_preview is None,
        s.tool == Tool::Select ==> s.release_action(g, cell, signed, now).preview_cells is None,
{
    if s.tool == Tool::Select {
        let t = EditorView { preview_cells: None, ..s };
        match cell {
            Some(c) => lemma_selection_tap_keeps(t, c, now),
            None => {},
        }
    } else if s.tool == Tool::MagicWand || s.tool == Tool::SelectSameTile {
        match cell {
            Some(c) => {
                let (consumed, t) = tap_outcome(s, c.0, c.1, now);
                assert(t.gesture == s.gesture && t.tool == s.tool);
            },
            None => {},
        }
    }
}

/// Lifting the finger ends the single-finger gesture and closes its edit
/// batch, whatever the tool, and the tool stays; with shape fill no shape
/// preview is left, and with the select tool no selection preview.
pub proof fn lemma_release_ends_gesture(
    s: EditorView,
    cell: Option<(u32, u32)>,
    signed: Option<(i32, i32)>,
    now: u64,
)
    ensures
        s.after_release(cell, signed, now).gesture is None,
        !s.after_release(cell, signed, now).touch_edit_batch_active,
        s.after_release(cell, signed, now).tool == s.tool,
        s.tool == Tool::ShapeFill ==> s.after_release(cell, signed, now).shape_fill_preview is None,
        s.tool == Tool::Select ==> s.after_release(cell, signed, now).preview_cells is None,
{
    let s1 = EditorView { gesture: None, ..s };
    lemma_release_action_keeps(s1, s.gesture, cell, signed, now);
    let s2 = s1.release_action(s.gesture, cell, signed, now);
    assert(s2.gesture is None);
}


/// With the paint or erase tool, once the finger has rested at least
/// `LONG_PRESS_MS` (or is already dragging), moving onto a cell of the
/// active tile layer other than the last one painted puts the selected
/// tile there (the empty tile 0 when erasing); every other cell of that
/// layer and every other layer stay as they were, and the gesture becomes
/// a drag that last painted that cell.
pub proof fn lemma_long_press_drag_paints(
    s: EditorView,
    c: (u32, u32),
    signed: Option<(i32, i32)>,
    now: u64,
    x: int,
    y: int,
)
    requires
        s.wf(),
        s.tool == Tool::Paint || s.tool == Tool::Erase,
        s.gesture matches Some(g) && g.last_applied_cell != Some(c) && (g.drag_active || (now >= g.started_at
            && now - g.started_at >= LONG_PRESS_MS)),
        s.session matches Some(ss) && tile_layer_status(ss.document, s.active_layer as int) is Ok
            && tile_view(ss.document, s.active_layer as int).in_bounds(c.0 as int, c.1 as int),
        tile_view(s.session->Some_0.document, s.active_layer as int).in_bounds(x, y),
    ensures
        ({
            let doc = s.session->Some_0.document;
            let i = s.active_layer as int;
            let v = s.after_drag(Some(c), signed, now);
            &&& v.session is Some
            &&& v.session->Some_0.document.len() == doc.len()
            &&& forall|j: int| 0 <= j < doc.len() && j != i ==> v.session->Some_0.document[j] == doc[j]
            &&& tile_layer_status(v.session->Some_0.document, i) is Ok
            &&& tile_view(v.session->Some_0.document, i).tile(x, y) == (if x == c.0 && y == c.1 {
                if s.tool == Tool::Erase {
                    0
                } else {
                    s.selected_gid
                }
            } else {
                tile_view(doc, i).tile(x, y)
            })
            &&& v.gesture matches Some(g2) && g2.drag_active && g2.last_applied_cell == Some(c)
        }),
{
    let ss = s.session->Some_0;
    let doc = ss.document;
    let i = s.active_layer as int;
    let t = tile_view(doc, i);
    assert(t.wf());
    let gid: u32 = if s.tool == Tool::Erase { 0 } else { s.selected_gid };
    let t2 = t.with_tile(c.0 as int, c.1 as int, gid);
    assert(set_tile_outcome(doc, i, c.0, c.1, gid) == Ok::<TileLayerView, EditorError>(t2));
    let v = s.after_drag(Some(c), signed, now);
    let nd = with_tiles(doc, i, t2);
    assert(v.session == Some(ss.after_edit(nd)));
    assert(tile_view(nd, i) == t2);
    lemma_layer_index(t, x, y);
    lemma_layer_index(t, c.0 as int, c.1 as int);
    if !(x == c.0 && y == c.1) {
        if y * t.width + x == c.1 * t.width + c.0 {
            lemma_grid_unique(t.width as int, x, y, c.0 as int, c.1 as int);
        }
    }
}

} // verus!
