//! The editor's tile-editing state: tools, the tile selection with its own
//! undo history, the floating (copied or cut) selection, and the status
//! line that reports each action.

use std::collections::BTreeSet;
use vstd::prelude::*;
use crate::history::{EditorSession, SessionView};
use crate::layer::EditorError;
use crate::region::TileSelectionRegion;
use crate::shape::ShapeFillMode;

verus! {

broadcast use {vstd::std_specs::btree::group_btree_axioms, vstd::laws_cmp::group_laws_cmp};

/// The editing tools.
#[derive(Clone, Copy, Debug, PartialEq, Eq, Structural)]
pub enum Tool {
    Hand,
    Paint,
    Fill,
    ShapeFill,
    Erase,
    Select,
    MagicWand,
    SelectSameTile,
    AddRectangle,
    AddPoint,
    InsertTile,
    SelectObject,
}

/// How a new tile selection combines with the current one.
#[derive(Clone, Copy, Debug, PartialEq, Eq, Structural)]
pub enum TileSelectionMode {
    Replace,
    Add,
    Subtract,
    Intersect,
}

/// Which history an undo or redo step belongs to.
#[derive(Clone, Copy, Debug, PartialEq, Eq, Structural)]
pub enum UndoActionKind {
    DocumentEdit,
    SelectionChange,
}

/// Whether the floating selection was copied or cut.
#[derive(Clone, Copy, Debug, PartialEq, Eq, Structural)]
pub enum TileSelectionTransferMode {
    Copy,
    Cut,
}

/// The live preview of a shape-fill gesture.
#[derive(Clone, Copy, Debug, PartialEq, Eq)]
pub struct ShapeFillPreview {
    pub start_cell: (u32, u32),
    pub end_cell: (u32, u32),
}

/// The single-finger gesture in progress on the canvas.
#[derive(Clone, Copy, Debug, PartialEq, Eq)]
pub struct TouchGesture {
    /// Milliseconds on the caller's clock when the finger went down.
    pub started_at: u64,
    /// The finger has moved with a drag-based tool, or held long enough
    /// to paint.
    pub drag_active: bool,
    /// The gesture started outside the selection in replace mode.
    pub outside_existing_selection: bool,
    /// The cell under the finger when it went down.
    pub anchor_cell: Option<(i32, i32)>,
    /// The last cell a drag painted.
    pub last_applied_cell: Option<(u32, u32)>,
}

/// Tiles kept for pasting: a `width`×`height` grid with its mask.
#[derive(Debug)]
pub struct TileClipboard {
    pub width: u32,
    pub height: u32,
    pub tiles: Vec<u32>,
    pub mask: Vec<bool>,
}

/// A selection lifted off its layer and being moved around.
#[derive(Debug)]
pub struct TileSelectionTransfer {
    pub source_layer: usize,
    pub source_selection: TileSelectionRegion,
    pub source_mask: Vec<bool>,
    pub width: u32,
    pub height: u32,
    pub tiles: Vec<u32>,
    pub mask: Vec<bool>,
    pub mode: TileSelectionTransferMode,
}

/// What the status line reports after an action.
#[derive(Clone, Copy, Debug, PartialEq, Eq, Structural)]
pub enum Status {
    Welcome,
    NoMapLoaded,
    EditFailed(EditorError),
    SelectedRegion(u32, u32),
    MagicWandSelected(usize),
    SelectedSameTiles(usize),
    ShapeFilled(ShapeFillMode, usize),
    CopiedAtCurrentPosition(u32, u32),
    CopiedRegion(u32, u32),
    AlreadyCutMode,
    CutConverted(u32, u32),
    CutFailed(EditorError),
    CutRegion(u32, u32),
    SelectTileRegionFirst,
    ClearedSelectedRegion,
    DeleteFailed(EditorError),
    NothingToPlace,
    MoveSelectionBeforePlacing,
    CanceledLayerChanged,
    PlacedSelection(i32, i32),
    PlaceFailed(EditorError),
    CancelRestoreFailed,
    SelectionCleared,
    Flipped(bool),
    Rotated,
    SelectRegionFirst,
    FlipFailed(EditorError),
    RotateFailed(EditorError),
    DeletedSourceAndExited,
    UndoSelection,
    UndoApplied,
    NothingToUndo,
    RedoSelection,
    RedoApplied,
    NothingToRedo,
    SelectionTooLarge,
    DeleteObjectFailed(EditorError),
}

/// The mathematical content of a clipboard.
pub struct ClipboardView {
    pub width: u32,
    pub height: u32,
    pub tiles: Seq<u32>,
    pub mask: Seq<bool>,
}

impl View for TileClipboard {
    type V = ClipboardView;

    open spec fn view(&self) -> ClipboardView {
        ClipboardView { width: self.width, height: self.height, tiles: self.tiles@, mask: self.mask@ }
    }
}

/// The mathematical content of a floating selection.
pub struct TransferView {
    pub source_layer: usize,
    pub source_selection: TileSelectionRegion,
    pub source_mask: Seq<bool>,
    pub width: u32,
    pub height: u32,
    pub tiles: Seq<u32>,
    pub mask: Seq<bool>,
    pub mode: TileSelectionTransferMode,
}

impl View for TileSelectionTransfer {
    type V = TransferView;

    open spec fn view(&self) -> TransferView {
        TransferView {
            source_layer: self.source_layer,
            source_selection: self.source_selection,
            source_mask: self.source_mask@,
            width: self.width,
            height: self.height,
            tiles: self.tiles@,
            mask: self.mask@,
            mode: self.mode,
        }
    }
}

/// The cells of an optional selection.
pub open spec fn cells_view(c: Option<BTreeSet<(i32, i32)>>) -> Option<Set<(i32, i32)>> {
    match c {
        Some(s) => Some(s@),
        None => None,
    }
}

/// The tile-editing state of the editor.
#[derive(Debug)]
pub struct EditorState {
    pub session: Option<EditorSession>,
    pub active_layer: usize,
    pub selected_gid: u32,
    pub selected_cell: Option<(u32, u32)>,
    pub selected_object: Option<u32>,
    pub tool: Tool,
    pub tile_selection_mode: TileSelectionMode,
    pub shape_fill_mode: ShapeFillMode,
    pub shape_fill_preview: Option<ShapeFillPreview>,
    pub tile_clipboard: Option<TileClipboard>,
    pub tile_selection: Option<TileSelectionRegion>,
    pub tile_selection_cells: Option<BTreeSet<(i32, i32)>>,
    pub tile_selection_preview: Option<TileSelectionRegion>,
    pub tile_selection_preview_cells: Option<BTreeSet<(i32, i32)>>,
    pub tile_selection_closing: Option<TileSelectionRegion>,
    pub tile_selection_closing_cells: Option<BTreeSet<(i32, i32)>>,
    /// Milliseconds on the caller's clock.
    pub tile_selection_closing_started_at: Option<u64>,
    /// Milliseconds on the caller's clock.
    pub tile_selection_last_tap_at: Option<u64>,
    pub tile_selection_transfer: Option<TileSelectionTransfer>,
    pub single_touch_gesture: Option<TouchGesture>,
    pub undo_action_order: Vec<UndoActionKind>,
    pub redo_action_order: Vec<UndoActionKind>,
    pub selection_undo_stack: Vec<Option<BTreeSet<(i32, i32)>>>,
    pub selection_redo_stack: Vec<Option<BTreeSet<(i32, i32)>>>,
    pub touch_edit_batch_active: bool,
    /// Layers hidden in the editor only (the document's own visibility
    /// flags stay as they are).
    pub hidden_layers: BTreeSet<usize>,
    /// The canvas zoom, in percent of the map's natural size.
    pub zoom_percent: i32,
    pub canvas_dirty: bool,
    pub tiles_dirty: bool,
    pub status: Status,
}

/// The mathematical content of the editor state.
pub struct EditorView {
    pub session: Option<SessionView>,
    pub active_layer: usize,
    pub selected_gid: u32,
    pub selected_cell: Option<(u32, u32)>,
    pub selected_object: Option<u32>,
    pub tool: Tool,
    pub tile_selection_mode: TileSelectionMode,
    pub shape_fill_mode: ShapeFillMode,
    pub shape_fill_preview: Option<ShapeFillPreview>,
    pub clipboard: Option<ClipboardView>,
    pub selection: Option<TileSelectionRegion>,
    pub selection_cells: Option<Set<(i32, i32)>>,
    pub preview: Option<TileSelectionRegion>,
    pub preview_cells: Option<Set<(i32, i32)>>,
    pub closing: Option<TileSelectionRegion>,
    pub closing_cells: Option<Set<(i32, i32)>>,
    pub closing_started_at: Option<u64>,
    pub last_tap_at: Option<u64>,
    pub transfer: Option<TransferView>,
    pub gesture: Option<TouchGesture>,
    pub undo_order: Seq<UndoActionKind>,
    pub redo_order: Seq<UndoActionKind>,
    pub selection_undo: Seq<Option<Set<(i32, i32)>>>,
    pub selection_redo: Seq<Option<Set<(i32, i32)>>>,
    pub touch_edit_batch_active: bool,
    pub hidden_layers: Set<usize>,
    pub zoom_percent: i32,
    pub canvas_dirty: bool,
    pub tiles_dirty: bool,
    pub status: Status,
}

impl View for EditorState {
    type V = EditorView;

    open spec fn view(&self) -> EditorView {
        EditorView {
            session: match self.session {
                Some(s) => Some(s@),
                None => None,
            },
            active_layer: self.active_layer,
            selected_gid: self.selected_gid,
            selected_cell: self.selected_cell,
            selected_object: self.selected_object,
            tool: self.tool,
            tile_selection_mode: self.tile_selection_mode,
            shape_fill_mode: self.shape_fill_mode,
            shape_fill_preview: self.shape_fill_preview,
            clipboard: match self.tile_clipboard {
                Some(c) => Some(c@),
                None => None,
            },
            selection: self.tile_selection,
            selection_cells: cells_view(self.tile_selection_cells),
            preview: self.tile_selection_preview,
            preview_cells: cells_view(self.tile_selection_preview_cells),
            closing: self.tile_selection_closing,
            closing_cells: cells_view(self.tile_selection_closing_cells),
            closing_started_at: self.tile_selection_closing_started_at,
            last_tap_at: self.tile_selection_last_tap_at,
            transfer: match self.tile_selection_transfer {
                Some(t) => Some(t@),
                None => None,
            },
            gesture: self.single_touch_gesture,
            undo_order: self.undo_action_order@,
            redo_order: self.redo_action_order@,
            selection_undo: self.selection_undo_stack@.map_values(
                |c: Option<BTreeSet<(i32, i32)>>| cells_view(c),
            ),
            selection_redo: self.selection_redo_stack@.map_values(
                |c: Option<BTreeSet<(i32, i32)>>| cells_view(c),
            ),
            touch_edit_batch_active: self.touch_edit_batch_active,
            hidden_layers: self.hidden_layers@,
            zoom_percent: self.zoom_percent,
            canvas_dirty: self.canvas_dirty,
            tiles_dirty: self.tiles_dirty,
            status: self.status,
        }
    }
}

impl EditorView {
    /// The session, when there is one, holds well-formed documents.
    pub open spec fn wf(self) -> bool {
        &&& self.session matches Some(s) ==> s.wf()
        &&& self.transfer matches Some(t) ==> t.wf()
    }

    /// The same state with the status line reporting `status`.
    pub open spec fn with_status(self, status: Status) -> EditorView {
        EditorView { status, ..self }
    }
}

/// A copy of an optional cell set.
pub fn clone_cells(c: &Option<BTreeSet<(i32, i32)>>) -> (r: Option<BTreeSet<(i32, i32)>>)
    ensures
        cells_view(r) == cells_view(*c),
{
    match c {
        Some(s) => Some(s.clone()),
        None => None,
    }
}

impl EditorState {
    /// The state of a freshly started editor: no map, the paint tool,
    /// replace-mode selection, rectangle shape fill, 100 % zoom.
    pub fn new() -> (s: EditorState)
        ensures
            s@.wf(),
            s@.session is None,
            s@.active_layer == 0,
            s@.selected_gid == 0,
            s@.selected_cell is None,
            s@.selected_object is None,
            s@.tool == Tool::Paint,
            s@.tile_selection_mode == TileSelectionMode::Replace,
            s@.shape_fill_mode == ShapeFillMode::Rectangle,
            s@.selection is None,
            s@.selection_cells is None,
            s@.shape_fill_preview is None,
            s@.preview is None,
            s@.preview_cells is None,
            s@.closing is None,
            s@.closing_cells is None,
            s@.closing_started_at is None,
            s@.last_tap_at is None,
            s@.transfer is None,
            s@.clipboard is None,
            s@.gesture is None,
            !s@.touch_edit_batch_active,
            s@.hidden_layers.is_empty(),
            s@.zoom_percent == 100,
            s@.undo_order.len() == 0,
            s@.redo_order.len() == 0,
            s@.selection_undo.len() == 0,
            s@.selection_redo.len() == 0,
            s@.canvas_dirty,
            s@.tiles_dirty,
            s@.status == Status::Welcome,
    {
        EditorState {
            session: None,
            active_layer: 0,
            selected_gid: 0,
            selected_cell: None,
            selected_object: None,
            tool: Tool::Paint,
            tile_selection_mode: TileSelectionMode::Replace,
            shape_fill_mode: ShapeFillMode::Rectangle,
            shape_fill_preview: None,
            tile_clipboard: None,
            tile_selection: None,
            tile_selection_cells: None,
            tile_selection_preview: None,
            tile_selection_preview_cells: None,
            tile_selection_closing: None,
            tile_selection_closing_cells: None,
            tile_selection_closing_started_at: None,
            tile_selection_last_tap_at: None,
            tile_selection_transfer: None,
            single_touch_gesture: None,
            undo_action_order: Vec::new(),
            redo_action_order: Vec::new(),
            selection_undo_stack: Vec::new(),
            selection_redo_stack: Vec::new(),
            touch_edit_batch_active: false,
            hidden_layers: BTreeSet::new(),
            zoom_percent: 100,
            canvas_dirty: true,
            tiles_dirty: true,
            status: Status::Welcome,
        }
    }
}

/// Whether the tool works on tile selections.
pub fn is_tile_selection_tool(tool: Tool) -> (b: bool)
    ensures
        b == (tool == Tool::Select || tool == Tool::MagicWand || tool == Tool::SelectSameTile),
{
    match tool {
        Tool::Select | Tool::MagicWand | Tool::SelectSameTile => true,
        _ => false,
    }
}


/// The smallest zoom the canvas allows, in percent.
pub const MIN_ZOOM_PERCENT: i32 = 25;

/// The largest zoom the canvas allows, in percent.
pub const MAX_ZOOM_PERCENT: i32 = 800;

/// `p` brought into the allowed zoom range.
pub open spec fn clamped_zoom(p: int) -> int {
    if p < MIN_ZOOM_PERCENT {
        MIN_ZOOM_PERCENT as int
    } else if p > MAX_ZOOM_PERCENT {
        MAX_ZOOM_PERCENT as int
    } else {
        p
    }
}

/// A zoom level brought into the allowed range of 25 % to 800 %.
pub fn clamp_zoom(p: i32) -> (z: i32)
    ensures
        z == clamped_zoom(p as int),
{
    if p < MIN_ZOOM_PERCENT {
        MIN_ZOOM_PERCENT
    } else if p > MAX_ZOOM_PERCENT {
        MAX_ZOOM_PERCENT
    } else {
        p
    }
}

impl EditorState {
    /// Changes the zoom by `delta` percent, kept within 25 % to 800 %, and
    /// has the canvas redrawn. (The view is panned around its center by
    /// the caller, which knows the screen.)
    pub fn adjust_zoom(&mut self, delta: i32)
        requires
            i32::MIN <= old(self).zoom_percent + delta <= i32::MAX,
        ensures
            final(self)@ == (EditorView {
                zoom_percent: clamped_zoom(old(self).zoom_percent + delta) as i32,
                canvas_dirty: true,
                ..old(self)@
            }),
    {
        self.zoom_percent = clamp_zoom(self.zoom_percent + delta);
        self.canvas_dirty = true;
    }
}

} // verus!
