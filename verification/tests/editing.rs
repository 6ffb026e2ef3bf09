use std::collections::BTreeSet;

use taled_editor::document::{Document, Layer, LayerKind, ObjectLayer, Tileset};
use taled_editor::editor::{
    EditorState, Status, TileSelectionMode, TileSelectionTransferMode, Tool, UndoActionKind,
    is_tile_selection_tool,
};
use taled_editor::history::EditorSession;
use taled_editor::install::default_selected_gid;
use taled_editor::layer::{EditorError, TileLayer};
use taled_editor::region::TileSelectionRegion;
use taled_editor::shape::ShapeFillMode;

fn tile_layer(name: &str, width: u32, height: u32, tiles: Vec<u32>) -> Layer {
    Layer {
        name: name.to_string(),
        locked: false,
        visible: true,
        kind: LayerKind::Tile(TileLayer { width, height, tiles }),
    }
}

/// A 4×3 map:
/// ```text
/// 1 1 2 2
/// 1 3 2 1
/// 1 1 1 1
/// ```
fn editor() -> EditorState {
    let layer = tile_layer("ground", 4, 3, vec![1, 1, 2, 2, 1, 3, 2, 1, 1, 1, 1, 1]);
    let objects = Layer {
        name: "objects".to_string(),
        locked: false,
        visible: true,
        kind: LayerKind::Object(ObjectLayer { object_ids: vec![7, 9] }),
    };
    let mut state = EditorState::new();
    state.session = Some(EditorSession::new(Document { width: 4, height: 3, layers: vec![layer, objects], tilesets: Vec::new() }));
    state
}

fn tiles(state: &EditorState) -> Vec<u32> {
    match &state.session.as_ref().unwrap().document().layers[0].kind {
        LayerKind::Tile(t) => t.tiles.clone(),
        LayerKind::Object(_) => panic!("not a tile layer"),
    }
}

fn cells(list: &[(i32, i32)]) -> BTreeSet<(i32, i32)> {
    list.iter().copied().collect()
}

#[test]
fn new_editor_starts_with_paint_and_no_map() {
    let state = EditorState::new();
    assert!(state.session.is_none());
    assert_eq!(state.tool, Tool::Paint);
    assert_eq!(state.tile_selection_mode, TileSelectionMode::Replace);
    assert_eq!(state.status, Status::Welcome);
    assert!(is_tile_selection_tool(Tool::MagicWand));
    assert!(!is_tile_selection_tool(Tool::Paint));
}

#[test]
fn paint_then_undo_and_redo() {
    let mut state = editor();
    state.selected_gid = 7;
    state.apply_cell_tool(1, 1);
    assert_eq!(state.selected_cell, Some((1, 1)));
    assert_eq!(tiles(&state), vec![1, 1, 2, 2, 1, 7, 2, 1, 1, 1, 1, 1]);
    state.apply_undo();
    assert_eq!(state.status, Status::UndoApplied);
    assert_eq!(tiles(&state), vec![1, 1, 2, 2, 1, 3, 2, 1, 1, 1, 1, 1]);
    state.apply_redo();
    assert_eq!(state.status, Status::RedoApplied);
    assert_eq!(tiles(&state)[5], 7);
    state.apply_redo();
    assert_eq!(state.status, Status::NothingToRedo);
}

#[test]
fn undo_with_empty_history_reports_nothing() {
    let mut state = editor();
    state.apply_undo();
    assert_eq!(state.status, Status::NothingToUndo);
    let mut empty = EditorState::new();
    empty.apply_undo();
    assert_eq!(empty.status, Status::NothingToUndo);
}

#[test]
fn erase_puts_empty_tile() {
    let mut state = editor();
    state.tool = Tool::Erase;
    state.apply_cell_tool(0, 0);
    assert_eq!(tiles(&state)[0], 0);
}

#[test]
fn edit_errors_are_reported() {
    let mut state = editor();
    state.apply_cell_tool(9, 0);
    assert_eq!(state.status, Status::EditFailed(EditorError::OutOfBounds(9, 0)));
    state.active_layer = 1;
    state.apply_cell_tool(0, 0);
    assert_eq!(state.status, Status::EditFailed(EditorError::NotTileLayer));
    state.active_layer = 5;
    state.apply_cell_tool(0, 0);
    assert_eq!(state.status, Status::EditFailed(EditorError::UnknownLayer(5)));
    let mut locked = editor();
    if let Some(session) = locked.session.as_mut() {
        session.document.layers[0].locked = true;
    }
    locked.apply_cell_tool(0, 0);
    assert_eq!(locked.status, Status::EditFailed(EditorError::LayerLocked));
    let mut no_map = EditorState::new();
    no_map.apply_cell_tool(0, 0);
    assert_eq!(no_map.status, Status::NoMapLoaded);
}

#[test]
fn fill_replaces_the_connected_region() {
    let mut state = editor();
    state.tool = Tool::Fill;
    state.selected_gid = 5;
    state.apply_cell_tool(0, 0);
    assert_eq!(tiles(&state), vec![5, 5, 2, 2, 5, 3, 2, 5, 5, 5, 5, 5]);
    state.apply_undo();
    assert_eq!(tiles(&state), vec![1, 1, 2, 2, 1, 3, 2, 1, 1, 1, 1, 1]);
}

#[test]
fn touch_gesture_is_one_undo_step() {
    let mut state = editor();
    state.selected_gid = 8;
    state.start_touch_edit_batch();
    state.apply_cell_tool(0, 0);
    state.apply_cell_tool(1, 0);
    state.apply_cell_tool(2, 0);
    state.finish_touch_edit_batch();
    assert_eq!(state.undo_action_order, vec![UndoActionKind::DocumentEdit]);
    assert_eq!(&tiles(&state)[0..3], &[8, 8, 8]);
    state.apply_undo();
    assert_eq!(tiles(&state), vec![1, 1, 2, 2, 1, 3, 2, 1, 1, 1, 1, 1]);
    assert!(state.undo_action_order.is_empty());
    assert_eq!(state.redo_action_order, vec![UndoActionKind::DocumentEdit]);
}

#[test]
fn gesture_without_edits_adds_no_step() {
    let mut state = editor();
    state.start_touch_edit_batch();
    state.finish_touch_edit_batch();
    assert!(state.undo_action_order.is_empty());
    assert!(!state.touch_edit_batch_active);
}

#[test]
fn shape_fill_reports_cell_count() {
    let mut state = editor();
    state.selected_gid = 4;
    state.apply_shape_fill(0, 0, 2, 1);
    assert_eq!(state.status, Status::ShapeFilled(ShapeFillMode::Rectangle, 6));
    assert_eq!(tiles(&state), vec![4, 4, 4, 2, 4, 4, 4, 1, 1, 1, 1, 1]);
    // A shape reaching past the map is refused whole, but still reported.
    let mut state = editor();
    state.shape_fill_mode = ShapeFillMode::Ellipse;
    state.apply_shape_fill(0, 0, 4, 4);
    assert_eq!(state.status, Status::ShapeFilled(ShapeFillMode::Ellipse, 21));
    assert_eq!(tiles(&state), vec![1, 1, 2, 2, 1, 3, 2, 1, 1, 1, 1, 1]);
}

#[test]
fn select_region_and_undo_selection() {
    let mut state = editor();
    state.select_tile_region(2, 2, 0, 1);
    assert_eq!(state.status, Status::SelectedRegion(3, 2));
    let region = TileSelectionRegion { start_cell: (0, 1), end_cell: (2, 2) };
    assert_eq!(state.tile_selection, Some(region));
    assert_eq!(state.tile_selection_cells.as_ref().map(|c| c.len()), Some(6));
    state.tile_selection_mode = TileSelectionMode::Subtract;
    state.select_tile_region(1, 1, 1, 2);
    assert_eq!(
        state.tile_selection_cells,
        Some(cells(&[(0, 1), (2, 1), (0, 2), (2, 2)]))
    );
    state.apply_undo();
    assert_eq!(state.status, Status::UndoSelection);
    assert_eq!(state.tile_selection_cells.as_ref().map(|c| c.len()), Some(6));
    state.apply_redo();
    assert_eq!(state.status, Status::RedoSelection);
    assert_eq!(state.tile_selection_cells.as_ref().map(|c| c.len()), Some(4));
    state.apply_undo();
    state.apply_undo();
    assert_eq!(state.tile_selection_cells, None);
    assert_eq!(state.tile_selection, None);
}

#[test]
fn selection_modes_combine() {
    let mut state = editor();
    state.select_tile_region(0, 0, 1, 0);
    state.tile_selection_mode = TileSelectionMode::Add;
    state.select_tile_region(3, 2, 3, 2);
    assert_eq!(state.tile_selection_cells, Some(cells(&[(0, 0), (1, 0), (3, 2)])));
    assert_eq!(
        state.tile_selection,
        Some(TileSelectionRegion { start_cell: (0, 0), end_cell: (3, 2) })
    );
    state.tile_selection_mode = TileSelectionMode::Intersect;
    state.select_tile_region(1, 0, 3, 2);
    assert_eq!(state.tile_selection_cells, Some(cells(&[(1, 0), (3, 2)])));
    state.select_tile_region(0, 1, 0, 1);
    assert_eq!(state.tile_selection_cells, None);
}

#[test]
fn magic_wand_and_same_tile_selections() {
    let mut state = editor();
    state.tool = Tool::MagicWand;
    state.apply_cell_tool(2, 0);
    assert_eq!(state.status, Status::MagicWandSelected(3));
    assert_eq!(state.tile_selection_cells, Some(cells(&[(2, 0), (3, 0), (2, 1)])));
    let mut state = editor();
    state.apply_select_same_tile_selection(3, 1);
    assert_eq!(state.status, Status::SelectedSameTiles(8));
    let mut state = editor();
    state.apply_magic_wand_selection(0, 2);
    assert_eq!(state.status, Status::MagicWandSelected(8));
    // Outside the layer the wand looks for empty tiles and finds none there.
    let mut state = editor();
    state.apply_magic_wand_selection(10, 10);
    assert_eq!(state.status, Status::MagicWandSelected(0));
    assert_eq!(state.tile_selection_cells, None);
}

#[test]
fn select_tool_on_object_layer_does_nothing() {
    let mut state = editor();
    state.active_layer = 1;
    state.tool = Tool::Select;
    state.apply_cell_tool(0, 0);
    assert_eq!(state.tile_selection, None);
    assert_eq!(state.status, Status::Welcome);
}

#[test]
fn taps_dismiss_the_selection() {
    let mut state = editor();
    state.select_tile_region(0, 0, 1, 1);
    // First tap inside: remembered, consumed in replace mode.
    assert!(state.try_dismiss_selection(0, 0, 1000));
    assert!(state.tile_selection.is_some());
    // Second tap inside within the window: dismissed.
    assert!(state.try_dismiss_selection(1, 1, 1200));
    assert_eq!(state.tile_selection, None);
    assert_eq!(state.status, Status::SelectionCleared);
    // Undo brings it back.
    state.apply_undo();
    assert_eq!(state.tile_selection_cells.as_ref().map(|c| c.len()), Some(4));

    let mut state = editor();
    state.select_tile_region(0, 0, 1, 1);
    assert!(state.try_dismiss_selection(0, 0, 1000));
    assert!(state.try_dismiss_selection(0, 0, 1400));
    assert!(state.tile_selection.is_some());
    assert!(state.try_dismiss_selection(3, 2, 1500));
    assert_eq!(state.tile_selection, None);

    let mut state = editor();
    state.select_tile_region(0, 0, 1, 1);
    state.tile_selection_mode = TileSelectionMode::Add;
    assert!(!state.try_dismiss_selection(3, 2, 0));
    assert!(state.tile_selection.is_some());
    assert!(!state.try_dismiss_selection(0, 0, 0));
    assert!(!EditorState::new().try_dismiss_selection(0, 0, 0));
}

#[test]
fn copy_then_place_elsewhere() {
    let mut state = editor();
    state.select_tile_region(0, 0, 1, 0);
    state.copy_tile_selection();
    assert_eq!(state.status, Status::CopiedRegion(2, 1));
    let clip = state.tile_clipboard.as_ref().unwrap();
    assert_eq!((clip.width, clip.height, clip.tiles.clone()), (2, 1, vec![1, 1]));
    let transfer = state.tile_selection_transfer.as_ref().unwrap();
    assert_eq!(transfer.mode, TileSelectionTransferMode::Copy);
    state.tile_selection = Some(TileSelectionRegion { start_cell: (2, 2), end_cell: (3, 2) });
    state.tile_selection_cells = Some(cells(&[(2, 2), (3, 2)]));
    // Copy again stamps the floating tiles where they are now.
    state.tile_selection = Some(TileSelectionRegion { start_cell: (2, 0), end_cell: (3, 0) });
    state.copy_tile_selection();
    assert_eq!(state.status, Status::CopiedAtCurrentPosition(2, 1));
    assert_eq!(&tiles(&state)[0..4], &[1, 1, 1, 1]);
    state.tile_selection = Some(TileSelectionRegion { start_cell: (2, 1), end_cell: (3, 1) });
    state.place_tile_selection_transfer();
    assert_eq!(state.status, Status::PlacedSelection(2, 1));
    assert_eq!(tiles(&state), vec![1, 1, 1, 1, 1, 3, 1, 1, 1, 1, 1, 1]);
    assert_eq!(state.tile_selection_cells, Some(cells(&[(2, 1), (3, 1)])));
    assert!(state.tile_selection_transfer.is_none());
    state.place_tile_selection_transfer();
    assert_eq!(state.status, Status::NothingToPlace);
}

#[test]
fn cut_then_cancel_restores_everything() {
    let mut state = editor();
    state.select_tile_region(1, 0, 2, 1);
    state.cut_tile_selection();
    assert_eq!(state.status, Status::CutRegion(2, 2));
    assert_eq!(tiles(&state), vec![1, 0, 0, 2, 1, 0, 0, 1, 1, 1, 1, 1]);
    state.cut_tile_selection();
    assert_eq!(state.status, Status::AlreadyCutMode);
    state.cancel_tile_selection_transfer();
    assert_eq!(tiles(&state), vec![1, 1, 2, 2, 1, 3, 2, 1, 1, 1, 1, 1]);
    assert!(state.tile_selection.is_none());
    assert!(state.tile_selection_transfer.is_none());
    // The cut left no document step behind.
    let session = state.session.as_mut().unwrap();
    assert!(!session.undo());
}

#[test]
fn cut_and_move_is_one_undo_step() {
    let mut state = editor();
    state.select_tile_region(1, 1, 1, 1);
    state.cut_tile_selection();
    state.tile_selection = Some(TileSelectionRegion { start_cell: (3, 2), end_cell: (3, 2) });
    state.place_tile_selection_transfer();
    assert_eq!(state.status, Status::PlacedSelection(3, 2));
    assert_eq!(tiles(&state), vec![1, 1, 2, 2, 1, 0, 2, 1, 1, 1, 1, 3]);
    assert_eq!(
        state.undo_action_order,
        vec![UndoActionKind::SelectionChange, UndoActionKind::DocumentEdit]
    );
    state.apply_undo();
    assert_eq!(tiles(&state), vec![1, 1, 2, 2, 1, 3, 2, 1, 1, 1, 1, 1]);
}

#[test]
fn copy_then_cut_converts_the_transfer() {
    let mut state = editor();
    state.select_tile_region(2, 0, 3, 0);
    state.copy_tile_selection();
    state.cut_tile_selection();
    assert_eq!(state.status, Status::CutConverted(2, 1));
    assert_eq!(&tiles(&state)[0..4], &[1, 1, 0, 0]);
    assert_eq!(
        state.tile_selection_transfer.as_ref().map(|t| t.mode),
        Some(TileSelectionTransferMode::Cut)
    );
}

#[test]
fn placing_on_another_layer_cancels() {
    let mut state = editor();
    state.select_tile_region(0, 0, 0, 0);
    state.cut_tile_selection();
    state.active_layer = 1;
    state.place_tile_selection_transfer();
    assert_eq!(state.status, Status::CanceledLayerChanged);
    assert_eq!(tiles(&state)[0], 1);
}

#[test]
fn delete_clears_the_selected_cells() {
    let mut state = editor();
    state.delete_selection();
    assert_eq!(state.status, Status::SelectTileRegionFirst);
    state.tile_selection_mode = TileSelectionMode::Add;
    state.select_tile_region(0, 0, 0, 0);
    state.select_tile_region(2, 1, 2, 1);
    state.delete_selection();
    assert_eq!(state.status, Status::ClearedSelectedRegion);
    assert_eq!(tiles(&state), vec![0, 1, 2, 2, 1, 3, 0, 1, 1, 1, 1, 1]);
    assert_eq!(state.tile_selection, None);
    state.apply_undo();
    assert_eq!(tiles(&state), vec![1, 1, 2, 2, 1, 3, 2, 1, 1, 1, 1, 1]);
}

#[test]
fn delete_while_floating_drops_the_source() {
    let mut state = editor();
    state.select_tile_region(0, 0, 1, 0);
    state.copy_tile_selection();
    state.delete_selection();
    assert_eq!(state.status, Status::DeletedSourceAndExited);
    assert_eq!(&tiles(&state)[0..2], &[0, 0]);
    assert!(state.tile_selection_transfer.is_none());
}

#[test]
fn flips_and_rotation_in_place() {
    let mut state = editor();
    state.select_tile_region(0, 0, 2, 0);
    state.flip_tile_selection_x();
    assert_eq!(state.status, Status::Flipped(true));
    assert_eq!(&tiles(&state)[0..4], &[2, 1, 1, 2]);
    state.flip_tile_selection_x();
    assert_eq!(&tiles(&state)[0..4], &[1, 1, 2, 2]);
    let mut state = editor();
    state.select_tile_region(1, 0, 1, 1);
    state.flip_tile_selection_y();
    assert_eq!(state.status, Status::Flipped(false));
    assert_eq!(tiles(&state)[1], 3);
    assert_eq!(tiles(&state)[5], 1);
    let mut state = editor();
    state.select_tile_region(0, 0, 1, 0);
    state.rotate_tile_selection_cw();
    assert_eq!(state.status, Status::Rotated);
    assert_eq!(tiles(&state), vec![1, 0, 2, 2, 1, 3, 2, 1, 1, 1, 1, 1]);
    assert_eq!(
        state.tile_selection,
        Some(TileSelectionRegion { start_cell: (0, 0), end_cell: (0, 1) })
    );
    let mut none = editor();
    none.flip_tile_selection_x();
    assert_eq!(none.status, Status::SelectRegionFirst);
}

#[test]
fn floating_selection_turns_in_the_air() {
    let mut state = editor();
    state.select_tile_region(0, 0, 2, 1);
    state.copy_tile_selection();
    let before = state.tile_selection_transfer.as_ref().unwrap().tiles.clone();
    assert_eq!(before, vec![1, 1, 2, 1, 3, 2]);
    state.flip_tile_selection_x();
    assert_eq!(state.tile_selection_transfer.as_ref().unwrap().tiles, vec![2, 1, 1, 2, 3, 1]);
    assert_eq!(state.tile_clipboard.as_ref().unwrap().tiles, vec![2, 1, 1, 2, 3, 1]);
    state.flip_tile_selection_x();
    assert_eq!(state.tile_selection_transfer.as_ref().unwrap().tiles, before);
    state.rotate_tile_selection_cw();
    let t = state.tile_selection_transfer.as_ref().unwrap();
    assert_eq!((t.width, t.height), (2, 3));
    assert_eq!(t.tiles, vec![1, 1, 3, 1, 2, 2]);
    assert_eq!(
        state.tile_selection,
        Some(TileSelectionRegion { start_cell: (0, 0), end_cell: (1, 2) })
    );
    // The map itself is untouched by turning a floating copy.
    assert_eq!(tiles(&state), vec![1, 1, 2, 2, 1, 3, 2, 1, 1, 1, 1, 1]);
}

#[test]
fn history_change_brings_layer_back_in_range() {
    let mut state = editor();
    state.active_layer = 6;
    state.selected_object = Some(3);
    state.normalize_after_history_change();
    assert_eq!(state.active_layer, 1);
    assert_eq!(state.selected_object, None);
    state.selected_object = Some(9);
    state.normalize_after_history_change();
    assert_eq!(state.selected_object, Some(9));
}

#[test]
fn tap_with_paint_paints_on_release() {
    let mut state = editor();
    state.selected_gid = 6;
    state.start_single_gesture(Some((3, 2)), 1000);
    assert!(state.touch_edit_batch_active);
    state.handle_release(Some((3, 2)), Some((3, 2)), 1050);
    assert_eq!(tiles(&state)[11], 6);
    assert!(state.single_touch_gesture.is_none());
    assert!(!state.touch_edit_batch_active);
    assert_eq!(state.undo_action_order, vec![UndoActionKind::DocumentEdit]);
}

#[test]
fn long_press_drag_paints_each_cell_once() {
    let mut state = editor();
    state.selected_gid = 9;
    state.start_single_gesture(Some((0, 0)), 0);
    // Too early: nothing painted yet.
    state.handle_drag(Some((0, 0)), Some((0, 0)), 50);
    assert_eq!(tiles(&state)[0], 1);
    state.handle_drag(Some((0, 0)), Some((0, 0)), 130);
    assert_eq!(tiles(&state)[0], 9);
    state.handle_drag(Some((1, 0)), Some((1, 0)), 140);
    state.handle_drag(Some((2, 0)), Some((2, 0)), 150);
    state.handle_release(Some((2, 0)), Some((2, 0)), 160);
    assert_eq!(&tiles(&state)[0..4], &[9, 9, 9, 2]);
    // One gesture, one undo step.
    state.apply_undo();
    assert_eq!(tiles(&state), vec![1, 1, 2, 2, 1, 3, 2, 1, 1, 1, 1, 1]);
}

#[test]
fn select_drag_selects_the_rectangle() {
    let mut state = editor();
    state.tool = Tool::Select;
    state.start_single_gesture(Some((1, 0)), 0);
    state.handle_drag(Some((2, 2)), Some((2, 2)), 10);
    assert_eq!(state.tile_selection_preview_cells.as_ref().map(|c| c.len()), Some(6));
    state.handle_release(Some((2, 2)), Some((2, 2)), 20);
    assert_eq!(state.status, Status::SelectedRegion(2, 3));
    assert_eq!(
        state.tile_selection,
        Some(TileSelectionRegion { start_cell: (1, 0), end_cell: (2, 2) })
    );
    assert!(state.tile_selection_preview_cells.is_none());
    // A press outside the selection only dismisses it.
    state.start_single_gesture(Some((3, 2)), 1000);
    state.handle_drag(Some((0, 0)), Some((0, 0)), 1010);
    state.handle_release(Some((0, 0)), Some((0, 0)), 1020);
    assert_eq!(state.tile_selection, None);
    assert_eq!(state.status, Status::SelectionCleared);
}

#[test]
fn dragging_a_floating_selection_moves_it() {
    let mut state = editor();
    state.tool = Tool::Select;
    state.select_tile_region(0, 0, 1, 0);
    state.copy_tile_selection();
    state.start_single_gesture(Some((0, 0)), 0);
    state.handle_drag(Some((2, 1)), Some((2, 1)), 10);
    assert_eq!(
        state.tile_selection,
        Some(TileSelectionRegion { start_cell: (2, 1), end_cell: (3, 1) })
    );
    state.handle_release(Some((2, 1)), Some((2, 1)), 20);
    state.place_tile_selection_transfer();
    assert_eq!(state.status, Status::PlacedSelection(2, 1));
    assert_eq!(&tiles(&state)[4..8], &[1, 3, 1, 1]);
}

#[test]
fn shape_fill_drag_fills_its_preview() {
    let mut state = editor();
    state.tool = Tool::ShapeFill;
    state.selected_gid = 4;
    state.start_single_gesture(Some((1, 1)), 0);
    state.handle_drag(Some((3, 2)), Some((3, 2)), 10);
    assert!(state.shape_fill_preview.is_some());
    state.handle_release(Some((3, 2)), Some((3, 2)), 20);
    assert_eq!(state.status, Status::ShapeFilled(ShapeFillMode::Rectangle, 6));
    assert_eq!(tiles(&state), vec![1, 1, 2, 2, 1, 4, 4, 4, 1, 4, 4, 4]);
    assert!(state.shape_fill_preview.is_none());
}

#[test]
fn magic_wand_tap_twice_dismisses() {
    let mut state = editor();
    state.tool = Tool::MagicWand;
    state.start_single_gesture(Some((2, 0)), 0);
    state.handle_release(Some((2, 0)), Some((2, 0)), 10);
    assert_eq!(state.status, Status::MagicWandSelected(3));
    state.start_single_gesture(Some((2, 0)), 100);
    state.handle_release(Some((2, 0)), Some((2, 0)), 110);
    // A tap inside is remembered; the next one soon after dismisses.
    state.start_single_gesture(Some((2, 0)), 200);
    state.handle_release(Some((2, 0)), Some((2, 0)), 210);
    assert_eq!(state.tile_selection, None);
}

#[test]
fn second_finger_ends_the_gesture() {
    let mut state = editor();
    state.tool = Tool::ShapeFill;
    state.start_single_gesture(Some((0, 0)), 0);
    state.handle_drag(Some((1, 1)), Some((1, 1)), 5);
    state.cancel_single_gesture();
    assert!(state.single_touch_gesture.is_none());
    assert!(state.shape_fill_preview.is_none());
    assert!(!state.touch_edit_batch_active);
}

fn tileset(name: &str, first_gid: u32, tile_count: u32) -> Tileset {
    Tileset { name: name.to_string(), first_gid, tile_count }
}

#[test]
fn default_tile_prefers_a_used_non_collision_tile() {
    let doc = Document {
        width: 2,
        height: 2,
        layers: vec![
            tile_layer("collision", 2, 1, vec![0, 101]),
            tile_layer("ground", 2, 2, vec![0, 102, 5, 7]),
        ],
        tilesets: vec![tileset("terrain", 1, 100), tileset("collision", 101, 4)],
    };
    assert_eq!(default_selected_gid(&doc), 5);
    // Ids past the last tileset's tiles belong to no tileset.
    let doc = Document {
        width: 2,
        height: 2,
        layers: vec![tile_layer("ground", 3, 1, vec![999, 101, 42])],
        tilesets: vec![tileset("terrain", 1, 100), tileset("collision", 101, 4)],
    };
    assert_eq!(default_selected_gid(&doc), 42);
}

#[test]
fn default_tile_falls_back_to_a_tileset() {
    let doc = Document {
        width: 2,
        height: 2,
        layers: vec![tile_layer("ground", 2, 1, vec![0, 50])],
        tilesets: vec![tileset("collision", 1, 100), tileset("single", 101, 1), tileset("walls", 102, 8)],
    };
    assert_eq!(default_selected_gid(&doc), 102);
    let doc = Document {
        width: 2,
        height: 2,
        layers: vec![tile_layer("ground", 1, 1, vec![0])],
        tilesets: vec![tileset("collision", 7, 10)],
    };
    assert_eq!(default_selected_gid(&doc), 7);
    let doc = Document { width: 0, height: 0, layers: Vec::new(), tilesets: Vec::new() };
    assert_eq!(default_selected_gid(&doc), 0);
}

#[test]
fn installing_a_session_resets_the_editor() {
    let mut state = editor();
    state.select_tile_region(0, 0, 1, 1);
    state.active_layer = 1;
    state.apply_cell_tool(0, 0);
    let doc = Document {
        width: 2,
        height: 2,
        layers: vec![tile_layer("ground", 2, 1, vec![3, 4])],
        tilesets: vec![tileset("terrain", 1, 16)],
    };
    state.install_session(EditorSession::new(doc));
    assert_eq!(state.active_layer, 0);
    assert_eq!(state.selected_gid, 3);
    assert_eq!(state.selected_cell, None);
    assert_eq!(state.tile_selection, None);
    assert!(state.undo_action_order.is_empty());
    assert!(state.selection_undo_stack.is_empty());
    assert_eq!(tiles(&state), vec![3, 4]);
}

fn layer_names(state: &EditorState) -> Vec<String> {
    state.session.as_ref().unwrap().document().layers.iter().map(|l| l.name.clone()).collect()
}

#[test]
fn layer_panel_reorders_and_renames() {
    let mut state = editor();
    state.move_layer_up(0);
    assert_eq!(layer_names(&state), vec!["objects", "ground"]);
    assert_eq!(state.active_layer, 1);
    state.move_layer_up(1);
    assert_eq!(layer_names(&state), vec!["objects", "ground"]);
    state.move_layer_down(1);
    assert_eq!(layer_names(&state), vec!["ground", "objects"]);
    assert_eq!(state.active_layer, 0);
    state.rename_layer(1, "things".to_string());
    state.rename_layer(0, String::new());
    assert_eq!(layer_names(&state), vec!["ground", "things"]);
    // Reordering is not an undo step.
    state.apply_undo();
    assert_eq!(state.status, Status::NothingToUndo);
}

#[test]
fn layer_panel_adds_and_deletes_layers() {
    let mut state = editor();
    state.add_layer(false);
    assert_eq!(layer_names(&state), vec!["ground", "objects", "Tile 3"]);
    assert_eq!(state.active_layer, 2);
    match &state.session.as_ref().unwrap().document().layers[2].kind {
        LayerKind::Tile(t) => assert_eq!((t.width, t.height, t.tiles.len()), (4, 3, 12)),
        LayerKind::Object(_) => panic!("expected a tile layer"),
    }
    state.add_layer(true);
    assert_eq!(layer_names(&state)[3], "Object 4");
    state.toggle_layer_hidden(1);
    state.delete_layer(1);
    assert_eq!(layer_names(&state), vec!["ground", "Tile 3", "Object 4"]);
    assert_eq!(state.active_layer, 2);
    assert!(state.hidden_layers.is_empty());
    let mut none = EditorState::new();
    none.add_layer(false);
    assert!(none.session.is_none());
}

#[test]
fn eye_toggles_hide_and_show() {
    let mut state = editor();
    assert!(state.toggle_layer_hidden(1));
    assert!(state.hidden_layers.contains(&1));
    assert!(!state.toggle_layer_hidden(1));
    assert!(state.hidden_layers.is_empty());
    state.select_layer(1);
    assert_eq!(state.active_layer, 1);
}

#[test]
fn refused_cell_fill_reports_the_first_outside_cell() {
    let mut state = editor();
    let session = state.session.as_mut().unwrap();
    let cells: BTreeSet<(u32, u32)> = [(5, 0), (1, 9), (0, 1)].into_iter().collect();
    assert_eq!(session.set_cells(0, &cells, 4), Err(EditorError::OutOfBounds(1, 9)));
    assert_eq!(session.set_cells(1, &cells, 4), Err(EditorError::NotTileLayer));
    let inside: BTreeSet<(u32, u32)> = [(0, 1), (3, 2)].into_iter().collect();
    assert_eq!(session.set_cells(0, &inside, 4), Ok(()));
    assert_eq!(tiles(&state), vec![1, 1, 2, 2, 4, 3, 2, 1, 1, 1, 1, 4]);
}

#[test]
fn four_quarter_turns_bring_the_floating_selection_back() {
    let mut state = editor();
    state.select_tile_region(0, 0, 2, 1);
    state.copy_tile_selection();
    let before = state.tile_selection_transfer.as_ref().map(|t| (t.width, t.height, t.tiles.clone(), t.mask.clone()));
    for _ in 0..4 {
        state.rotate_tile_selection_cw();
    }
    let after = state.tile_selection_transfer.as_ref().map(|t| (t.width, t.height, t.tiles.clone(), t.mask.clone()));
    assert_eq!(before, after);
}

#[test]
fn copy_placed_where_it_was_lifted_changes_nothing() {
    let mut state = editor();
    state.tile_selection_mode = TileSelectionMode::Add;
    state.select_tile_region(0, 0, 1, 1);
    state.select_tile_region(3, 2, 3, 2);
    state.copy_tile_selection();
    state.place_tile_selection_transfer();
    assert_eq!(state.status, Status::PlacedSelection(0, 0));
    assert_eq!(tiles(&state), vec![1, 1, 2, 2, 1, 3, 2, 1, 1, 1, 1, 1]);
}

#[test]
fn deleting_the_selected_object_is_undoable() {
    let mut state = editor();
    state.active_layer = 1;
    state.selected_object = Some(9);
    state.delete_selected_object();
    assert_eq!(state.selected_object, None);
    let ids = |state: &EditorState| match &state.session.as_ref().unwrap().document().layers[1].kind {
        LayerKind::Object(o) => o.object_ids.clone(),
        LayerKind::Tile(_) => panic!("expected an object layer"),
    };
    assert_eq!(ids(&state), vec![7]);
    assert_eq!(state.undo_action_order, vec![UndoActionKind::DocumentEdit]);
    state.apply_undo();
    assert_eq!(ids(&state), vec![7, 9]);
    state.selected_object = Some(3);
    state.delete_selected_object();
    assert_eq!(state.status, Status::DeleteObjectFailed(EditorError::ObjectNotFound(3)));
    state.active_layer = 0;
    state.delete_selected_object();
    assert_eq!(state.status, Status::DeleteObjectFailed(EditorError::NotObjectLayer));
}
