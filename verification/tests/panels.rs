use taled_editor::document::{Document, Layer, LayerKind, ObjectLayer};
use taled_editor::editor::{EditorState, Tool};
use taled_editor::history::EditorSession;
use taled_editor::layer::TileLayer;
use taled_editor::objects::ObjectSnap;
use taled_editor::palette::vf_grid_size;
use taled_editor::region::TileSelectionRegion;
use taled_editor::theme::{ThemeChoice, theme_card_id};
use taled_editor::toolbar::{
    ObjectSummary, ToolbarKind, active_toolbar_kind, collect_objects, layer_kind_label,
    layer_thumb_variant, toolbar_supports_tool,
};

fn tiles_named(name: &str) -> Layer {
    Layer {
        name: name.to_string(),
        locked: false,
        visible: true,
        kind: LayerKind::Tile(TileLayer { width: 1, height: 1, tiles: vec![0] }),
    }
}

fn objects_named(name: &str, ids: Vec<u32>) -> Layer {
    Layer { name: name.to_string(), locked: false, visible: true, kind: LayerKind::Object(ObjectLayer { object_ids: ids }) }
}

fn session() -> EditorSession {
    EditorSession::new(Document {
        width: 1,
        height: 1,
        layers: vec![
            objects_named("spawns", vec![4, 2]),
            tiles_named("ground"),
            objects_named("doors", vec![9]),
        ],
        tilesets: Vec::new(),
    })
}

#[test]
fn toolbar_follows_the_layer_kind() {
    let s = session();
    assert_eq!(active_toolbar_kind(&s, 0), ToolbarKind::Object);
    assert_eq!(active_toolbar_kind(&s, 1), ToolbarKind::Tile);
    assert_eq!(active_toolbar_kind(&s, 7), ToolbarKind::Tile);
}

#[test]
fn toolbars_offer_their_tools() {
    for tool in [Tool::Hand, Tool::Paint, Tool::Fill, Tool::ShapeFill, Tool::Erase, Tool::Select] {
        assert!(toolbar_supports_tool(ToolbarKind::Tile, tool));
    }
    assert!(!toolbar_supports_tool(ToolbarKind::Tile, Tool::MagicWand));
    assert!(!toolbar_supports_tool(ToolbarKind::Tile, Tool::AddPoint));
    for tool in [Tool::Select, Tool::AddRectangle, Tool::AddPoint] {
        assert!(toolbar_supports_tool(ToolbarKind::Object, tool));
    }
    assert!(!toolbar_supports_tool(ToolbarKind::Object, Tool::Paint));
}

#[test]
fn switching_layer_kind_drops_selections_and_fixes_the_tool() {
    let mut state = EditorState::new();
    state.session = Some(session());
    state.tool = Tool::Fill;
    state.selected_object = Some(4);
    state.tile_selection = Some(TileSelectionRegion { start_cell: (0, 0), end_cell: (0, 0) });
    state.set_active_layer_kind(2, ToolbarKind::Object);
    assert_eq!(state.active_layer, 2);
    assert_eq!(state.tool, Tool::Select);
    assert_eq!(state.selected_object, None);
    assert!(state.tile_selection.is_none());

    state.tool = Tool::AddPoint;
    state.set_active_layer_kind(1, ToolbarKind::Tile);
    assert_eq!(state.tool, Tool::Paint);

    state.tool = Tool::Erase;
    state.set_active_layer_kind(1, ToolbarKind::Tile);
    assert_eq!(state.tool, Tool::Erase);
}

#[test]
fn objects_are_collected_bottom_layer_first() {
    let objects = collect_objects(&session());
    assert_eq!(
        objects,
        vec![
            ObjectSummary { layer_index: 0, object_id: 4 },
            ObjectSummary { layer_index: 0, object_id: 2 },
            ObjectSummary { layer_index: 2, object_id: 9 },
        ]
    );
}

#[test]
fn layer_labels() {
    assert_eq!(layer_kind_label(&tiles_named("a")), "Tile Layer");
    assert_eq!(layer_kind_label(&objects_named("a", vec![])), "Object Layer");
}

#[test]
fn thumbnail_variants_follow_the_name() {
    assert_eq!(layer_thumb_variant(3, &tiles_named("UI Overlay")), "ui");
    assert_eq!(layer_thumb_variant(3, &objects_named("Objects", vec![])), "ui");
    assert_eq!(layer_thumb_variant(3, &tiles_named("Decorations")), "decor");
    assert_eq!(layer_thumb_variant(3, &tiles_named("Fringe")), "decor");
    assert_eq!(layer_thumb_variant(3, &tiles_named("Roof OVER")), "decor");
    assert_eq!(layer_thumb_variant(3, &tiles_named("Foreground")), "foreground");
    assert_eq!(layer_thumb_variant(3, &tiles_named("Collision")), "obstacles");
    assert_eq!(layer_thumb_variant(3, &tiles_named("Obstacles")), "obstacles");
    assert_eq!(layer_thumb_variant(3, &tiles_named("Background")), "background");
    assert_eq!(layer_thumb_variant(0, &tiles_named("Ground")), "ground");
    assert_eq!(layer_thumb_variant(1, &tiles_named("Ground")), "foreground");
    assert_eq!(layer_thumb_variant(0, &tiles_named("")), "ground");
}

#[test]
fn viewfinder_grid_sizes() {
    assert_eq!(vf_grid_size(0), (9, 3));
    assert_eq!(vf_grid_size(1), (6, 2));
    assert_eq!(vf_grid_size(2), (3, 1));
    assert_eq!(vf_grid_size(9), (6, 2));
}

#[test]
fn tapping_the_palette_picks_a_tile() {
    let mut state = EditorState::new();
    let ids = [0u32, 1, 2, 3, 4, 5, 6];
    state.tap_select_tile(1, 1, 3, 10, &ids);
    assert_eq!(state.selected_gid, 14);
    state.tap_select_tile(3, 0, 3, 10, &ids);
    assert_eq!(state.selected_gid, 14);
    state.tap_select_tile(-1, 0, 3, 10, &ids);
    assert_eq!(state.selected_gid, 14);
    state.tap_select_tile(1, 2, 3, 10, &ids);
    assert_eq!(state.selected_gid, 14);
    state.tap_select_tile(0, 2, 3, 10, &ids);
    assert_eq!(state.selected_gid, 16);
}

#[test]
fn snapping_modes_exclude_each_other() {
    let mut snap = ObjectSnap { snap_to_grid: false, snap_to_int: false };
    snap.toggle_snap(true);
    assert_eq!(snap, ObjectSnap { snap_to_grid: true, snap_to_int: false });
    snap.toggle_snap(false);
    assert_eq!(snap, ObjectSnap { snap_to_grid: false, snap_to_int: true });
    snap.toggle_snap(false);
    assert_eq!(snap, ObjectSnap { snap_to_grid: false, snap_to_int: false });
    snap.toggle_snap(true);
    snap.toggle_snap(true);
    assert_eq!(snap, ObjectSnap { snap_to_grid: false, snap_to_int: false });
}

#[test]
fn theme_cards_have_ids() {
    assert_eq!(theme_card_id(ThemeChoice::System), "tc-system");
    assert_eq!(theme_card_id(ThemeChoice::CatppuccinMacchiato), "tc-macchiato");
    assert_eq!(theme_card_id(ThemeChoice::Custom), "tc-custom");
}
