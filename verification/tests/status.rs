use taled_editor::settings::Preferences;
use taled_editor::theme::ThemeChoice;
use taled_editor::document::{Document, Layer, LayerKind};
use taled_editor::editor::{EditorState, Status, clamp_zoom};
use taled_editor::history::EditorSession;
use taled_editor::layer::{EditorError, TileLayer};
use taled_editor::locale::{AppLanguagePreference, SupportedLanguage, resolve_language};
use taled_editor::messages::error_message;
use taled_editor::shape::ShapeFillMode;

#[test]
fn status_texts() {
    assert_eq!(Status::Welcome.message(), "Welcome to Taled");
    assert_eq!(Status::NoMapLoaded.message(), "No map loaded.");
    assert_eq!(Status::SelectedRegion(3, 12).message(), "Selected 3\u{d7}12 region.");
    assert_eq!(Status::MagicWandSelected(7).message(), "Magic Wand selected 7 tiles.");
    assert_eq!(Status::SelectedSameTiles(0).message(), "Selected 0 tiles of same type.");
    assert_eq!(Status::ShapeFilled(ShapeFillMode::Ellipse, 21).message(), "Ellipse filled 21 tiles.");
    assert_eq!(Status::ShapeFilled(ShapeFillMode::Rectangle, 4).message(), "Rectangle filled 4 tiles.");
    assert_eq!(Status::CopiedRegion(2, 2).message(), "Copied region 2\u{d7}2. Drag to place.");
    assert_eq!(Status::CutConverted(5, 1).message(), "Cut 5\u{d7}1. Drag to move, tap Done to place.");
    assert_eq!(Status::PlacedSelection(-3, 40).message(), "Placed selection at (-3, 40).");
    assert_eq!(Status::PlacedSelection(i32::MIN, 0).message(), "Placed selection at (-2147483648, 0).");
    assert_eq!(Status::Flipped(true).message(), "Flipped X.");
    assert_eq!(Status::Flipped(false).message(), "Flipped Y.");
    assert_eq!(Status::Rotated.message(), "Rotated 90\u{b0} CW.");
    assert_eq!(Status::UndoSelection.message(), "Undo selection.");
    assert_eq!(Status::NothingToRedo.message(), "Nothing to redo.");
    assert_eq!(
        Status::EditFailed(EditorError::OutOfBounds(9, 2)).message(),
        "Edit failed: cell (9, 2) is outside the layer"
    );
    assert_eq!(Status::CutFailed(EditorError::LayerLocked).message(), "Cut failed: layer is locked");
    assert_eq!(
        Status::DeleteObjectFailed(EditorError::ObjectNotFound(12)).message(),
        "Delete failed: object 12 not found"
    );
    assert_eq!(error_message(EditorError::UnknownLayer(4)), "layer 4 does not exist");
}

#[test]
fn zoom_starts_at_100_and_is_clamped() {
    let mut state = EditorState::new();
    assert_eq!(state.zoom_percent, 100);
    state.canvas_dirty = false;
    state.adjust_zoom(50);
    assert_eq!(state.zoom_percent, 150);
    assert!(state.canvas_dirty);
    state.adjust_zoom(10_000);
    assert_eq!(state.zoom_percent, 800);
    state.adjust_zoom(-10_000);
    assert_eq!(state.zoom_percent, 25);
    assert_eq!(clamp_zoom(-5), 25);
    assert_eq!(clamp_zoom(333), 333);
    assert_eq!(clamp_zoom(801), 800);
}

#[test]
fn installing_a_map_resets_the_zoom() {
    let mut state = EditorState::new();
    state.adjust_zoom(200);
    let layer = Layer {
        name: "ground".to_string(),
        locked: false,
        visible: true,
        kind: LayerKind::Tile(TileLayer { width: 1, height: 1, tiles: vec![0] }),
    };
    state.install_session(EditorSession::new(Document { width: 1, height: 1, layers: vec![layer], tilesets: Vec::new() }));
    assert_eq!(state.zoom_percent, 100);
}

#[test]
fn automatic_language_is_chinese_exactly_for_zh_tags() {
    for tag in ["zh", "zh-TW", "ZH_hk", "Zh-Hant-TW", "zhx", "zh-"] {
        assert_eq!(resolve_language(AppLanguagePreference::Auto, tag), SupportedLanguage::SimplifiedChinese, "{tag}");
    }
    for tag in ["", "z", "en-ZH", "_zh", " zh", "ja-JP"] {
        assert_eq!(resolve_language(AppLanguagePreference::Auto, tag), SupportedLanguage::English, "{tag}");
    }
}

#[test]
fn undo_and_redo_keep_the_map_frame() {
    let layer = Layer {
        name: "ground".to_string(),
        locked: false,
        visible: true,
        kind: LayerKind::Tile(TileLayer { width: 2, height: 1, tiles: vec![0, 0] }),
    };
    let mut s = EditorSession::new(Document { width: 2, height: 1, layers: vec![layer], tilesets: Vec::new() });
    s.set_tile(0, 1, 0, 5).unwrap();
    assert!(s.undo());
    assert_eq!((s.document().width, s.document().height), (2, 1));
    assert!(s.redo());
    assert_eq!((s.document().width, s.document().height), (2, 1));
}

#[test]
fn fresh_preferences_keep_the_given_locale() {
    let p = Preferences::new("zh_CN".to_string());
    assert_eq!(p.device_locale_tag, "zh_CN");
    assert_eq!(p.language_preference, AppLanguagePreference::Auto);
    assert_eq!(p.theme_choice, ThemeChoice::Dark);
    assert_eq!(p.custom_theme.name, "Taled Dark");
    assert_eq!(p.resolved_language(), SupportedLanguage::SimplifiedChinese);
    let q = Preferences::for_this_device();
    assert!(!q.device_locale_tag.trim().is_empty());
}
