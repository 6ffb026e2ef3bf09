//! Verified core of a mobile tile-map editor: selection geometry, tile
//! transforms, tile-layer editing with an undo history, and the small
//! decision tables (navigation, language, themes) around them.

pub mod cellset;
pub mod css;
pub mod document;
pub mod editor;
pub mod flood;
pub mod gesture;
pub mod grid;
pub mod history;
pub mod install;
pub mod layer;
pub mod layer_panel;
pub mod locale;
pub mod messages;
pub mod navigation;
pub mod objects;
pub mod palette;
pub mod platform;
pub mod region;
pub mod selection;
pub mod settings;
pub mod shape;
pub mod text;
pub mod theme;
pub mod toolbar;
pub mod tools;
pub mod transfer;
pub mod undo;
pub mod workspace;
