//! A verified core for a split-keyboard layout editor: a keycode codec that
//! maps bytes, symbolic key codes and display labels onto each other, and a
//! keymap state engine that keeps a current and a saved buffer of
//! position-to-code assignments, tracks unsaved changes, and mediates
//! persistence, reset and export.

pub mod buffer;
pub mod default_layout;
pub mod export;
pub mod keycodes;
pub mod keymap;
pub mod wire;

pub use buffer::{KeyEntry, KeymapBuffer};
pub use export::{ExportDocument, ExportEntry, ExportMetadata};
pub use keycodes::KeyboardUsage;
pub use keymap::{export_file_name, storage_key, Keymap, KeymapError};
