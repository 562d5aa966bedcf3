//! Persistent application settings: a typed view of four user preferences
//! over an untyped JSON document, with per-field fallback to defaults.

pub mod text;
pub mod theme;
pub mod document;
pub mod settings_store;
pub mod app_state;
pub mod laws;

pub use theme::Theme;
pub use document::{RawValue, Shape};
pub use settings_store::{settings_file_name, SettingsStore, StateError, StateManager, AUTO_SAVE_SECS};
pub use app_state::{get_app_state, read_flag, read_theme, set_app_state, AppState, MalformedFields};
