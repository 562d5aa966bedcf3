//! The application state: four typed preferences, how they are read from the
//! settings document and written to it, and the two operations offered to
//! the front end.

use vstd::prelude::*;
use crate::document::{shape_of, RawValue, Shape};
use crate::settings_store::{SettingsStore, StateError, StateManager};
use crate::theme::{parse_theme, theme_text, Theme};

verus! {

/// The user's preferences.
#[derive(Debug, Clone, Copy, PartialEq, Eq)]
pub struct AppState {
    pub theme: Theme,
    pub default_sidebar_docked_preference: bool,
    pub view_mode_enabled: bool,
    pub zen_mode_enabled: bool,
}

/// For each preference, whether the document holds a value for it that
/// could not be read, so that the default took its place.
#[derive(Debug, Clone, Copy, PartialEq, Eq)]
pub struct MalformedFields {
    pub theme: bool,
    pub default_sidebar_docked_preference: bool,
    pub view_mode_enabled: bool,
    pub zen_mode_enabled: bool,
}

/// Key of the theme preference.
pub open spec fn theme_key() -> Seq<char> {
    "theme"@
}

/// Key of the sidebar docking preference.
pub open spec fn sidebar_key() -> Seq<char> {
    "defaultSidebarDockedPreference"@
}

/// Key of the view-mode flag.
pub open spec fn view_mode_key() -> Seq<char> {
    "viewModeEnabled"@
}

/// Key of the zen-mode flag.
pub open spec fn zen_mode_key() -> Seq<char> {
    "zenModeEnabled"@
}

/// Whether `key` is one of the four keys under which preferences are stored.
pub open spec fn is_settings_key(key: Seq<char>) -> bool {
    key == theme_key() || key == sidebar_key() || key == view_mode_key() || key == zen_mode_key()
}

/// The preferences of a user who has chosen nothing.
pub open spec fn default_state() -> AppState {
    AppState {
        theme: Theme::Light,
        default_sidebar_docked_preference: true,
        view_mode_enabled: false,
        zen_mode_enabled: false,
    }
}

/// The theme read from what the document holds under the theme key: the
/// theme that a stored string names, and the default in every other case.
pub open spec fn decode_theme(raw: Option<Shape>) -> Theme {
    match raw {
        Some(Shape::Text(text)) => match parse_theme(text) {
            Some(theme) => theme,
            None => default_state().theme,
        },
        _ => default_state().theme,
    }
}

/// The flag read from what the document holds under a flag's key: a stored
/// boolean, and `fallback` in every other case.
pub open spec fn decode_flag(raw: Option<Shape>, fallback: bool) -> bool {
    match raw {
        Some(Shape::Flag(flag)) => flag,
        _ => fallback,
    }
}

/// Whether a value is present under the theme key that names no theme.
pub open spec fn theme_malformed(raw: Option<Shape>) -> bool {
    match raw {
        Some(Shape::Text(text)) => parse_theme(text) is None,
        Some(_) => true,
        None => false,
    }
}

/// Whether a value is present under a flag's key that is no boolean.
pub open spec fn flag_malformed(raw: Option<Shape>) -> bool {
    match raw {
        Some(Shape::Flag(_)) => false,
        Some(_) => true,
        None => false,
    }
}

/// The state that a document's entries stand for.
pub open spec fn decode(entries: Map<Seq<char>, Shape>) -> AppState {
    AppState {
        theme: decode_theme(entries.get(theme_key())),
        default_sidebar_docked_preference: decode_flag(
            entries.get(sidebar_key()),
            default_state().default_sidebar_docked_preference,
        ),
        view_mode_enabled: decode_flag(
            entries.get(view_mode_key()),
            default_state().view_mode_enabled,
        ),
        zen_mode_enabled: decode_flag(
            entries.get(zen_mode_key()),
            default_state().zen_mode_enabled,
        ),
    }
}

/// Which of a document's four preference entries are present but unreadable.
pub open spec fn malformed(entries: Map<Seq<char>, Shape>) -> MalformedFields {
    MalformedFields {
        theme: theme_malformed(entries.get(theme_key())),
        default_sidebar_docked_preference: flag_malformed(entries.get(sidebar_key())),
        view_mode_enabled: flag_malformed(entries.get(view_mode_key())),
        zen_mode_enabled: flag_malformed(entries.get(zen_mode_key())),
    }
}

/// A document's entries after a state was written over them: the four
/// preference keys hold the state, every other key is as before.
pub open spec fn encode(entries: Map<Seq<char>, Shape>, state: AppState) -> Map<Seq<char>, Shape> {
    entries.insert(theme_key(), Shape::Text(theme_text(state.theme))).insert(
        sidebar_key(),
        Shape::Flag(state.default_sidebar_docked_preference),
    ).insert(view_mode_key(), Shape::Flag(state.view_mode_enabled)).insert(
        zen_mode_key(),
        Shape::Flag(state.zen_mode_enabled),
    )
}

/// Reads the theme from the value found under its key. The second part of
/// the result says whether a value was there that names no theme.
pub fn read_theme(raw: &Option<RawValue>) -> (read: (Theme, bool))
    ensures
        read.0 == decode_theme(shape_of(*raw)),
        read.1 == theme_malformed(shape_of(*raw)),
{
    match raw {
        None => (Theme::Light, false),
        Some(value) => match value.as_str() {
            None => (Theme::Light, true),
            Some(text) => match Theme::parse(text) {
                Some(theme) => (theme, false),
                None => (Theme::Light, true),
            },
        },
    }
}

/// Reads a flag from the value found under its key. The second part of the
/// result says whether a value was there that is no boolean.
pub fn read_flag(raw: &Option<RawValue>, fallback: bool) -> (read: (bool, bool))
    ensures
        read.0 == decode_flag(shape_of(*raw), fallback),
        read.1 == flag_malformed(shape_of(*raw)),
{
    match raw {
        None => (fallback, false),
        Some(value) => match value.as_bool() {
            Some(flag) => (flag, false),
            None => (fallback, true),
        },
    }
}

impl Default for AppState {
    fn default() -> (state: AppState)
        ensures
            state == default_state(),
    {
        AppState {
            theme: Theme::Light,
            default_sidebar_docked_preference: true,
            view_mode_enabled: false,
            zen_mode_enabled: false,
        }
    }
}

impl AppState {
    /// Reads the state from the store registered with the manager.
    pub fn from_manager(manager: &StateManager) -> (state: AppState)
        requires
            manager.is_initialized(),
        ensures
            state == decode(manager.entries()),
    {
        AppState::from_store(SettingsStore::from_manager(manager))
    }

    /// Reads the state from a store, field by field. A field whose key is
    /// missing, or holds a value of another shape, gets its default.
    pub fn from_store(store: &SettingsStore) -> (state: AppState)
        ensures
            state == decode(store@),
    {
        AppState::from_store_checked(store).0
    }

    /// Reads the state as `from_store` does, and says for which fields a
    /// stored value had to be passed over.
    pub fn from_store_checked(store: &SettingsStore) -> (read: (AppState, MalformedFields))
        ensures
            read.0 == decode(store@),
            read.1 == malformed(store@),
    {
        let theme = read_theme(&store.get("theme"));
        let docked = read_flag(&store.get("defaultSidebarDockedPreference"), true);
        let view_mode = read_flag(&store.get("viewModeEnabled"), false);
        let zen_mode = read_flag(&store.get("zenModeEnabled"), false);
        (
            AppState {
                theme: theme.0,
                default_sidebar_docked_preference: docked.0,
                view_mode_enabled: view_mode.0,
                zen_mode_enabled: zen_mode.0,
            },
            MalformedFields {
                theme: theme.1,
                default_sidebar_docked_preference: docked.1,
                view_mode_enabled: view_mode.1,
                zen_mode_enabled: zen_mode.1,
            },
        )
    }

    /// Writes all four fields into the store, over whatever their keys held.
    pub fn store(&self, store: &mut SettingsStore)
        ensures
            final(store)@ == encode(old(store)@, *self),
    {
        store.set_text("theme", self.theme.as_str());
        store.set_flag("defaultSidebarDockedPreference", self.default_sidebar_docked_preference);
        store.set_flag("viewModeEnabled", self.view_mode_enabled);
        store.set_flag("zenModeEnabled", self.zen_mode_enabled);
    }
}

/// The current state, read from the registered store. Fails only where no
/// store was registered.
pub fn get_app_state(manager: &StateManager) -> (result: Result<AppState, StateError>)
    ensures
        manager.is_initialized() ==> result == Ok::<AppState, StateError>(
            decode(manager.entries()),
        ),
        !manager.is_initialized() ==> result == Err::<AppState, StateError>(
            StateError::RegistryNotInitialized,
        ),
{
    if manager.has_settings() {
        Ok(AppState::from_manager(manager))
    } else {
        Err(StateError::RegistryNotInitialized)
    }
}

/// Writes a new state into the registered store. Fails only where no store
/// was registered, and then changes nothing.
pub fn set_app_state(manager: &mut StateManager, new_state: AppState) -> (result: Result<
    (),
    StateError,
>)
    ensures
        old(manager).is_initialized() ==> result == Ok::<(), StateError>(())
            && final(manager).is_initialized() && final(manager).entries() == encode(
            old(manager).entries(),
            new_state,
        ),
        !old(manager).is_initialized() ==> result == Err::<(), StateError>(
            StateError::RegistryNotInitialized,
        ) && *final(manager) == *old(manager),
{
    match manager.take_settings() {
        Some(mut store) => {
            new_state.store(&mut store);
            manager.put_settings(store);
            Ok(())
        },
        None => Err(StateError::RegistryNotInitialized),
    }
}

} // verus!
