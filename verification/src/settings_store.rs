//! The settings registry: the one open settings document of a process, and
//! the manager through which every operation reaches it.

use vstd::prelude::*;
use crate::document::{
    document_entries, read_entry, shape_of, write_flag, write_text, RawValue, Shape,
};

verus! {

/// Seconds between two automatic saves of the settings document.
pub const AUTO_SAVE_SECS: u64 = 30;

/// Name of the file that backs the settings document.
pub fn settings_file_name() -> (name: &'static str)
    ensures
        name@ == "settings.json"@,
{
    "settings.json"
}

/// Why a settings operation failed.
#[derive(Debug, Clone, Copy, PartialEq, Eq)]
pub enum StateError {
    /// No settings store was registered with the manager.
    RegistryNotInitialized,
}

impl StateError {
    /// A sentence that names the failure.
    pub fn message(&self) -> (text: &'static str)
        ensures
            text@ == "settings registry not initialized"@,
    {
        match self {
            StateError::RegistryNotInitialized => "settings registry not initialized",
        }
    }
}

/// The open settings document. Its view is the document's entries.
pub struct SettingsStore {
    document: serde_json::Map<String, serde_json::Value>,
}

impl View for SettingsStore {
    type V = Map<Seq<char>, Shape>;

    closed spec fn view(&self) -> Map<Seq<char>, Shape> {
        document_entries(self.document)
    }
}

/// Holds the settings store once it is registered. A fresh manager holds none.
pub struct StateManager {
    settings: Option<SettingsStore>,
}

impl StateManager {
    /// Whether a settings store was registered.
    pub closed spec fn is_initialized(&self) -> bool {
        self.settings is Some
    }

    /// The entries of the registered store's document.
    pub closed spec fn entries(&self) -> Map<Seq<char>, Shape>
        recommends
            self.is_initialized(),
    {
        self.settings.unwrap()@
    }

    /// A manager with no settings store registered yet.
    pub fn new() -> (manager: StateManager)
        ensures
            !manager.is_initialized(),
    {
        StateManager { settings: None }
    }

    /// Whether a settings store was registered.
    pub fn has_settings(&self) -> (registered: bool)
        ensures
            registered == self.is_initialized(),
    {
        self.settings.is_some()
    }

    /// Hands out the registered store, if there is one, to be changed and
    /// put back. Without one the manager is left as it was.
    pub(crate) fn take_settings(&mut self) -> (store: Option<SettingsStore>)
        ensures
            store is Some == old(self).is_initialized(),
            store is Some ==> store.unwrap()@ == old(self).entries(),
            !final(self).is_initialized(),
            !old(self).is_initialized() ==> *final(self) == *old(self),
    {
        self.settings.take()
    }

    /// Puts a store back where `take_settings` found one.
    pub(crate) fn put_settings(&mut self, store: SettingsStore)
        ensures
            final(self).is_initialized(),
            final(self).entries() == store@,
    {
        self.settings = Some(store);
    }
}

impl SettingsStore {
    /// Registers the settings store, holding `document`, with the manager.
    /// A manager takes one store in its life.
    pub fn init(manager: &mut StateManager, document: serde_json::Map<String, serde_json::Value>)
        requires
            !old(manager).is_initialized(),
        ensures
            final(manager).is_initialized(),
            final(manager).entries() == document_entries(document),
    {
        manager.settings = Some(SettingsStore::from_store(document));
    }

    /// The store that was registered with the manager.
    pub fn from_manager(manager: &StateManager) -> (store: &SettingsStore)
        requires
            manager.is_initialized(),
        ensures
            store@ == manager.entries(),
    {
        manager.settings.as_ref().unwrap()
    }

    /// A store over the given document.
    pub fn from_store(document: serde_json::Map<String, serde_json::Value>) -> (store:
        SettingsStore)
        ensures
            store@ == document_entries(document),
    {
        SettingsStore { document }
    }

    /// The document that the store holds.
    pub fn document(&self) -> (document: &serde_json::Map<String, serde_json::Value>)
        ensures
            document_entries(*document) == self@,
    {
        &self.document
    }

    /// The value stored under `key`, if the document holds the key.
    pub fn get(&self, key: &str) -> (raw: Option<RawValue>)
        ensures
            shape_of(raw) == self@.get(key@),
    {
        read_entry(&self.document, key)
    }

    /// Stores a boolean under `key`; every other key keeps its value.
    pub fn set_flag(&mut self, key: &str, flag: bool)
        ensures
            final(self)@ == old(self)@.insert(key@, Shape::Flag(flag)),
    {
        write_flag(&mut self.document, key, flag);
    }

    /// Stores a string under `key`; every other key keeps its value.
    pub fn set_text(&mut self, key: &str, text: &str)
        ensures
            final(self)@ == old(self)@.insert(key@, Shape::Text(text@)),
    {
        write_text(&mut self.document, key, text);
    }
}

} // verus!
