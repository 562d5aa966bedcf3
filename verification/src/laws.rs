//! What holds of reading and writing the application state, for every
//! document and every state.

use vstd::prelude::*;
use crate::app_state::{
    decode, default_state, encode, is_settings_key, malformed, sidebar_key, theme_key,
    view_mode_key, zen_mode_key, AppState, MalformedFields,
};
use crate::document::Shape;
use crate::theme::{parse_of_text, parse_theme};

verus! {

/// The four preference keys differ from one another.
pub proof fn settings_keys_distinct()
    ensures
        theme_key() != sidebar_key(),
        theme_key() != view_mode_key(),
        theme_key() != zen_mode_key(),
        sidebar_key() != view_mode_key(),
        sidebar_key() != zen_mode_key(),
        view_mode_key() != zen_mode_key(),
{
    reveal_strlit("theme");
    reveal_strlit("defaultSidebarDockedPreference");
    reveal_strlit("viewModeEnabled");
    reveal_strlit("zenModeEnabled");
    assert(theme_key().len() == 5);
    assert(sidebar_key().len() == 30);
    assert(view_mode_key().len() == 15);
    assert(zen_mode_key().len() == 14);
}

/// A field whose key the document lacks is read as its default, and is not
/// reported as malformed.
pub proof fn missing_key_reads_default(entries: Map<Seq<char>, Shape>)
    ensures
        !entries.contains_key(theme_key()) ==> decode(entries).theme == default_state().theme
            && !malformed(entries).theme,
        !entries.contains_key(sidebar_key()) ==> decode(
            entries,
        ).default_sidebar_docked_preference == default_state().default_sidebar_docked_preference
            && !malformed(entries).default_sidebar_docked_preference,
        !entries.contains_key(view_mode_key()) ==> decode(entries).view_mode_enabled
            == default_state().view_mode_enabled && !malformed(entries).view_mode_enabled,
        !entries.contains_key(zen_mode_key()) ==> decode(entries).zen_mode_enabled
            == default_state().zen_mode_enabled && !malformed(entries).zen_mode_enabled,
{
}

/// A document that holds none of the four keys is read as the default state.
pub proof fn empty_document_reads_default()
    ensures
        decode(Map::<Seq<char>, Shape>::empty()) == default_state(),
{
}

/// A field whose key holds a value of the wrong shape (for a flag, anything
/// but a boolean; for the theme, anything but a string that names a theme)
/// is read as its default and reported as malformed.
pub proof fn wrong_shape_reads_default(entries: Map<Seq<char>, Shape>)
    ensures
        entries.contains_key(theme_key()) && !(entries[theme_key()] matches Shape::Text(text)
            && parse_theme(text) is Some) ==> decode(entries).theme == default_state().theme
            && malformed(entries).theme,
        entries.contains_key(sidebar_key()) && !(entries[sidebar_key()] is Flag) ==> decode(
            entries,
        ).default_sidebar_docked_preference == default_state().default_sidebar_docked_preference
            && malformed(entries).default_sidebar_docked_preference,
        entries.contains_key(view_mode_key()) && !(entries[view_mode_key()] is Flag) ==> decode(
            entries,
        ).view_mode_enabled == default_state().view_mode_enabled && malformed(
            entries,
        ).view_mode_enabled,
        entries.contains_key(zen_mode_key()) && !(entries[zen_mode_key()] is Flag) ==> decode(
            entries,
        ).zen_mode_enabled == default_state().zen_mode_enabled && malformed(
            entries,
        ).zen_mode_enabled,
{
}

/// A field is reported as malformed only where its key holds a value of the
/// wrong shape.
pub proof fn malformed_only_when_wrong_shape(entries: Map<Seq<char>, Shape>)
    ensures
        malformed(entries).theme ==> entries.contains_key(theme_key()) && !(
        entries[theme_key()] matches Shape::Text(text) && parse_theme(text) is Some),
        malformed(entries).default_sidebar_docked_preference ==> entries.contains_key(
            sidebar_key(),
        ) && !(entries[sidebar_key()] is Flag),
        malformed(entries).view_mode_enabled ==> entries.contains_key(view_mode_key()) && !(
        entries[view_mode_key()] is Flag),
        malformed(entries).zen_mode_enabled ==> entries.contains_key(zen_mode_key()) && !(
        entries[zen_mode_key()] is Flag),
{
}

/// Each field is read from its own key alone: two documents that agree on a
/// key agree on the field read from it, whatever their other keys hold.
pub proof fn fields_read_independently(a: Map<Seq<char>, Shape>, b: Map<Seq<char>, Shape>)
    ensures
        a.get(theme_key()) == b.get(theme_key()) ==> decode(a).theme == decode(b).theme
            && malformed(a).theme == malformed(b).theme,
        a.get(sidebar_key()) == b.get(sidebar_key()) ==> decode(
            a,
        ).default_sidebar_docked_preference == decode(b).default_sidebar_docked_preference
            && malformed(a).default_sidebar_docked_preference == malformed(
            b,
        ).default_sidebar_docked_preference,
        a.get(view_mode_key()) == b.get(view_mode_key()) ==> decode(a).view_mode_enabled
            == decode(b).view_mode_enabled && malformed(a).view_mode_enabled == malformed(
            b,
        ).view_mode_enabled,
        a.get(zen_mode_key()) == b.get(zen_mode_key()) ==> decode(a).zen_mode_enabled == decode(
            b,
        ).zen_mode_enabled && malformed(a).zen_mode_enabled == malformed(b).zen_mode_enabled,
{
}

/// Reading after writing gives the written state back, whatever the document
/// held before, and reports no field as malformed.
pub proof fn read_after_write(entries: Map<Seq<char>, Shape>, state: AppState)
    ensures
        decode(encode(entries, state)) == state,
        malformed(encode(entries, state)) == (MalformedFields {
            theme: false,
            default_sidebar_docked_preference: false,
            view_mode_enabled: false,
            zen_mode_enabled: false,
        }),
{
    settings_keys_distinct();
    parse_of_text(state.theme);
}

/// Of two writes in a row the later one wins: the document is as if only
/// the later state had been written.
pub proof fn last_write_wins(entries: Map<Seq<char>, Shape>, first: AppState, second: AppState)
    ensures
        encode(encode(entries, first), second) == encode(entries, second),
{
    settings_keys_distinct();
    assert(encode(encode(entries, first), second) =~= encode(entries, second));
}

/// Writing the same state twice leaves the document as one write does, and
/// reading then gives that state.
pub proof fn write_twice(entries: Map<Seq<char>, Shape>, state: AppState)
    ensures
        encode(encode(entries, state), state) == encode(entries, state),
        decode(encode(encode(entries, state), state)) == state,
{
    last_write_wins(entries, state, state);
    read_after_write(entries, state);
}

/// Writing a state touches the four preference keys only: every other key is
/// in the document afterwards exactly if it was before, and holds what it
/// held.
pub proof fn write_keeps_other_keys(
    entries: Map<Seq<char>, Shape>,
    state: AppState,
    key: Seq<char>,
)
    requires
        !is_settings_key(key),
    ensures
        encode(entries, state).contains_key(key) == entries.contains_key(key),
        encode(entries, state).get(key) == entries.get(key),
{
}

/// After a write the document holds the four preference keys and the keys
/// that it held before, and no others.
pub proof fn write_adds_settings_keys_only(entries: Map<Seq<char>, Shape>, state: AppState)
    ensures
        forall|key: Seq<char>|
            encode(entries, state).contains_key(key) <==> (entries.contains_key(key)
                || is_settings_key(key)),
{
}

} // verus!
