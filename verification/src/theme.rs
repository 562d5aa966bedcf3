//! The colour theme preference and its textual form.

use vstd::prelude::*;
use crate::text::text_equals;

verus! {

/// The colour theme the user asked for.
#[derive(Debug, Clone, Copy, PartialEq, Eq)]
pub enum Theme {
    Light,
    Dark,
    System,
}

/// The text under which a theme is stored.
pub open spec fn theme_text(theme: Theme) -> Seq<char> {
    match theme {
        Theme::Light => "light"@,
        Theme::Dark => "dark"@,
        Theme::System => "system"@,
    }
}

/// The theme that a stored text names, if it names one.
pub open spec fn parse_theme(text: Seq<char>) -> Option<Theme> {
    if text == "light"@ {
        Some(Theme::Light)
    } else if text == "dark"@ {
        Some(Theme::Dark)
    } else if text == "system"@ {
        Some(Theme::System)
    } else {
        None
    }
}

/// The three stored texts differ from one another, so each names one theme.
pub proof fn theme_texts_distinct()
    ensures
        "light"@ != "dark"@,
        "light"@ != "system"@,
        "dark"@ != "system"@,
{
    reveal_strlit("light");
    reveal_strlit("dark");
    reveal_strlit("system");
    assert("light"@.len() == 5);
    assert("dark"@.len() == 4);
    assert("system"@.len() == 6);
}

/// Parsing the stored text of a theme gives that theme back.
pub proof fn parse_of_text(theme: Theme)
    ensures
        parse_theme(theme_text(theme)) == Some(theme),
{
    theme_texts_distinct();
}

impl Theme {
    /// The text under which this theme is stored.
    pub fn as_str(&self) -> (text: &'static str)
        ensures
            text@ == theme_text(*self),
    {
        match self {
            Theme::Light => "light",
            Theme::Dark => "dark",
            Theme::System => "system",
        }
    }

    /// Reads a theme from its stored text; any other text names none.
    pub fn parse(text: &str) -> (theme: Option<Theme>)
        ensures
            theme == parse_theme(text@),
    {
        if text_equals(text, "light") {
            Some(Theme::Light)
        } else if text_equals(text, "dark") {
            Some(Theme::Dark)
        } else if text_equals(text, "system") {
            Some(Theme::System)
        } else {
            None
        }
    }
}

} // verus!
