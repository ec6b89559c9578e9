//! How the window looks: the theme and the fonts.

use crate::text::{chars_eq_str, chars_of, string_of, trim, trim_chars, utf8_len, utf8_len_at_most};
use vstd::prelude::*;

verus! {

#[derive(Clone, Copy, Debug, PartialEq, Eq, Structural)]
pub enum AppearanceTheme {
    Light,
    Dark,
    System,
}

impl Default for AppearanceTheme {
    fn default() -> (out: Self)
        ensures
            out == AppearanceTheme::System,
    {
        AppearanceTheme::System
    }
}

impl AppearanceTheme {
    /// The name of the theme.
    pub open spec fn name(self) -> Seq<char> {
        match self {
            AppearanceTheme::Light => "light"@,
            AppearanceTheme::Dark => "dark"@,
            AppearanceTheme::System => "system"@,
        }
    }

    /// The theme that `raw` names, once trimmed. The names are matched as
    /// they are written.
    pub open spec fn named(raw: Seq<char>) -> Option<AppearanceTheme> {
        let name = trim(raw);
        if name == "light"@ {
            Some(AppearanceTheme::Light)
        } else if name == "dark"@ {
            Some(AppearanceTheme::Dark)
        } else if name == "system"@ {
            Some(AppearanceTheme::System)
        } else {
            None
        }
    }

    pub fn as_str(self) -> (name: &'static str)
        ensures
            name@ == self.name(),
    {
        match self {
            AppearanceTheme::Light => "light",
            AppearanceTheme::Dark => "dark",
            AppearanceTheme::System => "system",
        }
    }

    pub fn parse(raw: &str) -> (theme: Option<Self>)
        ensures
            theme == Self::named(raw@),
    {
        let chars = chars_of(raw);
        let name = trim_chars(&chars);
        if chars_eq_str(&name, "light") {
            Some(AppearanceTheme::Light)
        } else if chars_eq_str(&name, "dark") {
            Some(AppearanceTheme::Dark)
        } else if chars_eq_str(&name, "system") {
            Some(AppearanceTheme::System)
        } else {
            None
        }
    }
}

#[derive(Clone, Debug, PartialEq, Eq)]
pub struct AppearanceFonts {
    pub ui_font: String,
    pub chat_font: String,
    pub code_font: String,
    pub terminal_font: String,
}

impl Default for AppearanceFonts {
    fn default() -> (out: Self)
        ensures
            out.ui_font@ == "Inter"@,
            out.chat_font@ == "Inter"@,
            out.code_font@ == "Geist Mono"@,
            out.terminal_font@ == "Geist Mono"@,
    {
        AppearanceFonts {
            ui_font: "Inter".to_owned(),
            chat_font: "Inter".to_owned(),
            code_font: "Geist Mono".to_owned(),
            terminal_font: "Geist Mono".to_owned(),
        }
    }
}

/// The longest font name that is kept, in bytes.
pub const MAX_FONT_NAME_LEN: usize = 128;

/// `raw` trimmed, where it is given, not blank and at most `max_len` bytes
/// long; `fallback` otherwise.
pub open spec fn normalized(raw: Option<Seq<char>>, fallback: Seq<char>, max_len: usize) -> Seq<
    char,
> {
    match raw {
        Some(raw) => if trim(raw).len() > 0 && utf8_len(trim(raw)) <= max_len {
            trim(raw)
        } else {
            fallback
        },
        None => fallback,
    }
}

pub fn normalize_string(raw: Option<&str>, fallback: &str, max_len: usize) -> (out: String)
    ensures
        out@ == normalized(
            match raw {
                Some(raw) => Some(raw@),
                None => None,
            },
            fallback@,
            max_len,
        ),
{
    match raw {
        Some(raw) => {
            let chars = chars_of(raw);
            let value = trim_chars(&chars);
            if value.len() > 0 && utf8_len_at_most(&value, max_len) {
                string_of(&value)
            } else {
                fallback.to_owned()
            }
        },
        None => fallback.to_owned(),
    }
}

/// A font name as it was persisted, or `fallback` where none usable was.
pub fn normalize_font(raw: Option<&str>, fallback: &str) -> (out: String)
    ensures
        out@ == normalized(
            match raw {
                Some(raw) => Some(raw@),
                None => None,
            },
            fallback@,
            MAX_FONT_NAME_LEN,
        ),
{
    normalize_string(raw, fallback, MAX_FONT_NAME_LEN)
}

} // verus!
