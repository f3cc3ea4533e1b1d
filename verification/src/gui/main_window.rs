//! Choices the main window makes: the offered languages, the preset that
//! starts selected and the look of an empty translation area.

use vstd::prelude::*;

use crate::app_runtime::TranslationOutcome;
use crate::config::schema::AppConfig;
use crate::text::{
    ascii_lower_seq, ascii_lowercase_chars, chars_of, contains_seq, is_blank, is_blank_str, str_contains,
    str_eq, string_of,
};

verus! {

/// The languages offered in the language selector.
pub const DEFAULT_LANGUAGES: [&'static str; 10] = [
    "English",
    "Russian",
    "German",
    "French",
    "Spanish",
    "Chinese",
    "Japanese",
    "Korean",
    "Italian",
    "Portuguese",
];

/// The languages offered in the language selector.
pub fn default_languages() -> (r: &'static [&'static str])
    ensures
        r@ == DEFAULT_LANGUAGES@,
{
    DEFAULT_LANGUAGES.as_slice()
}

/// The index of the first preset, from `i` on, with the id; `0` when there
/// is none.
pub open spec fn preset_index(
    ps: Seq<crate::config::schema::PresetView>,
    id: Seq<char>,
    i: int,
) -> int
    decreases ps.len() - i,
{
    if i < 0 || i >= ps.len() {
        0
    } else if ps[i].id == id {
        i
    } else {
        preset_index(ps, id, i + 1)
    }
}

/// The index of the preset selected when the window opens: the first
/// preset with the last used id, else the first preset; none when there
/// are no presets.
pub fn selected_preset_index(config: &AppConfig) -> (r: Option<u32>)
    ensures
        config@.presets.len() == 0 ==> r is None,
        config@.presets.len() > 0 ==> r == Some(
            preset_index(config@.presets, config@.ui.last_preset_id, 0) as u32,
        ),
{
    let presets = &config.presets;
    if presets.len() == 0 {
        return None;
    }
    let ghost ps = config@.presets;
    let ghost id = config@.ui.last_preset_id;
    let mut i: usize = 0;
    while i < presets.len()
        invariant
            i <= presets.len(),
            ps == crate::config::schema::presets_view(presets@),
            ps == config@.presets,
            id == config@.ui.last_preset_id,
            preset_index(ps, id, 0) == preset_index(ps, id, i as int),
        decreases presets.len() - i,
    {
        if str_eq(presets[i].id.as_str(), config.ui.last_preset_id.as_str()) {
            return Some(i as u32);
        }
        i += 1;
    }
    Some(0)
}

/// The stylesheet that shades an empty translation area, for a dark or a
/// light theme.
pub fn translation_empty_css(is_dark: bool) -> (r: &'static str)
    ensures
        is_dark ==> r@ == ".translation-empty text { background-color: #2d2d2d; }"@,
        !is_dark ==> r@ == ".translation-empty text { background-color: #f8f8f8; }"@,
{
    if is_dark {
        ".translation-empty text { background-color: #2d2d2d; }"
    } else {
        ".translation-empty text { background-color: #f8f8f8; }"
    }
}

/// The theme is dark: the application prefers a dark theme, or the theme's
/// name contains `dark` in any ASCII case.
pub open spec fn prefers_dark(prefer_dark_theme: bool, theme_name: Option<Seq<char>>) -> bool {
    prefer_dark_theme || (theme_name matches Some(t) && contains_seq(ascii_lower_seq(t), "dark"@))
}

/// Whether the window should use dark colours, given GTK's settings.
pub fn theme_prefers_dark(prefer_dark_theme: bool, theme_name: Option<&str>) -> (r: bool)
    ensures
        r == prefers_dark(prefer_dark_theme, match theme_name {
            Some(t) => Some(t@),
            None => None,
        }),
{
    if prefer_dark_theme {
        return true;
    }
    match theme_name {
        Some(t) => {
            let lower = string_of(&ascii_lowercase_chars(&chars_of(t)));
            str_contains(lower.as_str(), "dark")
        },
        None => false,
    }
}

/// What the window shows instead of starting a translation, if anything:
/// the input must not be blank, then the language, and a preset must be
/// chosen.
pub open spec fn click_refusal(input: Seq<char>, language: Seq<char>, preset_chosen: bool) -> Option<
    Seq<char>,
> {
    if is_blank(input) {
        Some("Enter text to translate."@)
    } else if is_blank(language) {
        Some("Enter target language."@)
    } else if !preset_chosen {
        Some("Select a preset."@)
    } else {
        None
    }
}

/// The status text for a click on Translate that starts nothing; see
/// [`click_refusal`].
pub fn translate_click_refusal(input: &str, language: &str, preset_chosen: bool) -> (r: Option<
    &'static str,
>)
    ensures
        match click_refusal(input@, language@, preset_chosen) {
            Some(m) => r matches Some(x) && x@ == m,
            None => r is None,
        },
{
    if is_blank_str(input) {
        Some("Enter text to translate.")
    } else if is_blank_str(language) {
        Some("Enter target language.")
    } else if !preset_chosen {
        Some("Select a preset.")
    } else {
        None
    }
}

/// How the window shows a finished translation.
#[derive(Debug, PartialEq, Eq)]
pub enum OutcomeDisplay {
    /// The text goes into the output, the status line is cleared and Copy
    /// is enabled.
    Translation(String),
    /// The message goes into the status line and Copy is disabled.
    Status(String),
    /// An outcome with neither text nor message leaves both as they are.
    Unchanged,
}

/// How the window shows an outcome: its translated text if it has one,
/// else its message.
pub fn outcome_display(outcome: &TranslationOutcome) -> (r: OutcomeDisplay)
    ensures
        match outcome.translated_text {
            Some(t) => r matches OutcomeDisplay::Translation(x) && x@ == t@,
            None => match outcome.message {
                Some(m) => r matches OutcomeDisplay::Status(x) && x@ == m@,
                None => r is Unchanged,
            },
        },
{
    match &outcome.translated_text {
        Some(t) => OutcomeDisplay::Translation(t.clone()),
        None => match &outcome.message {
            Some(m) => OutcomeDisplay::Status(m.clone()),
            None => OutcomeDisplay::Unchanged,
        },
    }
}

} // verus!
