//! The window's actions and their keyboard shortcuts.

use vstd::prelude::*;

use crate::text::concat2;

verus! {

/// What the user can trigger in the main window.
#[derive(Clone, Copy, Debug, PartialEq, Eq, Structural)]
pub enum GuiAction {
    Translate,
    OpenSettings,
    Close,
    FocusLanguage,
    FocusPreset,
    CopyResult,
}

/// The action's name in the window's action group.
pub open spec fn action_name_of(a: GuiAction) -> Seq<char> {
    match a {
        GuiAction::Translate => "translate"@,
        GuiAction::OpenSettings => "settings"@,
        GuiAction::Close => "close"@,
        GuiAction::FocusLanguage => "focus-language"@,
        GuiAction::FocusPreset => "focus-preset"@,
        GuiAction::CopyResult => "copy-result"@,
    }
}

/// The shortcuts of an action.
pub open spec fn accelerators_of(a: GuiAction) -> Seq<Seq<char>> {
    match a {
        GuiAction::Translate => seq!["<Control>Return"@],
        GuiAction::Close => seq!["Escape"@],
        GuiAction::FocusLanguage => seq!["<Control>L"@],
        GuiAction::FocusPreset => seq!["<Control>P"@],
        GuiAction::CopyResult => seq!["<Control><Shift>C"@],
        GuiAction::OpenSettings => seq![],
    }
}

impl GuiAction {
    pub fn action_name(self) -> (r: &'static str)
        ensures
            r@ == action_name_of(self),
    {
        match self {
            GuiAction::Translate => "translate",
            GuiAction::OpenSettings => "settings",
            GuiAction::Close => "close",
            GuiAction::FocusLanguage => "focus-language",
            GuiAction::FocusPreset => "focus-preset",
            GuiAction::CopyResult => "copy-result",
        }
    }

    /// The action's name as the application addresses it: `win.` and the
    /// name.
    pub fn detailed_action_name(self) -> (r: String)
        ensures
            r@ == "win."@ + action_name_of(self),
    {
        concat2("win.", self.action_name())
    }
}

/// The keyboard shortcuts of an action.
pub fn accelerators_for_action(action: GuiAction) -> (r: &'static [&'static str])
    ensures
        r@.len() == accelerators_of(action).len(),
        forall|i: int| 0 <= i < r@.len() ==> (#[trigger] r@[i])@ == accelerators_of(action)[i],
{
    match action {
        GuiAction::Translate => &["<Control>Return"],
        GuiAction::Close => &["Escape"],
        GuiAction::FocusLanguage => &["<Control>L"],
        GuiAction::FocusPreset => &["<Control>P"],
        GuiAction::CopyResult => &["<Control><Shift>C"],
        GuiAction::OpenSettings => &[],
    }
}

} // verus!
