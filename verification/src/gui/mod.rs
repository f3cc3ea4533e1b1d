//! The logic behind the window, the dialogs and their shortcuts.

pub mod actions;
pub mod main_window;
pub mod preset_editor;
pub mod settings_dialog;

use vstd::prelude::*;

verus! {

/// The GTK application id, distinct from the daemon's D-Bus name.
pub const APPLICATION_ID: &'static str = "dev.aronov.Verba.Gui";

/// The arguments handed to GTK: only the program name, so that the CLI's
/// subcommand is never taken for a file to open.
pub fn application_args() -> (r: [&'static str; 1])
    ensures
        r@[0]@ == "verba"@,
{
    ["verba"]
}

pub fn application_id() -> (r: &'static str)
    ensures
        r@ == APPLICATION_ID@,
{
    APPLICATION_ID
}

/// The window stays in the tray when the application starts.
pub fn present_window_on_startup() -> (r: bool)
    ensures
        !r,
{
    false
}

} // verus!
