//! The command line: its subcommands and the exit code for each error.

use vstd::prelude::*;

use crate::error::{ErrorView, VerbaError};

verus! {

/// The parsed command line.
#[derive(Debug)]
pub struct Cli {
    pub command: Command,
}

/// What the program was asked to do.
#[derive(Clone, Copy, Debug, PartialEq, Eq, Structural)]
pub enum Command {
    Daemon,
    Toggle,
    Show,
    Hide,
    Settings,
    Quit,
}

/// The exit code for an error: 3 for D-Bus failures, 4 when the user
/// service could not be started, 1 otherwise.
pub open spec fn exit_code_of(e: ErrorView) -> i32 {
    match e {
        ErrorView::Dbus(_) => 3,
        ErrorView::SystemdStart(_) => 4,
        _ => 1,
    }
}

/// The process exit code for an error; see [`exit_code_of`].
pub fn exit_code_for_error(error: &VerbaError) -> (c: i32)
    ensures
        c == exit_code_of(error@),
{
    match error {
        VerbaError::Dbus(_) => 3,
        VerbaError::SystemdStart(_) => 4,
        _ => 1,
    }
}

} // verus!
