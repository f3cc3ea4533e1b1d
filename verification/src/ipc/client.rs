//! The commands the command line sends to the daemon, and what to do
//! after each attempt to send one: the daemon is started once when the
//! first attempt fails, and attempts are repeated until a deadline.

use vstd::prelude::*;
use vstd::string::*;

use crate::cli::Command;
use crate::error::{ErrorView, VerbaError};
use crate::text::concat2;

verus! {

/// A command the daemon understands.
#[derive(Clone, Copy, Debug, PartialEq, Eq, Structural)]
pub enum IpcCommand {
    Toggle,
    Show,
    Hide,
    Settings,
    Quit,
    ReloadConfig,
}

/// A command line subcommand that has no D-Bus counterpart.
#[derive(Clone, Copy, Debug, PartialEq, Eq, Structural)]
pub struct NotIpcCommand;

/// The D-Bus command for a subcommand: all but `daemon` have one.
pub open spec fn ipc_command_for(c: Command) -> Option<IpcCommand> {
    match c {
        Command::Toggle => Some(IpcCommand::Toggle),
        Command::Show => Some(IpcCommand::Show),
        Command::Hide => Some(IpcCommand::Hide),
        Command::Settings => Some(IpcCommand::Settings),
        Command::Quit => Some(IpcCommand::Quit),
        Command::Daemon => None,
    }
}

impl IpcCommand {
    /// The D-Bus command for a subcommand; see [`ipc_command_for`].
    pub fn from_command(value: Command) -> (r: Result<IpcCommand, NotIpcCommand>)
        ensures
            match ipc_command_for(value) {
                Some(c) => r == Ok::<IpcCommand, NotIpcCommand>(c),
                None => r == Err::<IpcCommand, NotIpcCommand>(NotIpcCommand),
            },
    {
        match value {
            Command::Toggle => Ok(IpcCommand::Toggle),
            Command::Show => Ok(IpcCommand::Show),
            Command::Hide => Ok(IpcCommand::Hide),
            Command::Settings => Ok(IpcCommand::Settings),
            Command::Quit => Ok(IpcCommand::Quit),
            Command::Daemon => Err(NotIpcCommand),
        }
    }
}

impl TryFrom<Command> for IpcCommand {
    type Error = NotIpcCommand;

    fn try_from(value: Command) -> (r: Result<IpcCommand, NotIpcCommand>) {
        IpcCommand::from_command(value)
    }
}

impl vstd::std_specs::convert::TryFromSpecImpl<Command> for IpcCommand {
    open spec fn obeys_try_from_spec() -> bool {
        true
    }

    open spec fn try_from_spec(v: Command) -> Result<IpcCommand, NotIpcCommand> {
        match ipc_command_for(v) {
            Some(c) => Ok(c),
            None => Err(NotIpcCommand),
        }
    }
}

/// What to do after an attempt to send a command.
#[derive(Debug)]
pub enum CallStep {
    /// The command was delivered.
    Done,
    /// The first attempt failed: start the daemon, wait, then retry.
    StartDaemon,
    /// A retry failed before the deadline: wait and retry.
    Retry,
    /// A retry failed at the deadline: give up with this error.
    Fail(VerbaError),
}

/// The error after the last retry failed.
pub open spec fn retry_error_text(error: Seq<char>, first_error: Seq<char>) -> Seq<char> {
    "D-Bus call failed after starting daemon: "@ + error + "; first error: "@ + first_error
}

/// What follows the first attempt.
pub fn after_first_attempt(attempt: &Result<(), String>) -> (s: CallStep)
    ensures
        attempt is Ok ==> s is Done,
        attempt is Err ==> s is StartDaemon,
{
    match attempt {
        Ok(()) => CallStep::Done,
        Err(_) => CallStep::StartDaemon,
    }
}

/// What follows a retry, given the first attempt's error and whether the
/// deadline is still ahead.
pub fn after_retry(attempt: &Result<(), String>, first_error: &str, before_deadline: bool) -> (s:
    CallStep)
    ensures
        match attempt {
            Ok(_) => s is Done,
            Err(e) => if before_deadline {
                s is Retry
            } else {
                s matches CallStep::Fail(x) && x@ == ErrorView::Dbus(
                    retry_error_text(e@, first_error@),
                )
            },
        },
{
    match attempt {
        Ok(()) => CallStep::Done,
        Err(e) => {
            if before_deadline {
                CallStep::Retry
            } else {
                let mut m = concat2("D-Bus call failed after starting daemon: ", e.as_str());
                m.append("; first error: ");
                m.append(first_error);
                CallStep::Fail(VerbaError::Dbus(m))
            }
        },
    }
}

/// The error when `systemctl` ran but did not succeed, given how it
/// exited.
pub fn systemctl_failure(exit_status: &str) -> (e: VerbaError)
    ensures
        e@ == ErrorView::SystemdStart("systemctl exited with "@ + exit_status@),
{
    VerbaError::SystemdStart(concat2("systemctl exited with ", exit_status))
}

} // verus!
