//! Notifications through the `notify-send` command.

use vstd::prelude::*;

use crate::notify::Urgency;
use crate::text::concat2;

verus! {

/// The `notify-send` command.
#[derive(Clone, Copy, Debug, Default)]
pub struct NotifySend;

/// The name `notify-send` uses for an urgency.
pub open spec fn urgency_name(u: Urgency) -> Seq<char> {
    match u {
        Urgency::Normal => "normal"@,
        Urgency::Critical => "critical"@,
    }
}

impl NotifySend {
    /// The command-line arguments for one notification: the application
    /// name, the urgency, the title and the message.
    pub fn args(title: &str, message: &str, urgency: Urgency) -> (r: Vec<String>)
        ensures
            r@.len() == 4,
            r@[0]@ == "--app-name=Verba"@,
            r@[1]@ == "--urgency="@ + urgency_name(urgency),
            r@[2]@ == title@,
            r@[3]@ == message@,
    {
        vec![
            "--app-name=Verba".to_string(),
            concat2("--urgency=", urgency.as_str()),
            title.to_string(),
            message.to_string(),
        ]
    }
}

impl Urgency {
    fn as_str(self) -> (r: &'static str)
        ensures
            r@ == urgency_name(self),
    {
        match self {
            Urgency::Normal => "normal",
            Urgency::Critical => "critical",
        }
    }
}

} // verus!
