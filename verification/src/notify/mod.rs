//! Desktop notifications about failed translations.

pub mod notify_send;

use vstd::prelude::*;

verus! {

/// How urgent a notification is.
#[derive(Clone, Copy, Debug, PartialEq, Eq, Structural)]
pub enum Urgency {
    Normal,
    Critical,
}

/// Something that can tell the user that a translation failed.
pub trait Notifier: Send + Sync {
    fn translation_failed(&self, title: &str, message: &str, urgency: Urgency);
}

} // verus!
