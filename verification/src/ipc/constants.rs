//! The daemon's D-Bus coordinates.

use vstd::prelude::*;

verus! {

/// The well-known bus name the daemon owns.
pub const SERVICE_NAME: &'static str = "dev.aronov.Verba";

/// The object path the daemon serves.
pub const OBJECT_PATH: &'static str = "/io/github/example/Verba";

/// The interface of the served object.
pub const INTERFACE_NAME: &'static str = "dev.aronov.Verba";

} // verus!
