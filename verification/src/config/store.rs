//! Where the configuration file lives. Reading and writing it is done by
//! the application around this library.

use std::path::PathBuf;

use vstd::prelude::*;

verus! {

/// `std::path::PathBuf`, carried through unchanged.
#[verifier::external_type_specification]
#[verifier::external_body]
pub struct ExPathBuf(PathBuf);

/// The location of the configuration file.
#[derive(Debug)]
pub struct ConfigStore {
    path: PathBuf,
}

impl ConfigStore {
    /// The location this store was made with.
    pub closed spec fn location(&self) -> PathBuf {
        self.path
    }

    /// A store for the file at `path`.
    pub fn new(path: PathBuf) -> (s: Self)
        ensures
            s.location() == path,
    {
        Self { path }
    }

    /// The file's location.
    pub fn path(&self) -> (p: &PathBuf)
        ensures
            *p == self.location(),
    {
        &self.path
    }
}

} // verus!
