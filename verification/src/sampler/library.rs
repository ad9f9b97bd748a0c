//! Sample library management

use vstd::prelude::*;
use std::path::PathBuf;

verus! {

/// A folder of video samples.
pub struct SampleLibrary {
    root_path: PathBuf,
}

impl SampleLibrary {
    /// The folder the library was opened on.
    pub closed spec fn root(&self) -> PathBuf {
        self.root_path
    }

    pub fn new(root: PathBuf) -> (lib: Self)
        ensures
            lib.root() == root,
    {
        Self { root_path: root }
    }

    /// Video files found in the library. Scanning is not implemented yet, so
    /// the list is always empty.
    pub fn scan(&self) -> (files: Vec<PathBuf>)
        ensures
            files@.len() == 0,
    {
        Vec::new()
    }
}

} // verus!
