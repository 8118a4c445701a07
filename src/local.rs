//! Crates read from a directory of the local filesystem.

use vstd::prelude::*;
use vstd::string::*;

verus! {

/// A crate whose source is a local directory.
#[derive(Debug)]
pub struct Local {
    pub path: String,
}

impl Local {
    pub fn new(path: &str) -> (r: Self)
        ensures
            r.path@ == path@,
    {
        Local { path: String::from_str(path) }
    }
}

} // verus!
