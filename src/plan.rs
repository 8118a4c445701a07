//! Values exchanged between the library and the code that performs its I/O.

use vstd::prelude::*;

verus! {

/// A failure that the library itself detects.
#[derive(Debug, Clone, Copy, PartialEq, Eq, Structural)]
pub enum SourceError {
    /// A download URL built from an index configuration does not parse.
    MalformedUrl,
    /// An event arrived that the fetch in progress does not expect.
    UnexpectedEvent,
}

/// The configuration document of a registry index.
#[derive(Debug)]
pub struct IndexConfig {
    /// The download URL template, or a base URL.
    pub dl: String,
    /// The base URL of the registry's web API, if any.
    pub api: Option<String>,
    /// The registries that crates of this index may depend on.
    pub allowed_registries: Vec<String>,
}

impl IndexConfig {
    /// A configuration with the given download template and nothing else.
    pub fn new(dl: &str) -> (r: Self)
        ensures
            r.dl@ == dl@,
            r.api is None,
            r.allowed_registries@.len() == 0,
    {
        IndexConfig { dl: String::from_str(dl), api: None, allowed_registries: Vec::new() }
    }
}

/// An invocation of the git client.
///
/// Paths are lists of components relative to the cache root.
#[derive(Debug)]
pub struct GitCommand {
    /// The arguments, in order.
    pub args: Vec<String>,
    /// The directory to run in, if not the current one.
    pub cwd: Option<Vec<String>>,
    /// A path handed as the last argument, if any.
    pub target: Option<Vec<String>>,
}

} // verus!
