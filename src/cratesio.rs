//! Crates of the default public registry.

use vstd::prelude::*;
use vstd::string::*;
use crate::registry::{crate_file, crate_file_name};
use crate::text::{push_text, texts};

verus! {

/// Where archives of the default registry are downloaded from.
pub const CRATES_ROOT: &'static str = "https://static.crates.io/crates";

/// The download URL of a crate of the default registry:
/// `<root>/<name>/<name>-<version>.crate`.
pub open spec fn crates_io_url(name: Seq<char>, version: Seq<char>) -> Seq<char> {
    CRATES_ROOT@ + "/"@ + name + "/"@ + crate_file_name(name, version)
}

/// A crate of the default public registry.
#[derive(Debug)]
pub struct CratesIOCrate {
    pub name: String,
    pub version: String,
}

impl CratesIOCrate {
    pub fn new(name: &str, version: &str) -> (r: Self)
        ensures
            r.name@ == name@,
            r.version@ == version@,
    {
        CratesIOCrate { name: String::from_str(name), version: String::from_str(version) }
    }

    /// The archive's place under the cache root.
    pub open spec fn cache_path_view(&self) -> Seq<Seq<char>> {
        seq!["cratesio-sources"@, self.name@, crate_file_name(self.name@, self.version@)]
    }

    /// Where the crate archive is cached, under the cache root.
    pub fn cache_path(&self) -> (r: Vec<String>)
        ensures
            texts(r@) == self.cache_path_view(),
    {
        let mut p: Vec<String> = Vec::new();
        push_text(&mut p, "cratesio-sources");
        push_text(&mut p, self.name.as_str());
        let f = crate_file(&self.name, &self.version);
        push_text(&mut p, f.as_str());
        assert(texts(p@) =~= self.cache_path_view());
        p
    }

    /// The URL the archive is downloaded from.
    pub fn download_url(&self) -> (r: String)
        ensures
            r@ == crates_io_url(self.name@, self.version@),
    {
        let mut u = String::from_str(CRATES_ROOT);
        u.append("/");
        u.append(self.name.as_str());
        u.append("/");
        let f = crate_file(&self.name, &self.version);
        u.append(f.as_str());
        u
    }
}

} // verus!
