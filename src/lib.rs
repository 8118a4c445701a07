//! Resolution, caching and extraction of crate sources from registries,
//! git repositories and local directories.
//!
//! The library decides; the caller performs the filesystem, network and
//! process work that the decisions call for.

pub mod text;
pub mod plan;
pub mod registry;
pub mod archive;
pub mod cratesio;
pub mod git;
pub mod local;
pub mod crates;
