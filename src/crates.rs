//! One type over every origin a crate's source can come from.

use vstd::prelude::*;
use vstd::string::*;
use crate::cratesio::{crates_io_url, CratesIOCrate};
use crate::git::{mirror_update_args, GitRepo};
use crate::local::Local;
use crate::plan::{GitCommand, IndexConfig, SourceError};
use crate::registry::{download_text, index_update_args, parsed_url, slug_of, RegistryCrate};
use crate::text::{push_text, texts};

verus! {

/// The origin of a crate's source.
#[derive(Debug)]
pub enum CrateType {
    CratesIO(CratesIOCrate),
    Git(GitRepo),
    Local(Local),
    Registry(RegistryCrate),
}

/// A crate whose source can be fetched into the cache and copied out of it.
#[derive(Debug)]
pub struct Crate(pub CrateType);

/// What the caller reports back to [`Crate::fetch`] after doing what it was
/// asked.
#[derive(Debug)]
pub enum FetchEvent {
    /// A fetch begins.
    Start,
    /// Whether the cache entry asked about exists.
    CacheChecked(bool),
    /// Whether the index mirror asked about exists.
    IndexChecked(bool),
    /// The git command asked for ran successfully.
    GitFinished,
    /// The index configuration, read and parsed.
    ConfigRead(IndexConfig),
}

/// The next thing a fetch needs done.
///
/// Paths are lists of components relative to the cache root.
#[derive(Debug)]
pub enum FetchAction {
    /// Report whether this path exists, as `CacheChecked`.
    CheckCache(Vec<String>),
    /// Report whether this file exists, as `IndexChecked`.
    CheckIndex(Vec<String>),
    /// Run this git command, then report `GitFinished`.
    RunGit(GitCommand),
    /// Run this git command, parse its output as the index configuration
    /// and report it as `ConfigRead`.
    ReadConfig(GitCommand),
    /// Create the file's parent directories, download `url` into the file;
    /// the fetch is then complete.
    Download { url: String, file: Vec<String> },
    /// The fetch is complete.
    Done,
    /// The fetch fails with this error.
    Fail(SourceError),
}

/// A cache entry to delete if it exists.
#[derive(Debug)]
pub struct CacheEntry {
    pub path: Vec<String>,
    pub is_dir: bool,
}

/// How a crate's source reaches the destination.
#[derive(Debug)]
pub enum CopyMethod {
    /// Unpack this cached archive; wrap a failure with `context`.
    Unpack { archive: Vec<String>, context: String },
    /// Clone the cached mirror at this path into the destination.
    CloneMirror(Vec<String>),
    /// Copy this directory, recursively, into the destination.
    CopyDir(String),
}

/// The steps that put a crate's source into a destination directory.
#[derive(Debug)]
pub struct CopyPlan {
    /// Remove the destination, whole, before anything is written to it.
    pub clear_destination: bool,
    pub method: CopyMethod,
}

/// A cache-relative path as the library states it.
pub open spec fn path_is(p: Vec<String>, v: Seq<Seq<char>>) -> bool {
    texts(p@) == v
}

/// What a git command holds, as the library states it.
pub open spec fn git_is(
    c: GitCommand,
    args: Seq<Seq<char>>,
    cwd: Option<Seq<Seq<char>>>,
    target: Option<Seq<Seq<char>>>,
) -> bool {
    &&& texts(c.args@) == args
    &&& (c.cwd is Some <==> cwd is Some)
    &&& (c.cwd is Some ==> texts(c.cwd->0@) == cwd->0)
    &&& (c.target is Some <==> target is Some)
    &&& (c.target is Some ==> texts(c.target->0@) == target->0)
}

/// Where a registry crate's archive is cached.
pub open spec fn registry_crate_path(k: RegistryCrate) -> Seq<Seq<char>> {
    seq!["registry-sources"@, slug_of(k.index@), k.name@, crate::registry::crate_file_name(k.name@, k.version@)]
}

/// Where a registry's index mirror is kept.
pub open spec fn registry_index_path(k: RegistryCrate) -> Seq<Seq<char>> {
    seq!["registry-index"@, slug_of(k.index@)]
}

/// The git command that refreshes or clones a mirror at `path`.
pub open spec fn mirror_command(
    c: GitCommand,
    args: Seq<Seq<char>>,
    present: bool,
    path: Seq<Seq<char>>,
) -> bool {
    if present {
        git_is(c, args, Some(path), None)
    } else {
        git_is(c, args, None, Some(path))
    }
}

/// What `fetch` answers to `event`, for each origin.
pub open spec fn fetch_step(c: CrateType, event: FetchEvent, r: FetchAction) -> bool {
    match c {
        CrateType::CratesIO(k) => match event {
            FetchEvent::Start => r is CheckCache && path_is(r->CheckCache_0, k.cache_path_view()),
            FetchEvent::CacheChecked(true) => r is Done,
            FetchEvent::CacheChecked(false) => r is Download && r->url@ == crates_io_url(
                k.name@,
                k.version@,
            ) && path_is(r->file, k.cache_path_view()),
            _ => r == FetchAction::Fail(SourceError::UnexpectedEvent),
        },
        CrateType::Registry(k) => match event {
            FetchEvent::Start => r is CheckCache && path_is(r->CheckCache_0, registry_crate_path(k)),
            FetchEvent::CacheChecked(true) => r is Done,
            FetchEvent::CacheChecked(false) => r is CheckIndex && path_is(
                r->CheckIndex_0,
                registry_index_path(k).push("HEAD"@),
            ),
            FetchEvent::IndexChecked(present) => r is RunGit && mirror_command(
                r->RunGit_0,
                index_update_args(present, k.index@),
                present,
                registry_index_path(k),
            ),
            FetchEvent::GitFinished => r is ReadConfig && git_is(
                r->ReadConfig_0,
                seq!["show"@, "HEAD:config.json"@],
                Some(registry_index_path(k)),
                None,
            ),
            FetchEvent::ConfigRead(cfg) => match parsed_url(download_text(cfg.dl@, k.name@, k.version@)) {
                Some(u) => r is Download && r->url@ == u && path_is(r->file, registry_crate_path(k)),
                None => r == FetchAction::Fail(SourceError::MalformedUrl),
            },
        },
        CrateType::Git(g) => match event {
            FetchEvent::Start => r is CheckCache && path_is(
                r->CheckCache_0,
                g.cache_path_view().push("HEAD"@),
            ),
            FetchEvent::CacheChecked(present) => r is RunGit && mirror_command(
                r->RunGit_0,
                mirror_update_args(present, g.url@),
                present,
                g.cache_path_view(),
            ),
            FetchEvent::GitFinished => r is Done,
            _ => r == FetchAction::Fail(SourceError::UnexpectedEvent),
        },
        CrateType::Local(_) => match event {
            FetchEvent::Start => r is Done,
            _ => r == FetchAction::Fail(SourceError::UnexpectedEvent),
        },
    }
}

/// The text that names a crate and its origin.
pub open spec fn description(c: CrateType) -> Seq<char> {
    match c {
        CrateType::CratesIO(k) => "crates.io crate "@ + k.name@ + " "@ + k.version@,
        CrateType::Registry(k) => "registry crate "@ + k.name@ + " "@ + k.version@ + " ("@
            + k.index@ + ")"@,
        CrateType::Git(g) => "git repo "@ + g.url@,
        CrateType::Local(l) => "local crate "@ + l.path@,
    }
}

impl Crate {
    /// A crate of the default public registry.
    pub fn crates_io(name: &str, version: &str) -> (r: Self)
        ensures
            r.0 is CratesIO,
            r.0->CratesIO_0.name@ == name@,
            r.0->CratesIO_0.version@ == version@,
    {
        Crate(CrateType::CratesIO(CratesIOCrate::new(name, version)))
    }

    /// A crate of the registry whose index repository is at `index`.
    pub fn registry(name: &str, version: &str, index: &str) -> (r: Self)
        ensures
            r.0 is Registry,
            r.0->Registry_0.name@ == name@,
            r.0->Registry_0.version@ == version@,
            r.0->Registry_0.index@ == index@,
    {
        Crate(CrateType::Registry(RegistryCrate::new(name, version, index)))
    }

    /// A crate held in the git repository cloned from `url`.
    pub fn git(url: &str) -> (r: Self)
        ensures
            r.0 is Git,
            r.0->Git_0.url@ == url@,
    {
        Crate(CrateType::Git(GitRepo::new(url)))
    }

    /// A crate in the local directory at `path`.
    pub fn local(path: &str) -> (r: Self)
        ensures
            r.0 is Local,
            r.0->Local_0.path@ == path@,
    {
        Crate(CrateType::Local(Local::new(path)))
    }

    /// The next step of fetching this crate's source into the cache, given
    /// the outcome of the previous one.
    ///
    /// An archive already in the cache ends the fetch at once, with no
    /// network or git work.
    pub fn fetch(&self, event: FetchEvent) -> (r: FetchAction)
        ensures
            fetch_step(self.0, event, r),
            match event {
                FetchEvent::CacheChecked(true) => (self.0 is CratesIO || self.0 is Registry) ==> r is Done,
                _ => true,
            },
    {
        match &self.0 {
            CrateType::CratesIO(k) => match event {
                FetchEvent::Start => FetchAction::CheckCache(k.cache_path()),
                FetchEvent::CacheChecked(present) => {
                    if present {
                        FetchAction::Done
                    } else {
                        FetchAction::Download { url: k.download_url(), file: k.cache_path() }
                    }
                },
                _ => FetchAction::Fail(SourceError::UnexpectedEvent),
            },
            CrateType::Registry(k) => match event {
                FetchEvent::Start => FetchAction::CheckCache(k.crate_cache_path()),
                FetchEvent::CacheChecked(present) => {
                    if present {
                        FetchAction::Done
                    } else {
                        let mut marker = k.index_cache_path();
                        push_text(&mut marker, "HEAD");
                        FetchAction::CheckIndex(marker)
                    }
                },
                FetchEvent::IndexChecked(present) => FetchAction::RunGit(k.update_index(present)),
                FetchEvent::GitFinished => FetchAction::ReadConfig(k.index_config()),
                FetchEvent::ConfigRead(cfg) => match k.dl_url(&cfg) {
                    Ok(url) => FetchAction::Download { url, file: k.crate_cache_path() },
                    Err(e) => FetchAction::Fail(e),
                },
            },
            CrateType::Git(g) => match event {
                FetchEvent::Start => FetchAction::CheckCache(g.head_marker()),
                FetchEvent::CacheChecked(present) => FetchAction::RunGit(g.update(present)),
                FetchEvent::GitFinished => FetchAction::Done,
                _ => FetchAction::Fail(SourceError::UnexpectedEvent),
            },
            CrateType::Local(_) => match event {
                FetchEvent::Start => FetchAction::Done,
                _ => FetchAction::Fail(SourceError::UnexpectedEvent),
            },
        }
    }

    /// The cache entry that holds this crate's source, to be deleted if it
    /// exists; none for a local crate.
    pub fn purge_from_cache(&self) -> (r: Option<CacheEntry>)
        ensures
            match self.0 {
                CrateType::CratesIO(k) => r is Some && !r->0.is_dir && path_is(
                    r->0.path,
                    k.cache_path_view(),
                ),
                CrateType::Registry(k) => r is Some && !r->0.is_dir && path_is(
                    r->0.path,
                    registry_crate_path(k),
                ),
                CrateType::Git(g) => r is Some && r->0.is_dir && path_is(
                    r->0.path,
                    g.cache_path_view(),
                ),
                CrateType::Local(_) => r is None,
            },
    {
        match &self.0 {
            CrateType::CratesIO(k) => Some(CacheEntry { path: k.cache_path(), is_dir: false }),
            CrateType::Registry(k) => Some(
                CacheEntry { path: k.crate_cache_path(), is_dir: false },
            ),
            CrateType::Git(g) => Some(CacheEntry { path: g.cache_path(), is_dir: true }),
            CrateType::Local(_) => None,
        }
    }

    /// The git command whose output names this crate's commit; none where
    /// the crate does not come from git.
    pub fn git_commit(&self) -> (r: Option<GitCommand>)
        ensures
            r is Some <==> self.0 is Git,
            self.0 is Git ==> git_is(
                r->0,
                seq!["rev-parse"@, "HEAD"@],
                Some(self.0->Git_0.cache_path_view()),
                None,
            ),
    {
        match &self.0 {
            CrateType::Git(g) => Some(g.commit_query()),
            _ => None,
        }
    }

    /// How to put this crate's source into a destination, which is cleared
    /// first wherever it exists (`dest_exists`).
    pub fn copy_source_to(&self, dest_exists: bool) -> (r: CopyPlan)
        ensures
            r.clear_destination == dest_exists,
            match self.0 {
                CrateType::CratesIO(k) => r.method is Unpack && path_is(
                    r.method->archive,
                    k.cache_path_view(),
                ) && r.method->context@ == "failed to unpack "@ + k.name@ + " "@ + k.version@,
                CrateType::Registry(k) => r.method is Unpack && path_is(
                    r.method->archive,
                    registry_crate_path(k),
                ) && r.method->context@ == "failed to unpack "@ + k.name@ + " "@ + k.version@
                    + " ("@ + k.index@ + ")"@,
                CrateType::Git(g) => r.method is CloneMirror && path_is(
                    r.method->CloneMirror_0,
                    g.cache_path_view(),
                ),
                CrateType::Local(l) => r.method is CopyDir && r.method->CopyDir_0@ == l.path@,
            },
    {
        let method = match &self.0 {
            CrateType::CratesIO(k) => {
                let mut context = String::from_str("failed to unpack ");
                context.append(k.name.as_str());
                context.append(" ");
                context.append(k.version.as_str());
                CopyMethod::Unpack { archive: k.cache_path(), context }
            },
            CrateType::Registry(k) => {
                let mut context = String::from_str("failed to unpack ");
                context.append(k.name.as_str());
                context.append(" ");
                context.append(k.version.as_str());
                context.append(" (");
                context.append(k.index.as_str());
                context.append(")");
                CopyMethod::Unpack { archive: k.crate_cache_path(), context }
            },
            CrateType::Git(g) => CopyMethod::CloneMirror(g.cache_path()),
            CrateType::Local(l) => CopyMethod::CopyDir(l.path.clone()),
        };
        CopyPlan { clear_destination: dest_exists, method }
    }

    /// The text that names this crate and its origin.
    pub fn describe(&self) -> (r: String)
        ensures
            r@ == description(self.0),
    {
        match &self.0 {
            CrateType::CratesIO(k) => {
                let mut s = String::from_str("crates.io crate ");
                s.append(k.name.as_str());
                s.append(" ");
                s.append(k.version.as_str());
                s
            },
            CrateType::Registry(k) => {
                let mut s = String::from_str("registry crate ");
                s.append(k.name.as_str());
                s.append(" ");
                s.append(k.version.as_str());
                s.append(" (");
                s.append(k.index.as_str());
                s.append(")");
                s
            },
            CrateType::Git(g) => {
                let mut s = String::from_str("git repo ");
                s.append(g.url.as_str());
                s
            },
            CrateType::Local(l) => {
                let mut s = String::from_str("local crate ");
                s.append(l.path.as_str());
                s
            },
        }
    }
}

} // verus!
