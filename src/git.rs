//! Crates held in a git repository.

use vstd::prelude::*;
use vstd::string::*;
use crate::plan::GitCommand;
use crate::registry::{slug_of, slugify};
use crate::text::{push_text, texts};

verus! {

/// The git arguments that bring a bare mirror up to date: a forced, pruning
/// fetch where the mirror is present, else a bare clone of `url`.
pub open spec fn mirror_update_args(present: bool, url: Seq<char>) -> Seq<Seq<char>> {
    if present {
        seq![
            "-c"@,
            "remote.origin.fetch=refs/heads/*:refs/heads/*"@,
            "fetch"@,
            "origin"@,
            "--force"@,
            "--prune"@,
        ]
    } else {
        seq!["clone"@, "--bare"@, url]
    }
}

/// A crate whose source is the head of a git repository.
#[derive(Debug)]
pub struct GitRepo {
    pub url: String,
}

impl GitRepo {
    pub fn new(url: &str) -> (r: Self)
        ensures
            r.url@ == url@,
    {
        GitRepo { url: String::from_str(url) }
    }

    /// The mirror's place under the cache root.
    pub open spec fn cache_path_view(&self) -> Seq<Seq<char>> {
        seq!["git-repos"@, slug_of(self.url@)]
    }

    /// Where the bare mirror of the repository is kept, under the cache root.
    pub fn cache_path(&self) -> (r: Vec<String>)
        ensures
            texts(r@) == self.cache_path_view(),
    {
        let mut p: Vec<String> = Vec::new();
        push_text(&mut p, "git-repos");
        let slug = slugify(self.url.as_str());
        push_text(&mut p, slug.as_str());
        assert(texts(p@) =~= self.cache_path_view());
        p
    }

    /// The file whose presence shows that the mirror exists.
    pub fn head_marker(&self) -> (r: Vec<String>)
        ensures
            texts(r@) == self.cache_path_view().push("HEAD"@),
    {
        let mut p = self.cache_path();
        push_text(&mut p, "HEAD");
        p
    }

    /// The git command that refreshes the mirror where one is present
    /// (`present`), and clones it otherwise.
    pub fn update(&self, present: bool) -> (r: GitCommand)
        ensures
            texts(r.args@) == mirror_update_args(present, self.url@),
            present ==> r.target is None && r.cwd is Some && texts(r.cwd->0@)
                == self.cache_path_view(),
            !present ==> r.cwd is None && r.target is Some && texts(r.target->0@)
                == self.cache_path_view(),
    {
        let path = self.cache_path();
        let mut args: Vec<String> = Vec::new();
        if present {
            push_text(&mut args, "-c");
            push_text(&mut args, "remote.origin.fetch=refs/heads/*:refs/heads/*");
            push_text(&mut args, "fetch");
            push_text(&mut args, "origin");
            push_text(&mut args, "--force");
            push_text(&mut args, "--prune");
            assert(texts(args@) =~= mirror_update_args(present, self.url@));
            GitCommand { args, cwd: Some(path), target: None }
        } else {
            push_text(&mut args, "clone");
            push_text(&mut args, "--bare");
            push_text(&mut args, self.url.as_str());
            assert(texts(args@) =~= mirror_update_args(present, self.url@));
            GitCommand { args, cwd: None, target: Some(path) }
        }
    }

    /// The git command that prints the mirror's head commit.
    pub fn commit_query(&self) -> (r: GitCommand)
        ensures
            texts(r.args@) == seq!["rev-parse"@, "HEAD"@],
            r.target is None,
            r.cwd is Some,
            texts(r.cwd->0@) == self.cache_path_view(),
    {
        let mut args: Vec<String> = Vec::new();
        push_text(&mut args, "rev-parse");
        push_text(&mut args, "HEAD");
        assert(texts(args@) =~= seq!["rev-parse"@, "HEAD"@]);
        GitCommand { args, cwd: Some(self.cache_path()), target: None }
    }
}

/// The commit named by the output of a head query: its first line, where
/// there is one and it is not empty.
pub fn commit_from_output(lines: &Vec<String>) -> (r: Option<String>)
    ensures
        r is Some <==> lines@.len() > 0 && lines@[0]@.len() > 0,
        r is Some ==> r->0@ == lines@[0]@,
{
    if lines.len() > 0 {
        let first = &lines[0];
        if first.as_str().unicode_len() > 0 {
            return Some(first.clone());
        }
    }
    None
}

} // verus!
