//! Crates of an alternate registry, located through its index repository.

use vstd::prelude::*;
use vstd::string::*;
use crate::plan::{GitCommand, IndexConfig, SourceError};
use crate::text::{
    alphanumeric, chars_of, contains, contains_exec, is_alphanumeric, lower_of, lowercase, push_chars,
    push_text, replace_all, replaced, string_of, texts,
};

verus! {

/// Relies on `url::ParseError` only as an opaque error value.
#[verifier::external_type_specification]
#[verifier::external_body]
pub struct ExParseError(url::ParseError);

/// What `url::Url::parse` makes of a text: its serialization, or nothing
/// where the text is no URL.
pub uninterp spec fn parsed_url(s: Seq<char>) -> Option<Seq<char>>;

/// Relies on `url::Url::parse` and its serialization: both depend on the
/// text alone.
#[verifier::external_body]
fn parse_url(s: &str) -> (r: Result<String, url::ParseError>)
    ensures
        r is Ok <==> parsed_url(s@) is Some,
        r is Ok ==> parsed_url(s@) == Some(r->Ok_0@),
{
    url::Url::parse(s).map(String::from)
}

/// The directory name that stands for an index URL: every character that is
/// not alphanumeric becomes `-`.
pub open spec fn slug_of(s: Seq<char>) -> Seq<char> {
    Seq::new(s.len(), |i: int| if alphanumeric(s[i]) { s[i] } else { '-' })
}

/// Two index URLs share a cache directory exactly when they have the same
/// length, their alphanumeric characters stand at the same places and agree,
/// and every other character of one faces some other character of the other.
/// URLs that differ in an alphanumeric character of the scheme or the host
/// therefore never collide.
pub proof fn slug_collision_exactly_when_alnum_forms_agree(a: Seq<char>, b: Seq<char>)
    ensures
        slug_of(a) == slug_of(b) <==> (a.len() == b.len() && forall|i: int|
            0 <= i < a.len() ==> (alphanumeric(#[trigger] a[i]) <==> alphanumeric(b[i])) && (
            alphanumeric(a[i]) ==> a[i] == b[i])),
{
    assert(!alphanumeric('-'));
    assert(slug_of(a).len() == a.len() && slug_of(b).len() == b.len());
    if slug_of(a) == slug_of(b) {
        assert(a.len() == b.len());
        assert forall|i: int| 0 <= i < a.len() implies (alphanumeric(#[trigger] a[i]) <==> alphanumeric(b[i])) && (
            alphanumeric(a[i]) ==> a[i] == b[i]) by {
            assert(slug_of(a)[i] == slug_of(b)[i]);
            assert(slug_of(a)[i] == if alphanumeric(a[i]) { a[i] } else { '-' });
            assert(slug_of(b)[i] == if alphanumeric(b[i]) { b[i] } else { '-' });
        }
    }
    if a.len() == b.len() && forall|i: int|
        0 <= i < a.len() ==> (alphanumeric(#[trigger] a[i]) <==> alphanumeric(b[i])) && (
        alphanumeric(a[i]) ==> a[i] == b[i]) {
        assert(slug_of(a) =~= slug_of(b));
    }
}

/// The path-safe name of an index URL.
pub fn slugify(s: &str) -> (r: String)
    ensures
        r@ == slug_of(s@),
{
    let cs = chars_of(s);
    let mut out: Vec<char> = Vec::new();
    let mut i: usize = 0;
    while i < cs.len()
        invariant
            cs@ == s@,
            i <= cs@.len(),
            out@ == slug_of(s@).subrange(0, i as int),
        decreases cs@.len() - i,
    {
        let c = cs[i];
        if is_alphanumeric(c) {
            out.push(c);
        } else {
            out.push('-');
        }
        i += 1;
        assert(out@ =~= slug_of(s@).subrange(0, i as int));
    }
    assert(out@ =~= slug_of(s@));
    string_of(out)
}

/// The index shard of a crate name, counted in characters.
pub open spec fn prefix_of(name: Seq<char>) -> Seq<char> {
    if name.len() == 0 {
        Seq::empty()
    } else if name.len() == 1 {
        seq!['1']
    } else if name.len() == 2 {
        seq!['2']
    } else if name.len() == 3 {
        seq!['3', '/', name[0]]
    } else {
        seq![name[0], name[1], '/', name[2], name[3]]
    }
}

/// The text `{crate}`.
pub open spec fn crate_key() -> Seq<char> {
    seq!['{', 'c', 'r', 'a', 't', 'e', '}']
}

/// The text `{version}`.
pub open spec fn version_key() -> Seq<char> {
    seq!['{', 'v', 'e', 'r', 's', 'i', 'o', 'n', '}']
}

/// The text `{prefix}`.
pub open spec fn prefix_key() -> Seq<char> {
    seq!['{', 'p', 'r', 'e', 'f', 'i', 'x', '}']
}

/// The text `{lowerprefix}`.
pub open spec fn lowerprefix_key() -> Seq<char> {
    seq!['{', 'l', 'o', 'w', 'e', 'r', 'p', 'r', 'e', 'f', 'i', 'x', '}']
}

/// The text `/download`.
pub open spec fn download_suffix() -> Seq<char> {
    seq!['/', 'd', 'o', 'w', 'n', 'l', 'o', 'a', 'd']
}

/// Whether a download template holds any of the four placeholders.
pub open spec fn has_placeholder(t: Seq<char>) -> bool {
    contains(t, crate_key()) || contains(t, version_key()) || contains(t, prefix_key())
        || contains(t, lowerprefix_key())
}

/// The download URL text for a template: the placeholders substituted in
/// turn where the template holds one, else `<template>/<name>/<version>/download`.
pub open spec fn filled(
    t: Seq<char>,
    name: Seq<char>,
    version: Seq<char>,
    prefix: Seq<char>,
    lower_prefix: Seq<char>,
) -> Seq<char> {
    if has_placeholder(t) {
        replaced(
            replaced(
                replaced(replaced(t, crate_key(), name), version_key(), version),
                prefix_key(),
                prefix,
            ),
            lowerprefix_key(),
            lower_prefix,
        )
    } else {
        t + seq!['/'] + name + seq!['/'] + version + download_suffix()
    }
}

/// The download URL text of a crate under a template.
pub open spec fn download_text(t: Seq<char>, name: Seq<char>, version: Seq<char>) -> Seq<char> {
    filled(t, name, version, prefix_of(name), lower_of(prefix_of(name)))
}

/// The file name of a crate archive: `<name>-<version>.crate`.
pub open spec fn crate_file_name(name: Seq<char>, version: Seq<char>) -> Seq<char> {
    name + "-"@ + version + ".crate"@
}

/// `<name>-<version>.crate`.
pub fn crate_file(name: &String, version: &String) -> (r: String)
    ensures
        r@ == crate_file_name(name@, version@),
{
    let mut f = name.clone();
    f.append("-");
    f.append(version.as_str());
    f.append(".crate");
    f
}

/// The download template filled with the given substitutions.
pub fn fill_template(
    template: &str,
    name: &str,
    version: &str,
    prefix: &str,
    lower_prefix: &str,
) -> (r: String)
    ensures
        r@ == filled(template@, name@, version@, prefix@, lower_prefix@),
{
    let t = chars_of(template);
    let kc = chars_of("{crate}");
    let kv = chars_of("{version}");
    let kp = chars_of("{prefix}");
    let kl = chars_of("{lowerprefix}");
    proof {
        reveal_strlit("{crate}");
        reveal_strlit("{version}");
        reveal_strlit("{prefix}");
        reveal_strlit("{lowerprefix}");
        assert(kc@ =~= crate_key());
        assert(kv@ =~= version_key());
        assert(kp@ =~= prefix_key());
        assert(kl@ =~= lowerprefix_key());
    }
    let n = chars_of(name);
    let v = chars_of(version);
    if contains_exec(&t, &kc) || contains_exec(&t, &kv) || contains_exec(&t, &kp)
        || contains_exec(&t, &kl) {
        let s1 = replace_all(&t, &kc, &n);
        let s2 = replace_all(&s1, &kv, &v);
        let s3 = replace_all(&s2, &kp, &chars_of(prefix));
        let s4 = replace_all(&s3, &kl, &chars_of(lower_prefix));
        string_of(s4)
    } else {
        let mut out = t;
        out.push('/');
        push_chars(&mut out, &n);
        out.push('/');
        push_chars(&mut out, &v);
        let d = chars_of("/download");
        proof {
            reveal_strlit("/download");
            assert(d@ =~= download_suffix());
        }
        push_chars(&mut out, &d);
        assert(out@ =~= template@ + seq!['/'] + name@ + seq!['/'] + version@ + download_suffix());
        string_of(out)
    }
}

/// The download URL text of a crate under a template, before URL parsing.
pub fn download_url_text(template: &str, name: &str, version: &str) -> (r: String)
    ensures
        r@ == download_text(template@, name@, version@),
{
    let p = prefix_chars(name);
    let lp = lowercase(p.as_str());
    fill_template(template, name, version, p.as_str(), lp.as_str())
}

/// The index shard of a crate name.
pub fn prefix_chars(name: &str) -> (r: String)
    ensures
        r@ == prefix_of(name@),
{
    let cs = chars_of(name);
    let n = cs.len();
    let mut out: Vec<char> = Vec::new();
    if n == 1 {
        out.push('1');
    } else if n == 2 {
        out.push('2');
    } else if n == 3 {
        out.push('3');
        out.push('/');
        out.push(cs[0]);
    } else if n >= 4 {
        out.push(cs[0]);
        out.push(cs[1]);
        out.push('/');
        out.push(cs[2]);
        out.push(cs[3]);
    }
    assert(out@ =~= prefix_of(name@));
    string_of(out)
}

/// A crate of a registry named by the URL of its index repository.
#[derive(Debug)]
pub struct RegistryCrate {
    pub name: String,
    pub version: String,
    pub index: String,
}

/// The git arguments that bring an index mirror up to date.
pub open spec fn index_update_args(present: bool, index: Seq<char>) -> Seq<Seq<char>> {
    if present {
        seq![
            "-c"@,
            "remote.origin.fetch=refs/heads/*:refs/heads/*"@,
            "fetch"@,
            "origin"@,
            "--force"@,
            "--prune"@,
        ]
    } else {
        seq!["clone"@, "--bare"@, "--no-tags"@, "--single-branch"@, index]
    }
}

impl RegistryCrate {
    pub fn new(name: &str, version: &str, index: &str) -> (r: Self)
        ensures
            r.name@ == name@,
            r.version@ == version@,
            r.index@ == index@,
    {
        RegistryCrate {
            name: String::from_str(name),
            version: String::from_str(version),
            index: String::from_str(index),
        }
    }

    /// Where the crate archive is cached, under the cache root.
    pub fn crate_cache_path(&self) -> (r: Vec<String>)
        ensures
            texts(r@) == seq![
                "registry-sources"@,
                slug_of(self.index@),
                self.name@,
                crate_file_name(self.name@, self.version@),
            ],
    {
        let mut p: Vec<String> = Vec::new();
        push_text(&mut p, "registry-sources");
        let slug = slugify(self.index.as_str());
        push_text(&mut p, slug.as_str());
        push_text(&mut p, self.name.as_str());
        let f = crate_file(&self.name, &self.version);
        push_text(&mut p, f.as_str());
        assert(texts(p@) =~= seq![
            "registry-sources"@,
            slug_of(self.index@),
            self.name@,
            crate_file_name(self.name@, self.version@),
        ]);
        p
    }

    /// Where the index mirror is kept, under the cache root.
    pub fn index_cache_path(&self) -> (r: Vec<String>)
        ensures
            texts(r@) == seq!["registry-index"@, slug_of(self.index@)],
    {
        let mut p: Vec<String> = Vec::new();
        push_text(&mut p, "registry-index");
        let slug = slugify(self.index.as_str());
        push_text(&mut p, slug.as_str());
        assert(texts(p@) =~= seq!["registry-index"@, slug_of(self.index@)]);
        p
    }

    /// The git command that refreshes the index mirror where one is present
    /// (`present`), and clones it otherwise.
    pub fn update_index(&self, present: bool) -> (r: GitCommand)
        ensures
            texts(r.args@) == index_update_args(present, self.index@),
            present ==> r.target is None && r.cwd is Some && texts(r.cwd->0@) == seq![
                "registry-index"@,
                slug_of(self.index@),
            ],
            !present ==> r.cwd is None && r.target is Some && texts(r.target->0@) == seq![
                "registry-index"@,
                slug_of(self.index@),
            ],
    {
        let path = self.index_cache_path();
        let mut args: Vec<String> = Vec::new();
        if present {
            push_text(&mut args, "-c");
            push_text(&mut args, "remote.origin.fetch=refs/heads/*:refs/heads/*");
            push_text(&mut args, "fetch");
            push_text(&mut args, "origin");
            push_text(&mut args, "--force");
            push_text(&mut args, "--prune");
            assert(texts(args@) =~= index_update_args(present, self.index@));
            GitCommand { args, cwd: Some(path), target: None }
        } else {
            push_text(&mut args, "clone");
            push_text(&mut args, "--bare");
            push_text(&mut args, "--no-tags");
            push_text(&mut args, "--single-branch");
            push_text(&mut args, self.index.as_str());
            assert(texts(args@) =~= index_update_args(present, self.index@));
            GitCommand { args, cwd: None, target: Some(path) }
        }
    }

    /// The git command that prints the index configuration at the mirror's head.
    pub fn index_config(&self) -> (r: GitCommand)
        ensures
            texts(r.args@) == seq!["show"@, "HEAD:config.json"@],
            r.target is None,
            r.cwd is Some,
            texts(r.cwd->0@) == seq!["registry-index"@, slug_of(self.index@)],
    {
        let mut args: Vec<String> = Vec::new();
        push_text(&mut args, "show");
        push_text(&mut args, "HEAD:config.json");
        assert(texts(args@) =~= seq!["show"@, "HEAD:config.json"@]);
        GitCommand { args, cwd: Some(self.index_cache_path()), target: None }
    }

    /// The index shard of this crate's name.
    pub fn prefix(&self) -> (r: String)
        ensures
            r@ == prefix_of(self.name@),
    {
        prefix_chars(self.name.as_str())
    }

    /// The URL this crate downloads from, under the index configuration.
    pub fn dl_url(&self, config: &IndexConfig) -> (r: Result<String, SourceError>)
        ensures
            match r {
                Ok(u) => parsed_url(download_text(config.dl@, self.name@, self.version@))
                    == Some(u@),
                Err(e) => e == SourceError::MalformedUrl && parsed_url(
                    download_text(config.dl@, self.name@, self.version@),
                ) is None,
            },
    {
        let text = download_url_text(config.dl.as_str(), self.name.as_str(), self.version.as_str());
        match parse_url(text.as_str()) {
            Ok(u) => Ok(u),
            Err(_) => Err(SourceError::MalformedUrl),
        }
    }
}

} // verus!
