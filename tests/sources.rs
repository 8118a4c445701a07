use crate_sources::archive::entry_target;
use crate_sources::crates::{CopyMethod, Crate, FetchAction, FetchEvent};
use crate_sources::git::commit_from_output;
use crate_sources::plan::{GitCommand, IndexConfig, SourceError};
use crate_sources::registry::{download_url_text, prefix_chars, slugify, RegistryCrate};

const STAGING_INDEX: &str = "https://github.com/rust-lang/staging.crates.io-index";

fn strs(v: &[String]) -> Vec<&str> {
    v.iter().map(|s| s.as_str()).collect()
}

fn path_of(a: FetchAction) -> Vec<String> {
    match a {
        FetchAction::CheckCache(p) | FetchAction::CheckIndex(p) => p,
        other => panic!("unexpected action {:?}", other),
    }
}

fn git_of(a: FetchAction) -> GitCommand {
    match a {
        FetchAction::RunGit(c) | FetchAction::ReadConfig(c) => c,
        other => panic!("unexpected action {:?}", other),
    }
}

fn registry_fetch_url(name: &str, version: &str, dl: &str) -> String {
    let krate = Crate::registry(name, version, STAGING_INDEX);
    let cache = path_of(krate.fetch(FetchEvent::Start));
    assert_eq!(
        strs(&cache),
        vec![
            "registry-sources",
            "https---github-com-rust-lang-staging-crates-io-index",
            name,
            &format!("{}-{}.crate", name, version),
        ]
    );
    let marker = path_of(krate.fetch(FetchEvent::CacheChecked(false)));
    assert_eq!(
        strs(&marker),
        vec!["registry-index", "https---github-com-rust-lang-staging-crates-io-index", "HEAD"]
    );
    let clone = git_of(krate.fetch(FetchEvent::IndexChecked(false)));
    assert_eq!(strs(&clone.args), vec!["clone", "--bare", "--no-tags", "--single-branch", STAGING_INDEX]);
    assert!(clone.cwd.is_none());
    let show = git_of(krate.fetch(FetchEvent::GitFinished));
    assert_eq!(strs(&show.args), vec!["show", "HEAD:config.json"]);
    match krate.fetch(FetchEvent::ConfigRead(IndexConfig::new(dl))) {
        FetchAction::Download { url, file } => {
            assert_eq!(file, cache);
            url
        }
        other => panic!("unexpected action {:?}", other),
    }
}

#[test]
fn test_fetch() {
    let url = registry_fetch_url("nemo157-cli", "0.1.0", "https://crates.io/api/v1/crates");
    assert_eq!(url, "https://crates.io/api/v1/crates/nemo157-cli/0.1.0/download");
    let url = registry_fetch_url("rand", "0.3.14", "https://crates.io/api/v1/crates");
    assert_eq!(url, "https://crates.io/api/v1/crates/rand/0.3.14/download");
}

#[test]
fn prefix_by_length() {
    assert_eq!(prefix_chars("a"), "1");
    assert_eq!(prefix_chars("ab"), "2");
    assert_eq!(prefix_chars("abc"), "3/a");
    assert_eq!(prefix_chars("abcd"), "ab/cd");
    assert_eq!(prefix_chars("serde"), "se/rd");
    assert_eq!(prefix_chars(""), "");
}

#[test]
fn prefix_counts_characters_not_bytes() {
    assert_eq!(prefix_chars("é"), "1");
    assert_eq!(prefix_chars("ñé"), "2");
    assert_eq!(prefix_chars("ñandú"), "ña/nd");
    assert_eq!(RegistryCrate::new("añb", "1.0.0", STAGING_INDEX).prefix(), "3/a");
}

#[test]
fn template_with_placeholders() {
    assert_eq!(
        download_url_text("https://example.com/{crate}/{crate}-{version}.crate", "foo", "1.0.0"),
        "https://example.com/foo/foo-1.0.0.crate"
    );
    assert_eq!(
        download_url_text("https://example.com/{prefix}/{lowerprefix}/{crate}", "SeRde", "1.0.0"),
        "https://example.com/Se/Rd/se/rd/SeRde"
    );
}

#[test]
fn template_without_placeholders() {
    assert_eq!(
        download_url_text("https://example.com/api/v1", "foo", "1.0.0"),
        "https://example.com/api/v1/foo/1.0.0/download"
    );
}

#[test]
fn dl_url_parses_the_filled_template() {
    let k = RegistryCrate::new("foo", "1.0.0", STAGING_INDEX);
    assert_eq!(
        k.dl_url(&IndexConfig::new("https://example.com/{crate}/{crate}-{version}.crate")),
        Ok("https://example.com/foo/foo-1.0.0.crate".to_string())
    );
    assert_eq!(
        k.dl_url(&IndexConfig::new("https://example.com/api/v1")),
        Ok("https://example.com/api/v1/foo/1.0.0/download".to_string())
    );
    assert_eq!(
        k.dl_url(&IndexConfig::new("HTTPS://Example.COM/{crate}")),
        Ok("https://example.com/foo".to_string())
    );
}

#[test]
fn dl_url_rejects_a_relative_template() {
    let k = RegistryCrate::new("foo", "1.0.0", STAGING_INDEX);
    assert_eq!(k.dl_url(&IndexConfig::new("{crate}")), Err(SourceError::MalformedUrl));
    let krate = Crate::registry("foo", "1.0.0", STAGING_INDEX);
    match krate.fetch(FetchEvent::ConfigRead(IndexConfig::new("no url at all"))) {
        FetchAction::Fail(e) => assert_eq!(e, SourceError::MalformedUrl),
        other => panic!("unexpected action {:?}", other),
    }
}

#[test]
fn slugs_replace_every_non_alphanumeric_character() {
    assert_eq!(slugify("https://github.com/rust-lang/crates.io-index"), "https---github-com-rust-lang-crates-io-index");
    assert_eq!(slugify("https://exämple.com"), "https---exämple-com");
    assert_eq!(slugify(""), "");
}

#[test]
fn slugs_of_different_scheme_or_host_differ() {
    assert_ne!(slugify("http://example.com/index"), slugify("https://example.com/index"));
    assert_ne!(slugify("https://example.com/index"), slugify("https://example.org/index"));
    assert_eq!(slugify("https://a.b/c"), slugify("https://a-b/c"));
}

#[test]
fn registry_cache_paths() {
    let k = RegistryCrate::new("foo", "1.0.0", "https://x.y/z");
    assert_eq!(strs(&k.crate_cache_path()), vec!["registry-sources", "https---x-y-z", "foo", "foo-1.0.0.crate"]);
    assert_eq!(strs(&k.index_cache_path()), vec!["registry-index", "https---x-y-z"]);
}

#[test]
fn index_update_fetches_when_mirror_present() {
    let k = RegistryCrate::new("foo", "1.0.0", "https://x.y/z");
    let c = k.update_index(true);
    assert_eq!(
        strs(&c.args),
        vec!["-c", "remote.origin.fetch=refs/heads/*:refs/heads/*", "fetch", "origin", "--force", "--prune"]
    );
    assert_eq!(strs(&c.cwd.unwrap()), vec!["registry-index", "https---x-y-z"]);
    assert!(c.target.is_none());
    let c = k.update_index(false);
    assert_eq!(strs(&c.target.unwrap()), vec!["registry-index", "https---x-y-z"]);
}

#[test]
fn crates_io_fetch_and_copy_rand() {
    let krate = Crate::crates_io("rand", "0.3.14");
    let cache = path_of(krate.fetch(FetchEvent::Start));
    assert_eq!(strs(&cache), vec!["cratesio-sources", "rand", "rand-0.3.14.crate"]);
    match krate.fetch(FetchEvent::CacheChecked(false)) {
        FetchAction::Download { url, file } => {
            assert_eq!(url, "https://static.crates.io/crates/rand/rand-0.3.14.crate");
            assert_eq!(file, cache);
        }
        other => panic!("unexpected action {:?}", other),
    }
    let plan = krate.copy_source_to(false);
    assert!(!plan.clear_destination);
    match plan.method {
        CopyMethod::Unpack { archive, context } => {
            assert_eq!(archive, cache);
            assert_eq!(context, "failed to unpack rand 0.3.14");
        }
        other => panic!("unexpected method {:?}", other),
    }
    let top = "rand-0.3.14".to_string();
    let manifest = entry_target(&vec![top.clone(), "Cargo.toml".to_string()]);
    let lib = entry_target(&vec![top.clone(), "src".to_string(), "lib.rs".to_string()]);
    assert_eq!(strs(&manifest), vec!["Cargo.toml"]);
    assert_eq!(strs(&lib), vec!["src", "lib.rs"]);
    assert!(entry_target(&vec![top]).is_empty());
    assert!(entry_target(&vec![]).is_empty());
}

#[test]
fn second_fetch_of_cached_archive_does_nothing() {
    for krate in [Crate::crates_io("rand", "0.3.14"), Crate::registry("rand", "0.3.14", STAGING_INDEX)] {
        assert!(matches!(krate.fetch(FetchEvent::Start), FetchAction::CheckCache(_)));
        assert!(matches!(krate.fetch(FetchEvent::CacheChecked(true)), FetchAction::Done));
    }
}

#[test]
fn existing_destination_is_cleared() {
    let krate = Crate::registry("foo", "1.0.0", "https://x.y/z");
    let plan = krate.copy_source_to(true);
    assert!(plan.clear_destination);
    match plan.method {
        CopyMethod::Unpack { context, .. } => assert_eq!(context, "failed to unpack foo 1.0.0 (https://x.y/z)"),
        other => panic!("unexpected method {:?}", other),
    }
    assert!(Crate::local("/src/foo").copy_source_to(true).clear_destination);
}

#[test]
fn unexpected_events_fail() {
    let krate = Crate::crates_io("rand", "0.3.14");
    assert!(matches!(krate.fetch(FetchEvent::GitFinished), FetchAction::Fail(SourceError::UnexpectedEvent)));
    let local = Crate::local("/src/foo");
    assert!(matches!(local.fetch(FetchEvent::Start), FetchAction::Done));
    assert!(matches!(local.fetch(FetchEvent::CacheChecked(true)), FetchAction::Fail(SourceError::UnexpectedEvent)));
}

#[test]
fn git_crate_fetch_purge_and_commit() {
    let krate = Crate::git("https://github.com/a/b");
    let marker = path_of(krate.fetch(FetchEvent::Start));
    assert_eq!(strs(&marker), vec!["git-repos", "https---github-com-a-b", "HEAD"]);
    let clone = git_of(krate.fetch(FetchEvent::CacheChecked(false)));
    assert_eq!(strs(&clone.args), vec!["clone", "--bare", "https://github.com/a/b"]);
    assert_eq!(strs(&clone.target.unwrap()), vec!["git-repos", "https---github-com-a-b"]);
    let update = git_of(krate.fetch(FetchEvent::CacheChecked(true)));
    assert_eq!(update.args[2], "fetch");
    assert!(matches!(krate.fetch(FetchEvent::GitFinished), FetchAction::Done));
    let entry = krate.purge_from_cache().unwrap();
    assert!(entry.is_dir);
    assert_eq!(strs(&entry.path), vec!["git-repos", "https---github-com-a-b"]);
    let query = krate.git_commit().unwrap();
    assert_eq!(strs(&query.args), vec!["rev-parse", "HEAD"]);
    assert!(Crate::crates_io("rand", "0.3.14").git_commit().is_none());
    assert!(matches!(krate.copy_source_to(false).method, CopyMethod::CloneMirror(_)));
}

#[test]
fn commit_is_first_nonempty_line() {
    assert_eq!(commit_from_output(&vec!["abc123".to_string(), "x".to_string()]), Some("abc123".to_string()));
    assert_eq!(commit_from_output(&vec!["".to_string()]), None);
    assert_eq!(commit_from_output(&vec![]), None);
}

#[test]
fn purge_targets() {
    let e = Crate::crates_io("rand", "0.3.14").purge_from_cache().unwrap();
    assert!(!e.is_dir);
    assert_eq!(strs(&e.path), vec!["cratesio-sources", "rand", "rand-0.3.14.crate"]);
    assert!(Crate::local("/src/foo").purge_from_cache().is_none());
}

#[test]
fn descriptions() {
    assert_eq!(Crate::crates_io("rand", "0.3.14").describe(), "crates.io crate rand 0.3.14");
    assert_eq!(Crate::registry("foo", "1.0.0", "https://x.y/z").describe(), "registry crate foo 1.0.0 (https://x.y/z)");
    assert_eq!(Crate::git("https://github.com/a/b").describe(), "git repo https://github.com/a/b");
    assert_eq!(Crate::local("/src/foo").describe(), "local crate /src/foo");
}
