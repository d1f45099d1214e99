//! The data that the proxy caches and serves: releases and their assets, the
//! key under which a repository is cached, and the errors that reach callers.

use crate::text::{chars_to_string, join, lemma_join_split, split_chars, split_on, str_chars};
use crate::time::Timestamp;
use vstd::prelude::*;
use vstd::string::StringExecFns;

verus! {

/// The text of an optional string.
pub open spec fn opt_view(o: Option<String>) -> Option<Seq<char>> {
    match o {
        Some(s) => Some(s@),
        None => None,
    }
}

/// A file attached to a release. A `size` or `download_count` of 0 stands
/// for "not reported", not for a count of zero.
#[derive(Clone, Debug, PartialEq, Eq)]
pub struct Asset {
    pub name: String,
    pub url: String,
    pub content_type: Option<String>,
    pub size: u64,
    pub download_count: u64,
}

/// What an asset holds, as plain values.
pub struct AssetView {
    pub name: Seq<char>,
    pub url: Seq<char>,
    pub content_type: Option<Seq<char>>,
    pub size: u64,
    pub download_count: u64,
}

impl View for Asset {
    type V = AssetView;

    open spec fn view(&self) -> AssetView {
        AssetView {
            name: self.name@,
            url: self.url@,
            content_type: opt_view(self.content_type),
            size: self.size,
            download_count: self.download_count,
        }
    }
}

/// The views of a sequence of assets.
pub open spec fn assets_view(assets: Seq<Asset>) -> Seq<AssetView> {
    Seq::new(assets.len(), |i: int| assets[i]@)
}

/// One release of a repository. Lists of releases come newest first.
#[derive(Clone, Debug, PartialEq, Eq)]
pub struct Release {
    pub tag_name: String,
    pub name: Option<String>,
    pub published_at: Timestamp,
    pub html_url: String,
    pub body: Option<String>,
    pub prerelease: bool,
    pub draft: bool,
    pub assets: Vec<Asset>,
    pub source_tarball: Option<String>,
    pub source_zipball: Option<String>,
}

/// What a release holds, as plain values.
pub struct ReleaseView {
    pub tag_name: Seq<char>,
    pub name: Option<Seq<char>>,
    pub published_at: Timestamp,
    pub html_url: Seq<char>,
    pub body: Option<Seq<char>>,
    pub prerelease: bool,
    pub draft: bool,
    pub assets: Seq<AssetView>,
    pub source_tarball: Option<Seq<char>>,
    pub source_zipball: Option<Seq<char>>,
}

impl View for Release {
    type V = ReleaseView;

    open spec fn view(&self) -> ReleaseView {
        ReleaseView {
            tag_name: self.tag_name@,
            name: opt_view(self.name),
            published_at: self.published_at,
            html_url: self.html_url@,
            body: opt_view(self.body),
            prerelease: self.prerelease,
            draft: self.draft,
            assets: assets_view(self.assets@),
            source_tarball: opt_view(self.source_tarball),
            source_zipball: opt_view(self.source_zipball),
        }
    }
}

/// The views of a sequence of releases.
pub open spec fn releases_view(releases: Seq<Release>) -> Seq<ReleaseView> {
    Seq::new(releases.len(), |i: int| releases[i]@)
}

/// The cache entry of one repository: its releases, the instant at which
/// they were fetched, and the cache key of the repository.
#[derive(Clone, Debug, PartialEq, Eq)]
pub struct CachedReleases {
    pub releases: Vec<Release>,
    pub cached_at: Timestamp,
    pub repo_path: String,
}

/// The key of a cached repository. `owner` is empty for hosts that address
/// a repository by a path alone.
#[derive(Clone, Debug, PartialEq, Eq)]
pub struct RepoPath {
    pub host: String,
    pub owner: String,
    pub repo: String,
}

/// What goes wrong, as callers see it.
#[derive(Clone, Debug, PartialEq, Eq)]
pub enum AppError {
    /// The upstream source could not be reached or answered without success.
    HttpError(String),
    /// The store could not be read or written.
    IoError(String),
    /// Stored or received data was malformed.
    JsonError(String),
    /// A request path that names no repository.
    InvalidRepoPath(String),
    /// The cache or the upstream source refused; the message says which.
    CacheError(String),
    /// A fetch for the same repository is under way.
    AlreadyProcessing,
}

/// A path names a repository when it has the form `host/owner/repo`: three
/// segments between slashes, none of them empty.
pub open spec fn is_repo_path(path: Seq<char>) -> bool {
    let parts = split_on(path, '/');
    parts.len() == 3 && parts[0].len() > 0 && parts[1].len() > 0 && parts[2].len() > 0
}

/// The three parts of a key joined with slashes.
pub open spec fn cache_key_of(host: Seq<char>, owner: Seq<char>, repo: Seq<char>) -> Seq<char> {
    host + seq!['/'] + owner + seq!['/'] + repo
}

impl RepoPath {
    /// The key as one text, `host/owner/repo`: the name of the repository's
    /// partition of the cache and of its slot in the coordinator.
    pub open spec fn key(&self) -> Seq<char> {
        cache_key_of(self.host@, self.owner@, self.repo@)
    }

    /// Reads a key from a path of the form `host/owner/repo`. Any other
    /// path is refused, with the path in the error.
    pub fn parse(path: &str) -> (r: Result<RepoPath, AppError>)
        ensures
            match r {
                Ok(p) => is_repo_path(path@) && split_on(path@, '/') == seq![
                    p.host@,
                    p.owner@,
                    p.repo@,
                ] && p.key() == path@,
                Err(e) => !is_repo_path(path@) && (e matches AppError::InvalidRepoPath(p) && p@
                    == path@),
            },
    {
        let chars = str_chars(path);
        let parts = split_chars(&chars, '/');
        if parts.len() == 3 && parts[0].len() > 0 && parts[1].len() > 0 && parts[2].len() > 0 {
            let found = RepoPath {
                host: chars_to_string(&parts[0]),
                owner: chars_to_string(&parts[1]),
                repo: chars_to_string(&parts[2]),
            };
            proof {
                let segs = split_on(path@, '/');
                assert(segs =~= seq![found.host@, found.owner@, found.repo@]);
                lemma_join_split(path@, '/');
                lemma_join_of_three(segs, '/');
            }
            Ok(found)
        } else {
            Err(AppError::InvalidRepoPath(String::from_str(path)))
        }
    }

    /// The key as one text, `host/owner/repo`.
    pub fn cache_key(&self) -> (r: String)
        ensures
            r@ == self.key(),
    {
        let mut r = self.host.clone();
        r.append("/");
        r.append(self.owner.as_str());
        r.append("/");
        r.append(self.repo.as_str());
        proof {
            reveal_strlit("/");
            assert("/"@ =~= seq!['/']);
        }
        r
    }
}

proof fn lemma_join_of_three(parts: Seq<Seq<char>>, sep: char)
    requires
        parts.len() == 3,
    ensures
        join(parts, sep) == parts[0] + seq![sep] + parts[1] + seq![sep] + parts[2],
{
    let two = parts.drop_last();
    let one = two.drop_last();
    assert(join(one, sep) == parts[0]);
    assert(join(two, sep) == join(one, sep).push(sep) + two.last());
    assert(join(parts, sep) == join(two, sep).push(sep) + parts.last());
    assert(join(parts, sep) =~= parts[0] + seq![sep] + parts[1] + seq![sep] + parts[2]);
}

/// An error as a line of text: what kind of thing went wrong, then the
/// detail that the error carries.
pub open spec fn message_of(e: AppError) -> Seq<char> {
    match e {
        AppError::HttpError(m) => "HTTP request failed: "@ + m@,
        AppError::IoError(m) => "IO error: "@ + m@,
        AppError::JsonError(m) => "JSON parse error: "@ + m@,
        AppError::InvalidRepoPath(m) => "Invalid repository path: "@ + m@,
        AppError::CacheError(m) => "Cache error: "@ + m@,
        AppError::AlreadyProcessing =>
            "Already fetching releases for this repository. Please try again in a moment."@,
    }
}

impl AppError {
    /// The error as a line of text for people to read.
    pub fn message(&self) -> (r: String)
        ensures
            r@ == message_of(*self),
    {
        match self {
            AppError::HttpError(m) => String::from_str("HTTP request failed: ").concat(m.as_str()),
            AppError::IoError(m) => String::from_str("IO error: ").concat(m.as_str()),
            AppError::JsonError(m) => String::from_str("JSON parse error: ").concat(m.as_str()),
            AppError::InvalidRepoPath(m) => String::from_str("Invalid repository path: ").concat(
                m.as_str(),
            ),
            AppError::CacheError(m) => String::from_str("Cache error: ").concat(m.as_str()),
            AppError::AlreadyProcessing => String::from_str(
                "Already fetching releases for this repository. Please try again in a moment.",
            ),
        }
    }
}

} // verus!
