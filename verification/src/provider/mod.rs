//! The sources of releases. Each host family answers in its own shape; a
//! module per family turns that shape into the common releases, tells where
//! to ask, and reads the repository key out of a request path.

pub mod cgit;
pub mod forgejo;
pub mod github;
pub mod gitlab;

use crate::model::{opt_view, AppError, Asset, AssetView, RepoPath};
use crate::text::{
    chars_equal, chars_to_string, first_index_of, first_position, str_chars, sub_chars,
};
use vstd::prelude::*;
use vstd::string::StringExecFns;

verus! {

/// How the proxy names itself to the hosts that it asks.
pub const USER_AGENT: &'static str = "checkup/0.1.0";

/// A copy of an optional string.
pub fn clone_text(o: &Option<String>) -> (r: Option<String>)
    ensures
        opt_view(r) == opt_view(*o),
{
    match o {
        Some(s) => Some(s.clone()),
        None => None,
    }
}

/// The asset that stands for a source archive of the release `tag`: it is
/// named by the tag and a suffix, and neither its size nor its downloads
/// are known.
pub open spec fn archive_view(
    tag: Seq<char>,
    suffix: Seq<char>,
    url: Seq<char>,
    media_type: Seq<char>,
) -> AssetView {
    AssetView {
        name: tag + suffix,
        url,
        content_type: Some(media_type),
        size: 0,
        download_count: 0,
    }
}

/// The asset that stands for a source archive of a release.
pub fn archive_asset(tag: &str, suffix: &str, url: &str, media_type: &str) -> (a: Asset)
    ensures
        a@ == archive_view(tag@, suffix@, url@, media_type@),
{
    Asset {
        name: String::from_str(tag).concat(suffix),
        url: String::from_str(url),
        content_type: Some(String::from_str(media_type)),
        size: 0,
        download_count: 0,
    }
}

/// A path cut at its first slash: what precedes the slash and what follows
/// it. A path without a slash cannot be cut.
pub open spec fn cut_at_slash(path: Seq<char>) -> Option<(Seq<char>, Seq<char>)> {
    match first_index_of(path, '/') {
        Some(p) => Some((path.take(p), path.skip(p + 1))),
        None => None,
    }
}

/// Cuts a path at its first slash.
pub fn split_at_slash(path: &Vec<char>) -> (r: Option<(Vec<char>, Vec<char>)>)
    ensures
        match r {
            Some((head, tail)) => cut_at_slash(path@) == Some((head@, tail@)),
            None => cut_at_slash(path@) is None,
        },
{
    match first_position(path, '/') {
        Some(p) => Some((sub_chars(path, 0, p), sub_chars(path, p + 1, path.len()))),
        None => None,
    }
}

/// The parts of the key that a path `owner/repo` names on a host that is
/// known beforehand. The owner is what precedes the first slash; the
/// repository is all that follows. A path without a slash names no key.
pub open spec fn owner_repo_key(host: Seq<char>, path: Seq<char>) -> Option<
    (Seq<char>, Seq<char>, Seq<char>),
> {
    match cut_at_slash(path) {
        Some((owner, repo)) => Some((host, owner, repo)),
        None => None,
    }
}

/// Whether `r` is the key with these three parts, or, where there are none,
/// the refusal with this message.
pub open spec fn is_key_or_refusal(
    r: Result<RepoPath, AppError>,
    parts: Option<(Seq<char>, Seq<char>, Seq<char>)>,
    usage: Seq<char>,
) -> bool {
    match parts {
        Some((host, owner, repo)) => r matches Ok(k) && k.host@ == host && k.owner@ == owner
            && k.repo@ == repo,
        None => r matches Err(AppError::InvalidRepoPath(m)) && m@ == usage,
    }
}

/// Reads the key of a repository from a path `owner/repo` on a host that is
/// known beforehand. A path without a slash is refused with `usage` as the
/// error's message.
pub fn parse_owner_repo(host: &str, path: &str, usage: &str) -> (r: Result<RepoPath, AppError>)
    ensures
        is_key_or_refusal(r, owner_repo_key(host@, path@), usage@),
{
    match split_at_slash(&str_chars(path)) {
        Some((owner, repo)) => Ok(
            RepoPath {
                host: String::from_str(host),
                owner: chars_to_string(&owner),
                repo: chars_to_string(&repo),
            },
        ),
        None => Err(AppError::InvalidRepoPath(String::from_str(usage))),
    }
}

/// A family of hosts, each with a route of its own.
#[derive(Clone, Copy, Debug, PartialEq, Eq, Structural)]
pub enum Provider {
    GitHub,
    GitLab,
    Forgejo,
    Cgit,
}

/// The route of a family.
pub open spec fn route_prefix_of(provider: Provider) -> Seq<char> {
    match provider {
        Provider::GitHub => "github"@,
        Provider::GitLab => "gitlab"@,
        Provider::Forgejo => "forgejo"@,
        Provider::Cgit => "cgit"@,
    }
}

/// The parts of the key that a path names on the route of a family, if it
/// names one.
pub open spec fn key_parts_of(provider: Provider, path: Seq<char>) -> Option<
    (Seq<char>, Seq<char>, Seq<char>),
> {
    match provider {
        Provider::GitHub => owner_repo_key(github::HOST@, path),
        Provider::GitLab => owner_repo_key(gitlab::HOST@, path),
        Provider::Forgejo => forgejo::host_owner_repo(path),
        Provider::Cgit => cgit::host_and_repo(path),
    }
}

/// What a family says of a path that names no repository.
pub open spec fn usage_of(provider: Provider) -> Seq<char> {
    match provider {
        Provider::GitHub => github::USAGE@,
        Provider::GitLab => gitlab::USAGE@,
        Provider::Forgejo => forgejo::USAGE@,
        Provider::Cgit => cgit::USAGE@,
    }
}

/// What is said of a host that the route by `host/owner/repo` does not
/// serve.
pub open spec fn unsupported_host_of(host: Seq<char>, key: Seq<char>) -> Seq<char> {
    "Unsupported host: "@ + host + ". Use /forgejo/"@ + key + " for Forgejo-based hosts or /cgit/"@
        + key + " for cgit hosts."@
}

impl Provider {
    /// The route of the family.
    pub fn route_prefix(self) -> (r: &'static str)
        ensures
            r@ == route_prefix_of(self),
    {
        match self {
            Provider::GitHub => "github",
            Provider::GitLab => "gitlab",
            Provider::Forgejo => "forgejo",
            Provider::Cgit => "cgit",
        }
    }

    /// The key of the repository that a path names on the family's route.
    pub fn parse_path(self, path: &str) -> (r: Result<RepoPath, AppError>)
        ensures
            is_key_or_refusal(r, key_parts_of(self, path@), usage_of(self)),
    {
        match self {
            Provider::GitHub => github::parse_github_path(path),
            Provider::GitLab => gitlab::parse_gitlab_path(path),
            Provider::Forgejo => forgejo::parse_forgejo_path(path),
            Provider::Cgit => cgit::parse_cgit_path(path),
        }
    }

    /// The family that serves a key on the route by `host/owner/repo`:
    /// GitHub for `github.com`, GitLab for `gitlab.com`. Every other host is
    /// refused, with a hint at the routes that name their host.
    pub fn for_host(repo: &RepoPath) -> (r: Result<Provider, AppError>)
        ensures
            repo.host@ == github::HOST@ ==> r == Ok::<Provider, AppError>(Provider::GitHub),
            repo.host@ != github::HOST@ && repo.host@ == gitlab::HOST@ ==> r == Ok::<
                Provider,
                AppError,
            >(Provider::GitLab),
            repo.host@ != github::HOST@ && repo.host@ != gitlab::HOST@ ==> (r matches Err(
                AppError::InvalidRepoPath(m),
            ) && m@ == unsupported_host_of(repo.host@, repo.key())),
    {
        let host = str_chars(repo.host.as_str());
        if chars_equal(&host, &str_chars(github::HOST)) {
            Ok(Provider::GitHub)
        } else if chars_equal(&host, &str_chars(gitlab::HOST)) {
            Ok(Provider::GitLab)
        } else {
            let key = repo.cache_key();
            let mut message = String::from_str("Unsupported host: ");
            message.append(repo.host.as_str());
            message.append(". Use /forgejo/");
            message.append(key.as_str());
            message.append(" for Forgejo-based hosts or /cgit/");
            message.append(key.as_str());
            message.append(" for cgit hosts.");
            Err(AppError::InvalidRepoPath(message))
        }
    }
}

} // verus!
