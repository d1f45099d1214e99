//! Releases as a Forgejo host's REST interface lists them.

use crate::model::{AppError, Asset, AssetView, Release, ReleaseView, RepoPath};
use crate::provider::{
    archive_asset, archive_view, cut_at_slash, is_key_or_refusal, split_at_slash,
};
use crate::text::{chars_to_string, str_chars};
use crate::time::Timestamp;
use vstd::prelude::*;
use vstd::string::StringExecFns;

verus! {

/// The kind of answer that is asked for.
pub const ACCEPT: &'static str = "application/json";

/// What is said of a path that names no repository.
pub const USAGE: &'static str = "Invalid path format";

/// A file of a release, as Forgejo lists it. Size and downloads may be
/// missing.
#[derive(Clone, Debug, PartialEq, Eq)]
pub struct ForgejoAsset {
    pub name: String,
    pub browser_download_url: String,
    pub size: Option<u64>,
    pub download_count: Option<u64>,
}

/// A release, as Forgejo lists it.
#[derive(Clone, Debug, PartialEq, Eq)]
pub struct ForgejoRelease {
    pub tag_name: String,
    pub name: String,
    pub published_at: Timestamp,
    pub html_url: String,
    pub body: String,
    pub prerelease: bool,
    pub draft: bool,
    pub assets: Vec<ForgejoAsset>,
    pub tarball_url: Option<String>,
    pub zipball_url: Option<String>,
}

/// The address at which a host lists a repository's releases.
pub open spec fn releases_url_of(host: Seq<char>, owner: Seq<char>, repo: Seq<char>) -> Seq<
    char,
> {
    "https://"@ + host + "/api/v1/repos/"@ + owner + "/"@ + repo + "/releases"@
}

/// The address at which a host lists a repository's releases.
pub fn releases_url(host: &str, owner: &str, repo: &str) -> (url: String)
    ensures
        url@ == releases_url_of(host@, owner@, repo@),
{
    let mut url = String::from_str("https://");
    url.append(host);
    url.append("/api/v1/repos/");
    url.append(owner);
    url.append("/");
    url.append(repo);
    url.append("/releases");
    url
}

/// The message for an answer without success from `host`, whose status
/// reads `status`.
pub fn status_error(host: &str, status: &str) -> (message: String)
    ensures
        message@ == "Forgejo API ("@ + host@ + ") returned status: "@ + status@,
{
    let mut message = String::from_str("Forgejo API (");
    message.append(host);
    message.append(") returned status: ");
    message.append(status);
    message
}

/// The three parts of a path `host/owner/repo`: the host precedes the
/// first slash, the owner the second, and the repository is all that
/// follows. A path with fewer than two slashes has no such parts.
pub open spec fn host_owner_repo(path: Seq<char>) -> Option<(Seq<char>, Seq<char>, Seq<char>)> {
    match cut_at_slash(path) {
        Some((host, rest)) => match cut_at_slash(rest) {
            Some((owner, repo)) => Some((host, owner, repo)),
            None => None,
        },
        None => None,
    }
}

/// The key of the repository that a path `host/owner/repo` names.
pub fn parse_forgejo_path(path: &str) -> (r: Result<RepoPath, AppError>)
    ensures
        is_key_or_refusal(r, host_owner_repo(path@), USAGE@),
{
    match split_at_slash(&str_chars(path)) {
        Some((host, rest)) => match split_at_slash(&rest) {
            Some((owner, repo)) => {
                return Ok(
                    RepoPath {
                        host: chars_to_string(&host),
                        owner: chars_to_string(&owner),
                        repo: chars_to_string(&repo),
                    },
                );
            },
            None => {},
        },
        None => {},
    }
    Err(AppError::InvalidRepoPath(String::from_str(USAGE)))
}

/// A count that may be missing; 0 stands for a missing one.
pub open spec fn count_or_zero(n: Option<u64>) -> u64 {
    match n {
        Some(v) => v,
        None => 0,
    }
}

/// A listed file as an asset. Forgejo names no media type.
pub open spec fn asset_of(a: ForgejoAsset) -> AssetView {
    AssetView {
        name: a.name@,
        url: a.browser_download_url@,
        content_type: None,
        size: count_or_zero(a.size),
        download_count: count_or_zero(a.download_count),
    }
}

/// The assets of a release: the listed files in their order, then the
/// source tarball and the source zip where the release has them.
pub open spec fn assets_of(r: ForgejoRelease) -> Seq<AssetView> {
    let listed = Seq::new(r.assets@.len(), |i: int| asset_of(r.assets@[i]));
    let with_tarball = match r.tarball_url {
        Some(url) => listed.push(archive_view(r.tag_name@, ".tar.gz"@, url@, "application/gzip"@)),
        None => listed,
    };
    match r.zipball_url {
        Some(url) => with_tarball.push(
            archive_view(r.tag_name@, ".zip"@, url@, "application/zip"@),
        ),
        None => with_tarball,
    }
}

/// A listed release as a common release. Name and body are always there.
pub open spec fn release_of(r: ForgejoRelease) -> ReleaseView {
    ReleaseView {
        tag_name: r.tag_name@,
        name: Some(r.name@),
        published_at: r.published_at,
        html_url: r.html_url@,
        body: Some(r.body@),
        prerelease: r.prerelease,
        draft: r.draft,
        assets: assets_of(r),
        source_tarball: None,
        source_zipball: None,
    }
}

/// A count that may be missing, with 0 for a missing one.
fn or_zero(n: Option<u64>) -> (v: u64)
    ensures
        v == count_or_zero(n),
{
    match n {
        Some(v) => v,
        None => 0,
    }
}

/// Turns a listed release into a common release.
pub fn convert_release(r: &ForgejoRelease) -> (out: Release)
    ensures
        out@ == release_of(*r),
{
    let mut assets: Vec<Asset> = Vec::new();
    let mut i: usize = 0;
    while i < r.assets.len()
        invariant
            i <= r.assets.len(),
            assets.len() == i,
            forall|j: int| 0 <= j < i ==> (#[trigger] assets@[j])@ == asset_of(r.assets@[j]),
        decreases r.assets.len() - i,
    {
        let a = &r.assets[i];
        assets.push(
            Asset {
                name: a.name.clone(),
                url: a.browser_download_url.clone(),
                content_type: None,
                size: or_zero(a.size),
                download_count: or_zero(a.download_count),
            },
        );
        i += 1;
    }
    match &r.tarball_url {
        Some(url) => {
            assets.push(
                archive_asset(r.tag_name.as_str(), ".tar.gz", url.as_str(), "application/gzip"),
            );
        },
        None => {},
    }
    match &r.zipball_url {
        Some(url) => {
            assets.push(
                archive_asset(r.tag_name.as_str(), ".zip", url.as_str(), "application/zip"),
            );
        },
        None => {},
    }
    let out = Release {
        tag_name: r.tag_name.clone(),
        name: Some(r.name.clone()),
        published_at: r.published_at,
        html_url: r.html_url.clone(),
        body: Some(r.body.clone()),
        prerelease: r.prerelease,
        draft: r.draft,
        assets,
        source_tarball: None,
        source_zipball: None,
    };
    assert(out@.assets =~= assets_of(*r));
    out
}

/// Turns the listed releases into common releases, in their order.
pub fn convert_releases(listed: &Vec<ForgejoRelease>) -> (out: Vec<Release>)
    ensures
        out.len() == listed.len(),
        forall|i: int| 0 <= i < listed.len() ==> (#[trigger] out@[i])@ == release_of(listed@[i]),
{
    let mut out: Vec<Release> = Vec::new();
    let mut i: usize = 0;
    while i < listed.len()
        invariant
            i <= listed.len(),
            out.len() == i,
            forall|j: int| 0 <= j < i ==> (#[trigger] out@[j])@ == release_of(listed@[j]),
        decreases listed.len() - i,
    {
        out.push(convert_release(&listed[i]));
        i += 1;
    }
    out
}

} // verus!
