//! Releases as GitHub's REST interface lists them.

use crate::model::{opt_view, AppError, Asset, AssetView, Release, ReleaseView, RepoPath};
use crate::provider::{
    archive_asset, archive_view, clone_text, is_key_or_refusal, owner_repo_key, parse_owner_repo,
};
use crate::time::Timestamp;
use vstd::prelude::*;
use vstd::string::StringExecFns;

verus! {

/// The host of every repository of this family.
pub const HOST: &'static str = "github.com";

/// The kind of answer that is asked for.
pub const ACCEPT: &'static str = "application/vnd.github.v3+json";

/// What a path must look like.
pub const USAGE: &'static str = "Invalid path format. Use: /github/{owner}/{repo}";

/// A file of a release, as GitHub lists it.
#[derive(Clone, Debug, PartialEq, Eq)]
pub struct GitHubAsset {
    pub name: String,
    pub browser_download_url: String,
    pub content_type: Option<String>,
    pub size: u64,
    pub download_count: u64,
}

/// A release, as GitHub lists it.
#[derive(Clone, Debug, PartialEq, Eq)]
pub struct GitHubRelease {
    pub tag_name: String,
    pub name: Option<String>,
    pub published_at: Timestamp,
    pub html_url: String,
    pub body: Option<String>,
    pub prerelease: bool,
    pub draft: bool,
    pub assets: Vec<GitHubAsset>,
    pub tarball_url: Option<String>,
    pub zipball_url: Option<String>,
}

/// The address at which a repository's releases are listed.
pub open spec fn releases_url_of(owner: Seq<char>, repo: Seq<char>) -> Seq<char> {
    "https://api.github.com/repos/"@ + owner + "/"@ + repo + "/releases"@
}

/// The address at which a repository's releases are listed.
pub fn releases_url(owner: &str, repo: &str) -> (url: String)
    ensures
        url@ == releases_url_of(owner@, repo@),
{
    let mut url = String::from_str("https://api.github.com/repos/");
    url.append(owner);
    url.append("/");
    url.append(repo);
    url.append("/releases");
    url
}

/// The message for an answer without success, whose status reads `status`.
pub fn status_error(status: &str) -> (message: String)
    ensures
        message@ == "GitHub API returned status: "@ + status@,
{
    String::from_str("GitHub API returned status: ").concat(status)
}

/// The key of the repository that a path `owner/repo` names.
pub fn parse_github_path(path: &str) -> (r: Result<RepoPath, AppError>)
    ensures
        is_key_or_refusal(r, owner_repo_key(HOST@, path@), USAGE@),
{
    parse_owner_repo(HOST, path, USAGE)
}

/// A listed file as an asset: the same values under the common names.
pub open spec fn asset_of(a: GitHubAsset) -> AssetView {
    AssetView {
        name: a.name@,
        url: a.browser_download_url@,
        content_type: opt_view(a.content_type),
        size: a.size,
        download_count: a.download_count,
    }
}

/// The assets of a release: the listed files in their order, then the
/// source tarball and the source zip where the release has them.
pub open spec fn assets_of(r: GitHubRelease) -> Seq<AssetView> {
    let listed = Seq::new(r.assets@.len(), |i: int| asset_of(r.assets@[i]));
    let with_tarball = match r.tarball_url {
        Some(url) => listed.push(archive_view(r.tag_name@, ".tar.gz"@, url@, "application/gzip"@)),
        None => listed,
    };
    match r.zipball_url {
        Some(url) => with_tarball.push(
            archive_view(r.tag_name@, ".zip"@, url@, "application/zip"@),
        ),
        None => with_tarball,
    }
}

/// A listed release as a common release.
pub open spec fn release_of(r: GitHubRelease) -> ReleaseView {
    ReleaseView {
        tag_name: r.tag_name@,
        name: opt_view(r.name),
        published_at: r.published_at,
        html_url: r.html_url@,
        body: opt_view(r.body),
        prerelease: r.prerelease,
        draft: r.draft,
        assets: assets_of(r),
        source_tarball: None,
        source_zipball: None,
    }
}

/// Turns a listed release into a common release.
pub fn convert_release(r: &GitHubRelease) -> (out: Release)
    ensures
        out@ == release_of(*r),
{
    let mut assets: Vec<Asset> = Vec::new();
    let mut i: usize = 0;
    while i < r.assets.len()
        invariant
            i <= r.assets.len(),
            assets.len() == i,
            forall|j: int| 0 <= j < i ==> (#[trigger] assets@[j])@ == asset_of(r.assets@[j]),
        decreases r.assets.len() - i,
    {
        let a = &r.assets[i];
        assets.push(
            Asset {
                name: a.name.clone(),
                url: a.browser_download_url.clone(),
                content_type: clone_text(&a.content_type),
                size: a.size,
                download_count: a.download_count,
            },
        );
        i += 1;
    }
    match &r.tarball_url {
        Some(url) => {
            assets.push(
                archive_asset(r.tag_name.as_str(), ".tar.gz", url.as_str(), "application/gzip"),
            );
        },
        None => {},
    }
    match &r.zipball_url {
        Some(url) => {
            assets.push(
                archive_asset(r.tag_name.as_str(), ".zip", url.as_str(), "application/zip"),
            );
        },
        None => {},
    }
    let out = Release {
        tag_name: r.tag_name.clone(),
        name: clone_text(&r.name),
        published_at: r.published_at,
        html_url: r.html_url.clone(),
        body: clone_text(&r.body),
        prerelease: r.prerelease,
        draft: r.draft,
        assets,
        source_tarball: None,
        source_zipball: None,
    };
    assert(out@.assets =~= assets_of(*r));
    out
}

/// Turns the listed releases into common releases, in their order.
pub fn convert_releases(listed: &Vec<GitHubRelease>) -> (out: Vec<Release>)
    ensures
        out.len() == listed.len(),
        forall|i: int| 0 <= i < listed.len() ==> (#[trigger] out@[i])@ == release_of(listed@[i]),
{
    let mut out: Vec<Release> = Vec::new();
    let mut i: usize = 0;
    while i < listed.len()
        invariant
            i <= listed.len(),
            out.len() == i,
            forall|j: int| 0 <= j < i ==> (#[trigger] out@[j])@ == release_of(listed@[j]),
        decreases listed.len() - i,
    {
        out.push(convert_release(&listed[i]));
        i += 1;
    }
    out
}

} // verus!
