//! Releases as GitLab's REST interface lists them.

use crate::model::{AppError, Asset, AssetView, Release, ReleaseView, RepoPath};
use crate::provider::{is_key_or_refusal, owner_repo_key, parse_owner_repo};
use crate::time::Timestamp;
use vstd::prelude::*;
use vstd::string::StringExecFns;
use vstd::utf8::encode_utf8;

verus! {

/// The host of every repository of this family.
pub const HOST: &'static str = "gitlab.com";

/// The kind of answer that is asked for.
pub const ACCEPT: &'static str = "application/json";

/// What a path must look like.
pub const USAGE: &'static str = "Invalid path format. Use: /gitlab/{owner}/{repo}";

/// The sixteen digits of the hexadecimal notation.
pub const HEX_DIGITS: &'static str = "0123456789ABCDEF";

/// A source archive of a release, as GitLab lists it.
#[derive(Clone, Debug, PartialEq, Eq)]
pub struct GitLabSource {
    pub format: String,
    pub url: String,
}

/// A file linked to a release, as GitLab lists it.
#[derive(Clone, Debug, PartialEq, Eq)]
pub struct GitLabLink {
    pub name: String,
    pub url: String,
}

/// What belongs to a release: source archives and linked files.
#[derive(Clone, Debug, PartialEq, Eq)]
pub struct GitLabAssets {
    pub sources: Vec<GitLabSource>,
    pub links: Vec<GitLabLink>,
}

/// The addresses of a release.
#[derive(Clone, Debug, PartialEq, Eq)]
pub struct GitLabLinks {
    pub self_url: String,
}

/// A release, as GitLab lists it.
#[derive(Clone, Debug, PartialEq, Eq)]
pub struct GitLabRelease {
    pub tag_name: String,
    pub name: String,
    pub released_at: Timestamp,
    pub _links: GitLabLinks,
    pub description: String,
    pub assets: GitLabAssets,
}

/// What `str::to_lowercase` of the standard library makes of a text.
pub uninterp spec fn lowercased(text: Seq<char>) -> Seq<char>;

/// Calls `str::to_lowercase`. The contract names the result.
#[verifier::external_body]
pub(crate) fn lowercase(text: &str) -> (r: String)
    ensures
        r@ == lowercased(text@),
{
    text.to_lowercase()
}

/// A byte that the form encoding leaves as it is: a letter or a digit of
/// ASCII, or one of `*`, `-`, `.` and `_`.
pub open spec fn stays_unchanged(b: u8) -> bool {
    b == 0x2A || b == 0x2D || b == 0x2E || (0x30 <= b && b <= 0x39) || (0x41 <= b && b <= 0x5A)
        || b == 0x5F || (0x61 <= b && b <= 0x7A)
}

/// One byte in the form encoding: itself where it stays unchanged, a plus
/// sign for a space, and else a percent sign with the byte's two
/// hexadecimal digits in upper case.
pub open spec fn form_byte(b: u8) -> Seq<char> {
    if stays_unchanged(b) {
        seq![b as char]
    } else if b == 0x20 {
        seq!['+']
    } else {
        seq!['%', HEX_DIGITS@[b as int / 16], HEX_DIGITS@[b as int % 16]]
    }
}

/// Bytes in the form encoding (`application/x-www-form-urlencoded`): the
/// encodings of the bytes one after the other.
pub open spec fn form_urlencoded(bytes: Seq<u8>) -> Seq<char>
    decreases bytes.len(),
{
    if bytes.len() == 0 {
        Seq::<char>::empty()
    } else {
        form_urlencoded(bytes.drop_last()) + form_byte(bytes.last())
    }
}

/// Calls `url::form_urlencoded::byte_serialize` on the UTF-8 bytes of the
/// text and gathers the pieces that it yields. The contract states the
/// result as the url crate's source gives it: byte by byte, as `form_byte`
/// says.
#[verifier::external_body]
pub fn encode(s: &str) -> (r: String)
    ensures
        r@ == form_urlencoded(encode_utf8(s@)),
{
    url::form_urlencoded::byte_serialize(s.as_bytes()).collect()
}

/// The address at which a project's releases are listed: the project is
/// named by `owner/repo` in the form encoding.
pub open spec fn releases_url_of(owner: Seq<char>, repo: Seq<char>) -> Seq<char> {
    "https://gitlab.com/api/v4/projects/"@ + form_urlencoded(encode_utf8(owner + "/"@ + repo))
        + "/releases"@
}

/// The address at which a project's releases are listed.
pub fn releases_url(owner: &str, repo: &str) -> (url: String)
    ensures
        url@ == releases_url_of(owner@, repo@),
{
    let mut project = String::from_str(owner);
    project.append("/");
    project.append(repo);
    let mut url = String::from_str("https://gitlab.com/api/v4/projects/");
    url.append(encode(project.as_str()).as_str());
    url.append("/releases");
    url
}

/// The message for an answer without success, whose status reads `status`.
pub fn status_error(status: &str) -> (message: String)
    ensures
        message@ == "GitLab API returned status: "@ + status@,
{
    String::from_str("GitLab API returned status: ").concat(status)
}

/// The key of the repository that a path `owner/repo` names.
pub fn parse_gitlab_path(path: &str) -> (r: Result<RepoPath, AppError>)
    ensures
        is_key_or_refusal(r, owner_repo_key(HOST@, path@), USAGE@),
{
    parse_owner_repo(HOST, path, USAGE)
}

/// A source archive as an asset: named by the tag and the archive's format
/// in lower case, with the media type `application/` and that format.
pub open spec fn source_asset_of(tag: Seq<char>, s: GitLabSource) -> AssetView {
    AssetView {
        name: tag + "."@ + lowercased(s.format@),
        url: s.url@,
        content_type: Some("application/"@ + lowercased(s.format@)),
        size: 0,
        download_count: 0,
    }
}

/// A linked file as an asset: its name and address, and nothing else known.
pub open spec fn link_asset_of(l: GitLabLink) -> AssetView {
    AssetView { name: l.name@, url: l.url@, content_type: None, size: 0, download_count: 0 }
}

/// The assets of a release: its source archives in their order, then its
/// linked files in theirs.
pub open spec fn assets_of(r: GitLabRelease) -> Seq<AssetView> {
    Seq::new(r.assets.sources@.len(), |i: int| source_asset_of(r.tag_name@, r.assets.sources@[i]))
        + Seq::new(r.assets.links@.len(), |i: int| link_asset_of(r.assets.links@[i]))
}

/// A listed release as a common release. GitLab tells of no prereleases
/// and no drafts.
pub open spec fn release_of(r: GitLabRelease) -> ReleaseView {
    ReleaseView {
        tag_name: r.tag_name@,
        name: Some(r.name@),
        published_at: r.released_at,
        html_url: r._links.self_url@,
        body: Some(r.description@),
        prerelease: false,
        draft: false,
        assets: assets_of(r),
        source_tarball: None,
        source_zipball: None,
    }
}

/// Turns a listed release into a common release.
pub fn convert_release(r: &GitLabRelease) -> (out: Release)
    ensures
        out@ == release_of(*r),
{
    let mut assets: Vec<Asset> = Vec::new();
    let sources = &r.assets.sources;
    let links = &r.assets.links;
    let mut i: usize = 0;
    while i < sources.len()
        invariant
            i <= sources.len(),
            sources == &r.assets.sources,
            assets.len() == i,
            forall|j: int|
                0 <= j < i ==> (#[trigger] assets@[j])@ == source_asset_of(
                    r.tag_name@,
                    sources@[j],
                ),
        decreases sources.len() - i,
    {
        let source = &sources[i];
        let format = lowercase(source.format.as_str());
        let mut name = r.tag_name.clone();
        name.append(".");
        name.append(format.as_str());
        let media_type = String::from_str("application/").concat(format.as_str());
        assets.push(
            Asset {
                name,
                url: source.url.clone(),
                content_type: Some(media_type),
                size: 0,
                download_count: 0,
            },
        );
        i += 1;
    }
    let mut k: usize = 0;
    while k < links.len()
        invariant
            k <= links.len(),
            links == &r.assets.links,
            sources == &r.assets.sources,
            assets.len() == sources.len() + k,
            forall|j: int|
                0 <= j < sources.len() ==> (#[trigger] assets@[j])@ == source_asset_of(
                    r.tag_name@,
                    sources@[j],
                ),
            forall|j: int|
                0 <= j < k ==> (#[trigger] assets@[sources.len() + j])@ == link_asset_of(
                    links@[j],
                ),
        decreases links.len() - k,
    {
        let link = &links[k];
        assets.push(
            Asset {
                name: link.name.clone(),
                url: link.url.clone(),
                content_type: None,
                size: 0,
                download_count: 0,
            },
        );
        k += 1;
    }
    let out = Release {
        tag_name: r.tag_name.clone(),
        name: Some(r.name.clone()),
        published_at: r.released_at,
        html_url: r._links.self_url.clone(),
        body: Some(r.description.clone()),
        prerelease: false,
        draft: false,
        assets,
        source_tarball: None,
        source_zipball: None,
    };
    assert(out@.assets =~= assets_of(*r)) by {
        assert forall|j: int| 0 <= j < out@.assets.len() implies out@.assets[j] == assets_of(
            *r,
        )[j] by {
            if j >= sources.len() {
                assert(out.assets@[sources.len() + (j - sources.len())]@ == link_asset_of(
                    links@[j - sources.len()],
                ));
            }
        }
    }
    out
}

/// Turns the listed releases into common releases, in their order.
pub fn convert_releases(listed: &Vec<GitLabRelease>) -> (out: Vec<Release>)
    ensures
        out.len() == listed.len(),
        forall|i: int| 0 <= i < listed.len() ==> (#[trigger] out@[i])@ == release_of(listed@[i]),
{
    let mut out: Vec<Release> = Vec::new();
    let mut i: usize = 0;
    while i < listed.len()
        invariant
            i <= listed.len(),
            out.len() == i,
            forall|j: int| 0 <= j < i ==> (#[trigger] out@[j])@ == release_of(listed@[j]),
        decreases listed.len() - i,
    {
        out.push(convert_release(&listed[i]));
        i += 1;
    }
    out
}

} // verus!
