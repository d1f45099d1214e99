//! What a request path asks for, and which asset of the newest release a
//! request for a stable name is answered with.

use crate::asset_name::{
    extract_extension, rename_to_latest, spec_extract_extension, spec_rename_to_latest,
};
use crate::model::Release;
use crate::text::{
    chars_end_with, chars_start_with, chars_to_string, ends_with, last_index_of, last_match,
    last_occurrence, last_position, lemma_last_index_of, starts_with, str_chars, strip_trailing,
    sub_chars, without_trailing,
};
use vstd::prelude::*;
use vstd::string::StringExecFns;

verus! {

/// What a request asks for.
#[derive(Clone, Debug, PartialEq, Eq)]
pub enum Request {
    /// The asset of the newest release whose stable name is `file_name`.
    LatestAsset { repo_path: String, file_name: String },
    /// The asset of the newest release whose extension is `extension`.
    LatestByExtension { repo_path: String, extension: String },
    /// The stored releases as they lie in the cache.
    CachedJson { repo_path: String },
    /// The page of releases.
    Page { repo_path: String },
}

/// What a request asks for, as plain values.
pub enum RequestView {
    LatestAsset { repo_path: Seq<char>, file_name: Seq<char> },
    LatestByExtension { repo_path: Seq<char>, extension: Seq<char> },
    CachedJson { repo_path: Seq<char> },
    Page { repo_path: Seq<char> },
}

impl View for Request {
    type V = RequestView;

    open spec fn view(&self) -> RequestView {
        match *self {
            Request::LatestAsset { repo_path, file_name } => RequestView::LatestAsset {
                repo_path: repo_path@,
                file_name: file_name@,
            },
            Request::LatestByExtension { repo_path, extension } => RequestView::LatestByExtension {
                repo_path: repo_path@,
                extension: extension@,
            },
            Request::CachedJson { repo_path } => RequestView::CachedJson { repo_path: repo_path@ },
            Request::Page { repo_path } => RequestView::Page { repo_path: repo_path@ },
        }
    }
}

/// What a path asks for. A last segment that begins with `latest` names an
/// asset by its stable name, and what precedes the segment names the
/// repository. Else a path that ends in `/.json` asks for the stored
/// releases of the repository named by what precedes every such ending.
/// Any other path names a repository and asks for its page.
pub open spec fn route_of(path: Seq<char>) -> RequestView {
    let asset = match last_index_of(path, '/') {
        Some(p) => starts_with(path.skip(p + 1), "latest"@),
        None => false,
    };
    if asset {
        let p = last_index_of(path, '/')->0;
        RequestView::LatestAsset { repo_path: path.take(p), file_name: path.skip(p + 1) }
    } else if ends_with(path, "/.json"@) {
        RequestView::CachedJson { repo_path: without_trailing(path, "/.json"@) }
    } else {
        RequestView::Page { repo_path: path }
    }
}

/// What a path asks for where assets are asked for by extension. A path
/// that holds `/latest.` asks for the asset with the extension that follows
/// the last `/latest.`, and what precedes it names the repository. Else a
/// path that ends in `/cache` asks for the stored releases. Any other path
/// asks for the page.
pub open spec fn extension_route_of(path: Seq<char>) -> RequestView {
    match last_occurrence(path, "/latest."@) {
        Some(p) => RequestView::LatestByExtension {
            repo_path: path.take(p),
            extension: path.skip(p + "/latest."@.len()),
        },
        None => if ends_with(path, "/cache"@) {
            RequestView::CachedJson { repo_path: without_trailing(path, "/cache"@) }
        } else {
            RequestView::Page { repo_path: path }
        },
    }
}

/// Tells what a request path asks for, where assets are asked for by their
/// stable names.
pub fn parse_request(path: &str) -> (r: Request)
    ensures
        r@ == route_of(path@),
{
    let chars = str_chars(path);
    match last_position(&chars, '/') {
        Some(p) => {
            assert(p < chars.len()) by {
                lemma_last_index_of(chars@, '/');
            }
            let last_segment = sub_chars(&chars, p + 1, chars.len());
            if chars_start_with(&last_segment, &str_chars("latest")) {
                let repo_part = sub_chars(&chars, 0, p);
                return Request::LatestAsset {
                    repo_path: chars_to_string(&repo_part),
                    file_name: chars_to_string(&last_segment),
                };
            }
        },
        None => {},
    }
    let ending = str_chars("/.json");
    if chars_end_with(&chars, &ending) {
        Request::CachedJson { repo_path: chars_to_string(&strip_trailing(&chars, &ending)) }
    } else {
        Request::Page { repo_path: String::from_str(path) }
    }
}

/// Tells what a request path asks for, where assets are asked for by
/// extension.
pub fn parse_extension_request(path: &str) -> (r: Request)
    ensures
        r@ == extension_route_of(path@),
{
    let chars = str_chars(path);
    let marker = str_chars("/latest.");
    match last_match(&chars, &marker) {
        Some(p) => {
            let extension = sub_chars(&chars, p + marker.len(), chars.len());
            let repo_part = sub_chars(&chars, 0, p);
            Request::LatestByExtension {
                repo_path: chars_to_string(&repo_part),
                extension: chars_to_string(&extension),
            }
        },
        None => {
            let ending = str_chars("/cache");
            if chars_end_with(&chars, &ending) {
                Request::CachedJson { repo_path: chars_to_string(&strip_trailing(&chars, &ending)) }
            } else {
                Request::Page { repo_path: String::from_str(path) }
            }
        },
    }
}

/// The assets of the newest release: those of the first release of the
/// list, which comes newest first.
pub open spec fn latest_asset_names(releases: Seq<Release>) -> Seq<Seq<char>> {
    if releases.len() == 0 {
        Seq::<Seq<char>>::empty()
    } else {
        Seq::new(releases[0].assets@.len(), |i: int| releases[0].assets@[i].name@)
    }
}

/// The first position at `from` or later whose name has the stable name
/// `file_name`.
pub open spec fn first_with_stable_name(names: Seq<Seq<char>>, file_name: Seq<char>, from: int)
    -> Option<int>
    decreases names.len() - from,
{
    if from < 0 || from >= names.len() {
        None
    } else if spec_rename_to_latest(names[from]) == file_name {
        Some(from)
    } else {
        first_with_stable_name(names, file_name, from + 1)
    }
}

/// The first position at `from` or later whose name has the extension
/// `extension`.
pub open spec fn first_with_extension(names: Seq<Seq<char>>, extension: Seq<char>, from: int)
    -> Option<int>
    decreases names.len() - from,
{
    if from < 0 || from >= names.len() {
        None
    } else if spec_extract_extension(names[from]) == extension {
        Some(from)
    } else {
        first_with_extension(names, extension, from + 1)
    }
}

/// Finds the asset that a stable name stands for: the first asset of the
/// newest release whose name, renamed, is `file_name`. The result is the
/// asset's position among the assets of the first release.
pub fn find_latest_asset(releases: &Vec<Release>, file_name: &str) -> (r: Option<usize>)
    ensures
        match r {
            Some(i) => first_with_stable_name(latest_asset_names(releases@), file_name@, 0)
                == Some(i as int) && releases.len() > 0 && i < releases[0].assets.len(),
            None => first_with_stable_name(latest_asset_names(releases@), file_name@, 0)
                is None,
        },
{
    if releases.len() == 0 {
        return None;
    }
    let wanted = String::from_str(file_name);
    let assets = &releases[0].assets;
    let ghost names = latest_asset_names(releases@);
    let mut i: usize = 0;
    while i < assets.len()
        invariant
            i <= assets.len(),
            releases.len() > 0,
            assets == &releases[0].assets,
            names == latest_asset_names(releases@),
            wanted@ == file_name@,
            first_with_stable_name(names, file_name@, 0) == first_with_stable_name(
                names,
                file_name@,
                i as int,
            ),
        decreases assets.len() - i,
    {
        assert(names[i as int] == assets@[i as int].name@);
        if rename_to_latest(assets[i].name.as_str()) == wanted {
            return Some(i);
        }
        i += 1;
    }
    None
}

/// Finds the asset that an extension stands for: the first asset of the
/// newest release whose extension is `extension`. The result is the asset's
/// position among the assets of the first release.
pub fn find_asset_by_extension(releases: &Vec<Release>, extension: &str) -> (r: Option<usize>)
    ensures
        match r {
            Some(i) => first_with_extension(latest_asset_names(releases@), extension@, 0) == Some(
                i as int,
            ) && releases.len() > 0 && i < releases[0].assets.len(),
            None => first_with_extension(latest_asset_names(releases@), extension@, 0) is None,
        },
{
    if releases.len() == 0 {
        return None;
    }
    let wanted = String::from_str(extension);
    let assets = &releases[0].assets;
    let ghost names = latest_asset_names(releases@);
    let mut i: usize = 0;
    while i < assets.len()
        invariant
            i <= assets.len(),
            releases.len() > 0,
            assets == &releases[0].assets,
            names == latest_asset_names(releases@),
            wanted@ == extension@,
            first_with_extension(names, extension@, 0) == first_with_extension(
                names,
                extension@,
                i as int,
            ),
        decreases assets.len() - i,
    {
        assert(names[i as int] == assets@[i as int].name@);
        if extract_extension(assets[i].name.as_str()) == wanted {
            return Some(i);
        }
        i += 1;
    }
    None
}

} // verus!
