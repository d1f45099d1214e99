//! The stable addresses under which the assets of the newest release are
//! offered.

use crate::asset_name::{
    extract_extension, rename_to_latest, spec_extract_extension, spec_rename_to_latest,
};
use crate::provider::{cut_at_slash, split_at_slash};
use crate::text::{chars_equal, chars_to_string, str_chars};
use vstd::prelude::*;
use vstd::string::StringExecFns;

verus! {

/// A text with every pair of slashes, found from the left, made one slash.
pub open spec fn without_double_slashes(s: Seq<char>) -> Seq<char>
    decreases s.len(),
{
    if s.len() < 2 {
        s
    } else if s[0] == '/' && s[1] == '/' {
        seq!['/'] + without_double_slashes(s.skip(2))
    } else {
        seq![s[0]] + without_double_slashes(s.skip(1))
    }
}

/// How a route names the repository with the cache key `repo_path`. The
/// routes `github` and `gitlab` leave out the host, which is what precedes
/// the first slash; the route `cgit` writes the pair of slashes that stands
/// for the missing owner as one; every other route uses the key as it is.
pub open spec fn route_path_of(route_prefix: Seq<char>, repo_path: Seq<char>) -> Seq<char> {
    if route_prefix == "github"@ || route_prefix == "gitlab"@ {
        match cut_at_slash(repo_path) {
            Some((_, rest)) => rest,
            None => repo_path,
        }
    } else if route_prefix == "cgit"@ {
        without_double_slashes(repo_path)
    } else {
        repo_path
    }
}

/// The stable address of an asset on a route: the route, the repository as
/// the route names it, and the asset's stable name.
pub open spec fn latest_url_of(
    route_prefix: Seq<char>,
    repo_path: Seq<char>,
    asset_name: Seq<char>,
) -> Seq<char> {
    "/"@ + route_prefix + "/"@ + route_path_of(route_prefix, repo_path) + "/"@
        + spec_rename_to_latest(asset_name)
}

/// The stable address of an asset on the route that asks by extension.
pub open spec fn extension_url_of(repo_path: Seq<char>, asset_name: Seq<char>) -> Seq<char> {
    "/repo/"@ + repo_path + "/latest."@ + spec_extract_extension(asset_name)
}

/// A text with every pair of slashes, found from the left, made one slash.
pub fn collapse_double_slashes(s: &Vec<char>) -> (r: Vec<char>)
    ensures
        r@ == without_double_slashes(s@),
{
    let mut out: Vec<char> = Vec::new();
    let mut i: usize = 0;
    assert(s@.skip(0) == s@);
    assert(out@ + without_double_slashes(s@.skip(0)) =~= without_double_slashes(s@));
    while i < s.len()
        invariant
            i <= s.len(),
            out@ + without_double_slashes(s@.skip(i as int)) == without_double_slashes(s@),
        decreases s.len() - i,
    {
        let ghost rest = s@.skip(i as int);
        let ghost before = out@;
        assert(rest[0] == s@[i as int]);
        if i + 1 < s.len() && s[i] == '/' && s[i + 1] == '/' {
            assert(rest[1] == s@[i + 1]);
            assert(rest.skip(2) == s@.skip(i + 2));
            out.push('/');
            assert(out@ + without_double_slashes(s@.skip(i + 2)) =~= before + (seq!['/']
                + without_double_slashes(rest.skip(2))));
            i += 2;
        } else {
            assert(rest.skip(1) == s@.skip(i + 1));
            out.push(s[i]);
            proof {
                if rest.len() < 2 {
                    assert(rest.skip(1).len() == 0);
                    assert(without_double_slashes(rest.skip(1)) =~= Seq::<char>::empty());
                    assert(rest =~= seq![rest[0]]);
                }
            }
            assert(out@ + without_double_slashes(s@.skip(i + 1)) =~= before
                + without_double_slashes(rest));
            i += 1;
        }
    }
    assert(without_double_slashes(s@.skip(s@.len() as int)) =~= Seq::<char>::empty());
    assert(out@ + Seq::<char>::empty() =~= out@);
    out
}

/// How a route names a repository.
pub fn route_path(route_prefix: &str, repo_path: &str) -> (r: String)
    ensures
        r@ == route_path_of(route_prefix@, repo_path@),
{
    let route = str_chars(route_prefix);
    let path = str_chars(repo_path);
    if chars_equal(&route, &str_chars("github")) || chars_equal(&route, &str_chars("gitlab")) {
        match split_at_slash(&path) {
            Some((_, rest)) => chars_to_string(&rest),
            None => String::from_str(repo_path),
        }
    } else if chars_equal(&route, &str_chars("cgit")) {
        chars_to_string(&collapse_double_slashes(&path))
    } else {
        String::from_str(repo_path)
    }
}

/// The stable address of an asset on a route by family of hosts.
pub fn latest_url(route_prefix: &str, repo_path: &str, asset_name: &str) -> (url: String)
    ensures
        url@ == latest_url_of(route_prefix@, repo_path@, asset_name@),
{
    let mut url = String::from_str("/");
    url.append(route_prefix);
    url.append("/");
    url.append(route_path(route_prefix, repo_path).as_str());
    url.append("/");
    url.append(rename_to_latest(asset_name).as_str());
    url
}

/// The stable address of an asset on the route that asks by extension.
pub fn extension_url(repo_path: &str, asset_name: &str) -> (url: String)
    ensures
        url@ == extension_url_of(repo_path@, asset_name@),
{
    let mut url = String::from_str("/repo/");
    url.append(repo_path);
    url.append("/latest.");
    url.append(extract_extension(asset_name).as_str());
    url
}

} // verus!
