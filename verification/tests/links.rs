use checkup::links::{collapse_double_slashes, extension_url, latest_url, route_path};

fn std_latest_url(route_prefix: &str, repo_path: &str, latest_name: &str) -> String {
    let path_for_url = if route_prefix == "github" || route_prefix == "gitlab" {
        repo_path.splitn(2, '/').nth(1).unwrap_or(repo_path).to_string()
    } else if route_prefix == "cgit" {
        repo_path.replace("//", "/")
    } else {
        repo_path.to_string()
    };
    format!("/{}/{}/{}", route_prefix, path_for_url, latest_name)
}

#[test]
fn github_and_gitlab_routes_leave_out_the_host() {
    assert_eq!(route_path("github", "github.com/sharkdp/bat"), "sharkdp/bat");
    assert_eq!(route_path("gitlab", "gitlab.com/group/sub/project"), "group/sub/project");
    assert_eq!(route_path("github", "nohost"), "nohost");
    assert_eq!(route_path("github", "/x"), "x");
    assert_eq!(route_path("github", ""), "");
}

#[test]
fn cgit_route_writes_the_missing_owner_as_one_slash() {
    assert_eq!(
        route_path("cgit", "git.kernel.org//pub/scm/linux.git"),
        "git.kernel.org/pub/scm/linux.git"
    );
    assert_eq!(route_path("cgit", "a///b////c"), "a//b//c");
    assert_eq!(route_path("cgit", "a/b"), "a/b");
    assert_eq!(route_path("cgit", "//"), "/");
    assert_eq!(route_path("cgit", ""), "");
}

#[test]
fn other_routes_use_the_key_as_it_is() {
    assert_eq!(route_path("forgejo", "codeberg.org/forgejo/forgejo"), "codeberg.org/forgejo/forgejo");
    assert_eq!(route_path("forgejo", "a//b"), "a//b");
    assert_eq!(route_path("", "a//b"), "a//b");
    assert_eq!(route_path("GitHub", "github.com/a/b"), "github.com/a/b");
}

#[test]
fn pairs_of_slashes_become_one() {
    for text in ["", "/", "//", "///", "////", "a//", "//a", "a//b", "a/b//c///d////e", "ä//ö"] {
        let chars: Vec<char> = text.chars().collect();
        let out: String = collapse_double_slashes(&chars).into_iter().collect();
        assert_eq!(out, text.replace("//", "/"), "for {:?}", text);
    }
}

#[test]
fn stable_address_of_an_asset() {
    assert_eq!(
        latest_url("github", "github.com/sharkdp/bat", "bat-v0.26.1-x86_64-unknown-linux-gnu.tar.gz"),
        "/github/sharkdp/bat/latest-x86_64-unknown-linux-gnu.tar.gz"
    );
    assert_eq!(
        latest_url("forgejo", "codeberg.org/forgejo/forgejo", "forgejo-14.0.2-linux-amd64.xz"),
        "/forgejo/codeberg.org/forgejo/forgejo/latest-linux-amd64.xz"
    );
    assert_eq!(
        latest_url("cgit", "git.kernel.org//pub/scm/linux.git", "linux-6.19.2.tar.gz"),
        "/cgit/git.kernel.org/pub/scm/linux.git/latest.tar.gz"
    );
}

#[test]
fn stable_address_agrees_with_the_standard_library() {
    for route in ["github", "gitlab", "forgejo", "cgit", "repo", ""] {
        for path in ["", "a", "a/b", "a/b/c", "a//b", "//", "github.com/x/y", "h///p"] {
            assert_eq!(
                latest_url(route, path, "tool_1.2_amd64.deb"),
                std_latest_url(route, path, "latest_amd64.deb")
            );
        }
    }
}

#[test]
fn stable_address_by_extension() {
    assert_eq!(
        extension_url("github.com/sharkdp/bat", "v0.26.1.tar.gz"),
        "/repo/github.com/sharkdp/bat/latest.tar.gz"
    );
    assert_eq!(
        extension_url("github.com/a/b", "grab-linux-x86_64"),
        "/repo/github.com/a/b/latest.grab-linux-x86_64"
    );
    assert_eq!(extension_url("", "x.zip"), "/repo//latest.zip");
}
