use checkup::model::{AppError, Asset, Release, RepoPath};
use checkup::provider::cgit::{
    convert_row, parse_cgit_path, releases_from_rows, scrape_releases, tags_url, zip_rows, TagRow,
};
use checkup::provider::forgejo::{parse_forgejo_path, ForgejoAsset, ForgejoRelease};
use checkup::provider::github::{parse_github_path, GitHubAsset, GitHubRelease};
use checkup::provider::gitlab::{
    encode, parse_gitlab_path, GitLabAssets, GitLabLink, GitLabLinks, GitLabRelease, GitLabSource,
};
use checkup::provider::{cgit, forgejo, github, gitlab, Provider, USER_AGENT};
use checkup::time::Timestamp;

fn key(host: &str, owner: &str, repo: &str) -> RepoPath {
    RepoPath { host: host.to_string(), owner: owner.to_string(), repo: repo.to_string() }
}

fn refusal(message: &str) -> Result<RepoPath, AppError> {
    Err(AppError::InvalidRepoPath(message.to_string()))
}

fn archive(name: &str, url: &str, media: &str) -> Asset {
    Asset {
        name: name.to_string(),
        url: url.to_string(),
        content_type: Some(media.to_string()),
        size: 0,
        download_count: 0,
    }
}

#[test]
fn user_agent_names_the_proxy() {
    assert_eq!(USER_AGENT, "checkup/0.1.0");
}

#[test]
fn github_address_and_messages() {
    assert_eq!(
        github::releases_url("sharkdp", "bat"),
        "https://api.github.com/repos/sharkdp/bat/releases"
    );
    assert_eq!(
        github::status_error("404 Not Found"),
        "GitHub API returned status: 404 Not Found"
    );
    assert_eq!(github::ACCEPT, "application/vnd.github.v3+json");
}

#[test]
fn github_path_is_owner_and_repository() {
    assert_eq!(parse_github_path("sharkdp/bat"), Ok(key("github.com", "sharkdp", "bat")));
    assert_eq!(parse_github_path("a/b/c"), Ok(key("github.com", "a", "b/c")));
    assert_eq!(parse_github_path("/"), Ok(key("github.com", "", "")));
    assert_eq!(parse_github_path("a/"), Ok(key("github.com", "a", "")));
    assert_eq!(
        parse_github_path("bat"),
        refusal("Invalid path format. Use: /github/{owner}/{repo}")
    );
    assert_eq!(
        parse_github_path(""),
        refusal("Invalid path format. Use: /github/{owner}/{repo}")
    );
}

#[test]
fn github_release_keeps_files_and_adds_source_archives() {
    let listed = GitHubRelease {
        tag_name: "v0.26.1".to_string(),
        name: Some("bat 0.26.1".to_string()),
        published_at: Timestamp::new(1_767_571_200, 0),
        html_url: "https://github.com/sharkdp/bat/releases/tag/v0.26.1".to_string(),
        body: Some("notes".to_string()),
        prerelease: true,
        draft: false,
        assets: vec![
            GitHubAsset {
                name: "bat_0.26.1_amd64.deb".to_string(),
                browser_download_url: "https://github.com/d/1".to_string(),
                content_type: Some("application/vnd.debian.binary-package".to_string()),
                size: 2_000_000,
                download_count: 17,
            },
            GitHubAsset {
                name: "bat.zip".to_string(),
                browser_download_url: "https://github.com/d/2".to_string(),
                content_type: None,
                size: 0,
                download_count: 0,
            },
        ],
        tarball_url: Some("https://api.github.com/t".to_string()),
        zipball_url: Some("https://api.github.com/z".to_string()),
    };
    let expected = Release {
        tag_name: "v0.26.1".to_string(),
        name: Some("bat 0.26.1".to_string()),
        published_at: Timestamp::new(1_767_571_200, 0),
        html_url: "https://github.com/sharkdp/bat/releases/tag/v0.26.1".to_string(),
        body: Some("notes".to_string()),
        prerelease: true,
        draft: false,
        assets: vec![
            Asset {
                name: "bat_0.26.1_amd64.deb".to_string(),
                url: "https://github.com/d/1".to_string(),
                content_type: Some("application/vnd.debian.binary-package".to_string()),
                size: 2_000_000,
                download_count: 17,
            },
            Asset {
                name: "bat.zip".to_string(),
                url: "https://github.com/d/2".to_string(),
                content_type: None,
                size: 0,
                download_count: 0,
            },
            archive("v0.26.1.tar.gz", "https://api.github.com/t", "application/gzip"),
            archive("v0.26.1.zip", "https://api.github.com/z", "application/zip"),
        ],
        source_tarball: None,
        source_zipball: None,
    };
    assert_eq!(github::convert_release(&listed), expected);
    assert_eq!(github::convert_releases(&vec![listed.clone(), listed]), vec![expected.clone(), expected]);
}

#[test]
fn github_release_without_archives_or_files() {
    let listed = GitHubRelease {
        tag_name: "t".to_string(),
        name: None,
        published_at: Timestamp::new(5, 6),
        html_url: "u".to_string(),
        body: None,
        prerelease: false,
        draft: true,
        assets: vec![],
        tarball_url: None,
        zipball_url: Some("z".to_string()),
    };
    let out = github::convert_release(&listed);
    assert_eq!(out.name, None);
    assert_eq!(out.body, None);
    assert!(out.draft);
    assert_eq!(out.assets, vec![archive("t.zip", "z", "application/zip")]);
    assert_eq!(github::convert_releases(&vec![]), vec![]);
}

#[test]
fn forgejo_address_and_messages() {
    assert_eq!(
        forgejo::releases_url("codeberg.org", "forgejo", "forgejo"),
        "https://codeberg.org/api/v1/repos/forgejo/forgejo/releases"
    );
    assert_eq!(
        forgejo::status_error("codeberg.org", "502 Bad Gateway"),
        "Forgejo API (codeberg.org) returned status: 502 Bad Gateway"
    );
    assert_eq!(forgejo::ACCEPT, "application/json");
}

#[test]
fn forgejo_path_is_host_owner_and_repository() {
    assert_eq!(
        parse_forgejo_path("codeberg.org/forgejo/forgejo"),
        Ok(key("codeberg.org", "forgejo", "forgejo"))
    );
    assert_eq!(parse_forgejo_path("h/o/r/more"), Ok(key("h", "o", "r/more")));
    assert_eq!(parse_forgejo_path("//"), Ok(key("", "", "")));
    assert_eq!(parse_forgejo_path("h/o"), refusal("Invalid path format"));
    assert_eq!(parse_forgejo_path("h"), refusal("Invalid path format"));
    assert_eq!(parse_forgejo_path(""), refusal("Invalid path format"));
}

#[test]
fn forgejo_release_fills_missing_counts_with_zero() {
    let listed = ForgejoRelease {
        tag_name: "v14.0.2".to_string(),
        name: "14.0.2".to_string(),
        published_at: Timestamp::new(9, 0),
        html_url: "https://codeberg.org/forgejo/forgejo/releases/tag/v14.0.2".to_string(),
        body: String::new(),
        prerelease: false,
        draft: false,
        assets: vec![
            ForgejoAsset {
                name: "forgejo-14.0.2-linux-amd64".to_string(),
                browser_download_url: "https://codeberg.org/a".to_string(),
                size: Some(100),
                download_count: None,
            },
            ForgejoAsset {
                name: "forgejo-14.0.2-linux-amd64.xz".to_string(),
                browser_download_url: "https://codeberg.org/b".to_string(),
                size: None,
                download_count: Some(3),
            },
        ],
        tarball_url: Some("https://codeberg.org/t".to_string()),
        zipball_url: None,
    };
    let out = forgejo::convert_release(&listed);
    assert_eq!(out.name, Some("14.0.2".to_string()));
    assert_eq!(out.body, Some(String::new()));
    assert_eq!(
        out.assets,
        vec![
            Asset {
                name: "forgejo-14.0.2-linux-amd64".to_string(),
                url: "https://codeberg.org/a".to_string(),
                content_type: None,
                size: 100,
                download_count: 0,
            },
            Asset {
                name: "forgejo-14.0.2-linux-amd64.xz".to_string(),
                url: "https://codeberg.org/b".to_string(),
                content_type: None,
                size: 0,
                download_count: 3,
            },
            archive("v14.0.2.tar.gz", "https://codeberg.org/t", "application/gzip"),
        ]
    );
    assert_eq!(forgejo::convert_releases(&vec![listed]).len(), 1);
}

#[test]
fn form_encoding_of_texts() {
    assert_eq!(encode("group/project"), "group%2Fproject");
    assert_eq!(encode("a b"), "a+b");
    assert_eq!(encode("A-Z_a.z*09"), "A-Z_a.z*09");
    assert_eq!(encode("~!'()"), "%7E%21%27%28%29");
    assert_eq!(encode("über"), "%C3%BCber");
    assert_eq!(encode("100%"), "100%25");
    assert_eq!(encode(""), "");
    assert_eq!(encode("\u{0}\n\u{7f}"), "%00%0A%7F");
}

#[test]
fn gitlab_address_and_messages() {
    assert_eq!(
        gitlab::releases_url("gitlab-org", "gitlab"),
        "https://gitlab.com/api/v4/projects/gitlab-org%2Fgitlab/releases"
    );
    assert_eq!(
        gitlab::releases_url("group", "sub/project x"),
        "https://gitlab.com/api/v4/projects/group%2Fsub%2Fproject+x/releases"
    );
    assert_eq!(gitlab::status_error("401 Unauthorized"), "GitLab API returned status: 401 Unauthorized");
}

#[test]
fn gitlab_path_is_owner_and_repository() {
    assert_eq!(parse_gitlab_path("gitlab-org/gitlab"), Ok(key("gitlab.com", "gitlab-org", "gitlab")));
    assert_eq!(parse_gitlab_path("g/sub/p"), Ok(key("gitlab.com", "g", "sub/p")));
    assert_eq!(
        parse_gitlab_path("gitlab"),
        refusal("Invalid path format. Use: /gitlab/{owner}/{repo}")
    );
}

#[test]
fn gitlab_release_lists_sources_then_links() {
    let listed = GitLabRelease {
        tag_name: "v1.0".to_string(),
        name: "One".to_string(),
        released_at: Timestamp::new(11, 12),
        _links: GitLabLinks { self_url: "https://gitlab.com/g/p/-/releases/v1.0".to_string() },
        description: "first".to_string(),
        assets: GitLabAssets {
            sources: vec![
                GitLabSource { format: "ZIP".to_string(), url: "https://gitlab.com/s.zip".to_string() },
                GitLabSource {
                    format: "tar.GZ".to_string(),
                    url: "https://gitlab.com/s.tar.gz".to_string(),
                },
            ],
            links: vec![GitLabLink {
                name: "binary".to_string(),
                url: "https://example.org/binary".to_string(),
            }],
        },
    };
    let expected = Release {
        tag_name: "v1.0".to_string(),
        name: Some("One".to_string()),
        published_at: Timestamp::new(11, 12),
        html_url: "https://gitlab.com/g/p/-/releases/v1.0".to_string(),
        body: Some("first".to_string()),
        prerelease: false,
        draft: false,
        assets: vec![
            archive("v1.0.zip", "https://gitlab.com/s.zip", "application/zip"),
            archive("v1.0.tar.gz", "https://gitlab.com/s.tar.gz", "application/tar.gz"),
            Asset {
                name: "binary".to_string(),
                url: "https://example.org/binary".to_string(),
                content_type: None,
                size: 0,
                download_count: 0,
            },
        ],
        source_tarball: None,
        source_zipball: None,
    };
    assert_eq!(gitlab::convert_release(&listed), expected);
    assert_eq!(gitlab::convert_releases(&vec![listed]), vec![expected]);
}

#[test]
fn cgit_address_and_messages() {
    assert_eq!(
        tags_url("git.kernel.org", "pub/scm/linux/kernel/git/stable/linux.git"),
        "https://git.kernel.org/pub/scm/linux/kernel/git/stable/linux.git/refs/tags"
    );
    assert_eq!(
        cgit::status_error("git.kernel.org", "503 Service Unavailable"),
        "cgit (git.kernel.org) returned status: 503 Service Unavailable"
    );
    assert_eq!(cgit::ACCEPT, "text/html");
}

#[test]
fn cgit_path_is_host_and_repository() {
    assert_eq!(
        parse_cgit_path("git.kernel.org/pub/scm/linux.git"),
        Ok(key("git.kernel.org", "", "pub/scm/linux.git"))
    );
    assert_eq!(parse_cgit_path("h/"), Ok(key("h", "", "")));
    assert_eq!(parse_cgit_path("git.kernel.org"), refusal("Invalid path format"));
}

fn row(tag: Option<&str>, download: Option<Option<&str>>, age: Option<Option<&str>>) -> TagRow {
    TagRow {
        tag: tag.map(str::to_string),
        download: download.map(|d| d.map(str::to_string)),
        age: age.map(|a| a.map(str::to_string)),
    }
}

fn tag_release(tag: &str, at: Timestamp, file: &str, url: &str) -> Release {
    Release {
        tag_name: tag.to_string(),
        name: Some(tag.to_string()),
        published_at: at,
        html_url: format!("https://git.example.org/pub/tool.git/tag/?h={}", tag),
        body: None,
        prerelease: false,
        draft: false,
        assets: vec![archive(file, url, "application/gzip")],
        source_tarball: None,
        source_zipball: None,
    }
}

#[test]
fn row_with_tag_and_download_is_a_release() {
    let now = Timestamp::new(42, 0);
    let r = row(
        Some("  v6.19.2\n"),
        Some(Some("/pub/tool.git/snapshot/tool-6.19.2.tar.gz")),
        Some(Some("2026-02-11 12:34:56 +0100")),
    );
    assert_eq!(
        convert_row(&r, "git.example.org", "pub/tool.git", now),
        Some(tag_release(
            "v6.19.2",
            Timestamp::new(1_770_809_696, 0),
            "tool-6.19.2.tar.gz",
            "https://git.example.org/pub/tool.git/snapshot/tool-6.19.2.tar.gz"
        ))
    );
}

#[test]
fn row_date_falls_back_to_now() {
    let now = Timestamp::new(42, 7);
    for age in [None, Some(None), Some(Some("3 days ago")), Some(Some("2026-02-11 12:34:56"))] {
        let r = row(Some("v1"), Some(Some("/d/v1.tar.gz")), age);
        assert_eq!(
            convert_row(&r, "git.example.org", "pub/tool.git", now),
            Some(tag_release("v1", now, "v1.tar.gz", "https://git.example.org/d/v1.tar.gz"))
        );
    }
}

#[test]
fn row_download_may_be_a_full_address_or_a_bare_name() {
    let now = Timestamp::new(1, 0);
    let full = row(Some("v1"), Some(Some("http://mirror.example.org/x/v1.tgz")), None);
    assert_eq!(
        convert_row(&full, "git.example.org", "pub/tool.git", now),
        Some(tag_release("v1", now, "v1.tgz", "http://mirror.example.org/x/v1.tgz"))
    );
    let bare = row(Some("v1"), Some(Some("v1.tgz")), None);
    assert_eq!(
        convert_row(&bare, "git.example.org", "pub/tool.git", now),
        Some(tag_release("v1", now, "v1.tgz", "https://git.example.orgv1.tgz"))
    );
    let slash = row(Some("v1"), Some(Some("/d/")), None);
    assert_eq!(
        convert_row(&slash, "git.example.org", "pub/tool.git", now),
        Some(tag_release("v1", now, "", "https://git.example.org/d/"))
    );
}

#[test]
fn row_without_tag_or_download_is_skipped() {
    let now = Timestamp::new(1, 0);
    let rows = [
        row(None, Some(Some("/d/x.tar.gz")), None),
        row(Some("v1"), None, None),
        row(Some("v1"), Some(None), None),
        row(Some("v1"), Some(Some("")), None),
        row(Some(""), Some(Some("/d/x.tar.gz")), None),
        row(Some(" \t\n"), Some(Some("/d/x.tar.gz")), None),
        row(None, None, None),
    ];
    for r in rows {
        assert_eq!(convert_row(&r, "h", "p", now), None, "for {:?}", r);
    }
}

#[test]
fn first_row_is_the_heading() {
    let now = Timestamp::new(1, 0);
    let good = |tag: &str| row(Some(tag), Some(Some("/d/a.tar.gz")), None);
    let rows = vec![good("heading"), good("v2"), row(Some("skipped"), None, None), good("v1")];
    let out = releases_from_rows(&rows, "h", "p", now);
    let tags: Vec<&str> = out.iter().map(|r| r.tag_name.as_str()).collect();
    assert_eq!(tags, vec!["v2", "v1"]);
    assert_eq!(releases_from_rows(&vec![], "h", "p", now), vec![]);
    assert_eq!(releases_from_rows(&vec![good("only")], "h", "p", now), vec![]);
}

#[test]
fn findings_are_put_together_row_by_row() {
    let rows = zip_rows(
        vec![Some("a".to_string()), None],
        vec![Some(Some("x".to_string())), Some(None)],
        vec![None, Some(Some("t".to_string()))],
    );
    assert_eq!(
        rows,
        Some(vec![row(Some("a"), Some(Some("x")), None), row(None, Some(None), Some(Some("t")))])
    );
    assert_eq!(zip_rows(vec![], vec![], vec![]), Some(vec![]));
    assert_eq!(zip_rows(vec![None], vec![], vec![None]), None);
    assert_eq!(zip_rows(vec![None], vec![None], vec![]), None);
}

const TAGS_PAGE: &str = r#"<!DOCTYPE html>
<html><head><title>tool.git - a tool</title></head>
<body>
<table class='tabs'><tr><td><a href='/pub/tool.git/refs/'>refs</a></td><td><a href='/x'>x</a></td></tr></table>
<div class='content'>
<table class='list nowrap'>
<tr class='nohover'><th class='left'>Tag</th><th class='left'>Download</th><th class='left'>Author</th><th class='left' colspan='2'>Age</th></tr>
<tr><td><a href='/pub/tool.git/tag/?h=v6.19.2'> v6.19.2 </a></td><td><a href='/pub/tool.git/snapshot/tool-6.19.2.tar.gz'>tool-6.19.2.tar.gz</a></td><td>A. Author</td><td colspan='2'><span class='age-days' title='2026-02-11 12:34:56 +0100'>3 days</span></td></tr>
<tr><td><a href='/pub/tool.git/tag/?h=v6.19.1'>v6.<b>19</b>.1</a></td><td><a href='https://mirror.example.org/tool-6.19.1.tar.gz'>tool-6.19.1.tar.gz</a></td><td>A. Author</td><td></td><td><span title='2026-01-05 00:00:00 +0000'>5 weeks</span></td></tr>
<tr><td><a href='/pub/tool.git/tag/?h=nodownload'>nodownload</a></td><td>none</td><td>A. Author</td><td colspan='2'><span title='2026-01-05 00:00:00 +0000'>5 weeks</span></td></tr>
<tr><td><a href='/pub/tool.git/tag/?h=nohref'>nohref</a></td><td><a name='x'>tool.tar.gz</a></td><td>A. Author</td><td colspan='2'></td></tr>
<tr><td><a href='/pub/tool.git/tag/?h=v6.18'>v6.18</a></td><td><a href='/pub/tool.git/snapshot/tool-6.18.tar.gz'>tool-6.18.tar.gz</a></td><td>A. Author</td><td colspan='2'><span>long ago</span></td></tr>
</table>
</div>
</body></html>"#;

#[test]
fn releases_are_read_off_a_page_of_tags() {
    let now = Timestamp::new(1_800_000_000, 5);
    let out = scrape_releases(TAGS_PAGE, "git.example.org", "pub/tool.git", now);
    assert_eq!(
        out,
        Some(vec![
            tag_release(
                "v6.19.2",
                Timestamp::new(1_770_809_696, 0),
                "tool-6.19.2.tar.gz",
                "https://git.example.org/pub/tool.git/snapshot/tool-6.19.2.tar.gz"
            ),
            tag_release(
                "v6.19.1",
                Timestamp::new(1_767_571_200, 0),
                "tool-6.19.1.tar.gz",
                "https://mirror.example.org/tool-6.19.1.tar.gz"
            ),
            tag_release(
                "v6.18",
                now,
                "tool-6.18.tar.gz",
                "https://git.example.org/pub/tool.git/snapshot/tool-6.18.tar.gz"
            ),
        ])
    );
}

#[test]
fn page_without_a_table_of_tags_has_no_releases() {
    let now = Timestamp::new(0, 0);
    assert_eq!(scrape_releases("", "h", "p", now), Some(vec![]));
    assert_eq!(scrape_releases("<p>Not found</p>", "h", "p", now), Some(vec![]));
    assert_eq!(
        scrape_releases("<table><tr><td><a href='/a'>v1</a></td><td><a href='/b'>b</a></td></tr></table>", "h", "p", now),
        Some(vec![])
    );
}

#[test]
fn routes_of_the_families() {
    assert_eq!(Provider::GitHub.route_prefix(), "github");
    assert_eq!(Provider::GitLab.route_prefix(), "gitlab");
    assert_eq!(Provider::Forgejo.route_prefix(), "forgejo");
    assert_eq!(Provider::Cgit.route_prefix(), "cgit");
}

#[test]
fn each_family_reads_its_own_paths() {
    assert_eq!(Provider::GitHub.parse_path("a/b"), Ok(key("github.com", "a", "b")));
    assert_eq!(Provider::GitLab.parse_path("a/b"), Ok(key("gitlab.com", "a", "b")));
    assert_eq!(Provider::Forgejo.parse_path("h/a/b"), Ok(key("h", "a", "b")));
    assert_eq!(Provider::Cgit.parse_path("h/a/b"), Ok(key("h", "", "a/b")));
    assert_eq!(
        Provider::GitHub.parse_path("a"),
        refusal("Invalid path format. Use: /github/{owner}/{repo}")
    );
    assert_eq!(
        Provider::GitLab.parse_path("a"),
        refusal("Invalid path format. Use: /gitlab/{owner}/{repo}")
    );
    assert_eq!(Provider::Forgejo.parse_path("h/a"), refusal("Invalid path format"));
    assert_eq!(Provider::Cgit.parse_path("h"), refusal("Invalid path format"));
}

#[test]
fn family_of_a_host() {
    assert_eq!(Provider::for_host(&key("github.com", "a", "b")), Ok(Provider::GitHub));
    assert_eq!(Provider::for_host(&key("gitlab.com", "a", "b")), Ok(Provider::GitLab));
    assert_eq!(
        Provider::for_host(&key("codeberg.org", "forgejo", "forgejo")),
        Err(AppError::InvalidRepoPath(
            "Unsupported host: codeberg.org. Use /forgejo/codeberg.org/forgejo/forgejo for Forgejo-based hosts or /cgit/codeberg.org/forgejo/forgejo for cgit hosts."
                .to_string()
        ))
    );
    assert!(Provider::for_host(&key("GitHub.com", "a", "b")).is_err());
    assert!(Provider::for_host(&key("", "a", "b")).is_err());
}
