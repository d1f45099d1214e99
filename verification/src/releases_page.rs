//! The page that lists the releases of a repository: the assets of the
//! newest release with their stable addresses, then every release with its
//! assets and the beginning of its notes. Texts are put in as they are,
//! without escaping.

use crate::links::{extension_url, extension_url_of, latest_url, latest_url_of};
use crate::model::{releases_view, Asset, AssetView, Release, ReleaseView};
use crate::size::{decimal, decimal_string, format_size, size_text};
use crate::text::{
    chars_end_with, chars_equal, ends_with, first_lines, first_lines_of, join_strings, join_with,
    last_match, last_occurrence, str_chars, texts_of,
};
use crate::time::{format_with, formatted_text, Timestamp};
use vstd::prelude::*;
use vstd::string::StringExecFns;

verus! {

/// The markup of the row of an asset in the box of the newest release, first part.
pub const LATEST_ROW_0: &'static str = r#"<div style="padding: 10px; margin: 6px 0; color: #777; background: #fff; border: 1px solid #28a745; border-radius: 6px; display: flex; justify-content: space-between; align-items: center;">
                            <div style="display: flex; align-items: center; gap: 6px;"><span style="display: flex; flex-shrink: 0;">"#;

/// The markup of the row of an asset in the box of the newest release, second part.
pub const LATEST_ROW_1: &'static str = r#"</span> <a href=""#;

/// The markup of the row of an asset in the box of the newest release, third part.
pub const LATEST_ROW_2: &'static str = r#"" style="font-weight: 600; color: #0366d6; font-size: 1.05em;">"#;

/// The markup of the row of an asset in the box of the newest release, fourth part.
pub const LATEST_ROW_3: &'static str = r#"</a>"#;

/// The markup of the row of an asset in the box of the newest release, fifth part.
pub const LATEST_ROW_4: &'static str = r#"</div>
                            <div>
                                <a href=""#;

/// The markup of the row of an asset in the box of the newest release, sixth part.
pub const LATEST_ROW_5: &'static str = r#"" style="background: #28a745; color: white; padding: 6px 12px; border-radius: 4px; text-decoration: none; font-weight: 500; display: inline-flex; align-items: center; gap: 4px;">"#;

/// The markup of the row of an asset in the box of the newest release, seventh part.
pub const LATEST_ROW_6: &'static str = r#" Download</a>
                            </div>
                        </div>"#;

/// The markup of the box of the newest release, first part.
pub const LATEST_BOX_0: &'static str = r#"<div style="margin-bottom: 30px; padding: 20px; background: linear-gradient(135deg, #f0fff4 0%, #e6ffed 100%); border: 2px solid #28a745; border-radius: 12px;">
                    <h2 style="margin: 0 0 5px 0; color: #28a745; display: flex; align-items: center; gap: 6px; font-size: 1.2em;">"#;

/// The markup of the box of the newest release, second part.
pub const LATEST_BOX_1: &'static str = r#" Latest Release: "#;

/// The markup of the box of the newest release, third part.
pub const LATEST_BOX_2: &'static str = r#"</h2>
                    <p style="margin: 0 0 15px 0; color: #666; font-size: 0.9em;">Published: "#;

/// The markup of the box of the newest release, fourth part.
pub const LATEST_BOX_3: &'static str = r#" • "#;

/// The markup of the box of the newest release, fifth part.
pub const LATEST_BOX_4: &'static str = r#" files</p>
                    <div>
                        "#;

/// The markup of the box of the newest release, sixth part.
pub const LATEST_BOX_5: &'static str = r#"
                    </div>
                </div>"#;

/// The markup of the badge of the newest release, first part.
pub const LATEST_BADGE_0: &'static str = r#" <span style="background: #28a745; color: white; padding: 2px 8px; border-radius: 3px; font-size: 0.8em; font-weight: bold; display: inline-flex; align-items: center; gap: 4px;">"#;

/// The markup of the badge of the newest release, second part.
pub const LATEST_BADGE_1: &'static str = r#" Latest</span>"#;

/// The markup of the row of an asset in the list of a release, first part.
pub const ASSET_ROW_0: &'static str = r#"<div style="padding: 8px; color: #777; margin: 4px 0; background: #fff; border: 1px solid #e1e4e8; border-radius: 6px; display: flex; align-items: center; gap: 6px;">
                                <span style="display: flex; flex-shrink: 0;">"#;

/// The markup of the row of an asset in the list of a release, second part.
pub const ASSET_ROW_1: &'static str = r#"</span>
                                <a href=""#;

/// The markup of the row of an asset in the list of a release, third part.
pub const ASSET_ROW_2: &'static str = r#"" style="font-weight: 500; color: #0366d6;">"#;

/// The markup of the row of an asset in the list of a release, fourth part.
pub const ASSET_ROW_3: &'static str = r#"</a>"#;

/// The markup of the row of an asset in the list of a release, fifth part.
pub const ASSET_ROW_4: &'static str = r#""#;

/// The markup of the row of an asset in the list of a release, sixth part.
pub const ASSET_ROW_5: &'static str = r#"
                            </div>"#;

/// The markup of the list of a release's assets, first part.
pub const ASSETS_0: &'static str = r#"<div style="margin: 15px 0;">
                        <strong style="font-size: 1.1em; display: inline-flex; align-items: center; gap: 4px;">"#;

/// The markup of the list of a release's assets, second part.
pub const ASSETS_1: &'static str = r#" Downloads ("#;

/// The markup of the list of a release's assets, third part.
pub const ASSETS_2: &'static str = r#" files):</strong>
                        <div style="margin-top: 8px;">
                            "#;

/// The markup of the list of a release's assets, fourth part.
pub const ASSETS_3: &'static str = r#"
                        </div>
                    </div>"#;

/// The markup of the notes of a release, first part.
pub const NOTES_0: &'static str = r#"<details style="margin-top: 10px;">
                            <summary style="cursor: pointer; color: #777; font-weight: 500; display: inline-flex; align-items: center; gap: 4px;">"#;

/// The markup of the notes of a release, second part.
pub const NOTES_1: &'static str = r#" Show release notes</summary>
                            <div style="margin-top: 10px; padding: 10px; background: #f6f8fa; border-radius: 6px; white-space: pre-wrap; font-size: 0.9em;">"#;

/// The markup of the notes of a release, third part.
pub const NOTES_2: &'static str = r#"</div>
                        </details>"#;

/// The markup of the entry of a release, first part.
pub const RELEASE_0: &'static str = r#"<li style="margin-bottom: 25px; padding: 20px; background: #fff; border: 1px solid #e1e4e8; border-radius: 8px; list-style: none;">
                    <div style="display: flex; align-items: center; gap: 10px; margin-bottom: 10px;">
                        <strong style="font-size: 1.3em;"><a href=""#;

/// The markup of the entry of a release, second part.
pub const RELEASE_1: &'static str = r#"" target="_blank" style="color: #0366d6;">"#;

/// The markup of the entry of a release, third part.
pub const RELEASE_2: &'static str = r#"</a></strong>"#;

/// The markup of the entry of a release, fourth part.
pub const RELEASE_3: &'static str = r#""#;

/// The markup of the entry of a release, fifth part.
pub const RELEASE_4: &'static str = r#""#;

/// The markup of the entry of a release, sixth part.
pub const RELEASE_5: &'static str = r#"
                    </div>
                    <small style="color: #586069; display: inline-flex; align-items: center; gap: 4px;">"#;

/// The markup of the entry of a release, seventh part.
pub const RELEASE_6: &'static str = r#" Published: "#;

/// The markup of the entry of a release, eighth part.
pub const RELEASE_7: &'static str = r#"</small>
                    "#;

/// The markup of the entry of a release, ninth part.
pub const RELEASE_8: &'static str = r#"
                    "#;

/// The markup of the entry of a release, tenth part.
pub const RELEASE_9: &'static str = r#"
                </li>"#;

/// The markup of the page, first part.
pub const PAGE_0: &'static str = r#"<!DOCTYPE html>
<html>
<head>
    <title>Releases - "#;

/// The markup of the page, second part.
pub const PAGE_1: &'static str = r#"</title>
    <style>
        body { font-family: -apple-system, BlinkMacSystemFont, 'Segoe UI', Roboto, Oxygen, Ubuntu, sans-serif; max-width: 800px; margin: 0 auto; padding: 20px; }
        h1 { color: #333; }
        h2 { margin: 0; }
        ul { list-style-type: none; padding: 0; }
        li { border-bottom: 1px solid #eee; padding: 15px 0; }
        a { color: #0366d6; text-decoration: none; }
        a:hover { text-decoration: underline; }
        small { color: #666; }
        p { color: #444; margin: 5px 0; }
    </style>
</head>
<body>
    <h1>Releases for "#;

/// The markup of the page, third part.
pub const PAGE_2: &'static str = r#"</h1>
    "#;

/// The markup of the page, fourth part.
pub const PAGE_3: &'static str = r#"
    "#;

/// The markup of the page, fifth part.
pub const PAGE_4: &'static str = r#"
    <h2 style="margin-top: 30px; color: #333; display: flex; align-items: center; gap: 6px;">"#;

/// The markup of the page, sixth part.
pub const PAGE_5: &'static str = r#" All Releases</h2>
    <ul>
        "#;

/// The markup of the page, seventh part.
pub const PAGE_6: &'static str = r#"
    </ul>
</body>
</html>"#;

/// The markup of the line that tells when the entry was fetched, first part.
pub const CACHED_AT_0: &'static str = r#"<p><em>Cached at: "#;

/// The markup of the line that tells when the entry was fetched, second part.
pub const CACHED_AT_1: &'static str = r#"</em></p>"#;

/// The markup of the size of an asset, first part.
pub const SIZE_0: &'static str = r#" <span style='color: #666;'>("#;

/// The markup of the size of an asset, second part.
pub const SIZE_1: &'static str = r#")</span>"#;

/// The markup of the downloads of an asset, first part.
pub const DOWNLOADS_0: &'static str = r#" <span style='color: #28a745; display: inline-flex; align-items: center; gap: 2px;'>"#;

/// The markup of the downloads of an asset, second part.
pub const DOWNLOADS_1: &'static str = r#" "#;

/// The markup of the downloads of an asset, third part.
pub const DOWNLOADS_2: &'static str = r#"</span>"#;

/// The badge of a prerelease.
pub const PRERELEASE_BADGE: &'static str = r#" <span style="background: #f0ad4e; padding: 2px 6px; border-radius: 3px; font-size: 0.8em;">Pre-release</span>"#;

/// The badge of a draft.
pub const DRAFT_BADGE: &'static str = r#" <span style="background: #777; padding: 2px 6px; border-radius: 3px; font-size: 0.8em;">Draft</span>"#;

/// The form in which the page shows an instant.
pub const DATE_FORMAT: &'static str = "%Y-%m-%d %H:%M:%S UTC";

/// What stands between the rows of a list.
pub const LINE_BREAK: &'static str = "\n";

/// What stands between the lines of the notes.
pub const MARKUP_BREAK: &'static str = "<br>";

/// How many lines of the notes are shown.
pub const NOTE_LINES: usize = 3;

/// The route on which assets are asked for by extension.
pub const EXTENSION_ROUTE: &'static str = "repo";

/// The mark of the newest release.
pub const STAR: &'static str = "⭐";

/// The mark of a download.
pub const DOWNLOAD: &'static str = "⬇";

/// The mark of a list of assets.
pub const PACKAGE: &'static str = "📦";

/// The mark of the notes.
pub const NOTE: &'static str = "📝";

/// The mark of the list of all releases.
pub const LIST: &'static str = "📋";

/// The mark of a date.
pub const CALENDAR: &'static str = "📅";

/// The mark of a file for Windows.
pub const ICON_WINDOWS: &'static str = "🪟";

/// The mark of a package for Linux.
pub const ICON_LINUX: &'static str = "🐧";

/// The mark of a file for macOS.
pub const ICON_APPLE: &'static str = "🍎";

/// The mark of an archive.
pub const ICON_ARCHIVE: &'static str = "🗜️";

/// The mark of a Java archive.
pub const ICON_JAVA: &'static str = "☕";

/// The mark of sources.
pub const ICON_SOURCE: &'static str = "📄";

/// The mark of any other file.
pub const ICON_FILE: &'static str = "📎";

/// `pattern` stands somewhere in `s`.
pub open spec fn holds_text(s: Seq<char>, pattern: Seq<char>) -> bool {
    last_occurrence(s, pattern) is Some
}

/// The mark that goes with a file, by its name: by its ending first, then
/// by the platform or the kind that the name mentions.
pub open spec fn file_icon_of(name: Seq<char>) -> Seq<char> {
    if ends_with(name, ".exe"@) || ends_with(name, ".msi"@) {
        ICON_WINDOWS@
    } else if ends_with(name, ".deb"@) || ends_with(name, ".rpm"@) {
        ICON_LINUX@
    } else if ends_with(name, ".dmg"@) || holds_text(name, "darwin"@) || holds_text(
        name,
        "macos"@,
    ) {
        ICON_APPLE@
    } else if ends_with(name, ".AppImage"@) {
        PACKAGE@
    } else if ends_with(name, ".tar.gz"@) || ends_with(name, ".tgz"@) || ends_with(
        name,
        ".zip"@,
    ) {
        ICON_ARCHIVE@
    } else if ends_with(name, ".jar"@) {
        ICON_JAVA@
    } else if holds_text(name, "source"@) || holds_text(name, "src"@) {
        ICON_SOURCE@
    } else {
        ICON_FILE@
    }
}

/// An instant as the page shows it. An instant outside the calendar is
/// shown as nothing.
pub open spec fn date_of(t: Timestamp) -> Seq<char> {
    match formatted_text(t, DATE_FORMAT@) {
        Some(text) => text,
        None => Seq::<char>::empty(),
    }
}

/// The line that tells when the entry was fetched, if that is known.
pub open spec fn cache_info_of(cached_at: Option<Timestamp>) -> Seq<char> {
    match cached_at {
        Some(t) => CACHED_AT_0@ + date_of(t) + CACHED_AT_1@,
        None => Seq::<char>::empty(),
    }
}

/// The size of an asset in brackets, if the size is known.
pub open spec fn size_info_of(size: u64) -> Seq<char> {
    if size > 0 {
        SIZE_0@ + size_text(size) + SIZE_1@
    } else {
        Seq::<char>::empty()
    }
}

/// The downloads of an asset, if their number is known.
pub open spec fn download_info_of(count: u64) -> Seq<char> {
    if count > 0 {
        DOWNLOADS_0@ + DOWNLOAD@ + DOWNLOADS_1@ + decimal(count as nat) + DOWNLOADS_2@
    } else {
        Seq::<char>::empty()
    }
}

/// The stable address of an asset: by extension on the route that asks by
/// extension, by stable name on every other route.
pub open spec fn stable_url_of(
    route_prefix: Seq<char>,
    repo_path: Seq<char>,
    asset_name: Seq<char>,
) -> Seq<char> {
    if route_prefix == EXTENSION_ROUTE@ {
        extension_url_of(repo_path, asset_name)
    } else {
        latest_url_of(route_prefix, repo_path, asset_name)
    }
}

/// The row of an asset in the box of the newest release: its mark, its
/// name as a link to the file, its size, and the link to its stable
/// address.
pub open spec fn latest_row_of(a: AssetView, repo_path: Seq<char>, route_prefix: Seq<char>) -> Seq<
    char,
> {
    LATEST_ROW_0@ + file_icon_of(a.name) + LATEST_ROW_1@ + a.url + LATEST_ROW_2@ + a.name
        + LATEST_ROW_3@ + size_info_of(a.size) + LATEST_ROW_4@ + stable_url_of(
        route_prefix,
        repo_path,
        a.name,
    ) + LATEST_ROW_5@ + DOWNLOAD@ + LATEST_ROW_6@
}

/// The name under which a release is shown: its name, or its tag where it
/// has no name.
pub open spec fn display_name_of(r: ReleaseView) -> Seq<char> {
    match r.name {
        Some(name) => name,
        None => r.tag_name,
    }
}

/// The box of the newest release, which is the first of the list: its
/// name, its date, the number of its assets, and a row for each asset.
/// There is no box where there is no release or the newest has no assets.
pub open spec fn latest_box_of(
    releases: Seq<ReleaseView>,
    repo_path: Seq<char>,
    route_prefix: Seq<char>,
) -> Seq<char> {
    if releases.len() > 0 && releases[0].assets.len() > 0 {
        let latest = releases[0];
        let rows = Seq::new(
            latest.assets.len(),
            |i: int| latest_row_of(latest.assets[i], repo_path, route_prefix),
        );
        LATEST_BOX_0@ + STAR@ + LATEST_BOX_1@ + display_name_of(latest) + LATEST_BOX_2@ + date_of(
            latest.published_at,
        ) + LATEST_BOX_3@ + decimal(latest.assets.len()) + LATEST_BOX_4@ + join_with(
            rows,
            LINE_BREAK@,
        ) + LATEST_BOX_5@
    } else {
        Seq::<char>::empty()
    }
}

/// The row of an asset in the list of a release: its mark, its name as a
/// link to the file, its size and its downloads.
pub open spec fn asset_row_of(a: AssetView) -> Seq<char> {
    ASSET_ROW_0@ + file_icon_of(a.name) + ASSET_ROW_1@ + a.url + ASSET_ROW_2@ + a.name
        + ASSET_ROW_3@ + size_info_of(a.size) + ASSET_ROW_4@ + download_info_of(a.download_count)
        + ASSET_ROW_5@
}

/// The list of a release's assets, with their number. A release without
/// assets has no list.
pub open spec fn assets_block_of(r: ReleaseView) -> Seq<char> {
    if r.assets.len() > 0 {
        let rows = Seq::new(r.assets.len(), |i: int| asset_row_of(r.assets[i]));
        ASSETS_0@ + PACKAGE@ + ASSETS_1@ + decimal(r.assets.len()) + ASSETS_2@ + join_with(
            rows,
            LINE_BREAK@,
        ) + ASSETS_3@
    } else {
        Seq::<char>::empty()
    }
}

/// The notes of a release, folded away: their first three lines. A release
/// without notes, or with empty ones, shows none.
pub open spec fn notes_of(r: ReleaseView) -> Seq<char> {
    match r.body {
        Some(body) => if body.len() > 0 {
            NOTES_0@ + NOTE@ + NOTES_1@ + join_with(
                first_lines_of(body, NOTE_LINES as nat),
                MARKUP_BREAK@,
            ) + NOTES_2@
        } else {
            Seq::<char>::empty()
        },
        None => Seq::<char>::empty(),
    }
}

/// The badge of the newest release, which only the first of the list gets.
pub open spec fn latest_badge_of(index: int) -> Seq<char> {
    if index == 0 {
        LATEST_BADGE_0@ + STAR@ + LATEST_BADGE_1@
    } else {
        Seq::<char>::empty()
    }
}

/// One of the two badges of a release's state, if the release is in that
/// state.
pub open spec fn badge_if(shown: bool, badge: Seq<char>) -> Seq<char> {
    if shown {
        badge
    } else {
        Seq::<char>::empty()
    }
}

/// The entry of the release at position `index` of the list: its name as
/// a link, its badges, its date, its assets and its notes.
pub open spec fn release_item_of(r: ReleaseView, index: int) -> Seq<char> {
    RELEASE_0@ + r.html_url + RELEASE_1@ + display_name_of(r) + RELEASE_2@ + latest_badge_of(index)
        + RELEASE_3@ + badge_if(r.prerelease, PRERELEASE_BADGE@) + RELEASE_4@ + badge_if(
        r.draft,
        DRAFT_BADGE@,
    ) + RELEASE_5@ + CALENDAR@ + RELEASE_6@ + date_of(r.published_at) + RELEASE_7@
        + assets_block_of(r) + RELEASE_8@ + notes_of(r) + RELEASE_9@
}

/// The page of a repository's releases. `repo_path` is the repository's
/// cache key; `route_prefix` is the route on which the page is served and
/// decides the form of the stable addresses.
pub open spec fn releases_page(
    releases: Seq<ReleaseView>,
    repo_path: Seq<char>,
    route_prefix: Seq<char>,
    cached_at: Option<Timestamp>,
) -> Seq<char> {
    let items = Seq::new(releases.len(), |i: int| release_item_of(releases[i], i));
    PAGE_0@ + repo_path + PAGE_1@ + repo_path + PAGE_2@ + cache_info_of(cached_at) + PAGE_3@
        + latest_box_of(releases, repo_path, route_prefix) + PAGE_4@ + LIST@ + PAGE_5@ + join_with(
        items,
        LINE_BREAK@,
    ) + PAGE_6@
}

/// Whether `pattern` stands somewhere in `s`.
fn holds(s: &Vec<char>, pattern: &str) -> (r: bool)
    ensures
        r == holds_text(s@, pattern@),
{
    last_match(s, &str_chars(pattern)).is_some()
}

/// Whether `s` ends with `ending`.
fn ends(s: &Vec<char>, ending: &str) -> (r: bool)
    ensures
        r == ends_with(s@, ending@),
{
    chars_end_with(s, &str_chars(ending))
}

/// The mark that goes with a file, by its name.
pub fn file_icon(name: &str) -> (icon: &'static str)
    ensures
        icon@ == file_icon_of(name@),
{
    let n = str_chars(name);
    if ends(&n, ".exe") || ends(&n, ".msi") {
        ICON_WINDOWS
    } else if ends(&n, ".deb") || ends(&n, ".rpm") {
        ICON_LINUX
    } else if ends(&n, ".dmg") || holds(&n, "darwin") || holds(&n, "macos") {
        ICON_APPLE
    } else if ends(&n, ".AppImage") {
        PACKAGE
    } else if ends(&n, ".tar.gz") || ends(&n, ".tgz") || ends(&n, ".zip") {
        ICON_ARCHIVE
    } else if ends(&n, ".jar") {
        ICON_JAVA
    } else if holds(&n, "source") || holds(&n, "src") {
        ICON_SOURCE
    } else {
        ICON_FILE
    }
}

/// An instant as the page shows it.
fn date(t: Timestamp) -> (text: String)
    ensures
        text@ == date_of(t),
{
    match format_with(t, DATE_FORMAT) {
        Some(text) => text,
        None => String::new(),
    }
}

fn cache_info(cached_at: Option<Timestamp>) -> (text: String)
    ensures
        text@ == cache_info_of(cached_at),
{
    match cached_at {
        Some(t) => {
            let mut text = String::from_str(CACHED_AT_0);
            text.append(date(t).as_str());
            text.append(CACHED_AT_1);
            text
        },
        None => String::new(),
    }
}

fn size_info(size: u64) -> (text: String)
    ensures
        text@ == size_info_of(size),
{
    if size > 0 {
        let mut text = String::from_str(SIZE_0);
        text.append(format_size(size).as_str());
        text.append(SIZE_1);
        text
    } else {
        String::new()
    }
}

fn download_info(count: u64) -> (text: String)
    ensures
        text@ == download_info_of(count),
{
    if count > 0 {
        let mut text = String::from_str(DOWNLOADS_0);
        text.append(DOWNLOAD);
        text.append(DOWNLOADS_1);
        text.append(decimal_string(count).as_str());
        text.append(DOWNLOADS_2);
        text
    } else {
        String::new()
    }
}

/// The stable address of an asset on a route.
pub fn stable_url(route_prefix: &str, repo_path: &str, asset_name: &str) -> (url: String)
    ensures
        url@ == stable_url_of(route_prefix@, repo_path@, asset_name@),
{
    if chars_equal(&str_chars(route_prefix), &str_chars(EXTENSION_ROUTE)) {
        extension_url(repo_path, asset_name)
    } else {
        latest_url(route_prefix, repo_path, asset_name)
    }
}

fn latest_row(a: &Asset, repo_path: &str, route_prefix: &str) -> (row: String)
    ensures
        row@ == latest_row_of(a@, repo_path@, route_prefix@),
{
    let mut row = String::from_str(LATEST_ROW_0);
    row.append(file_icon(a.name.as_str()));
    row.append(LATEST_ROW_1);
    row.append(a.url.as_str());
    row.append(LATEST_ROW_2);
    row.append(a.name.as_str());
    row.append(LATEST_ROW_3);
    row.append(size_info(a.size).as_str());
    row.append(LATEST_ROW_4);
    row.append(stable_url(route_prefix, repo_path, a.name.as_str()).as_str());
    row.append(LATEST_ROW_5);
    row.append(DOWNLOAD);
    row.append(LATEST_ROW_6);
    row
}

fn display_name(r: &Release) -> (name: &String)
    ensures
        name@ == display_name_of(r@),
{
    match &r.name {
        Some(name) => name,
        None => &r.tag_name,
    }
}

fn latest_box(releases: &Vec<Release>, repo_path: &str, route_prefix: &str) -> (text: String)
    ensures
        text@ == latest_box_of(releases_view(releases@), repo_path@, route_prefix@),
{
    if releases.len() == 0 || releases[0].assets.len() == 0 {
        return String::new();
    }
    let latest = &releases[0];
    assert(releases_view(releases@)[0] == latest@);
    let mut rows: Vec<String> = Vec::new();
    let mut i: usize = 0;
    while i < latest.assets.len()
        invariant
            i <= latest.assets.len(),
            rows.len() == i,
            forall|j: int|
                0 <= j < i ==> (#[trigger] rows@[j])@ == latest_row_of(
                    latest.assets@[j]@,
                    repo_path@,
                    route_prefix@,
                ),
        decreases latest.assets.len() - i,
    {
        rows.push(latest_row(&latest.assets[i], repo_path, route_prefix));
        i += 1;
    }
    assert(texts_of(rows@) =~= Seq::new(
        latest@.assets.len(),
        |i: int| latest_row_of(latest@.assets[i], repo_path@, route_prefix@),
    ));
    let mut text = String::from_str(LATEST_BOX_0);
    text.append(STAR);
    text.append(LATEST_BOX_1);
    text.append(display_name(latest).as_str());
    text.append(LATEST_BOX_2);
    text.append(date(latest.published_at).as_str());
    text.append(LATEST_BOX_3);
    text.append(decimal_string(latest.assets.len() as u64).as_str());
    text.append(LATEST_BOX_4);
    text.append(join_strings(&rows, LINE_BREAK).as_str());
    text.append(LATEST_BOX_5);
    text
}

fn asset_row(a: &Asset) -> (row: String)
    ensures
        row@ == asset_row_of(a@),
{
    let mut row = String::from_str(ASSET_ROW_0);
    row.append(file_icon(a.name.as_str()));
    row.append(ASSET_ROW_1);
    row.append(a.url.as_str());
    row.append(ASSET_ROW_2);
    row.append(a.name.as_str());
    row.append(ASSET_ROW_3);
    row.append(size_info(a.size).as_str());
    row.append(ASSET_ROW_4);
    row.append(download_info(a.download_count).as_str());
    row.append(ASSET_ROW_5);
    row
}

fn assets_block(r: &Release) -> (text: String)
    ensures
        text@ == assets_block_of(r@),
{
    if r.assets.len() == 0 {
        return String::new();
    }
    let mut rows: Vec<String> = Vec::new();
    let mut i: usize = 0;
    while i < r.assets.len()
        invariant
            i <= r.assets.len(),
            rows.len() == i,
            forall|j: int| 0 <= j < i ==> (#[trigger] rows@[j])@ == asset_row_of(r.assets@[j]@),
        decreases r.assets.len() - i,
    {
        rows.push(asset_row(&r.assets[i]));
        i += 1;
    }
    assert(texts_of(rows@) =~= Seq::new(r@.assets.len(), |i: int| asset_row_of(r@.assets[i])));
    let mut text = String::from_str(ASSETS_0);
    text.append(PACKAGE);
    text.append(ASSETS_1);
    text.append(decimal_string(r.assets.len() as u64).as_str());
    text.append(ASSETS_2);
    text.append(join_strings(&rows, LINE_BREAK).as_str());
    text.append(ASSETS_3);
    text
}

fn notes(r: &Release) -> (text: String)
    ensures
        text@ == notes_of(r@),
{
    match &r.body {
        Some(body) => {
            if body.as_str().is_empty() {
                return String::new();
            }
            let lines = first_lines(body.as_str(), NOTE_LINES);
            let mut text = String::from_str(NOTES_0);
            text.append(NOTE);
            text.append(NOTES_1);
            text.append(join_strings(&lines, MARKUP_BREAK).as_str());
            text.append(NOTES_2);
            text
        },
        None => String::new(),
    }
}

fn release_item(r: &Release, index: usize) -> (item: String)
    ensures
        item@ == release_item_of(r@, index as int),
{
    let mut item = String::from_str(RELEASE_0);
    item.append(r.html_url.as_str());
    item.append(RELEASE_1);
    item.append(display_name(r).as_str());
    item.append(RELEASE_2);
    if index == 0 {
        let mut badge = String::from_str(LATEST_BADGE_0);
        badge.append(STAR);
        badge.append(LATEST_BADGE_1);
        item.append(badge.as_str());
    } else {
        item.append("");
        proof {
            reveal_strlit("");
            assert(""@ =~= Seq::<char>::empty());
        }
    }
    item.append(RELEASE_3);
    item.append(if r.prerelease { PRERELEASE_BADGE } else { "" });
    item.append(RELEASE_4);
    item.append(if r.draft { DRAFT_BADGE } else { "" });
    item.append(RELEASE_5);
    item.append(CALENDAR);
    item.append(RELEASE_6);
    item.append(date(r.published_at).as_str());
    item.append(RELEASE_7);
    item.append(assets_block(r).as_str());
    item.append(RELEASE_8);
    item.append(notes(r).as_str());
    item.append(RELEASE_9);
    proof {
        reveal_strlit("");
        assert(""@ =~= Seq::<char>::empty());
    }
    item
}

/// Renders the page of a repository's releases.
pub fn format_releases_html(
    releases: &Vec<Release>,
    repo_path: &str,
    route_prefix: &str,
    cached_at: Option<Timestamp>,
) -> (page: String)
    ensures
        page@ == releases_page(releases_view(releases@), repo_path@, route_prefix@, cached_at),
{
    let mut items: Vec<String> = Vec::new();
    let mut i: usize = 0;
    while i < releases.len()
        invariant
            i <= releases.len(),
            items.len() == i,
            forall|j: int|
                0 <= j < i ==> (#[trigger] items@[j])@ == release_item_of(releases@[j]@, j),
        decreases releases.len() - i,
    {
        items.push(release_item(&releases[i], i));
        i += 1;
    }
    assert(texts_of(items@) =~= Seq::new(
        releases_view(releases@).len(),
        |i: int| release_item_of(releases_view(releases@)[i], i),
    ));
    let mut page = String::from_str(PAGE_0);
    page.append(repo_path);
    page.append(PAGE_1);
    page.append(repo_path);
    page.append(PAGE_2);
    page.append(cache_info(cached_at).as_str());
    page.append(PAGE_3);
    page.append(latest_box(releases, repo_path, route_prefix).as_str());
    page.append(PAGE_4);
    page.append(LIST);
    page.append(PAGE_5);
    page.append(join_strings(&items, LINE_BREAK).as_str());
    page.append(PAGE_6);
    page
}

} // verus!
