//! Releases read off the page on which a cgit host lists a repository's
//! tags. Each row of the table of tags that links to a download becomes a
//! release with that download as its one asset.

use crate::model::{
    releases_view, AppError, Asset, AssetView, Release, ReleaseView, RepoPath,
};
use crate::provider::{cut_at_slash, is_key_or_refusal, split_at_slash};
use crate::text::{
    chars_start_with, chars_to_string, last_index_of, last_position, lemma_last_index_of,
    starts_with, str_chars, sub_chars,
};
use crate::time::{formatted_instant, parse_with_format, trim, trimmed, Timestamp};
use vstd::prelude::*;
use vstd::string::StringExecFns;

verus! {

/// The kind of answer that is asked for.
pub const ACCEPT: &'static str = "text/html";

/// What is said of a path that names no repository.
pub const USAGE: &'static str = "Invalid path format";

/// The rows of the table of tags.
pub const ROWS: &'static str = "table.list tr";

/// The link in a row's first cell: the tag.
pub const TAG_LINK: &'static str = "td:nth-child(1) a";

/// The link in a row's second cell: the download.
pub const DOWNLOAD_LINK: &'static str = "td:nth-child(2) a";

/// The attribute of a link that holds its target.
pub const LINK_TARGET: &'static str = "href";

/// The mark of a row's age, in its fourth or fifth cell.
pub const AGE_MARK: &'static str = "td:nth-child(4) span, td:nth-child(5) span";

/// The attribute of an age mark that holds the date.
pub const AGE_DATE: &'static str = "title";

/// The form in which an age mark gives its date.
pub const DATE_FORMAT: &'static str = "%Y-%m-%d %H:%M:%S %z";

/// The media type given to every download.
pub const MEDIA_TYPE: &'static str = "application/gzip";

/// What scraper finds in a document for a selector of rows and a selector
/// of cells: for each element that matches `rows`, in document order, the
/// text of the first element below it that matches `cell`, if there is one.
/// There is no result where one of the two is no selector.
pub uninterp spec fn row_texts(html: Seq<char>, rows: Seq<char>, cell: Seq<char>) -> Option<
    Seq<Option<Seq<char>>>,
>;

/// What scraper finds in a document for a selector of rows, a selector of
/// cells and the name of an attribute: for each element that matches
/// `rows`, in document order, whether an element below it matches `cell`
/// and, for the first that does, the value of its attribute `attr`, if it
/// has that attribute. There is no result where one of the two is no
/// selector.
pub uninterp spec fn row_attrs(
    html: Seq<char>,
    rows: Seq<char>,
    cell: Seq<char>,
    attr: Seq<char>,
) -> Option<Seq<Option<Option<Seq<char>>>>>;

/// The texts of what `select_texts` returns.
pub open spec fn texts_view(found: Option<Vec<Option<String>>>) -> Option<
    Seq<Option<Seq<char>>>,
> {
    match found {
        Some(v) => Some(
            Seq::new(
                v@.len(),
                |i: int|
                    match v@[i] {
                        Some(s) => Some(s@),
                        None => None,
                    },
            ),
        ),
        None => None,
    }
}

/// The texts of what `select_attrs` returns.
pub open spec fn attrs_view(found: Option<Vec<Option<Option<String>>>>) -> Option<
    Seq<Option<Option<Seq<char>>>>,
> {
    match found {
        Some(v) => Some(
            Seq::new(
                v@.len(),
                |i: int|
                    match v@[i] {
                        Some(Some(s)) => Some(Some(s@)),
                        Some(None) => Some(None),
                        None => None,
                    },
            ),
        ),
        None => None,
    }
}

/// Parses both selectors with `scraper::Selector::parse` and the document
/// with `scraper::Html::parse_document`, selects the rows, and in each row
/// takes the text of the first element that `select` yields for `cell`. The
/// contract names the outcome.
#[verifier::external_body]
pub(crate) fn select_texts(html: &str, rows: &str, cell: &str) -> (found: Option<
    Vec<Option<String>>,
>)
    ensures
        texts_view(found) == row_texts(html@, rows@, cell@),
{
    let rows = scraper::Selector::parse(rows).ok()?;
    let cell = scraper::Selector::parse(cell).ok()?;
    let document = scraper::Html::parse_document(html);
    let text = |row: scraper::ElementRef| row.select(&cell).next().map(|e| e.text().collect());
    Some(document.select(&rows).map(text).collect())
}

/// As `select_texts`, but takes the value of the attribute `attr` of the
/// first element that `select` yields for `cell`. The contract names the
/// outcome.
#[verifier::external_body]
pub(crate) fn select_attrs(html: &str, rows: &str, cell: &str, attr: &str) -> (found: Option<
    Vec<Option<Option<String>>>,
>)
    ensures
        attrs_view(found) == row_attrs(html@, rows@, cell@, attr@),
{
    let rows = scraper::Selector::parse(rows).ok()?;
    let cell = scraper::Selector::parse(cell).ok()?;
    let document = scraper::Html::parse_document(html);
    let value = |e: scraper::ElementRef| e.value().attr(attr).map(String::from);
    Some(document.select(&rows).map(|row| row.select(&cell).next().map(value)).collect())
}

/// What one row of the table of tags holds: the text of its tag link, the
/// target of its download link, and the date of its age mark. The outer
/// `None` of the last two says that the row has no such element, the inner
/// one that the element lacks the attribute.
#[derive(Clone, Debug, PartialEq, Eq)]
pub struct TagRow {
    pub tag: Option<String>,
    pub download: Option<Option<String>>,
    pub age: Option<Option<String>>,
}

/// What a row holds, as plain values.
pub struct TagRowView {
    pub tag: Option<Seq<char>>,
    pub download: Option<Option<Seq<char>>>,
    pub age: Option<Option<Seq<char>>>,
}

impl View for TagRow {
    type V = TagRowView;

    open spec fn view(&self) -> TagRowView {
        TagRowView {
            tag: match self.tag {
                Some(s) => Some(s@),
                None => None,
            },
            download: match self.download {
                Some(Some(s)) => Some(Some(s@)),
                Some(None) => Some(None),
                None => None,
            },
            age: match self.age {
                Some(Some(s)) => Some(Some(s@)),
                Some(None) => Some(None),
                None => None,
            },
        }
    }
}

/// The address of the page that lists a repository's tags.
pub open spec fn tags_url_of(host: Seq<char>, repo_path: Seq<char>) -> Seq<char> {
    "https://"@ + host + "/"@ + repo_path + "/refs/tags"@
}

/// The address of the page that lists a repository's tags.
pub fn tags_url(host: &str, repo_path: &str) -> (url: String)
    ensures
        url@ == tags_url_of(host@, repo_path@),
{
    let mut url = String::from_str("https://");
    url.append(host);
    url.append("/");
    url.append(repo_path);
    url.append("/refs/tags");
    url
}

/// The message for an answer without success from `host`, whose status
/// reads `status`.
pub fn status_error(host: &str, status: &str) -> (message: String)
    ensures
        message@ == "cgit ("@ + host@ + ") returned status: "@ + status@,
{
    let mut message = String::from_str("cgit (");
    message.append(host);
    message.append(") returned status: ");
    message.append(status);
    message
}

/// The key that a path `host/path` names: the host precedes the first
/// slash, the repository is all that follows, and there is no owner.
pub open spec fn host_and_repo(path: Seq<char>) -> Option<(Seq<char>, Seq<char>, Seq<char>)> {
    match cut_at_slash(path) {
        Some((host, repo)) => Some((host, Seq::<char>::empty(), repo)),
        None => None,
    }
}

/// The key of the repository that a path `host/path` names.
pub fn parse_cgit_path(path: &str) -> (r: Result<RepoPath, AppError>)
    ensures
        is_key_or_refusal(r, host_and_repo(path@), USAGE@),
{
    match split_at_slash(&str_chars(path)) {
        Some((host, repo)) => Ok(
            RepoPath {
                host: chars_to_string(&host),
                owner: String::new(),
                repo: chars_to_string(&repo),
            },
        ),
        None => Err(AppError::InvalidRepoPath(String::from_str(USAGE))),
    }
}

/// What follows the last slash of a target, or the whole target where it
/// holds no slash.
pub open spec fn file_name_of(target: Seq<char>) -> Seq<char> {
    match last_index_of(target, '/') {
        Some(p) => target.skip(p + 1),
        None => target,
    }
}

/// The address of a download: the target itself where it begins with
/// `http`, else the target on the host.
pub open spec fn download_url_of(host: Seq<char>, target: Seq<char>) -> Seq<char> {
    if starts_with(target, "http"@) {
        target
    } else {
        "https://"@ + host + target
    }
}

/// The instant at which a row's tag was made: the date of its age mark
/// where the row has one that reads as a date, else `now`.
pub open spec fn published_at_of(age: Option<Option<Seq<char>>>, now: Timestamp) -> Timestamp {
    match age {
        Some(Some(date)) => match formatted_instant(date, DATE_FORMAT@) {
            Some(t) => t,
            None => now,
        },
        _ => now,
    }
}

/// The release that a row stands for. A row needs a tag link and a
/// download link; the tag, without the white space around it, must not be
/// empty, and neither must the download's target. Such a row is a release
/// named by its tag, with the download as its one asset.
pub open spec fn release_of_row(
    row: TagRowView,
    host: Seq<char>,
    repo_path: Seq<char>,
    now: Timestamp,
) -> Option<ReleaseView> {
    match (row.tag, row.download) {
        (Some(text), Some(link)) => {
            let tag = trimmed(text);
            let target = match link {
                Some(t) => t,
                None => Seq::<char>::empty(),
            };
            if tag.len() == 0 || target.len() == 0 {
                None
            } else {
                Some(
                    ReleaseView {
                        tag_name: tag,
                        name: Some(tag),
                        published_at: published_at_of(row.age, now),
                        html_url: "https://"@ + host + "/"@ + repo_path + "/tag/?h="@ + tag,
                        body: None,
                        prerelease: false,
                        draft: false,
                        assets: seq![
                            AssetView {
                                name: file_name_of(target),
                                url: download_url_of(host, target),
                                content_type: Some(MEDIA_TYPE@),
                                size: 0,
                                download_count: 0,
                            },
                        ],
                        source_tarball: None,
                        source_zipball: None,
                    },
                )
            }
        },
        _ => None,
    }
}

/// The releases that rows stand for, in the rows' order.
pub open spec fn releases_of_rows(
    rows: Seq<TagRowView>,
    host: Seq<char>,
    repo_path: Seq<char>,
    now: Timestamp,
) -> Seq<ReleaseView>
    decreases rows.len(),
{
    if rows.len() == 0 {
        Seq::<ReleaseView>::empty()
    } else {
        let before = releases_of_rows(rows.drop_last(), host, repo_path, now);
        match release_of_row(rows.last(), host, repo_path, now) {
            Some(r) => before.push(r),
            None => before,
        }
    }
}

/// The releases of a table of tags: those of all rows but the first, which
/// is the table's heading.
pub open spec fn releases_of_table(
    rows: Seq<TagRowView>,
    host: Seq<char>,
    repo_path: Seq<char>,
    now: Timestamp,
) -> Seq<ReleaseView> {
    if rows.len() == 0 {
        Seq::<ReleaseView>::empty()
    } else {
        releases_of_rows(rows.skip(1), host, repo_path, now)
    }
}

/// The views of a sequence of rows.
pub open spec fn rows_view(rows: Seq<TagRow>) -> Seq<TagRowView> {
    Seq::new(rows.len(), |i: int| rows[i]@)
}

/// The instant at which a row's tag was made.
fn published_at(age: &Option<Option<String>>, now: Timestamp) -> (t: Timestamp)
    ensures
        t == published_at_of(
            match *age {
                Some(Some(s)) => Some(Some(s@)),
                Some(None) => Some(None),
                None => None,
            },
            now,
        ),
{
    match age {
        Some(Some(date)) => match parse_with_format(date.as_str(), DATE_FORMAT) {
            Ok(t) => t,
            Err(_) => now,
        },
        _ => now,
    }
}

/// The release that a row stands for, if it stands for one.
pub fn convert_row(row: &TagRow, host: &str, repo_path: &str, now: Timestamp) -> (r: Option<
    Release,
>)
    ensures
        match release_of_row(row@, host@, repo_path@, now) {
            Some(view) => r matches Some(release) && release@ == view,
            None => r is None,
        },
{
    let text = match &row.tag {
        Some(text) => text,
        None => {
            return None;
        },
    };
    let link = match &row.download {
        Some(link) => link,
        None => {
            return None;
        },
    };
    let tag = String::from_str(trim(text.as_str()));
    let target = match link {
        Some(t) => str_chars(t.as_str()),
        None => Vec::new(),
    };
    if tag.as_str().is_empty() || target.len() == 0 {
        return None;
    }
    let file_name = match last_position(&target, '/') {
        Some(p) => {
            assert(p < target.len()) by {
                lemma_last_index_of(target@, '/');
            }
            sub_chars(&target, p + 1, target.len())
        },
        None => sub_chars(&target, 0, target.len()),
    };
    assert(file_name@ == file_name_of(target@));
    let url = if chars_start_with(&target, &str_chars("http")) {
        chars_to_string(&target)
    } else {
        let mut url = String::from_str("https://");
        url.append(host);
        url.append(chars_to_string(&target).as_str());
        url
    };
    let mut html_url = String::from_str("https://");
    html_url.append(host);
    html_url.append("/");
    html_url.append(repo_path);
    html_url.append("/tag/?h=");
    html_url.append(tag.as_str());
    let mut assets: Vec<Asset> = Vec::new();
    assets.push(
        Asset {
            name: chars_to_string(&file_name),
            url,
            content_type: Some(String::from_str(MEDIA_TYPE)),
            size: 0,
            download_count: 0,
        },
    );
    let release = Release {
        tag_name: tag.clone(),
        name: Some(tag),
        published_at: published_at(&row.age, now),
        html_url,
        body: None,
        prerelease: false,
        draft: false,
        assets,
        source_tarball: None,
        source_zipball: None,
    };
    assert(release@.assets =~= release_of_row(row@, host@, repo_path@, now)->0.assets);
    Some(release)
}

/// The releases of a table of tags, given its rows: every row but the
/// first that stands for a release, in the rows' order.
pub fn releases_from_rows(rows: &Vec<TagRow>, host: &str, repo_path: &str, now: Timestamp) -> (out:
    Vec<Release>)
    ensures
        releases_view(out@) == releases_of_table(rows_view(rows@), host@, repo_path@, now),
{
    let mut out: Vec<Release> = Vec::new();
    if rows.len() == 0 {
        assert(releases_view(out@) =~= Seq::<ReleaseView>::empty());
        return out;
    }
    let ghost body = rows_view(rows@).skip(1);
    let mut i: usize = 1;
    assert(body.take(0) =~= Seq::<TagRowView>::empty());
    assert(releases_view(out@) =~= releases_of_rows(body.take(0), host@, repo_path@, now));
    while i < rows.len()
        invariant
            1 <= i <= rows.len(),
            body == rows_view(rows@).skip(1),
            releases_view(out@) == releases_of_rows(body.take(i - 1), host@, repo_path@, now),
        decreases rows.len() - i,
    {
        let ghost seen = body.take(i - 1);
        let ghost more = body.take(i as int);
        let ghost before = releases_view(out@);
        assert(more.drop_last() =~= seen);
        assert(more.last() == rows@[i as int]@);
        match convert_row(&rows[i], host, repo_path, now) {
            Some(release) => {
                out.push(release);
                assert(releases_view(out@) =~= before.push(release@));
            },
            None => {},
        }
        i += 1;
    }
    assert(body.take(body.len() as int) == body);
    out
}

/// The rows of a table of tags, given what was found in them cell by cell.
/// The three findings must speak of the same rows: where their lengths
/// differ there are no rows.
pub open spec fn rows_of(
    tags: Seq<Option<Seq<char>>>,
    downloads: Seq<Option<Option<Seq<char>>>>,
    ages: Seq<Option<Option<Seq<char>>>>,
) -> Option<Seq<TagRowView>> {
    if tags.len() == downloads.len() && tags.len() == ages.len() {
        Some(
            Seq::new(
                tags.len(),
                |i: int| TagRowView { tag: tags[i], download: downloads[i], age: ages[i] },
            ),
        )
    } else {
        None
    }
}

/// Puts the findings of the three cells together, row by row.
pub fn zip_rows(
    tags: Vec<Option<String>>,
    downloads: Vec<Option<Option<String>>>,
    ages: Vec<Option<Option<String>>>,
) -> (r: Option<Vec<TagRow>>)
    ensures
        match rows_of(
            texts_view(Some(tags))->0,
            attrs_view(Some(downloads))->0,
            attrs_view(Some(ages))->0,
        ) {
            Some(rows) => r matches Some(v) && rows_view(v@) == rows,
            None => r is None,
        },
{
    if tags.len() != downloads.len() || tags.len() != ages.len() {
        return None;
    }
    let mut rows: Vec<TagRow> = Vec::new();
    let mut i: usize = 0;
    while i < tags.len()
        invariant
            i <= tags.len(),
            tags.len() == downloads.len(),
            tags.len() == ages.len(),
            rows.len() == i,
            forall|j: int|
                0 <= j < i ==> (#[trigger] rows@[j])@ == (TagRowView {
                    tag: texts_view(Some(tags))->0[j],
                    download: attrs_view(Some(downloads))->0[j],
                    age: attrs_view(Some(ages))->0[j],
                }),
        decreases tags.len() - i,
    {
        rows.push(
            TagRow {
                tag: crate::provider::clone_text(&tags[i]),
                download: clone_attr(&downloads[i]),
                age: clone_attr(&ages[i]),
            },
        );
        i += 1;
    }
    assert(rows_view(rows@) =~= rows_of(
        texts_view(Some(tags))->0,
        attrs_view(Some(downloads))->0,
        attrs_view(Some(ages))->0,
    )->0);
    Some(rows)
}

/// A copy of what was found of an attribute.
fn clone_attr(found: &Option<Option<String>>) -> (r: Option<Option<String>>)
    ensures
        match *found {
            Some(Some(s)) => r matches Some(Some(t)) && t@ == s@,
            Some(None) => r == Some(None::<String>),
            None => r is None,
        },
{
    match found {
        Some(Some(s)) => Some(Some(s.clone())),
        Some(None) => Some(None),
        None => None,
    }
}

/// The rows that a page of tags holds, as the three selections give them.
pub open spec fn rows_of_page(html: Seq<char>) -> Option<Seq<TagRowView>> {
    match (
        row_texts(html, ROWS@, TAG_LINK@),
        row_attrs(html, ROWS@, DOWNLOAD_LINK@, LINK_TARGET@),
        row_attrs(html, ROWS@, AGE_MARK@, AGE_DATE@),
    ) {
        (Some(tags), Some(downloads), Some(ages)) => rows_of(tags, downloads, ages),
        _ => None,
    }
}

/// Reads the releases off a page of tags. In each row of the table the tag
/// is the text of the link in the first cell, the download the target of
/// the link in the second, and the date the title of the age mark. There
/// is no result where the page cannot be read in rows.
pub fn scrape_releases(html: &str, host: &str, repo_path: &str, now: Timestamp) -> (r: Option<
    Vec<Release>,
>)
    ensures
        match rows_of_page(html@) {
            Some(rows) => r matches Some(out) && releases_view(out@) == releases_of_table(
                rows,
                host@,
                repo_path@,
                now,
            ),
            None => r is None,
        },
{
    let tags = select_texts(html, ROWS, TAG_LINK);
    let downloads = select_attrs(html, ROWS, DOWNLOAD_LINK, LINK_TARGET);
    let ages = select_attrs(html, ROWS, AGE_MARK, AGE_DATE);
    match (tags, downloads, ages) {
        (Some(tags), Some(downloads), Some(ages)) => match zip_rows(tags, downloads, ages) {
            Some(rows) => Some(releases_from_rows(&rows, host, repo_path, now)),
            None => None,
        },
        _ => None,
    }
}

} // verus!
