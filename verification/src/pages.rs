//! The two pages that stand in for a repository's releases: the placeholder
//! that is served while a fetch is under way, and the page that reports a
//! failed fetch.

use vstd::prelude::*;
use vstd::string::StringExecFns;

verus! {

/// The placeholder page up to the repository in its title.
pub const PROCESSING_HEAD: &'static str = r#"<!DOCTYPE html>
<html>
<head>
    <title>Processing - "#;

/// The placeholder page between the title and the repository in its text.
pub const PROCESSING_BODY: &'static str = r#"</title>
    <style>
        body { font-family: -apple-system, BlinkMacSystemFont, 'Segoe UI', Roboto, Oxygen, Ubuntu, sans-serif; max-width: 800px; margin: 0 auto; padding: 20px; }
        .container { text-align: center; padding: 60px 20px; }
        .spinner {
            width: 50px; height: 50px;
            border: 4px solid #e1e4e8;
            border-top: 4px solid #0366d6;
            border-radius: 50%;
            animation: spin 1s linear infinite;
            margin: 0 auto 20px;
        }
        @keyframes spin { 0% { transform: rotate(0deg); } 100% { transform: rotate(360deg); } }
        h1 { color: #333; margin-bottom: 10px; }
        p { color: #666; font-size: 1.1em; }
        .refresh-btn {
            display: inline-block;
            margin-top: 20px;
            padding: 12px 24px;
            background: #0366d6;
            color: white;
            border-radius: 6px;
            text-decoration: none;
            font-weight: 500;
        }
        .refresh-btn:hover { background: #0257b3; }
        code { background: #f6f8fa; padding: 2px 6px; border-radius: 4px; }
    </style>
    <meta http-equiv="refresh" content="5">
</head>
<body>
    <div class="container">
        <div class="spinner"></div>
        <h1>Repository Processing</h1>
        <p>The repository <code>"#;

/// The placeholder page after the repository in its text.
pub const PROCESSING_TAIL: &'static str = r#"</code> is being fetched for the first time.</p>
        <p>Please wait a few seconds... This page will auto-refresh.</p>
       <a onClick="window.location.reload();" class="refresh-btn">Refresh Now</a>
    </div>
</body>
</html>"#;

/// The error page up to the repository in its title.
pub const ERROR_HEAD: &'static str = r#"<!DOCTYPE html>
<html>
<head>
    <title>Error - "#;

/// The error page between the title and the repository in its text.
pub const ERROR_BODY: &'static str = r#"</title>
    <style>
        body { font-family: -apple-system, BlinkMacSystemFont, 'Segoe UI', Roboto, Oxygen, Ubuntu, sans-serif; max-width: 800px; margin: 0 auto; padding: 20px; }
        .container { text-align: center; padding: 60px 20px; }
        .error-icon { font-size: 64px; margin-bottom: 20px; }
        h1 { color: #d73a49; margin-bottom: 10px; }
        p { color: #666; font-size: 1.1em; }
        .error-box {
            background: #fff5f5;
            border: 1px solid #f5c6cb;
            border-radius: 6px;
            padding: 15px;
            margin: 20px auto;
            max-width: 600px;
            text-align: left;
            color: #721c24;
            font-family: monospace;
            font-size: 0.9em;
        }
        code { background: #f6f8fa; padding: 2px 6px; border-radius: 4px; }
    </style>
</head>
<body>
    <div class="container">
        <div class="error-icon">&#10060;</div>
        <h1>Failed to Fetch Repository</h1>
        <p>The repository <code>"#;

/// The error page between the repository in its text and the message.
pub const ERROR_BOX: &'static str = r#"</code> could not be fetched.</p>
        <div class="error-box">"#;

/// The error page after the message.
pub const ERROR_TAIL: &'static str = r#"</div>
        <p>Check if the repository exists and is accessible.</p>
    </div>
</body>
</html>"#;

/// The placeholder page for the repository with the cache key `repo_path`.
pub open spec fn processing_page(repo_path: Seq<char>) -> Seq<char> {
    PROCESSING_HEAD@ + repo_path + PROCESSING_BODY@ + repo_path + PROCESSING_TAIL@
}

/// The error page for the repository with the cache key `repo_path`, whose
/// fetch failed with `error_message`.
pub open spec fn error_page(repo_path: Seq<char>, error_message: Seq<char>) -> Seq<char> {
    ERROR_HEAD@ + repo_path + ERROR_BODY@ + repo_path + ERROR_BOX@ + error_message + ERROR_TAIL@
}

/// The page that asks the client to wait and reloads itself while the
/// repository is being fetched. The repository is named in the title and in
/// the text; the route plays no part.
pub fn format_processing_html(repo_path: &str, _route_prefix: &str) -> (page: String)
    ensures
        page@ == processing_page(repo_path@),
{
    let mut page = String::from_str(PROCESSING_HEAD);
    page.append(repo_path);
    page.append(PROCESSING_BODY);
    page.append(repo_path);
    page.append(PROCESSING_TAIL);
    page
}

/// The page that reports a failed fetch, with the message of the failure.
/// The texts are put in as they are, without escaping; the route plays no
/// part.
pub fn format_error_html(repo_path: &str, error_message: &str, _route_prefix: &str) -> (page:
    String)
    ensures
        page@ == error_page(repo_path@, error_message@),
{
    let mut page = String::from_str(ERROR_HEAD);
    page.append(repo_path);
    page.append(ERROR_BODY);
    page.append(repo_path);
    page.append(ERROR_BOX);
    page.append(error_message);
    page.append(ERROR_TAIL);
    page
}

} // verus!
