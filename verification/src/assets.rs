//! Which embedded asset a request path names, and how long a client may keep
//! it.

use vstd::prelude::*;
use vstd::string::*;

verus! {

/// Why `regex` could not read a pattern. Nothing is known of what it holds.
#[verifier::external_type_specification]
#[verifier::external_body]
pub struct ExRegexError(regex::Error);

/// Whether the regular expression `pattern` matches somewhere in `text`;
/// `None` where `pattern` is no regular expression.
pub uninterp spec fn regex_match(pattern: Seq<char>, text: Seq<char>) -> Option<bool>;

/// Matches a text against a regular expression.
///
/// Calls `regex::Regex::new` on the pattern and `Regex::is_match` on the
/// text. The error is the one of `Regex::new`.
#[verifier::external_body]
fn regex_is_match(pattern: &str, text: &str) -> (found: Result<bool, regex::Error>)
    ensures
        match found {
            Ok(b) => regex_match(pattern@, text@) == Some(b),
            Err(_) => regex_match(pattern@, text@) is None,
        },
{
    Ok(regex::Regex::new(pattern)?.is_match(text))
}

/// How long a client may keep an asset.
#[derive(Clone, Copy, Debug, PartialEq, Eq, Structural)]
pub enum CachePolicy {
    /// Never: the asset is fetched anew each time.
    NoStore,
    /// For a year.
    LongLived,
    /// Nothing is said on it.
    Unset,
}

/// The path of the page that is served where a request names none.
pub open spec fn index_page() -> Seq<char> {
    "index.html"@
}

/// The path of the service worker, which is never cached.
pub open spec fn service_worker() -> Seq<char> {
    "service-worker.js"@
}

/// The pattern of the paths of images, style sheets and scripts.
pub open spec fn cachable_pattern() -> Seq<char> {
    "\\.(?:jpg|jpeg|png|svg|css|js)$"@
}

/// The asset that a request path names: the index page where there is no
/// path or an empty one, else the path itself.
pub fn asset_path<'a>(path: Option<&'a str>) -> (asset: &'a str)
    ensures
        asset@ == match path {
            Some(p) => if p@.len() == 0 {
                index_page()
            } else {
                p@
            },
            None => index_page(),
        },
{
    match path {
        Some(p) => if p.is_empty() {
            "index.html"
        } else {
            p
        },
        None => "index.html",
    }
}

/// The policy for the asset at `path`, given whether its path is one of an
/// image, a style sheet or a script.
pub open spec fn policy_for(path: Seq<char>, cachable: bool) -> CachePolicy {
    if path == service_worker() {
        CachePolicy::NoStore
    } else if cachable {
        CachePolicy::LongLived
    } else {
        CachePolicy::Unset
    }
}

/// The policy for the asset at `path`, given whether its path is one of an
/// image, a style sheet or a script.
pub fn cache_policy(path: &str, cachable: bool) -> (policy: CachePolicy)
    ensures
        policy == policy_for(path@, cachable),
{
    if path.to_owned() == "service-worker.js".to_owned() {
        CachePolicy::NoStore
    } else if cachable {
        CachePolicy::LongLived
    } else {
        CachePolicy::Unset
    }
}

/// The policy for the asset at `path`: the service worker is never cached,
/// images, style sheets and scripts are kept for a year, and nothing is said
/// on anything else.
pub fn with_caching_headers(path: &str) -> (policy: CachePolicy)
    ensures
        policy == policy_for(path@, regex_match(cachable_pattern(), path@) == Some(true)),
{
    let cachable = match regex_is_match("\\.(?:jpg|jpeg|png|svg|css|js)$", path) {
        Ok(b) => b,
        Err(_) => false,
    };
    cache_policy(path, cachable)
}

/// Guesses the media type of a file from its path.
///
/// Calls `mime_guess::from_path` and `MimeGuess::first_or_octet_stream`, and
/// writes the media type out as text. Nothing is claimed of the guess: it
/// goes by the path's extension, which the platform's path rules pick.
#[verifier::external_body]
fn guess_mime_type(path: &str) -> (mime: String) {
    mime_guess::from_path(path).first_or_octet_stream().to_string()
}

/// What a response that carries an asset says of it.
#[derive(Debug)]
pub struct AssetHeaders {
    /// The media type of the asset.
    pub content_type: String,
    /// How long a client may keep the asset.
    pub cache: CachePolicy,
}

/// The headers for the asset at `path`: its guessed media type, and the
/// policy of `with_caching_headers`.
pub fn asset_headers(path: &str) -> (headers: AssetHeaders)
    ensures
        headers.cache == policy_for(path@, regex_match(cachable_pattern(), path@) == Some(true)),
{
    AssetHeaders { content_type: guess_mime_type(path), cache: with_caching_headers(path) }
}

} // verus!
