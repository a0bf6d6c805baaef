//! The URL parser of the `url` crate, seen through plain strings.
use vstd::prelude::*;

verus! {

/// The text of an optional string.
pub open spec fn opt_text(s: Option<String>) -> Option<Seq<char>> {
    match s {
        Some(t) => Some(t@),
        None => None,
    }
}

/// The normalised serialisation of `s` when `s` parses as an absolute URL.
pub uninterp spec fn url_serialization(s: Seq<char>) -> Option<Seq<char>>;

/// The host of `s` when `s` parses as a URL that has one.
pub uninterp spec fn url_host(s: Seq<char>) -> Option<Seq<char>>;

/// The path of `s` when `s` parses as a URL.
pub uninterp spec fn url_path(s: Seq<char>) -> Option<Seq<char>>;

/// The serialisation of `s`, parsed, with its path replaced by `p`.
pub uninterp spec fn url_with_path(s: Seq<char>, p: Seq<char>) -> Option<Seq<char>>;

/// Relies on `url::Url::parse`: the serialisation of the parsed URL, or
/// `None` where the text is not an absolute URL.
#[verifier::external_body]
pub(crate) fn parse_url(s: &str) -> (r: Option<String>)
    ensures
        opt_text(r) == url_serialization(s@),
{
    match url::Url::parse(s) {
        Ok(u) => Some(String::from(u)),
        Err(_) => None,
    }
}

/// Relies on `url::Url::parse` and `url::Url::host_str`: the host, or
/// `None` where the text does not parse or has no host.
#[verifier::external_body]
pub(crate) fn host_of(s: &str) -> (r: Option<String>)
    ensures
        opt_text(r) == url_host(s@),
{
    match url::Url::parse(s) {
        Ok(u) => u.host_str().map(String::from),
        Err(_) => None,
    }
}

/// Relies on `url::Url::parse` and `url::Url::path`: the path, or `None`
/// where the text does not parse.
#[verifier::external_body]
pub(crate) fn path_of(s: &str) -> (r: Option<String>)
    ensures
        opt_text(r) == url_path(s@),
{
    match url::Url::parse(s) {
        Ok(u) => Some(String::from(u.path())),
        Err(_) => None,
    }
}

/// Relies on `url::Url::parse` and `url::Url::set_path`: the URL with its
/// path replaced, or `None` where the text does not parse.
#[verifier::external_body]
pub(crate) fn replace_path(s: &str, p: &str) -> (r: Option<String>)
    ensures
        opt_text(r) == url_with_path(s@, p@),
{
    match url::Url::parse(s) {
        Ok(mut u) => {
            u.set_path(p);
            Some(String::from(u))
        },
        Err(_) => None,
    }
}

} // verus!
