//! The URL parser the library relies on (the `url` crate).

use vstd::prelude::*;

verus! {

/// What the `url` crate reports for `text`: `None` when it does not parse as
/// a URL, else the parsed URL's host, if it has one.
pub uninterp spec fn url_host(text: Seq<char>) -> Option<Option<Seq<char>>>;

/// The view of an optional optional string.
pub open spec fn host_view(h: Option<Option<String>>) -> Option<Option<Seq<char>>> {
    match h {
        Some(Some(s)) => Some(Some(s@)),
        Some(None) => Some(None),
        None => None,
    }
}

/// Relies on `url::Url::parse` to parse the text and `Url::host_str` to read
/// the host of the result; both depend on the text alone.
#[verifier::external_body]
pub(crate) fn parse_url_host(text: &str) -> (r: Option<Option<String>>)
    ensures
        host_view(r) == url_host(text@),
{
    match url::Url::parse(text) {
        Ok(u) => Some(u.host_str().map(|h| h.to_string())),
        Err(_) => None,
    }
}

} // verus!
