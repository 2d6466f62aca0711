//! What the animal logic reads of a URL, taken apart by the `url` crate.
use vstd::prelude::*;

verus! {

/// Whether `url::Url::parse` accepts the text.
pub uninterp spec fn url_parses(s: Seq<char>) -> bool;

/// What `url::Url::host_str` gives for the URL parsed from the text.
pub uninterp spec fn url_host(s: Seq<char>) -> Option<Seq<char>>;

/// What `url::Url::path` gives for the URL parsed from the text.
pub uninterp spec fn url_path(s: Seq<char>) -> Seq<char>;

/// The message of the `url::ParseError` for text that does not parse.
pub uninterp spec fn url_error(s: Seq<char>) -> Seq<char>;

/// The parts of a parsed URL that the animal logic reads.
pub struct UrlParts {
    pub host: Option<String>,
    pub path: String,
}

impl UrlParts {
    pub open spec fn host_view(&self) -> Option<Seq<char>> {
        match self.host {
            Some(h) => Some(h@),
            None => None,
        }
    }
}

/// Relies on `url::Url::parse` to parse the text, then on `Url::host_str` and
/// `Url::path` for its host and its path, and on the `Display` of
/// `url::ParseError` for the message when it does not parse. Each depends on
/// the text alone.
#[verifier::external_body]
pub(crate) fn parse_url(s: &str) -> (r: Result<UrlParts, String>)
    ensures
        r is Ok <==> url_parses(s@),
        r matches Ok(p) ==> p.host_view() == url_host(s@) && p.path@ == url_path(s@),
        r matches Err(e) ==> e@ == url_error(s@),
{
    match url::Url::parse(s) {
        Ok(u) => Ok(UrlParts { host: u.host_str().map(|h| h.to_string()), path: u.path().to_string() }),
        Err(e) => Err(e.to_string()),
    }
}

} // verus!
