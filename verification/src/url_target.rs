//! The host and port that a WebSocket URL points at, read with the `url` crate.

use vstd::prelude::*;

verus! {

#[verifier::external_type_specification]
#[verifier::external_body]
pub struct ExUrlParseError(url::ParseError);

/// Where a URL points: its host text, and its port (the explicit one, or the
/// scheme's well-known default).
pub struct UrlTarget {
    pub host: Option<String>,
    pub port: Option<u16>,
}

/// The characters of an optional text.
pub open spec fn option_text(o: Option<String>) -> Option<Seq<char>> {
    match o {
        Some(s) => Some(s@),
        None => None,
    }
}

/// What `url::Url::parse` makes of `input`: `None` where it refuses it, else
/// the parsed URL's `host_str()` and `port_or_known_default()`.
pub uninterp spec fn url_target(input: Seq<char>) -> Option<(Option<Seq<char>>, Option<u16>)>;

/// Calls `url::Url::parse` on `input` and, when it succeeds, reads the parsed
/// URL's `host_str` and `port_or_known_default`. The contract claims that
/// success and the host and port read are fixed by the input text alone
/// (`url_target`); which `ParseError` variant a refusal carries is left unsaid.
#[verifier::external_body]
pub(crate) fn parse_url_target(input: &str) -> (r: Result<UrlTarget, url::ParseError>)
    ensures
        r is Ok <==> url_target(input@) is Some,
        r matches Ok(t) ==> url_target(input@) == Some((option_text(t.host), t.port)),
{
    match url::Url::parse(input) {
        Ok(u) => Ok(UrlTarget { host: u.host_str().map(|h| h.to_string()), port: u.port_or_known_default() }),
        Err(e) => Err(e),
    }
}

} // verus!
