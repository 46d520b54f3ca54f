//! Target URIs. The crate keeps a URI as the text it was parsed from together
//! with the one component its logic reads: the host, which the TLS connector
//! uses to derive the verification domain when none was set explicitly.

use vstd::prelude::*;
use crate::Error;

verus! {

/// What the URI parser of the `http` crate yields for a given string:
/// `None` when the string is not a valid URI, and otherwise the host
/// component, when the URI has one. The result depends on the characters
/// alone.
pub uninterp spec fn uri_parse(s: Seq<char>) -> Option<Option<Seq<char>>>;

/// Relies on `http::Uri::try_from::<&str>` to decide URI validity and on
/// `http::Uri::host` for the authority's host component; both depend only
/// on the characters of the string.
#[verifier::external_body]
fn parse_uri_host(s: &str) -> (r: Option<Option<String>>)
    ensures
        r.deep_view() == uri_parse(s@),
{
    match http::Uri::try_from(s) {
        Ok(u) => Some(u.host().map(|h| h.to_string())),
        Err(_) => None,
    }
}

/// A target URI: the text it was parsed from plus its host component.
#[derive(Debug, Clone)]
pub struct Uri {
    pub text: String,
    pub host: Option<String>,
}

impl Uri {
    /// The stored fields agree with what the parser says of the text.
    pub open spec fn wf(&self) -> bool {
        uri_parse(self.text@) == Some(self.host.deep_view())
    }

    /// Parse a URI from its text. Succeeds exactly on the strings the URI
    /// grammar accepts; everything else is an invalid-URI error carrying the
    /// rejected text.
    pub fn parse(s: String) -> (r: Result<Uri, Error>)
        ensures
            r is Ok <==> uri_parse(s@) is Some,
            match r {
                Ok(u) => u.wf() && u.text@ == s@ && Some(u.host.deep_view()) == uri_parse(s@),
                Err(e) => e == Error::InvalidUri(s),
            },
    {
        match parse_uri_host(s.as_str()) {
            Some(host) => Ok(Uri { text: s, host }),
            None => Err(Error::new_invalid_uri(s)),
        }
    }

}

} // verus!
