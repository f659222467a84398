//! Login-option discovery: validating the homeserver URL before anything is
//! sent, and the errors a discovery call can fail with.

use vstd::prelude::*;

verus! {

/// Whether `url::Url::parse` accepts the given text as a well-formed
/// absolute URL.
pub uninterp spec fn url_parse_ok(s: Seq<char>) -> bool;

/// Why a discovery call failed.
pub enum DiscoveryError {
    /// The homeserver URL does not parse; carries the parser's message. The
    /// input must be corrected, a retry as-is cannot succeed.
    Configuration(String),
    /// No connection descriptor could be constructed for the homeserver;
    /// carries the underlying message.
    Connectivity(String),
    /// The homeserver failed the flow query at the transport or protocol
    /// level; carries the homeserver's message.
    Protocol(String),
}

impl DiscoveryError {
    /// The carried message, surfaced verbatim at the boundary.
    pub fn message(&self) -> (r: String)
        ensures
            self matches DiscoveryError::Configuration(m) ==> r@ == m@,
            self matches DiscoveryError::Connectivity(m) ==> r@ == m@,
            self matches DiscoveryError::Protocol(m) ==> r@ == m@,
    {
        match self {
            DiscoveryError::Configuration(m) => m.clone(),
            DiscoveryError::Connectivity(m) => m.clone(),
            DiscoveryError::Protocol(m) => m.clone(),
        }
    }
}

/// Relies on `url::Url::parse`: whether a string parses as an absolute URL
/// depends on the string alone; the error text is the parser's own message.
#[verifier::external_body]
fn parse_absolute_url(s: &str) -> (r: Result<(), String>)
    ensures
        r is Ok <==> url_parse_ok(s@),
{
    match url::Url::parse(s) {
        Ok(_) => Ok(()),
        Err(e) => Err(format!("{e}")),
    }
}

/// Validates a homeserver URL before discovery touches the network: a
/// malformed URL is a configuration error carrying the parse failure.
pub fn validate_homeserver_url(homeserver_url: &String) -> (r: Result<(), DiscoveryError>)
    ensures
        r is Ok <==> url_parse_ok(homeserver_url@),
        r is Err ==> r matches Err(DiscoveryError::Configuration(_)),
{
    match parse_absolute_url(homeserver_url.as_str()) {
        Ok(()) => Ok(()),
        Err(m) => Err(DiscoveryError::Configuration(m)),
    }
}

} // verus!
