//! Trusted declarations for the outside transport and URL machinery. The
//! library only builds, carries and hands these values through; sending a
//! request is the caller's business.

use vstd::prelude::*;

verus! {

/// The HTTP transport handle of the reqwest crate, opaque to verification.
#[verifier::external_type_specification]
#[verifier::external_body]
pub struct ExClient(reqwest::Client);

/// A parsed URL of the url crate, opaque to verification.
#[verifier::external_type_specification]
#[verifier::external_body]
pub struct ExUrl(url::Url);

/// Relies on reqwest::Client::clone: the handle is a shared reference to
/// one connection pool, and cloning hands out another reference to it.
pub assume_specification[ <reqwest::Client as Clone>::clone ](c: &reqwest::Client) -> (r:
    reqwest::Client);

/// Whether the base text parses as an absolute URL and the endpoint text
/// joins against it: a function of the two texts alone.
pub uninterp spec fn spec_endpoint_url_ok(base: Seq<char>, endpoint: Seq<char>) -> bool;

/// The description of the failure when they do not: likewise a function
/// of the two texts alone.
pub uninterp spec fn spec_endpoint_url_error(base: Seq<char>, endpoint: Seq<char>) -> Seq<char>;

/// Relies on url::Url::parse and url::Url::join: both are deterministic in
/// their text arguments, so whether parse-then-join succeeds is named
/// `spec_endpoint_url_ok`, and the failure's description — rendered by
/// url::ParseError's Display impl from fixed, non-empty per-variant texts
/// — is named `spec_endpoint_url_error`. The two calls stand in one
/// wrapper because the intermediate base URL is opaque, so neither name
/// could be stated of one call alone.
#[verifier::external_body]
pub(crate) fn parse_and_join(base: &str, endpoint: &str) -> (r: Result<url::Url, String>)
    ensures
        r is Ok <==> spec_endpoint_url_ok(base@, endpoint@),
        r matches Err(m) ==> m@ == spec_endpoint_url_error(base@, endpoint@) && m@.len() > 0,
{
    let parsed = match url::Url::parse(base) {
        Ok(b) => b.join(endpoint),
        Err(e) => Err(e),
    };
    match parsed {
        Ok(u) => Ok(u),
        Err(e) => Err(format!("{}", e)),
    }
}

/// Relies on reqwest::ClientBuilder: builds a transport whose requests
/// time out after the given number of seconds. Construction aborts only
/// when the transport backend cannot be initialised at all, a one-time
/// setup failure outside per-call error handling.
#[verifier::external_body]
pub(crate) fn build_http_client(timeout_secs: u64) -> reqwest::Client {
    reqwest::Client::builder()
        .timeout(std::time::Duration::from_secs(timeout_secs))
        .build()
        .expect("Failed to create HTTP client")
}

/// Relies on url::Url::query_pairs_mut and form_urlencoded's append_pair:
/// appends one name-value pair to the URL's query string. The two calls
/// stand together because the pair serializer borrows the URL and cannot
/// cross this boundary.
#[verifier::external_body]
pub(crate) fn url_append_query_pair(url: &mut url::Url, name: &str, value: &str) {
    url.query_pairs_mut().append_pair(name, value);
}

} // verus!
