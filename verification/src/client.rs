//! The main client: configuration, endpoint URL construction, and the
//! classification of responses into typed errors.

use vstd::prelude::*;
use vstd::string::*;

use crate::error::{spec_retry_after_seconds, DocarooError, DEFAULT_RETRY_AFTER_SECS};
use crate::models::ErrorResponse;
use crate::pricing::PricingClient;
use crate::procedures::ProceduresClient;
use crate::strings::{concat3, spec_dec_str, u64_dec_str};
use crate::transport::{
    build_http_client, parse_and_join, spec_endpoint_url_error, spec_endpoint_url_ok,
    url_append_query_pair,
};

verus! {

/// Request timeout in seconds of a transport built by this library.
pub const DEFAULT_TIMEOUT_SECS: u64 = 30;

/// Configuration for a client: the credential, the service's base URL, and
/// optionally a pre-configured transport.
#[derive(Debug, Clone)]
pub struct DocarooConfig {
    /// API key used to authenticate every request.
    pub api_key: String,
    /// Base URL of the service.
    pub base_url: String,
    /// Transport to use; a default one is built when absent.
    pub http_client: Option<reqwest::Client>,
}

impl DocarooConfig {
    /// Start building a configuration; nothing is set yet.
    pub fn builder() -> (r: DocarooConfigBuilder)
        ensures
            r.api_key is None,
            r.base_url is None,
            r.http_client is None,
    {
        DocarooConfigBuilder { api_key: None, base_url: None, http_client: None }
    }
}

/// Step-by-step construction of a configuration. The API key must be set
/// before `build`; the base URL falls back to the production default.
#[derive(Debug, Clone)]
pub struct DocarooConfigBuilder {
    /// Credential set so far.
    pub api_key: Option<String>,
    /// Base URL set so far.
    pub base_url: Option<String>,
    /// Transport set so far.
    pub http_client: Option<reqwest::Client>,
}

impl DocarooConfigBuilder {
    /// Set the API key.
    pub fn api_key(self, api_key: &str) -> (r: Self)
        ensures
            r.api_key matches Some(s) && s@ == api_key@,
            r.base_url == self.base_url,
            r.http_client == self.http_client,
    {
        Self { api_key: Some(String::from_str(api_key)), ..self }
    }

    /// Set the base URL.
    pub fn base_url(self, base_url: &str) -> (r: Self)
        ensures
            r.api_key == self.api_key,
            r.base_url matches Some(s) && s@ == base_url@,
            r.http_client == self.http_client,
    {
        Self { base_url: Some(String::from_str(base_url)), ..self }
    }

    /// Set a pre-configured transport.
    pub fn http_client(self, http_client: reqwest::Client) -> (r: Self)
        ensures
            r.api_key == self.api_key,
            r.base_url == self.base_url,
            r.http_client == Some(http_client),
    {
        Self { http_client: Some(http_client), ..self }
    }

    /// Finish the configuration from what was set; an unset base URL falls
    /// back to the production default.
    pub fn build(self) -> (r: DocarooConfig)
        requires
            self.api_key is Some,
        ensures
            r.api_key == self.api_key.unwrap(),
            self.base_url matches Some(u) ==> r.base_url == u,
            self.base_url is None ==> r.base_url@ == crate::API_BASE_URL@,
            r.http_client == self.http_client,
    {
        let base_url = match self.base_url {
            Some(u) => u,
            None => String::from_str(crate::API_BASE_URL),
        };
        DocarooConfig { api_key: self.api_key.unwrap(), base_url, http_client: self.http_client }
    }
}

/// Main client for talking to the service.
#[derive(Debug, Clone)]
pub struct DocarooClient {
    api_key: String,
    base_url: String,
    http_client: reqwest::Client,
}

impl DocarooClient {
    /// The credential this client authenticates with.
    pub closed spec fn spec_api_key(&self) -> Seq<char> {
        self.api_key@
    }

    /// The base URL this client sends to.
    pub closed spec fn spec_base_url(&self) -> Seq<char> {
        self.base_url@
    }

    /// The transport handle this client sends with.
    pub closed spec fn spec_http_client(&self) -> reqwest::Client {
        self.http_client
    }

    /// A client with the given API key and the default configuration.
    pub fn new(api_key: &str) -> (r: Self)
        ensures
            r.spec_api_key() == api_key@,
            r.spec_base_url() == crate::API_BASE_URL@,
    {
        Self::with_config(DocarooConfig::builder().api_key(api_key).build())
    }

    /// A client with a custom configuration; a default transport is built
    /// when the configuration brings none.
    pub fn with_config(config: DocarooConfig) -> (r: Self)
        ensures
            r.spec_api_key() == config.api_key@,
            r.spec_base_url() == config.base_url@,
            config.http_client matches Some(c) ==> r.spec_http_client() == c,
    {
        let http_client = match config.http_client {
            Some(c) => c,
            None => build_http_client(DEFAULT_TIMEOUT_SECS),
        };
        DocarooClient { api_key: config.api_key, base_url: config.base_url, http_client }
    }

    /// The API key.
    pub fn api_key(&self) -> (r: &str)
        ensures
            r@ == self.spec_api_key(),
    {
        self.api_key.as_str()
    }

    /// The base URL.
    pub fn base_url(&self) -> (r: &str)
        ensures
            r@ == self.spec_base_url(),
    {
        self.base_url.as_str()
    }

    /// The transport handle, for the caller that performs the send.
    pub fn http_client(&self) -> (r: &reqwest::Client)
        ensures
            *r == self.spec_http_client(),
    {
        &self.http_client
    }

    /// The endpoint URL: the base joined with the endpoint path, with the
    /// API key appended as the `key` query parameter. URL syntax itself is
    /// the url crate's business; this contract pins down that the call
    /// succeeds exactly when the base parses and the path joins, and that
    /// a failure surfaces as a URL error carrying its description.
    pub fn build_url(&self, endpoint: &str) -> (r: Result<url::Url, DocarooError>)
        ensures
            r is Ok <==> spec_endpoint_url_ok(self.spec_base_url(), endpoint@),
            r matches Err(e) ==> (e matches DocarooError::UrlError(m) && m@
                == spec_endpoint_url_error(self.spec_base_url(), endpoint@) && m@.len() > 0),
    {
        let mut url = match parse_and_join(self.base_url.as_str(), endpoint) {
            Ok(u) => u,
            Err(m) => {
                return Err(DocarooError::UrlError(m));
            },
        };
        url_append_query_pair(&mut url, "key", self.api_key.as_str());
        Ok(url)
    }

    /// A pricing client that shares this client's configuration.
    pub fn pricing(&self) -> (r: PricingClient)
        ensures
            r.spec_client().spec_api_key() == self.spec_api_key(),
            r.spec_client().spec_base_url() == self.spec_base_url(),
    {
        PricingClient::new(self.duplicate())
    }

    /// A procedures client that shares this client's configuration.
    pub fn procedures(&self) -> (r: ProceduresClient)
        ensures
            r.spec_client().spec_api_key() == self.spec_api_key(),
            r.spec_client().spec_base_url() == self.spec_base_url(),
    {
        ProceduresClient::new(self.duplicate())
    }

    /// A copy that shares the transport handle.
    fn duplicate(&self) -> (r: Self)
        ensures
            r.spec_api_key() == self.spec_api_key(),
            r.spec_base_url() == self.spec_base_url(),
    {
        DocarooClient {
            api_key: self.api_key.clone(),
            base_url: self.base_url.clone(),
            http_client: self.http_client.clone(),
        }
    }
}

/// The 2xx success range of HTTP status codes.
pub open spec fn spec_success_status(status: u16) -> bool {
    200 <= status < 300
}

/// Whether a status code reports success.
pub fn is_success_status(status: u16) -> (r: bool)
    ensures
        r == spec_success_status(status),
{
    200 <= status && status < 300
}

/// The `error` code field that classification sees: the decoded payload's
/// own, or the status code as text when the body did not decode.
pub open spec fn spec_effective_code(status: u16, decoded: Option<ErrorResponse>) -> Seq<char> {
    match decoded {
        Some(resp) => resp.error@,
        None => spec_dec_str(status as nat),
    }
}

/// The message that classification sees: the decoded payload's own, or a
/// generic `HTTP <code> error` when the body did not decode.
pub open spec fn spec_effective_message(status: u16, decoded: Option<ErrorResponse>) -> Seq<
    char,
> {
    match decoded {
        Some(resp) => resp.message@,
        None => "HTTP "@ + spec_dec_str(status as nat) + " error"@,
    }
}

/// The throttling hint that classification sees.
pub open spec fn spec_effective_retry_after(status: u16, decoded: Option<ErrorResponse>) -> u64 {
    match decoded {
        Some(resp) => spec_retry_after_seconds(resp.details),
        None => DEFAULT_RETRY_AFTER_SECS,
    }
}

/// The request identifier that classification sees; a synthesised payload
/// carries none.
pub open spec fn spec_effective_request_id(decoded: Option<ErrorResponse>) -> Option<String> {
    match decoded {
        Some(resp) => resp.request_id,
        None => None,
    }
}

/// The error payload synthesised for a failure whose body did not decode:
/// the status code as text, and a generic message.
pub fn fallback_error_response(status: u16) -> (r: ErrorResponse)
    ensures
        r.error@ == spec_dec_str(status as nat),
        r.message@ == "HTTP "@ + spec_dec_str(status as nat) + " error"@,
        r.details is None,
        r.request_id is None,
        r.timestamp is None,
{
    let code = u64_dec_str(status as u64);
    let message = concat3("HTTP ", code.as_str(), " error");
    ErrorResponse { error: code, message, details: None, request_id: None, timestamp: None }
}

/// Map a failure status and the decoded error payload (where the body
/// decoded at all) to the typed error. The status short-circuits first: a
/// 401 always reads as an authentication failure and a 400 as an invalid
/// request, whatever the payload's `error` code says; only then does the
/// `error` code field decide.
pub fn classify_failure(status: u16, decoded: Option<ErrorResponse>) -> (r: DocarooError)
    requires
        !spec_success_status(status),
    ensures
        status == 401 ==> (r matches DocarooError::AuthenticationFailed(m) && m@
            == spec_effective_message(status, decoded)),
        status == 400 ==> (r matches DocarooError::InvalidRequest(m) && m@
            == spec_effective_message(status, decoded)),
        status != 401 && status != 400 ==> {
            if spec_effective_code(status, decoded) == "rate_limit_exceeded"@ {
                r matches DocarooError::RateLimitExceeded { retry_after } && retry_after
                    == spec_effective_retry_after(status, decoded)
            } else if spec_effective_code(status, decoded) == "unauthorized"@ {
                r matches DocarooError::AuthenticationFailed(m) && m@ == spec_effective_message(
                    status,
                    decoded,
                )
            } else {
                r matches DocarooError::ApiError { code, message, request_id } && code@
                    == spec_effective_code(status, decoded) && message@ == spec_effective_message(
                    status,
                    decoded,
                ) && request_id == spec_effective_request_id(decoded)
            }
        },
{
    let response = match decoded {
        Some(resp) => resp,
        None => fallback_error_response(status),
    };
    if status == 401 {
        DocarooError::AuthenticationFailed(response.message)
    } else if status == 400 {
        DocarooError::InvalidRequest(response.message)
    } else {
        DocarooError::from_error_response(response)
    }
}

} // verus!
