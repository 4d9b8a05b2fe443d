//! Construction of the GraphQL client and the service seam over it.

use vstd::prelude::*;

verus! {

#[verifier::external_type_specification]
#[verifier::external_body]
pub struct ExHttpClient(reqwest::Client);

#[verifier::external_type_specification]
#[verifier::external_body]
pub struct ExHttpError(reqwest::Error);

/// Connection settings for the upstream Unraid GraphQL API.
pub struct UnraidConfig {
    /// The GraphQL endpoint, e.g. `http://tower/graphql`.
    pub api_url: String,
    /// The API key sent in the `x-api-key` header.
    pub api_key: String,
    /// Accept invalid TLS certificates (self-signed servers on a trusted network).
    pub skip_tls_verify: bool,
}

/// Why a client could not be built.
#[derive(Debug)]
pub enum ClientError {
    /// The API URL is empty.
    ApiUrlNotSet,
    /// The API key is empty.
    ApiKeyNotSet,
    /// The HTTP client library refused to build a client.
    HttpClient(reqwest::Error),
}

impl ClientError {
    /// The message this error displays.
    pub fn message(&self) -> (r: &'static str)
        ensures
            r@ == match self {
                ClientError::ApiUrlNotSet => "UNRAID_API_URL is not set"@,
                ClientError::ApiKeyNotSet => "UNRAID_API_KEY is not set"@,
                ClientError::HttpClient(_) => "failed to build HTTP client"@,
            },
    {
        match self {
            ClientError::ApiUrlNotSet => "UNRAID_API_URL is not set",
            ClientError::ApiKeyNotSet => "UNRAID_API_KEY is not set",
            ClientError::HttpClient(_) => "failed to build HTTP client",
        }
    }
}

/// How the HTTP client is configured.
#[derive(Clone, Copy, Debug, PartialEq, Eq, Structural)]
pub struct HttpSettings {
    /// Accept invalid TLS certificates.
    pub accept_invalid_certs: bool,
    /// The timeout of the connect phase, in seconds.
    pub connect_timeout_secs: u64,
}

/// The HTTP settings for a configuration: invalid certificates are accepted
/// exactly when `skip_tls_verify` is set, and connecting times out after 5 s.
pub open spec fn spec_http_settings(cfg: UnraidConfig) -> HttpSettings {
    HttpSettings { accept_invalid_certs: cfg.skip_tls_verify, connect_timeout_secs: 5 }
}

/// The HTTP settings for `cfg`.
pub fn http_settings(cfg: &UnraidConfig) -> (r: HttpSettings)
    ensures
        r == spec_http_settings(*cfg),
{
    HttpSettings { accept_invalid_certs: cfg.skip_tls_verify, connect_timeout_secs: 5 }
}

/// `reqwest::ClientBuilder::build` on `reqwest::ClientBuilder::new()` configured
/// by `danger_accept_invalid_certs(settings.accept_invalid_certs)` and
/// `connect_timeout(Duration::from_secs(settings.connect_timeout_secs))`. The
/// settings are handed back as given. Whether building succeeds depends on the
/// machine (TLS backend, resolver), so nothing is stated of the outcome.
#[verifier::external_body]
fn build_http_client(settings: HttpSettings) -> (r: (HttpSettings, Result<reqwest::Client, reqwest::Error>))
    ensures
        r.0 == settings,
{
    let built = reqwest::ClientBuilder::new()
        .danger_accept_invalid_certs(settings.accept_invalid_certs)
        .connect_timeout(std::time::Duration::from_secs(settings.connect_timeout_secs))
        .build();
    (settings, built)
}

/// The GraphQL client: an HTTP client bound to one endpoint and API key.
pub struct UnraidClient {
    client: reqwest::Client,
    settings: HttpSettings,
    url: String,
    api_key: String,
}

impl UnraidClient {
    /// The endpoint this client talks to.
    pub closed spec fn url_view(&self) -> Seq<char> {
        self.url@
    }

    /// The API key this client sends.
    pub closed spec fn api_key_view(&self) -> Seq<char> {
        self.api_key@
    }

    /// The settings the HTTP client was built with.
    pub closed spec fn settings_view(&self) -> HttpSettings {
        self.settings
    }

    /// Builds a client from the configuration. An empty URL or key is rejected
    /// (the URL first); otherwise the HTTP client is built with the settings of
    /// [`spec_http_settings`]: invalid certificates accepted only when
    /// `skip_tls_verify` is set, and a 5 s connect timeout.
    pub fn new(cfg: &UnraidConfig) -> (r: Result<Self, ClientError>)
        ensures
            cfg.api_url@.len() == 0 ==> r matches Err(ClientError::ApiUrlNotSet),
            cfg.api_url@.len() != 0 && cfg.api_key@.len() == 0 ==> r matches Err(ClientError::ApiKeyNotSet),
            cfg.api_url@.len() != 0 && cfg.api_key@.len() != 0 ==> (r is Ok || r matches Err(ClientError::HttpClient(_))),
            r matches Ok(c) ==> c.url_view() == cfg.api_url@ && c.api_key_view() == cfg.api_key@
                && c.settings_view() == spec_http_settings(*cfg),
    {
        if cfg.api_url.as_str().is_empty() {
            return Err(ClientError::ApiUrlNotSet);
        }
        if cfg.api_key.as_str().is_empty() {
            return Err(ClientError::ApiKeyNotSet);
        }
        let (settings, built) = build_http_client(http_settings(cfg));
        Self::from_http_client(settings, built, cfg)
    }

    /// The HTTP client this client sends with.
    pub closed spec fn http_view(&self) -> reqwest::Client {
        self.client
    }

    /// The client for the endpoint and key of `cfg` over the outcome of building
    /// the HTTP client with `settings`: the built client, or the library's
    /// error as [`ClientError::HttpClient`].
    pub fn from_http_client(
        settings: HttpSettings,
        built: Result<reqwest::Client, reqwest::Error>,
        cfg: &UnraidConfig,
    ) -> (r: Result<Self, ClientError>)
        ensures
            match built {
                Ok(h) => r matches Ok(c) && c.http_view() == h && c.settings_view() == settings && c.url_view()
                    == cfg.api_url@ && c.api_key_view() == cfg.api_key@,
                Err(e) => r matches Err(ClientError::HttpClient(x)) && x == e,
            },
    {
        match built {
            Ok(client) => Ok(
                UnraidClient { client, settings, url: cfg.api_url.clone(), api_key: cfg.api_key.clone() },
            ),
            Err(e) => Err(ClientError::HttpClient(e)),
        }
    }

    /// The HTTP client, endpoint URL and API key, for the health probe.
    pub fn raw_client(&self) -> (r: (&reqwest::Client, &str, &str))
        ensures
            *r.0 == self.http_view(),
            r.1@ == self.url_view(),
            r.2@ == self.api_key_view(),
    {
        (&self.client, self.url.as_str(), self.api_key.as_str())
    }
}

/// The typed seam between the CLI / MCP front-ends and [`UnraidClient`].
pub struct UnraidService {
    client: UnraidClient,
}

impl UnraidService {
    /// The client this service calls.
    pub closed spec fn client_view(&self) -> UnraidClient {
        self.client
    }

    /// A service over `client`.
    pub fn new(client: UnraidClient) -> (r: Self)
        ensures
            r.client_view() == client,
    {
        UnraidService { client }
    }

    /// The client this service calls.
    pub fn client(&self) -> (r: &UnraidClient)
        ensures
            *r == self.client_view(),
    {
        &self.client
    }

    /// The HTTP client, endpoint URL and API key, for the health probe.
    pub fn raw_client_parts(&self) -> (r: (&reqwest::Client, &str, &str))
        ensures
            *r.0 == self.client_view().http_view(),
            r.1@ == self.client_view().url_view(),
            r.2@ == self.client_view().api_key_view(),
    {
        self.client.raw_client()
    }
}

} // verus!
