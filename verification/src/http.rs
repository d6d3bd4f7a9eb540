//! The HTTP client that the Ollama and webhook clients carry. The library
//! only creates it; requests are made by the application.

use vstd::prelude::*;

verus! {

#[verifier::external_type_specification]
#[verifier::external_body]
pub struct ExHttpClient(reqwest::Client);

/// An HTTP client together with the timeout, in seconds, that its requests
/// were given when it was built.
pub struct HttpClient {
    client: reqwest::Client,
    timeout_secs: u64,
}

impl HttpClient {
    /// The client itself.
    pub closed spec fn client_view(self) -> reqwest::Client {
        self.client
    }

    /// The request timeout it was built with, in seconds.
    pub closed spec fn timeout_view(self) -> nat {
        self.timeout_secs as nat
    }

    /// The client itself.
    pub fn client(&self) -> (c: &reqwest::Client)
        ensures
            *c == self.client_view(),
    {
        &self.client
    }

    /// The request timeout it was built with, in seconds.
    pub fn timeout_secs(&self) -> (t: u64)
        ensures
            t == self.timeout_view(),
    {
        self.timeout_secs
    }
}

/// Builds an HTTP client whose requests time out after `timeout_secs`
/// (`reqwest::Client::builder().timeout(..).build()`), or gives the text of
/// reqwest's error. Whether the build succeeds depends on the machine (the
/// TLS backend, the resolver), so only the timeout handed over is promised.
#[verifier::external_body]
pub(crate) fn build_http_client(timeout_secs: u64) -> (r: Result<HttpClient, String>)
    ensures
        r matches Ok(h) ==> h.timeout_view() == timeout_secs,
{
    match reqwest::Client::builder().timeout(std::time::Duration::from_secs(timeout_secs)).build() {
        Ok(client) => Ok(HttpClient { client, timeout_secs }),
        Err(e) => Err(e.to_string()),
    }
}

} // verus!
