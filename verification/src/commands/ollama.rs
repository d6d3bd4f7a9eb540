//! Ollama commands: the client for an optional endpoint.

use vstd::prelude::*;
use crate::ollama::{default_ollama_url, OllamaClient};
use crate::text::trim_end_matching;

verus! {

/// The client for `url`, or for the default endpoint when none is given;
/// when its HTTP client cannot be built, the message with reqwest's error.
pub fn ollama_client_for(url: Option<String>) -> (r: Result<OllamaClient, String>)
    ensures
        r matches Ok(c) ==> c.base_url_view() == match url {
            Some(u) => trim_end_matching(u@, '/'),
            None => default_ollama_url(),
        },
        r matches Err(m) ==> exists|detail: Seq<char>| m@ == "Failed to create HTTP client: "@ + detail,
{
    let created = match url {
        Some(u) => OllamaClient::new(u.as_str()),
        None => OllamaClient::default(),
    };
    match created {
        Ok(c) => Ok(c),
        Err(e) => Err(e.to_string()),
    }
}

} // verus!
