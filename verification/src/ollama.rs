//! Ollama integration module
//!
//! Builds the requests that post-process transcriptions with a local LLM
//! served by Ollama's HTTP API, and the endpoints they are sent to. The HTTP
//! exchange is made by the application through the client's HTTP client.

use vstd::prelude::*;
use crate::http::{build_http_client, HttpClient};
use crate::text::{trim, trim_end_matches_char, trim_end_matching, trim_whitespace};

verus! {

/// Why an Ollama client could not be created.
#[derive(Clone, Debug)]
pub enum OllamaError {
    /// The HTTP client could not be built; reqwest's message.
    HttpClient(String),
}

impl OllamaError {
    /// The human-readable message of the error.
    pub fn to_string(&self) -> (text: String)
        ensures
            text@ == "Failed to create HTTP client: "@ + self->HttpClient_0@,
    {
        match self {
            OllamaError::HttpClient(detail) => {
                let mut text = "Failed to create HTTP client: ".to_owned();
                text.append(detail.as_str());
                text
            },
        }
    }
}

/// Ollama HTTP client for local LLM processing
///
/// Holds the endpoint of a locally-running Ollama instance, the request
/// timeout and the HTTP client that talks to it.
pub struct OllamaClient {
    base_url: String,
    client: HttpClient,
    timeout_ms: u64,
}

/// Request to Ollama for text processing
#[derive(Clone, Debug)]
pub struct OllamaRequest {
    /// Model name (e.g., "llama3.2", "mistral", "gemma2")
    pub model: String,
    /// System prompt describing the task
    pub system: Option<String>,
    /// The text to process (transcription)
    pub prompt: String,
    /// Temperature in hundredths (0 = deterministic, 100 = creative, at most 200)
    pub temperature_hundredths: Option<u32>,
    /// Whether to stream the response
    pub stream: bool,
}

/// Response from Ollama
#[derive(Clone, Debug)]
pub struct OllamaResponse {
    pub model: String,
    pub created_at: String,
    pub response: String,
    pub done: bool,
}

/// Ollama processing mode
#[derive(Clone, Debug, PartialEq, Eq)]
pub enum ProcessingMode {
    /// Add punctuation and capitalization
    Punctuation,
    /// Summarize the text
    Summarize,
    /// Extract commands
    CommandExtraction,
    /// Custom user-defined prompt
    Custom { prompt: String },
    /// No processing
    Disabled,
}

impl ProcessingMode {
    /// Whether this mode leaves the text as it is.
    pub fn is_disabled(&self) -> (b: bool)
        ensures
            b == (*self is Disabled),
    {
        match self {
            ProcessingMode::Disabled => true,
            _ => false,
        }
    }
}

/// The default Ollama endpoint.
pub open spec fn default_ollama_url() -> Seq<char> {
    "http://localhost:11434"@
}

impl OllamaClient {
    /// The base URL, without trailing slashes.
    pub closed spec fn base_url_view(self) -> Seq<char> {
        self.base_url@
    }

    /// The request timeout in milliseconds.
    pub closed spec fn timeout_view(self) -> nat {
        self.timeout_ms as nat
    }

    /// The HTTP client through which requests are sent.
    pub closed spec fn http_client_view(self) -> reqwest::Client {
        self.client.client_view()
    }

    /// The timeout, in seconds, that the HTTP client was built with.
    pub closed spec fn client_timeout_view(self) -> nat {
        self.client.timeout_view()
    }

    /// Creates a new Ollama client for `base_url` (typically
    /// "http://localhost:11434"); trailing slashes are removed. It fails only
    /// when the HTTP client cannot be built, which depends on the machine.
    pub fn new(base_url: &str) -> (r: Result<Self, OllamaError>)
        ensures
            match r {
                Ok(c) => c.base_url_view() == trim_end_matching(base_url@, '/') && c.timeout_view()
                    == 30_000 && c.client_timeout_view() == 30,
                Err(e) => e is HttpClient,
            },
    {
        match build_http_client(30) {
            Ok(client) => Ok(Self::with_http_client(base_url, client)),
            Err(detail) => Err(OllamaError::HttpClient(detail)),
        }
    }

    /// A client for `base_url` that uses the given HTTP client.
    pub fn with_http_client(base_url: &str, client: HttpClient) -> (c: Self)
        ensures
            c.base_url_view() == trim_end_matching(base_url@, '/'),
            c.timeout_view() == 30_000,
            c.http_client_view() == client.client_view(),
            c.client_timeout_view() == client.timeout_view(),
    {
        OllamaClient { base_url: trim_end_matches_char(base_url, '/'), client, timeout_ms: 30_000 }
    }

    /// Creates client with default settings (localhost:11434)
    pub fn default() -> (r: Result<Self, OllamaError>)
        ensures
            match r {
                Ok(c) => c.base_url_view() == default_ollama_url() && c.timeout_view() == 30_000
                    && c.client_timeout_view() == 30,
                Err(e) => e is HttpClient,
            },
    {
        let r = Self::new("http://localhost:11434");
        proof {
            reveal_strlit("http://localhost:11434");
            assert(trim_end_matching(default_ollama_url(), '/') == default_ollama_url());
        }
        r
    }

    /// Sets request timeout, in milliseconds
    pub fn with_timeout(self, timeout_ms: u64) -> (c: Self)
        ensures
            c.base_url_view() == self.base_url_view(),
            c.timeout_view() == timeout_ms,
            c.http_client_view() == self.http_client_view(),
            c.client_timeout_view() == self.client_timeout_view(),
    {
        let mut c = self;
        c.timeout_ms = timeout_ms;
        c
    }

    /// The base URL of the Ollama API.
    pub fn base_url(&self) -> (url: String)
        ensures
            url@ == self.base_url_view(),
    {
        self.base_url.clone()
    }

    /// The request timeout in milliseconds.
    pub fn timeout_ms(&self) -> (ms: u64)
        ensures
            ms == self.timeout_view(),
    {
        self.timeout_ms
    }

    /// The timeout, in seconds, that the HTTP client was built with.
    pub fn client_timeout_secs(&self) -> (t: u64)
        ensures
            t == self.client_timeout_view(),
    {
        self.client.timeout_secs()
    }

    /// The HTTP client that sends the requests.
    pub fn http_client(&self) -> (c: &reqwest::Client)
        ensures
            *c == self.http_client_view(),
    {
        self.client.client()
    }

    /// The endpoint that lists the available models.
    pub fn tags_url(&self) -> (url: String)
        ensures
            url@ == self.base_url_view() + "/api/tags"@,
    {
        let mut url = self.base_url.clone();
        url.append("/api/tags");
        url
    }

    /// The endpoint that generates a completion.
    pub fn generate_url(&self) -> (url: String)
        ensures
            url@ == self.base_url_view() + "/api/generate"@,
    {
        let mut url = self.base_url.clone();
        url.append("/api/generate");
        url
    }
}

/// The text of a completion as the client returns it: the model's response
/// without surrounding whitespace.
pub fn completion_text(response: &OllamaResponse) -> (text: String)
    ensures
        text@ == trim_whitespace(response.response@),
{
    trim(response.response.as_str())
}

/// A temperature in hundredths held to the range Ollama accepts, 0 to 200.
pub open spec fn clamp_temperature(hundredths: int) -> u32 {
    if hundredths < 0 {
        0
    } else if hundredths > 200 {
        200
    } else {
        hundredths as u32
    }
}

impl OllamaRequest {
    /// Creates a new request for a model (e.g., "llama3.2")
    pub fn new(model: &str) -> (r: Self)
        ensures
            r.model@ == model@,
            r.system is None,
            r.prompt@ == Seq::<char>::empty(),
            r.temperature_hundredths is None,
            !r.stream,
    {
        OllamaRequest {
            model: model.to_owned(),
            system: None,
            prompt: String::new(),
            temperature_hundredths: None,
            stream: false,
        }
    }

    /// Sets the system prompt
    pub fn with_system(self, system: &str) -> (r: Self)
        ensures
            r.model == self.model,
            r.system is Some,
            r.system->0@ == system@,
            r.prompt == self.prompt,
            r.temperature_hundredths == self.temperature_hundredths,
            r.stream == self.stream,
    {
        let mut r = self;
        r.system = Some(system.to_owned());
        r
    }

    /// Sets the text to process
    pub fn with_text(self, text: &str) -> (r: Self)
        ensures
            r.model == self.model,
            r.system == self.system,
            r.prompt@ == text@,
            r.temperature_hundredths == self.temperature_hundredths,
            r.stream == self.stream,
    {
        let mut r = self;
        r.prompt = text.to_owned();
        r
    }

    /// Sets a custom prompt (overrides with_text)
    pub fn with_prompt(self, prompt: &str) -> (r: Self)
        ensures
            r.model == self.model,
            r.system == self.system,
            r.prompt@ == prompt@,
            r.temperature_hundredths == self.temperature_hundredths,
            r.stream == self.stream,
    {
        let mut r = self;
        r.prompt = prompt.to_owned();
        r
    }

    /// Sets the temperature, in hundredths, held to 0..=200
    pub fn with_temperature(self, hundredths: i32) -> (r: Self)
        ensures
            r.model == self.model,
            r.system == self.system,
            r.prompt == self.prompt,
            r.temperature_hundredths == Some(clamp_temperature(hundredths as int)),
            r.stream == self.stream,
    {
        let clamped: u32 = if hundredths < 0 {
            0
        } else if hundredths > 200 {
            200
        } else {
            hundredths as u32
        };
        let mut r = self;
        r.temperature_hundredths = Some(clamped);
        r
    }

    /// Enables streaming (not yet implemented)
    pub fn with_streaming(self, enabled: bool) -> (r: Self)
        ensures
            r.model == self.model,
            r.system == self.system,
            r.prompt == self.prompt,
            r.temperature_hundredths == self.temperature_hundredths,
            r.stream == enabled,
    {
        let mut r = self;
        r.stream = enabled;
        r
    }
}

/// System prompt of the punctuation mode.
pub open spec fn punctuation_prompt() -> Seq<char> {
    "You are a text formatter. Add proper punctuation and capitalization to the following text. Only return the formatted text, nothing else."@
}

/// System prompt of the summarization mode.
pub open spec fn summarize_prompt() -> Seq<char> {
    "You are a summarization expert. Provide a concise summary of the following text. Only return the summary, nothing else."@
}

/// System prompt of the command extraction mode.
pub open spec fn command_prompt() -> Seq<char> {
    "You are a command parser. Extract any commands or action items from the following text. List them clearly. If no commands are present, return 'No commands found'."@
}

/// The system prompt and temperature (hundredths) that a mode asks for;
/// `None` for the disabled mode, which leaves the text unprocessed.
pub open spec fn mode_settings(mode: ProcessingMode) -> Option<(Seq<char>, u32)> {
    match mode {
        ProcessingMode::Punctuation => Some((punctuation_prompt(), 10u32)),
        ProcessingMode::Summarize => Some((summarize_prompt(), 30u32)),
        ProcessingMode::CommandExtraction => Some((command_prompt(), 20u32)),
        ProcessingMode::Custom { prompt } => Some((prompt@, 30u32)),
        ProcessingMode::Disabled => None,
    }
}

/// Mode law: every mode but the disabled one gives a request for the text
/// and model with its own system prompt and temperature: punctuation
/// formatting at 0.10, summarization at 0.30, command extraction at 0.20, and
/// a custom mode's own prompt at 0.30; the three predefined prompts differ.
pub proof fn lemma_mode_prompts(mode: ProcessingMode)
    ensures
        mode is Punctuation ==> mode_settings(mode) == Some(
            (
                "You are a text formatter. Add proper punctuation and capitalization to the following text. Only return the formatted text, nothing else."@,
                10u32,
            ),
        ),
        mode is Summarize ==> mode_settings(mode) == Some(
            (
                "You are a summarization expert. Provide a concise summary of the following text. Only return the summary, nothing else."@,
                30u32,
            ),
        ),
        mode is CommandExtraction ==> mode_settings(mode) == Some(
            (
                "You are a command parser. Extract any commands or action items from the following text. List them clearly. If no commands are present, return 'No commands found'."@,
                20u32,
            ),
        ),
        mode matches ProcessingMode::Custom { prompt } ==> mode_settings(mode) == Some(
            (prompt@, 30u32),
        ),
        mode is Disabled <==> mode_settings(mode) is None,
        punctuation_prompt() != summarize_prompt(),
        punctuation_prompt() != command_prompt(),
        summarize_prompt() != command_prompt(),
{
    reveal_strlit(
        "You are a text formatter. Add proper punctuation and capitalization to the following text. Only return the formatted text, nothing else.",
    );
    reveal_strlit(
        "You are a summarization expert. Provide a concise summary of the following text. Only return the summary, nothing else.",
    );
    reveal_strlit(
        "You are a command parser. Extract any commands or action items from the following text. List them clearly. If no commands are present, return 'No commands found'.",
    );
    assert(punctuation_prompt()[10] != summarize_prompt()[10]);
    assert(punctuation_prompt()[10] != command_prompt()[10]);
    assert(summarize_prompt()[10] != command_prompt()[10]);
}

/// The request that processes `text` with `model` in a predefined mode, or
/// `None` when the mode is disabled and the text is used as it is.
pub fn mode_request(text: &str, mode: &ProcessingMode, model: &str) -> (r: Option<OllamaRequest>)
    ensures
        match mode_settings(*mode) {
            None => r is None,
            Some((system, temperature)) => {
                &&& r is Some
                &&& r->0.model@ == model@
                &&& r->0.system is Some
                &&& r->0.system->0@ == system
                &&& r->0.prompt@ == text@
                &&& r->0.temperature_hundredths == Some(temperature)
                &&& !r->0.stream
            },
        },
{
    match mode {
        ProcessingMode::Disabled => None,
        ProcessingMode::Punctuation => Some(
            OllamaRequest::new(model).with_system(
                "You are a text formatter. Add proper punctuation and capitalization to the following text. Only return the formatted text, nothing else.",
            ).with_text(text).with_temperature(10),
        ),
        ProcessingMode::Summarize => Some(
            OllamaRequest::new(model).with_system(
                "You are a summarization expert. Provide a concise summary of the following text. Only return the summary, nothing else.",
            ).with_text(text).with_temperature(30),
        ),
        ProcessingMode::CommandExtraction => Some(
            OllamaRequest::new(model).with_system(
                "You are a command parser. Extract any commands or action items from the following text. List them clearly. If no commands are present, return 'No commands found'.",
            ).with_text(text).with_temperature(20),
        ),
        ProcessingMode::Custom { prompt } => Some(
            OllamaRequest::new(model).with_system(prompt.as_str()).with_text(text).with_temperature(
                30,
            ),
        ),
    }
}

} // verus!
