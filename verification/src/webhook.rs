//! Webhook system for external integrations
//!
//! Decides whether an event is delivered to a webhook, builds the request
//! headers for its authentication method, and drives delivery with retries
//! and exponential backoff. The HTTP exchange itself is made by the caller,
//! which reports each attempt's outcome back to [`WebhookDelivery`].

use vstd::prelude::*;
use vstd::utf8::encode_utf8;
use crate::http::{build_http_client, HttpClient};

verus! {

/// Webhook event types
#[derive(Clone, Copy, Debug, PartialEq, Eq, Structural)]
pub enum WebhookEventType {
    /// Recording started
    RecordingStarted,
    /// Recording stopped
    RecordingStopped,
    /// Transcription completed
    TranscriptionComplete,
    /// Transcription error
    TranscriptionError,
}

/// Webhook authentication method
#[derive(Clone, Debug)]
pub enum WebhookAuth {
    /// No authentication
    NoAuth,
    /// Bearer token authentication
    Bearer { token: String },
    /// API key in header
    ApiKey { header: String, value: String },
    /// Basic authentication
    Basic { username: String, password: String },
}

impl Default for WebhookAuth {
    fn default() -> (auth: Self)
        ensures
            auth is NoAuth,
    {
        WebhookAuth::NoAuth
    }
}

/// Webhook configuration
#[derive(Clone, Debug)]
pub struct WebhookConfig {
    /// Unique identifier for this webhook
    pub id: String,
    /// Display name
    pub name: String,
    /// Webhook URL
    pub url: String,
    /// Events to trigger on
    pub events: Vec<WebhookEventType>,
    /// Authentication method
    pub auth: WebhookAuth,
    /// Whether webhook is enabled
    pub enabled: bool,
    /// Retry attempts on failure
    pub max_retries: u32,
    /// Timeout in seconds
    pub timeout_secs: u64,
}

/// Default of `enabled` for a configuration that does not give it.
pub fn default_true() -> (b: bool)
    ensures
        b,
{
    true
}

/// Default of `max_retries` for a configuration that does not give it.
pub fn default_retries() -> (n: u32)
    ensures
        n == 3,
{
    3
}

/// Default of `timeout_secs` for a configuration that does not give it.
pub fn default_timeout() -> (n: u64)
    ensures
        n == 10,
{
    10
}

/// Webhook event data
#[derive(Clone, Debug)]
pub enum WebhookData {
    /// Recording started event
    RecordingStarted {},
    /// Recording stopped event
    RecordingStopped { duration_ms: u64 },
    /// Transcription complete event
    TranscriptionComplete {
        text: String,
        duration_ms: u64,
        language: String,
        model: String,
        confidence_permille: Option<u32>,
    },
    /// Transcription error event
    TranscriptionError { error: String },
}

/// Webhook payload
#[derive(Clone, Debug)]
pub struct WebhookPayload {
    /// Event type
    pub event: WebhookEventType,
    /// Timestamp (ISO 8601)
    pub timestamp: String,
    /// Event data
    pub data: WebhookData,
}

/// Why a webhook request could not be built or sent.
#[derive(Clone, Copy, Debug, PartialEq, Eq, Structural)]
pub enum WebhookError {
    /// The HTTP client could not be created.
    HttpClient,
    /// The bearer token does not form a valid header value.
    InvalidBearerToken,
    /// The API key header name is not a valid header name.
    InvalidHeaderName,
    /// The API key value is not a valid header value.
    InvalidHeaderValue,
    /// The basic credentials do not form a valid header value.
    InvalidBasicAuth,
}

/// The message of a webhook error.
pub open spec fn webhook_error_message(e: WebhookError) -> Seq<char> {
    match e {
        WebhookError::HttpClient => "Failed to create HTTP client"@,
        WebhookError::InvalidBearerToken => "Invalid bearer token"@,
        WebhookError::InvalidHeaderName => "Invalid header name"@,
        WebhookError::InvalidHeaderValue => "Invalid header value"@,
        WebhookError::InvalidBasicAuth => "Invalid basic auth"@,
    }
}

impl WebhookError {
    /// The human-readable message of the error.
    pub fn to_string(&self) -> (text: String)
        ensures
            text@ == webhook_error_message(*self),
    {
        match self {
            WebhookError::HttpClient => "Failed to create HTTP client".to_owned(),
            WebhookError::InvalidBearerToken => "Invalid bearer token".to_owned(),
            WebhookError::InvalidHeaderName => "Invalid header name".to_owned(),
            WebhookError::InvalidHeaderValue => "Invalid header value".to_owned(),
            WebhookError::InvalidBasicAuth => "Invalid basic auth".to_owned(),
        }
    }
}

/// Whether `events` holds `event`.
pub fn contains_event(events: &Vec<WebhookEventType>, event: WebhookEventType) -> (found: bool)
    ensures
        found == events@.contains(event),
{
    let mut i: usize = 0;
    while i < events.len()
        invariant
            i <= events@.len(),
            forall|j: int| 0 <= j < i ==> events@[j] != event,
        decreases events@.len() - i,
    {
        if events[i] == event {
            assert(events@[i as int] == event);
            return true;
        }
        i = i + 1;
    }
    false
}

/// Whether a webhook with this configuration is sent for `event`: it must be
/// enabled and subscribed to the event.
pub open spec fn delivers(config: WebhookConfig, event: WebhookEventType) -> bool {
    config.enabled && config.events@.contains(event)
}

impl WebhookConfig {
    /// Whether this webhook is sent for `event` (enabled and subscribed).
    pub fn should_send(&self, event: WebhookEventType) -> (send: bool)
        ensures
            send == delivers(*self, event),
    {
        self.enabled && contains_event(&self.events, event)
    }
}

/// Two to the power `k`.
pub open spec fn pow2(k: nat) -> nat
    decreases k,
{
    if k == 0 {
        1
    } else {
        2 * pow2((k - 1) as nat)
    }
}

/// The pause before an attempt, in milliseconds: none before the first, then
/// 100 ms, 200 ms, 400 ms, ... doubling for each retry, held at `u64::MAX`.
pub open spec fn backoff_ms(attempt: nat) -> nat {
    if attempt == 0 {
        0
    } else if 100 * pow2((attempt - 1) as nat) > u64::MAX {
        u64::MAX as nat
    } else {
        100 * pow2((attempt - 1) as nat)
    }
}

/// The pause before attempt number `attempt` (0 is the first attempt).
pub fn retry_backoff_ms(attempt: u32) -> (delay: u64)
    ensures
        delay == backoff_ms(attempt as nat),
{
    if attempt == 0 {
        return 0;
    }
    let mut delay: u64 = 100;
    let mut k: u32 = 1;
    while k < attempt
        invariant
            1 <= k <= attempt,
            delay == 100 * pow2((k - 1) as nat) <= u64::MAX,
        decreases attempt - k,
    {
        if delay > u64::MAX / 2 {
            assert(100 * pow2(k as nat) > u64::MAX) by {
                assert(pow2(k as nat) == 2 * pow2((k - 1) as nat));
            }
            assert forall|j: nat| j >= k implies 100 * pow2(j) > u64::MAX by {
                lemma_pow2_monotone(k as nat, j);
            }
            assert(100 * pow2((attempt - 1) as nat) > u64::MAX);
            return u64::MAX;
        }
        delay = delay * 2;
        k = k + 1;
    }
    delay
}

/// `pow2` does not decrease.
pub proof fn lemma_pow2_monotone(i: nat, j: nat)
    requires
        i <= j,
    ensures
        pow2(i) <= pow2(j),
    decreases j - i,
{
    if i < j {
        lemma_pow2_monotone(i, (j - 1) as nat);
    }
}

/// Where a delivery stands.
#[derive(Clone, Copy, Debug, PartialEq, Eq, Structural)]
pub enum DeliveryStatus {
    /// More attempts are to be made.
    Pending,
    /// The webhook is disabled or not subscribed to the event: nothing is sent.
    Skipped,
    /// An attempt succeeded.
    Delivered,
    /// Every allowed attempt failed.
    Failed,
}

/// What the caller does next for a delivery.
#[derive(Clone, Copy, Debug, PartialEq, Eq, Structural)]
pub enum DeliveryStep {
    /// Wait `delay_ms`, then send; `attempt` counts from 0.
    Attempt { attempt: u32, delay_ms: u64 },
    /// Done without sending.
    Skipped,
    /// Done: the webhook was received.
    Delivered,
    /// Done: every attempt failed; the last attempt's error is the result.
    Failed,
}

/// The abstract state of a delivery: its retry limit, the attempts made so
/// far and where it stands.
pub struct DeliveryView {
    pub retry_limit: nat,
    pub attempts: nat,
    pub status: DeliveryStatus,
}

/// The internal consistency of a delivery: at most `retry_limit + 1`
/// attempts, no attempt before a skip, all of them after a failure.
pub open spec fn delivery_well_formed(v: DeliveryView) -> bool {
    &&& v.attempts <= v.retry_limit + 1
    &&& v.status is Pending ==> v.attempts <= v.retry_limit
    &&& v.status is Skipped ==> v.attempts == 0
    &&& v.status is Delivered ==> v.attempts >= 1
    &&& v.status is Failed ==> v.attempts == v.retry_limit + 1
}

/// A pending delivery after one attempt with the given outcome.
pub open spec fn delivery_step(v: DeliveryView, succeeded: bool) -> DeliveryView {
    DeliveryView {
        retry_limit: v.retry_limit,
        attempts: v.attempts + 1,
        status: if succeeded {
            DeliveryStatus::Delivered
        } else if v.attempts + 1 > v.retry_limit {
            DeliveryStatus::Failed
        } else {
            DeliveryStatus::Pending
        },
    }
}

/// The delivery that starts for `event` through a webhook configured so.
pub open spec fn delivery_start(config: WebhookConfig, event: WebhookEventType) -> DeliveryView {
    DeliveryView {
        retry_limit: config.max_retries as nat,
        attempts: 0,
        status: if delivers(config, event) {
            DeliveryStatus::Pending
        } else {
            DeliveryStatus::Skipped
        },
    }
}

/// The retry loop of one webhook delivery.
pub struct WebhookDelivery {
    max_retries: u32,
    attempts: u64,
    status: DeliveryStatus,
}

impl View for WebhookDelivery {
    type V = DeliveryView;

    closed spec fn view(&self) -> DeliveryView {
        DeliveryView {
            retry_limit: self.max_retries as nat,
            attempts: self.attempts as nat,
            status: self.status,
        }
    }
}

impl WebhookDelivery {
    /// Starts the delivery of an event through a webhook.
    pub fn new(config: &WebhookConfig, event: WebhookEventType) -> (d: Self)
        ensures
            d@ == delivery_start(*config, event),
            delivery_well_formed(d@),
    {
        let status = if config.should_send(event) {
            DeliveryStatus::Pending
        } else {
            DeliveryStatus::Skipped
        };
        WebhookDelivery { max_retries: config.max_retries, attempts: 0, status }
    }

    /// Where the delivery stands.
    pub fn status(&self) -> (s: DeliveryStatus)
        ensures
            s == self@.status,
    {
        self.status
    }

    /// The number of attempts made so far.
    pub fn attempts(&self) -> (n: u64)
        ensures
            n == self@.attempts,
    {
        self.attempts
    }

    /// What to do next: the next attempt with its backoff, or the outcome.
    pub fn next_step(&self) -> (step: DeliveryStep)
        requires
            delivery_well_formed(self@),
        ensures
            match self@.status {
                DeliveryStatus::Pending => step == DeliveryStep::Attempt {
                    attempt: self@.attempts as u32,
                    delay_ms: backoff_ms(self@.attempts) as u64,
                },
                DeliveryStatus::Skipped => step == DeliveryStep::Skipped,
                DeliveryStatus::Delivered => step == DeliveryStep::Delivered,
                DeliveryStatus::Failed => step == DeliveryStep::Failed,
            },
    {
        match self.status {
            DeliveryStatus::Pending => {
                let attempt = self.attempts as u32;
                DeliveryStep::Attempt { attempt, delay_ms: retry_backoff_ms(attempt) }
            },
            DeliveryStatus::Skipped => DeliveryStep::Skipped,
            DeliveryStatus::Delivered => DeliveryStep::Delivered,
            DeliveryStatus::Failed => DeliveryStep::Failed,
        }
    }

    /// Records the outcome of the attempt that `next_step` asked for.
    pub fn record_attempt(&mut self, succeeded: bool)
        requires
            delivery_well_formed(old(self)@),
            old(self)@.status is Pending,
        ensures
            final(self)@ == delivery_step(old(self)@, succeeded),
            delivery_well_formed(final(self)@),
    {
        self.attempts = self.attempts + 1;
        if succeeded {
            self.status = DeliveryStatus::Delivered;
        } else if self.attempts > self.max_retries as u64 {
            self.status = DeliveryStatus::Failed;
        }
    }
}

/// A delivery after the attempts whose outcomes are given in order; outcomes
/// after the delivery has finished are not used.
pub open spec fn delivery_run(v: DeliveryView, outcomes: Seq<bool>) -> DeliveryView
    decreases outcomes.len(),
{
    if outcomes.len() == 0 || !(v.status is Pending) {
        v
    } else {
        delivery_run(delivery_step(v, outcomes[0]), outcomes.drop_first())
    }
}

/// A pending delivery, given an outcome for each attempt it may still make,
/// ends delivered exactly when one of those attempts succeeds, after the
/// first successful one; otherwise it ends failed after all of them.
pub proof fn lemma_pending_delivery_run(v: DeliveryView, outcomes: Seq<bool>)
    requires
        delivery_well_formed(v),
        v.status is Pending,
        outcomes.len() >= v.retry_limit + 1 - v.attempts,
    ensures
        ({
            let e = delivery_run(v, outcomes);
            let left = v.retry_limit + 1 - v.attempts;
            &&& delivery_well_formed(e)
            &&& e.retry_limit == v.retry_limit
            &&& e.attempts > v.attempts
            &&& e.status is Delivered || e.status is Failed
            &&& (e.status is Delivered <==> exists|i: int| 0 <= i < left && outcomes[i])
            &&& e.status is Delivered ==> {
                &&& outcomes[e.attempts - v.attempts - 1]
                &&& forall|j: int| 0 <= j < e.attempts - v.attempts - 1 ==> !outcomes[j]
            }
        }),
    decreases outcomes.len(),
{
    let next = delivery_step(v, outcomes[0]);
    let rest = outcomes.drop_first();
    let left = v.retry_limit + 1 - v.attempts;
    if next.status is Pending {
        lemma_pending_delivery_run(next, rest);
        let e = delivery_run(next, rest);
        assert(delivery_run(v, outcomes) == e);
        if e.status is Delivered {
            let i = choose|i: int| 0 <= i < left - 1 && rest[i];
            assert(outcomes[i + 1] == rest[i]);
            assert forall|j: int| 0 <= j < e.attempts - v.attempts - 1 implies !outcomes[j] by {
                if j > 0 {
                    assert(outcomes[j] == rest[j - 1]);
                }
            }
            let k = e.attempts - next.attempts - 1;
            assert(outcomes[k + 1] == rest[k]);
        } else {
            assert forall|i: int| 0 <= i < left implies !outcomes[i] by {
                if i > 0 {
                    assert(outcomes[i] == rest[i - 1]);
                }
            }
        }
    } else {
        assert(delivery_run(next, rest) == next) by {
            reveal_with_fuel(delivery_run, 1);
        }
        assert(delivery_run(v, outcomes) == next);
    }
}

/// Delivery law: a webhook that is disabled or not subscribed to the event is
/// skipped without any attempt; otherwise, given an outcome for each of the
/// `max_retries + 1` attempts it may make, it is delivered exactly when one of
/// them succeeds (and stops at the first success), and fails after all
/// `max_retries + 1` attempts otherwise.
pub proof fn lemma_delivery_outcome(
    config: WebhookConfig,
    event: WebhookEventType,
    outcomes: Seq<bool>,
)
    requires
        outcomes.len() >= config.max_retries + 1,
    ensures
        ({
            let e = delivery_run(delivery_start(config, event), outcomes);
            &&& !delivers(config, event) ==> e.status is Skipped && e.attempts == 0
            &&& delivers(config, event) ==> {
                &&& e.status is Delivered || e.status is Failed
                &&& (e.status is Delivered <==> exists|i: int|
                    0 <= i <= config.max_retries && outcomes[i])
                &&& e.status is Delivered ==> {
                    &&& outcomes[e.attempts - 1]
                    &&& forall|j: int| 0 <= j < e.attempts - 1 ==> !outcomes[j]
                }
                &&& e.status is Failed ==> e.attempts == config.max_retries + 1
            }
        }),
{
    let v = delivery_start(config, event);
    if delivers(config, event) {
        lemma_pending_delivery_run(v, outcomes);
    } else {
        assert(delivery_run(v, outcomes) == v);
    }
}

/// A byte allowed in an HTTP header name (an RFC 7230 token character).
pub open spec fn is_header_name_byte(b: u8) -> bool {
    ||| 48 <= b <= 57
    ||| 65 <= b <= 90
    ||| 97 <= b <= 122
    ||| b == 33 || b == 35 || b == 36 || b == 37 || b == 38 || b == 39
    ||| b == 42 || b == 43 || b == 45 || b == 46
    ||| b == 94 || b == 95 || b == 96 || b == 124 || b == 126
}

/// Whether bytes form a header name that `http` accepts: one to 65535 token
/// characters.
pub open spec fn valid_header_name(bytes: Seq<u8>) -> bool {
    &&& 1 <= bytes.len() <= 65535
    &&& forall|i: int| 0 <= i < bytes.len() ==> is_header_name_byte(#[trigger] bytes[i])
}

/// Whether bytes form a header value that `http` accepts: no control byte
/// other than horizontal tab.
pub open spec fn valid_header_value(bytes: Seq<u8>) -> bool {
    forall|i: int|
        0 <= i < bytes.len() ==> (#[trigger] bytes[i] >= 32 && bytes[i] != 127) || bytes[i] == 9
}

/// Whether `reqwest::header::HeaderName::from_bytes` accepts the UTF-8 bytes
/// of `name`. In http 1.x it accepts exactly the names of 1 to 65535 bytes
/// that are all token characters (upper case is folded to lower case).
#[verifier::external_body]
fn header_name_is_valid(name: &str) -> (ok: bool)
    ensures
        ok == valid_header_name(encode_utf8(name@)),
{
    reqwest::header::HeaderName::from_bytes(name.as_bytes()).is_ok()
}

/// Whether `reqwest::header::HeaderValue::from_str` accepts `value`. In
/// http 1.x it accepts exactly the strings whose UTF-8 bytes are all at least
/// 32 and not 127, or a horizontal tab.
#[verifier::external_body]
fn header_value_is_valid(value: &str) -> (ok: bool)
    ensures
        ok == valid_header_value(encode_utf8(value@)),
{
    reqwest::header::HeaderValue::from_str(value).is_ok()
}

/// The character of a 6-bit value in the standard base64 alphabet.
pub open spec fn base64_char(v: nat) -> char {
    if v < 26 {
        ((65 + v) as u32) as char
    } else if v < 52 {
        ((97 + v - 26) as u32) as char
    } else if v < 62 {
        ((48 + v - 52) as u32) as char
    } else if v == 62 {
        '+'
    } else {
        '/'
    }
}

/// Standard base64 (RFC 4648, `+` and `/`, `=` padding) of a byte sequence.
pub open spec fn base64_standard(bytes: Seq<u8>) -> Seq<char>
    decreases bytes.len(),
{
    if bytes.len() == 0 {
        seq![]
    } else if bytes.len() == 1 {
        seq![base64_char(bytes[0] as nat / 4), base64_char((bytes[0] as nat % 4) * 16), '=', '=']
    } else if bytes.len() == 2 {
        seq![
            base64_char(bytes[0] as nat / 4),
            base64_char((bytes[0] as nat % 4) * 16 + bytes[1] as nat / 16),
            base64_char((bytes[1] as nat % 16) * 4),
            '=',
        ]
    } else {
        seq![
            base64_char(bytes[0] as nat / 4),
            base64_char((bytes[0] as nat % 4) * 16 + bytes[1] as nat / 16),
            base64_char((bytes[1] as nat % 16) * 4 + bytes[2] as nat / 64),
            base64_char(bytes[2] as nat % 64),
        ] + base64_standard(bytes.skip(3))
    }
}

/// Base64 with the standard alphabet and padding (`base64::encode`, 0.21),
/// as RFC 4648 defines it. It panics only when the encoded length overflows
/// `usize`, which the bound on the input rules out.
#[verifier::external_body]
#[allow(deprecated)]
fn base64_encode(input: &[u8]) -> (encoded: String)
    requires
        input@.len() <= isize::MAX,
    ensures
        encoded@ == base64_standard(input@),
{
    base64::encode(input)
}

/// The header that marks a webhook body as JSON.
pub open spec fn content_type_header() -> (Seq<char>, Seq<char>) {
    ("content-type"@, "application/json"@)
}

/// The `Authorization` value of basic credentials.
pub open spec fn basic_authorization(username: Seq<char>, password: Seq<char>) -> Seq<char> {
    "Basic "@ + base64_standard(encode_utf8(username + ":"@ + password))
}

/// The headers of a webhook request with this authentication, or why they
/// cannot be built.
pub open spec fn webhook_headers(auth: WebhookAuth) -> Result<Seq<(Seq<char>, Seq<char>)>, WebhookError> {
    match auth {
        WebhookAuth::NoAuth => Ok(seq![content_type_header()]),
        WebhookAuth::Bearer { token } => {
            let value = "Bearer "@ + token@;
            if valid_header_value(encode_utf8(value)) {
                Ok(seq![content_type_header(), ("authorization"@, value)])
            } else {
                Err(WebhookError::InvalidBearerToken)
            }
        },
        WebhookAuth::ApiKey { header, value } => {
            if !valid_header_name(encode_utf8(header@)) {
                Err(WebhookError::InvalidHeaderName)
            } else if !valid_header_value(encode_utf8(value@)) {
                Err(WebhookError::InvalidHeaderValue)
            } else {
                Ok(seq![content_type_header(), (header@, value@)])
            }
        },
        WebhookAuth::Basic { username, password } => {
            let value = basic_authorization(username@, password@);
            if valid_header_value(encode_utf8(value)) {
                Ok(seq![content_type_header(), ("authorization"@, value)])
            } else {
                Err(WebhookError::InvalidBasicAuth)
            }
        },
    }
}

/// The views of a list of headers.
pub open spec fn header_views(headers: Seq<(String, String)>) -> Seq<(Seq<char>, Seq<char>)> {
    headers.map_values(|h: (String, String)| (h.0@, h.1@))
}

/// Whether the basic credentials of an authentication, if any, are short
/// enough to be base64-encoded in memory.
pub open spec fn credentials_fit(auth: WebhookAuth) -> bool {
    match auth {
        WebhookAuth::Basic { username, password } => encode_utf8(
            username@ + ":"@ + password@,
        ).len() <= isize::MAX,
        _ => true,
    }
}

/// Builds the headers of a webhook request: the JSON content type, then the
/// authentication header, in the order in which they are inserted.
pub fn request_headers(auth: &WebhookAuth) -> (r: Result<Vec<(String, String)>, WebhookError>)
    requires
        credentials_fit(*auth),
    ensures
        match r {
            Ok(headers) => webhook_headers(*auth) == Ok::<_, WebhookError>(header_views(headers@)),
            Err(e) => webhook_headers(*auth) == Err::<Seq<(Seq<char>, Seq<char>)>, _>(e),
        },
{
    let mut headers: Vec<(String, String)> = Vec::new();
    headers.push(("content-type".to_owned(), "application/json".to_owned()));
    match auth {
        WebhookAuth::NoAuth => {},
        WebhookAuth::Bearer { token } => {
            let mut value = "Bearer ".to_owned();
            value.append(token.as_str());
            if !header_value_is_valid(value.as_str()) {
                return Err(WebhookError::InvalidBearerToken);
            }
            headers.push(("authorization".to_owned(), value));
        },
        WebhookAuth::ApiKey { header, value } => {
            if !header_name_is_valid(header.as_str()) {
                return Err(WebhookError::InvalidHeaderName);
            }
            if !header_value_is_valid(value.as_str()) {
                return Err(WebhookError::InvalidHeaderValue);
            }
            headers.push((header.clone(), value.clone()));
        },
        WebhookAuth::Basic { username, password } => {
            let mut credentials = username.clone();
            credentials.append(":");
            credentials.append(password.as_str());
            let encoded = base64_encode(credentials.as_str().as_bytes());
            let mut value = "Basic ".to_owned();
            value.append(encoded.as_str());
            if !header_value_is_valid(value.as_str()) {
                return Err(WebhookError::InvalidBasicAuth);
            }
            headers.push(("authorization".to_owned(), value));
        },
    }
    assert(header_views(headers@) =~= webhook_headers(*auth)->Ok_0);
    Ok(headers)
}

/// Whether an HTTP status code reports success (2xx), as
/// `StatusCode::is_success` decides.
pub fn is_success_status(status: u16) -> (ok: bool)
    ensures
        ok == (200 <= status <= 299),
{
    200 <= status && status <= 299
}

/// The message of a webhook request that got an unsuccessful response:
/// the status as displayed (`status_text`, e.g. "404 Not Found") and the
/// response body, or "No body" when it could not be read.
pub fn failure_message(status_text: &str, body: Option<String>) -> (m: String)
    ensures
        m@ == "Webhook failed with status "@ + status_text@ + ": "@ + match body {
            Some(b) => b@,
            None => "No body"@,
        },
{
    let mut m = "Webhook failed with status ".to_owned();
    m.append(status_text);
    m.append(": ");
    match body {
        Some(b) => m.append(b.as_str()),
        None => m.append("No body"),
    }
    m
}

/// Webhook client: the HTTP client through which the application sends
/// webhooks (30 second timeout).
pub struct WebhookClient {
    client: HttpClient,
}

impl WebhookClient {
    /// The HTTP client through which webhooks are sent.
    pub closed spec fn http_client_view(self) -> reqwest::Client {
        self.client.client_view()
    }

    /// The timeout, in seconds, that the HTTP client was built with.
    pub closed spec fn timeout_secs_view(self) -> nat {
        self.client.timeout_view()
    }

    /// Creates a new webhook client whose requests time out after 30
    /// seconds. It fails only when the HTTP client cannot be built, which
    /// depends on the machine.
    pub fn new() -> (r: Result<Self, WebhookError>)
        ensures
            match r {
                Ok(c) => c.timeout_secs_view() == 30,
                Err(e) => e == WebhookError::HttpClient,
            },
    {
        match build_http_client(30) {
            Ok(client) => Ok(WebhookClient { client }),
            Err(_) => Err(WebhookError::HttpClient),
        }
    }

    /// The HTTP client that sends the requests.
    pub fn http_client(&self) -> (c: &reqwest::Client)
        ensures
            *c == self.http_client_view(),
    {
        self.client.client()
    }

    /// The timeout, in seconds, that the HTTP client was built with.
    pub fn timeout_secs(&self) -> (t: u64)
        ensures
            t == self.timeout_secs_view(),
    {
        self.client.timeout_secs()
    }
}

} // verus!
