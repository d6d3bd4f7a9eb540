//! Webhook commands: validating a URL, listing the event and authentication
//! types, and building the request of a connectivity test.

use vstd::prelude::*;
use crate::text::{has_prefix, starts_with, str_equals};
use crate::webhook::{
    webhook_headers, WebhookAuth, WebhookConfig, WebhookData, WebhookEventType, WebhookPayload,
};

verus! {

/// Whether a URL is one a webhook can be sent to: it must use HTTP or HTTPS.
pub fn validate_webhook_url(url: &str) -> (valid: bool)
    ensures
        valid == (has_prefix(url@, "http://"@) || has_prefix(url@, "https://"@)),
{
    starts_with(url, "http://") || starts_with(url, "https://")
}

/// The names of the webhook event types.
pub fn get_webhook_event_types() -> (names: Vec<String>)
    ensures
        names@.len() == 4,
        names@[0]@ == "recording_started"@,
        names@[1]@ == "recording_stopped"@,
        names@[2]@ == "transcription_complete"@,
        names@[3]@ == "transcription_error"@,
{
    let mut names = Vec::new();
    names.push("recording_started".to_owned());
    names.push("recording_stopped".to_owned());
    names.push("transcription_complete".to_owned());
    names.push("transcription_error".to_owned());
    names
}

/// The names under which the webhook authentication types are offered.
pub open spec fn auth_type_names() -> Seq<Seq<char>> {
    seq!["none"@, "bearer"@, "api_key"@, "basic"@]
}

/// The names of the webhook authentication types.
pub fn get_webhook_auth_types() -> (names: Vec<String>)
    ensures
        names@.len() == auth_type_names().len(),
        forall|i: int| 0 <= i < names@.len() ==> #[trigger] names@[i]@ == auth_type_names()[i],
{
    let mut names = Vec::new();
    names.push("none".to_owned());
    names.push("bearer".to_owned());
    names.push("api_key".to_owned());
    names.push("basic".to_owned());
    names
}

/// The number of times `c` occurs in `s`.
pub open spec fn count_char(s: Seq<char>, c: char) -> nat
    decreases s.len(),
{
    if s.len() == 0 {
        0
    } else {
        count_char(s.drop_last(), c) + if s.last() == c {
            1nat
        } else {
            0nat
        }
    }
}

/// The position of the first `c` in `s`, or `s.len()` when there is none.
pub open spec fn first_index(s: Seq<char>, c: char) -> nat
    decreases s.len(),
{
    if s.len() == 0 {
        0
    } else if s[0] == c {
        0
    } else {
        first_index(s.drop_first(), c) + 1
    }
}

/// Splits `username:password` at its colon: `None` unless the text holds
/// exactly one colon.
pub fn split_credentials(credentials: &str) -> (parts: Option<(String, String)>)
    ensures
        count_char(credentials@, ':') == 1 <==> parts is Some,
        parts matches Some((user, pass)) ==> {
            let k = first_index(credentials@, ':') as int;
            &&& user@ == credentials@.take(k)
            &&& pass@ == credentials@.skip(k + 1)
        },
{
    let n = credentials.unicode_len();
    let mut colons: usize = 0;
    let mut first: usize = n;
    let mut i: usize = 0;
    while i < n
        invariant
            n == credentials@.len(),
            i <= n,
            colons == count_char(credentials@.take(i as int), ':'),
            colons <= i,
            colons == 0 ==> first == n && forall|j: int| 0 <= j < i ==> credentials@[j] != ':',
            colons > 0 ==> first < i && first == first_index(credentials@, ':'),
        decreases n - i,
    {
        let c = credentials.get_char(i);
        assert(credentials@.take(i + 1).drop_last() =~= credentials@.take(i as int));
        if c == ':' {
            if colons == 0 {
                first = i;
                proof {
                    lemma_first_index(credentials@, ':', i as int);
                }
            }
            colons = colons + 1;
        }
        i = i + 1;
    }
    assert(credentials@.take(n as int) =~= credentials@);
    if colons == 1 {
        let user = credentials.substring_char(0, first).to_owned();
        let pass = credentials.substring_char(first + 1, n).to_owned();
        assert(credentials@.subrange(first + 1, n as int) =~= credentials@.skip(first + 1));
        Some((user, pass))
    } else {
        None
    }
}

/// The first `c` is at `k` when it is there and not before.
proof fn lemma_first_index(s: Seq<char>, c: char, k: int)
    requires
        0 <= k < s.len(),
        s[k] == c,
        forall|j: int| 0 <= j < k ==> s[j] != c,
    ensures
        first_index(s, c) == k,
    decreases k,
{
    if k > 0 {
        lemma_first_index(s.drop_first(), c, k - 1);
    }
}

/// The authentication that a test request uses, from the name of its type
/// and its value, or the message of why it cannot be built.
pub open spec fn test_auth(auth_type: Seq<char>, auth_value: Option<Seq<char>>) -> Result<
    WebhookAuthView,
    Seq<char>,
> {
    if auth_type == "none"@ {
        Ok(WebhookAuthView::NoAuth)
    } else if auth_type == "bearer"@ {
        match auth_value {
            Some(v) => Ok(WebhookAuthView::Bearer { token: v }),
            None => Err("Bearer token required"@),
        }
    } else if auth_type == "api_key"@ {
        match auth_value {
            Some(v) => Ok(WebhookAuthView::ApiKey { header: "X-API-Key"@, value: v }),
            None => Err("API key value required"@),
        }
    } else if auth_type == "basic"@ {
        match auth_value {
            Some(v) => if count_char(v, ':') == 1 {
                Ok(
                    WebhookAuthView::Basic {
                        username: v.take(first_index(v, ':') as int),
                        password: v.skip(first_index(v, ':') as int + 1),
                    },
                )
            } else {
                Err("Basic auth format: username:password"@)
            },
            None => Err("Basic auth credentials required"@),
        }
    } else {
        Err("Unknown auth type: "@ + auth_type)
    }
}

/// The abstract form of an authentication method.
pub enum WebhookAuthView {
    NoAuth,
    Bearer { token: Seq<char> },
    ApiKey { header: Seq<char>, value: Seq<char> },
    Basic { username: Seq<char>, password: Seq<char> },
}

/// The view of an authentication method.
pub open spec fn auth_view(auth: WebhookAuth) -> WebhookAuthView {
    match auth {
        WebhookAuth::NoAuth => WebhookAuthView::NoAuth,
        WebhookAuth::Bearer { token } => WebhookAuthView::Bearer { token: token@ },
        WebhookAuth::ApiKey { header, value } => WebhookAuthView::ApiKey {
            header: header@,
            value: value@,
        },
        WebhookAuth::Basic { username, password } => WebhookAuthView::Basic {
            username: username@,
            password: password@,
        },
    }
}

/// The view of an optional string.
pub open spec fn optional_view(s: Option<String>) -> Option<Seq<char>> {
    match s {
        Some(t) => Some(t@),
        None => None,
    }
}

/// The authentication types offered by name are exactly those that a test
/// request knows: whatever the value given, a type is refused as unknown if
/// and only if it is not listed.
pub proof fn lemma_listed_auth_types_are_known()
    ensures
        forall|auth_type: Seq<char>, auth_value: Option<Seq<char>>|
            #[trigger] test_auth(auth_type, auth_value) == Err::<WebhookAuthView, Seq<char>>(
                "Unknown auth type: "@ + auth_type,
            ) <==> !auth_type_names().contains(auth_type),
{
    reveal_strlit("none");
    reveal_strlit("bearer");
    reveal_strlit("api_key");
    reveal_strlit("basic");
    reveal_strlit("Unknown auth type: ");
    reveal_strlit("Bearer token required");
    reveal_strlit("API key value required");
    reveal_strlit("Basic auth format: username:password");
    reveal_strlit("Basic auth credentials required");
    let names = auth_type_names();
    assert(names.len() == 4 && names[0] == "none"@ && names[1] == "bearer"@ && names[2]
        == "api_key"@ && names[3] == "basic"@);
    assert forall|auth_type: Seq<char>, auth_value: Option<Seq<char>>|
        #[trigger] test_auth(auth_type, auth_value) == Err::<WebhookAuthView, Seq<char>>(
            "Unknown auth type: "@ + auth_type,
        ) <==> !names.contains(auth_type) by {
        let unknown = "Unknown auth type: "@ + auth_type;
        if names.contains(auth_type) {
            let k = choose|k: int| 0 <= k < names.len() && names[k] == auth_type;
            assert(k == 0 || k == 1 || k == 2 || k == 3);
            assert(unknown.len() == 19 + auth_type.len());
        } else {
            assert(auth_type != names[0] && auth_type != names[1] && auth_type != names[2]
                && auth_type != names[3]);
        }
    }
}

/// Test authentication law: for any value `v`, the type "bearer" gives a
/// bearer token `v`, "api_key" gives `v` under the header "X-API-Key",
/// "none" gives no authentication, and "basic" with one colon splits `v`
/// into the user before it and the password after it; a bearer token `v`
/// makes the request carry "authorization: Bearer v".
pub proof fn lemma_test_auth_types(v: Seq<char>, auth: WebhookAuth)
    ensures
        test_auth("bearer"@, Some(v)) == Ok::<WebhookAuthView, Seq<char>>(
            (WebhookAuthView::Bearer { token: v }),
        ),
        test_auth("api_key"@, Some(v)) == Ok::<WebhookAuthView, Seq<char>>(
            (WebhookAuthView::ApiKey { header: "X-API-Key"@, value: v }),
        ),
        test_auth("none"@, Some(v)) == Ok::<WebhookAuthView, Seq<char>>(WebhookAuthView::NoAuth),
        count_char(v, ':') == 1 ==> (test_auth("basic"@, Some(v)) matches Ok(
            WebhookAuthView::Basic { username, password },
        ) && v == username + ":"@ + password),
        auth_view(auth) == (WebhookAuthView::Bearer { token: v }) ==> (webhook_headers(auth) matches Ok(
            headers,
        ) ==> (headers.len() == 2 && headers[1] == ("authorization"@, "Bearer "@ + v))),
{
    reveal_strlit("none");
    reveal_strlit("bearer");
    reveal_strlit("api_key");
    reveal_strlit("basic");
    reveal_strlit(":");
    assert("none"@.len() == 4 && "bearer"@.len() == 6 && "api_key"@.len() == 7 && "basic"@.len()
        == 5);
    assert("bearer"@ != "none"@);
    assert("api_key"@ != "none"@ && "api_key"@ != "bearer"@);
    assert("basic"@ != "none"@ && "basic"@ != "bearer"@ && "basic"@ != "api_key"@);
    if count_char(v, ':') == 1 {
        let k = first_index(v, ':') as int;
        lemma_first_index_bounds(v, ':');
        assert(v =~= v.take(k) + ":"@ + v.skip(k + 1));
    }
}

/// When `c` occurs exactly once, its first position lies in the text and
/// holds it.
proof fn lemma_first_index_bounds(s: Seq<char>, c: char)
    requires
        count_char(s, c) >= 1,
    ensures
        first_index(s, c) < s.len(),
        s[first_index(s, c) as int] == c,
    decreases s.len(),
{
    if s.len() > 0 && s[0] != c {
        assert(count_char(s.drop_first(), c) >= 1) by {
            lemma_count_char_drop_first(s, c);
        }
        lemma_first_index_bounds(s.drop_first(), c);
    }
}

/// Counting in a text without its first character.
proof fn lemma_count_char_drop_first(s: Seq<char>, c: char)
    requires
        s.len() > 0,
    ensures
        count_char(s, c) == count_char(s.drop_first(), c) + if s[0] == c {
            1nat
        } else {
            0nat
        },
    decreases s.len(),
{
    if s.len() > 1 {
        lemma_count_char_drop_first(s.drop_last(), c);
        assert(s.drop_last().drop_first() =~= s.drop_first().drop_last());
        let t = s.drop_first();
        assert(t.last() == s.last());
        assert(s.drop_last()[0] == s[0]);
        assert(count_char(s, c) == count_char(s.drop_last(), c) + if s.last() == c {
            1nat
        } else {
            0nat
        });
        assert(count_char(t, c) == count_char(t.drop_last(), c) + if t.last() == c {
            1nat
        } else {
            0nat
        });
    } else {
        assert(s.drop_first().len() == 0);
        assert(s.drop_last().len() == 0);
        assert(s.last() == s[0]);
        assert(count_char(s.drop_first(), c) == 0);
        assert(count_char(s.drop_last(), c) == 0);
        assert(count_char(s, c) == count_char(s.drop_last(), c) + if s.last() == c {
            1nat
        } else {
            0nat
        });
    }
}

/// Builds the authentication of a test request from the name of its type
/// ("none", "bearer", "api_key" or "basic") and its value.
pub fn parse_webhook_auth(auth_type: &str, auth_value: Option<String>) -> (r: Result<
    WebhookAuth,
    String,
>)
    ensures
        match r {
            Ok(auth) => test_auth(auth_type@, optional_view(auth_value)) == Ok::<
                WebhookAuthView,
                Seq<char>,
            >(auth_view(auth)),
            Err(m) => test_auth(auth_type@, optional_view(auth_value)) == Err::<
                WebhookAuthView,
                Seq<char>,
            >(m@),
        },
{
    proof {
        reveal_strlit("none");
        reveal_strlit("bearer");
        reveal_strlit("api_key");
        reveal_strlit("basic");
    }
    if str_equals(auth_type, "none") {
        Ok(WebhookAuth::NoAuth)
    } else if str_equals(auth_type, "bearer") {
        match auth_value {
            Some(token) => Ok(WebhookAuth::Bearer { token }),
            None => Err("Bearer token required".to_owned()),
        }
    } else if str_equals(auth_type, "api_key") {
        match auth_value {
            Some(value) => Ok(WebhookAuth::ApiKey { header: "X-API-Key".to_owned(), value }),
            None => Err("API key value required".to_owned()),
        }
    } else if str_equals(auth_type, "basic") {
        match auth_value {
            Some(credentials) => match split_credentials(credentials.as_str()) {
                Some((username, password)) => Ok(WebhookAuth::Basic { username, password }),
                None => Err("Basic auth format: username:password".to_owned()),
            },
            None => Err("Basic auth credentials required".to_owned()),
        }
    } else {
        let mut message = "Unknown auth type: ".to_owned();
        message.append(auth_type);
        Err(message)
    }
}

/// Builds the configuration and payload of a webhook connectivity test: a
/// transcription-complete event sent once (no retry, 5 second timeout) to
/// `url` with the given authentication, stamped with `timestamp`.
pub fn test_webhook_request(
    url: String,
    auth_type: &str,
    auth_value: Option<String>,
    timestamp: String,
) -> (r: Result<(WebhookConfig, WebhookPayload), String>)
    ensures
        match r {
            Ok((config, payload)) => {
                &&& test_auth(auth_type@, optional_view(auth_value)) == Ok::<
                    WebhookAuthView,
                    Seq<char>,
                >(auth_view(config.auth))
                &&& config.id@ == "test"@
                &&& config.name@ == "Test"@
                &&& config.url == url
                &&& config.events@ == seq![WebhookEventType::TranscriptionComplete]
                &&& config.enabled
                &&& config.max_retries == 0
                &&& config.timeout_secs == 5
                &&& payload.event == WebhookEventType::TranscriptionComplete
                &&& payload.timestamp == timestamp
                &&& payload.data matches WebhookData::TranscriptionComplete {
                    text,
                    duration_ms,
                    language,
                    model,
                    confidence_permille,
                } && text@ == "Test transcription"@ && duration_ms == 1000 && language@ == "en"@
                    && model@ == "test"@ && confidence_permille is None
            },
            Err(m) => test_auth(auth_type@, optional_view(auth_value)) == Err::<
                WebhookAuthView,
                Seq<char>,
            >(m@),
        },
{
    let auth = match parse_webhook_auth(auth_type, auth_value) {
        Ok(auth) => auth,
        Err(m) => return Err(m),
    };
    let mut events = Vec::new();
    events.push(WebhookEventType::TranscriptionComplete);
    let config = WebhookConfig {
        id: "test".to_owned(),
        name: "Test".to_owned(),
        url,
        events,
        auth,
        enabled: true,
        max_retries: 0,
        timeout_secs: 5,
    };
    let payload = WebhookPayload {
        event: WebhookEventType::TranscriptionComplete,
        timestamp,
        data: WebhookData::TranscriptionComplete {
            text: "Test transcription".to_owned(),
            duration_ms: 1000,
            language: "en".to_owned(),
            model: "test".to_owned(),
            confidence_permille: None,
        },
    };
    assert(config.events@ =~= seq![WebhookEventType::TranscriptionComplete]);
    Ok((config, payload))
}

} // verus!
