use handy::commands::webhook::{
    get_webhook_auth_types, get_webhook_event_types, parse_webhook_auth, split_credentials,
    test_webhook_request, validate_webhook_url,
};
use handy::webhook::{
    default_retries, default_timeout, default_true, failure_message, is_success_status,
    request_headers, retry_backoff_ms,
    DeliveryStatus, DeliveryStep, WebhookAuth, WebhookClient, WebhookConfig, WebhookDelivery, WebhookError,
    WebhookEventType,
};

fn config(events: Vec<WebhookEventType>, enabled: bool, max_retries: u32) -> WebhookConfig {
    WebhookConfig {
        id: "test".to_string(),
        name: "Test".to_string(),
        url: "https://example.com".to_string(),
        events,
        auth: WebhookAuth::NoAuth,
        enabled,
        max_retries,
        timeout_secs: 10,
    }
}

fn pairs(headers: Vec<(String, String)>) -> Vec<(String, String)> {
    headers
}

#[test]
fn test_webhook_event_filtering() {
    let config = WebhookConfig {
        id: "test".to_string(),
        name: "Test".to_string(),
        url: "https://example.com".to_string(),
        events: vec![WebhookEventType::TranscriptionComplete],
        auth: WebhookAuth::NoAuth,
        enabled: true,
        max_retries: 0,
        timeout_secs: 10,
    };

    assert!(config
        .events
        .contains(&WebhookEventType::TranscriptionComplete));
    assert!(!config.events.contains(&WebhookEventType::RecordingStarted));
    assert!(config.should_send(WebhookEventType::TranscriptionComplete));
    assert!(!config.should_send(WebhookEventType::RecordingStarted));
}

#[test]
fn test_default_values() {
    let config = WebhookConfig {
        id: "test".to_string(),
        name: "Test".to_string(),
        url: "https://example.com".to_string(),
        events: vec![],
        auth: WebhookAuth::default(),
        enabled: default_true(),
        max_retries: default_retries(),
        timeout_secs: default_timeout(),
    };

    assert_eq!(config.enabled, true);
    assert_eq!(config.max_retries, 3);
    assert_eq!(config.timeout_secs, 10);
}

#[test]
fn disabled_webhook_is_skipped() {
    let c = config(vec![WebhookEventType::RecordingStarted], false, 3);
    let d = WebhookDelivery::new(&c, WebhookEventType::RecordingStarted);
    assert_eq!(d.status(), DeliveryStatus::Skipped);
    assert_eq!(d.next_step(), DeliveryStep::Skipped);
}

#[test]
fn backoff_doubles_from_one_hundred_ms() {
    assert_eq!(retry_backoff_ms(0), 0);
    assert_eq!(retry_backoff_ms(1), 100);
    assert_eq!(retry_backoff_ms(2), 200);
    assert_eq!(retry_backoff_ms(3), 400);
    assert_eq!(retry_backoff_ms(58), 100 * (1u64 << 57));
    assert_eq!(retry_backoff_ms(59), u64::MAX);
    assert_eq!(retry_backoff_ms(u32::MAX), u64::MAX);
}

#[test]
fn delivery_retries_until_exhausted() {
    let c = config(vec![WebhookEventType::TranscriptionError], true, 2);
    let mut d = WebhookDelivery::new(&c, WebhookEventType::TranscriptionError);
    let mut delays = Vec::new();
    loop {
        match d.next_step() {
            DeliveryStep::Attempt { attempt, delay_ms } => {
                assert_eq!(attempt as u64, d.attempts());
                delays.push(delay_ms);
                d.record_attempt(false);
            }
            DeliveryStep::Failed => break,
            other => panic!("unexpected {:?}", other),
        }
    }
    assert_eq!(delays, vec![0, 100, 200]);
    assert_eq!(d.attempts(), 3);
    assert_eq!(d.status(), DeliveryStatus::Failed);
}

#[test]
fn delivery_stops_at_first_success() {
    let c = config(vec![WebhookEventType::TranscriptionError], true, 5);
    let mut d = WebhookDelivery::new(&c, WebhookEventType::TranscriptionError);
    d.record_attempt(false);
    d.record_attempt(true);
    assert_eq!(d.next_step(), DeliveryStep::Delivered);
    assert_eq!(d.attempts(), 2);
}

#[test]
fn headers_for_each_auth() {
    assert_eq!(
        pairs(request_headers(&WebhookAuth::NoAuth).unwrap()),
        vec![("content-type".to_string(), "application/json".to_string())]
    );
    assert_eq!(
        request_headers(&WebhookAuth::Bearer {
            token: "token".to_string()
        })
        .unwrap()[1],
        ("authorization".to_string(), "Bearer token".to_string())
    );
    assert_eq!(
        request_headers(&WebhookAuth::ApiKey {
            header: "X-API-Key".to_string(),
            value: "key".to_string()
        })
        .unwrap()[1],
        ("X-API-Key".to_string(), "key".to_string())
    );
    assert_eq!(
        request_headers(&WebhookAuth::Basic {
            username: "user".to_string(),
            password: "pass".to_string()
        })
        .unwrap()[1],
        ("authorization".to_string(), "Basic dXNlcjpwYXNz".to_string())
    );
    assert_eq!(
        request_headers(&WebhookAuth::Basic {
            username: "a".to_string(),
            password: "".to_string()
        })
        .unwrap()[1]
            .1,
        "Basic YTo="
    );
}

#[test]
fn invalid_headers_are_refused() {
    assert_eq!(
        request_headers(&WebhookAuth::Bearer {
            token: "a\nb".to_string()
        })
        .unwrap_err(),
        WebhookError::InvalidBearerToken
    );
    assert_eq!(
        request_headers(&WebhookAuth::ApiKey {
            header: "X Key".to_string(),
            value: "v".to_string()
        })
        .unwrap_err(),
        WebhookError::InvalidHeaderName
    );
    assert_eq!(
        request_headers(&WebhookAuth::ApiKey {
            header: "".to_string(),
            value: "v".to_string()
        })
        .unwrap_err(),
        WebhookError::InvalidHeaderName
    );
    assert_eq!(
        request_headers(&WebhookAuth::ApiKey {
            header: "X-Key".to_string(),
            value: "v\u{7f}".to_string()
        })
        .unwrap_err(),
        WebhookError::InvalidHeaderValue
    );
    assert_eq!(
        WebhookError::InvalidHeaderName.to_string(),
        "Invalid header name"
    );
}

#[test]
fn webhook_urls() {
    assert!(validate_webhook_url("http://x"));
    assert!(validate_webhook_url("https://x"));
    assert!(!validate_webhook_url("ftp://x"));
    assert!(!validate_webhook_url("http:/"));
}

#[test]
fn listed_types() {
    assert_eq!(
        get_webhook_event_types(),
        vec![
            "recording_started",
            "recording_stopped",
            "transcription_complete",
            "transcription_error"
        ]
    );
    assert_eq!(
        get_webhook_auth_types(),
        vec!["none", "bearer", "api_key", "basic"]
    );
}

#[test]
fn auth_parsing() {
    assert!(matches!(
        parse_webhook_auth("none", None),
        Ok(WebhookAuth::NoAuth)
    ));
    assert_eq!(
        parse_webhook_auth("bearer", None).unwrap_err(),
        "Bearer token required"
    );
    assert_eq!(
        parse_webhook_auth("api_key", None).unwrap_err(),
        "API key value required"
    );
    assert_eq!(
        parse_webhook_auth("basic", None).unwrap_err(),
        "Basic auth credentials required"
    );
    assert_eq!(
        parse_webhook_auth("basic", Some("a:b:c".to_string())).unwrap_err(),
        "Basic auth format: username:password"
    );
    assert_eq!(
        parse_webhook_auth("oauth", None).unwrap_err(),
        "Unknown auth type: oauth"
    );
    match parse_webhook_auth("basic", Some("user:pa ss".to_string())).unwrap() {
        WebhookAuth::Basic { username, password } => {
            assert_eq!(username, "user");
            assert_eq!(password, "pa ss");
        }
        other => panic!("unexpected {:?}", other),
    }
    match parse_webhook_auth("api_key", Some("k".to_string())).unwrap() {
        WebhookAuth::ApiKey { header, value } => {
            assert_eq!(header, "X-API-Key");
            assert_eq!(value, "k");
        }
        other => panic!("unexpected {:?}", other),
    }
}

#[test]
fn credential_split() {
    assert_eq!(
        split_credentials(":"),
        Some(("".to_string(), "".to_string()))
    );
    assert_eq!(split_credentials("nocolon"), None);
}

#[test]
fn test_request_is_single_attempt() {
    let (c, p) = test_webhook_request(
        "https://example.com/hook".to_string(),
        "bearer",
        Some("t".to_string()),
        "2025-11-05T10:00:00Z".to_string(),
    )
    .unwrap();
    assert_eq!(c.max_retries, 0);
    assert_eq!(c.timeout_secs, 5);
    assert_eq!(c.events, vec![WebhookEventType::TranscriptionComplete]);
    assert_eq!(p.timestamp, "2025-11-05T10:00:00Z");
    let d = WebhookDelivery::new(&c, p.event);
    assert_eq!(
        d.next_step(),
        DeliveryStep::Attempt {
            attempt: 0,
            delay_ms: 0
        }
    );
}

#[test]
fn listed_auth_types_are_known_and_others_refused() {
    for name in get_webhook_auth_types() {
        let result = parse_webhook_auth(&name, Some("user:pass".to_string()));
        assert!(result.is_ok(), "{} was refused", name);
    }
    assert_eq!(
        parse_webhook_auth("digest", Some("user:pass".to_string())).err(),
        Some("Unknown auth type: digest".to_string())
    );
}

#[test]
fn response_status_decides_success() {
    assert!(is_success_status(200));
    assert!(is_success_status(204));
    assert!(is_success_status(299));
    assert!(!is_success_status(199));
    assert!(!is_success_status(300));
    assert!(!is_success_status(404));
    assert_eq!(
        failure_message("404 Not Found", Some("missing".to_string())),
        "Webhook failed with status 404 Not Found: missing"
    );
    assert_eq!(
        failure_message("500 Internal Server Error", None),
        "Webhook failed with status 500 Internal Server Error: No body"
    );
}

#[test]
fn webhook_client_times_out_after_thirty_seconds() {
    let client = WebhookClient::new().unwrap();
    assert_eq!(client.timeout_secs(), 30);
}
