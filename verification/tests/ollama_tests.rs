use handy::commands::ollama::ollama_client_for;
use handy::ollama::{completion_text, mode_request, OllamaClient, OllamaRequest, OllamaResponse, ProcessingMode};

#[test]
fn mod_test_ollama_request_builder() {
    let request = OllamaRequest::new("llama3.2")
        .with_system("Test system")
        .with_text("Test text")
        .with_temperature(50);

    assert_eq!(request.model, "llama3.2");
    assert_eq!(request.system, Some("Test system".to_string()));
    assert_eq!(request.prompt, "Test text");
    assert_eq!(request.temperature_hundredths, Some(50));
}

#[test]
fn mod_test_temperature_clamping() {
    let request = OllamaRequest::new("test").with_temperature(500);
    assert_eq!(request.temperature_hundredths, Some(200)); // Should clamp to 2.0

    let request = OllamaRequest::new("test").with_temperature(-100);
    assert_eq!(request.temperature_hundredths, Some(0)); // Should clamp to 0.0
}

#[test]
fn mod_test_processing_mode_equality() {
    assert_eq!(ProcessingMode::Punctuation, ProcessingMode::Punctuation);
    assert_eq!(ProcessingMode::Disabled, ProcessingMode::Disabled);
    assert_ne!(ProcessingMode::Punctuation, ProcessingMode::Summarize);
}

#[test]
fn test_ollama_client_creation() {
    let client = OllamaClient::new("http://localhost:11434");
    assert!(client.is_ok());
}

#[test]
fn test_ollama_client_default() {
    let client = OllamaClient::default();
    assert!(client.is_ok());
}

#[test]
fn ollama_tests_test_ollama_request_builder() {
    let request = OllamaRequest::new("llama3.2")
        .with_system("Test system")
        .with_text("Test text")
        .with_temperature(50);

    assert_eq!(request.model, "llama3.2");
    assert_eq!(request.system, Some("Test system".to_string()));
    assert_eq!(request.prompt, "Test text");
    assert_eq!(request.temperature_hundredths, Some(50));
    assert_eq!(request.stream, false);
}

#[test]
fn test_ollama_request_prompt_override() {
    let request = OllamaRequest::new("test")
        .with_text("Initial")
        .with_prompt("Override");

    assert_eq!(request.prompt, "Override");
}

#[test]
fn ollama_tests_test_temperature_clamping() {
    let request = OllamaRequest::new("test").with_temperature(500);
    assert_eq!(request.temperature_hundredths, Some(200)); // Should clamp to 2.0

    let request = OllamaRequest::new("test").with_temperature(-100);
    assert_eq!(request.temperature_hundredths, Some(0)); // Should clamp to 0.0

    let request = OllamaRequest::new("test").with_temperature(150);
    assert_eq!(request.temperature_hundredths, Some(150)); // Should stay as is
}

#[test]
fn ollama_tests_test_processing_mode_equality() {
    assert_eq!(ProcessingMode::Punctuation, ProcessingMode::Punctuation);
    assert_eq!(ProcessingMode::Disabled, ProcessingMode::Disabled);
    assert_eq!(ProcessingMode::Summarize, ProcessingMode::Summarize);
    assert_eq!(
        ProcessingMode::CommandExtraction,
        ProcessingMode::CommandExtraction
    );

    assert_ne!(ProcessingMode::Punctuation, ProcessingMode::Summarize);
    assert_ne!(ProcessingMode::Disabled, ProcessingMode::Punctuation);
}

#[test]
fn test_custom_processing_mode() {
    let mode1 = ProcessingMode::Custom {
        prompt: "Test".to_string(),
    };
    let mode2 = ProcessingMode::Custom {
        prompt: "Test".to_string(),
    };
    let mode3 = ProcessingMode::Custom {
        prompt: "Different".to_string(),
    };

    assert_eq!(mode1, mode2);
    assert_ne!(mode1, mode3);
}

#[test]
fn test_streaming_flag() {
    let request = OllamaRequest::new("test").with_streaming(true);
    assert_eq!(request.stream, true);

    let request = OllamaRequest::new("test").with_streaming(false);
    assert_eq!(request.stream, false);
}

#[test]
fn base_url_loses_trailing_slashes() {
    let client = OllamaClient::new("http://host:1234//").unwrap();
    assert_eq!(client.base_url(), "http://host:1234");
    assert_eq!(client.tags_url(), "http://host:1234/api/tags");
    assert_eq!(client.generate_url(), "http://host:1234/api/generate");
    assert_eq!(client.timeout_ms(), 30000);
    let client = client.with_timeout(5000);
    assert_eq!(client.timeout_ms(), 5000);
    assert_eq!(client.base_url(), "http://host:1234");
}

#[test]
fn client_for_optional_url() {
    assert_eq!(
        ollama_client_for(None).unwrap().base_url(),
        "http://localhost:11434"
    );
    assert_eq!(
        ollama_client_for(Some("http://x/".to_string())).unwrap().base_url(),
        "http://x"
    );
}

#[test]
fn mode_requests() {
    assert!(mode_request("hello", &ProcessingMode::Disabled, "m").is_none());
    let r = mode_request("hello world", &ProcessingMode::Punctuation, "llama3.2").unwrap();
    assert_eq!(r.model, "llama3.2");
    assert_eq!(r.prompt, "hello world");
    assert_eq!(r.temperature_hundredths, Some(10));
    assert_eq!(
        r.system.unwrap(),
        "You are a text formatter. Add proper punctuation and capitalization to the following text. Only return the formatted text, nothing else."
    );
    let r = mode_request("t", &ProcessingMode::Summarize, "m").unwrap();
    assert_eq!(r.temperature_hundredths, Some(30));
    let r = mode_request("t", &ProcessingMode::CommandExtraction, "m").unwrap();
    assert_eq!(r.temperature_hundredths, Some(20));
    let r = mode_request(
        "t",
        &ProcessingMode::Custom {
            prompt: "Be brief".to_string(),
        },
        "m",
    )
    .unwrap();
    assert_eq!(r.system, Some("Be brief".to_string()));
    assert_eq!(r.temperature_hundredths, Some(30));
    assert!(!r.stream);
}

#[test]
fn completion_is_trimmed() {
    let response = OllamaResponse {
        model: "m".to_string(),
        created_at: "now".to_string(),
        response: " \n Hello, world.\t\u{3000}".to_string(),
        done: true,
    };
    assert_eq!(completion_text(&response), "Hello, world.");
}

#[test]
fn ollama_clients_are_built_with_thirty_second_timeouts() {
    let client = OllamaClient::new("http://localhost:11434/").unwrap();
    assert_eq!(client.client_timeout_secs(), 30);
    assert_eq!(client.timeout_ms(), 30_000);
    assert_eq!(OllamaClient::default().unwrap().client_timeout_secs(), 30);
}
