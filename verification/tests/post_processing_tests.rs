use handy::ollama::ProcessingMode;
use handy::post_processing::{PipelineAction, PostProcessingConfig, PostProcessor};

/// Runs the pipeline, performing no outside stage (as when none is available).
fn process(processor: &PostProcessor, text: &str) -> String {
    let mut action = processor.begin(text.to_string());
    loop {
        match action {
            PipelineAction::Finished(t) => return t,
            other => action = processor.resume(other, None),
        }
    }
}

#[test]
fn mod_test_default_config() {
    let config = PostProcessingConfig::default();
    assert!(!config.enable_custom_words);
    assert!(!config.enable_ollama);
    assert!(config.enable_formatting);
}

#[test]
fn test_format_output() {
    let processor = PostProcessor::default();
    let result = processor.format_output("  hello   world  ");
    assert_eq!(result, "hello world");
}

#[test]
fn test_process_with_formatting_only() {
    let mut config = PostProcessingConfig::default();
    config.enable_formatting = true;

    let processor = PostProcessor::new(config);
    let result = process(&processor, "  test  text  ");

    assert_eq!(result, "test text");
}

#[test]
fn test_custom_words_disabled_by_default() {
    let processor = PostProcessor::default();
    assert!(!processor.config().enable_custom_words);
}

#[test]
fn mod_test_ollama_disabled_by_default() {
    let processor = PostProcessor::default();
    assert!(!processor.config().enable_ollama);
    assert!(processor.ollama_client().is_none());
}

#[test]
fn post_processing_tests_test_default_config() {
    let config = PostProcessingConfig::default();
    assert!(!config.enable_custom_words);
    assert!(!config.enable_ollama);
    assert!(config.enable_formatting);
    assert_eq!(config.ollama_url, "http://localhost:11434");
    assert_eq!(config.ollama_model, "llama3.2");
    assert_eq!(config.ollama_mode, ProcessingMode::Disabled);
}

#[test]
fn post_processing_tests_test_config_creation() {
    let config = PostProcessingConfig {
        enable_custom_words: true,
        custom_words: vec!["test".to_string()],
        custom_words_threshold_permille: 300,
        enable_ollama: false,
        ollama_url: "http://localhost:11434".to_string(),
        ollama_model: "mistral".to_string(),
        ollama_mode: ProcessingMode::Punctuation,
        enable_formatting: true,
    };

    assert!(config.enable_custom_words);
    assert_eq!(config.custom_words.len(), 1);
    assert_eq!(config.ollama_model, "mistral");
}

#[test]
fn test_processor_creation() {
    let _processor = PostProcessor::default();
    // Should create without errors
    assert!(true);
}

#[test]
fn test_processor_with_config() {
    let config = PostProcessingConfig::default();
    let _processor = PostProcessor::new(config);
    // Should create without errors
    assert!(true);
}

#[test]
fn test_format_output_only() {
    let mut config = PostProcessingConfig::default();
    config.enable_formatting = true;
    config.enable_custom_words = false;
    config.enable_ollama = false;

    let processor = PostProcessor::new(config);
    let result = process(&processor, "  hello   world  ");

    assert_eq!(result, "hello world");
}

#[test]
fn test_formatting_with_newlines() {
    let config = PostProcessingConfig::default();
    let processor = PostProcessor::new(config);

    let result = process(&processor, "hello\n\nworld\n");

    assert_eq!(result, "hello world");
}

#[test]
fn test_formatting_with_tabs() {
    let config = PostProcessingConfig::default();
    let processor = PostProcessor::new(config);

    let result = process(&processor, "hello\t\tworld");

    assert_eq!(result, "hello world");
}

#[test]
fn test_empty_input() {
    let config = PostProcessingConfig::default();
    let processor = PostProcessor::new(config);

    let result = process(&processor, "");
    assert_eq!(result, "");
}

#[test]
fn test_whitespace_only() {
    let config = PostProcessingConfig::default();
    let processor = PostProcessor::new(config);

    let result = process(&processor, "   \n\t  ");
    assert_eq!(result, "");
}

#[test]
fn test_disabled_formatting() {
    let mut config = PostProcessingConfig::default();
    config.enable_formatting = false;

    let processor = PostProcessor::new(config);
    let result = process(&processor, "  hello   world  ");

    // Should preserve whitespace
    assert_eq!(result, "  hello   world  ");
}

#[test]
fn post_processing_tests_test_ollama_disabled_by_default() {
    let processor = PostProcessor::default();
    // Without a client, Ollama is reported unavailable.
    assert!(processor.ollama_client().is_none());
    assert!(!processor.ollama_enabled());
}

#[test]
fn test_update_config() {
    let mut processor = PostProcessor::default();
    let mut new_config = PostProcessingConfig::default();
    new_config.enable_formatting = false;
    new_config.ollama_model = "custom-model".to_string();

    processor.update_config(new_config);
    // Should complete without error
    assert!(true);
    assert_eq!(processor.config().ollama_model, "custom-model");
}

#[test]
fn unicode_whitespace_is_collapsed() {
    let processor = PostProcessor::default();
    assert_eq!(
        processor.format_output("\u{3000}a\u{00A0}\u{2009}b\r\nc "),
        "a b c"
    );
    assert_eq!(processor.format_output("é  ü"), "é ü");
}

#[test]
fn stages_run_in_order() {
    let mut config = PostProcessingConfig::default();
    config.enable_custom_words = true;
    config.custom_words = vec!["Handy".to_string()];
    config.enable_ollama = true;
    config.ollama_mode = ProcessingMode::Punctuation;
    let processor = PostProcessor::new(config);
    assert!(processor.ollama_client().is_some());
    let first = processor.begin(" handy  app ".to_string());
    let second = match first {
        PipelineAction::CorrectWords(t) => {
            assert_eq!(t, " handy  app ");
            processor.resume(PipelineAction::CorrectWords(t), Some(" Handy  app ".to_string()))
        }
        other => panic!("unexpected {:?}", other),
    };
    let last = match second {
        PipelineAction::Enhance(t) => {
            assert_eq!(t, " Handy  app ");
            processor.resume(PipelineAction::Enhance(t), Some("Handy app.  ".to_string()))
        }
        other => panic!("unexpected {:?}", other),
    };
    match last {
        PipelineAction::Finished(t) => assert_eq!(t, "Handy app."),
        other => panic!("unexpected {:?}", other),
    }
}

#[test]
fn failed_enhancement_keeps_text() {
    let mut config = PostProcessingConfig::default();
    config.enable_ollama = true;
    config.ollama_mode = ProcessingMode::Summarize;
    let processor = PostProcessor::new(config);
    let first = processor.begin("a  b".to_string());
    let last = processor.resume(first, None);
    match last {
        PipelineAction::Finished(t) => assert_eq!(t, "a b"),
        other => panic!("unexpected {:?}", other),
    }
}

#[test]
fn update_config_reloads_like_new() {
    let mut config = PostProcessingConfig::default();
    config.enable_ollama = true;
    let mut processor = PostProcessor::new(config.clone());
    assert_eq!(
        processor.ollama_client().unwrap().base_url(),
        "http://localhost:11434"
    );
    let mut moved = config.clone();
    moved.ollama_url = "http://other:1/".to_string();
    processor.update_config(moved.clone());
    assert_eq!(processor.ollama_client().unwrap().base_url(), "http://other:1");
    // Disabling Ollama drops the client, as a new processor would have none.
    let mut disabled = moved.clone();
    disabled.enable_ollama = false;
    processor.update_config(disabled);
    assert!(processor.ollama_client().is_none());
    assert!(!processor.ollama_enabled());
    // Enabling Ollama at the same URL creates the client.
    let mut plain = PostProcessor::default();
    let mut enabled = PostProcessingConfig::default();
    enabled.enable_ollama = true;
    plain.update_config(enabled);
    assert_eq!(
        plain.ollama_client().unwrap().base_url(),
        "http://localhost:11434"
    );
}

#[test]
fn formatting_twice_is_formatting_once() {
    let processor = PostProcessor::default();
    let once = processor.format_output("  many   spaced\t\twords \n here ");
    assert_eq!(once, "many spaced words here");
    assert_eq!(processor.format_output(&once), once);
}
