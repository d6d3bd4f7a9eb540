use handy::streaming::{StreamingConfig, StreamingTranscriber};

#[test]
fn streaming_test_default_config() {
    let config = StreamingConfig::default();
    assert_eq!(config.chunk_size, 16000 * 3);
    assert_eq!(config.overlap_size, 16000);
    assert_eq!(config.min_confidence_permille, 500);
    assert!(config.enable_partial_results);
}

#[test]
fn mod_test_config_creation() {
    let config = StreamingConfig {
        chunk_size: 8000,
        overlap_size: 2000,
        min_confidence_permille: 700,
        enable_partial_results: false,
    };

    assert_eq!(config.chunk_size, 8000);
    assert_eq!(config.overlap_size, 2000);
    assert_eq!(config.min_confidence_permille, 700);
    assert!(!config.enable_partial_results);
}

fn small_config() -> StreamingConfig {
    StreamingConfig {
        chunk_size: 4,
        overlap_size: 1,
        min_confidence_permille: 500,
        enable_partial_results: true,
    }
}

#[test]
fn chunks_keep_their_overlap() {
    let mut t: StreamingTranscriber<f32> = StreamingTranscriber::new(small_config());
    assert!(t.push_audio(&[0.1, 0.2]).is_none());
    assert_eq!(t.buffer_size(), 2);
    let p = t.push_audio(&[0.3, 0.4, 0.5]).unwrap();
    assert_eq!(p.chunk_index, 0);
    assert_eq!(p.text, "Chunk 0 text");
    assert_eq!(p.confidence_permille, 850);
    assert!(!p.is_final);
    assert_eq!(p.total_chunks, None);
    // The last sample of the chunk stays, followed by the rest.
    assert_eq!(t.buffer_size(), 2);
    assert_eq!(t.chunk_count(), 1);
    let p = t.push_audio(&[0.6, 0.7]).unwrap();
    assert_eq!(p.chunk_index, 1);
    assert_eq!(t.buffer_size(), 1);
    let last = t.finalize().unwrap();
    assert!(last.is_final);
    assert_eq!(last.chunk_index, 2);
    assert_eq!(last.total_chunks, Some(3));
    assert_eq!(last.text, "Chunk 2 text");
    // Finalizing keeps the state until the result has been delivered.
    assert_eq!(t.buffer_size(), 1);
    assert_eq!(t.chunk_count(), 2);
    t.cancel();
    assert_eq!(t.buffer_size(), 0);
    assert_eq!(t.chunk_count(), 0);
}

#[test]
fn disabled_partials_are_not_emitted_but_final_is() {
    let mut config = small_config();
    config.enable_partial_results = false;
    let mut t: StreamingTranscriber<i16> = StreamingTranscriber::new(config);
    assert!(t.push_audio(&[1, 2, 3, 4, 5]).is_none());
    assert_eq!(t.chunk_count(), 1);
    assert!(t.finalize().is_some());
}

#[test]
fn high_minimum_confidence_silences_results() {
    let mut config = small_config();
    config.min_confidence_permille = 900;
    let mut t: StreamingTranscriber<u8> = StreamingTranscriber::new(config);
    assert!(t.push_audio(&[1, 2, 3, 4]).is_none());
    assert_eq!(t.chunk_count(), 1);
    assert!(t.finalize().is_none());
}

#[test]
fn cancel_clears_everything() {
    let mut t: StreamingTranscriber<f32> = StreamingTranscriber::default();
    t.push_audio(&vec![0.0; 50000]);
    assert_eq!(t.chunk_count(), 1);
    assert_eq!(t.buffer_size(), 50000 - 48000 + 16000);
    t.cancel();
    assert_eq!(t.buffer_size(), 0);
    assert_eq!(t.chunk_count(), 0);
    assert!(t.finalize().is_none());
}
