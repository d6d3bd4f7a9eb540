//! Core logic of the Handy transcription assistant: export formats, webhook
//! delivery rules, Ollama request building, post-processing, streaming
//! chunking, device hot-plug tracking and recording state.

pub mod audio_toolkit;
pub mod commands;
pub mod export;
pub mod http;
pub mod managers;
pub mod ollama;
pub mod post_processing;
pub mod streaming;
pub mod text;
pub mod webhook;
