//! The logic behind the application's commands for export, Ollama and
//! webhooks.

pub mod export;
pub mod ollama;
pub mod webhook;
