//! Post-processing pipeline for transcriptions
//!
//! Raw Transcription → Custom Words → Ollama Enhancement → Output Formatting →
//! Final Text. Each stage is optional and configurable. Formatting is done
//! here; the custom-word correction and the Ollama request are performed by
//! the caller when the pipeline asks for them, and their outputs are handed
//! back to it.

use vstd::prelude::*;
use crate::ollama::{OllamaClient, ProcessingMode};
use crate::text::{
    collapse_whitespace, lemma_normalize_whitespace_idempotent, normalize_whitespace, str_equals,
    trim_end_matching,
};

verus! {

/// Configuration for post-processing pipeline
#[derive(Clone, Debug)]
pub struct PostProcessingConfig {
    /// Enable custom word corrections
    pub enable_custom_words: bool,
    /// Custom words to apply
    pub custom_words: Vec<String>,
    /// Custom word matching threshold in thousandths (0 = exact, 1000 = any)
    pub custom_words_threshold_permille: u32,
    /// Enable Ollama processing
    pub enable_ollama: bool,
    /// Ollama server URL
    pub ollama_url: String,
    /// Ollama model to use
    pub ollama_model: String,
    /// Ollama processing mode
    pub ollama_mode: ProcessingMode,
    /// Enable output formatting (trim, normalize whitespace)
    pub enable_formatting: bool,
}

impl Default for PostProcessingConfig {
    fn default() -> (c: Self)
        ensures
            !c.enable_custom_words,
            c.custom_words@.len() == 0,
            c.custom_words_threshold_permille == 500,
            !c.enable_ollama,
            c.ollama_url@ == "http://localhost:11434"@,
            c.ollama_model@ == "llama3.2"@,
            c.ollama_mode is Disabled,
            c.enable_formatting,
    {
        PostProcessingConfig {
            enable_custom_words: false,
            custom_words: Vec::new(),
            custom_words_threshold_permille: 500,
            enable_ollama: false,
            ollama_url: "http://localhost:11434".to_owned(),
            ollama_model: "llama3.2".to_owned(),
            ollama_mode: ProcessingMode::Disabled,
            enable_formatting: true,
        }
    }
}

/// What the pipeline needs next.
#[derive(Clone, Debug)]
pub enum PipelineAction {
    /// Apply the custom-word corrections to this text and resume with the
    /// result.
    CorrectWords(String),
    /// Process this text with Ollama and resume with the result, or with
    /// `None` if Ollama was unavailable or failed.
    Enhance(String),
    /// The pipeline's output.
    Finished(String),
}

/// The abstract form of a pipeline action.
pub enum PipelineView {
    CorrectWords(Seq<char>),
    Enhance(Seq<char>),
    Finished(Seq<char>),
}

/// The view of a pipeline action.
pub open spec fn action_view(a: PipelineAction) -> PipelineView {
    match a {
        PipelineAction::CorrectWords(t) => PipelineView::CorrectWords(t@),
        PipelineAction::Enhance(t) => PipelineView::Enhance(t@),
        PipelineAction::Finished(t) => PipelineView::Finished(t@),
    }
}

/// Whether the custom-word stage runs: enabled, with words to apply.
pub open spec fn custom_words_stage(config: PostProcessingConfig) -> bool {
    config.enable_custom_words && config.custom_words@.len() > 0
}

/// Whether the Ollama stage runs: enabled, with a mode that is not disabled,
/// and with a client.
pub open spec fn ollama_stage(config: PostProcessingConfig, has_client: bool) -> bool {
    config.enable_ollama && !(config.ollama_mode is Disabled) && has_client
}

/// The formatting stage.
pub open spec fn formatted(config: PostProcessingConfig, text: Seq<char>) -> Seq<char> {
    if config.enable_formatting {
        normalize_whitespace(text)
    } else {
        text
    }
}

/// The pipeline from the Ollama stage on, for the given text.
pub open spec fn from_ollama_stage(
    config: PostProcessingConfig,
    has_client: bool,
    text: Seq<char>,
) -> PipelineView {
    if ollama_stage(config, has_client) {
        PipelineView::Enhance(text)
    } else {
        PipelineView::Finished(formatted(config, text))
    }
}

/// The first action of the pipeline for a raw transcription.
pub open spec fn pipeline_start(
    config: PostProcessingConfig,
    has_client: bool,
    text: Seq<char>,
) -> PipelineView {
    if custom_words_stage(config) {
        PipelineView::CorrectWords(text)
    } else {
        from_ollama_stage(config, has_client, text)
    }
}

/// The next action once the caller has performed `action`, with `output` its
/// result (`None` keeps the text as it was).
pub open spec fn pipeline_resume(
    config: PostProcessingConfig,
    has_client: bool,
    action: PipelineView,
    output: Option<Seq<char>>,
) -> PipelineView {
    match action {
        PipelineView::CorrectWords(t) => from_ollama_stage(
            config,
            has_client,
            match output {
                Some(o) => o,
                None => t,
            },
        ),
        PipelineView::Enhance(t) => PipelineView::Finished(
            formatted(
                config,
                match output {
                    Some(o) => o,
                    None => t,
                },
            ),
        ),
        PipelineView::Finished(t) => PipelineView::Finished(t),
    }
}

/// The view of an optional string.
pub open spec fn optional_text(s: Option<String>) -> Option<Seq<char>> {
    match s {
        Some(t) => Some(t@),
        None => None,
    }
}

/// The text that the pipeline outputs for `text`, where `corrected` is the
/// custom-word stage's result and `enhanced` the Ollama stage's result
/// (`None` when a stage produced nothing).
pub open spec fn pipeline_output(
    config: PostProcessingConfig,
    has_client: bool,
    text: Seq<char>,
    corrected: Option<Seq<char>>,
    enhanced: Option<Seq<char>>,
) -> Seq<char> {
    let after_words = if custom_words_stage(config) {
        match corrected {
            Some(c) => c,
            None => text,
        }
    } else {
        text
    };
    let after_ollama = if ollama_stage(config, has_client) {
        match enhanced {
            Some(e) => e,
            None => after_words,
        }
    } else {
        after_words
    };
    formatted(config, after_ollama)
}

/// Pipeline law: starting from a raw transcription and resuming each stage
/// that is asked for with its result, the pipeline finishes after at most two
/// outside stages, custom words first and Ollama second, each run only when
/// enabled, each kept out when it produced nothing, and formatting applied
/// last when enabled.
pub proof fn lemma_pipeline_stages(
    config: PostProcessingConfig,
    has_client: bool,
    text: Seq<char>,
    corrected: Option<Seq<char>>,
    enhanced: Option<Seq<char>>,
)
    ensures
        ({
            let first = pipeline_start(config, has_client, text);
            let second = match first {
                PipelineView::CorrectWords(_) => pipeline_resume(config, has_client, first, corrected),
                _ => first,
            };
            let last = match second {
                PipelineView::Enhance(_) => pipeline_resume(config, has_client, second, enhanced),
                _ => second,
            };
            last == PipelineView::Finished(
                pipeline_output(config, has_client, text, corrected, enhanced),
            )
        }),
{
}

/// Custom-word law: the pipeline asks for custom-word corrections, of the
/// raw text, exactly when they are enabled and there are words to apply;
/// otherwise its output does not depend on any correction.
pub proof fn lemma_custom_words_only_when_enabled(
    config: PostProcessingConfig,
    has_client: bool,
    text: Seq<char>,
    corrected: Option<Seq<char>>,
    other_corrected: Option<Seq<char>>,
    enhanced: Option<Seq<char>>,
)
    ensures
        (pipeline_start(config, has_client, text) is CorrectWords) <==> (config.enable_custom_words
            && config.custom_words@.len() > 0),
        pipeline_start(config, has_client, text) is CorrectWords ==> pipeline_start(
            config,
            has_client,
            text,
        ) == PipelineView::CorrectWords(text),
        !(config.enable_custom_words && config.custom_words@.len() > 0) ==> pipeline_output(
            config,
            has_client,
            text,
            corrected,
            enhanced,
        ) == pipeline_output(config, has_client, text, other_corrected, enhanced),
{
}

/// Formatting law: formatting text that was already formatted changes
/// nothing.
pub proof fn lemma_formatting_idempotent(config: PostProcessingConfig, text: Seq<char>)
    ensures
        formatted(config, formatted(config, text)) == formatted(config, text),
{
    lemma_normalize_whitespace_idempotent(text);
}

/// Reload law: two post-processors loaded with the same configuration (one
/// updated to it, one newly created with it) that both have an Ollama client,
/// or both have none, are alike: the same configuration, the same Ollama
/// endpoint and timeouts, and the same pipeline for every text and every
/// outcome of the outside stages.
pub proof fn lemma_reload_matches_new(
    updated: PostProcessor,
    created: PostProcessor,
    config: PostProcessingConfig,
    text: Seq<char>,
    corrected: Option<Seq<char>>,
    enhanced: Option<Seq<char>>,
)
    requires
        loaded_with(updated, config),
        loaded_with(created, config),
        (updated.client_view() is Some) == (created.client_view() is Some),
    ensures
        updated.config_view() == created.config_view(),
        updated.client_view() matches Some(a) ==> (created.client_view() matches Some(b)
            && a.base_url_view() == b.base_url_view() && a.timeout_view() == b.timeout_view()
            && a.client_timeout_view() == b.client_timeout_view()),
        pipeline_start(updated.config_view(), updated.client_view() is Some, text) == pipeline_start(
            created.config_view(),
            created.client_view() is Some,
            text,
        ),
        pipeline_output(
            updated.config_view(),
            updated.client_view() is Some,
            text,
            corrected,
            enhanced,
        ) == pipeline_output(
            created.config_view(),
            created.client_view() is Some,
            text,
            corrected,
            enhanced,
        ),
{
}

/// Post-processing pipeline
///
/// Processes transcription text through multiple configurable stages.
pub struct PostProcessor {
    config: PostProcessingConfig,
    ollama_client: Option<OllamaClient>,
}

/// Whether an Ollama client is the one made for `url`: trailing slashes
/// removed, 30 second timeouts.
pub open spec fn client_for_url(c: OllamaClient, url: Seq<char>) -> bool {
    &&& c.base_url_view() == trim_end_matching(url, '/')
    &&& c.timeout_view() == 30_000
    &&& c.client_timeout_view() == 30
}

/// Whether a post-processor is what loading `config` gives: that
/// configuration, no Ollama client unless Ollama is enabled, and any client
/// the one made for the configured URL.
pub open spec fn loaded_with(p: PostProcessor, config: PostProcessingConfig) -> bool {
    &&& p.config_view() == config
    &&& !config.enable_ollama ==> p.client_view() is None
    &&& p.client_view() matches Some(c) ==> client_for_url(c, config.ollama_url@)
}

impl PostProcessor {
    /// The configuration.
    pub closed spec fn config_view(self) -> PostProcessingConfig {
        self.config
    }

    /// The Ollama client, present when Ollama was enabled and its client
    /// could be built.
    pub closed spec fn client_view(self) -> Option<OllamaClient> {
        self.ollama_client
    }

    /// The processor's invariant: it is loaded with its own configuration.
    #[verifier::type_invariant]
    pub closed spec fn consistent(self) -> bool {
        loaded_with(self, self.config)
    }

    /// Creates a new post-processor with configuration. An Ollama client is
    /// created for the configured URL when Ollama is enabled; if it cannot be
    /// built, Ollama processing is disabled.
    pub fn new(config: PostProcessingConfig) -> (p: Self)
        ensures
            loaded_with(p, config),
    {
        let ollama_client = if config.enable_ollama {
            match OllamaClient::new(config.ollama_url.as_str()) {
                Ok(client) => Some(client),
                Err(_) => None,
            }
        } else {
            None
        };
        PostProcessor { config, ollama_client }
    }

    /// Creates a post-processor with default settings
    pub fn default() -> (p: Self)
        ensures
            !p.config_view().enable_custom_words,
            p.config_view().custom_words@.len() == 0,
            p.config_view().custom_words_threshold_permille == 500,
            !p.config_view().enable_ollama,
            p.config_view().ollama_url@ == "http://localhost:11434"@,
            p.config_view().ollama_model@ == "llama3.2"@,
            p.config_view().ollama_mode is Disabled,
            p.config_view().enable_formatting,
            p.client_view() is None,
    {
        Self::new(PostProcessingConfig::default())
    }

    /// The configuration.
    pub fn config(&self) -> (c: &PostProcessingConfig)
        ensures
            *c == self.config_view(),
    {
        &self.config
    }

    /// The Ollama client, if any.
    pub fn ollama_client(&self) -> (c: Option<&OllamaClient>)
        ensures
            match self.client_view() {
                Some(client) => c == Some(&client),
                None => c is None,
            },
    {
        match &self.ollama_client {
            Some(client) => Some(client),
            None => None,
        }
    }

    /// Updates the configuration, reloading it as [`PostProcessor::new`]
    /// would: with Ollama disabled there is no client; with Ollama enabled a
    /// client for the configured URL is created when there is none or the
    /// URL changed (if it cannot be built, Ollama processing is disabled), and
    /// the present client is kept otherwise.
    pub fn update_config(&mut self, config: PostProcessingConfig)
        ensures
            loaded_with(*final(self), config),
            config.enable_ollama && old(self).client_view() is Some && old(
                self,
            ).config_view().ollama_url@ == config.ollama_url@ ==> final(self).client_view() == old(
                self,
            ).client_view(),
    {
        proof {
            use_type_invariant(&*self);
        }
        let url_changed = !str_equals(self.config.ollama_url.as_str(), config.ollama_url.as_str());
        let mut kept: Option<OllamaClient> = None;
        std::mem::swap(&mut kept, &mut self.ollama_client);
        let client = if !config.enable_ollama {
            None
        } else if url_changed || kept.is_none() {
            match OllamaClient::new(config.ollama_url.as_str()) {
                Ok(client) => Some(client),
                Err(_) => None,
            }
        } else {
            kept
        };
        self.config = config;
        self.ollama_client = client;
    }

    /// Whether the custom-word stage runs.
    pub fn custom_words_enabled(&self) -> (b: bool)
        ensures
            b == custom_words_stage(self.config_view()),
    {
        self.config.enable_custom_words && self.config.custom_words.len() > 0
    }

    /// Whether the Ollama stage runs.
    pub fn ollama_enabled(&self) -> (b: bool)
        ensures
            b == ollama_stage(self.config_view(), self.client_view() is Some),
    {
        self.config.enable_ollama && !self.config.ollama_mode.is_disabled()
            && self.ollama_client.is_some()
    }

    /// Stage 3: Format output
    pub fn format_output(&self, text: &str) -> (t: String)
        ensures
            t@ == normalize_whitespace(text@),
    {
        collapse_whitespace(text)
    }

    fn finish(&self, text: String) -> (a: PipelineAction)
        ensures
            action_view(a) == PipelineView::Finished(formatted(self.config_view(), text@)),
    {
        if self.config.enable_formatting {
            PipelineAction::Finished(self.format_output(text.as_str()))
        } else {
            PipelineAction::Finished(text)
        }
    }

    fn continue_from_ollama_stage(&self, text: String) -> (a: PipelineAction)
        ensures
            action_view(a) == from_ollama_stage(
                self.config_view(),
                self.client_view() is Some,
                text@,
            ),
    {
        if self.ollama_enabled() {
            PipelineAction::Enhance(text)
        } else {
            self.finish(text)
        }
    }

    /// Starts processing a raw transcription: the first stage to perform, or
    /// the output when no outside stage applies.
    pub fn begin(&self, text: String) -> (a: PipelineAction)
        ensures
            action_view(a) == pipeline_start(
                self.config_view(),
                self.client_view() is Some,
                text@,
            ),
    {
        if self.custom_words_enabled() {
            PipelineAction::CorrectWords(text)
        } else {
            self.continue_from_ollama_stage(text)
        }
    }

    /// Resumes after the caller performed `action`; `output` is its result,
    /// `None` when the stage produced nothing (the text is then kept).
    pub fn resume(&self, action: PipelineAction, output: Option<String>) -> (a: PipelineAction)
        ensures
            action_view(a) == pipeline_resume(
                self.config_view(),
                self.client_view() is Some,
                action_view(action),
                optional_text(output),
            ),
    {
        match action {
            PipelineAction::CorrectWords(t) => {
                let next = match output {
                    Some(o) => o,
                    None => t,
                };
                self.continue_from_ollama_stage(next)
            },
            PipelineAction::Enhance(t) => {
                let next = match output {
                    Some(o) => o,
                    None => t,
                };
                self.finish(next)
            },
            PipelineAction::Finished(t) => PipelineAction::Finished(t),
        }
    }
}

} // verus!
