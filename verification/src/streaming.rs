//! Real-time streaming transcription module
//!
//! Splits incoming audio into chunks of a configured size, keeping an overlap
//! between consecutive chunks for context, and produces a partial result for
//! each chunk. The samples are carried through untouched, whatever their
//! type; the application delivers the partial results to the interface.

use vstd::prelude::*;
use crate::text::{decimal, write_decimal};

verus! {

/// Partial transcription result
#[derive(Clone, Debug)]
pub struct PartialTranscription {
    /// Chunk index (0-based)
    pub chunk_index: usize,
    /// Total number of chunks (if known)
    pub total_chunks: Option<usize>,
    /// Partial text from this chunk
    pub text: String,
    /// Confidence score in thousandths (0 to 1000)
    pub confidence_permille: u32,
    /// Whether this is the final chunk
    pub is_final: bool,
}

/// Configuration for streaming transcription
#[derive(Clone, Copy, Debug)]
pub struct StreamingConfig {
    /// Size of each audio chunk in samples
    pub chunk_size: usize,
    /// Overlap between chunks (in samples) for context
    pub overlap_size: usize,
    /// Minimum confidence, in thousandths, to emit partial results
    pub min_confidence_permille: u32,
    /// Enable partial result emission
    pub enable_partial_results: bool,
}

impl Default for StreamingConfig {
    fn default() -> (c: Self)
        ensures
            c.chunk_size == 16000 * 3,
            c.overlap_size == 16000,
            c.min_confidence_permille == 500,
            c.enable_partial_results,
    {
        StreamingConfig {
            chunk_size: 16000 * 3,
            overlap_size: 16000,
            min_confidence_permille: 500,
            enable_partial_results: true,
        }
    }
}

/// The confidence, in thousandths, that a chunk's transcription reports.
pub open spec fn chunk_confidence() -> u32 {
    850
}

/// The text produced for chunk `index`.
pub open spec fn chunk_text(index: nat) -> Seq<char> {
    "Chunk "@ + decimal(index) + " text"@
}

/// Whether a partial result is the one produced for chunk `index`.
pub open spec fn is_chunk_result(
    p: PartialTranscription,
    index: nat,
    total: Option<usize>,
    is_final: bool,
) -> bool {
    &&& p.chunk_index == index
    &&& p.total_chunks == total
    &&& p.text@ == chunk_text(index)
    &&& p.confidence_permille == chunk_confidence()
    &&& p.is_final == is_final
}

/// Where the overlap kept from a chunk of `chunk_size` samples starts.
pub open spec fn overlap_start(config: StreamingConfig) -> int {
    if config.overlap_size >= config.chunk_size {
        0
    } else {
        config.chunk_size - config.overlap_size
    }
}

/// The buffer after a chunk is taken from `samples`: the chunk's last
/// `overlap_size` samples followed by what came after the chunk.
pub open spec fn after_chunk<S>(config: StreamingConfig, samples: Seq<S>) -> Seq<S> {
    samples.subrange(overlap_start(config), config.chunk_size as int) + samples.skip(
        config.chunk_size as int,
    )
}

/// Streaming transcription processor
///
/// Processes audio in chunks and produces partial results.
pub struct StreamingTranscriber<S> {
    config: StreamingConfig,
    buffer: Vec<S>,
    chunk_count: usize,
}

impl<S: Copy> StreamingTranscriber<S> {
    /// The configuration.
    pub closed spec fn config_view(self) -> StreamingConfig {
        self.config
    }

    /// The buffered samples.
    pub closed spec fn buffer_view(self) -> Seq<S> {
        self.buffer@
    }

    /// The number of chunks processed since the last reset.
    pub closed spec fn count_view(self) -> nat {
        self.chunk_count as nat
    }

    /// Creates a new streaming transcriber
    pub fn new(config: StreamingConfig) -> (t: Self)
        ensures
            t.config_view() == config,
            t.buffer_view() == Seq::<S>::empty(),
            t.count_view() == 0,
    {
        StreamingTranscriber { config, buffer: Vec::new(), chunk_count: 0 }
    }

    /// Creates with default configuration
    pub fn default() -> (t: Self)
        ensures
            t.config_view().chunk_size == 48000,
            t.config_view().overlap_size == 16000,
            t.config_view().min_confidence_permille == 500,
            t.config_view().enable_partial_results,
            t.buffer_view() == Seq::<S>::empty(),
            t.count_view() == 0,
    {
        Self::new(StreamingConfig::default())
    }

    /// The partial result of chunk `index`.
    fn chunk_result(index: usize, total: Option<usize>, is_final: bool) -> (p:
        PartialTranscription)
        ensures
            is_chunk_result(p, index as nat, total, is_final),
    {
        let mut text = "Chunk ".to_owned();
        write_decimal(&mut text, index as u64);
        text.append(" text");
        PartialTranscription {
            chunk_index: index,
            total_chunks: total,
            text,
            confidence_permille: 850,
            is_final,
        }
    }

    /// Adds audio samples to the buffer.
    ///
    /// When the buffer then holds at least one chunk, the first chunk is
    /// processed: its last `overlap_size` samples stay at the front of the
    /// buffer, the chunk count goes up by one, and the chunk's partial result
    /// is returned when partial results are enabled and its confidence reaches
    /// the minimum.
    pub fn push_audio(&mut self, samples: &[S]) -> (emitted: Option<PartialTranscription>)
        requires
            old(self).buffer_view().len() + samples@.len() >= old(self).config_view().chunk_size
                ==> old(self).count_view() < usize::MAX,
        ensures
            final(self).config_view() == old(self).config_view(),
            ({
                let joined = old(self).buffer_view() + samples@;
                let config = old(self).config_view();
                if joined.len() >= config.chunk_size {
                    &&& final(self).buffer_view() == after_chunk(config, joined)
                    &&& final(self).count_view() == old(self).count_view() + 1
                    &&& if config.enable_partial_results && chunk_confidence()
                        >= config.min_confidence_permille {
                        emitted matches Some(p) && is_chunk_result(
                            p,
                            old(self).count_view(),
                            None,
                            false,
                        )
                    } else {
                        emitted is None
                    }
                } else {
                    &&& final(self).buffer_view() == joined
                    &&& final(self).count_view() == old(self).count_view()
                    &&& emitted is None
                }
            }),
    {
        let ghost start = self.buffer@;
        let mut i: usize = 0;
        while i < samples.len()
            invariant
                i <= samples@.len(),
                self.buffer@ == start + samples@.take(i as int),
                self.config == old(self).config,
                self.chunk_count == old(self).chunk_count,
            decreases samples@.len() - i,
        {
            self.buffer.push(samples[i]);
            i = i + 1;
            assert(self.buffer@ =~= start + samples@.take(i as int));
        }
        assert(samples@.take(samples@.len() as int) =~= samples@);
        if self.buffer.len() >= self.config.chunk_size {
            self.process_next_chunk()
        } else {
            None
        }
    }

    /// Processes the first chunk of the buffer.
    fn process_next_chunk(&mut self) -> (emitted: Option<PartialTranscription>)
        requires
            old(self).buffer@.len() >= old(self).config.chunk_size,
            old(self).chunk_count < usize::MAX,
        ensures
            final(self).config == old(self).config,
            final(self).buffer@ == after_chunk(old(self).config, old(self).buffer@),
            final(self).chunk_count == old(self).chunk_count + 1,
            if old(self).config.enable_partial_results && chunk_confidence()
                >= old(self).config.min_confidence_permille {
                emitted matches Some(p) && is_chunk_result(
                    p,
                    old(self).chunk_count as nat,
                    None,
                    false,
                )
            } else {
                emitted is None
            },
    {
        let size = self.config.chunk_size;
        let start: usize = if self.config.overlap_size >= size {
            0
        } else {
            size - self.config.overlap_size
        };
        let mut rest: Vec<S> = Vec::new();
        let mut k: usize = start;
        while k < self.buffer.len()
            invariant
                start <= k <= self.buffer@.len(),
                size <= self.buffer@.len(),
                start <= size,
                rest@ == self.buffer@.subrange(start as int, k as int),
            decreases self.buffer@.len() - k,
        {
            rest.push(self.buffer[k]);
            k = k + 1;
            assert(rest@ =~= self.buffer@.subrange(start as int, k as int));
        }
        assert(rest@ =~= after_chunk(self.config, self.buffer@));
        let index = self.chunk_count;
        self.chunk_count = self.chunk_count + 1;
        self.buffer = rest;
        let partial = Self::chunk_result(index, None, false);
        if self.config.enable_partial_results && partial.confidence_permille
            >= self.config.min_confidence_permille {
            Some(partial)
        } else {
            None
        }
    }

    /// The final result for the samples still buffered, numbered after the
    /// processed chunks and carrying the total count of chunks; `None` when
    /// nothing is buffered or its confidence is below the minimum. Nothing
    /// changes here: once the result has been delivered, the caller resets
    /// the transcriber with [`StreamingTranscriber::cancel`]; when delivery
    /// fails, the buffer and the count are kept.
    pub fn finalize(&self) -> (emitted: Option<PartialTranscription>)
        requires
            self.buffer_view().len() > 0 ==> self.count_view() < usize::MAX,
        ensures
            if self.buffer_view().len() > 0 && chunk_confidence()
                >= self.config_view().min_confidence_permille {
                emitted matches Some(p) && is_chunk_result(
                    p,
                    self.count_view(),
                    Some((self.count_view() + 1) as usize),
                    true,
                )
            } else {
                emitted is None
            },
    {
        if self.buffer.len() > 0 {
            let index = self.chunk_count;
            let partial = Self::chunk_result(index, Some(index + 1), true);
            if partial.confidence_permille >= self.config.min_confidence_permille {
                return Some(partial);
            }
        }
        None
    }

    /// Cancels ongoing streaming and clears the buffer; also the reset that
    /// follows a delivered final result.
    pub fn cancel(&mut self)
        ensures
            final(self).config_view() == old(self).config_view(),
            final(self).buffer_view() == Seq::<S>::empty(),
            final(self).count_view() == 0,
    {
        self.buffer = Vec::new();
        self.chunk_count = 0;
    }

    /// Gets current buffer size
    pub fn buffer_size(&self) -> (n: usize)
        ensures
            n == self.buffer_view().len(),
    {
        self.buffer.len()
    }

    /// Gets number of processed chunks
    pub fn chunk_count(&self) -> (n: usize)
        ensures
            n == self.count_view(),
    {
        self.chunk_count
    }

    /// The configuration.
    pub fn config(&self) -> (c: StreamingConfig)
        ensures
            c == self.config_view(),
    {
        self.config
    }
}

} // verus!
