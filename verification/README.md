# handy

The logic of the Handy speech-to-text desktop application, written in Verus
and proved against its contracts.

- `src/` is the verified library: transcription export (text, Markdown, JSON,
  SRT, WebVTT), the webhook system (event filtering, request headers,
  delivery with retries and backoff), the Ollama request builders, the
  post-processing pipeline, streaming chunking, hot-plug device tracking,
  and the state of recording sessions and background model loads. Each
  public function states its result in `ensures`; the laws that relate
  several operations are public proof functions (`lemma_*`).
- `app/` is the command-line shell around it: HTTP, audio devices, the
  system volume, threads and timers, and JSON serialisation. It carries out
  what the library decides and hands the outcomes back.
- `tests/` runs the library on concrete values.
