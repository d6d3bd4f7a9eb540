//! Export of transcriptions as plain text, Markdown, JSON, SRT subtitles and
//! WebVTT captions.
//!
//! Times are held as whole milliseconds, the confidence as a per-mille value
//! and the creation time as seconds since the Unix epoch (UTC).

use vstd::prelude::*;
use crate::text::{
    decimal, digit_char, push_char, repeat_char, write_decimal, write_zero_padded, zero_padded,
};

verus! {

/// The earliest instant that chrono represents, in seconds since the Unix
/// epoch: -262143-01-01 00:00:00 UTC.
pub const TIMESTAMP_MIN: i64 = -8_334_601_315_200i64;

/// The latest whole second that chrono represents, in seconds since the Unix
/// epoch: +262142-12-31 23:59:59 UTC.
pub const TIMESTAMP_MAX: i64 = 8_210_266_876_799i64;

/// Whether a creation time lies in the range of dates that chrono
/// represents, which the calendar formatter renders.
pub open spec fn timestamp_in_range(secs: int) -> bool {
    TIMESTAMP_MIN <= secs <= TIMESTAMP_MAX
}

/// The pattern of the creation date in the Markdown export.
pub open spec fn date_pattern() -> Seq<char> {
    "%Y-%m-%d %H:%M:%S UTC"@
}

/// Whether `c` follows `%` in a specifier of a simple date pattern: year,
/// month, day, hour, minute or second.
pub open spec fn is_date_specifier(c: char) -> bool {
    c == 'Y' || c == 'm' || c == 'd' || c == 'H' || c == 'M' || c == 'S'
}

/// Whether a chrono format pattern is simple: each `%` is followed by a
/// year, month, day, hour, minute or second specifier letter, and the rest
/// is literal text.
pub open spec fn simple_date_pattern(p: Seq<char>) -> bool {
    forall|i: int|
        0 <= i < p.len() && #[trigger] p[i] == '%' ==> i + 1 < p.len() && is_date_specifier(
            p[i + 1],
        )
}

/// The date pattern of the Markdown export is simple.
proof fn lemma_date_pattern_is_simple()
    ensures
        simple_date_pattern(date_pattern()),
{
    reveal_strlit("%Y-%m-%d %H:%M:%S UTC");
    let p = date_pattern();
    assert(p =~= seq![
        '%', 'Y', '-', '%', 'm', '-', '%', 'd', ' ', '%', 'H', ':', '%', 'M', ':', '%', 'S', ' ',
        'U', 'T', 'C',
    ]);
}

/// The text that chrono renders for `secs` seconds after the epoch with the
/// format pattern `pattern`.
pub uninterp spec fn utc_date_time_text(secs: int, pattern: Seq<char>) -> Seq<char>;

/// Renders a Unix time with a format pattern, through
/// `chrono::DateTime::<Utc>::from_timestamp` and `DateTime::format`.
/// `from_timestamp` gives `None` exactly outside chrono's range of dates
/// (years -262143 to 262142), and then so does this function. Otherwise the
/// contract says only that the text is the one chrono gives for these seconds
/// and this pattern; the calendar arithmetic itself is chrono's and is not
/// restated. Rendering a pattern fails (and `to_string` panics) only for an
/// unknown or incomplete specifier, which the precondition excludes.
#[verifier::external_body]
fn format_utc_date_time(secs: i64, pattern: &str) -> (text: Option<String>)
    requires
        simple_date_pattern(pattern@),
    ensures
        match text {
            Some(t) => timestamp_in_range(secs as int) && t@ == utc_date_time_text(
                secs as int,
                pattern@,
            ),
            None => !timestamp_in_range(secs as int),
        },
{
    match chrono::DateTime::<chrono::Utc>::from_timestamp(secs, 0) {
        Some(dt) => Some(dt.format(pattern).to_string()),
        None => None,
    }
}

/// The system clock in whole seconds since the Unix epoch
/// (`SystemTime::now().duration_since(UNIX_EPOCH)`), or `None` when the clock
/// reads earlier than the epoch. What the clock reads is not promised.
#[verifier::external_body]
fn system_unix_seconds() -> (secs: Option<u64>) {
    match std::time::SystemTime::now().duration_since(std::time::UNIX_EPOCH) {
        Ok(elapsed) => Some(elapsed.as_secs()),
        Err(_) => None,
    }
}

/// Export format
#[derive(Clone, Copy, Debug, PartialEq, Eq, Structural)]
pub enum ExportFormat {
    /// Plain text (.txt)
    Text,
    /// Markdown (.md)
    Markdown,
    /// JSON structured data (.json)
    Json,
    /// SRT subtitles (.srt)
    Srt,
    /// WebVTT captions (.vtt)
    Vtt,
}

/// The file extension of a format, which is also its display text.
pub open spec fn format_extension(format: ExportFormat) -> Seq<char> {
    match format {
        ExportFormat::Text => "txt"@,
        ExportFormat::Markdown => "md"@,
        ExportFormat::Json => "json"@,
        ExportFormat::Srt => "srt"@,
        ExportFormat::Vtt => "vtt"@,
    }
}

impl ExportFormat {
    /// The display text of the format: its file extension.
    pub fn to_string(&self) -> (text: String)
        ensures
            text@ == format_extension(*self),
    {
        match self {
            ExportFormat::Text => "txt".to_owned(),
            ExportFormat::Markdown => "md".to_owned(),
            ExportFormat::Json => "json".to_owned(),
            ExportFormat::Srt => "srt".to_owned(),
            ExportFormat::Vtt => "vtt".to_owned(),
        }
    }
}

/// Why an export could not be produced.
#[derive(Clone, Copy, Debug, PartialEq, Eq, Structural)]
pub enum ExportError {
    /// SRT needs timestamped segments.
    SrtWithoutSegments,
    /// WebVTT needs timestamped segments.
    VttWithoutSegments,
    /// The JSON document could not be produced.
    JsonSerialization,
}

/// The message of an export error.
pub open spec fn export_error_message(e: ExportError) -> Seq<char> {
    match e {
        ExportError::SrtWithoutSegments => "Cannot export to SRT without segment timestamps"@,
        ExportError::VttWithoutSegments => "Cannot export to VTT without segment timestamps"@,
        ExportError::JsonSerialization => "Failed to serialize to JSON"@,
    }
}

impl ExportError {
    /// The human-readable message of the error.
    pub fn to_string(&self) -> (text: String)
        ensures
            text@ == export_error_message(*self),
    {
        match self {
            ExportError::SrtWithoutSegments => "Cannot export to SRT without segment timestamps".to_owned(),
            ExportError::VttWithoutSegments => "Cannot export to VTT without segment timestamps".to_owned(),
            ExportError::JsonSerialization => "Failed to serialize to JSON".to_owned(),
        }
    }
}

/// A timestamped segment of transcription
#[derive(Clone, Debug)]
pub struct TranscriptionSegment {
    /// Start time in milliseconds
    pub start_ms: u64,
    /// End time in milliseconds
    pub end_ms: u64,
    /// Segment text
    pub text: String,
}

/// Transcription data for export
#[derive(Clone, Debug)]
pub struct TranscriptionExport {
    /// Transcribed text
    pub text: String,
    /// Language code (e.g., "en", "es")
    pub language: String,
    /// Model used for transcription
    pub model: String,
    /// Creation time, in seconds since the Unix epoch (UTC)
    pub timestamp: i64,
    /// Duration in milliseconds
    pub duration_ms: Option<u64>,
    /// Confidence score in thousandths (1000 = certain)
    pub confidence_permille: Option<u32>,
    /// Segments with timestamps (for SRT/VTT)
    pub segments: Option<Vec<TranscriptionSegment>>,
}

/// A subtitle timestamp `HH:MM:SS<sep>mmm` for a time in milliseconds.
pub open spec fn subtitle_timestamp(ms: nat, separator: char) -> Seq<char> {
    zero_padded(ms / 3_600_000, 2) + seq![':'] + zero_padded((ms % 3_600_000) / 60_000, 2)
        + seq![':'] + zero_padded((ms % 60_000) / 1000, 2) + seq![separator]
        + zero_padded(ms % 1000, 3)
}

/// SRT timestamp (`HH:MM:SS,mmm`).
pub open spec fn srt_timestamp(ms: nat) -> Seq<char> {
    subtitle_timestamp(ms, ',')
}

/// WebVTT timestamp (`HH:MM:SS.mmm`).
pub open spec fn vtt_timestamp(ms: nat) -> Seq<char> {
    subtitle_timestamp(ms, '.')
}

/// `s` with every `from` replaced by `to`.
pub open spec fn replace_char(s: Seq<char>, from: char, to: char) -> Seq<char> {
    s.map_values(|c: char| if c == from { to } else { c })
}

/// Zero-padded decimal text holds no comma.
proof fn lemma_zero_padded_no_comma(n: nat, width: nat)
    ensures
        forall|i: int| 0 <= i < zero_padded(n, width).len() ==> #[trigger] zero_padded(n, width)[i] != ',',
{
    lemma_decimal_no_comma(n);
    let digits = decimal(n);
    if digits.len() < width {
        let pad = repeat_char('0', (width - digits.len()) as nat);
        assert forall|i: int| 0 <= i < zero_padded(n, width).len() implies #[trigger] zero_padded(n, width)[i] != ',' by {
            if i < pad.len() {
                assert(zero_padded(n, width)[i] == pad[i]);
            } else {
                assert(zero_padded(n, width)[i] == digits[i - pad.len()]);
            }
        }
    }
}

/// Decimal text holds no comma.
proof fn lemma_decimal_no_comma(n: nat)
    ensures
        forall|i: int| 0 <= i < decimal(n).len() ==> #[trigger] decimal(n)[i] != ',',
    decreases n,
{
    if n < 10 {
        assert(digit_char(n) as u32 == n + 48);
    } else {
        lemma_decimal_no_comma(n / 10);
        let d = (n % 10) as nat;
        assert(digit_char(d) as u32 == d + 48);
        let prev = decimal(n / 10);
        assert forall|i: int| 0 <= i < decimal(n).len() implies #[trigger] decimal(n)[i] != ',' by {
            if i < prev.len() {
                assert(decimal(n)[i] == prev[i]);
            }
        }
    }
}

/// Subtitle law: a WebVTT timestamp is the SRT timestamp of the same time
/// with the comma before the milliseconds replaced by a dot.
pub proof fn lemma_vtt_is_srt_with_dot(ms: nat)
    ensures
        vtt_timestamp(ms) == replace_char(srt_timestamp(ms), ',', '.'),
{
    let h = zero_padded(ms / 3_600_000, 2);
    let m = zero_padded((ms % 3_600_000) / 60_000, 2);
    let sec = zero_padded((ms % 60_000) / 1000, 2);
    let milli = zero_padded(ms % 1000, 3);
    lemma_zero_padded_no_comma(ms / 3_600_000, 2);
    lemma_zero_padded_no_comma((ms % 3_600_000) / 60_000, 2);
    lemma_zero_padded_no_comma((ms % 60_000) / 1000, 2);
    lemma_zero_padded_no_comma(ms % 1000, 3);
    let head = h + seq![':'] + m + seq![':'] + sec;
    assert forall|i: int| 0 <= i < head.len() implies #[trigger] head[i] != ',' by {
        if i < h.len() {
            assert(head[i] == h[i]);
        } else if i == h.len() {
        } else if i < h.len() + 1 + m.len() {
            assert(head[i] == m[i - h.len() - 1]);
        } else if i == h.len() + 1 + m.len() {
        } else {
            assert(head[i] == sec[i - h.len() - 2 - m.len()]);
        }
    }
    let srt = srt_timestamp(ms);
    let vtt = vtt_timestamp(ms);
    assert(srt =~= head + seq![','] + milli);
    assert(vtt =~= head + seq!['.'] + milli);
    assert forall|i: int| 0 <= i < vtt.len() implies #[trigger] vtt[i] == replace_char(srt, ',', '.')[i] by {
        if i < head.len() {
            assert(srt[i] == head[i]);
            assert(vtt[i] == head[i]);
        } else if i > head.len() {
            assert(srt[i] == milli[i - head.len() - 1]);
            assert(vtt[i] == milli[i - head.len() - 1]);
        }
    }
    assert(vtt =~= replace_char(srt, ',', '.'));
}

/// The `start --> end` line of a cue, without its line break.
pub open spec fn cue_timing(seg: TranscriptionSegment, separator: char) -> Seq<char> {
    subtitle_timestamp(seg.start_ms as nat, separator) + " --> "@
        + subtitle_timestamp(seg.end_ms as nat, separator)
}

/// One SRT entry: its 1-based number, its timing, its text and a blank line.
pub open spec fn srt_entry(index: nat, seg: TranscriptionSegment) -> Seq<char> {
    decimal(index + 1) + "\n"@ + cue_timing(seg, ',') + "\n"@ + seg.text@ + "\n\n"@
}

/// The SRT entries of the segments, in order.
pub open spec fn srt_document(segs: Seq<TranscriptionSegment>) -> Seq<char>
    decreases segs.len(),
{
    if segs.len() == 0 {
        seq![]
    } else {
        srt_document(segs.drop_last()) + srt_entry((segs.len() - 1) as nat, segs.last())
    }
}

/// One WebVTT cue: its timing, its text and a blank line.
pub open spec fn vtt_cue(seg: TranscriptionSegment) -> Seq<char> {
    cue_timing(seg, '.') + "\n"@ + seg.text@ + "\n\n"@
}

/// The WebVTT cues of the segments, in order.
pub open spec fn vtt_cues(segs: Seq<TranscriptionSegment>) -> Seq<char>
    decreases segs.len(),
{
    if segs.len() == 0 {
        seq![]
    } else {
        vtt_cues(segs.drop_last()) + vtt_cue(segs.last())
    }
}

/// A WebVTT document: the header and the cues.
pub open spec fn vtt_document(segs: Seq<TranscriptionSegment>) -> Seq<char> {
    "WEBVTT\n\n"@ + vtt_cues(segs)
}

/// Hundredths of a second, rounded half up, of a time in milliseconds.
pub open spec fn centiseconds(ms: nat) -> nat {
    if ms % 10 >= 5 { ms / 10 + 1 } else { ms / 10 }
}

/// The Markdown metadata line of the duration, `{:.2}` seconds.
pub open spec fn duration_line(duration_ms: Option<u64>) -> Seq<char> {
    match duration_ms {
        None => seq![],
        Some(ms) => "- **Duration**: "@ + decimal(centiseconds(ms as nat) / 100) + seq!['.']
            + zero_padded(centiseconds(ms as nat) % 100, 2) + "s\n"@,
    }
}

/// The Markdown metadata line of the confidence, as a percentage with one
/// decimal.
pub open spec fn confidence_line(confidence_permille: Option<u32>) -> Seq<char> {
    match confidence_permille {
        None => seq![],
        Some(p) => "- **Confidence**: "@ + decimal(p as nat / 10) + seq!['.'] + decimal(
            p as nat % 10,
        ) + "%\n"@,
    }
}

/// The Markdown document of a transcription.
pub open spec fn markdown_document(e: TranscriptionExport) -> Seq<char> {
    "# Transcription\n\n"@ + "## Metadata\n\n"@ + "- **Date**: "@ + utc_date_time_text(
        e.timestamp as int,
        date_pattern(),
    ) + "\n"@ + "- **Language**: "@ + e.language@ + "\n"@ + "- **Model**: "@ + e.model@ + "\n"@
        + duration_line(e.duration_ms) + confidence_line(e.confidence_permille)
        + "\n## Content\n\n"@ + e.text@ + "\n"@
}

/// Two-digit zero padding of a number below 100 is its tens digit and its
/// units digit.
proof fn lemma_zero_padded_two_digits(x: nat)
    requires
        x < 100,
    ensures
        zero_padded(x, 2) == seq![digit_char(x / 10), digit_char(x % 10)],
{
    if x < 10 {
        assert(decimal(x) == seq![digit_char(x)]);
        assert(zero_padded(x, 2) =~= seq![digit_char(0), digit_char(x)]);
    } else {
        assert(decimal(x / 10) == seq![digit_char(x / 10)]);
        assert(decimal(x) =~= seq![digit_char(x / 10), digit_char(x % 10)]);
    }
}

/// A count of hundredths written as a decimal number with exactly two
/// decimals: the whole part, a dot, the tens digit and the units digit.
pub open spec fn two_decimals(hundredths: nat) -> Seq<char> {
    decimal(hundredths / 100) + seq![
        '.',
        digit_char((hundredths % 100) / 10),
        digit_char(hundredths % 10),
    ]
}

/// Markdown duration law: exporting a transcription of `ms` milliseconds to
/// Markdown gives a document holding the line "- **Duration**: " with the
/// seconds to exactly two decimals: the whole seconds, a dot, the tens and
/// the units digit of the hundredths (rounded half up), then "s".
pub proof fn lemma_markdown_duration_two_decimals(
    e: TranscriptionExport,
    ms: u64,
    json_document: Option<Seq<char>>,
)
    requires
        e.duration_ms == Some(ms),
    ensures
        ({
            let c = (ms as nat + 5) / 10;
            exists|head: Seq<char>, tail: Seq<char>|
                export_outcome(e, ExportFormat::Markdown, json_document) == Ok::<
                    Seq<char>,
                    ExportError,
                >(
                    #[trigger] (head + "- **Duration**: "@ + two_decimals(c) + "s\n"@ + tail),
                )
        }),
{
    let c = (ms as nat + 5) / 10;
    assert(centiseconds(ms as nat) == c);
    lemma_zero_padded_two_digits(c % 100);
    assert((c % 100) % 10 == c % 10);
    let head = "# Transcription\n\n"@ + "## Metadata\n\n"@ + "- **Date**: "@ + utc_date_time_text(
        e.timestamp as int,
        date_pattern(),
    ) + "\n"@ + "- **Language**: "@ + e.language@ + "\n"@ + "- **Model**: "@ + e.model@ + "\n"@;
    let tail = confidence_line(e.confidence_permille) + "\n## Content\n\n"@ + e.text@ + "\n"@;
    let line = "- **Duration**: "@ + decimal(c / 100) + seq![
        '.',
        digit_char((c % 100) / 10),
        digit_char(c % 10),
    ] + "s\n"@;
    assert(duration_line(e.duration_ms) =~= line);
    assert(markdown_document(e) =~= head + line + tail);
    assert(head + line + tail =~= head + "- **Duration**: "@ + two_decimals(c) + "s\n"@ + tail);
}

/// What exporting `e` in `format` gives, where `json_document` is the JSON
/// serialisation of `e` when it could be produced.
pub open spec fn export_outcome(
    e: TranscriptionExport,
    format: ExportFormat,
    json_document: Option<Seq<char>>,
) -> Result<Seq<char>, ExportError> {
    match format {
        ExportFormat::Text => Ok(e.text@),
        ExportFormat::Markdown => Ok(markdown_document(e)),
        ExportFormat::Json => match json_document {
            Some(doc) => Ok(doc),
            None => Err(ExportError::JsonSerialization),
        },
        ExportFormat::Srt => match e.segments {
            Some(segs) => Ok(srt_document(segs@)),
            None => Err(ExportError::SrtWithoutSegments),
        },
        ExportFormat::Vtt => match e.segments {
            Some(segs) => Ok(vtt_document(segs@)),
            None => Err(ExportError::VttWithoutSegments),
        },
    }
}

/// The view of an optional string.
pub open spec fn option_text(s: Option<String>) -> Option<Seq<char>> {
    match s {
        Some(t) => Some(t@),
        None => None,
    }
}

/// The view of a string result.
pub open spec fn result_text<E>(r: Result<String, E>) -> Result<Seq<char>, E> {
    match r {
        Ok(t) => Ok(t@),
        Err(e) => Err(e),
    }
}

/// Appends `HH:MM:SS<sep>mmm` for a time in milliseconds.
fn write_subtitle_timestamp(out: &mut String, ms: u64, separator: char)
    ensures
        final(out)@ == old(out)@ + subtitle_timestamp(ms as nat, separator),
{
    let ghost start = out@;
    write_zero_padded(out, ms / 3_600_000, 2);
    push_char(out, ':');
    write_zero_padded(out, (ms % 3_600_000) / 60_000, 2);
    push_char(out, ':');
    write_zero_padded(out, (ms % 60_000) / 1000, 2);
    push_char(out, separator);
    write_zero_padded(out, ms % 1000, 3);
    assert(out@ =~= start + subtitle_timestamp(ms as nat, separator));
}

/// Formats milliseconds as an SRT timestamp (HH:MM:SS,mmm)
pub fn format_srt_timestamp(ms: u64) -> (text: String)
    ensures
        text@ == srt_timestamp(ms as nat),
{
    let mut out = String::new();
    write_subtitle_timestamp(&mut out, ms, ',');
    assert(out@ =~= srt_timestamp(ms as nat));
    out
}

/// Formats milliseconds as a VTT timestamp (HH:MM:SS.mmm)
pub fn format_vtt_timestamp(ms: u64) -> (text: String)
    ensures
        text@ == vtt_timestamp(ms as nat),
{
    let mut out = String::new();
    write_subtitle_timestamp(&mut out, ms, '.');
    assert(out@ =~= vtt_timestamp(ms as nat));
    out
}

/// Appends the `start --> end` line of a cue and its line break.
fn write_cue_timing(out: &mut String, seg: &TranscriptionSegment, separator: char)
    ensures
        final(out)@ == old(out)@ + cue_timing(*seg, separator) + "\n"@,
{
    let ghost start = out@;
    write_subtitle_timestamp(out, seg.start_ms, separator);
    out.append(" --> ");
    write_subtitle_timestamp(out, seg.end_ms, separator);
    out.append("\n");
    assert(out@ =~= start + cue_timing(*seg, separator) + "\n"@);
}

impl TranscriptionExport {
    /// Creates a new transcription export stamped with the current time.
    /// `None` when the system clock gives no time that can stamp it (see
    /// [`TranscriptionExport::stamped`]).
    pub fn new(text: String, language: String, model: String) -> (r: Option<Self>)
        ensures
            r matches Some(e) ==> {
                &&& e.text == text
                &&& e.language == language
                &&& e.model == model
                &&& 0 <= e.timestamp
                &&& timestamp_in_range(e.timestamp as int)
                &&& e.duration_ms is None
                &&& e.confidence_permille is None
                &&& e.segments is None
            },
    {
        Self::stamped(text, language, model, system_unix_seconds())
    }

    /// Creates a transcription export stamped with a clock reading, in
    /// seconds since the Unix epoch: `None` when there is no reading (the
    /// clock read earlier than the epoch) or it lies past the last date that
    /// can be rendered.
    pub fn stamped(text: String, language: String, model: String, clock: Option<u64>) -> (r:
        Option<Self>)
        ensures
            match clock {
                Some(secs) => if secs <= TIMESTAMP_MAX {
                    r == Some(
                        Self {
                            text,
                            language,
                            model,
                            timestamp: secs as i64,
                            duration_ms: None,
                            confidence_permille: None,
                            segments: None,
                        },
                    )
                } else {
                    r is None
                },
                None => r is None,
            },
    {
        match clock {
            Some(secs) => if secs <= TIMESTAMP_MAX as u64 {
                Some(Self::new_at(text, language, model, secs as i64))
            } else {
                None
            },
            None => None,
        }
    }

    /// Creates a new transcription export with the given creation time.
    pub fn new_at(text: String, language: String, model: String, timestamp: i64) -> (e: Self)
        ensures
            e.text == text,
            e.language == language,
            e.model == model,
            e.timestamp == timestamp,
            e.duration_ms is None,
            e.confidence_permille is None,
            e.segments is None,
    {
        Self {
            text,
            language,
            model,
            timestamp,
            duration_ms: None,
            confidence_permille: None,
            segments: None,
        }
    }

    /// Sets duration
    pub fn with_duration(self, duration_ms: u64) -> (e: Self)
        ensures
            e == (Self { duration_ms: Some(duration_ms), ..self }),
    {
        let mut e = self;
        e.duration_ms = Some(duration_ms);
        e
    }

    /// Sets confidence
    pub fn with_confidence(self, confidence_permille: u32) -> (e: Self)
        ensures
            e == (Self { confidence_permille: Some(confidence_permille), ..self }),
    {
        let mut e = self;
        e.confidence_permille = Some(confidence_permille);
        e
    }

    /// Sets segments
    pub fn with_segments(self, segments: Vec<TranscriptionSegment>) -> (e: Self)
        ensures
            e == (Self { segments: Some(segments), ..self }),
    {
        let mut e = self;
        e.segments = Some(segments);
        e
    }

    /// Exports to the specified format. `json_document` is the JSON
    /// serialisation of this export (`None` when it could not be produced);
    /// it is the result for the JSON format and is ignored otherwise.
    pub fn export(&self, format: ExportFormat, json_document: Option<String>) -> (r: Result<
        String,
        ExportError,
    >)
        requires
            timestamp_in_range(self.timestamp as int),
        ensures
            result_text(r) == export_outcome(*self, format, option_text(json_document)),
    {
        match format {
            ExportFormat::Text => Ok(self.export_text()),
            ExportFormat::Markdown => Ok(self.export_markdown()),
            ExportFormat::Json => match json_document {
                Some(doc) => Ok(doc),
                None => Err(ExportError::JsonSerialization),
            },
            ExportFormat::Srt => self.export_srt(),
            ExportFormat::Vtt => self.export_vtt(),
        }
    }

    /// Exports as plain text
    fn export_text(&self) -> (text: String)
        ensures
            text@ == self.text@,
    {
        self.text.clone()
    }

    /// Exports as markdown
    fn export_markdown(&self) -> (text: String)
        requires
            timestamp_in_range(self.timestamp as int),
        ensures
            text@ == markdown_document(*self),
    {
        let mut content = String::new();
        content.append("# Transcription\n\n");
        content.append("## Metadata\n\n");
        content.append("- **Date**: ");
        proof {
            lemma_date_pattern_is_simple();
        }
        let date = match format_utc_date_time(self.timestamp, "%Y-%m-%d %H:%M:%S UTC") {
            Some(text) => text,
            None => String::new(),
        };
        content.append(date.as_str());
        content.append("\n");
        content.append("- **Language**: ");
        content.append(self.language.as_str());
        content.append("\n");
        content.append("- **Model**: ");
        content.append(self.model.as_str());
        content.append("\n");
        let ghost before_duration = content@;
        if let Some(ms) = self.duration_ms {
            let tenths: u64 = ms / 10;
            let hundredths: u64 = if ms % 10 >= 5 { tenths + 1 } else { tenths };
            content.append("- **Duration**: ");
            write_decimal(&mut content, hundredths / 100);
            push_char(&mut content, '.');
            write_zero_padded(&mut content, hundredths % 100, 2);
            content.append("s\n");
        }
        assert(content@ =~= before_duration + duration_line(self.duration_ms));
        let ghost before_confidence = content@;
        if let Some(p) = self.confidence_permille {
            content.append("- **Confidence**: ");
            write_decimal(&mut content, (p / 10) as u64);
            push_char(&mut content, '.');
            write_decimal(&mut content, (p % 10) as u64);
            content.append("%\n");
        }
        assert(content@ =~= before_confidence + confidence_line(self.confidence_permille));
        content.append("\n## Content\n\n");
        content.append(self.text.as_str());
        content.append("\n");
        assert(content@ =~= markdown_document(*self));
        content
    }

    /// Exports as SRT subtitles
    #[verifier::spinoff_prover]
    #[verifier::rlimit(40)]
    fn export_srt(&self) -> (r: Result<String, ExportError>)
        ensures
            result_text(r) == export_outcome(*self, ExportFormat::Srt, None),
    {
        match &self.segments {
            None => Err(ExportError::SrtWithoutSegments),
            Some(segments) => {
                let mut content = String::new();
                let mut i: usize = 0;
                while i < segments.len()
                    invariant
                        i <= segments@.len(),
                        content@ == srt_document(segments@.take(i as int)),
                    decreases segments@.len() - i,
                {
                    let ghost before = content@;
                    let segment = &segments[i];
                    write_decimal(&mut content, (i as u64) + 1);
                    content.append("\n");
                    write_cue_timing(&mut content, segment, ',');
                    content.append(segment.text.as_str());
                    content.append("\n\n");
                    assert(segments@.take(i + 1).drop_last() =~= segments@.take(i as int));
                    assert(content@ =~= before + srt_entry(i as nat, *segment));
                    i = i + 1;
                }
                assert(segments@.take(segments@.len() as int) =~= segments@);
                Ok(content)
            },
        }
    }

    /// Exports as WebVTT captions
    #[verifier::spinoff_prover]
    #[verifier::rlimit(40)]
    fn export_vtt(&self) -> (r: Result<String, ExportError>)
        ensures
            result_text(r) == export_outcome(*self, ExportFormat::Vtt, None),
    {
        match &self.segments {
            None => Err(ExportError::VttWithoutSegments),
            Some(segments) => {
                let mut content = String::new();
                content.append("WEBVTT\n\n");
                let ghost header = content@;
                let mut i: usize = 0;
                while i < segments.len()
                    invariant
                        i <= segments@.len(),
                        content@ == header + vtt_cues(segments@.take(i as int)),
                    decreases segments@.len() - i,
                {
                    let ghost before = content@;
                    let segment = &segments[i];
                    write_cue_timing(&mut content, segment, '.');
                    content.append(segment.text.as_str());
                    content.append("\n\n");
                    assert(segments@.take(i + 1).drop_last() =~= segments@.take(i as int));
                    assert(content@ =~= before + vtt_cue(*segment));
                    i = i + 1;
                }
                assert(segments@.take(segments@.len() as int) =~= segments@);
                Ok(content)
            },
        }
    }
}

} // verus!
