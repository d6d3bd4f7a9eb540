//! Export commands: the list of formats, and exporting a transcription
//! described by plain values (format name, RFC 3339 timestamp).

use vstd::prelude::*;
use crate::export::{
    export_error_message, export_outcome, timestamp_in_range, ExportError, ExportFormat,
    TranscriptionExport, TranscriptionSegment,
};
use crate::text::str_equals;

verus! {

/// What chrono's `str::parse::<DateTime<Utc>>` gives for a text: the
/// timestamp in whole seconds, or the message of its parse error.
pub uninterp spec fn parsed_utc_timestamp(text: Seq<char>) -> Result<int, Seq<char>>;

/// Parses an RFC 3339 date and time (`text.parse::<chrono::DateTime<Utc>>()`)
/// into seconds since the Unix epoch, or gives chrono's error message. The
/// contract names the outcome and adds only that a parsed instant lies in
/// chrono's range of dates; the grammar chrono accepts is not restated.
#[verifier::external_body]
fn parse_utc_timestamp(text: &str) -> (r: Result<i64, String>)
    ensures
        match r {
            Ok(secs) => parsed_utc_timestamp(text@) == Ok::<int, Seq<char>>(secs as int)
                && timestamp_in_range(secs as int),
            Err(message) => parsed_utc_timestamp(text@) == Err::<int, Seq<char>>(message@),
        },
{
    match text.parse::<chrono::DateTime<chrono::Utc>>() {
        Ok(dt) => Ok(dt.timestamp()),
        Err(e) => Err(e.to_string()),
    }
}

/// The names under which the export formats are offered.
pub open spec fn export_format_names() -> Seq<Seq<char>> {
    seq!["text"@, "markdown"@, "json"@, "srt"@, "vtt"@]
}

/// The names of the export formats.
pub fn get_export_formats() -> (names: Vec<String>)
    ensures
        names@.len() == export_format_names().len(),
        forall|i: int| 0 <= i < names@.len() ==> #[trigger] names@[i]@ == export_format_names()[i],
{
    let mut names = Vec::new();
    names.push("text".to_owned());
    names.push("markdown".to_owned());
    names.push("json".to_owned());
    names.push("srt".to_owned());
    names.push("vtt".to_owned());
    names
}

/// The name under which a format is offered.
pub open spec fn format_name(f: ExportFormat) -> Seq<char> {
    match f {
        ExportFormat::Text => "text"@,
        ExportFormat::Markdown => "markdown"@,
        ExportFormat::Json => "json"@,
        ExportFormat::Srt => "srt"@,
        ExportFormat::Vtt => "vtt"@,
    }
}

/// The format that a name selects, if any.
pub open spec fn format_named(name: Seq<char>) -> Option<ExportFormat> {
    if name == "text"@ {
        Some(ExportFormat::Text)
    } else if name == "markdown"@ {
        Some(ExportFormat::Markdown)
    } else if name == "json"@ {
        Some(ExportFormat::Json)
    } else if name == "srt"@ {
        Some(ExportFormat::Srt)
    } else if name == "vtt"@ {
        Some(ExportFormat::Vtt)
    } else {
        None
    }
}

/// The message given for a name that selects no format.
pub open spec fn unknown_format_message(name: Seq<char>) -> Seq<char> {
    "Invalid format: unknown variant `"@ + name
        + "`, expected one of `text`, `markdown`, `json`, `srt`, `vtt`"@
}

/// The format that a name selects ("text", "markdown", "json", "srt" or
/// "vtt"), or the message of why none does.
pub fn parse_export_format(name: &str) -> (r: Result<ExportFormat, String>)
    ensures
        match r {
            Ok(f) => format_named(name@) == Some(f),
            Err(m) => format_named(name@) is None && m@ == unknown_format_message(name@),
        },
{
    if str_equals(name, "text") {
        Ok(ExportFormat::Text)
    } else if str_equals(name, "markdown") {
        Ok(ExportFormat::Markdown)
    } else if str_equals(name, "json") {
        Ok(ExportFormat::Json)
    } else if str_equals(name, "srt") {
        Ok(ExportFormat::Srt)
    } else if str_equals(name, "vtt") {
        Ok(ExportFormat::Vtt)
    } else {
        let mut m = "Invalid format: unknown variant `".to_owned();
        m.append(name);
        m.append("`, expected one of `text`, `markdown`, `json`, `srt`, `vtt`");
        Err(m)
    }
}

/// The formats offered by name are exactly those that parsing accepts: a
/// name selects a format if and only if it is listed, every format is
/// selected by its own name, which is listed, and no two listed names select the same one.
pub proof fn lemma_listed_formats_are_accepted()
    ensures
        forall|name: Seq<char>| #[trigger] format_named(name) is Some <==> export_format_names().contains(name),
        forall|f: ExportFormat|
            #[trigger] format_named(format_name(f)) == Some(f) && export_format_names().contains(
                format_name(f),
            ),
        forall|i: int, j: int|
            0 <= i < j < export_format_names().len() ==> #[trigger] format_named(export_format_names()[i])
                != #[trigger] format_named(export_format_names()[j]),
{
    reveal_strlit("text");
    reveal_strlit("markdown");
    reveal_strlit("json");
    reveal_strlit("srt");
    reveal_strlit("vtt");
    let names = export_format_names();
    assert(names.len() == 5 && names[0] == "text"@ && names[1] == "markdown"@ && names[2] == "json"@
        && names[3] == "srt"@ && names[4] == "vtt"@);
    assert("markdown"@ != "text"@) by {
        assert("markdown"@.len() != "text"@.len());
    }
    assert("json"@ != "text"@) by {
        assert("json"@[0] != "text"@[0]);
    }
    assert("json"@ != "markdown"@) by {
        assert("json"@.len() != "markdown"@.len());
    }
    assert("srt"@.len() == 3 && "vtt"@.len() == 3 && "text"@.len() == 4 && "json"@.len() == 4);
    assert("srt"@ != "text"@ && "srt"@ != "markdown"@ && "srt"@ != "json"@);
    assert("vtt"@ != "text"@ && "vtt"@ != "markdown"@ && "vtt"@ != "json"@);
    assert("vtt"@ != "srt"@) by {
        assert("vtt"@[0] != "srt"@[0]);
    }
    assert(format_named(names[0]) == Some(ExportFormat::Text));
    assert(format_named(names[1]) == Some(ExportFormat::Markdown));
    assert(format_named(names[2]) == Some(ExportFormat::Json));
    assert(format_named(names[3]) == Some(ExportFormat::Srt));
    assert(format_named(names[4]) == Some(ExportFormat::Vtt));
    assert forall|i: int, j: int|
        0 <= i < j < names.len() implies #[trigger] format_named(names[i]) != #[trigger] format_named(
            names[j],
        ) by {
        assert(0 <= i <= 4 && 0 <= j <= 4);
    }
    assert forall|name: Seq<char>| #[trigger] format_named(name) is Some <==> names.contains(name) by {
        if names.contains(name) {
            let k = choose|k: int| 0 <= k < names.len() && names[k] == name;
            assert(k == 0 || k == 1 || k == 2 || k == 3 || k == 4);
        }
        if format_named(name) is Some {
            if name == "text"@ {
                assert(names[0] == name);
            } else if name == "markdown"@ {
                assert(names[1] == name);
            } else if name == "json"@ {
                assert(names[2] == name);
            } else if name == "srt"@ {
                assert(names[3] == name);
            } else {
                assert(names[4] == name);
            }
        }
    }
    assert forall|f: ExportFormat|
        #[trigger] format_named(format_name(f)) == Some(f) && names.contains(format_name(f)) by {
        match f {
            ExportFormat::Text => assert(names[0] == format_name(f)),
            ExportFormat::Markdown => assert(names[1] == format_name(f)),
            ExportFormat::Json => assert(names[2] == format_name(f)),
            ExportFormat::Srt => assert(names[3] == format_name(f)),
            ExportFormat::Vtt => assert(names[4] == format_name(f)),
        }
    }
}

/// The export that the command builds from its arguments.
pub open spec fn command_export(
    text: String,
    language: String,
    model: String,
    timestamp: int,
    duration_ms: Option<u64>,
    confidence_permille: Option<u32>,
    segments: Option<Vec<TranscriptionSegment>>,
) -> TranscriptionExport {
    TranscriptionExport {
        text,
        language,
        model,
        timestamp: timestamp as i64,
        duration_ms,
        confidence_permille,
        segments,
    }
}

/// Why the export command failed.
#[derive(Clone, Debug)]
pub enum ExportCommandError {
    /// The timestamp is not RFC 3339 text; chrono's message.
    InvalidTimestamp(String),
    /// The format name selects no format; the full message.
    InvalidFormat(String),
    /// The export itself failed.
    Failed(ExportError),
}

/// The abstract form of an export command's error.
pub enum ExportCommandErrorView {
    InvalidTimestamp(Seq<char>),
    InvalidFormat(Seq<char>),
    Failed(ExportError),
}

/// The view of an export command's error.
pub open spec fn command_error_view(e: ExportCommandError) -> ExportCommandErrorView {
    match e {
        ExportCommandError::InvalidTimestamp(m) => ExportCommandErrorView::InvalidTimestamp(m@),
        ExportCommandError::InvalidFormat(m) => ExportCommandErrorView::InvalidFormat(m@),
        ExportCommandError::Failed(e) => ExportCommandErrorView::Failed(e),
    }
}

/// The view of an export command's result.
pub open spec fn command_result_view(r: Result<String, ExportCommandError>) -> Result<
    Seq<char>,
    ExportCommandErrorView,
> {
    match r {
        Ok(s) => Ok(s@),
        Err(e) => Err(command_error_view(e)),
    }
}

/// What exporting a transcription created at `secs` to the format named
/// `format` gives.
pub open spec fn export_at_outcome(
    text: String,
    language: String,
    model: String,
    secs: int,
    duration_ms: Option<u64>,
    confidence_permille: Option<u32>,
    segments: Option<Vec<TranscriptionSegment>>,
    format: Seq<char>,
    json_document: Option<Seq<char>>,
) -> Result<Seq<char>, ExportCommandErrorView> {
    match format_named(format) {
        None => Err(ExportCommandErrorView::InvalidFormat(unknown_format_message(format))),
        Some(f) => match export_outcome(
            command_export(text, language, model, secs, duration_ms, confidence_permille, segments),
            f,
            json_document,
        ) {
            Ok(doc) => Ok(doc),
            Err(e) => Err(ExportCommandErrorView::Failed(e)),
        },
    }
}

/// Exports a transcription created at `secs` seconds after the Unix epoch
/// to the format named `format`. `json_document` is the JSON serialisation
/// of the transcription, used for the JSON format.
pub fn export_at(
    text: String,
    language: String,
    model: String,
    secs: i64,
    duration_ms: Option<u64>,
    confidence_permille: Option<u32>,
    segments: Option<Vec<TranscriptionSegment>>,
    format: &str,
    json_document: Option<String>,
) -> (r: Result<String, ExportCommandError>)
    requires
        timestamp_in_range(secs as int),
    ensures
        command_result_view(r) == export_at_outcome(
            text,
            language,
            model,
            secs as int,
            duration_ms,
            confidence_permille,
            segments,
            format@,
            match json_document {
                Some(d) => Some(d@),
                None => None,
            },
        ),
{
    let format = match parse_export_format(format) {
        Ok(f) => f,
        Err(m) => return Err(ExportCommandError::InvalidFormat(m)),
    };
    let export = TranscriptionExport {
        text,
        language,
        model,
        timestamp: secs,
        duration_ms,
        confidence_permille,
        segments,
    };
    match export.export(format, json_document) {
        Ok(s) => Ok(s),
        Err(e) => Err(ExportCommandError::Failed(e)),
    }
}

/// Exports a transcription given by plain values: the timestamp as RFC 3339
/// text and the format by name (see [`export_at`]).
pub fn export_command(
    text: String,
    language: String,
    model: String,
    timestamp: &str,
    duration_ms: Option<u64>,
    confidence_permille: Option<u32>,
    segments: Option<Vec<TranscriptionSegment>>,
    format: &str,
    json_document: Option<String>,
) -> (r: Result<String, ExportCommandError>)
    ensures
        match parsed_utc_timestamp(timestamp@) {
            Err(e) => command_result_view(r) == Err::<Seq<char>, _>(
                ExportCommandErrorView::InvalidTimestamp(e),
            ),
            Ok(secs) => command_result_view(r) == export_at_outcome(
                text,
                language,
                model,
                secs,
                duration_ms,
                confidence_permille,
                segments,
                format@,
                match json_document {
                    Some(d) => Some(d@),
                    None => None,
                },
            ),
        },
{
    match parse_utc_timestamp(timestamp) {
        Ok(secs) => export_at(
            text,
            language,
            model,
            secs,
            duration_ms,
            confidence_permille,
            segments,
            format,
            json_document,
        ),
        Err(e) => Err(ExportCommandError::InvalidTimestamp(e)),
    }
}

/// The message of an export command's error; `failure` introduces a failed
/// export ("Export failed: " for the string command, "Export to file
/// failed: " for the file command).
pub fn export_command_message(e: &ExportCommandError, failure: &str) -> (m: String)
    ensures
        m@ == match command_error_view(*e) {
            ExportCommandErrorView::InvalidTimestamp(t) => "Invalid timestamp: "@ + t,
            ExportCommandErrorView::InvalidFormat(t) => t,
            ExportCommandErrorView::Failed(x) => failure@ + export_error_message(x),
        },
{
    match e {
        ExportCommandError::InvalidTimestamp(t) => {
            let mut m = "Invalid timestamp: ".to_owned();
            m.append(t.as_str());
            m
        },
        ExportCommandError::InvalidFormat(t) => t.clone(),
        ExportCommandError::Failed(x) => {
            let mut m = failure.to_owned();
            m.append(x.to_string().as_str());
            m
        },
    }
}

/// Exports a transcription given by plain values, for the string command:
/// the document, or the message of an invalid timestamp, an unknown format
/// or a failed export.
pub fn export_transcription(
    text: String,
    language: String,
    model: String,
    timestamp: &str,
    duration_ms: Option<u64>,
    confidence_permille: Option<u32>,
    segments: Option<Vec<TranscriptionSegment>>,
    format: &str,
    json_document: Option<String>,
) -> (r: Result<String, String>)
    ensures
        match parsed_utc_timestamp(timestamp@) {
            Err(e) => r matches Err(m) && m@ == "Invalid timestamp: "@ + e,
            Ok(secs) => match export_at_outcome(
                text,
                language,
                model,
                secs,
                duration_ms,
                confidence_permille,
                segments,
                format@,
                match json_document {
                    Some(d) => Some(d@),
                    None => None,
                },
            ) {
                Ok(doc) => r matches Ok(s) && s@ == doc,
                Err(ExportCommandErrorView::InvalidFormat(m0)) => r matches Err(m) && m@ == m0,
                Err(ExportCommandErrorView::Failed(e)) => r matches Err(m) && m@ == "Export failed: "@
                    + export_error_message(e),
                Err(ExportCommandErrorView::InvalidTimestamp(_)) => false,
            },
        },
{
    match export_command(
        text,
        language,
        model,
        timestamp,
        duration_ms,
        confidence_permille,
        segments,
        format,
        json_document,
    ) {
        Ok(s) => Ok(s),
        Err(e) => Err(export_command_message(&e, "Export failed: ")),
    }
}

} // verus!
