//! Log stream pump: each line read off the worker's output or error stream
//! becomes one event. An output line that already is valid JSON is forwarded
//! unchanged; any other output line is wrapped as an informational log
//! envelope; every error-stream line is wrapped as an error envelope with no
//! parse attempt. Reading the streams is the shell's work; classification is
//! decided here.
use vstd::prelude::*;
use crate::codec::json_escaped;

verus! {

/// Whether a text is one valid JSON value, exactly as the JSON parser
/// accepts it.
pub uninterp spec fn is_json_text(s: Seq<char>) -> bool;

/// Relies on `serde_json::from_str::<Value>`: whether the text parses as one
/// JSON value, a function of the text alone.
#[verifier::external_body]
fn parses_as_json(line: &str) -> (r: bool)
    ensures
        r == is_json_text(line@),
{
    serde_json::from_str::<serde_json::Value>(line).is_ok()
}

/// One classified log event: a structured line forwarded as it came, or a
/// wrapped plain line from the output or the error stream.
pub enum LogEvent {
    Forwarded { text: String },
    InfoLog { message: String },
    StderrLog { message: String },
}

/// How an output-stream line is classified.
pub open spec fn classify_stdout_spec(line: String) -> LogEvent {
    if is_json_text(line@) {
        LogEvent::Forwarded { text: line }
    } else {
        LogEvent::InfoLog { message: line }
    }
}

/// Classifies one line of the worker's output stream: valid JSON is
/// forwarded verbatim, anything else becomes an informational envelope.
pub fn classify_stdout_line(line: String) -> (e: LogEvent)
    ensures
        e == classify_stdout_spec(line),
{
    if parses_as_json(line.as_str()) {
        LogEvent::Forwarded { text: line }
    } else {
        LogEvent::InfoLog { message: line }
    }
}

/// Classifies one line of the worker's error stream: always an error
/// envelope, with no parse attempt.
pub fn classify_stderr_line(line: String) -> (e: LogEvent)
    ensures
        e == (LogEvent::StderrLog { message: line }),
{
    LogEvent::StderrLog { message: line }
}

/// The JSON payload an event carries to the sink: a forwarded line itself,
/// or the envelope naming a level, a type and the raw message.
pub open spec fn payload_text(e: LogEvent) -> Seq<char> {
    match e {
        LogEvent::Forwarded { text } => text@,
        LogEvent::InfoLog { message } =>
            "{\"level\":\"info\",\"type\":\"log\",\"message\":\""@ + json_escaped(message@)
                + "\"}"@,
        LogEvent::StderrLog { message } =>
            "{\"level\":\"error\",\"type\":\"stderr\",\"message\":\""@ + json_escaped(message@)
                + "\"}"@,
    }
}

impl LogEvent {
    /// Renders the event's JSON payload.
    pub fn payload_line(&self) -> (r: String)
        ensures
            r@ == payload_text(*self),
    {
        match self {
            LogEvent::Forwarded { text } => text.clone(),
            LogEvent::InfoLog { message } => {
                let mut s = "{\"level\":\"info\",\"type\":\"log\",\"message\":\"".to_owned();
                crate::codec::append_json_escaped(&mut s, message.as_str());
                s.append("\"}");
                s
            },
            LogEvent::StderrLog { message } => {
                let mut s = "{\"level\":\"error\",\"type\":\"stderr\",\"message\":\"".to_owned();
                crate::codec::append_json_escaped(&mut s, message.as_str());
                s.append("\"}");
                s
            },
        }
    }
}

/// A structured output line crosses the pump untouched: its payload is the
/// line itself. A plain output line and an error line leave wrapped in the
/// informational and the error envelope respectively.
pub proof fn lemma_classification_payloads(line: String)
    ensures
        is_json_text(line@) ==> payload_text(classify_stdout_spec(line)) == line@,
        !is_json_text(line@) ==> payload_text(classify_stdout_spec(line))
            == "{\"level\":\"info\",\"type\":\"log\",\"message\":\""@ + json_escaped(line@)
                + "\"}"@,
        payload_text(LogEvent::StderrLog { message: line })
            == "{\"level\":\"error\",\"type\":\"stderr\",\"message\":\""@ + json_escaped(line@)
                + "\"}"@,
{
}

} // verus!
