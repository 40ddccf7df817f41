use worker_supervisor::logpump::{classify_stderr_line, classify_stdout_line, LogEvent};

#[test]
fn valid_json_output_line_is_forwarded_unchanged() {
    let line = "{\"level\":\"warn\",\"x\":1}".to_string();
    let event = classify_stdout_line(line.clone());
    assert!(matches!(&event, LogEvent::Forwarded { text } if *text == line));
    assert_eq!(event.payload_line(), line);
}

#[test]
fn json_scalar_output_line_is_also_forwarded() {
    let event = classify_stdout_line("123".to_string());
    assert!(matches!(&event, LogEvent::Forwarded { text } if text == "123"));
}

#[test]
fn plain_output_line_is_wrapped_as_info_log() {
    let event = classify_stdout_line("hello".to_string());
    assert!(matches!(&event, LogEvent::InfoLog { message } if message == "hello"));
    assert_eq!(
        event.payload_line(),
        "{\"level\":\"info\",\"type\":\"log\",\"message\":\"hello\"}"
    );
}

#[test]
fn truncated_json_output_line_is_wrapped() {
    let event = classify_stdout_line("{\"level\":".to_string());
    assert!(matches!(&event, LogEvent::InfoLog { .. }));
}

#[test]
fn stderr_line_is_always_wrapped_as_error() {
    let event = classify_stderr_line("bad thing".to_string());
    assert!(matches!(&event, LogEvent::StderrLog { message } if message == "bad thing"));
    assert_eq!(
        event.payload_line(),
        "{\"level\":\"error\",\"type\":\"stderr\",\"message\":\"bad thing\"}"
    );
}

#[test]
fn stderr_line_that_is_valid_json_is_still_wrapped() {
    let event = classify_stderr_line("{\"x\":1}".to_string());
    assert_eq!(
        event.payload_line(),
        "{\"level\":\"error\",\"type\":\"stderr\",\"message\":\"{\\\"x\\\":1}\"}"
    );
}

#[test]
fn wrapped_payload_is_valid_json_carrying_the_raw_line() {
    let raw = "warn: \"quoted\" \\ and\ttab";
    let event = classify_stdout_line(raw.to_string());
    let payload = event.payload_line();
    let value: serde_json::Value = serde_json::from_str(&payload).unwrap();
    assert_eq!(value["level"].as_str(), Some("info"));
    assert_eq!(value["type"].as_str(), Some("log"));
    assert_eq!(value["message"].as_str(), Some(raw));
}

#[test]
fn forwarded_payload_preserves_extra_fields() {
    let raw = "{\"level\":\"warn\",\"x\":1,\"nested\":{\"y\":[1,2]}}";
    let event = classify_stdout_line(raw.to_string());
    let payload = event.payload_line();
    assert_eq!(payload, raw);
    let value: serde_json::Value = serde_json::from_str(&payload).unwrap();
    assert_eq!(value["x"].as_i64(), Some(1));
}
