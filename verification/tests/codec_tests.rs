use worker_supervisor::codec::{encode_control_line, ControlMessage};

#[test]
fn start_insertion_line() {
    let line = encode_control_line(&ControlMessage::StartInsertion { form: None });
    assert_eq!(line, "{\"cmd\":\"start_insertion\"}\n");
}

#[test]
fn start_insertion_with_form_line() {
    let line = encode_control_line(&ControlMessage::StartInsertion {
        form: Some("orders".to_string()),
    });
    assert_eq!(line, "{\"cmd\":\"start_insertion\",\"form\":\"orders\"}\n");
}

#[test]
fn pause_insertion_line() {
    let line = encode_control_line(&ControlMessage::PauseInsertion);
    assert_eq!(line, "{\"cmd\":\"pause_insertion\"}\n");
}

#[test]
fn stop_insertion_line() {
    let line = encode_control_line(&ControlMessage::StopInsertion);
    assert_eq!(line, "{\"cmd\":\"stop_insertion\"}\n");
}

#[test]
fn load_csv_content_line() {
    let line = encode_control_line(&ControlMessage::LoadCsvContent {
        csv: "a,b\n1,2".to_string(),
    });
    assert_eq!(line, "{\"cmd\":\"load_csv_content\",\"csv\":\"a,b\\n1,2\"}\n");
}

#[test]
fn load_csv_path_line() {
    let line = encode_control_line(&ControlMessage::LoadCsvPath {
        path: "/tmp/input.csv".to_string(),
    });
    assert_eq!(line, "{\"cmd\":\"load_csv_path\",\"path\":\"/tmp/input.csv\"}\n");
}

#[test]
fn escapes_quotes_and_backslashes() {
    let line = encode_control_line(&ControlMessage::LoadCsvContent {
        csv: "say \"hi\" c:\\dir".to_string(),
    });
    assert_eq!(
        line,
        "{\"cmd\":\"load_csv_content\",\"csv\":\"say \\\"hi\\\" c:\\\\dir\"}\n"
    );
}

#[test]
fn escapes_named_control_characters() {
    let line = encode_control_line(&ControlMessage::LoadCsvContent {
        csv: "a\tb\rc\u{8}d\u{c}e".to_string(),
    });
    assert_eq!(
        line,
        "{\"cmd\":\"load_csv_content\",\"csv\":\"a\\tb\\rc\\bd\\fe\"}\n"
    );
}

#[test]
fn escapes_other_control_characters_as_hex() {
    let line = encode_control_line(&ControlMessage::LoadCsvContent {
        csv: "x\u{1}y\u{1f}z".to_string(),
    });
    assert_eq!(
        line,
        "{\"cmd\":\"load_csv_content\",\"csv\":\"x\\u0001y\\u001fz\"}\n"
    );
}

#[test]
fn passes_non_ascii_through_unescaped() {
    let line = encode_control_line(&ControlMessage::LoadCsvContent {
        csv: "héllo, wörld".to_string(),
    });
    assert_eq!(line, "{\"cmd\":\"load_csv_content\",\"csv\":\"héllo, wörld\"}\n");
}

#[test]
fn encoded_line_matches_reference_json_encoder() {
    let csv = "a,b\n1,\"2\"\tc:\\x\u{1}";
    let line = encode_control_line(&ControlMessage::LoadCsvContent { csv: csv.to_string() });

    let mut obj = serde_json::Map::new();
    obj.insert(
        "cmd".to_string(),
        serde_json::Value::String("load_csv_content".to_string()),
    );
    obj.insert("csv".to_string(), serde_json::Value::String(csv.to_string()));
    let mut expected = serde_json::to_string(&serde_json::Value::Object(obj)).unwrap();
    expected.push('\n');

    assert_eq!(line, expected);
}

#[test]
fn encoded_line_parses_back_to_the_same_fields() {
    let csv = "a,b\n1,2 \"quoted\" \\ end";
    let line = encode_control_line(&ControlMessage::LoadCsvContent { csv: csv.to_string() });
    let value: serde_json::Value = serde_json::from_str(line.trim_end_matches('\n')).unwrap();
    assert_eq!(value["cmd"].as_str(), Some("load_csv_content"));
    assert_eq!(value["csv"].as_str(), Some(csv));
}
