use worker_supervisor::plan::{
    build_spawn_plan, build_spawn_plan_now, classify_csv_arg, str_is_blank, CsvArgKind,
};
use worker_supervisor::Platform;

#[test]
fn blank_argument_means_manual_mode() {
    assert!(str_is_blank(""));
    assert!(str_is_blank("  \t\r\n "));
    assert!(!str_is_blank(" a "));
    assert_eq!(classify_csv_arg("", false), CsvArgKind::Manual);
    assert_eq!(classify_csv_arg("   ", true), CsvArgKind::Manual);
}

#[test]
fn existing_path_argument_is_passed_through() {
    assert_eq!(
        classify_csv_arg("/data/input.csv", true),
        CsvArgKind::ExistingPath
    );
}

#[test]
fn other_argument_is_inline_content() {
    assert_eq!(classify_csv_arg("a,b\n1,2", false), CsvArgKind::InlineContent);
}

#[test]
fn posix_plan_with_existing_csv() {
    let p = build_spawn_plan(
        Platform::Posix,
        "/home/u/proj",
        "data.csv",
        true,
        false,
        false,
        "/tmp",
        0,
    );
    assert_eq!(p.program, "node");
    assert_eq!(p.script_arg, "/home/u/proj/automation/index.js");
    assert_eq!(p.csv_arg, "data.csv");
    assert!(p.temp_file.is_none());
    assert!(p.env.is_none());
    assert!(p.new_process_group);
}

#[test]
fn windows_plan_prefers_the_bundled_runtime() {
    let p = build_spawn_plan(
        Platform::Windows,
        "C:\\proj",
        "",
        false,
        true,
        false,
        "C:\\temp",
        0,
    );
    assert_eq!(p.program, "C:\\proj\\automation\\node-windows\\node.exe");
    assert_eq!(p.script_arg, "C:\\proj\\automation\\index.js");
    assert_eq!(p.csv_arg, "");
    assert!(!p.new_process_group);
}

#[test]
fn windows_plan_falls_back_to_system_runtime() {
    let p = build_spawn_plan(
        Platform::Windows,
        "C:\\proj",
        "",
        false,
        false,
        false,
        "C:\\temp",
        0,
    );
    assert_eq!(p.program, "node");
}

#[test]
fn bundled_browser_assets_set_the_environment_variable() {
    let p = build_spawn_plan(
        Platform::Posix,
        "/home/u/proj",
        "",
        false,
        false,
        true,
        "/tmp",
        0,
    );
    let env = p.env.unwrap();
    assert_eq!(env.name, "PLAYWRIGHT_BROWSERS_PATH");
    assert_eq!(env.value, "/home/u/proj/automation/.playwright");
}

#[test]
fn inline_content_goes_to_a_stamped_temp_file() {
    let p = build_spawn_plan(
        Platform::Posix,
        "/home/u/proj",
        "a,b\n1,2",
        false,
        false,
        false,
        "/tmp",
        1700000000123,
    );
    let temp = p.temp_file.unwrap();
    assert_eq!(temp.path, "/tmp/form-automation-1700000000123.csv");
    assert_eq!(temp.content, "a,b\n1,2");
    assert_eq!(p.csv_arg, "/tmp/form-automation-1700000000123.csv");
}

#[test]
fn negative_stamp_keeps_its_sign_in_the_temp_name() {
    let p = build_spawn_plan(
        Platform::Posix,
        "/home/u/proj",
        "x",
        false,
        false,
        false,
        "/tmp",
        -5,
    );
    assert_eq!(p.temp_file.unwrap().path, "/tmp/form-automation--5.csv");
}

#[test]
fn clock_stamped_plan_has_the_temp_name_shape() {
    let p = build_spawn_plan_now(
        Platform::Posix,
        "/home/u/proj",
        "a,b\n1,2",
        false,
        false,
        false,
        "/tmp",
    );
    let temp = p.temp_file.unwrap();
    assert!(temp.path.starts_with("/tmp/form-automation-"));
    assert!(temp.path.ends_with(".csv"));
    assert_eq!(temp.content, "a,b\n1,2");
    assert_eq!(p.csv_arg, temp.path);
}
