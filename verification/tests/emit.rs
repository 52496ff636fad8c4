//! Integration tests for markdown and JSON result emission.

use hooklings::emit::{
    check_result_from_step, check_results_from_steps, markdown_table, CheckResult, EmitMode,
    Emitter, Status, StepOutcome, StepRecord,
};
use hooklings::handlers::disabled_output;
use serde_json::Value;

fn json(text: &str) -> Value {
    serde_json::from_str(text).unwrap()
}

fn sample_results() -> Vec<CheckResult> {
    vec![
        CheckResult {
            name: "detect_shell".into(),
            status: Status::Pass,
            detail: "nu 0.102.0".into(),
            data: Some(json(r#"{ "shell": "nu" }"#)),
        },
        CheckResult {
            name: "check_tools".into(),
            status: Status::Warn,
            detail: "handoff-detect not found".into(),
            data: None,
        },
        CheckResult {
            name: "op::auth_check".into(),
            status: Status::Skip,
            detail: "disabled in config".into(),
            data: None,
        },
        CheckResult {
            name: "git::status".into(),
            status: Status::Fail,
            detail: "dirty tree".into(),
            data: None,
        },
    ]
}

#[test]
fn markdown_table_contains_all_check_names() {
    let table = markdown_table(&sample_results());
    assert!(table.contains("detect_shell"));
    assert!(table.contains("check_tools"));
    assert!(table.contains("op::auth_check"));
    assert!(table.contains("git::status"));
}

#[test]
fn markdown_table_contains_status_labels() {
    let table = markdown_table(&sample_results());
    assert!(table.contains("PASS"));
    assert!(table.contains("WARN"));
    assert!(table.contains("SKIP"));
    assert!(table.contains("FAIL"));
}

#[test]
fn markdown_table_has_header_row() {
    let table = markdown_table(&sample_results());
    assert!(table.contains("| Check"));
    assert!(table.contains("| Status"));
    assert!(table.contains("| Detail"));
}

#[test]
fn markdown_table_exact_rows() {
    let table = markdown_table(&sample_results()[1..2]);
    assert_eq!(
        table,
        "| Check | Status | Detail |\n|---|---|---|\n| check_tools | WARN | handoff-detect not found |\n"
    );
    assert_eq!(markdown_table(&[]), "| Check | Status | Detail |\n|---|---|---|\n");
    assert_eq!(markdown_table(&sample_results()).lines().count(), 6);
}

#[test]
fn json_output_contains_results_array() {
    let emitter = Emitter::new("preflight".into());
    let json = emitter.to_json(&sample_results());
    assert!(json["results"].is_array());
    assert_eq!(json["results"].as_array().unwrap().len(), 4);
    assert_eq!(json["pipeline"], "preflight");
    assert!(json["timestamp"].is_string());
}

#[test]
fn json_timestamp_is_rfc3339_utc() {
    let emitter = Emitter::new("preflight".into());
    let json = emitter.to_json(&[]);
    let stamp = json["timestamp"].as_str().unwrap();
    assert!(stamp.ends_with("+00:00"));
    assert_eq!(stamp.as_bytes()[10], b'T');
    assert_eq!(stamp.as_bytes()[4], b'-');
    assert!(stamp[..4].bytes().all(|b| b.is_ascii_digit()));
}

#[test]
fn json_result_has_required_fields() {
    let emitter = Emitter::new("preflight".into());
    let json = emitter.to_json(&sample_results());
    let first = &json["results"][0];
    assert_eq!(first["name"], "detect_shell");
    assert_eq!(first["status"], "pass");
    assert!(first["detail"].is_string());
}

#[test]
fn json_report_at_a_given_time() {
    let emitter = Emitter::new("nightly".into());
    let report = emitter.to_json_at(&sample_results(), "2026-01-01T00:00:00+00:00".to_string());
    let expected = json(
        r#"{
        "timestamp": "2026-01-01T00:00:00+00:00",
        "pipeline": "nightly",
        "results": [
            {"name": "detect_shell", "status": "pass", "detail": "nu 0.102.0", "data": {"shell": "nu"}},
            {"name": "check_tools", "status": "warn", "detail": "handoff-detect not found"},
            {"name": "op::auth_check", "status": "skip", "detail": "disabled in config"},
            {"name": "git::status", "status": "fail", "detail": "dirty tree"}
        ]
    }"#,
    );
    assert_eq!(report, expected);
    // a result without data carries no `data` member
    assert!(report["results"][1].get("data").is_none());
}

#[test]
fn status_display() {
    assert_eq!(Status::Pass.as_str(), "pass");
    assert_eq!(Status::Warn.as_str(), "warn");
    assert_eq!(Status::Fail.as_str(), "fail");
    assert_eq!(Status::Skip.as_str(), "skip");
    assert_eq!(Status::Error.as_str(), "error");
}

#[test]
fn status_labels_are_upper_case_names() {
    for s in [Status::Pass, Status::Warn, Status::Fail, Status::Skip, Status::Error] {
        assert_eq!(s.label(), s.as_str().to_uppercase());
    }
}

fn step(name: &str, outcome: StepOutcome, output: Option<Value>) -> StepRecord {
    StepRecord { name: name.to_string(), outcome, output }
}

#[test]
fn step_status_is_read_from_output() {
    let r = check_result_from_step(&step("a", StepOutcome::Succeeded, Some(json(r#"{"status":"warn","detail":"careful"}"#))));
    assert_eq!(r.status, Status::Warn);
    assert_eq!(r.detail, "careful");
    let r = check_result_from_step(&step("b", StepOutcome::Succeeded, Some(json(r#"{"status":"skip"}"#))));
    assert_eq!(r.status, Status::Skip);
    assert_eq!(r.detail, "");
    let r = check_result_from_step(&step("c", StepOutcome::Succeeded, Some(json(r#"{"status":"fail"}"#))));
    assert_eq!(r.status, Status::Fail);
    let r = check_result_from_step(&step("d", StepOutcome::Succeeded, Some(json(r#"{"status":"odd"}"#))));
    assert_eq!(r.status, Status::Pass);
    let r = check_result_from_step(&step("e", StepOutcome::Succeeded, Some(json(r#"{"status":3}"#))));
    assert_eq!(r.status, Status::Pass);
    let r = check_result_from_step(&step("f", StepOutcome::Failed, Some(json(r#"{"status":"skip"}"#))));
    assert_eq!(r.status, Status::Error);
    let r = check_result_from_step(&step("g", StepOutcome::Succeeded, None));
    assert_eq!(r.status, Status::Pass);
    assert_eq!(r.data, Some(Value::Null));
}

#[test]
fn rejected_steps_are_left_out() {
    let steps = vec![
        step("one", StepOutcome::Succeeded, None),
        step("two", StepOutcome::Rejected, None),
        step("three", StepOutcome::Failed, None),
    ];
    let results = check_results_from_steps(&steps);
    let names: Vec<&str> = results.iter().map(|r| r.name.as_str()).collect();
    assert_eq!(names, vec!["one", "three"]);
    assert_eq!(results[1].status, Status::Error);
}

#[test]
fn disabled_check_reads_back_as_skip() {
    let out = disabled_output();
    let r = check_result_from_step(&step("op::auth_check", StepOutcome::Succeeded, Some(out)));
    assert_eq!(r.status, Status::Skip);
    assert_eq!(r.detail, "disabled in config");
}

#[test]
fn emit_modes() {
    assert!(EmitMode::Json.writes_json() && !EmitMode::Json.prints_table());
    assert!(!EmitMode::Table.writes_json() && EmitMode::Table.prints_table());
    assert!(EmitMode::Both.writes_json() && EmitMode::Both.prints_table());
}
