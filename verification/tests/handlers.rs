use hooklings::handlers::disabled_output;
use hooklings::handlers::doob;
use hooklings::handlers::env::ShellSearch;
use hooklings::handlers::handoff;
use hooklings::handlers::op;
use hooklings::handlers::ssh;
use hooklings::handlers::ProcessOutput;
use hooklings::text;
use serde_json::Value;

fn json(text: &str) -> Value {
    serde_json::from_str(text).unwrap()
}

fn output(success: bool, stdout: &str, stderr: &str) -> ProcessOutput {
    ProcessOutput { success, stdout: stdout.as_bytes().to_vec(), stderr: stderr.as_bytes().to_vec() }
}

#[test]
fn disabled_checks_are_skipped() {
    let expected = json(r#"{ "status": "skip", "detail": "disabled in config" }"#);
    assert_eq!(op::auth_check_skipped(false), Some(expected.clone()));
    assert_eq!(op::auth_check_skipped(true), None);
    assert_eq!(ssh::reachable_skipped(false), Some(expected));
    assert_eq!(ssh::reachable_skipped(true), None);
}

#[test]
fn op_auth_counts_accounts() {
    assert_eq!(op::auth_check_args(), vec!["account", "list", "--format=json"]);
    let ok = op::auth_check_result(&output(true, r#"[{"url":"a"},{"url":"b"}]"#, ""));
    assert_eq!(ok, json(r#"{"status":"pass","authenticated":true,"accounts":2}"#));
    let not_a_list = op::auth_check_result(&output(true, "not json", ""));
    assert_eq!(not_a_list["accounts"], 0);
    let failed = op::auth_check_result(&output(false, "", "  [ERROR] not signed in\n"));
    assert_eq!(failed, json(r#"{"status":"fail","authenticated":false,"detail":"[ERROR] not signed in"}"#));
}

#[test]
fn ssh_reachability() {
    assert_eq!(
        ssh::reachable_args("vps"),
        vec!["-o", "ConnectTimeout=3", "-o", "BatchMode=yes", "-o", "StrictHostKeyChecking=no", "vps", "exit"]
    );
    assert_eq!(
        ssh::reachable_result("vps", &output(true, "", "")),
        json(r#"{"status":"pass","reachable":true,"host":"vps"}"#)
    );
    assert_eq!(
        ssh::reachable_result("vps", &output(false, "", "timeout\n")),
        json(r#"{"status":"warn","reachable":false,"host":"vps","detail":"timeout"}"#)
    );
}

#[test]
fn doob_pending_outputs() {
    assert!(!doob::pending_available(&None));
    assert!(!doob::pending_available(&Some(output(false, "", ""))));
    assert!(doob::pending_available(&Some(output(true, "/usr/bin/doob\n", ""))));
    assert_eq!(
        doob::pending_missing(),
        json(r#"{"status":"skip","detail":"doob not on PATH","todos":[],"count":0}"#)
    );
    assert_eq!(doob::pending_args(), vec!["todo", "list", "--status", "pending", "--json"]);
    let listed = doob::pending_result(&output(true, r#"{"todos":[{"id":"t1","status":"pending"}],"count":1}"#, ""));
    assert_eq!(listed["count"], 1);
    assert_eq!(listed["detail"], "1 pending");
    assert_eq!(listed["todos"].as_array().unwrap().len(), 1);
    assert_eq!(listed["todos"][0]["status"], "pending");
    let garbage = doob::pending_result(&output(true, "garbage", ""));
    assert_eq!(garbage, json(r#"{"todos":[],"count":0,"detail":"0 pending"}"#));
    let failed = doob::pending_result(&output(false, "", " db locked "));
    assert_eq!(failed, json(r#"{"status":"warn","detail":"db locked","todos":[],"count":0}"#));
}

#[test]
fn handoff_query_and_items() {
    let input = json(r#"{"args": {"project": "proj-a"}}"#);
    assert_eq!(handoff::project_filter(&input), Some("proj-a".to_string()));
    assert_eq!(handoff::project_filter(&json("{}")), None);
    let (sql, params) = handoff::pending_query(Some("proj-a".to_string()));
    assert!(sql.contains("status <> 'done'"));
    assert!(sql.contains("project = ?1"));
    assert_eq!(params, vec!["proj-a".to_string()]);
    let (sql, params) = handoff::pending_query(None);
    assert!(sql.contains("status <> 'done'"));
    assert!(sql.ends_with("ORDER BY priority, project, id"));
    assert!(params.is_empty());
    let rows = vec![handoff::HandoffRow {
        project: "proj-a".into(),
        id: "a-1".into(),
        name: Some("open task".into()),
        priority: None,
        status: "open".into(),
    }];
    assert_eq!(
        handoff::pending_result(&rows),
        json(r#"{"items":[{"project":"proj-a","id":"a-1","name":"open task","priority":null,"status":"open"}],"count":1}"#)
    );
    assert_eq!(handoff::pending_result(&[]), json(r#"{"items":[],"count":0}"#));
}

#[test]
fn shell_detection() {
    assert_eq!(hooklings::handlers::env::shell_candidates(), vec!["nu", "zsh", "bash"]);
    match hooklings::handlers::env::shell_search_start() {
        ShellSearch::Probe(0, name) => assert_eq!(name, "nu"),
        _ => panic!("expected to probe nu first"),
    }
    match hooklings::handlers::env::shell_search_step(0, &None) {
        ShellSearch::Probe(1, name) => assert_eq!(name, "zsh"),
        _ => panic!("expected to probe zsh next"),
    }
    match hooklings::handlers::env::shell_search_step(1, &Some(output(true, "/bin/zsh\n", ""))) {
        ShellSearch::Found(shell, path) => {
            assert_eq!(shell, "zsh");
            assert_eq!(path, "/bin/zsh");
        }
        _ => panic!("expected zsh to be found"),
    }
    match hooklings::handlers::env::shell_search_step(2, &Some(output(false, "", ""))) {
        ShellSearch::Exhausted => {}
        _ => panic!("expected the search to end"),
    }
    match hooklings::handlers::env::shell_search_step(7, &Some(output(true, "/bin/x", ""))) {
        ShellSearch::Exhausted => {}
        _ => panic!("expected the search to end"),
    }
    assert_eq!(hooklings::handlers::env::which_path(&output(true, "/usr/bin/zsh\n", "")), Some("/usr/bin/zsh".to_string()));
    assert_eq!(hooklings::handlers::env::which_path(&output(true, "  \n", "")), None);
    assert_eq!(hooklings::handlers::env::which_path(&output(false, "/usr/bin/zsh", "")), None);
    assert_eq!(
        hooklings::handlers::env::detect_shell_result("/bin/sh".into(), Some(("zsh".into(), "/usr/bin/zsh".into()))),
        json(r#"{"shell":"zsh","path":"/usr/bin/zsh","SHELL":"/bin/sh"}"#)
    );
    assert_eq!(
        hooklings::handlers::env::detect_shell_result("/bin/sh".into(), None),
        json(r#"{"shell":"/bin/sh","path":"/bin/sh","SHELL":"/bin/sh"}"#)
    );
}

#[test]
fn tools_are_reported() {
    let input = json(r#"{"args": {"tools": ["cargo", 3, "nope"]}}"#);
    assert_eq!(hooklings::handlers::env::requested_tools(&input), vec!["cargo".to_string(), "nope".to_string()]);
    assert!(hooklings::handlers::env::requested_tools(&json(r#"{"args": {"tools": []}}"#)).is_empty());
    assert!(hooklings::handlers::env::requested_tools(&json("{}")).is_empty());
    let pass = hooklings::handlers::env::tool_result("cargo".into(), &Some(output(true, "/usr/bin/cargo\n", "")));
    assert_eq!(pass, json(r#"{"name":"cargo","status":"pass","path":"/usr/bin/cargo"}"#));
    let warn = hooklings::handlers::env::tool_result("nope".into(), &Some(output(false, "", "")));
    assert_eq!(warn, json(r#"{"name":"nope","status":"warn","path":""}"#));
    let not_run = hooklings::handlers::env::tool_result("nope".into(), &None);
    assert_eq!(not_run["status"], "warn");
    assert_eq!(hooklings::handlers::env::tools_result(vec![]), json(r#"{"tools":[]}"#));
    assert_eq!(hooklings::handlers::env::tools_result(vec![pass.clone()])["tools"][0], pass);
}

#[test]
fn working_directory_location() {
    let home = "/home/u";
    assert_eq!(
        hooklings::handlers::env::workspace_and_project("/home/u/dev/ws/proj", home),
        (Some("ws".to_string()), Some("proj".to_string()))
    );
    assert_eq!(
        hooklings::handlers::env::workspace_and_project("/home/u/dev/ws/proj/sub", home),
        (Some("ws".to_string()), Some("proj/sub".to_string()))
    );
    assert_eq!(hooklings::handlers::env::workspace_and_project("/home/u/dev/ws", home), (Some("ws".to_string()), None));
    assert_eq!(hooklings::handlers::env::workspace_and_project("/home/u/dev//ws", home), (Some("ws".to_string()), None));
    assert_eq!(hooklings::handlers::env::workspace_and_project("/home/u/dev", home), (None, None));
    assert_eq!(hooklings::handlers::env::workspace_and_project("/home/u/dev/", home), (None, None));
    assert_eq!(hooklings::handlers::env::workspace_and_project("/elsewhere", home), (None, None));
    assert_eq!(
        hooklings::handlers::env::pwd_result("/home/u/dev/ws".to_string(), home),
        json(r#"{"cwd":"/home/u/dev/ws","workspace":"ws","project":null}"#)
    );
}

#[test]
fn text_helpers() {
    assert_eq!(text::decimal_text(0), "0");
    assert_eq!(text::decimal_text(7), "7");
    assert_eq!(text::decimal_text(1234567890), "1234567890");
    assert_eq!(text::decimal_text(u64::MAX), u64::MAX.to_string());
    assert_eq!(text::process_text(b"  hello \n"), "hello");
    assert_eq!(text::process_text(b"a\xffb"), "a\u{fffd}b");
    assert_eq!(text::process_text("\u{3000}\tx y\u{a0}".as_bytes()), "x y");
}

#[test]
fn report_text_is_indented_json() {
    let emitter = hooklings::emit::Emitter::new("preflight".into());
    let text = emitter.report_text(&[]);
    assert!(text.contains("\n  \"pipeline\": \"preflight\""));
    let parsed = json(&text);
    assert_eq!(parsed["results"], json("[]"));
}
