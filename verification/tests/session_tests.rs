use exec_bridge::event::Event;
use exec_bridge::session::Session;

fn names(s: &Session) -> Vec<&'static str> {
    s.events.iter().map(|e| e.name()).collect()
}

#[test]
fn echo_scenario_completes() {
    let mut s = Session::start(
        "echo hi".to_string(),
        Some(5000),
        Some("sess-echo".to_string()),
    );
    assert_eq!(s.timeout_ms, 5000);
    assert_eq!(s.session_id, "sess-echo");
    assert_eq!(s.events.len(), 1);
    assert_eq!(s.events[0].name(), "task_started");

    s.on_stdout_line("{\"jsonrpc\":\"2.0\",\"method\":\"task/progress\",\"params\":{}}".to_string());
    s.on_stdout_line("{\"id\":2,\"jsonrpc\":\"2.0\",\"result\":{\"output\":\"hi\"}}".to_string());
    let rec = s.finish_completed(Some(0), 800, "2024-01-01T00:00:00+00:00".to_string());

    assert_eq!(
        names(&s),
        vec![
            "task_started",
            "stdout_line",
            "task_progress",
            "stdout_line",
            "task_result",
            "task_completed",
        ]
    );
    match &s.events[4] {
        Event::TaskResult { data } => assert_eq!(data, "{\"output\":\"hi\"}"),
        other => panic!("expected task_result, got {}", other.name()),
    }
    match s.events.last().unwrap() {
        Event::TaskCompleted { data } => {
            let doc: serde_json::Value = serde_json::from_str(data).unwrap();
            assert_eq!(doc.get("exit_code").and_then(|v| v.as_i64()), Some(0));
            assert_eq!(doc.get("status").and_then(|v| v.as_str()), Some("completed"));
            assert_eq!(
                doc.get("execution_time_ms").and_then(|v| v.as_u64()),
                Some(800)
            );
        }
        other => panic!("expected task_completed, got {}", other.name()),
    }
    assert!(s.events.last().unwrap().terminal());
    assert!(s.events[..5].iter().all(|e| !e.terminal()));
    assert_eq!(rec.status, "completed");
    assert_eq!(rec.exit_code, 0);
    assert_eq!(rec.stdout.len(), 2);
    assert!(s.finished);
}

#[test]
fn timeout_scenario_has_no_completion() {
    let mut s = Session::start("sleep 10".to_string(), Some(100), Some("sess-t".to_string()));
    s.on_stderr_line("starting up".to_string());
    let rec = s.finish_timeout("2024-01-01T00:00:00+00:00".to_string());

    assert_eq!(names(&s), vec!["task_started", "stderr_line", "error"]);
    match s.events.last().unwrap() {
        Event::TimeoutError { data } => {
            let doc: serde_json::Value = serde_json::from_str(data).unwrap();
            assert_eq!(doc.get("error").and_then(|v| v.as_str()), Some("timeout"));
            assert_eq!(
                doc.get("session_id").and_then(|v| v.as_str()),
                Some("sess-t")
            );
        }
        other => panic!("expected timeout error, got {}", other.name()),
    }
    assert!(s
        .events
        .iter()
        .all(|e| !matches!(e, Event::TaskCompleted { .. })));
    assert!(s.events.last().unwrap().terminal());
    assert!(!s.events[0].terminal());
    assert!(!s.events[1].terminal());
    assert_eq!(rec.status, "timeout");
    assert_eq!(rec.exit_code, -1);
    assert_eq!(rec.execution_time_ms, 100);
    assert!(rec.stdout.is_empty());
    assert!(rec.stderr.is_empty());
    assert!(s.finished);
}

#[test]
fn result_round_trip_is_verbatim() {
    let mut s = Session::start("p".to_string(), None, Some("sid".to_string()));
    let result = "{\"files\":[\"a.txt\"],\"n\":3,\"ok\":true}";
    let line = format!("{{\"id\":2,\"jsonrpc\":\"2.0\",\"result\":{}}}", result);
    s.on_stdout_line(line.clone());
    let results: Vec<&String> = s
        .events
        .iter()
        .filter_map(|e| match e {
            Event::TaskResult { data } => Some(data),
            _ => None,
        })
        .collect();
    assert_eq!(results.len(), 1);
    assert_eq!(results[0].as_str(), result);
    // the payload is exactly the `result` field of the emitted response
    let doc: serde_json::Value = serde_json::from_str(&line).unwrap();
    let expected: serde_json::Value = serde_json::from_str(results[0]).unwrap();
    assert_eq!(doc.get("result").unwrap(), &expected);
    assert!(!s.finished);
}

#[test]
fn response_with_other_id_gives_no_result_event() {
    let mut s = Session::start("p".to_string(), None, Some("sid".to_string()));
    s.on_stdout_line("{\"id\":1,\"jsonrpc\":\"2.0\",\"result\":{}}".to_string());
    assert_eq!(names(&s), vec!["task_started", "stdout_line"]);
}

#[test]
fn response_without_result_gives_no_result_event() {
    let mut s = Session::start("p".to_string(), None, Some("sid".to_string()));
    s.on_stdout_line("{\"error\":{\"code\":-1},\"id\":2,\"jsonrpc\":\"2.0\"}".to_string());
    assert_eq!(names(&s), vec!["task_started", "stdout_line"]);
}

#[test]
fn malformed_line_keeps_session_alive() {
    let mut s = Session::start("p".to_string(), None, Some("sid".to_string()));
    s.on_stdout_line("this is not json".to_string());
    assert_eq!(names(&s), vec!["task_started", "stdout_line", "error"]);
    match &s.events[2] {
        Event::ParseError { data } => {
            let doc: serde_json::Value = serde_json::from_str(data).unwrap();
            assert_eq!(doc.get("error").and_then(|v| v.as_str()), Some("json_parse"));
            assert_eq!(
                doc.get("line").and_then(|v| v.as_str()),
                Some("this is not json")
            );
            assert_eq!(doc.get("session_id").and_then(|v| v.as_str()), Some("sid"));
        }
        other => panic!("expected parse error, got {}", other.name()),
    }
    assert!(!s.finished);
    // the session keeps translating after a malformed line
    s.on_stdout_line("{\"id\":2,\"result\":1}".to_string());
    assert_eq!(
        names(&s),
        vec![
            "task_started",
            "stdout_line",
            "error",
            "stdout_line",
            "task_result",
        ]
    );
}

#[test]
fn progress_payload_is_reserialized_document() {
    let mut s = Session::start("p".to_string(), None, Some("sid".to_string()));
    // unsorted keys and spaces: the progress payload is the parsed document,
    // compactly reserialized
    s.on_stdout_line("{\"method\": \"task/progress\", \"jsonrpc\": \"2.0\"}".to_string());
    match &s.events[2] {
        Event::TaskProgress { data } => {
            assert_eq!(data, "{\"jsonrpc\":\"2.0\",\"method\":\"task/progress\"}")
        }
        other => panic!("expected task_progress, got {}", other.name()),
    }
}

#[test]
fn other_methods_give_no_progress_event() {
    let mut s = Session::start("p".to_string(), None, Some("sid".to_string()));
    s.on_stdout_line("{\"jsonrpc\":\"2.0\",\"method\":\"other/thing\"}".to_string());
    assert_eq!(names(&s), vec!["task_started", "stdout_line"]);
}

#[test]
fn spawn_failure_ends_session_with_plain_error() {
    let mut s = Session::start("p".to_string(), None, Some("sid".to_string()));
    s.fail("Failed to spawn process: not found".to_string());
    assert_eq!(names(&s), vec!["task_started", "error"]);
    match s.events.last().unwrap() {
        Event::FailError { data } => {
            assert_eq!(data, "Failed to spawn process: not found")
        }
        other => panic!("expected failure error, got {}", other.name()),
    }
    assert!(s.finished);
}

#[test]
fn generated_session_id_is_fresh_uuid_text() {
    let s = Session::start("p".to_string(), None, None);
    assert_eq!(s.session_id.len(), 36);
    let t = Session::start("p".to_string(), None, None);
    assert_ne!(s.session_id, t.session_id);
    assert_eq!(s.timeout_ms, 30000);
}

#[test]
fn handshake_uses_session_parameters() {
    let s = Session::start("run this".to_string(), Some(1234), Some("x".to_string()));
    let text = s.handshake();
    let lines: Vec<&str> = text.lines().collect();
    assert_eq!(lines.len(), 2);
    let init: serde_json::Value = serde_json::from_str(lines[0]).unwrap();
    assert_eq!(init.get("id").and_then(|v| v.as_i64()), Some(1));
    let exec: serde_json::Value = serde_json::from_str(lines[1]).unwrap();
    assert_eq!(exec.get("id").and_then(|v| v.as_i64()), Some(2));
    let params = exec.get("params").unwrap();
    assert_eq!(
        params.get("command").unwrap().as_array().unwrap()[0].as_str(),
        Some("run this")
    );
    assert_eq!(params.get("timeoutMs").and_then(|v| v.as_u64()), Some(1234));
}

#[test]
fn stdout_and_stderr_accumulate_in_order() {
    let mut s = Session::start("p".to_string(), None, Some("sid".to_string()));
    s.on_stdout_line("o1".to_string());
    s.on_stderr_line("e1".to_string());
    s.on_stdout_line("o2".to_string());
    assert_eq!(s.stdout_lines, vec!["o1".to_string(), "o2".to_string()]);
    assert_eq!(s.stderr_lines, vec!["e1".to_string()]);
    let rec = s.finish_completed(Some(2), 5, "t".to_string());
    assert_eq!(rec.stdout, vec!["o1".to_string(), "o2".to_string()]);
    assert_eq!(rec.stderr, vec!["e1".to_string()]);
    assert_eq!(rec.status, "failed");
    assert_eq!(rec.exit_code, 2);
}
