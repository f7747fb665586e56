use recap_bridge::facade::interpret_analyze;
use recap_bridge::facade::interpret_recap;
use recap_bridge::facade::interpret_transcribe;
use recap_bridge::response::interpret_health_response;
use recap_bridge::response::interpret_probe;
use recap_bridge::response::OpError;
use recap_bridge::response::ProcessOutcome;

fn ok_outcome(stdout: &str) -> ProcessOutcome {
    ProcessOutcome {
        exit_ok: true,
        exit_code: Some(0),
        stdout: stdout.to_string(),
        stderr: String::new(),
    }
}

#[test]
fn transcribe_success_returns_path() {
    let o = ok_outcome("{\"status\":\"success\",\"data\":{\"transcript_path\":\"/tmp/t.txt\"}}\n");
    assert_eq!(interpret_transcribe(&o), Ok("/tmp/t.txt".to_string()));
}

#[test]
fn worker_error_is_returned_unchanged_by_every_operation() {
    let line = "{\"status\":\"error\",\"error\":\"model not found\"}\n";
    let expected = Err(OpError::Domain("model not found".to_string()));
    assert_eq!(interpret_transcribe(&ok_outcome(line)), expected);
    assert_eq!(interpret_analyze(&ok_outcome(line)), expected);
    assert_eq!(interpret_recap(&ok_outcome(line)), expected);
    match interpret_health_response(&ok_outcome(line)) {
        Err(OpError::Domain(e)) => assert_eq!(e, "model not found"),
        other => panic!("expected a worker-reported error, got {:?}", other.map(|_| ())),
    }
    let msg = OpError::Domain("model not found".to_string()).message();
    assert_eq!(msg, "model not found");
}

#[test]
fn failed_exit_reports_standard_error() {
    let o = ProcessOutcome {
        exit_ok: false,
        exit_code: Some(1),
        stdout: String::new(),
        stderr: "traceback...".to_string(),
    };
    match interpret_transcribe(&o) {
        Err(OpError::ChildFailure(text)) => {
            assert!(text.contains("traceback..."));
            assert!(OpError::ChildFailure(text).message().contains("traceback..."));
        },
        other => panic!("expected a child failure, got {:?}", other),
    }
}

#[test]
fn failed_exit_with_empty_stderr_reports_exit_code() {
    let o = ProcessOutcome {
        exit_ok: false,
        exit_code: Some(7),
        stdout: String::new(),
        stderr: String::new(),
    };
    assert_eq!(interpret_analyze(&o), Err(OpError::ChildFailure("exit code 7".to_string())));
}

#[test]
fn no_output_at_all_fails_with_empty_marker() {
    let o = ok_outcome("");
    match interpret_transcribe(&o) {
        Err(OpError::UnexpectedOutput(text)) => {
            assert_eq!(text, "(empty)");
            assert!(OpError::UnexpectedOutput(text).message().contains("(empty)"));
        },
        other => panic!("expected unexpected-output, got {:?}", other),
    }
    let only_breaks = ok_outcome("\n\r\n\n");
    match interpret_recap(&only_breaks) {
        Err(OpError::UnexpectedOutput(text)) => assert_eq!(text, "(empty)"),
        other => panic!("expected unexpected-output, got {:?}", other),
    }
}

#[test]
fn only_the_last_line_is_parsed() {
    let o = ok_outcome(
        "loading model...\n{\"status\":\"error\",\"error\":\"stale\"}\nprogress 100%\n\
         {\"status\":\"success\",\"data\":{\"transcript_path\":\"/tmp/t.txt\"}}\n",
    );
    assert_eq!(interpret_transcribe(&o), Ok("/tmp/t.txt".to_string()));
}

#[test]
fn garbage_last_line_fails_with_that_line() {
    let o = ok_outcome("diagnostic\nnot json at all\n");
    assert_eq!(
        interpret_transcribe(&o),
        Err(OpError::UnexpectedOutput("not json at all".to_string()))
    );
}

#[test]
fn missing_field_under_success_reports_whole_output() {
    let text = "note\n{\"status\":\"success\",\"data\":{}}\n";
    let o = ok_outcome(text);
    assert_eq!(interpret_transcribe(&o), Err(OpError::UnexpectedOutput(text.to_string())));
}

#[test]
fn missing_error_string_reports_whole_output() {
    let text = "{\"status\":\"error\"}\n";
    let o = ok_outcome(text);
    assert_eq!(interpret_recap(&o), Err(OpError::UnexpectedOutput(text.to_string())));
}

#[test]
fn health_check_passes_data_through_verbatim() {
    let o = ok_outcome("{\"status\":\"success\",\"data\":{\"status\":\"ok\",\"gpu\":true}}\n");
    let v = interpret_health_response(&o).expect("health data");
    assert_eq!(v.get("status").and_then(|x| x.as_str()), Some("ok"));
    assert_eq!(v.get("gpu").and_then(|x| x.as_bool()), Some(true));
}

#[test]
fn health_check_falls_back_to_whole_envelope() {
    let o = ok_outcome("{\"status\":\"success\"}\n");
    let v = interpret_health_response(&o).expect("whole envelope");
    assert_eq!(v.get("status").and_then(|x| x.as_str()), Some("success"));
}

#[test]
fn health_check_rejects_garbage() {
    let o = ok_outcome("no json here\n");
    assert!(matches!(
        interpret_health_response(&o),
        Err(OpError::UnexpectedOutput(_))
    ));
}

#[test]
fn probe_reports_trimmed_version() {
    let o = ok_outcome("Python 3.12.1 (main)\n");
    assert_eq!(
        interpret_probe(&o),
        Ok("Python bridge is working! Python 3.12.1 (main)".to_string())
    );
}

#[test]
fn probe_failure_reports_standard_error() {
    let o = ProcessOutcome {
        exit_ok: false,
        exit_code: Some(1),
        stdout: String::new(),
        stderr: "ModuleNotFoundError".to_string(),
    };
    assert_eq!(
        interpret_probe(&o),
        Err(OpError::ChildFailure("ModuleNotFoundError".to_string()))
    );
}

#[test]
fn error_messages_carry_their_prefixes() {
    assert_eq!(
        OpError::Spawn("no such file".to_string()).message(),
        "Failed to start Python: no such file"
    );
    assert_eq!(
        OpError::Write("broken pipe".to_string()).message(),
        "Failed to write to Python stdin: broken pipe"
    );
    assert_eq!(OpError::ScriptNotFound.message(), "Python script not found");
    assert_eq!(
        OpError::UnexpectedOutput("x".to_string()).message(),
        "Unexpected Python output: x"
    );
    assert_eq!(
        OpError::ChildFailure("exit code -9".to_string()).message(),
        "Python error: exit code -9"
    );
}

#[test]
fn negative_exit_code_is_formatted() {
    let o = ProcessOutcome {
        exit_ok: false,
        exit_code: Some(-11),
        stdout: String::new(),
        stderr: String::new(),
    };
    assert_eq!(interpret_recap(&o), Err(OpError::ChildFailure("exit code -11".to_string())));
}

#[test]
fn signal_ended_child_is_reported() {
    let o = ProcessOutcome {
        exit_ok: false,
        exit_code: None,
        stdout: String::new(),
        stderr: String::new(),
    };
    assert_eq!(
        interpret_transcribe(&o),
        Err(OpError::ChildFailure("terminated by signal".to_string()))
    );
}
