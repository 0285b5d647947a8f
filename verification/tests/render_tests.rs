use pipeline_sidecar::render::{
    exit_failure_line, render_result, spawn_failure_line, ExitStatus, RenderError, RunReport,
    RENDERER_FORMAT_FLAG, RENDERER_PROGRAM,
};

fn exited(code: Option<i32>, description: &str) -> ExitStatus {
    ExitStatus { code, description: description.to_string() }
}

#[test]
fn renderer_is_dot_writing_png() {
    assert_eq!(RENDERER_PROGRAM, "dot");
    assert_eq!(RENDERER_FORMAT_FLAG, "-Tpng");
}

#[test]
fn exit_code_zero_is_success() {
    assert!(exited(Some(0), "exit status: 0").success());
}

#[test]
fn other_exit_codes_are_failures() {
    assert!(!exited(Some(1), "exit status: 1").success());
    assert!(!exited(Some(-1), "exit status: -1").success());
    assert!(!exited(Some(i32::MAX), "exit status: 2147483647").success());
    assert!(!exited(Some(i32::MIN), "exit status: -2147483648").success());
}

#[test]
fn end_by_signal_is_a_failure() {
    assert!(!exited(None, "signal: 9 (SIGKILL)").success());
}

#[test]
fn successful_run_yields_its_output() {
    let report = RunReport::Finished {
        status: exited(Some(0), "exit status: 0"),
        output: vec![0x89, b'P', b'N', b'G', 1, 2, 3],
    };
    assert_eq!(render_result(report), Ok(vec![0x89, b'P', b'N', b'G', 1, 2, 3]));
}

#[test]
fn successful_run_may_yield_nothing() {
    let report = RunReport::Finished { status: exited(Some(0), "exit status: 0"), output: vec![] };
    assert_eq!(render_result(report), Ok(vec![]));
}

#[test]
fn failed_run_yields_its_status_and_drops_the_output() {
    let report = RunReport::Finished {
        status: exited(Some(1), "exit status: 1"),
        output: vec![1, 2, 3],
    };
    assert_eq!(
        render_result(report),
        Err(RenderError::ExecutionFailed { status: exited(Some(1), "exit status: 1") })
    );
}

#[test]
fn run_ended_by_signal_yields_its_status() {
    let report = RunReport::Finished { status: exited(None, "signal: 15 (SIGTERM)"), output: vec![] };
    assert_eq!(
        render_result(report),
        Err(RenderError::ExecutionFailed { status: exited(None, "signal: 15 (SIGTERM)") })
    );
}

#[test]
fn run_that_never_started_yields_the_reason() {
    let report = RunReport::NotStarted { reason: "No such file or directory (os error 2)".to_string() };
    assert_eq!(
        render_result(report),
        Err(RenderError::SpawnFailed { reason: "No such file or directory (os error 2)".to_string() })
    );
}

#[test]
fn spawn_failure_line_leads_with_sub_command_error() {
    assert_eq!(spawn_failure_line("\"x\""), "Sub-command error: \"x\"");
    assert_eq!(spawn_failure_line(""), "Sub-command error: ");
}

#[test]
fn exit_failure_line_leads_with_command_exited() {
    assert_eq!(exit_failure_line("\"exit status: 2\""), "Command exited: \"exit status: 2\"");
    assert_eq!(exit_failure_line(""), "Command exited: ");
}

#[test]
fn spawn_diagnostic_quotes_the_reason() {
    let error = RenderError::SpawnFailed { reason: "No such file or directory (os error 2)".to_string() };
    assert_eq!(
        error.diagnostic(),
        "Sub-command error: \"No such file or directory (os error 2)\""
    );
}

#[test]
fn execution_diagnostic_quotes_the_status() {
    let error = RenderError::ExecutionFailed { status: exited(Some(1), "exit status: 1") };
    assert_eq!(error.diagnostic(), "Command exited: \"exit status: 1\"");
}

#[test]
fn diagnostic_escapes_what_would_not_read_literally() {
    let error = RenderError::SpawnFailed { reason: "a \"quoted\" word\nand a\ttab \\".to_string() };
    assert_eq!(
        error.diagnostic(),
        "Sub-command error: \"a \\\"quoted\\\" word\\nand a\\ttab \\\\\""
    );
}

#[test]
fn diagnostic_of_an_empty_reason_is_an_empty_quotation() {
    let error = RenderError::SpawnFailed { reason: String::new() };
    assert_eq!(error.diagnostic(), "Sub-command error: \"\"");
}

#[test]
fn diagnostic_agrees_with_debug_formatting() {
    let reason = "permission denied: caf\u{e9} \u{7f}";
    let error = RenderError::SpawnFailed { reason: reason.to_string() };
    assert_eq!(error.diagnostic(), format!("Sub-command error: {:?}", reason));
    let error = RenderError::ExecutionFailed { status: exited(Some(3), reason) };
    assert_eq!(error.diagnostic(), format!("Command exited: {:?}", reason));
}
