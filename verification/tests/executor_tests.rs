use suggestline::executor::{build_finish_command, build_query_command, classify_output, ExecError};

#[test]
fn zero_exit_empty_stderr_is_success() {
    let r = classify_output(Some(0), "a\nb\n".to_string(), "".to_string());
    assert_eq!(r, Ok("a\nb\n".to_string()));
}

#[test]
fn nonzero_exit_is_failure_with_stderr() {
    let r = classify_output(Some(1), "partial".to_string(), "bad".to_string());
    assert_eq!(r, Err(ExecError::NonZeroExit("bad".to_string())));
    assert_eq!(ExecError::NonZeroExit("bad".to_string()).text(), "bad");
}

#[test]
fn zero_exit_with_stderr_is_failure() {
    let r = classify_output(Some(0), "out".to_string(), "warning".to_string());
    assert_eq!(r, Err(ExecError::StderrNonEmpty("warning".to_string())));
}

#[test]
fn missing_exit_code_is_failure() {
    let r = classify_output(None, "out".to_string(), "".to_string());
    assert_eq!(r, Err(ExecError::NoExitStatus));
    assert_eq!(ExecError::NoExitStatus.text(), "no exit status");
}

#[test]
fn query_command_is_echo_piped_into_template() {
    let cmd = build_query_command("ls -l", "grep foo");
    assert_eq!(cmd, "echo ls -l | grep foo");
}

#[test]
fn finish_command_quotes_the_value() {
    let cmd = build_finish_command("the choice", "xargs open");
    assert_eq!(cmd, "echo \"the choice\" | xargs open");
}
