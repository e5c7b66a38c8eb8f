use bossy::{Cause, Error, ExitStatus, OsError, Output};

#[test]
fn exit_status_success_is_code_zero() {
    assert!(ExitStatus::exited(0).success());
    assert!(!ExitStatus::exited(1).success());
    assert!(!ExitStatus::terminated().success());
    assert_eq!(ExitStatus::exited(7).code(), Some(7));
    assert_eq!(ExitStatus::terminated().code(), None);
}

#[test]
fn output_keeps_the_written_bytes() {
    let out = Output::new(ExitStatus::exited(0), b"hello\n".to_vec(), Vec::new());
    assert!(out.success());
    assert_eq!(out.stdout(), b"hello\n");
    assert_eq!(out.stdout_str().unwrap(), "hello\n");
    assert_eq!(out.stderr(), b"");
    assert_eq!(out.stderr_str().unwrap(), "");
}

#[test]
fn output_text_accessors_reject_invalid_utf8() {
    let out = Output::new(ExitStatus::exited(0), vec![0xff, 0xfe], vec![0x80]);
    assert!(out.stdout_str().is_err());
    assert!(out.stderr_str().is_err());
    assert_eq!(out.stdout(), &[0xff, 0xfe]);
}

#[test]
fn spawn_failure_carries_no_status_or_output() {
    let err = Error::from_spawn_error(
        "definitely-not-a-real-command".to_string(),
        OsError::new("No such file or directory (os error 2)".to_string()),
    );
    assert!(matches!(err.cause, Cause::SpawnFailed(_)));
    assert!(err.status().is_none());
    assert!(err.output().is_none());
    assert!(err.stdout().is_none());
    assert!(err.stderr().is_none());
    assert_eq!(err.command(), "definitely-not-a-real-command");
    assert_eq!(
        err.message(),
        "Failed to spawn child process for command \"definitely-not-a-real-command\": \
         No such file or directory (os error 2)"
    );
}

#[test]
fn wait_failure_renders_the_os_error() {
    let err = Error::from_status_result(
        "sleep 1".to_string(),
        Err(OsError::new("interrupted".to_string())),
    )
    .unwrap_err();
    assert!(matches!(err.cause, Cause::WaitFailed(_)));
    assert!(err.status().is_none());
    assert_eq!(
        err.message(),
        "Failed to wait for child process for command \"sleep 1\" to exit: interrupted"
    );
}

#[test]
fn nonzero_exit_becomes_command_failed_with_that_code() {
    let err = Error::from_status_result("false".to_string(), Ok(ExitStatus::exited(1)))
        .unwrap_err();
    assert!(matches!(err.cause, Cause::CommandFailed(_)));
    assert_eq!(err.status().unwrap().code(), Some(1));
    assert!(err.output().is_none());
    assert_eq!(
        err.message(),
        "Command \"false\" didn't complete successfully, exiting with code 1."
    );
}

#[test]
fn successful_status_passes_through() {
    let status = Error::from_status_result("true".to_string(), Ok(ExitStatus::exited(0))).unwrap();
    assert_eq!(status.code(), Some(0));
}

#[test]
fn negative_exit_code_renders_with_sign() {
    let err = Error::from_status_result("crash".to_string(), Ok(ExitStatus::exited(-1073741819)))
        .unwrap_err();
    assert_eq!(
        err.message(),
        "Command \"crash\" didn't complete successfully, exiting with code -1073741819."
    );
}

#[test]
fn signal_termination_renders_without_code() {
    let err = Error::from_status_result("kill-me".to_string(), Ok(ExitStatus::terminated()))
        .unwrap_err();
    assert_eq!(
        err.message(),
        "Command \"kill-me\" didn't complete successfully, but returned no exit code."
    );
}

#[test]
fn successful_output_passes_through() {
    let out = Output::new(ExitStatus::exited(0), b"ok\n".to_vec(), Vec::new());
    let out = Error::from_output_result("echo ok".to_string(), Ok(out)).unwrap();
    assert_eq!(out.stdout(), b"ok\n");
    assert!(out.success());
}

#[test]
fn failed_output_carries_captured_stderr() {
    let out = Output::new(ExitStatus::exited(2), Vec::new(), b"oops\n".to_vec());
    let err = Error::from_output_result("werk".to_string(), Ok(out)).unwrap_err();
    assert!(matches!(err.cause, Cause::CommandFailedWithOutput(_)));
    assert_eq!(err.status().unwrap().code(), Some(2));
    assert_eq!(err.stderr().unwrap(), b"oops\n");
    assert_eq!(err.stderr_str().unwrap().unwrap(), "oops\n");
    assert_eq!(err.stdout().unwrap(), b"");
    assert_eq!(
        err.message(),
        "Command \"werk\" didn't complete successfully, exiting with code 2.\
         stderr contents: oops\n"
    );
}

#[test]
fn failed_output_with_empty_stderr_says_so() {
    let out = Output::new(ExitStatus::exited(3), Vec::new(), Vec::new());
    let err = Error::from_output_result("quiet".to_string(), Ok(out)).unwrap_err();
    assert_eq!(
        err.message(),
        "Command \"quiet\" didn't complete successfully, exiting with code 3.stderr was empty."
    );
}

#[test]
fn invalid_stderr_bytes_render_with_replacement() {
    let out = Output::new(ExitStatus::exited(1), Vec::new(), vec![0xff]);
    let err = Error::from_output_result("garbled".to_string(), Ok(out)).unwrap_err();
    assert_eq!(
        err.message(),
        "Command \"garbled\" didn't complete successfully, exiting with code 1.\
         stderr contents: \u{fffd}"
    );
}

#[test]
fn failed_output_wait_error_is_wait_failed() {
    let err = Error::from_output_result("cat".to_string(), Err(OsError::new("broken".to_string())))
        .unwrap_err();
    assert!(matches!(err.cause, Cause::WaitFailed(_)));
    assert!(err.output().is_none());
}

#[test]
fn error_text_accessors_surface_decode_failures() {
    let out = Output::new(ExitStatus::exited(1), vec![0xc0], vec![0xff]);
    let err = Error::from_output_result("bad-bytes".to_string(), Ok(out)).unwrap_err();
    assert!(err.stdout_str().unwrap().is_err());
    assert!(err.stderr_str().unwrap().is_err());
    assert_eq!(err.stderr().unwrap(), &[0xff]);
}
