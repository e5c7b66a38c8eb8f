use bossy::{Command, StdioCfg};

#[test]
fn display_starts_as_the_name() {
    let cmd = Command::impure("ls".to_string());
    assert_eq!(cmd.display(), "ls");
}

#[test]
fn display_is_space_joined_in_addition_order() {
    let mut cmd = Command::impure("ls".to_string());
    cmd.add_arg("-l".to_string());
    cmd.add_arg("src".to_string());
    assert_eq!(cmd.display(), "ls -l src");
}

#[test]
fn display_with_plural_args() {
    let cmd = Command::pure("grep".to_string())
        .with_arg("-r".to_string())
        .with_args(vec!["needle".to_string(), "haystack".to_string()]);
    assert_eq!(cmd.display(), "grep -r needle haystack");
}

#[test]
fn display_takes_arguments_verbatim() {
    let mut cmd = Command::impure("echo".to_string());
    cmd.add_arg("two words".to_string());
    assert_eq!(cmd.display(), "echo two words");
}

#[test]
fn display_unaffected_by_env_and_stdio_mutations() {
    let mut cmd = Command::impure("ls".to_string());
    cmd.add_arg("-l".to_string());
    cmd.add_env_var("KEY".to_string(), "VALUE".to_string());
    cmd.set_stdin(StdioCfg::Null);
    cmd.set_stdout_piped();
    cmd.set_stderr(StdioCfg::Inherit);
    assert_eq!(cmd.display(), "ls -l");
}

#[test]
fn pure_starts_with_no_env_vars() {
    let cmd = Command::pure("env".to_string());
    assert!(!cmd.inherit_env);
    assert!(cmd.env.is_empty());
    assert!(cmd.env_value(&"PATH".to_string()).is_none());
}

#[test]
fn impure_inherits_and_pure_does_not() {
    assert!(Command::impure("env".to_string()).inherit_env);
    assert!(!Command::pure("env".to_string()).inherit_env);
}

#[test]
fn pure_env_is_exactly_what_was_added() {
    let mut cmd = Command::pure("env".to_string());
    cmd.add_env_var("PATH".to_string(), "/usr/bin".to_string());
    cmd.add_env_vars(vec![
        ("TERM".to_string(), "dumb".to_string()),
        ("LANG".to_string(), "C".to_string()),
    ]);
    assert_eq!(cmd.env_value(&"PATH".to_string()), Some("/usr/bin".to_string()));
    assert_eq!(cmd.env_value(&"TERM".to_string()), Some("dumb".to_string()));
    assert_eq!(cmd.env_value(&"LANG".to_string()), Some("C".to_string()));
    assert_eq!(cmd.env_value(&"HOME".to_string()), None);
}

#[test]
fn later_env_var_overrides_earlier() {
    let mut cmd = Command::impure("env".to_string());
    cmd.add_env_var("KEY".to_string(), "first".to_string());
    cmd.add_env_var("KEY".to_string(), "second".to_string());
    assert_eq!(cmd.env_value(&"KEY".to_string()), Some("second".to_string()));
}

#[test]
fn with_env_var_matches_add_env_var() {
    let cmd = Command::pure("env".to_string())
        .with_env_var("A".to_string(), "1".to_string())
        .with_env_vars(vec![("B".to_string(), "2".to_string())]);
    assert_eq!(cmd.env_value(&"A".to_string()), Some("1".to_string()));
    assert_eq!(cmd.env_value(&"B".to_string()), Some("2".to_string()));
}

#[test]
fn stdio_defaults_to_inherit() {
    let cmd = Command::impure("ls".to_string());
    assert_eq!(cmd.stdin_cfg, StdioCfg::Inherit);
    assert_eq!(cmd.stdout_cfg, StdioCfg::Inherit);
    assert_eq!(cmd.stderr_cfg, StdioCfg::Inherit);
}

#[test]
fn stdio_setters_route_each_stream() {
    let mut cmd = Command::impure("cat".to_string());
    cmd.set_stdin_piped();
    cmd.set_stdout(StdioCfg::Null);
    cmd.set_stderr_piped();
    assert_eq!(cmd.stdin_cfg, StdioCfg::Piped);
    assert_eq!(cmd.stdout_cfg, StdioCfg::Null);
    assert_eq!(cmd.stderr_cfg, StdioCfg::Piped);

    let chained = Command::pure("cat".to_string())
        .with_stdin(StdioCfg::Null)
        .with_stdout_piped()
        .with_stderr(StdioCfg::Null);
    assert_eq!(chained.stdin_cfg, StdioCfg::Null);
    assert_eq!(chained.stdout_cfg, StdioCfg::Piped);
    assert_eq!(chained.stderr_cfg, StdioCfg::Null);
}

#[test]
fn output_capture_overrides_prior_routing() {
    let mut cmd = Command::impure("echo".to_string());
    cmd.set_stdout(StdioCfg::Null);
    cmd.set_stderr(StdioCfg::Null);
    cmd.set_outputs_piped();
    assert_eq!(cmd.stdout_cfg, StdioCfg::Piped);
    assert_eq!(cmd.stderr_cfg, StdioCfg::Piped);
    assert_eq!(cmd.stdin_cfg, StdioCfg::Inherit);
    assert_eq!(cmd.display(), "echo");
}
