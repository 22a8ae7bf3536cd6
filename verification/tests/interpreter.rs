use rust_cli::CliInterpreter;
use rust_cli::ShellError;
use rust_cli::SpawnOutcome;
use rust_cli::Step;

#[test]
fn test_cli_interpreter_creation() {
    let cli = CliInterpreter::new();
    assert!(!cli.current_dir.is_empty());
}

#[test]
fn test_echo_command() {
    let cli = CliInterpreter::new();
    cli.echo_command(&["hello", "world"]);
}

#[test]
fn echo_joins_arguments_with_single_spaces() {
    let cli = CliInterpreter::new();
    assert_eq!(cli.echo_command(&["hello", "world"]), "hello world");
    match cli.process_command("echo a b c", None) {
        Step::Output(s) => assert_eq!(s, "a b c"),
        _ => panic!("echo must produce output"),
    }
}

#[test]
fn echo_without_arguments_prints_empty_line() {
    let cli = CliInterpreter::new();
    assert_eq!(cli.echo_command(&[]), "");
    match cli.process_command("echo", None) {
        Step::Output(s) => assert_eq!(s, ""),
        _ => panic!("echo must produce output"),
    }
}

#[test]
fn pwd_prints_current_directory_verbatim() {
    let cli = CliInterpreter::with_current_dir(String::from("/home/user"));
    match cli.process_command("pwd", None) {
        Step::Output(s) => assert_eq!(s, "/home/user"),
        _ => panic!("pwd must produce output"),
    }
}

#[test]
fn exit_terminates_despite_trailing_arguments() {
    let cli = CliInterpreter::new();
    assert!(matches!(cli.process_command("exit", None), Step::Terminate));
    assert!(matches!(
        cli.process_command("exit now please", None),
        Step::Terminate
    ));
}

#[test]
fn help_produces_fixed_text() {
    let cli = CliInterpreter::new();
    match cli.process_command("help", None) {
        Step::Output(s) => {
            assert_eq!(s, cli.show_help());
            assert!(s.contains("exit"));
        }
        _ => panic!("help must produce output"),
    }
}

#[test]
fn blank_lines_dispatch_nothing() {
    let cli = CliInterpreter::new();
    assert!(matches!(cli.process_command("", None), Step::Empty));
    assert!(matches!(cli.process_command("   \t  ", None), Step::Empty));
}

#[test]
fn builtins_never_reach_the_external_executor() {
    let cli = CliInterpreter::new();
    for line in ["help", "exit", "cd x", "pwd", "echo hi"] {
        assert!(!matches!(
            cli.process_command(line, Some("/home/user")),
            Step::Launch(_, _)
        ));
    }
}

#[test]
fn cd_relative_concatenates_without_normalization() {
    let cli = CliInterpreter::with_current_dir(String::from("/home/user"));
    match cli.process_command("cd ../x/./y", None) {
        Step::ChangeDir(t) => assert_eq!(t, "/home/user/../x/./y"),
        _ => panic!("cd must resolve a target"),
    }
}

#[test]
fn cd_absolute_argument_is_taken_verbatim() {
    let cli = CliInterpreter::with_current_dir(String::from("/home/user"));
    match cli.process_command("cd /tmp", None) {
        Step::ChangeDir(t) => assert_eq!(t, "/tmp"),
        _ => panic!("cd must resolve a target"),
    }
}

#[test]
fn cd_to_existing_relative_directory_then_pwd() {
    let mut cli = CliInterpreter::with_current_dir(String::from("/home/user"));
    let target = match cli.process_command("cd projects", None) {
        Step::ChangeDir(t) => t,
        _ => panic!("cd must resolve a target"),
    };
    assert_eq!(target, "/home/user/projects");
    assert!(cli.change_directory(target, true, None).is_ok());
    assert_eq!(cli.current_dir, "/home/user/projects");
    match cli.process_command("pwd", None) {
        Step::Output(s) => assert_eq!(s, "/home/user/projects"),
        _ => panic!("pwd must produce output"),
    }
}

#[test]
fn cd_to_missing_directory_leaves_state_unchanged() {
    let mut cli = CliInterpreter::with_current_dir(String::from("/home/user"));
    let target = match cli.process_command("cd nonexistent", None) {
        Step::ChangeDir(t) => t,
        _ => panic!("cd must resolve a target"),
    };
    let err = cli.change_directory(target, false, None).unwrap_err();
    match err {
        ShellError::DirectoryNotFound(p) => assert_eq!(p, "/home/user/nonexistent"),
        _ => panic!("expected the directory-not-found error"),
    }
    assert_eq!(cli.current_dir, "/home/user");
}

#[test]
fn cd_without_argument_resolves_home() {
    let mut cli = CliInterpreter::with_current_dir(String::from("/tmp"));
    let target = match cli.process_command("cd", Some("/home/user")) {
        Step::ChangeDir(t) => t,
        _ => panic!("cd must resolve a target"),
    };
    assert_eq!(target, "/home/user");
    assert!(cli.change_directory(target, true, None).is_ok());
    assert_eq!(cli.current_dir, "/home/user");
}

#[test]
fn cd_without_argument_and_without_home_fails() {
    let cli = CliInterpreter::with_current_dir(String::from("/tmp"));
    match cli.process_command("cd", None) {
        Step::Failed(ShellError::Environment) => {}
        _ => panic!("cd without HOME must fail with the environment error"),
    }
}

#[test]
fn cd_reports_failed_os_change_after_validation() {
    let mut cli = CliInterpreter::with_current_dir(String::from("/home/user"));
    let err = cli
        .change_directory(
            String::from("/home/user/guarded"),
            true,
            Some(String::from("permission denied")),
        )
        .unwrap_err();
    match err {
        ShellError::DirectoryChange(c) => assert_eq!(c, "permission denied"),
        _ => panic!("expected the directory-change error"),
    }
    assert_eq!(cli.current_dir, "/home/user/guarded");
}

#[test]
fn unknown_name_launches_external_with_arguments() {
    let cli = CliInterpreter::new();
    match cli.process_command("grep -r needle", None) {
        Step::Launch(name, args) => {
            assert_eq!(name, "grep");
            assert_eq!(args, vec!["-r", "needle"]);
        }
        _ => panic!("an unknown name must launch externally"),
    }
}

#[test]
fn spawn_failure_is_reported_and_session_continues() {
    let cli = CliInterpreter::with_current_dir(String::from("/home/user"));
    match cli.process_command("lsxyz123", None) {
        Step::Launch(name, args) => {
            assert_eq!(name, "lsxyz123");
            assert!(args.is_empty());
            let err = cli
                .execute_external_command(
                    &name,
                    SpawnOutcome::SpawnFailed(String::from("no such file")),
                )
                .unwrap_err();
            match err {
                ShellError::Spawn(n, c) => {
                    assert_eq!(n, "lsxyz123");
                    assert_eq!(c, "no such file");
                }
                _ => panic!("expected the spawn error"),
            }
        }
        _ => panic!("an unknown name must launch externally"),
    }
    assert_eq!(cli.current_dir, "/home/user");
}

#[test]
fn external_outcomes_map_to_results() {
    let cli = CliInterpreter::new();
    assert!(cli
        .execute_external_command(
            "true",
            SpawnOutcome::Exited {
                success: true,
                code: Some(0),
            },
        )
        .is_ok());
    match cli
        .execute_external_command(
            "false",
            SpawnOutcome::Exited {
                success: false,
                code: Some(1),
            },
        )
        .unwrap_err()
    {
        ShellError::NonZeroExit(code) => assert_eq!(code, Some(1)),
        _ => panic!("expected the non-zero-exit error"),
    }
    match cli
        .execute_external_command(
            "killed",
            SpawnOutcome::Exited {
                success: false,
                code: None,
            },
        )
        .unwrap_err()
    {
        ShellError::NonZeroExit(code) => assert_eq!(code, None),
        _ => panic!("expected the non-zero-exit error"),
    }
    match cli
        .execute_external_command("sleep", SpawnOutcome::WaitFailed(String::from("interrupted")))
        .unwrap_err()
    {
        ShellError::Wait(c) => assert_eq!(c, "interrupted"),
        _ => panic!("expected the wait error"),
    }
}

#[test]
fn prompt_shows_the_current_directory() {
    let cli = CliInterpreter::with_current_dir(String::from("/home/user"));
    assert_eq!(cli.prompt(), "rust-cli:/home/user$ ");
}
