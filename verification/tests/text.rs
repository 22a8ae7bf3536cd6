use rust_cli::ShellError;
use rust_cli::errors::int_string;
use rust_cli::str_equal;
use rust_cli::tokenize;

#[test]
fn tokenize_splits_on_whitespace_runs() {
    assert_eq!(tokenize("echo a b"), vec!["echo", "a", "b"]);
    assert_eq!(tokenize("  echo\t two   words \r\n"), vec!["echo", "two", "words"]);
    assert_eq!(tokenize("single"), vec!["single"]);
}

#[test]
fn tokenize_of_blank_input_is_empty() {
    assert!(tokenize("").is_empty());
    assert!(tokenize(" \t \r\n ").is_empty());
}

#[test]
fn str_equal_compares_contents() {
    assert!(str_equal("cd", "cd"));
    assert!(!str_equal("cd", "cde"));
    assert!(!str_equal("cd", "ce"));
    assert!(!str_equal("cd", ""));
}

#[test]
fn int_string_renders_decimal() {
    assert_eq!(int_string(0), "0");
    assert_eq!(int_string(7), "7");
    assert_eq!(int_string(42), "42");
    assert_eq!(int_string(1234567890), "1234567890");
    assert_eq!(int_string(-5), "-5");
    assert_eq!(int_string(i32::MAX), "2147483647");
    assert_eq!(int_string(i32::MIN), "-2147483648");
}

#[test]
fn error_messages_are_exact() {
    assert_eq!(
        ShellError::Environment.message(),
        "cannot resolve the HOME environment value"
    );
    assert_eq!(
        ShellError::DirectoryNotFound(String::from("/a/b")).message(),
        "directory does not exist: /a/b"
    );
    assert_eq!(
        ShellError::DirectoryChange(String::from("denied")).message(),
        "failed to change directory: denied"
    );
    assert_eq!(
        ShellError::Spawn(String::from("lsxyz123"), String::from("no such file")).message(),
        "failed to execute command: lsxyz123 (no such file)"
    );
    assert_eq!(
        ShellError::NonZeroExit(Some(2)).message(),
        "command failed with exit code: 2"
    );
    assert_eq!(
        ShellError::NonZeroExit(None).message(),
        "command failed without an exit code"
    );
    assert_eq!(
        ShellError::Wait(String::from("interrupted")).message(),
        "failed to wait for child process: interrupted"
    );
    assert_eq!(
        ShellError::InputRead(String::from("closed")).message(),
        "failed to read input: closed"
    );
}
