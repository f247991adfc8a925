use gptsh::builtins::{execute_built_in_command, is_built_in_command, HostState};

#[test]
fn builtin_exit_is_recognized() {
    assert!(is_built_in_command("exit"));
}

#[test]
fn builtin_cd_needs_exactly_one_argument() {
    assert!(is_built_in_command("cd /tmp"));
    assert!(!is_built_in_command("cd"));
    assert!(!is_built_in_command("cd a b"));
}

#[test]
fn builtin_honors_shell_quoting() {
    // a quoted argument with a space is still one word
    assert!(is_built_in_command("cd 'a b'"));
    assert!(is_built_in_command("cd \"a b\""));
}

#[test]
fn builtin_mismatched_quotes_is_not_builtin() {
    assert!(!is_built_in_command("cd 'a"));
}

#[test]
fn builtin_empty_command_is_not_builtin() {
    assert!(!is_built_in_command(""));
    assert!(!is_built_in_command("   "));
}

#[test]
fn builtin_ordinary_command_is_not_builtin() {
    assert!(!is_built_in_command("ls /tmp"));
}

#[test]
fn execute_cd_changes_directory_and_query_reports_it() {
    let mut state = HostState { cwd: String::from("/home/user"), exited: false };
    let r = execute_built_in_command(&mut state, "cd /tmp");
    assert!(r.is_ok());
    assert_eq!(state.cwd, "/tmp");
    assert!(!state.exited);
}

#[test]
fn execute_cd_without_argument_fails_and_keeps_directory() {
    let mut state = HostState { cwd: String::from("/home/user"), exited: false };
    let r = execute_built_in_command(&mut state, "cd");
    assert_eq!(r.unwrap_err(), "cd: missing argument");
    assert_eq!(state.cwd, "/home/user");
}

#[test]
fn execute_cd_with_too_many_arguments_fails() {
    let mut state = HostState { cwd: String::from("/home/user"), exited: false };
    let r = execute_built_in_command(&mut state, "cd a b");
    assert_eq!(r.unwrap_err(), "cd: too many arguments");
    assert_eq!(state.cwd, "/home/user");
}

#[test]
fn execute_cd_relative_path_lands_under_current_directory() {
    let mut state = HostState { cwd: String::from("/home/user"), exited: false };
    let r = execute_built_in_command(&mut state, "cd proj");
    assert!(r.is_ok());
    assert_eq!(state.cwd, "/home/user/proj");
}

#[test]
fn execute_exit_marks_the_process_exited() {
    let mut state = HostState { cwd: String::from("/x"), exited: false };
    let r = execute_built_in_command(&mut state, "exit");
    assert!(r.is_ok());
    assert!(state.exited);
    assert_eq!(state.cwd, "/x");
}

#[test]
fn execute_unknown_command_reports_it() {
    let mut state = HostState { cwd: String::from("/x"), exited: false };
    let r = execute_built_in_command(&mut state, "ls /tmp");
    assert_eq!(r.unwrap_err(), "Command not found: ls /tmp");
}

#[test]
fn execute_mismatched_quotes_reports_it() {
    let mut state = HostState { cwd: String::from("/x"), exited: false };
    let r = execute_built_in_command(&mut state, "cd 'oops");
    assert_eq!(r.unwrap_err(), "Mismatched quotes");
    assert_eq!(state.cwd, "/x");
}
