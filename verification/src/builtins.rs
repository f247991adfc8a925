use crate::text::str_eq;
use vstd::prelude::*;

verus! {

/// What `shellwords::split` returns on `s`: the shell words of `s`, or
/// nothing when a quoted string misses its closing quote.
pub uninterp spec fn shell_split(s: Seq<char>) -> Option<Seq<Seq<char>>>;

/// Relies on `shellwords::split`: tokenizes a command line the way the UNIX
/// Bourne shell does, honoring single quotes, double quotes and backslashes;
/// mismatched quotes are its one error.
#[verifier::external_body]
fn split_shell_words(command: &str) -> (r: Option<Vec<String>>)
    ensures
        r is Some <==> shell_split(command@) is Some,
        r matches Some(words) ==> Some(words.deep_view()) == shell_split(command@),
{
    match shellwords::split(command) {
        Ok(words) => Some(words),
        Err(_) => None,
    }
}

/// The first word decides whether a command is built in: `exit` always is,
/// and `cd` is exactly when one argument follows it.
pub open spec fn is_builtin_words(words: Seq<Seq<char>>) -> bool {
    words.len() > 0 && (words[0] == "exit"@ || (words[0] == "cd"@ && words.len() == 2))
}

/// Decides `is_builtin_words` on a tokenized command.
pub fn words_are_builtin(words: &Vec<String>) -> (r: bool)
    ensures
        r == is_builtin_words(words.deep_view()),
{
    if words.len() == 0 {
        return false;
    }
    if str_eq(words[0].as_str(), "exit") {
        return true;
    }
    str_eq(words[0].as_str(), "cd") && words.len() == 2
}

/// Whether the command must run in the host process itself rather than in a
/// spawned child. A command whose quotes are mismatched is not built in; the
/// shell it is handed to will complain instead.
pub fn is_built_in_command(command: &str) -> (r: bool)
    ensures
        r == (shell_split(command@) matches Some(words) && is_builtin_words(words)),
{
    match split_shell_words(command) {
        None => false,
        Some(words) => words_are_builtin(&words),
    }
}

/// Model of the host process state that built-in commands act on: the
/// current working directory, and whether the process was told to exit.
///
/// The shell around the library applies the same steps to the real process;
/// this model fixes what each step must do.
pub struct HostState {
    /// Current working directory.
    pub cwd: String,
    /// Whether `exit` has been run.
    pub exited: bool,
}

/// Mathematical image of a `HostState`.
pub struct HostStateView {
    pub cwd: Seq<char>,
    pub exited: bool,
}

impl View for HostState {
    type V = HostStateView;

    open spec fn view(&self) -> HostStateView {
        HostStateView { cwd: self.cwd@, exited: self.exited }
    }
}

/// Where `cd` lands: an absolute path replaces the working directory, any
/// other path is taken relative to it.
pub open spec fn resolved_cwd(cwd: Seq<char>, path: Seq<char>) -> Seq<char> {
    if path.len() > 0 && path[0] == '/' {
        path
    } else {
        cwd + "/"@ + path
    }
}

/// What one built-in command does to the host state, and the error it
/// reports, if any: `exit` marks the process as exited; `cd` with exactly
/// one argument moves the working directory and fails on any other arity;
/// everything else is unknown.
pub open spec fn builtin_step(s: HostStateView, command: Seq<char>) -> (HostStateView, Option<
    Seq<char>,
>) {
    match shell_split(command) {
        None => (s, Some("Mismatched quotes"@)),
        Some(words) => {
            if words.len() == 0 {
                (s, Some("Command not found: "@ + command))
            } else if words[0] == "exit"@ {
                (HostStateView { cwd: s.cwd, exited: true }, None)
            } else if words[0] == "cd"@ {
                if words.len() == 1 {
                    (s, Some("cd: missing argument"@))
                } else if words.len() == 2 {
                    (HostStateView { cwd: resolved_cwd(s.cwd, words[1]), exited: s.exited }, None)
                } else {
                    (s, Some("cd: too many arguments"@))
                }
            } else {
                (s, Some("Command not found: "@ + command))
            }
        },
    }
}

/// Computes where `cd` lands, as `resolved_cwd` says.
fn resolve_cwd(cwd: &str, path: &str) -> (r: String)
    ensures
        r@ == resolved_cwd(cwd@, path@),
{
    let n = path.unicode_len();
    if n > 0 && path.get_char(0) == '/' {
        String::from_str(path)
    } else {
        String::from_str(cwd).concat("/").concat(path)
    }
}

/// Runs one built-in command against the host state, exactly as
/// `builtin_step` says: the state moves to the step's state, and the result
/// is `Ok` precisely when the step reports no error.
pub fn execute_built_in_command(state: &mut HostState, command: &str) -> (r: Result<(), String>)
    ensures
        final(state)@ == builtin_step(old(state)@, command@).0,
        r is Ok <==> builtin_step(old(state)@, command@).1 is None,
        r matches Err(e) ==> Some(e@) == builtin_step(old(state)@, command@).1,
{
    match split_shell_words(command) {
        None => Err(String::from_str("Mismatched quotes")),
        Some(words) => {
            if words.len() == 0 {
                Err(String::from_str("Command not found: ").concat(command))
            } else if str_eq(words[0].as_str(), "exit") {
                state.exited = true;
                Ok(())
            } else if str_eq(words[0].as_str(), "cd") {
                if words.len() == 1 {
                    Err(String::from_str("cd: missing argument"))
                } else if words.len() == 2 {
                    let new_cwd = resolve_cwd(state.cwd.as_str(), words[1].as_str());
                    state.cwd = new_cwd;
                    Ok(())
                } else {
                    Err(String::from_str("cd: too many arguments"))
                }
            } else {
                Err(String::from_str("Command not found: ").concat(command))
            }
        },
    }
}

} // verus!
