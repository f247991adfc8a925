use gptsh::messages::{Message, ToolCall};
use gptsh::runner::{execution_result_payload, ExecutionResult};
use gptsh::session::{Phase, ShellSession};
use gptsh::tools::{after_gate, default_tools, InvokeStep, ToolError, wrap_tool_outcome};

fn call(id: &str, name: &str, arguments: &str) -> ToolCall {
    ToolCall {
        id: String::from(id),
        name: String::from(name),
        arguments: String::from(arguments),
    }
}

fn count_tool_results(history: &Vec<Message>) -> usize {
    history
        .iter()
        .filter(|m| matches!(m, Message::ToolResult { .. }))
        .count()
}

#[test]
fn turn_one_result_per_executed_call() {
    let session = ShellSession::new(String::from("sys"));
    let mut t = session.begin_turn(String::from("do two things"));
    assert_eq!(t.phase, Phase::AwaitingRequest);
    t.on_response(
        Some(String::from("working on it")),
        vec![call("c1", "run_command", "{}"), call("c2", "run_command", "{}")],
    );
    assert_eq!(t.phase, Phase::ExecutingTools);
    assert_eq!(t.current_call().id, "c1");
    t.record_tool_result(String::from("r1"), false);
    assert_eq!(t.phase, Phase::ExecutingTools);
    assert_eq!(t.current_call().id, "c2");
    t.record_tool_result(String::from("r2"), false);
    assert_eq!(t.phase, Phase::AwaitingRequest);
    // exactly one tool-result message per executed call, in order
    assert_eq!(count_tool_results(&t.history), 2);
    match &t.history[t.history.len() - 2] {
        Message::ToolResult { tool_call_id, content } => {
            assert_eq!(tool_call_id, "c1");
            assert_eq!(content, "r1");
        }
        other => panic!("expected a tool result, got {:?}", message_tag(other)),
    }
    match &t.history[t.history.len() - 1] {
        Message::ToolResult { tool_call_id, content } => {
            assert_eq!(tool_call_id, "c2");
            assert_eq!(content, "r2");
        }
        other => panic!("expected a tool result, got {:?}", message_tag(other)),
    }
}

fn message_tag(m: &Message) -> &'static str {
    match m {
        Message::System { .. } => "system",
        Message::User { .. } => "user",
        Message::Assistant { .. } => "assistant",
        Message::ToolResult { .. } => "tool result",
    }
}

#[test]
fn turn_abort_skips_the_rest_of_the_batch() {
    let session = ShellSession::new(String::from("sys"));
    let mut t = session.begin_turn(String::from("p"));
    t.on_response(None, vec![call("c1", "run_command", "{}"), call("c2", "run_command", "{}")]);
    let before = t.history.len();
    t.record_tool_result(String::from("cancelled"), true);
    // the aborted call's own result is in the history, the turn is over,
    // and no result for c2 ever appears
    assert_eq!(t.phase, Phase::Terminal);
    assert!(t.aborted);
    assert_eq!(t.history.len(), before + 1);
    assert_eq!(count_tool_results(&t.history), 1);
    match t.history.last().unwrap() {
        Message::ToolResult { tool_call_id, .. } => assert_eq!(tool_call_id, "c1"),
        other => panic!("expected a tool result, got {:?}", message_tag(other)),
    }
}

#[test]
fn turn_without_tool_calls_is_terminal() {
    let session = ShellSession::new(String::from("sys"));
    let mut t = session.begin_turn(String::from("p"));
    t.on_response(Some(String::from("plain answer")), Vec::new());
    assert_eq!(t.phase, Phase::Terminal);
    assert!(!t.aborted);
    assert_eq!(count_tool_results(&t.history), 0);
}

#[test]
fn session_adopts_finished_turn() {
    let mut session = ShellSession::new(String::from("sys"));
    let mut t = session.begin_turn(String::from("p"));
    t.on_response(Some(String::from("done")), Vec::new());
    session.finish_turn(t);
    assert_eq!(session.history.len(), 3);
    assert!(matches!(session.history[0], Message::System { .. }));
    assert!(matches!(session.history[1], Message::User { .. }));
    assert!(matches!(session.history[2], Message::Assistant { .. }));
}

#[test]
fn end_to_end_auto_confirmed_shell_call() {
    // a response asks to run `ls /tmp`; under auto-confirmation the engine
    // executes without ever asking the user, and a successful run yields
    // a tool result with status code zero
    let tools = default_tools();
    let mut session = ShellSession::new(String::from("sys"));
    session.yes = true;
    let mut t = session.begin_turn(String::from("list files in /tmp"));
    t.on_response(None, vec![call("id-1", "run_command", "{\"command\": \"ls /tmp\"}")]);
    assert_eq!(t.phase, Phase::ExecutingTools);
    let c = t.current_call();
    assert_eq!(c.name, "run_command");
    let step = tools.run(&c.name, &c.arguments, session.yes);
    let command = match step {
        InvokeStep::Execute { command } => command,
        InvokeStep::Confirm { .. } => panic!("gate must be skipped under auto-confirm"),
        InvokeStep::RunBuiltin { .. } => panic!("ls is not a built-in"),
        InvokeStep::Reply { .. } => panic!("arguments are valid"),
    };
    assert_eq!(command, "ls /tmp");
    // the spawned run succeeded
    let outcome = ExecutionResult {
        status_code: Some(0),
        stdout: String::from("file_a\nfile_b\n"),
        stderr: String::new(),
    };
    let payload = execution_result_payload(&outcome);
    assert!(payload.starts_with("{\"status_code\":0,"));
    t.record_tool_result(payload, false);
    assert_eq!(t.phase, Phase::AwaitingRequest);
    match t.history.last().unwrap() {
        Message::ToolResult { tool_call_id, content } => {
            assert_eq!(tool_call_id, "id-1");
            let v: serde_json::Value = serde_json::from_str(content).unwrap();
            assert_eq!(v["status_code"], 0);
        }
        _ => panic!("expected a tool result"),
    }
}

#[test]
fn invoke_missing_command_argument_is_recoverable() {
    let tools = default_tools();
    match tools.run("run_command", "{}", false) {
        InvokeStep::Reply { payload, aborted } => {
            assert!(!aborted);
            assert_eq!(
                payload,
                "{\"error\":\"Invalid arguments: missing string parameter 'command'\"}"
            );
        }
        _ => panic!("missing argument must come back as an error payload"),
    }
}

#[test]
fn invoke_malformed_json_is_recoverable() {
    let tools = default_tools();
    match tools.run("run_command", "not json", false) {
        InvokeStep::Reply { aborted, .. } => assert!(!aborted),
        _ => panic!("malformed arguments must come back as an error payload"),
    }
}

#[test]
fn invoke_builtin_never_reaches_the_gate() {
    let tools = default_tools();
    match tools.run("run_command", "{\"command\": \"cd /tmp\"}", false) {
        InvokeStep::RunBuiltin { command } => assert_eq!(command, "cd /tmp"),
        _ => panic!("a built-in runs in-process, without confirmation"),
    }
}

#[test]
fn invoke_ordinary_command_needs_the_gate() {
    let tools = default_tools();
    match tools.run("run_command", "{\"command\": \"ls\"}", false) {
        InvokeStep::Confirm { command } => assert_eq!(command, "ls"),
        _ => panic!("without auto-confirm the user is asked first"),
    }
}

#[test]
fn invoke_trims_the_command_text() {
    let tools = default_tools();
    match tools.run("run_command", "{\"command\": \"  ls /tmp  \"}", true) {
        InvokeStep::Execute { command } => assert_eq!(command, "ls /tmp"),
        _ => panic!("expected execution"),
    }
}

#[test]
fn gate_decline_yields_cancellation_payload() {
    match after_gate(false, String::from("rm -rf /tmp/x")) {
        InvokeStep::Reply { payload, aborted } => {
            assert!(aborted);
            assert_eq!(
                payload,
                "{\"error\":\"User cancelled the command. Task should be considered as failed and finished early.\"}"
            );
        }
        _ => panic!("a declined gate aborts the call"),
    }
}

#[test]
fn gate_consent_executes() {
    match after_gate(true, String::from("ls")) {
        InvokeStep::Execute { command } => assert_eq!(command, "ls"),
        _ => panic!("a confirmed gate executes the command"),
    }
}

#[test]
fn wrap_outcome_keeps_success_payload() {
    let (payload, aborted) = wrap_tool_outcome(Ok(String::from("{\"ok\":true}")));
    assert_eq!(payload, "{\"ok\":true}");
    assert!(!aborted);
}

#[test]
fn wrap_outcome_translates_abort() {
    let (payload, aborted) = wrap_tool_outcome(Err(ToolError::Aborted));
    assert!(aborted);
    let v: serde_json::Value = serde_json::from_str(&payload).unwrap();
    assert_eq!(
        v["error"],
        "User cancelled the command. Task should be considered as failed and finished early."
    );
}

#[test]
fn schema_describes_the_shell_tool() {
    let tools = default_tools();
    let infos = tools.get_info();
    assert_eq!(infos.len(), 1);
    let info = &infos[0];
    assert_eq!(info.name, "run_command");
    assert_eq!(info.description, "Run a one-liner bash command");
    assert_eq!(info.params.len(), 1);
    assert_eq!(info.params[0].name, "command");
    assert_eq!(info.params[0].ty, "string");
    assert!(info.params[0].required);
    assert_eq!(info.required, vec![String::from("command")]);
}
