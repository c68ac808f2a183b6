use agent_loop::agent::{
    AgentError, AgentRun, AgentStatus, ReplyDisposition, RoundEnd, Tool, MAX_ITERATIONS,
};
use agent_loop::directive::ArgShape;
use agent_loop::history::{ChatMessage, Role};
use agent_loop::prompt::compose_system_prompt;

fn turn(role: Role, content: &str) -> ChatMessage {
    ChatMessage { role, content: content.to_string(), timestamp: 1 }
}

fn fs_tool() -> Tool {
    Tool {
        server_name: "fs".to_string(),
        tool_name: "read_file".to_string(),
        description: "reads a file".to_string(),
    }
}

#[test]
fn missing_api_key_fails_fast() {
    let r = AgentRun::start(&[], vec![], vec![], "", 0);
    match r {
        Err(e) => {
            assert!(matches!(e, AgentError::Configuration));
            assert_eq!(e.render(), "OpenAI API key is not set in the configuration file.");
        }
        Ok(_) => panic!("an empty key must fail before the first round"),
    }
}

#[test]
fn run_seeds_system_turn_and_drops_history_system_turns() {
    let history = vec![
        turn(Role::System, "stale instruction"),
        turn(Role::User, "hi"),
        turn(Role::Assistant, "hello"),
    ];
    let tools = vec![fs_tool()];
    let expected_prompt = compose_system_prompt(&tools);
    let run = AgentRun::start(&history, tools, vec!["fs".to_string()], "sk-test", 5).unwrap();
    assert_eq!(run.transcript.len(), 3);
    assert_eq!(run.transcript[0].role, Role::System);
    assert_eq!(run.transcript[0].content, expected_prompt);
    assert_eq!(run.transcript[0].timestamp, 5);
    assert_eq!(run.transcript[1].content, "hi");
    assert_eq!(run.transcript[2].content, "hello");
}

#[test]
fn tool_free_run_returns_answer_verbatim_after_one_call() {
    // A stubbed endpoint whose reply is not a directive: the loop makes
    // exactly one completion call and hands the text back verbatim.
    let history = vec![turn(Role::User, "what is 2+2?")];
    let mut run = AgentRun::start(&history, vec![], vec![], "sk-test", 0).unwrap();
    let mut completion_calls = 0;
    let answer = loop {
        let (event, messages) = run.begin_round();
        assert!(matches!(event.status, AgentStatus::Thinking));
        assert!(!messages.is_empty());
        completion_calls += 1;
        let stub_reply = "4";
        match run.absorb_reply(stub_reply) {
            ReplyDisposition::Finished { answer } => break answer,
            _ => panic!("a plain reply ends the run"),
        }
    };
    assert_eq!(completion_calls, 1);
    assert_eq!(answer, "4");
}

#[test]
fn unknown_tool_fails_without_any_tool_call() {
    let mut run =
        AgentRun::start(&[turn(Role::User, "go")], vec![fs_tool()], vec!["fs".to_string()], "k", 0)
            .unwrap();
    let (_event, _messages) = run.begin_round();
    match run.absorb_reply(r#"{"tool_name": "write_file", "arguments": null}"#) {
        ReplyDisposition::Failed { error } => {
            assert!(matches!(&error, AgentError::ToolNotFound { tool_name } if tool_name == "write_file"));
            assert_eq!(error.render(), "Tool 'write_file' not found.");
        }
        ReplyDisposition::RunTool { .. } => panic!("no backend may be contacted"),
        ReplyDisposition::Finished { .. } => panic!("a directive is not a final answer"),
    }
}

#[test]
fn missing_backend_fails_without_any_tool_call() {
    let mut run =
        AgentRun::start(&[turn(Role::User, "go")], vec![fs_tool()], vec![], "k", 0).unwrap();
    let (_event, _messages) = run.begin_round();
    match run.absorb_reply(r#"{"tool_name": "read_file", "arguments": null}"#) {
        ReplyDisposition::Failed { error } => {
            assert_eq!(
                error.render(),
                "MCP client for server 'fs' not found or not running."
            );
        }
        _ => panic!("a missing backend ends the run"),
    }
}

#[test]
fn tool_round_trip() {
    // One descriptor, a stubbed endpoint that first asks for the tool and
    // then answers: two completion calls, one fs/read_file call with
    // {"path":"a.txt"}, and the final text comes back.
    let history = vec![turn(Role::User, "read a.txt")];
    let mut run =
        AgentRun::start(&history, vec![fs_tool()], vec!["fs".to_string()], "sk", 9).unwrap();
    let stub_replies =
        [r#"{"tool_name":"read_file","arguments":{"path":"a.txt"}}"#, "contents: hello"];
    let mut completion_calls = 0;
    let mut tool_calls: Vec<(String, String, serde_json::Value)> = Vec::new();
    let answer = loop {
        let (_event, _messages) = run.begin_round();
        let reply = stub_replies[completion_calls];
        completion_calls += 1;
        match run.absorb_reply(reply) {
            ReplyDisposition::Finished { answer } => break answer,
            ReplyDisposition::Failed { error } => panic!("unexpected error: {:?}", error),
            ReplyDisposition::RunTool { event, server_name, tool_name, args, block, via_heuristic } => {
                assert!(
                    matches!(&event.status, AgentStatus::UsingTool { tool_name } if tool_name == "read_file")
                );
                assert!(!via_heuristic);
                assert_eq!(args, ArgShape::ObjectArgs);
                let decoded: serde_json::Value = serde_json::from_str(&block).unwrap();
                tool_calls.push((server_name, tool_name, decoded["arguments"].clone()));
                match run.absorb_tool_result("file contents: hello", 9) {
                    RoundEnd::Continue => {}
                    RoundEnd::Exhausted => panic!("budget cannot be spent in one round"),
                }
            }
        }
    };
    assert_eq!(completion_calls, 2);
    assert_eq!(tool_calls.len(), 1);
    assert_eq!(tool_calls[0].0, "fs");
    assert_eq!(tool_calls[0].1, "read_file");
    let expected_args: serde_json::Value = serde_json::from_str(r#"{"path": "a.txt"}"#).unwrap();
    assert_eq!(tool_calls[0].2, expected_args);
    assert_eq!(answer, "contents: hello");
}

#[test]
fn tool_outcome_joins_transcript_with_attribution() {
    let mut run =
        AgentRun::start(&[turn(Role::User, "go")], vec![fs_tool()], vec!["fs".to_string()], "k", 3)
            .unwrap();
    let before = run.transcript.len();
    let (_e, _m) = run.begin_round();
    let raw = r#"{"tool_name":"read_file","arguments":null}"#;
    match run.absorb_reply(raw) {
        ReplyDisposition::RunTool { .. } => {}
        _ => panic!("expected a tool call"),
    }
    run.absorb_tool_result("ok", 4);
    assert_eq!(run.transcript.len(), before + 2);
    let assistant = &run.transcript[before];
    assert_eq!(assistant.role, Role::Assistant);
    assert_eq!(assistant.content, raw);
    assert_eq!(assistant.timestamp, 4);
    let outcome = &run.transcript[before + 1];
    assert_eq!(outcome.role, Role::User);
    assert_eq!(outcome.content, "Tool result for 'read_file':\nok");
}

#[test]
fn iteration_budget_is_exhausted_after_the_cap() {
    // A stubbed endpoint that always returns a valid directive for a no-op
    // tool: the run ends exhausted after exactly the cap, having made that
    // many completion calls and that many tool calls.
    let noop = Tool {
        server_name: "fs".to_string(),
        tool_name: "noop".to_string(),
        description: "does nothing".to_string(),
    };
    let mut run =
        AgentRun::start(&[turn(Role::User, "loop")], vec![noop], vec!["fs".to_string()], "k", 0)
            .unwrap();
    let mut completion_calls = 0u32;
    let mut tool_calls = 0u32;
    loop {
        let (_e, _m) = run.begin_round();
        completion_calls += 1;
        match run.absorb_reply(r#"{"tool_name":"noop","arguments":null}"#) {
            ReplyDisposition::RunTool { .. } => {
                tool_calls += 1;
                match run.absorb_tool_result("done", 0) {
                    RoundEnd::Continue => {}
                    RoundEnd::Exhausted => break,
                }
            }
            _ => panic!("the stub always asks for the tool"),
        }
    }
    assert_eq!(completion_calls, MAX_ITERATIONS);
    assert_eq!(tool_calls, MAX_ITERATIONS);
    assert_eq!(
        AgentError::IterationsExhausted.render(),
        "Agent exceeded maximum iterations."
    );
}

#[test]
fn transport_errors_pass_through_verbatim() {
    let e = AgentError::Transport { detail: "connection refused by 10.0.0.1".to_string() };
    assert_eq!(e.render(), "connection refused by 10.0.0.1");
}

#[test]
fn heuristic_directive_is_flagged_in_disposition() {
    let mut run =
        AgentRun::start(&[turn(Role::User, "go")], vec![fs_tool()], vec!["fs".to_string()], "k", 0)
            .unwrap();
    let (_e, _m) = run.begin_round();
    let reply = r#"Calling now: {"tool_name":"read_file","arguments":null} ok?"#;
    match run.absorb_reply(reply) {
        ReplyDisposition::RunTool { via_heuristic, block, .. } => {
            assert!(via_heuristic, "prose around the block means the heuristic tier ran");
            assert_eq!(block, r#"{"tool_name":"read_file","arguments":null}"#);
        }
        _ => panic!("the block still carries a directive"),
    }
}
