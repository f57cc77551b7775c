use react_agent::agent::{
    classify_completion, compose_entry, Agent, AgentError, FinishReason, RunOutcome,
};
use react_agent::chatllm::{ChatLLM, CompletionClient, CompletionError, Message, ScriptedClient};
use react_agent::parser::ParsedAction;
use react_agent::tool::{FailingTool, StaticTool, ToolInterface};

fn ok_tool_call() -> Result<String, CompletionError> {
    Ok("Thought: I should look this up\nAction: search\nAction Input: a query".to_string())
}

fn search_tool() -> StaticTool {
    StaticTool::new(
        "search".to_string(),
        "finds things".to_string(),
        "a result".to_string(),
    )
}

#[test]
fn run_exhausts_the_budget_on_endless_tool_calls() {
    let script = (0..10).map(|_| ok_tool_call()).collect();
    let client = ScriptedClient::new(script);
    let mut agent = Agent::new(client, vec![search_tool()]);
    let outcome = agent.run("what is the answer?");
    assert!(matches!(outcome, RunOutcome::Exhausted));
    assert_eq!(agent.llm.calls_made(), 10);
}

#[test]
fn run_respects_a_configured_budget() {
    let script = (0..3).map(|_| ok_tool_call()).collect();
    let client = ScriptedClient::new(script);
    let mut agent = Agent::with_config(client, vec![search_tool()], 3, None);
    let outcome = agent.run("q");
    assert!(matches!(outcome, RunOutcome::Exhausted));
    assert_eq!(agent.llm.calls_made(), 3);
}

#[test]
fn run_fails_on_an_unknown_tool_without_invoking_any() {
    let script = vec![Ok("Action: missing\nAction Input: x".to_string())];
    let client = ScriptedClient::new(script);
    // The registered tool fails loudly when invoked, so an unknown-tool
    // failure shows no real tool was reached.
    let tool = FailingTool::new(
        "search".to_string(),
        "d".to_string(),
        "must never be invoked".to_string(),
    );
    let mut agent = Agent::new(client, vec![tool]);
    let outcome = agent.run("q");
    match outcome {
        RunOutcome::Failure(AgentError::UnknownTool(name)) => assert_eq!(name, "missing"),
        _ => panic!("expected an unknown-tool failure"),
    }
    assert_eq!(agent.llm.calls_made(), 1);
}

#[test]
fn run_answers_after_one_iteration() {
    let script = vec![Ok("Thought: easy\nFinal Answer: Paris".to_string())];
    let client = ScriptedClient::new(script);
    let mut agent = Agent::new(client, vec![search_tool()]);
    let outcome = agent.run("capital of France?");
    match outcome {
        RunOutcome::Answer(text) => assert_eq!(text, "Paris"),
        _ => panic!("expected an answer"),
    }
    assert_eq!(agent.llm.calls_made(), 1);
}

#[test]
fn run_fails_on_unparsable_output_instead_of_crashing() {
    let script = vec![Ok("the model rambled".to_string())];
    let client = ScriptedClient::new(script);
    let mut agent = Agent::new(client, vec![search_tool()]);
    match agent.run("q") {
        RunOutcome::Failure(AgentError::Parse(e)) => assert_eq!(e.raw, "the model rambled"),
        _ => panic!("expected a parse failure"),
    }
}

#[test]
fn run_fails_when_the_completion_call_fails() {
    let script = vec![Err(CompletionError { message: "boom".to_string() })];
    let client = ScriptedClient::new(script);
    let mut agent = Agent::new(client, vec![search_tool()]);
    match agent.run("q") {
        RunOutcome::Failure(AgentError::Completion(e)) => assert_eq!(e.message, "boom"),
        _ => panic!("expected a completion failure"),
    }
}

#[test]
fn run_answers_on_the_second_iteration_after_one_tool_call() {
    let script = vec![ok_tool_call(), Ok("Final Answer: done".to_string())];
    let client = ScriptedClient::new(script);
    let mut agent = Agent::new(client, vec![search_tool()]);
    match agent.run("q") {
        RunOutcome::Answer(text) => assert_eq!(text, "done"),
        _ => panic!("expected an answer"),
    }
    assert_eq!(agent.llm.calls_made(), 2);
}

#[test]
fn classify_pins_each_completion_outcome() {
    match classify_completion(Ok("Final Answer: 7".to_string())) {
        Ok((raw, ParsedAction::FinalAnswer(t))) => {
            assert_eq!(raw, "Final Answer: 7");
            assert_eq!(t, "7");
        }
        _ => panic!("expected a final answer"),
    }
    match classify_completion(Ok("Action: a\nAction Input: b".to_string())) {
        Ok((_, ParsedAction::ToolCall(n, i))) => {
            assert_eq!(n, "a");
            assert_eq!(i, "b");
        }
        _ => panic!("expected a tool call"),
    }
    match classify_completion(Ok("nothing recognizable".to_string())) {
        Err(AgentError::Parse(e)) => assert_eq!(e.raw, "nothing recognizable"),
        _ => panic!("expected a parse failure"),
    }
    match classify_completion(Err(CompletionError { message: "down".to_string() })) {
        Err(AgentError::Completion(c)) => assert_eq!(c.message, "down"),
        _ => panic!("expected a completion failure"),
    }
}

#[test]
fn scripted_client_replays_in_order_and_then_fails() {
    let mut client = ScriptedClient::new(vec![
        Ok("one".to_string()),
        Ok("two".to_string()),
    ]);
    assert_eq!(client.complete("p", &None).unwrap(), "one");
    assert_eq!(client.complete("p", &None).unwrap(), "two");
    assert!(client.complete("p", &None).is_err());
    assert_eq!(client.calls_made(), 3);
}

#[test]
fn tool_description_and_names_follow_catalog_order() {
    let tools = vec![
        StaticTool::new("alpha".to_string(), "first tool".to_string(), "r".to_string()),
        StaticTool::new("beta".to_string(), "second tool".to_string(), "r".to_string()),
    ];
    let client = ScriptedClient::new(vec![]);
    let agent = Agent::new(client, tools);
    assert_eq!(agent.tool_description(), "alpha: first tool\nbeta: second tool");
    assert_eq!(agent.tool_names(), "alpha,beta");
}

#[test]
fn find_tool_is_exact_and_case_sensitive() {
    let tools = vec![
        StaticTool::new("alpha".to_string(), "d".to_string(), "r".to_string()),
        StaticTool::new("beta".to_string(), "d".to_string(), "r".to_string()),
    ];
    let agent = Agent::new(ScriptedClient::new(vec![]), tools);
    assert_eq!(agent.find_tool(&"beta".to_string()), Some(1));
    assert_eq!(agent.find_tool(&"Beta".to_string()), None);
    assert_eq!(agent.find_tool(&"gamma".to_string()), None);
}

#[test]
fn compose_entry_layout() {
    assert_eq!(
        compose_entry("Action: search\nAction Input: q", "hits"),
        "Action: search\nAction Input: q\nObservation: hits\nThought:"
    );
}

#[test]
fn static_tool_reports_its_identity_and_reply() {
    let t = search_tool();
    assert_eq!(t.name(), "search");
    assert_eq!(t.description(), "finds things");
    assert_eq!(t.use_tool("anything").unwrap(), "a result");
    assert_eq!(t.format_tool("xyz"), "Result from search: xyz");
}

#[test]
fn finish_reason_classification() {
    assert!(matches!(FinishReason::from_str("stop"), Ok(FinishReason::Stop)));
    assert!(matches!(FinishReason::from_str("length"), Ok(FinishReason::Length)));
    assert!(matches!(
        FinishReason::from_str("content filter"),
        Ok(FinishReason::ContentFilter)
    ));
    assert!(matches!(FinishReason::from_str("null"), Ok(FinishReason::Null)));
    match FinishReason::from_str("bogus") {
        Err(m) => assert_eq!(m, "Unknown finish reason: bogus"),
        _ => panic!("expected an error"),
    }
}

#[test]
fn chat_llm_holds_its_key_and_user_messages_their_role() {
    let llm = ChatLLM::new("a-test-key".to_string());
    assert_eq!(llm.key(), "a-test-key");
    let m = Message::user("hello".to_string());
    assert_eq!(m.role, "user");
    assert_eq!(m.content, "hello");
}
