use react_agent::agent::{Agent, AgentError, RunOutcome};
use react_agent::chatllm::ScriptedClient;
use react_agent::tool::{FailingTool, ToolInterface};

fn broken_tool() -> FailingTool {
    FailingTool::new(
        "search".to_string(),
        "always fails".to_string(),
        "network down".to_string(),
    )
}

#[test]
fn a_tool_failure_ends_the_run_as_a_failure() {
    let script = vec![Ok("Action: search\nAction Input: x".to_string())];
    let client = ScriptedClient::new(script);
    let mut agent = Agent::new(client, vec![broken_tool()]);
    match agent.run("q") {
        RunOutcome::Failure(AgentError::Tool(e)) => assert_eq!(e.message, "network down"),
        _ => panic!("expected a tool failure"),
    }
    assert_eq!(agent.llm.calls_made(), 1);
}

#[test]
fn failing_tool_reports_its_error() {
    let t = broken_tool();
    assert_eq!(t.name(), "search");
    assert_eq!(t.description(), "always fails");
    match t.use_tool("anything") {
        Err(e) => assert_eq!(e.message, "network down"),
        _ => panic!("expected a tool error"),
    }
}
