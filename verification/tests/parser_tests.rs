use react_agent::parser::{parse_action, ParsedAction};

#[test]
fn final_answer_simple() {
    match parse_action("To answer this I no longer need tools. Final Answer: 42") {
        Ok(ParsedAction::FinalAnswer(t)) => assert_eq!(t, "42"),
        _ => panic!("expected a final answer"),
    }
}

#[test]
fn final_answer_last_occurrence_wins() {
    match parse_action("Final Answer: A\nsome restated instructions\nFinal Answer: B") {
        Ok(ParsedAction::FinalAnswer(t)) => assert_eq!(t, "B"),
        _ => panic!("expected a final answer"),
    }
}

#[test]
fn final_answer_is_trimmed() {
    match parse_action("Final Answer:   spaced out  \n") {
        Ok(ParsedAction::FinalAnswer(t)) => assert_eq!(t, "spaced out"),
        _ => panic!("expected a final answer"),
    }
}

#[test]
fn tool_call_plain() {
    match parse_action("Thought: x\nAction: search\nAction Input: rust ownership") {
        Ok(ParsedAction::ToolCall(name, input)) => {
            assert_eq!(name, "search");
            assert_eq!(input, "rust ownership");
        }
        _ => panic!("expected a tool call"),
    }
}

#[test]
fn tool_call_bracket_stripped() {
    match parse_action("Action: [search]\nAction Input: foo") {
        Ok(ParsedAction::ToolCall(name, input)) => {
            assert_eq!(name, "search");
            assert_eq!(input, "foo");
        }
        _ => panic!("expected a tool call"),
    }
}

#[test]
fn tool_call_multiline_input() {
    match parse_action("Action: search\nAction Input: first line\nsecond line") {
        Ok(ParsedAction::ToolCall(name, input)) => {
            assert_eq!(name, "search");
            assert_eq!(input, "first line\nsecond line");
        }
        _ => panic!("expected a tool call"),
    }
}

#[test]
fn tool_call_double_bracket_strips_one_pair() {
    match parse_action("Action: [[search]]\nAction Input: foo") {
        Ok(ParsedAction::ToolCall(name, _)) => assert_eq!(name, "[search]"),
        _ => panic!("expected a tool call"),
    }
}

#[test]
fn tool_call_half_bracket_stripped() {
    match parse_action("Action: [search\nAction Input: foo") {
        Ok(ParsedAction::ToolCall(name, _)) => assert_eq!(name, "search"),
        _ => panic!("expected a tool call"),
    }
}

#[test]
fn final_answer_wins_over_tool_call() {
    match parse_action("Action: search\nAction Input: foo\nFinal Answer: done") {
        Ok(ParsedAction::FinalAnswer(t)) => assert_eq!(t, "done"),
        _ => panic!("expected a final answer"),
    }
}

#[test]
fn neither_shape_is_a_parse_error() {
    match parse_action("the model rambled without any marker") {
        Err(e) => assert_eq!(e.raw, "the model rambled without any marker"),
        _ => panic!("expected a parse error"),
    }
}

#[test]
fn action_without_input_is_a_parse_error() {
    match parse_action("Action: search\nbut no input marker follows") {
        Err(e) => assert_eq!(e.raw, "Action: search\nbut no input marker follows"),
        _ => panic!("expected a parse error"),
    }
}

#[test]
fn input_marker_before_action_is_a_parse_error() {
    assert!(matches!(parse_action("Action Input: foo\nAction: search"), Err(_)));
}

#[test]
fn empty_string_is_a_parse_error() {
    assert!(matches!(parse_action(""), Err(_)));
}
