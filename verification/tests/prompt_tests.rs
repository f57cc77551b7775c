use react_agent::date::Date;
use react_agent::prompt::{join_strings, render_prompt};

fn expected_prompt(today: &str, desc: &str, names: &str, question: &str, transcript: &str) -> String {
    let mut s = String::new();
    s.push_str("Today is ");
    s.push_str(today);
    s.push_str(
        " and you can use tools to get new information. Answer the question as best as you can using the following tools: \n",
    );
    s.push_str(desc);
    s.push_str("\nUse the following format:\nQuestion: the input question you must answer\nThought: comment on what you want to do next\nAction: the action to take, exactly one element of [");
    s.push_str(names);
    s.push_str("]\nAction Input: the input to the action\nObservation: the result of the action\n... (this Thought/Action/Action Input/Observation repeats N times, use it until you are sure of the answer)\nThought: I now know the final answer\nFinal Answer: your final answer to the original input question\nBegin!\nQuestion: ");
    s.push_str(question);
    s.push_str("\nThought: ");
    s.push_str(transcript);
    s.push_str("\n");
    s
}

#[test]
fn empty_transcript_leaves_placeholder_empty() {
    let rendered = render_prompt("2024-01-02", "search: finds things", "search", "why?", &vec![]);
    assert_eq!(rendered, expected_prompt("2024-01-02", "search: finds things", "search", "why?", ""));
}

#[test]
fn transcript_entries_appear_joined_in_order() {
    let entries = vec!["first entry".to_string(), "second entry".to_string(), "third".to_string()];
    let rendered = render_prompt("2024-01-02", "d", "n", "q", &entries);
    assert_eq!(
        rendered,
        expected_prompt("2024-01-02", "d", "n", "q", "first entry\nsecond entry\nthird")
    );
}

#[test]
fn join_of_nothing_is_empty() {
    let none: Vec<String> = vec![];
    assert_eq!(join_strings(&none, "\n"), "");
}

#[test]
fn join_of_one_has_no_separator() {
    assert_eq!(join_strings(&vec!["only".to_string()], "\n"), "only");
}

#[test]
fn join_of_three() {
    let parts = vec!["a".to_string(), "b".to_string(), "c".to_string()];
    assert_eq!(join_strings(&parts, ","), "a,b,c");
}

#[test]
fn iso_date_is_zero_padded() {
    assert_eq!(Date::new(2024, 3, 7).iso_string(), "2024-03-07");
    assert_eq!(Date::new(987, 12, 31).iso_string(), "0987-12-31");
}

#[test]
fn date_from_parts_bounds() {
    assert!(Date::from_parts(10000, 1, 1).is_none());
    assert!(Date::from_parts(-5, 1, 1).is_none());
    assert!(Date::from_parts(2024, 0, 1).is_none());
    assert!(Date::from_parts(2024, 13, 1).is_none());
    assert!(Date::from_parts(2024, 1, 0).is_none());
    assert!(Date::from_parts(2024, 1, 32).is_none());
    let d = Date::from_parts(2024, 2, 29).unwrap();
    assert_eq!(d.iso_string(), "2024-02-29");
}
