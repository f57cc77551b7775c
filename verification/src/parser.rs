//! The output parser: classifies one raw model continuation as either a
//! terminal final answer or a structured tool call.
use vstd::prelude::*;
use crate::strings::{
    contains_pat, find_first_from, find_last, first_match, first_match_from, last_match,
    lemma_first_match_found, lemma_last_match_complete, lemma_last_match_found, trim_spec,
    trim_start_spec, trim_start_str, trim_str,
};

verus! {

/// The literal marker that announces a final answer.
pub open spec fn final_marker() -> Seq<char> {
    "Final Answer:"@
}

/// The literal marker that opens a tool request.
pub open spec fn action_marker() -> Seq<char> {
    "Action:"@
}

/// The literal marker that opens the tool input.
pub open spec fn action_input_marker() -> Seq<char> {
    "Action Input:"@
}

/// A continuation announces a final answer when the marker occurs anywhere.
pub open spec fn has_final_answer(s: Seq<char>) -> bool {
    contains_pat(s, final_marker())
}

/// The answer text: everything after the last final-answer marker, trimmed.
/// The last occurrence wins, guarding against the marker appearing earlier in
/// restated instructions.
pub open spec fn final_answer_text(s: Seq<char>) -> Seq<char> {
    match last_match(s, final_marker()) {
        Some(i) => trim_spec(s.subrange(i + final_marker().len() as int, s.len() as int)),
        None => Seq::empty(),
    }
}

/// One enclosing bracket pair stripped from a tool name: a single leading
/// `[` and a single trailing `]` are each removed when present.
pub open spec fn strip_brackets(s: Seq<char>) -> Seq<char> {
    let t = if s.len() > 0 && s[0] == '[' {
        s.subrange(1, s.len() as int)
    } else {
        s
    };
    if t.len() > 0 && t[t.len() - 1] == ']' {
        t.subrange(0, t.len() - 1)
    } else {
        t
    }
}

/// The tool name and tool input of a continuation in the action shape, if it
/// has one: the name is the text between the first `Action:` marker and the
/// following `Action Input:` marker, trimmed of surrounding whitespace, with
/// one enclosing bracket pair stripped; the input is everything after the
/// `Action Input:` marker with leading whitespace removed, running to the end
/// of the text so that multi-line inputs carry over.
pub open spec fn tool_call_parts(s: Seq<char>) -> Option<(Seq<char>, Seq<char>)> {
    match first_match(s, action_marker()) {
        None => None,
        Some(i) => {
            let after = i + action_marker().len() as int;
            match first_match_from(s, action_input_marker(), after) {
                None => None,
                Some(j) => Some(
                    (
                        strip_brackets(trim_spec(s.subrange(after, j))),
                        trim_start_spec(
                            s.subrange(j + action_input_marker().len() as int, s.len() as int),
                        ),
                    ),
                ),
            }
        },
    }
}

/// One classified model continuation: either a terminal final answer or a
/// request to call a named tool with a text input.
pub enum ParsedAction {
    FinalAnswer(String),
    ToolCall(String, String),
}

/// The raw continuation matched neither recognized shape; it carries the raw
/// text so that a caller can surface it.
#[derive(Debug)]
pub struct ParseError {
    pub raw: String,
}

/// One enclosing bracket pair stripped from a candidate tool name.
pub fn strip_brackets_str<'a>(s: &'a str) -> (r: &'a str)
    ensures
        r@ == strip_brackets(s@),
{
    let n = s.unicode_len();
    let mut lo: usize = 0;
    let mut hi: usize = n;
    if n > 0 && s.get_char(0) == '[' {
        lo = 1;
    }
    if hi > lo && s.get_char(hi - 1) == ']' {
        hi = hi - 1;
    }
    proof {
        assert(strip_brackets(s@) =~= s@.subrange(lo as int, hi as int));
    }
    s.substring_char(lo, hi)
}

/// Classify one raw continuation. The final-answer shape is tested first;
/// failing both shapes is a model-behaviour violation reported as a
/// recoverable `ParseError`, never a crash.
pub fn parse_action(raw: &str) -> (r: Result<ParsedAction, ParseError>)
    ensures
        (match r {
            Ok(ParsedAction::FinalAnswer(t)) => has_final_answer(raw@) && t@ == final_answer_text(
                raw@,
            ),
            Ok(ParsedAction::ToolCall(name, input)) => !has_final_answer(raw@) && (tool_call_parts(
                raw@,
            ) matches Some(p) && name@ == p.0 && input@ == p.1),
            Err(e) => !has_final_answer(raw@) && tool_call_parts(raw@) is None && e.raw@ == raw@,
        }),
{
    proof {
        reveal_strlit("Final Answer:");
        reveal_strlit("Action:");
        reveal_strlit("Action Input:");
    }
    let n = raw.unicode_len();
    match find_last(raw, "Final Answer:") {
        Some(i) => {
            proof {
                lemma_last_match_found(raw@, final_marker(), raw@.len() - 13, i as int);
            }
            let text = trim_str(raw.substring_char(i + 13, n));
            Ok(ParsedAction::FinalAnswer(String::from_str(text)))
        },
        None => {
            proof {
                lemma_last_match_complete(raw@, final_marker());
            }
            match find_first_from(raw, "Action:", 0) {
                None => Err(ParseError { raw: String::from_str(raw) }),
                Some(i) => {
                    proof {
                        lemma_first_match_found(raw@, action_marker(), 0, i as int);
                    }
                    match find_first_from(raw, "Action Input:", i + 7) {
                        None => Err(ParseError { raw: String::from_str(raw) }),
                        Some(j) => {
                            proof {
                                lemma_first_match_found(
                                    raw@,
                                    action_input_marker(),
                                    i + 7,
                                    j as int,
                                );
                            }
                            let name = strip_brackets_str(trim_str(raw.substring_char(i + 7, j)));
                            let input = trim_start_str(raw.substring_char(j + 13, n));
                            Ok(
                                ParsedAction::ToolCall(
                                    String::from_str(name),
                                    String::from_str(input),
                                ),
                            )
                        },
                    }
                },
            }
        },
    }
}

} // verus!
