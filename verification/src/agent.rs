//! The loop controller: owns the iterate-until-done state machine. Each
//! iteration renders the prompt around the transcript so far, requests a
//! completion, classifies it, dispatches the requested tool, and appends the
//! observation; the run ends with an answer, an exhausted budget, or a
//! failure carrying its cause.
use vstd::prelude::*;
use crate::chatllm::{CompletionClient, CompletionError};
use crate::date::current_date;
use crate::parser::{
    ParseError, ParsedAction, parse_action, has_final_answer, final_answer_text, tool_call_parts,
};
use crate::prompt::{join_with, lemma_join_push, render_prompt};
use crate::strings::str_eq;
use crate::tool::{ToolError, ToolInterface};

verus! {

/// Why a model response ended, as the completion API reports it.
pub enum FinishReason {
    /// The API returned complete model output.
    Stop,
    /// Incomplete model output due to a token limit.
    Length,
    /// Content was omitted due to a content filter.
    ContentFilter,
    /// The API response is still in progress or incomplete.
    Null,
}

impl FinishReason {
    /// Classify a finish-reason string; unknown strings are reported back.
    pub fn from_str(s: &str) -> (r: Result<FinishReason, String>)
        ensures
            (match r {
                Ok(FinishReason::Stop) => s@ == "stop"@,
                Ok(FinishReason::Length) => s@ == "length"@,
                Ok(FinishReason::ContentFilter) => s@ == "content filter"@,
                Ok(FinishReason::Null) => s@ == "null"@,
                Err(m) => s@ != "stop"@ && s@ != "length"@ && s@ != "content filter"@ && s@
                    != "null"@ && m@ == "Unknown finish reason: "@ + s@,
            }),
    {
        if str_eq(s, "stop") {
            Ok(FinishReason::Stop)
        } else if str_eq(s, "length") {
            Ok(FinishReason::Length)
        } else if str_eq(s, "content filter") {
            Ok(FinishReason::ContentFilter)
        } else if str_eq(s, "null") {
            Ok(FinishReason::Null)
        } else {
            let msg = String::from_str("Unknown finish reason: ");
            Err(msg.concat(s))
        }
    }
}

/// Everything that can end a run without an answer: the upstream completion
/// call failed, the continuation matched neither shape, the model named a
/// tool absent from the registry, or a registered tool's invocation failed.
pub enum AgentError {
    Completion(CompletionError),
    Parse(ParseError),
    UnknownTool(String),
    Tool(ToolError),
}

/// The result of one full loop execution. Exhausting the iteration budget is
/// a normal outcome, distinct from failure.
pub enum RunOutcome {
    Answer(String),
    Exhausted,
    Failure(AgentError),
}

/// The line the tool catalog shows for one tool.
pub open spec fn catalog_line<T: ToolInterface>(t: T) -> Seq<char> {
    t.spec_name() + ": "@ + t.spec_description()
}

/// The tool catalog: one `name: description` line per tool, in catalog order.
pub open spec fn catalog_spec<T: ToolInterface>(tools: Seq<T>) -> Seq<char> {
    join_with(tools.map_values(|t: T| catalog_line(t)), "\n"@)
}

/// The tool-name list: the names in catalog order, comma-joined.
pub open spec fn names_spec<T: ToolInterface>(tools: Seq<T>) -> Seq<char> {
    join_with(tools.map_values(|t: T| t.spec_name()), ","@)
}

/// One transcript entry: the raw continuation, the observation marker and the
/// tool result, then the thought marker priming the next completion.
pub open spec fn entry_spec(generated: Seq<char>, tool_result: Seq<char>) -> Seq<char> {
    generated + "\n"@ + "Observation:"@ + " "@ + tool_result + "\n"@ + "Thought:"@
}

/// Compose the transcript entry appended after one successful tool call.
pub fn compose_entry(generated: &str, tool_result: &str) -> (r: String)
    ensures
        r@ == entry_spec(generated@, tool_result@),
{
    let mut s = String::new();
    s.append(generated);
    s.append("\n");
    s.append("Observation:");
    s.append(" ");
    s.append(tool_result);
    s.append("\n");
    s.append("Thought:");
    s
}

/// Classify one completion outcome. A failed call carries its error; a
/// continuation in one of the two recognized shapes comes back classified
/// beside its raw text; and a continuation matching neither shape yields the
/// parse failure carrying that text — the run's `Failed` path, never a crash.
pub fn classify_completion(outcome: Result<String, CompletionError>) -> (r: Result<
    (String, ParsedAction),
    AgentError,
>)
    ensures
        (outcome matches Err(e) ==> (r matches Err(AgentError::Completion(c)) && c == e)),
        (outcome matches Ok(raw) ==> (match r {
            Ok((echoed, act)) => echoed == raw && (match act {
                ParsedAction::FinalAnswer(t) => has_final_answer(raw@) && t@ == final_answer_text(
                    raw@,
                ),
                ParsedAction::ToolCall(n, i) => !has_final_answer(raw@) && (tool_call_parts(raw@)
                    matches Some(p) && n@ == p.0 && i@ == p.1),
            }),
            Err(AgentError::Parse(e)) => !has_final_answer(raw@) && tool_call_parts(raw@) is None
                && e.raw@ == raw@,
            Err(_) => false,
        })),
{
    match outcome {
        Err(e) => Err(AgentError::Completion(e)),
        Ok(raw) => match parse_action(raw.as_str()) {
            Ok(act) => Ok((raw, act)),
            Err(pe) => Err(AgentError::Parse(pe)),
        },
    }
}

/// The agent: a completion client, the tool registry, and the loop budget.
pub struct Agent<C, T> {
    pub llm: C,
    pub tools: Vec<T>,
    pub max_loops: usize,
    pub stop_pattern: Option<Vec<String>>,
}

impl<C: CompletionClient, T: ToolInterface> Agent<C, T> {
    /// A well-formed agent has a positive loop budget and no two tools
    /// sharing a name.
    pub open spec fn wf(&self) -> bool {
        &&& self.max_loops >= 1
        &&& forall|i: int, j: int|
            0 <= i < j < self.tools@.len() ==> self.tools@[i].spec_name()
                != self.tools@[j].spec_name()
    }

    /// An agent over the given client and tools, with the default budget of
    /// ten iterations and no stop sequences.
    pub fn new(llm: C, tools: Vec<T>) -> (r: Agent<C, T>)
        requires
            forall|i: int, j: int|
                0 <= i < j < tools@.len() ==> tools@[i].spec_name() != tools@[j].spec_name(),
        ensures
            r.llm == llm,
            r.tools == tools,
            r.max_loops == 10,
            r.stop_pattern is None,
            r.wf(),
    {
        Agent { llm, tools, max_loops: 10, stop_pattern: None }
    }

    /// An agent with an explicit loop budget and stop sequences.
    pub fn with_config(
        llm: C,
        tools: Vec<T>,
        max_loops: usize,
        stop_pattern: Option<Vec<String>>,
    ) -> (r: Agent<C, T>)
        requires
            max_loops >= 1,
            forall|i: int, j: int|
                0 <= i < j < tools@.len() ==> tools@[i].spec_name() != tools@[j].spec_name(),
        ensures
            r.llm == llm,
            r.tools == tools,
            r.max_loops == max_loops,
            r.stop_pattern == stop_pattern,
            r.wf(),
    {
        Agent { llm, tools, max_loops, stop_pattern }
    }

    /// The prompt's tool catalog: one `name: description` line per tool.
    pub fn tool_description(&self) -> (r: String)
        ensures
            r@ == catalog_spec(self.tools@),
    {
        let ghost lines = self.tools@.map_values(|t: T| catalog_line(t));
        let mut acc = String::new();
        let mut k: usize = 0;
        while k < self.tools.len()
            invariant
                k <= self.tools@.len(),
                lines == self.tools@.map_values(|t: T| catalog_line(t)),
                lines.len() == self.tools@.len(),
                acc@ == join_with(lines.take(k as int), "\n"@),
            decreases self.tools@.len() - k,
        {
            if k > 0 {
                acc.append("\n");
            }
            let nm = self.tools[k].name();
            acc.append(nm.as_str());
            acc.append(": ");
            let d = self.tools[k].description();
            acc.append(d.as_str());
            proof {
                lemma_join_push(lines.take(k as int), "\n"@, lines[k as int]);
                assert(lines.take(k + 1) =~= lines.take(k as int).push(lines[k as int]));
                assert(acc@ =~= join_with(lines.take(k + 1), "\n"@));
            }
            k += 1;
        }
        proof {
            assert(lines.take(self.tools@.len() as int) =~= lines);
        }
        acc
    }

    /// The prompt's tool-name list: the names, comma-joined.
    pub fn tool_names(&self) -> (r: String)
        ensures
            r@ == names_spec(self.tools@),
    {
        let ghost names = self.tools@.map_values(|t: T| t.spec_name());
        let mut acc = String::new();
        let mut k: usize = 0;
        while k < self.tools.len()
            invariant
                k <= self.tools@.len(),
                names == self.tools@.map_values(|t: T| t.spec_name()),
                names.len() == self.tools@.len(),
                acc@ == join_with(names.take(k as int), ","@),
            decreases self.tools@.len() - k,
        {
            if k > 0 {
                acc.append(",");
            }
            let nm = self.tools[k].name();
            acc.append(nm.as_str());
            proof {
                lemma_join_push(names.take(k as int), ","@, names[k as int]);
                assert(names.take(k + 1) =~= names.take(k as int).push(names[k as int]));
                assert(acc@ =~= join_with(names.take(k + 1), ","@));
            }
            k += 1;
        }
        proof {
            assert(names.take(self.tools@.len() as int) =~= names);
        }
        acc
    }

    /// Look a requested tool name up in the registry: an exact, case-sensitive
    /// match against the registered names, the first match winning.
    pub fn find_tool(&self, name: &String) -> (r: Option<usize>)
        ensures
            (match r {
                Some(i) => i < self.tools@.len() && self.tools@[i as int].spec_name() == name@
                    && forall|j: int| 0 <= j < i ==> self.tools@[j].spec_name() != name@,
                None => forall|j: int|
                    0 <= j < self.tools@.len() ==> self.tools@[j].spec_name() != name@,
            }),
    {
        let mut k: usize = 0;
        while k < self.tools.len()
            invariant
                k <= self.tools@.len(),
                forall|j: int| 0 <= j < k ==> self.tools@[j].spec_name() != name@,
            decreases self.tools@.len() - k,
        {
            let nm = self.tools[k].name();
            if nm.eq(name) {
                return Some(k);
            }
            k += 1;
        }
        None
    }

    /// Request one completion and classify it. On success the raw
    /// continuation is returned beside its classification; a completion
    /// failure or an unparsable continuation becomes the corresponding error.
    pub fn decide_next_action(&mut self, prompt: &str) -> (r: Result<
        (String, ParsedAction),
        AgentError,
    >)
        ensures
            final(self).tools == old(self).tools,
            final(self).max_loops == old(self).max_loops,
            final(self).stop_pattern == old(self).stop_pattern,
            (match r {
                Ok((raw, act)) => match act {
                    ParsedAction::FinalAnswer(t) => has_final_answer(raw@) && t@
                        == final_answer_text(raw@),
                    ParsedAction::ToolCall(n, i) => !has_final_answer(raw@) && (tool_call_parts(
                        raw@,
                    ) matches Some(p) && n@ == p.0 && i@ == p.1),
                },
                Err(AgentError::Completion(_)) => true,
                Err(AgentError::Parse(e)) => !has_final_answer(e.raw@) && tool_call_parts(e.raw@)
                    is None,
                Err(_) => false,
            }),
    {
        let outcome = self.llm.complete(prompt, &self.stop_pattern);
        classify_completion(outcome)
    }

    /// Run the loop on a question until it yields a final answer, a failure,
    /// or the iteration budget is exhausted. Each iteration's prompt embeds
    /// exactly the transcript entries of the earlier iterations, in order.
    pub fn run(&mut self, question: &str) -> (r: RunOutcome)
        requires
            old(self).wf(),
        ensures
            final(self).wf(),
            final(self).tools == old(self).tools,
            final(self).max_loops == old(self).max_loops,
            final(self).stop_pattern == old(self).stop_pattern,
            (r matches RunOutcome::Failure(AgentError::UnknownTool(n)) ==> forall|j: int|
                0 <= j < old(self).tools@.len() ==> old(self).tools@[j].spec_name() != n@),
            (r matches RunOutcome::Failure(AgentError::Parse(e)) ==> !has_final_answer(e.raw@)
                && tool_call_parts(e.raw@) is None),
    {
        let today = current_date().iso_string();
        let desc = self.tool_description();
        let names = self.tool_names();
        let mut transcript: Vec<String> = Vec::new();
        let mut num_loops: usize = 0;
        while num_loops < self.max_loops
            invariant
                self.wf(),
                self.tools == old(self).tools,
                self.max_loops == old(self).max_loops,
                self.stop_pattern == old(self).stop_pattern,
                num_loops <= self.max_loops,
            decreases self.max_loops - num_loops,
        {
            num_loops += 1;
            let prompt = render_prompt(
                today.as_str(),
                desc.as_str(),
                names.as_str(),
                question,
                &transcript,
            );
            match self.decide_next_action(prompt.as_str()) {
                Err(e) => {
                    return RunOutcome::Failure(e);
                },
                Ok((raw, ParsedAction::FinalAnswer(text))) => {
                    return RunOutcome::Answer(text);
                },
                Ok((raw, ParsedAction::ToolCall(tool_name, tool_input))) => {
                    match self.find_tool(&tool_name) {
                        None => {
                            return RunOutcome::Failure(AgentError::UnknownTool(tool_name));
                        },
                        Some(idx) => {
                            match self.tools[idx].use_tool(tool_input.as_str()) {
                                Err(te) => {
                                    return RunOutcome::Failure(AgentError::Tool(te));
                                },
                                Ok(observation) => {
                                    let entry = compose_entry(raw.as_str(), observation.as_str());
                                    transcript.push(entry);
                                },
                            }
                        },
                    }
                },
            }
        }
        RunOutcome::Exhausted
    }
}

} // verus!
