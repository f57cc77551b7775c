//! The completion boundary: one blocking request/response exchange with a
//! language model, treated as an opaque collaborator, plus the scripted stub
//! it is exercised with and the code-span selection applied to continuations.
use vstd::prelude::*;
use crate::strings::{
    find_first_from, first_match, first_match_from, lemma_first_match_found,
};

verus! {

/// The upstream model call failed or returned a non-success status.
#[derive(Debug)]
pub struct CompletionError {
    pub message: String,
}

/// One blocking request/response exchange with a language model given a
/// rendered prompt and optional stop sequences; no implicit state is retained
/// between calls.
pub trait CompletionClient: Sized {
    /// Request one continuation of `prompt`.
    fn complete(&mut self, prompt: &str, stop: &Option<Vec<String>>) -> Result<
        String,
        CompletionError,
    >;
}

/// The live chat-model client. It holds the credential injected at
/// construction; the network exchange itself lives with the surrounding
/// shell, outside the verified core.
pub struct ChatLLM {
    pub api_key: String,
}

impl ChatLLM {
    /// A client configured with the given credential.
    pub fn new(api_key: String) -> (r: ChatLLM)
        ensures
            r.api_key == api_key,
    {
        ChatLLM { api_key }
    }

    /// The credential this client was configured with.
    pub fn key(&self) -> (r: &String)
        ensures
            r == &self.api_key,
    {
        &self.api_key
    }
}

/// A message sent to the chat model.
pub struct Message {
    pub role: String,
    pub content: String,
}

impl Message {
    /// A message carrying the user role.
    pub fn user(content: String) -> (r: Message)
        ensures
            r.role@ == "user"@,
            r.content == content,
    {
        Message { role: String::from_str("user"), content }
    }
}

/// A scripted completion client: replays a fixed list of outcomes in order,
/// counts the calls made, and fails once the script is exhausted. This is the
/// stub that exercises the loop without a live model.
pub struct ScriptedClient {
    pub script: Vec<Result<String, CompletionError>>,
    pub served: usize,
}

impl ScriptedClient {
    /// A client that will serve `script` front to back.
    pub fn new(script: Vec<Result<String, CompletionError>>) -> (r: ScriptedClient)
        ensures
            r.script == script,
            r.served == 0,
    {
        ScriptedClient { script, served: 0 }
    }

    /// How many completions have been requested of this client.
    pub fn calls_made(&self) -> (r: usize)
        ensures
            r == self.served,
    {
        self.served
    }
}

impl CompletionClient for ScriptedClient {
    fn complete(&mut self, prompt: &str, stop: &Option<Vec<String>>) -> (r: Result<
        String,
        CompletionError,
    >)
        ensures
            final(self).served == old(self).served + 1 || old(self).served == usize::MAX,
            old(self).script.len() > 0 ==> final(self).script@ == old(self).script@.drop_first()
                && r == old(self).script@[0],
            old(self).script.len() == 0 ==> final(self).script == old(self).script && r is Err,
    {
        if self.served < usize::MAX {
            self.served = self.served + 1;
        }
        if self.script.len() > 0 {
            self.script.remove(0)
        } else {
            let mut msg = String::new();
            msg.append("script exhausted");
            Err(CompletionError { message: msg })
        }
    }
}

/// The span selected from a continuation when code parsing is on: the text
/// between the first pair of triple-backtick fences, everything after the
/// first fence when it is unclosed, or the whole text when there is none.
pub open spec fn code_span(s: Seq<char>) -> Seq<char> {
    match first_match(s, "```"@) {
        None => s,
        Some(i) => {
            let start = i + "```"@.len() as int;
            match first_match_from(s, "```"@, start) {
                None => s.subrange(start, s.len() as int),
                Some(j) => s.subrange(start, j),
            }
        },
    }
}

/// Select the code span of a continuation when `parse_code` is on; otherwise
/// hand the continuation back unchanged.
pub fn extract_code_block(response: &str, parse_code: bool) -> (r: String)
    ensures
        parse_code ==> r@ == code_span(response@),
        !parse_code ==> r@ == response@,
{
    if !parse_code {
        return String::from_str(response);
    }
    proof {
        reveal_strlit("```");
    }
    let n = response.unicode_len();
    match find_first_from(response, "```", 0) {
        None => String::from_str(response),
        Some(i) => {
            proof {
                lemma_first_match_found(response@, "```"@, 0, i as int);
            }
            match find_first_from(response, "```", i + 3) {
                None => String::from_str(response.substring_char(i + 3, n)),
                Some(j) => {
                    proof {
                        lemma_first_match_found(response@, "```"@, i + 3, j as int);
                    }
                    String::from_str(response.substring_char(i + 3, j))
                },
            }
        },
    }
}

} // verus!
