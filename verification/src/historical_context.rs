//! A conversation context: the questions already asked, in order, and the
//! question currently in flight with its answer once one arrives.
use vstd::prelude::*;

verus! {

/// One exchange: a question and, once available, its answer.
pub struct Message {
    pub question: String,
    pub answer: Option<String>,
}

impl Message {
    /// A fresh exchange whose answer has not arrived yet.
    pub fn new(question: String) -> (r: Message)
        ensures
            r.question == question,
            r.answer is None,
    {
        Message { question, answer: None }
    }
}

/// The finished exchanges, oldest first, append-only.
pub struct MessageHistory(pub Vec<Message>);

impl MessageHistory {
    /// An empty history.
    pub fn new() -> (r: MessageHistory)
        ensures
            r.0@ =~= Seq::<Message>::empty(),
    {
        MessageHistory(Vec::new())
    }
}

/// A conversation context: the finished exchanges and the exchange in flight.
pub struct Context {
    pub messages: MessageHistory,
    pub current_message: Option<Message>,
}

impl Context {
    /// A context with no history and nothing in flight.
    pub fn new() -> (r: Context)
        ensures
            r.messages.0@ =~= Seq::<Message>::empty(),
            r.current_message is None,
    {
        Context { messages: MessageHistory::new(), current_message: None }
    }

    /// Open a new exchange: the exchange in flight, if any, moves to the end
    /// of the history, and the question becomes the one in flight, unanswered.
    pub fn ask(&mut self, question: String)
        ensures
            (final(self).current_message matches Some(m) && m.question == question && m.answer
                is None),
            (match old(self).current_message {
                Some(prev) => final(self).messages.0@ == old(self).messages.0@.push(prev),
                None => final(self).messages.0@ == old(self).messages.0@,
            }),
    {
        let prev = self.current_message.take();
        match prev {
            Some(message) => self.messages.0.push(message),
            None => (),
        }
        self.current_message = Some(Message { question, answer: None });
    }

    /// The answer of the exchange in flight, if both exist; the context is
    /// left unchanged.
    pub fn get_answer(&mut self) -> (r: Option<String>)
        ensures
            *final(self) == *old(self),
            r == (match old(self).current_message {
                Some(m) => m.answer,
                None => None::<String>,
            }),
    {
        match &self.current_message {
            Some(message) => match &message.answer {
                Some(answer) => Some(answer.clone()),
                None => None,
            },
            None => None,
        }
    }
}

} // verus!
