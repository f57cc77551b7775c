//! The tool boundary: a named capability the loop can invoke with a text
//! input to obtain a text observation.
use vstd::prelude::*;

verus! {

/// A registered tool's own invocation failed; carries its message.
#[derive(Debug)]
pub struct ToolError {
    pub message: String,
}

/// The capability set of a tool: a unique name that serves as the registry
/// lookup key, a model-facing description, and an invocation function.
/// Implementations whose work happens outside the verified core live with
/// the surrounding shell.
pub trait ToolInterface: Sized {
    /// The tool's name, as contracts see it. An implementation outside the
    /// verified core keeps the default, of which nothing is known.
    open spec fn spec_name(&self) -> Seq<char> {
        arbitrary()
    }

    /// The tool's description, as contracts see it.
    open spec fn spec_description(&self) -> Seq<char> {
        arbitrary()
    }

    /// The name, used verbatim as the registry lookup key.
    fn name(&self) -> (r: String)
        ensures
            r@ == self.spec_name(),
    ;

    /// The natural-language description shown in the prompt's tool catalog.
    fn description(&self) -> (r: String)
        ensures
            r@ == self.spec_description(),
    ;

    /// Invoke the tool on a text input; a failure propagates to the caller
    /// without being masked.
    fn use_tool(&self, input_text: &str) -> Result<String, ToolError>;

    /// A tool result labelled with the name of the tool it came from.
    fn format_tool(&self, result: &str) -> (r: String)
        ensures
            r@ == "Result from "@ + self.spec_name() + ": "@ + result@,
    {
        let mut s = String::new();
        s.append("Result from ");
        let nm = self.name();
        s.append(nm.as_str());
        s.append(": ");
        s.append(result);
        s
    }
}

/// A tool with a fixed name, description and reply, whose invocation always
/// succeeds: the stub that exercises the loop without outside services.
pub struct StaticTool {
    pub name: String,
    pub description: String,
    pub reply: String,
}

impl StaticTool {
    /// Build a stub tool that always replies with `reply`.
    pub fn new(name: String, description: String, reply: String) -> (r: StaticTool)
        ensures
            r.name == name,
            r.description == description,
            r.reply == reply,
    {
        StaticTool { name, description, reply }
    }
}

impl ToolInterface for StaticTool {
    open spec fn spec_name(&self) -> Seq<char> {
        self.name@
    }

    open spec fn spec_description(&self) -> Seq<char> {
        self.description@
    }

    fn name(&self) -> (r: String) {
        self.name.clone()
    }

    fn description(&self) -> (r: String) {
        self.description.clone()
    }

    fn use_tool(&self, input_text: &str) -> (r: Result<String, ToolError>)
        ensures
            (r matches Ok(o) && o@ == self.reply@),
    {
        Ok(self.reply.clone())
    }
}

/// A tool whose invocation always fails with a fixed message: the stub that
/// exercises the loop's tool-failure path.
pub struct FailingTool {
    pub name: String,
    pub description: String,
    pub message: String,
}

impl FailingTool {
    /// Build a stub tool that always fails with `message`.
    pub fn new(name: String, description: String, message: String) -> (r: FailingTool)
        ensures
            r.name == name,
            r.description == description,
            r.message == message,
    {
        FailingTool { name, description, message }
    }
}

impl ToolInterface for FailingTool {
    open spec fn spec_name(&self) -> Seq<char> {
        self.name@
    }

    open spec fn spec_description(&self) -> Seq<char> {
        self.description@
    }

    fn name(&self) -> (r: String) {
        self.name.clone()
    }

    fn description(&self) -> (r: String) {
        self.description.clone()
    }

    fn use_tool(&self, input_text: &str) -> (r: Result<String, ToolError>)
        ensures
            (r matches Err(e) && e.message@ == self.message@),
    {
        Err(ToolError { message: self.message.clone() })
    }
}

} // verus!
