//! A verified ReAct-style agent core: prompt construction, model-output
//! parsing, tool dispatch, and the iterate-until-done loop controller. The
//! language-model call and the tools' outside work are collaborators behind
//! narrow boundaries; everything that decides is here, with its contract.

pub mod agent;
pub mod chatllm;
pub mod date;
pub mod hackernews;
pub mod historical_context;
pub mod parser;
pub mod prompt;
pub mod strings;
pub mod tool;
