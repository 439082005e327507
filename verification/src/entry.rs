//! Transcript entries, reduced to what the interface's rules read.
use vstd::prelude::*;
use crate::json::{get, lookup, Json};

verus! {

#[derive(Debug, Clone, Copy, PartialEq, Eq, Structural)]
pub enum MessageRole {
    User,
    Assistant,
    System,
}

#[derive(Debug, Clone, Copy, PartialEq, Eq, Structural)]
pub enum MessageStatus {
    Streaming,
    Complete,
    Failed,
}

/// The lifecycle a harness reported for a spawned agent.
#[derive(Debug, Clone, Copy, PartialEq, Eq, Structural)]
pub enum SubagentStatus {
    Running,
    Done,
    Failed,
}

/// One step of the agent's plan.
pub struct TodoItem {
    pub text: String,
    pub done: bool,
}

/// What a tool call does.
pub enum Tool {
    ReadFile,
    Search,
    Glob,
    WebFetch,
    WebSearch,
    WriteFile,
    EditFile,
    ApplyPatch,
    Exec,
    Todo { items: Vec<TodoItem> },
    Mcp { tool: String, input: Option<Json> },
    Unknown { name: String, input: Option<Json> },
}

/// One tool call, with what the protocol layer says of it.
pub struct ToolCall {
    pub tool: Tool,
    /// The call spawns a subagent.
    pub spawn: bool,
    /// The model the spawned agent runs on.
    pub model: Option<String>,
}

/// One tool part of a message.
pub struct ToolPart {
    pub id: String,
    pub call: ToolCall,
    pub is_error: bool,
    pub resolved: bool,
    pub output: Option<String>,
    pub subagent_ref: Option<String>,
    pub subagent_status: Option<SubagentStatus>,
    pub subagent_tail: Option<String>,
}

pub enum MessagePart {
    Text { text: String },
    Tool(ToolPart),
    Other,
}

/// One entry of a transcript; `created_at` in milliseconds.
pub struct SessionMessageEntry {
    pub role: MessageRole,
    pub parts: Vec<MessagePart>,
    pub created_at: i64,
    pub status: Option<MessageStatus>,
}

/// The input a call carries, if its kind has one.
pub open spec fn input_of(tool: Tool) -> Option<Json> {
    match tool {
        Tool::Unknown { name, input } => input,
        Tool::Mcp { tool, input } => input,
        _ => None,
    }
}

/// The member of an input object under a key.
pub open spec fn input_member(input: Option<Json>, key: Seq<char>) -> Option<Json> {
    match input {
        Some(Json::Object(members)) => lookup(members@, key),
        _ => None,
    }
}

pub fn spawn_input(tool: &Tool) -> (r: Option<&Json>)
    ensures
        (match r {
            Some(input) => input_of(*tool) == Some(*input),
            None => input_of(*tool) is None,
        }),
{
    match tool {
        Tool::Unknown { name: _, input } => input.as_ref(),
        Tool::Mcp { tool: _, input } => input.as_ref(),
        _ => None,
    }
}

pub fn member<'a>(input: Option<&'a Json>, key: &str) -> (r: Option<&'a Json>)
    ensures
        ({
            let whole = match input {
                Some(value) => Some(*value),
                None => None,
            };
            match r {
                Some(value) => input_member(whole, key@) == Some(*value),
                None => input_member(whole, key@) is None,
            }
        }),
{
    match input {
        Some(Json::Object(members)) => get(members, key),
        _ => None,
    }
}

} // verus!
