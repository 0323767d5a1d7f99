//! Tools offered to the assistant and their results.

use vstd::prelude::*;
use crate::text::owned;

verus! {

/// The JSON schema of a tool's input.
#[derive(Debug)]
pub struct InputSchema {
    pub json: serde_json::Value,
}

/// A tool's name, description and input schema.
#[derive(Debug)]
pub struct ToolSpecification {
    pub name: String,
    pub description: String,
    pub input_schema: InputSchema,
}

/// A tool offered to the assistant.
#[derive(Debug)]
pub struct ToolDefinition {
    pub tool_specification: ToolSpecification,
}

/// One text part of a tool result.
#[derive(Debug, Clone)]
pub struct ToolResultContent {
    pub text: String,
}

/// The result of running a tool, sent back to the assistant.
#[derive(Debug, Clone)]
pub struct ToolResult {
    pub tool_use_id: String,
    pub content: Vec<ToolResultContent>,
    pub status: String,
}

/// A piece of a tool call streamed by the assistant. `input` holds the
/// piece's input when it is a JSON string (the form in which the service
/// streams it), `None` otherwise.
#[derive(Debug, Clone)]
pub struct ToolUseEvent {
    pub tool_use_id: String,
    pub name: String,
    pub input: Option<String>,
    pub stop: bool,
}

impl ToolDefinition {
    /// A tool with the given name, description and input schema.
    pub fn new(name: String, description: String, input_schema: serde_json::Value) -> (t: Self)
        ensures
            t.tool_specification.name == name,
            t.tool_specification.description == description,
            t.tool_specification.input_schema.json == input_schema,
    {
        ToolDefinition {
            tool_specification: ToolSpecification {
                name,
                description,
                input_schema: InputSchema { json: input_schema },
            },
        }
    }
}

impl ToolResult {
    /// A successful result with one text part.
    pub fn success(tool_use_id: String, text: String) -> (r: Self)
        ensures
            r.tool_use_id == tool_use_id,
            r.content@.len() == 1,
            r.content@[0].text == text,
            r.status@ == "success"@,
    {
        ToolResult { tool_use_id, content: vec![ToolResultContent { text }], status: owned("success") }
    }

    /// A failed result with one text part.
    pub fn error(tool_use_id: String, text: String) -> (r: Self)
        ensures
            r.tool_use_id == tool_use_id,
            r.content@.len() == 1,
            r.content@[0].text == text,
            r.status@ == "error"@,
    {
        ToolResult { tool_use_id, content: vec![ToolResultContent { text }], status: owned("error") }
    }
}

} // verus!
