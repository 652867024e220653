//! The two message forms of the protocol and the closed type that holds a
//! message proven to be in one of them.

use vstd::prelude::*;

use crate::json::JsonValue;

verus! {

/// Body of a text message.
#[derive(Debug, PartialEq, Eq)]
pub struct MessageContent {
    pub content: String,
}

/// A text message: `{"message": {"content": ..}}`.
#[derive(Debug, PartialEq, Eq)]
pub struct MessageForm {
    pub message: MessageContent,
}

/// Arguments of a tool invocation.
#[derive(Debug, PartialEq, Eq)]
pub struct ToolCallArgs {
    pub args: JsonValue,
}

/// Body of a tool invocation: the tool's name and its arguments.
#[derive(Debug, PartialEq, Eq)]
pub struct ToolCallForm {
    pub tool: String,
    pub args: JsonValue,
}

/// A tool invocation: `{"tool_call": {"tool": .., "args": {..}}}`.
#[derive(Debug, PartialEq, Eq)]
pub struct ToolCallWrapper {
    pub tool_call: ToolCallForm,
}

/// A message that has been validated: exactly one of the two forms.
#[derive(Debug, PartialEq, Eq)]
pub enum ProtocolOutput {
    Message(MessageForm),
    ToolCall(ToolCallWrapper),
}

/// `j` is the canonical JSON of `out`: one top-level member naming the form,
/// whose value holds the form's fields in their usual order and nothing else.
pub open spec fn wire_form(j: JsonValue, out: ProtocolOutput) -> bool {
    &&& j matches JsonValue::Object(top)
    &&& top@.len() == 1
    &&& match out {
        ProtocolOutput::Message(m) => {
            &&& top@[0].0@ == "message"@
            &&& top@[0].1 matches JsonValue::Object(body)
            &&& body@.len() == 1
            &&& body@[0].0@ == "content"@
            &&& body@[0].1 == JsonValue::Str(m.message.content)
        },
        ProtocolOutput::ToolCall(t) => {
            &&& top@[0].0@ == "tool_call"@
            &&& top@[0].1 matches JsonValue::Object(body)
            &&& body@.len() == 2
            &&& body@[0].0@ == "tool"@
            &&& body@[0].1 == JsonValue::Str(t.tool_call.tool)
            &&& body@[1].0@ == "args"@
            &&& body@[1].1 == t.tool_call.args
        },
    }
}

impl ProtocolOutput {
    /// What every validated message satisfies: a non-empty content, or a
    /// non-empty tool name with object arguments.
    pub open spec fn wf(&self) -> bool {
        match self {
            ProtocolOutput::Message(m) => m.message.content@.len() > 0,
            ProtocolOutput::ToolCall(t) => t.tool_call.tool@.len() > 0 && t.tool_call.args is Object,
        }
    }

    pub fn is_message(&self) -> (r: bool)
        ensures
            r == (self is Message),
    {
        match self {
            ProtocolOutput::Message(_) => true,
            ProtocolOutput::ToolCall(_) => false,
        }
    }

    pub fn is_tool_call(&self) -> (r: bool)
        ensures
            r == (self is ToolCall),
    {
        match self {
            ProtocolOutput::Message(_) => false,
            ProtocolOutput::ToolCall(_) => true,
        }
    }

    /// The content of a text message; `None` for a tool invocation.
    pub fn into_message(self) -> (r: Option<String>)
        ensures
            match self {
                ProtocolOutput::Message(m) => r == Some(m.message.content),
                ProtocolOutput::ToolCall(_) => r is None,
            },
    {
        match self {
            ProtocolOutput::Message(m) => Some(m.message.content),
            ProtocolOutput::ToolCall(_) => None,
        }
    }

    /// The tool's name and arguments of a tool invocation; `None` for a text
    /// message.
    pub fn into_tool_call(self) -> (r: Option<(String, JsonValue)>)
        ensures
            match self {
                ProtocolOutput::Message(_) => r is None,
                ProtocolOutput::ToolCall(t) => r == Some((t.tool_call.tool, t.tool_call.args)),
            },
    {
        match self {
            ProtocolOutput::Message(_) => None,
            ProtocolOutput::ToolCall(t) => Some((t.tool_call.tool, t.tool_call.args)),
        }
    }

    /// The message in its canonical wire shape.
    pub fn into_json(self) -> (r: JsonValue)
        ensures
            wire_form(r, self),
    {
        match self {
            ProtocolOutput::Message(m) => {
                let body = vec![(String::from_str("content"), JsonValue::Str(m.message.content))];
                JsonValue::Object(vec![(String::from_str("message"), JsonValue::Object(body))])
            },
            ProtocolOutput::ToolCall(t) => {
                let body = vec![
                    (String::from_str("tool"), JsonValue::Str(t.tool_call.tool)),
                    (String::from_str("args"), t.tool_call.args),
                ];
                JsonValue::Object(vec![(String::from_str("tool_call"), JsonValue::Object(body))])
            },
        }
    }
}

} // verus!
