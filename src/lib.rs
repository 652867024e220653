//! Validation of the messages exchanged between an agent runtime and its
//! tool-execution layer.
//!
//! A message is a JSON object holding exactly one of two forms: a text
//! message `{"message": {"content": ..}}` or a tool invocation
//! `{"tool_call": {"tool": .., "args": {..}}}`. The validator turns a JSON
//! value into a [`ProtocolOutput`] or says precisely why it cannot.

pub mod guarantees;
pub mod json;
pub mod message;

pub mod schema;
pub mod validation;


pub use json::JsonValue;
pub use message::{MessageContent, MessageForm, ProtocolOutput, ToolCallArgs, ToolCallForm, ToolCallWrapper};
pub use validation::{Field, ValidationError, Validator};


