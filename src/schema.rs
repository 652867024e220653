//! The two message forms, written as JSON Schema documents for readers and
//! for other tools. The validator does not read them.

use vstd::prelude::*;

verus! {

/// Schema of the text-message form.
pub const MESSAGE_SCHEMA: &'static str = "{\"type\":\"object\",\"properties\":{\"message\":{\"type\":\"object\",\"properties\":{\"content\":{\"type\":\"string\"}},\"required\":[\"content\"]}},\"required\":[\"message\"]}";

/// Schema of the tool-invocation form.
pub const TOOL_CALL_SCHEMA: &'static str = "{\"type\":\"object\",\"properties\":{\"tool_call\":{\"type\":\"object\",\"properties\":{\"tool\":{\"type\":\"string\"},\"args\":{\"type\":\"object\"}},\"required\":[\"tool\",\"args\"]}},\"required\":[\"tool_call\"]}";

} // verus!
