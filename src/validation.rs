//! The validator: the decision procedure from a JSON value to a message of
//! one of the two forms, or to the first rule that the value breaks.

use vstd::prelude::*;

use crate::json::{find_member, member, JsonValue};
use crate::message::{MessageContent, MessageForm, ProtocolOutput, ToolCallForm, ToolCallWrapper};

verus! {

/// A place in a message that an error points to.
#[derive(Debug, Clone, Copy, PartialEq, Eq)]
pub enum Field {
    /// The message itself.
    Root,
    Message,
    MessageContent,
    ToolCall,
    ToolCallTool,
    ToolCallArgs,
}

impl Field {
    pub open spec fn spec_path(self) -> Seq<char> {
        match self {
            Field::Root => ""@,
            Field::Message => "message"@,
            Field::MessageContent => "message.content"@,
            Field::ToolCall => "tool_call"@,
            Field::ToolCallTool => "tool_call.tool"@,
            Field::ToolCallArgs => "tool_call.args"@,
        }
    }

    /// Dotted path of the field; empty for the message itself.
    pub fn path(&self) -> (r: &'static str)
        ensures
            r@ == self.spec_path(),
    {
        match self {
            Field::Root => "",
            Field::Message => "message",
            Field::MessageContent => "message.content",
            Field::ToolCall => "tool_call",
            Field::ToolCallTool => "tool_call.tool",
            Field::ToolCallArgs => "tool_call.args",
        }
    }
}

/// Why a message was rejected.
#[derive(Debug, PartialEq, Eq)]
pub enum ValidationError {
    /// The text is not JSON.
    MalformedInput,
    /// The value at this place is not a JSON object.
    NotAnObject(Field),
    /// Both forms are present (`both`), or neither is.
    ExclusivityViolation { both: bool },
    /// A top-level member outside the two forms, with its key.
    UnknownField(String),
    /// A required field is absent.
    MissingField(Field),
    /// A required field has the wrong JSON type.
    InvalidFieldType(Field),
    /// A string field that must not be empty is empty.
    EmptyValue(Field),
}

impl ValidationError {
    pub open spec fn spec_description(&self) -> Seq<char> {
        match self {
            ValidationError::MalformedInput => "invalid JSON"@,
            ValidationError::NotAnObject(field) => match field {
                Field::Root => "protocol violation: a message must be a JSON object"@,
                _ => "protocol violation: "@ + field.spec_path() + " must be an object"@,
            },
            ValidationError::ExclusivityViolation { both } => if *both {
                "protocol violation: exactly one of message or tool_call, not both"@
            } else {
                "protocol violation: either message or tool_call required"@
            },
            ValidationError::UnknownField(key) => "unknown field: "@ + key@,
            ValidationError::MissingField(field) => "missing required field: "@ + field.spec_path(),
            ValidationError::InvalidFieldType(field) => "invalid field type: "@ + field.spec_path(),
            ValidationError::EmptyValue(field) => "protocol violation: "@ + field.spec_path() + " must not be empty"@,
        }
    }

    /// A description of the error for people to read.
    pub fn description(&self) -> (r: String)
        ensures
            r@ == self.spec_description(),
    {
        match self {
            ValidationError::MalformedInput => String::from_str("invalid JSON"),
            ValidationError::NotAnObject(field) => match field {
                Field::Root => String::from_str("protocol violation: a message must be a JSON object"),
                _ => {
                    let mut r = String::from_str("protocol violation: ");
                    r.append(field.path());
                    r.append(" must be an object");
                    r
                },
            },
            ValidationError::ExclusivityViolation { both } => if *both {
                String::from_str("protocol violation: exactly one of message or tool_call, not both")
            } else {
                String::from_str("protocol violation: either message or tool_call required")
            },
            ValidationError::UnknownField(key) => {
                let mut r = String::from_str("unknown field: ");
                r.append(key.as_str());
                r
            },
            ValidationError::MissingField(field) => {
                let mut r = String::from_str("missing required field: ");
                r.append(field.path());
                r
            },
            ValidationError::InvalidFieldType(field) => {
                let mut r = String::from_str("invalid field type: ");
                r.append(field.path());
                r
            },
            ValidationError::EmptyValue(field) => {
                let mut r = String::from_str("protocol violation: ");
                r.append(field.path());
                r.append(" must not be empty");
                r
            },
        }
    }
}

/// The top-level keys that a message may hold.
pub open spec fn is_known_field(key: Seq<char>) -> bool {
    key == "message"@ || key == "tool_call"@
}

/// The key of the first member of `members` that is not a known field.
pub open spec fn first_unknown(members: Seq<(String, JsonValue)>) -> Option<String>
    decreases members.len(),
{
    if members.len() == 0 {
        None
    } else if !is_known_field(members[0].0@) {
        Some(members[0].0)
    } else {
        first_unknown(members.drop_first())
    }
}

/// Outcome of the text-message form, given the value under `"message"`.
pub open spec fn message_outcome(message: JsonValue) -> Result<ProtocolOutput, ValidationError> {
    match message {
        JsonValue::Object(fields) => match member(fields@, "content"@) {
            None => Err(ValidationError::MissingField(Field::MessageContent)),
            Some(JsonValue::Str(content)) => if content@.len() == 0 {
                Err(ValidationError::EmptyValue(Field::MessageContent))
            } else {
                Ok(ProtocolOutput::Message(MessageForm { message: MessageContent { content } }))
            },
            Some(_) => Err(ValidationError::InvalidFieldType(Field::MessageContent)),
        },
        _ => Err(ValidationError::NotAnObject(Field::Message)),
    }
}

/// Outcome of the tool-invocation form, given the value under `"tool_call"`.
pub open spec fn tool_call_outcome(tool_call: JsonValue) -> Result<ProtocolOutput, ValidationError> {
    match tool_call {
        JsonValue::Object(fields) => match member(fields@, "tool"@) {
            None => Err(ValidationError::MissingField(Field::ToolCallTool)),
            Some(JsonValue::Str(tool)) => if tool@.len() == 0 {
                Err(ValidationError::EmptyValue(Field::ToolCallTool))
            } else {
                match member(fields@, "args"@) {
                    None => Err(ValidationError::MissingField(Field::ToolCallArgs)),
                    Some(args) => if args is Object {
                        Ok(ProtocolOutput::ToolCall(ToolCallWrapper { tool_call: ToolCallForm { tool, args } }))
                    } else {
                        Err(ValidationError::InvalidFieldType(Field::ToolCallArgs))
                    },
                }
            },
            Some(_) => Err(ValidationError::InvalidFieldType(Field::ToolCallTool)),
        },
        _ => Err(ValidationError::NotAnObject(Field::ToolCall)),
    }
}

/// The outcome of validating `value`: the checks in order, the first that
/// fails deciding the error.
pub open spec fn validation_outcome(value: JsonValue) -> Result<ProtocolOutput, ValidationError> {
    match value {
        JsonValue::Object(members) => {
            let message = member(members@, "message"@);
            let tool_call = member(members@, "tool_call"@);
            if message is Some && tool_call is Some {
                Err(ValidationError::ExclusivityViolation { both: true })
            } else if message is None && tool_call is None {
                Err(ValidationError::ExclusivityViolation { both: false })
            } else {
                match first_unknown(members@) {
                    Some(key) => Err(ValidationError::UnknownField(key)),
                    None => match message {
                        Some(m) => message_outcome(m),
                        None => tool_call_outcome(tool_call->0),
                    },
                }
            }
        },
        _ => Err(ValidationError::NotAnObject(Field::Root)),
    }
}

/// Checks messages against the protocol. It holds the set of recognised
/// top-level fields and nothing that changes.
pub struct Validator {
    known_fields: Vec<String>,
}

impl Validator {
    /// The validator recognises exactly `message` and `tool_call`.
    pub closed spec fn wf(&self) -> bool {
        &&& self.known_fields@.len() == 2
        &&& self.known_fields@[0]@ == "message"@
        &&& self.known_fields@[1]@ == "tool_call"@
    }

    /// A validator for the protocol's two forms.
    pub fn new() -> (r: Self)
        ensures
            r.wf(),
    {
        Validator { known_fields: vec![String::from_str("message"), String::from_str("tool_call")] }
    }

    /// Whether `key` is one of the recognised top-level fields.
    fn is_known(&self, key: &String) -> (r: bool)
        requires
            self.wf(),
        ensures
            r == is_known_field(key@),
    {
        let mut i: usize = 0;
        while i < self.known_fields.len()
            invariant
                self.wf(),
                i <= 2,
                forall|j: int| 0 <= j < i ==> self.known_fields@[j]@ != key@,
            decreases 2 - i,
        {
            if self.known_fields[i] == *key {
                return true;
            }
            i += 1;
        }
        false
    }

    /// Validates `value` as a protocol message. The checks run in order and
    /// the first that fails gives the error: the value is an object; it holds
    /// exactly one of `message` and `tool_call`; it holds no other member;
    /// the one form present has its required fields, of the right types, and
    /// not empty.
    pub fn validate(&self, value: JsonValue) -> (r: Result<ProtocolOutput, ValidationError>)
        requires
            self.wf(),
        ensures
            r == validation_outcome(value),
    {
        let mut members = match value {
            JsonValue::Object(members) => members,
            _ => {
                return Err(ValidationError::NotAnObject(Field::Root));
            },
        };
        let message_at = find_member(&members, &String::from_str("message"));
        let tool_call_at = find_member(&members, &String::from_str("tool_call"));
        if message_at.is_some() && tool_call_at.is_some() {
            return Err(ValidationError::ExclusivityViolation { both: true });
        }
        if message_at.is_none() && tool_call_at.is_none() {
            return Err(ValidationError::ExclusivityViolation { both: false });
        }
        let mut i: usize = 0;
        assert(members@.skip(0) =~= members@);
        while i < members.len()
            invariant
                self.wf(),
                i <= members@.len(),
                first_unknown(members@) == first_unknown(members@.skip(i as int)),
                member(members@, "message"@) is Some != member(members@, "tool_call"@) is Some,
                value == JsonValue::Object(members),
            decreases members@.len() - i,
        {
            assert(members@.skip(i as int)[0] == members@[i as int]);
            if !self.is_known(&members[i].0) {
                return Err(ValidationError::UnknownField(members[i].0.clone()));
            }
            assert(members@.skip(i as int).drop_first() =~= members@.skip(i + 1));
            i += 1;
        }
        assert(members@.skip(i as int).len() == 0);
        match message_at {
            Some(at) => {
                let (_, message) = members.remove(at);
                self.validate_message_form(message)
            },
            None => {
                let at = tool_call_at.unwrap();
                let (_, tool_call) = members.remove(at);
                self.validate_tool_call_form(tool_call)
            },
        }
    }

    fn validate_message_form(&self, message: JsonValue) -> (r: Result<ProtocolOutput, ValidationError>)
        ensures
            r == message_outcome(message),
    {
        let fields = match message {
            JsonValue::Object(fields) => fields,
            _ => {
                return Err(ValidationError::NotAnObject(Field::Message));
            },
        };
        let at = match find_member(&fields, &String::from_str("content")) {
            Some(at) => at,
            None => {
                return Err(ValidationError::MissingField(Field::MessageContent));
            },
        };
        match &fields[at].1 {
            JsonValue::Str(content) => {
                if content.as_str().is_empty() {
                    Err(ValidationError::EmptyValue(Field::MessageContent))
                } else {
                    Ok(ProtocolOutput::Message(MessageForm { message: MessageContent { content: content.clone() } }))
                }
            },
            _ => Err(ValidationError::InvalidFieldType(Field::MessageContent)),
        }
    }

    fn validate_tool_call_form(&self, tool_call: JsonValue) -> (r: Result<ProtocolOutput, ValidationError>)
        ensures
            r == tool_call_outcome(tool_call),
    {
        let mut fields = match tool_call {
            JsonValue::Object(fields) => fields,
            _ => {
                return Err(ValidationError::NotAnObject(Field::ToolCall));
            },
        };
        let tool_at = match find_member(&fields, &String::from_str("tool")) {
            Some(at) => at,
            None => {
                return Err(ValidationError::MissingField(Field::ToolCallTool));
            },
        };
        let tool = match &fields[tool_at].1 {
            JsonValue::Str(tool) => tool.clone(),
            _ => {
                return Err(ValidationError::InvalidFieldType(Field::ToolCallTool));
            },
        };
        if tool.as_str().is_empty() {
            return Err(ValidationError::EmptyValue(Field::ToolCallTool));
        }
        let args_at = match find_member(&fields, &String::from_str("args")) {
            Some(at) => at,
            None => {
                return Err(ValidationError::MissingField(Field::ToolCallArgs));
            },
        };
        if !matches!(fields[args_at].1, JsonValue::Object(_)) {
            return Err(ValidationError::InvalidFieldType(Field::ToolCallArgs));
        }
        let (_, args) = fields.remove(args_at);
        Ok(ProtocolOutput::ToolCall(ToolCallWrapper { tool_call: ToolCallForm { tool, args } }))
    }

    /// Validates the outcome of parsing a text: `None` stands for a text that
    /// is not JSON.
    pub fn validate_parsed(&self, parsed: Option<JsonValue>) -> (r: Result<ProtocolOutput, ValidationError>)
        requires
            self.wf(),
        ensures
            match parsed {
                None => r == Err::<ProtocolOutput, ValidationError>(ValidationError::MalformedInput),
                Some(value) => r == validation_outcome(value),
            },
    {
        match parsed {
            None => Err(ValidationError::MalformedInput),
            Some(value) => self.validate(value),
        }
    }
}

impl Default for Validator {
    fn default() -> (r: Self)
        ensures
            r.wf(),
    {
        Validator::new()
    }
}

} // verus!
