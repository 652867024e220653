//! What holds of every validation, stated over the outcome that
//! `Validator::validate` is specified to return.

use vstd::prelude::*;

use crate::json::{member, JsonValue};
use crate::message::{wire_form, ProtocolOutput};
use crate::validation::{
    first_unknown, is_known_field, message_outcome, tool_call_outcome, validation_outcome, Field,
    ValidationError,
};

verus! {

proof fn lemma_member_insert(members: Seq<(String, JsonValue)>, at: int, key: String, value: JsonValue, k: Seq<char>)
    requires
        0 <= at <= members.len(),
        key@ != k,
    ensures
        member(members.insert(at, (key, value)), k) == member(members, k),
    decreases at,
{
    let longer = members.insert(at, (key, value));
    if at > 0 {
        assert(longer[0] == members[0]);
        assert(longer.drop_first() =~= members.drop_first().insert(at - 1, (key, value)));
        lemma_member_insert(members.drop_first(), at - 1, key, value, k);
    } else {
        assert(longer[0] == (key, value));
        assert(longer.drop_first() =~= members);
    }
}

proof fn lemma_first_unknown_insert(members: Seq<(String, JsonValue)>, at: int, key: String, value: JsonValue)
    requires
        0 <= at <= members.len(),
        first_unknown(members) is None,
        !is_known_field(key@),
    ensures
        first_unknown(members.insert(at, (key, value))) == Some(key),
    decreases at,
{
    let longer = members.insert(at, (key, value));
    if at > 0 {
        assert(longer[0] == members[0]);
        assert(longer.drop_first() =~= members.drop_first().insert(at - 1, (key, value)));
        lemma_first_unknown_insert(members.drop_first(), at - 1, key, value);
    } else {
        assert(longer[0] == (key, value));
    }
}

/// A value that holds both forms is rejected for exclusivity, whatever the
/// two forms hold and whatever else the value holds.
pub proof fn both_forms_rejected(value: JsonValue)
    requires
        value matches JsonValue::Object(members) && member(members@, "message"@) is Some
            && member(members@, "tool_call"@) is Some,
    ensures
        validation_outcome(value) == Err::<ProtocolOutput, ValidationError>(
            ValidationError::ExclusivityViolation { both: true },
        ),
{
}

/// An object that holds neither form is rejected for exclusivity, whatever
/// other members it holds.
pub proof fn neither_form_rejected(value: JsonValue)
    requires
        value matches JsonValue::Object(members) && member(members@, "message"@) is None
            && member(members@, "tool_call"@) is None,
    ensures
        validation_outcome(value) == Err::<ProtocolOutput, ValidationError>(
            ValidationError::ExclusivityViolation { both: false },
        ),
{
}

/// A text message that validates, given one more top-level member under an
/// unrecognised key, anywhere among its members, is rejected with that key.
pub proof fn extra_member_rejected(base: JsonValue, value: JsonValue, at: int, key: String, extra: JsonValue)
    requires
        base matches JsonValue::Object(old_members) && value matches JsonValue::Object(new_members)
            && 0 <= at <= old_members@.len() && new_members@ == old_members@.insert(at, (key, extra)),
        validation_outcome(base) matches Ok(out) && out is Message,
        !is_known_field(key@),
    ensures
        validation_outcome(value) == Err::<ProtocolOutput, ValidationError>(ValidationError::UnknownField(key)),
{
    let old_members = base->Object_0@;
    lemma_member_insert(old_members, at, key, extra, "message"@);
    lemma_member_insert(old_members, at, key, extra, "tool_call"@);
    lemma_first_unknown_insert(old_members, at, key, extra);
}

/// Every accepted message is well formed: its content or its tool name is
/// not empty, and the arguments of a tool invocation are an object.
pub proof fn accepted_well_formed(value: JsonValue)
    ensures
        validation_outcome(value) matches Ok(out) ==> out.wf(),
{
}

/// An empty content is rejected, whatever else the value holds.
pub proof fn empty_content_rejected(value: JsonValue, message: JsonValue, content: String)
    requires
        value matches JsonValue::Object(members) && member(members@, "message"@) == Some(message),
        message matches JsonValue::Object(fields) && member(fields@, "content"@) == Some(JsonValue::Str(content)),
        content@.len() == 0,
    ensures
        validation_outcome(value) is Err,
{
}

/// An empty tool name is rejected, whatever else the value holds.
pub proof fn empty_tool_rejected(value: JsonValue, tool_call: JsonValue, tool: String)
    requires
        value matches JsonValue::Object(members) && member(members@, "tool_call"@) == Some(tool_call),
        tool_call matches JsonValue::Object(fields) && member(fields@, "tool"@) == Some(JsonValue::Str(tool)),
        tool@.len() == 0,
    ensures
        validation_outcome(value) is Err,
{
}

/// Arguments that are not an object (an array, a string, a number, `null`,
/// a boolean) are rejected as the wrong type, where all else is valid.
pub proof fn non_object_args_rejected(value: JsonValue, tool_call: JsonValue, tool: String, args: JsonValue)
    requires
        value matches JsonValue::Object(members) && member(members@, "message"@) is None
            && member(members@, "tool_call"@) == Some(tool_call) && first_unknown(members@) is None,
        tool_call matches JsonValue::Object(fields) && member(fields@, "tool"@) == Some(JsonValue::Str(tool))
            && member(fields@, "args"@) == Some(args),
        tool@.len() > 0,
        !(args is Object),
    ensures
        validation_outcome(value) == Err::<ProtocolOutput, ValidationError>(
            ValidationError::InvalidFieldType(Field::ToolCallArgs),
        ),
{
}

/// Writing an accepted message in its canonical wire shape and validating
/// that again gives the same message.
pub proof fn canonical_form_revalidates(value: JsonValue, wire: JsonValue)
    requires
        validation_outcome(value) matches Ok(out) && wire_form(wire, out),
    ensures
        validation_outcome(wire) == validation_outcome(value),
{
    reveal_strlit("message");
    reveal_strlit("tool_call");
    reveal_strlit("tool");
    reveal_strlit("args");
    assert("message"@[0] != "tool_call"@[0]);
    assert("tool"@[0] != "args"@[0]);
    let out = validation_outcome(value)->Ok_0;
    let top = wire->Object_0@;
    assert(top.drop_first().len() == 0);
    assert(member(top.drop_first(), "message"@) is None);
    assert(member(top.drop_first(), "tool_call"@) is None);
    assert(first_unknown(top.drop_first()) is None);
    assert(top[0].0@ == "message"@ || top[0].0@ == "tool_call"@);
    let body = top[0].1->Object_0@;
    match out {
        ProtocolOutput::Message(m) => {
            assert(body.drop_first().len() == 0);
            assert(member(top, "message"@) == Some(top[0].1));
            assert(member(top, "tool_call"@) is None);
            assert(first_unknown(top) is None);
            assert(message_outcome(top[0].1) == Ok::<ProtocolOutput, ValidationError>(out));
        },
        ProtocolOutput::ToolCall(t) => {
            assert(body.drop_first()[0] == body[1]);
            assert(body.drop_first().drop_first().len() == 0);
            assert(member(top, "tool_call"@) == Some(top[0].1));
            assert(member(top, "message"@) is None);
            assert(first_unknown(top) is None);
            assert(member(body.drop_first(), "args"@) == Some(body[1].1));
            assert(member(body, "args"@) == Some(body[1].1));
            assert(tool_call_outcome(top[0].1) == Ok::<ProtocolOutput, ValidationError>(out));
        },
    }
}

} // verus!
