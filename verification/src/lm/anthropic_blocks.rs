//! Blocks, messages and tools in the form of Anthropic's models.
use vstd::prelude::*;
use vstd::string::*;

use super::interface::{ToolCall, ToolDefinition};
use crate::json::{
    field_if, field_views, json_parsed, json_views, no_fields, no_items, put, put_item, put_opt,
    put_text, text_json, text_view, Json, JsonView,
};
use crate::seqs::{prefix_next, whole_prefix};

verus! {

/// A block of text.
pub open spec fn text_block(text: Seq<char>) -> JsonView {
    JsonView::Object(
        seq![("type"@, JsonView::String("text"@)), ("text"@, JsonView::String(text))],
    )
}

/// A block of text.
pub fn text_block_json(text: &str) -> (r: Json)
    ensures
        r@ == text_block(text@),
{
    let mut fields = no_fields();
    put_text(&mut fields, "type", "text");
    put_text(&mut fields, "text", text);
    assert(field_views(fields@) =~= text_block(text@)->Object_0);
    Json::object(fields)
}

/// The arguments of a call as a document, or an empty object where they are none.
pub open spec fn call_input(arguments: Seq<char>) -> JsonView {
    match json_parsed(arguments) {
        Ok(json) => json,
        Err(_) => JsonView::Object(Seq::empty()),
    }
}

/// A call that the model made, told back to it.
pub open spec fn tool_use_block(call: ToolCall) -> JsonView {
    JsonView::Object(
        seq![
            ("type"@, JsonView::String("tool_use"@)),
            ("id"@, JsonView::String(call.id@)),
            ("name"@, JsonView::String(call.name@)),
            ("input"@, call_input(call.arguments@)),
        ],
    )
}

/// A call that the model made, told back to it.
pub fn tool_use_block_json(call: &ToolCall) -> (r: Json)
    ensures
        r@ == tool_use_block(*call),
{
    let input = match Json::parse(call.arguments.as_str()) {
        Ok(json) => json,
        Err(_) => Json::object(no_fields()),
    };
    let mut fields = no_fields();
    put_text(&mut fields, "type", "tool_use");
    put_text(&mut fields, "id", call.id.as_str());
    put_text(&mut fields, "name", call.name.as_str());
    put(&mut fields, "input", input);
    assert(field_views(fields@) =~= tool_use_block(*call)->Object_0);
    Json::object(fields)
}

/// What a call gave, as a message.
pub open spec fn tool_result_message(id: Seq<char>, content: Seq<char>) -> JsonView {
    let block = JsonView::Object(
        seq![
            ("type"@, JsonView::String("tool_result"@)),
            ("tool_use_id"@, JsonView::String(id)),
            ("content"@, JsonView::String(content)),
        ],
    );
    JsonView::Object(
        seq![("role"@, JsonView::String("user"@)), ("content"@, JsonView::Array(seq![block]))],
    )
}

/// What a call gave, as a message.
pub fn tool_result_json(id: &str, content: &str) -> (r: Json)
    ensures
        r@ == tool_result_message(id@, content@),
{
    let mut block = no_fields();
    put_text(&mut block, "type", "tool_result");
    put_text(&mut block, "tool_use_id", id);
    put_text(&mut block, "content", content);
    let block = Json::object(block);
    let ghost shown = block@;
    let mut blocks = no_items();
    put_item(&mut blocks, block);
    let mut fields = no_fields();
    put_text(&mut fields, "role", "user");
    put(&mut fields, "content", Json::array(blocks));
    proof {
        let message = tool_result_message(id@, content@);
        let wanted = message->Object_0[1].1->Array_0;
        assert(shown->Object_0 =~= wanted[0]->Object_0);
        assert(json_views(blocks@) =~= wanted);
        assert(field_views(fields@) =~= message->Object_0);
    }
    Json::object(fields)
}

/// A tool in the form of Anthropic's models.
pub open spec fn anthropic_tool(tool: ToolDefinition) -> JsonView {
    let schema = match tool.parameters {
        Some(parameters) => parameters@,
        None => JsonView::Object(
            seq![
                ("type"@, JsonView::String("object"@)),
                ("properties"@, JsonView::Object(Seq::empty())),
            ],
        ),
    };
    JsonView::Object(
        seq![("name"@, JsonView::String(tool.name@)), ("input_schema"@, schema)] + field_if(
            "description"@,
            text_view(tool.description),
        ),
    )
}

/// A tool in the form of Anthropic's models.
pub fn anthropic_tool_json(tool: &ToolDefinition) -> (r: Json)
    ensures
        r@ == anthropic_tool(*tool),
{
    let schema = match &tool.parameters {
        Some(parameters) => parameters.duplicate(),
        None => {
            let mut fields = no_fields();
            put_text(&mut fields, "type", "object");
            put(&mut fields, "properties", Json::object(no_fields()));
            assert(field_views(fields@) =~= seq![
                ("type"@, JsonView::String("object"@)),
                ("properties"@, JsonView::Object(Seq::empty())),
            ]);
            Json::object(fields)
        },
    };
    let mut fields = no_fields();
    put_text(&mut fields, "name", tool.name.as_str());
    put(&mut fields, "input_schema", schema);
    put_opt(&mut fields, "description", text_json(&tool.description));
    assert(field_views(fields@) =~= anthropic_tool(*tool)->Object_0);
    Json::object(fields)
}

/// Tools in the form of Anthropic's models.
pub open spec fn anthropic_tools(tools: Seq<ToolDefinition>) -> Seq<JsonView> {
    Seq::new(tools.len(), |i: int| anthropic_tool(tools[i]))
}

/// Tools in the form of Anthropic's models.
pub fn convert_tools(tools: &Vec<ToolDefinition>) -> (r: Vec<Json>)
    ensures
        json_views(r@) == anthropic_tools(tools@),
{
    let mut out = no_items();
    let ghost all = anthropic_tools(tools@);
    proof {
        whole_prefix(all);
    }
    let mut i: usize = 0;
    while i < tools.len()
        invariant
            i <= tools@.len(),
            all == anthropic_tools(tools@),
            json_views(out@) == all.subrange(0, i as int),
        decreases tools@.len() - i,
    {
        put_item(&mut out, anthropic_tool_json(&tools[i]));
        proof {
            prefix_next(all, i as int);
        }
        i = i + 1;
    }
    proof {
        whole_prefix(all);
    }
    out
}

/// An object with a type only.
pub open spec fn typed(kind: Seq<char>) -> JsonView {
    JsonView::Object(seq![("type"@, JsonView::String(kind))])
}

/// An object with a type only.
pub fn typed_json(kind: &str) -> (r: Json)
    ensures
        r@ == typed(kind@),
{
    let mut fields = no_fields();
    put_text(&mut fields, "type", kind);
    assert(field_views(fields@) =~= typed(kind@)->Object_0);
    Json::object(fields)
}

/// A block of text, a call and what a call gave are told by their types, with all that
/// belongs to them and each under its name. What a call gave is told by the user.
pub proof fn blocks_tell_what_they_hold(text: Seq<char>, call: ToolCall, id: Seq<char>)
    ensures
        text_block(text).field_text("type"@) == Some("text"@),
        text_block(text).field_text("text"@) == Some(text),
        tool_use_block(call).field_text("type"@) == Some("tool_use"@),
        tool_use_block(call).field_text("id"@) == Some(call.id@),
        tool_use_block(call).field_text("name"@) == Some(call.name@),
        json_parsed(call.arguments@) matches Ok(input) ==> tool_use_block(call).field("input"@)
            == Some(input),
        json_parsed(call.arguments@) is Err ==> tool_use_block(call).field("input"@) == Some(
            JsonView::Object(Seq::empty()),
        ),
        tool_result_message(id, text).field_text("role"@) == Some("user"@),
        ({
            let blocks = tool_result_message(id, text).field("content"@)->0.items()->0;
            &&& tool_result_message(id, text).field("content"@)->0.items() is Some
            &&& blocks.len() == 1
            &&& blocks[0].field_text("type"@) == Some("tool_result"@)
            &&& blocks[0].field_text("tool_use_id"@) == Some(id)
            &&& blocks[0].field_text("content"@) == Some(text)
        }),
{
    broadcast use crate::json::group_fields;

    reveal_with_fuel(crate::json::last_field, 5);
    reveal_strlit("type");
    reveal_strlit("text");
    reveal_strlit("id");
    reveal_strlit("name");
    reveal_strlit("input");
    reveal_strlit("role");
    reveal_strlit("content");
    reveal_strlit("tool_use_id");
    assert("type"@.len() == 4
        && "text"@.len() == 4
        && "id"@.len() == 2
        && "name"@.len() == 4
        && "input"@.len() == 5
        && "role"@.len() == 4
        && "content"@.len() == 7
        && "tool_use_id"@.len() == 11
        && "type"@[1] == 'y'
        && "text"@[1] == 'e'
        && "type"@[0] == 't'
        && "name"@[0] == 'n'
        && "role"@[0] == 'r'
        && "text"@[0] == 't');
    assert(tool_result_message(id, text).field("content"@) is Some);
    let block = tool_result_message(id, text).field("content"@)->0.items()->0[0];
    assert(block.field("type"@) == Some(JsonView::String("tool_result"@)));
    assert(block.field("tool_use_id"@) == Some(JsonView::String(id)));
    assert(block.field("content"@) == Some(JsonView::String(text)));
}

/// A tool is told by its name, its description if it has one, and what it takes: an
/// object without properties where nothing is said. Tools stay in their order.
pub proof fn tools_tell_what_they_take(tools: Seq<ToolDefinition>, i: int)
    requires
        0 <= i < tools.len(),
    ensures
        anthropic_tools(tools).len() == tools.len(),
        anthropic_tools(tools)[i].field_text("name"@) == Some(tools[i].name@),
        anthropic_tools(tools)[i].field("description"@) == text_view(tools[i].description),
        tools[i].parameters matches Some(schema) ==> anthropic_tools(tools)[i].field(
            "input_schema"@,
        ) == Some(schema@),
        tools[i].parameters is None ==> anthropic_tools(tools)[i].field(
            "input_schema"@,
        )->0.field_text("type"@) == Some("object"@),
        forall|kind: Seq<char>| #[trigger] typed(kind).field_text("type"@) == Some(kind),
{
    broadcast use crate::json::group_fields;

    reveal_with_fuel(crate::json::last_field, 3);
    reveal_strlit("name");
    reveal_strlit("description");
    reveal_strlit("input_schema");
    reveal_strlit("type");
    reveal_strlit("properties");
    assert("name"@.len() == 4
        && "description"@.len() == 11
        && "input_schema"@.len() == 12
        && "type"@.len() == 4
        && "properties"@.len() == 10
        && "name"@[0] == 'n'
        && "type"@[0] == 't');
}

} // verus!
