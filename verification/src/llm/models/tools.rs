//! Tools that a model may call.
use vstd::prelude::*;

use crate::json::{
    field_views, json_views, no_fields, no_items, opt_json, or_null, put, put_item, put_text,
    text_or_null, text_view, Json, JsonView,
};
use crate::seqs::{prefix_next, whole_prefix};

verus! {

/// A tool that the model may call.
#[derive(Clone, Debug)]
pub struct ToolDefinition {
    /// The kind of tool: `function`.
    pub kind: String,
    pub function: FunctionDefinition,
}

/// A tool that the model may call.
pub type Tool = ToolDefinition;

/// A function that the model may call.
#[derive(Clone, Debug)]
pub struct FunctionDefinition {
    pub name: String,
    pub description: Option<String>,
    pub parameters: Option<Json>,
}

/// A call that the model makes.
#[derive(Clone, Debug)]
pub struct ToolCall {
    pub id: String,
    /// The kind of tool: `function`.
    pub kind: String,
    pub function: FunctionCall,
}

/// The function that is called, with its arguments as JSON text.
#[derive(Clone, Debug)]
pub struct FunctionCall {
    pub name: String,
    pub arguments: String,
}

/// Which tool the model is to call.
#[derive(Clone, Debug)]
pub enum ToolChoice {
    NoTools,
    Auto,
    Required,
    Function { name: String },
}

/// The form of the reply's text.
#[derive(Clone, Debug)]
pub struct ResponseFormat {
    /// `text` or `json_object`.
    pub kind: String,
}

impl Default for ResponseFormat {
    fn default() -> (r: Self)
        ensures
            r.kind@ == "text"@,
    {
        ResponseFormat { kind: "text".to_owned() }
    }
}

impl ResponseFormat {
    /// The form as a document.
    pub open spec fn document(self) -> JsonView {
        JsonView::Object(seq![("type"@, JsonView::String(self.kind@))])
    }

    /// The form as a document.
    pub fn to_json(&self) -> (r: Json)
        ensures
            r@ == self.document(),
    {
        let mut fields = no_fields();
        put_text(&mut fields, "type", self.kind.as_str());
        assert(field_views(fields@) =~= self.document()->Object_0);
        Json::object(fields)
    }
}

impl ToolCall {
    /// The call as a document.
    pub open spec fn document(self) -> JsonView {
        JsonView::Object(
            seq![
                ("id"@, JsonView::String(self.id@)),
                ("type"@, JsonView::String(self.kind@)),
                (
                    "function"@,
                    JsonView::Object(
                        seq![
                            ("name"@, JsonView::String(self.function.name@)),
                            ("arguments"@, JsonView::String(self.function.arguments@)),
                        ],
                    ),
                ),
            ],
        )
    }

    fn to_json(&self) -> (r: Json)
        ensures
            r@ == self.document(),
    {
        let mut function = no_fields();
        put_text(&mut function, "name", self.function.name.as_str());
        put_text(&mut function, "arguments", self.function.arguments.as_str());
        assert(field_views(function@) =~= self.document()->Object_0[2].1->Object_0);
        let mut fields = no_fields();
        put_text(&mut fields, "id", self.id.as_str());
        put_text(&mut fields, "type", self.kind.as_str());
        put(&mut fields, "function", Json::object(function));
        assert(field_views(fields@) =~= self.document()->Object_0);
        Json::object(fields)
    }

    /// A copy of the call.
    pub fn duplicate(&self) -> (r: ToolCall)
        ensures
            r == *self,
    {
        ToolCall {
            id: self.id.clone(),
            kind: self.kind.clone(),
            function: FunctionCall {
                name: self.function.name.clone(),
                arguments: self.function.arguments.clone(),
            },
        }
    }
}

/// Calls, or that there are none.
pub open spec fn calls_view(calls: Option<Vec<ToolCall>>) -> Option<Seq<ToolCall>> {
    match calls {
        Some(calls) => Some(calls@),
        None => None,
    }
}

/// A copy of calls.
pub fn copy_calls(calls: &Option<Vec<ToolCall>>) -> (r: Option<Vec<ToolCall>>)
    ensures
        calls_view(r) == calls_view(*calls),
{
    match calls {
        Some(calls) => {
            let mut out: Vec<ToolCall> = Vec::new();
            let mut i: usize = 0;
            while i < calls.len()
                invariant
                    i <= calls@.len(),
                    out@ == calls@.subrange(0, i as int),
                decreases calls@.len() - i,
            {
                out.push(calls[i].duplicate());
                proof {
                    prefix_next(calls@, i as int);
                }
                i = i + 1;
            }
            proof {
                whole_prefix(calls@);
            }
            Some(out)
        },
        None => None,
    }
}

/// Calls as documents.
pub open spec fn call_documents(calls: Seq<ToolCall>) -> Seq<JsonView> {
    Seq::new(calls.len(), |i: int| calls[i].document())
}

/// Optional calls as a document.
pub open spec fn calls_document(calls: Option<Vec<ToolCall>>) -> Option<JsonView> {
    match calls {
        Some(calls) => Some(JsonView::Array(call_documents(calls@))),
        None => None,
    }
}

/// Optional calls as a document.
pub fn calls_json(calls: &Option<Vec<ToolCall>>) -> (r: Option<Json>)
    ensures
        opt_json(r) == calls_document(*calls),
{
    match calls {
        Some(calls) => {
            let mut items = no_items();
            let ghost all = call_documents(calls@);
            let mut i: usize = 0;
            proof {
                whole_prefix(all);
            }
            while i < calls.len()
                invariant
                    i <= calls@.len(),
                    all == call_documents(calls@),
                    json_views(items@) == all.subrange(0, i as int),
                decreases calls@.len() - i,
            {
                put_item(&mut items, calls[i].to_json());
                proof {
                    prefix_next(all, i as int);
                }
                i = i + 1;
            }
            proof {
                whole_prefix(all);
            }
            Some(Json::array(items))
        },
        None => None,
    }
}

impl ToolDefinition {
    /// The tool as a document.
    pub open spec fn document(self) -> JsonView {
        JsonView::Object(
            seq![
                ("type"@, JsonView::String(self.kind@)),
                (
                    "function"@,
                    JsonView::Object(
                        seq![
                            ("name"@, JsonView::String(self.function.name@)),
                            ("description"@, or_null(text_view(self.function.description))),
                            ("parameters"@, or_null(opt_json(self.function.parameters))),
                        ],
                    ),
                ),
            ],
        )
    }

    fn to_json(&self) -> (r: Json)
        ensures
            r@ == self.document(),
    {
        let parameters = match &self.function.parameters {
            Some(parameters) => parameters.duplicate(),
            None => Json::Null,
        };
        let mut function = no_fields();
        put_text(&mut function, "name", self.function.name.as_str());
        put(&mut function, "description", text_or_null(&self.function.description));
        put(&mut function, "parameters", parameters);
        assert(field_views(function@) =~= self.document()->Object_0[1].1->Object_0);
        let mut fields = no_fields();
        put_text(&mut fields, "type", self.kind.as_str());
        put(&mut fields, "function", Json::object(function));
        assert(field_views(fields@) =~= self.document()->Object_0);
        Json::object(fields)
    }
}

/// Tools as documents.
pub open spec fn tool_documents(tools: Seq<ToolDefinition>) -> Seq<JsonView> {
    Seq::new(tools.len(), |i: int| tools[i].document())
}

/// Optional tools as a document.
pub open spec fn tools_document(tools: Option<Vec<ToolDefinition>>) -> Option<JsonView> {
    match tools {
        Some(tools) => Some(JsonView::Array(tool_documents(tools@))),
        None => None,
    }
}

/// Optional tools as a document.
pub fn tools_json(tools: &Option<Vec<ToolDefinition>>) -> (r: Option<Json>)
    ensures
        opt_json(r) == tools_document(*tools),
{
    match tools {
        Some(tools) => {
            let mut items = no_items();
            let ghost all = tool_documents(tools@);
            let mut i: usize = 0;
            proof {
                whole_prefix(all);
            }
            while i < tools.len()
                invariant
                    i <= tools@.len(),
                    all == tool_documents(tools@),
                    json_views(items@) == all.subrange(0, i as int),
                decreases tools@.len() - i,
            {
                put_item(&mut items, tools[i].to_json());
                proof {
                    prefix_next(all, i as int);
                }
                i = i + 1;
            }
            proof {
                whole_prefix(all);
            }
            Some(Json::array(items))
        },
        None => None,
    }
}

impl ToolChoice {
    /// The choice as a document.
    pub open spec fn document(self) -> JsonView {
        match self {
            ToolChoice::NoTools => JsonView::String("none"@),
            ToolChoice::Auto => JsonView::String("auto"@),
            ToolChoice::Required => JsonView::String("required"@),
            ToolChoice::Function { name } => JsonView::Object(
                seq![
                    (
                        "function"@,
                        JsonView::Object(seq![("name"@, JsonView::String(name@))]),
                    ),
                ],
            ),
        }
    }

    fn to_json(&self) -> (r: Json)
        ensures
            r@ == self.document(),
    {
        match self {
            ToolChoice::NoTools => Json::text("none"),
            ToolChoice::Auto => Json::text("auto"),
            ToolChoice::Required => Json::text("required"),
            ToolChoice::Function { name } => {
                let mut inner = no_fields();
                put_text(&mut inner, "name", name.as_str());
                assert(field_views(inner@) =~= seq![("name"@, JsonView::String(name@))]);
                let mut fields = no_fields();
                put(&mut fields, "function", Json::object(inner));
                assert(field_views(fields@) =~= self.document()->Object_0);
                Json::object(fields)
            },
        }
    }
}

/// An optional choice as a document.
pub open spec fn choice_document(choice: Option<ToolChoice>) -> Option<JsonView> {
    match choice {
        Some(choice) => Some(choice.document()),
        None => None,
    }
}

/// An optional choice as a document.
pub fn choice_json(choice: &Option<ToolChoice>) -> (r: Option<Json>)
    ensures
        opt_json(r) == choice_document(*choice),
{
    match choice {
        Some(choice) => Some(choice.to_json()),
        None => None,
    }
}

/// A call is told with its id, its kind, its name and its arguments; a tool with its name,
/// what it is for and what it takes.
pub proof fn calls_and_tools_are_told(call: ToolCall, tool: ToolDefinition, format: ResponseFormat)
    ensures
        ({
            let told = call.document();
            &&& told.field_text("id"@) == Some(call.id@)
            &&& told.field_text("type"@) == Some(call.kind@)
            &&& told.field("function"@)->0.field_text("name"@) == Some(call.function.name@)
            &&& told.field("function"@)->0.field_text("arguments"@) == Some(
                call.function.arguments@,
            )
        }),
        ({
            let told = tool.document();
            let f = told.field("function"@)->0;
            &&& told.field_text("type"@) == Some(tool.kind@)
            &&& f.field_text("name"@) == Some(tool.function.name@)
            &&& tool.function.description is Some ==> f.field_text("description"@) == Some(
                tool.function.description->0@,
            )
            &&& tool.function.description is None ==> f.field("description"@) == Some(
                JsonView::Null,
            )
            &&& tool.function.parameters is Some ==> f.field("parameters"@) == Some(
                tool.function.parameters->0@,
            )
            &&& tool.function.parameters is None ==> f.field("parameters"@) == Some(JsonView::Null)
        }),
        format.document().field_text("type"@) == Some(format.kind@),
{
    broadcast use crate::json::group_fields;

    reveal_with_fuel(crate::json::last_field, 4);
    reveal_strlit("id");
    reveal_strlit("type");
    reveal_strlit("function");
    reveal_strlit("name");
    reveal_strlit("arguments");
    reveal_strlit("description");
    reveal_strlit("parameters");
    assert("id"@.len() == 2
        && "type"@.len() == 4
        && "function"@.len() == 8
        && "name"@.len() == 4
        && "arguments"@.len() == 9
        && "description"@.len() == 11
        && "parameters"@.len() == 10
        && "type"@[0] == 't'
        && "name"@[0] == 'n');
    assert(call.document().field("function"@) is Some);
    assert(tool.document().field("function"@) is Some);
}

/// Which tool is to be called is told by a word, or by the function's name.
pub proof fn choices_are_told(name: String)
    ensures
        ToolChoice::NoTools.document() == JsonView::String("none"@),
        ToolChoice::Auto.document() == JsonView::String("auto"@),
        ToolChoice::Required.document() == JsonView::String("required"@),
        (ToolChoice::Function { name }).document().field("function"@)->0.field_text("name"@)
            == Some(name@),
{
    broadcast use crate::json::group_fields;

    let told = (ToolChoice::Function { name }).document();
    assert(told.field("function"@) is Some);
    assert(told.field("function"@)->0.field("name"@) is Some);
}

/// Calls and tools are told in their order, and not at all where there are none to tell.
pub proof fn calls_and_tools_keep_their_order(
    calls: Seq<ToolCall>,
    call: ToolCall,
    tools: Seq<ToolDefinition>,
    tool: ToolDefinition,
)
    ensures
        call_documents(calls.push(call)) == call_documents(calls).push(call.document()),
        tool_documents(tools.push(tool)) == tool_documents(tools).push(tool.document()),
        calls_document(None) is None,
        tools_document(None) is None,
        choice_document(None) is None,
{
    assert(call_documents(calls.push(call)) =~= call_documents(calls).push(call.document()));
    assert(tool_documents(tools.push(tool)) =~= tool_documents(tools).push(tool.document()));
}

} // verus!
