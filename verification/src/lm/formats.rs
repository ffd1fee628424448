//! Replies in a given form.
use vstd::prelude::*;
use vstd::string::*;

use super::interface::ResponseFormat;
use crate::error::{other_error, ErrorView, SdkError};
use crate::json::{json_parsed, json_pretty_text, opt_json, Json, JsonView};
use crate::text::{concat2, concat4, is_blank, opt_text, trim, trimmed};

verus! {

/// What the model is told of the form of its reply.
pub open spec fn format_instruction(format: ResponseFormat) -> Option<Seq<char>> {
    match format {
        ResponseFormat::Text => None,
        ResponseFormat::Json => Some("Please respond with a valid JSON object."@),
        ResponseFormat::JsonSchema(schema) => Some(
            "Respond with a JSON object matching the following schema (strict="@ + (
            if schema.strict {
                "true"@
            } else {
                "false"@
            }) + "):\n"@ + json_pretty_text(schema.schema@),
        ),
    }
}

/// What the model is told of the form of its reply.
pub fn response_format_instruction(format: &ResponseFormat) -> (r: Option<String>)
    ensures
        opt_text(r) == format_instruction(*format),
{
    match format {
        ResponseFormat::Text => None,
        ResponseFormat::Json => Some("Please respond with a valid JSON object.".to_owned()),
        ResponseFormat::JsonSchema(schema) => {
            let strict = if schema.strict {
                "true"
            } else {
                "false"
            };
            let schema_text = schema.schema.to_pretty_text();
            Some(
                concat4(
                    "Respond with a JSON object matching the following schema (strict=",
                    strict,
                    "):\n",
                    schema_text.as_str(),
                ),
            )
        },
    }
}

/// The document that a reply's text is.
pub open spec fn json_reply(text: Seq<char>) -> Result<JsonView, ErrorView> {
    if trimmed(text).len() == 0 {
        Err(ErrorView::Other("expected JSON response but model returned empty content"@))
    } else {
        match json_parsed(trimmed(text)) {
            Ok(json) => Ok(json),
            Err(message) => Err(ErrorView::Other("failed to parse JSON response: "@ + message)),
        }
    }
}

/// The document that a reply's text is, where a document has been asked for.
pub open spec fn object_reply(text: Seq<char>, format: ResponseFormat) -> Result<
    Option<JsonView>,
    ErrorView,
> {
    match format {
        ResponseFormat::Text => Ok(None),
        _ => match json_reply(text) {
            Ok(json) => Ok(Some(json)),
            Err(e) => Err(e),
        },
    }
}

/// The document that a reply's text is, where a document has been asked for; a reply
/// that makes calls need not have one.
pub open spec fn object_or_calls(
    text: Seq<char>,
    format: ResponseFormat,
    has_calls: bool,
) -> Result<Option<JsonView>, ErrorView> {
    if trimmed(text).len() == 0 && has_calls {
        Ok(None)
    } else {
        object_reply(text, format)
    }
}

/// Reads the document that a reply's text is.
pub fn parse_json_value(text: &str) -> (r: Result<Json, SdkError>)
    ensures
        match r {
            Ok(json) => json_reply(text@) == Ok::<JsonView, ErrorView>(json@),
            Err(e) => json_reply(text@) == Err::<JsonView, ErrorView>(e@),
        },
{
    let body = trim(text);
    if body.as_str().is_empty() {
        return Err(other_error("expected JSON response but model returned empty content"));
    }
    match Json::parse(body.as_str()) {
        Ok(json) => Ok(json),
        Err(message) => Err(
            SdkError::Other(concat2("failed to parse JSON response: ", message.as_str())),
        ),
    }
}

/// Reads the document that a reply's text is, where a document has been asked for.
pub fn parse_object(text: &str, format: &ResponseFormat) -> (r: Result<Option<Json>, SdkError>)
    ensures
        match r {
            Ok(json) => object_reply(text@, *format) == Ok::<Option<JsonView>, ErrorView>(
                opt_json(json),
            ),
            Err(e) => object_reply(text@, *format) == Err::<Option<JsonView>, ErrorView>(e@),
        },
{
    match format {
        ResponseFormat::Text => Ok(None),
        _ => match parse_json_value(text) {
            Ok(json) => Ok(Some(json)),
            Err(e) => Err(e),
        },
    }
}

/// Reads the document that a reply's text is, where a document has been asked for;
/// a reply that makes calls need not have one.
pub fn response_object(text: &str, format: &ResponseFormat, has_tool_calls: bool) -> (r: Result<
    Option<Json>,
    SdkError,
>)
    ensures
        match r {
            Ok(json) => object_or_calls(text@, *format, has_tool_calls) == Ok::<
                Option<JsonView>,
                ErrorView,
            >(opt_json(json)),
            Err(e) => object_or_calls(text@, *format, has_tool_calls) == Err::<
                Option<JsonView>,
                ErrorView,
            >(e@),
        },
{
    if has_tool_calls && is_blank(text) {
        Ok(None)
    } else {
        parse_object(text, format)
    }
}

/// A reply has a document where one was asked for: what its text says, without the white
/// space around it. A text that is none is an error, and so is an empty one, unless the
/// reply makes calls; where a text was asked for, there is no document.
pub proof fn documents_are_given_where_asked_for(
    text: Seq<char>,
    format: ResponseFormat,
    has_calls: bool,
)
    ensures
        format is Text ==> object_reply(text, format) == Ok::<Option<JsonView>, ErrorView>(None),
        !(format is Text) && trimmed(text).len() > 0 && json_parsed(trimmed(text)) is Ok
            ==> object_reply(text, format) == Ok::<Option<JsonView>, ErrorView>(
            Some(json_parsed(trimmed(text))->Ok_0),
        ) && object_or_calls(text, format, has_calls) == object_reply(text, format),
        !(format is Text) && trimmed(text).len() > 0 && json_parsed(trimmed(text)) is Err
            ==> object_reply(text, format) == Err::<Option<JsonView>, ErrorView>(
            ErrorView::Other("failed to parse JSON response: "@ + json_parsed(trimmed(text))->Err_0),
        ) && object_or_calls(text, format, has_calls) == object_reply(text, format),
        !(format is Text) && trimmed(text).len() == 0 ==> object_reply(text, format) == Err::<
            Option<JsonView>,
            ErrorView,
        >(ErrorView::Other("expected JSON response but model returned empty content"@)),
        trimmed(text).len() == 0 ==> object_or_calls(text, format, true) == Ok::<
            Option<JsonView>,
            ErrorView,
        >(None),
        object_or_calls(text, format, false) == object_reply(text, format),
{
}

/// The model is told of a form only where one is asked for, and a schema is told in full.
pub proof fn forms_are_told(format: ResponseFormat)
    ensures
        format is Text ==> format_instruction(format) is None,
        format is Json ==> format_instruction(format) == Some(
            "Please respond with a valid JSON object."@,
        ),
        format matches ResponseFormat::JsonSchema(schema) ==> format_instruction(format) == Some(
            "Respond with a JSON object matching the following schema (strict="@ + (
            if schema.strict {
                "true"@
            } else {
                "false"@
            }) + "):\n"@ + json_pretty_text(schema.schema@),
        ),
{
}

} // verus!
