//! Calls of a provider over HTTP, and what their failures are called.
use vstd::prelude::*;
use vstd::string::*;

use crate::error::{ErrorView, SdkError};
use crate::json::{opt_json, Json, JsonView};
use crate::text::{concat2, concat3, concat4, concat5, opt_text, pair_views, push_pair};

verus! {

/// A call over HTTP: with a body it is a POST, without one a GET.
#[derive(Debug)]
pub struct HttpCall {
    pub url: String,
    pub headers: Vec<(String, String)>,
    pub body: Option<Json>,
}

/// What an `HttpCall` says.
pub struct CallView {
    pub url: Seq<char>,
    pub headers: Seq<(Seq<char>, Seq<char>)>,
    pub body: Option<JsonView>,
}

impl View for HttpCall {
    type V = CallView;

    open spec fn view(&self) -> CallView {
        CallView {
            url: self.url@,
            headers: pair_views(self.headers@),
            body: opt_json(self.body),
        }
    }
}

/// A call that goes on with a conversation.
#[derive(Debug)]
pub struct ChatCall {
    pub call: HttpCall,
    /// Whether the reply is wanted piece by piece.
    pub stream: bool,
}

/// The header that shows a key.
pub open spec fn bearer(api_key: Seq<char>) -> (Seq<char>, Seq<char>) {
    ("Authorization"@, "Bearer "@ + api_key)
}

/// The header that tells that the body is JSON.
pub open spec fn json_body() -> (Seq<char>, Seq<char>) {
    ("Content-Type"@, "application/json"@)
}

/// No headers.
pub fn no_headers() -> (r: Vec<(String, String)>)
    ensures
        pair_views(r@) == Seq::<(Seq<char>, Seq<char>)>::empty(),
{
    let r: Vec<(String, String)> = Vec::new();
    assert(pair_views(r@) =~= Seq::<(Seq<char>, Seq<char>)>::empty());
    r
}

/// Adds the header that shows a key.
pub fn push_bearer(headers: &mut Vec<(String, String)>, api_key: &str)
    ensures
        pair_views(final(headers)@) == pair_views(old(headers)@).push(bearer(api_key@)),
{
    let value = concat2("Bearer ", api_key);
    push_pair(headers, "Authorization", value.as_str());
}

/// Adds the header that tells that the body is JSON.
pub fn push_json_body(headers: &mut Vec<(String, String)>)
    ensures
        pair_views(final(headers)@) == pair_views(old(headers)@).push(json_body()),
{
    push_pair(headers, "Content-Type", "application/json");
}

/// The error when a request does not get through.
pub fn request_failed(api: &str, reason: &str) -> (r: SdkError)
    ensures
        r@ == ErrorView::Other(api@ + " API request failed: "@ + reason@),
{
    SdkError::Other(concat3(api, " API request failed: ", reason))
}

/// The error when a reply cannot be read.
pub fn unreadable_reply(api: &str, reason: &str) -> (r: SdkError)
    ensures
        r@ == ErrorView::Other("Failed to parse "@ + api@ + " response: "@ + reason@),
{
    SdkError::Other(concat4("Failed to parse ", api, " response: ", reason))
}

/// What is said of a refused request.
pub open spec fn refusal(what: Seq<char>, status: Seq<char>, text: Option<Seq<char>>) -> ErrorView {
    ErrorView::Other(
        what + " ("@ + status + "): "@ + (match text {
            Some(text) => text,
            None => "Unknown error"@,
        }),
    )
}

/// The error when a request is refused. `text` is the reply's body, where it could be
/// read.
pub fn refused(what: &str, status: &str, text: &Option<String>) -> (r: SdkError)
    ensures
        r@ == refusal(what@, status@, opt_text(*text)),
{
    let own = match text {
        Some(text) => text.as_str(),
        None => "Unknown error",
    };
    SdkError::Other(concat5(what, " (", status, "): ", own))
}

/// Checks that a request was not refused.
pub fn check_reply(
    api: &str,
    success: bool,
    status: &str,
    text: &Option<String>,
) -> (r: Result<(), SdkError>)
    ensures
        match r {
            Ok(_) => success,
            Err(e) => !success && e@ == refusal(
                api@ + " API error"@,
                status@,
                opt_text(*text),
            ),
        },
{
    if success {
        Ok(())
    } else {
        let what = concat2(api, " API error");
        Err(refused(what.as_str(), status, text))
    }
}

/// A key is shown as the bearer's, and a refusal tells the status and what was said.
pub proof fn keys_and_refusals_are_told(key: Seq<char>, what: Seq<char>, status: Seq<char>, text: Seq<char>)
    ensures
        bearer(key) == ("Authorization"@, "Bearer "@ + key),
        json_body() == ("Content-Type"@, "application/json"@),
        refusal(what, status, Some(text)) == ErrorView::Other(
            what + " ("@ + status + "): "@ + text,
        ),
        refusal(what, status, None) == ErrorView::Other(
            what + " ("@ + status + "): "@ + "Unknown error"@,
        ),
{
}

} // verus!
