//! What is said between a client and a server.
use vstd::prelude::*;
use vstd::string::*;

use super::error::{McpError, McpErrorView};
use crate::headers::{header_name, header_name_ok, header_text_ok, header_value};
use crate::json::{
    field_if, field_views, no_fields, opt_json, put_opt, put_text, whole_number, Json, JsonView,
};
use crate::seqs::{flattened, flattened_next, whole_prefix};
use crate::text::{concat2, find_last_pair, last_pair, opt_text, pair_views, push_pair, str_eq};

verus! {

/// What a reply belongs to.
#[derive(Clone, Debug)]
pub enum JsonRpcId {
    Number(u64),
    String(String),
    Null,
}

/// What a server says is wrong.
#[derive(Clone, Debug)]
pub struct JsonRpcError {
    pub code: i64,
    pub message: String,
    pub data: Option<Json>,
}

/// A request of a server, or something it is told.
#[derive(Debug)]
pub struct JsonRpcRequest {
    pub id: JsonRpcId,
    pub method: String,
    pub params: Option<Json>,
}

/// A reply of a server.
#[derive(Debug)]
pub struct JsonRpcResponse {
    pub id: JsonRpcId,
    pub result: Option<Json>,
    pub error: Option<JsonRpcError>,
}

/// What a request belongs to, as a document, where it belongs to anything.
pub open spec fn id_document(id: JsonRpcId) -> Option<JsonView> {
    match id {
        JsonRpcId::Number(n) => Some(whole_number(n)),
        JsonRpcId::String(s) => Some(JsonView::String(s@)),
        JsonRpcId::Null => None,
    }
}

impl JsonRpcRequest {
    /// A request, which is answered.
    pub fn new(method: &str, params: Option<Json>, id: u64) -> (r: Self)
        ensures
            r.id == JsonRpcId::Number(id),
            r.method@ == method@,
            r.params == params,
    {
        JsonRpcRequest { id: JsonRpcId::Number(id), method: method.to_owned(), params }
    }

    /// Something that is told and not answered.
    pub fn notification(method: &str, params: Option<Json>) -> (r: Self)
        ensures
            r.id == JsonRpcId::Null,
            r.method@ == method@,
            r.params == params,
    {
        JsonRpcRequest { id: JsonRpcId::Null, method: method.to_owned(), params }
    }

    /// The request under another id.
    pub fn with_id(self, id: u64) -> (r: Self)
        ensures
            r == (JsonRpcRequest { id: JsonRpcId::Number(id), ..self }),
    {
        JsonRpcRequest { id: JsonRpcId::Number(id), ..self }
    }

    /// The request as a document.
    pub open spec fn document(self) -> JsonView {
        JsonView::Object(
            seq![("jsonrpc"@, JsonView::String("2.0"@))] + field_if("id"@, id_document(self.id))
                + seq![("method"@, JsonView::String(self.method@))] + field_if(
                "params"@,
                opt_json(self.params),
            ),
        )
    }

    /// The request as a document.
    pub fn to_json(&self) -> (r: Json)
        ensures
            r@ == self.document(),
    {
        let id = match &self.id {
            JsonRpcId::Number(n) => Some(Json::whole(*n)),
            JsonRpcId::String(s) => Some(Json::text(s.as_str())),
            JsonRpcId::Null => None,
        };
        let params = match &self.params {
            Some(params) => Some(params.duplicate()),
            None => None,
        };
        let mut fields = no_fields();
        put_text(&mut fields, "jsonrpc", "2.0");
        assert(field_views(fields@) =~= seq![("jsonrpc"@, JsonView::String("2.0"@))]);
        put_opt(&mut fields, "id", id);
        let ghost before = field_views(fields@);
        put_text(&mut fields, "method", self.method.as_str());
        assert(field_views(fields@) =~= before + seq![
            ("method"@, JsonView::String(self.method@)),
        ]);
        put_opt(&mut fields, "params", params);
        Json::object(fields)
    }
}

impl JsonRpcResponse {
    /// What the server gave, or what it says is wrong; a reply that says nothing is
    /// `null`.
    pub fn into_result(self) -> (r: Result<Json, JsonRpcError>)
        ensures
            match self.error {
                Some(error) => r == Err::<Json, JsonRpcError>(error),
                None => r matches Ok(v) && v@ == (match self.result {
                    Some(result) => result@,
                    None => JsonView::Null,
                }),
            },
    {
        match self.error {
            Some(error) => Err(error),
            None => match self.result {
                Some(result) => Ok(result),
                None => Ok(Json::Null),
            },
        }
    }

    /// What the server gave, or the error for what it says is wrong.
    pub fn server_result(self) -> (r: Result<Json, McpError>)
        ensures
            match self.error {
                Some(error) => r matches Err(e) && e@ == McpErrorView::Server(error.message@),
                None => r matches Ok(v) && v@ == (match self.result {
                    Some(result) => result@,
                    None => JsonView::Null,
                }),
            },
    {
        match self.into_result() {
            Ok(v) => Ok(v),
            Err(error) => Err(McpError::Server(error.message)),
        }
    }
}

/// The number of a reply, if it has one.
pub fn extract_response_id(response: &JsonRpcResponse) -> (r: Option<u64>)
    ensures
        r == (match response.id {
            JsonRpcId::Number(n) => Some(n),
            _ => None,
        }),
{
    match &response.id {
        JsonRpcId::Number(n) => Some(*n),
        _ => None,
    }
}

/// A tool that a server offers.
#[derive(Debug)]
pub struct McpTool {
    pub name: String,
    pub description: Option<String>,
    pub input_schema: Json,
}

/// What an `McpTool` says.
pub struct ToolView {
    pub name: Seq<char>,
    pub description: Option<Seq<char>>,
    pub input_schema: JsonView,
}

impl View for McpTool {
    type V = ToolView;

    open spec fn view(&self) -> ToolView {
        ToolView {
            name: self.name@,
            description: opt_text(self.description),
            input_schema: self.input_schema@,
        }
    }
}

impl McpTool {
    /// A copy of the tool.
    pub fn duplicate(&self) -> (r: McpTool)
        ensures
            r@ == self@,
    {
        McpTool {
            name: self.name.clone(),
            description: match &self.description {
                Some(s) => Some(s.clone()),
                None => None,
            },
            input_schema: self.input_schema.duplicate(),
        }
    }
}

/// What a server says of its tools.
#[derive(Clone, Copy, Debug, PartialEq, Eq, Structural)]
pub struct ToolsCapability {
    pub list_changed: Option<bool>,
}

/// What a server can do.
#[derive(Clone, Copy, Debug, PartialEq, Eq, Structural)]
pub struct ServerCapabilities {
    pub tools: Option<ToolsCapability>,
    pub resources: bool,
    pub prompts: bool,
}

/// A call of a tool.
#[derive(Debug)]
pub struct CallToolParams {
    pub name: String,
    pub arguments: Option<Json>,
}

impl CallToolParams {
    /// The call as a document.
    pub open spec fn document(self) -> JsonView {
        JsonView::Object(
            seq![("name"@, JsonView::String(self.name@))] + field_if(
                "arguments"@,
                opt_json(self.arguments),
            ),
        )
    }

    /// The call as a document.
    pub fn to_json(&self) -> (r: Json)
        ensures
            r@ == self.document(),
    {
        let arguments = match &self.arguments {
            Some(arguments) => Some(arguments.duplicate()),
            None => None,
        };
        let mut fields = no_fields();
        put_text(&mut fields, "name", self.name.as_str());
        assert(field_views(fields@) =~= seq![("name"@, JsonView::String(self.name@))]);
        put_opt(&mut fields, "arguments", arguments);
        Json::object(fields)
    }
}

/// How a server is reached.
#[derive(Clone, Debug)]
pub enum ServerConfig {
    Stdio(StdioConfig),
    Sse(SseConfig),
}

/// A server that is a process of its own.
#[derive(Clone, Debug)]
pub struct StdioConfig {
    pub command: String,
    pub args: Vec<String>,
    /// Of two values with one name the later counts.
    pub env: Vec<(String, String)>,
    pub cwd: Option<String>,
}

impl StdioConfig {
    pub fn new(command: &str, args: Vec<String>) -> (r: Self)
        ensures
            r.command@ == command@,
            r.args == args,
            pair_views(r.env@) == Seq::<(Seq<char>, Seq<char>)>::empty(),
            r.cwd is None,
    {
        let r = StdioConfig { command: command.to_owned(), args, env: Vec::new(), cwd: None };
        assert(pair_views(r.env@) =~= Seq::<(Seq<char>, Seq<char>)>::empty());
        r
    }

    pub fn with_env(self, key: &str, value: &str) -> (r: Self)
        ensures
            r.command == self.command,
            r.args == self.args,
            pair_views(r.env@) == pair_views(self.env@).push((key@, value@)),
            r.cwd == self.cwd,
    {
        let mut r = self;
        push_pair(&mut r.env, key, value);
        r
    }

    pub fn with_cwd(self, cwd: &str) -> (r: Self)
        ensures
            r.command == self.command,
            r.args == self.args,
            r.env == self.env,
            opt_text(r.cwd) == Some(cwd@),
    {
        StdioConfig { cwd: Some(cwd.to_owned()), ..self }
    }

    /// The value of a variable.
    pub fn env_value(&self, key: &str) -> (r: Option<&str>)
        ensures
            match r {
                Some(v) => last_pair(pair_views(self.env@), key@) == Some(v@),
                None => last_pair(pair_views(self.env@), key@) is None,
            },
    {
        find_last_pair(&self.env, key)
    }
}

/// Whether a later pair has the name of this one.
pub open spec fn comes_again(pairs: Seq<(Seq<char>, Seq<char>)>, i: int) -> bool {
    exists|j: int| i < j < pairs.len() && (#[trigger] pairs[j]).0 == pairs[i].0
}

/// Each pair, unless a later one has its name.
pub open spec fn each_that_counts(pairs: Seq<(Seq<char>, Seq<char>)>) -> Seq<
    Option<(Seq<char>, Seq<char>)>,
> {
    Seq::new(
        pairs.len(),
        |i: int|
            if comes_again(pairs, i) {
                None
            } else {
                Some(pairs[i])
            },
    )
}

/// The pairs that count: of those with one name the last.
pub open spec fn counting(pairs: Seq<(Seq<char>, Seq<char>)>) -> Seq<(Seq<char>, Seq<char>)> {
    flattened(each_that_counts(pairs))
}

/// What is wrong with a header, if anything is.
pub open spec fn header_fault(name: Seq<char>, value: Seq<char>) -> Option<McpErrorView> {
    if !header_name_ok(name) {
        Some(McpErrorView::Transport("Invalid header name: invalid HTTP header name"@))
    } else if !header_text_ok(value) {
        Some(McpErrorView::Transport("Invalid header value: failed to parse header value"@))
    } else {
        None
    }
}

/// What is wrong with the first header with which something is.
pub open spec fn first_fault(headers: Seq<(Seq<char>, Seq<char>)>) -> Option<McpErrorView>
    decreases headers.len(),
{
    if headers.len() == 0 {
        None
    } else {
        match first_fault(headers.drop_last()) {
            Some(e) => Some(e),
            None => header_fault(headers.last().0, headers.last().1),
        }
    }
}

/// What is wrong with the first headers is wrong with all.
proof fn fault_stays(headers: Seq<(Seq<char>, Seq<char>)>, n: int)
    requires
        0 <= n <= headers.len(),
        first_fault(headers.take(n)) is Some,
    ensures
        first_fault(headers) == first_fault(headers.take(n)),
    decreases headers.len() - n,
{
    if n == headers.len() {
        assert(headers.take(n) =~= headers);
    } else {
        assert(headers.take(n + 1).drop_last() =~= headers.take(n));
        fault_stays(headers, n + 1);
    }
}

/// A server that is reached over HTTP.
#[derive(Clone, Debug)]
pub struct SseConfig {
    pub url: String,
    /// Of two values with one name the later counts.
    pub headers: Vec<(String, String)>,
}

impl SseConfig {
    pub fn new(url: &str) -> (r: Self)
        ensures
            r.url@ == url@,
            pair_views(r.headers@) == Seq::<(Seq<char>, Seq<char>)>::empty(),
    {
        let r = SseConfig { url: url.to_owned(), headers: Vec::new() };
        assert(pair_views(r.headers@) =~= Seq::<(Seq<char>, Seq<char>)>::empty());
        r
    }

    pub fn with_header(self, key: &str, value: &str) -> (r: Self)
        ensures
            r.url == self.url,
            pair_views(r.headers@) == pair_views(self.headers@).push((key@, value@)),
    {
        let mut r = self;
        push_pair(&mut r.headers, key, value);
        r
    }

    pub fn with_api_key(self, api_key: &str) -> (r: Self)
        ensures
            r.url == self.url,
            pair_views(r.headers@) == pair_views(self.headers@).push(("X-API-KEY"@, api_key@)),
    {
        self.with_header("X-API-KEY", api_key)
    }

    fn counting_headers(&self) -> (r: Vec<(String, String)>)
        ensures
            pair_views(r@) == counting(pair_views(self.headers@)),
    {
        let ghost pairs = pair_views(self.headers@);
        let ghost marks = each_that_counts(pairs);
        let mut out: Vec<(String, String)> = Vec::new();
        let mut i: usize = 0;
        assert(pair_views(out@) =~= flattened(marks.subrange(0, 0)));
        while i < self.headers.len()
            invariant
                i <= self.headers.len(),
                pairs == pair_views(self.headers@),
                marks == each_that_counts(pairs),
                pair_views(out@) == flattened(marks.subrange(0, i as int)),
            decreases self.headers.len() - i,
        {
            let (name, value) = &self.headers[i];
            let mut again = false;
            let mut j: usize = i + 1;
            while j < self.headers.len()
                invariant
                    i < j <= self.headers.len(),
                    pairs == pair_views(self.headers@),
                    name@ == pairs[i as int].0,
                    again == (exists|k: int|
                        i < k < j && (#[trigger] pairs[k]).0 == pairs[i as int].0),
                decreases self.headers.len() - j,
            {
                assert(pairs[j as int].0 == self.headers@[j as int].0@);
                if str_eq(self.headers[j].0.as_str(), name.as_str()) {
                    again = true;
                }
                j = j + 1;
            }
            assert(again == comes_again(pairs, i as int));
            proof {
                flattened_next(marks, i as int);
            }
            if !again {
                push_pair(&mut out, name.as_str(), value.as_str());
            }
            i = i + 1;
        }
        proof {
            whole_prefix(marks);
        }
        out
    }

    /// The headers of every request: of those with one name the last. A name or a
    /// value that cannot stand in a header is an error.
    pub fn request_headers(&self) -> (r: Result<Vec<(String, String)>, McpError>)
        ensures
            match r {
                Ok(headers) => {
                    &&& first_fault(counting(pair_views(self.headers@))) is None
                    &&& pair_views(headers@) == counting(pair_views(self.headers@))
                },
                Err(e) => first_fault(counting(pair_views(self.headers@))) == Some(e@),
            },
    {
        let headers = self.counting_headers();
        let ghost pairs = pair_views(headers@);
        let mut i: usize = 0;
        assert(pairs.take(0) =~= Seq::empty());
        while i < headers.len()
            invariant
                i <= headers.len(),
                pairs == pair_views(headers@),
                pairs == counting(pair_views(self.headers@)),
                first_fault(pairs.take(i as int)) is None,
            decreases headers.len() - i,
        {
            let (name, value) = &headers[i];
            proof {
                assert(pairs.take(i + 1).drop_last() =~= pairs.take(i as int));
                assert(pairs.take(i + 1).last() == (name@, value@));
                reveal_strlit("Invalid header name: ");
                reveal_strlit("Invalid header name: invalid HTTP header name");
                reveal_strlit("invalid HTTP header name");
                reveal_strlit("Invalid header value: ");
                reveal_strlit("Invalid header value: failed to parse header value");
                reveal_strlit("failed to parse header value");
                assert("Invalid header name: "@ + "invalid HTTP header name"@
                    =~= "Invalid header name: invalid HTTP header name"@);
                assert("Invalid header value: "@ + "failed to parse header value"@
                    =~= "Invalid header value: failed to parse header value"@);
            }
            if let Err(e) = header_name(name.as_str()) {
                proof {
                    fault_stays(pairs, i + 1);
                }
                return Err(McpError::Transport(concat2("Invalid header name: ", e.as_str())));
            }
            if let Err(e) = header_value(value.as_str()) {
                proof {
                    fault_stays(pairs, i + 1);
                }
                return Err(McpError::Transport(concat2("Invalid header value: ", e.as_str())));
            }
            i = i + 1;
        }
        assert(pairs.take(headers.len() as int) =~= pairs);
        Ok(headers)
    }

    /// The value of a header.
    pub fn header(&self, key: &str) -> (r: Option<&str>)
        ensures
            match r {
                Some(v) => last_pair(pair_views(self.headers@), key@) == Some(v@),
                None => last_pair(pair_views(self.headers@), key@) is None,
            },
    {
        find_last_pair(&self.headers, key)
    }
}

/// A request tells the version of the protocol, its method, what it belongs to and what it
/// takes; something that is only told belongs to nothing.
pub proof fn requests_tell_their_method(request: JsonRpcRequest, call: CallToolParams)
    ensures
        ({
            let told = request.document();
            &&& told.field_text("jsonrpc"@) == Some("2.0"@)
            &&& told.field_text("method"@) == Some(request.method@)
            &&& told.field("params"@) == opt_json(request.params)
            &&& request.id matches JsonRpcId::Number(n) ==> told.field_whole("id"@) == Some(n)
            &&& request.id matches JsonRpcId::String(s) ==> told.field_text("id"@) == Some(s@)
            &&& request.id is Null ==> told.field("id"@) is None
        }),
        call.document().field_text("name"@) == Some(call.name@),
        call.document().field("arguments"@) == opt_json(call.arguments),
{
    broadcast use crate::json::group_fields;

    reveal_strlit("jsonrpc");
    reveal_strlit("id");
    reveal_strlit("method");
    reveal_strlit("params");
    reveal_strlit("name");
    reveal_strlit("arguments");
    assert("jsonrpc"@.len() == 7
        && "id"@.len() == 2
        && "method"@.len() == 6
        && "params"@.len() == 6
        && "name"@.len() == 4
        && "arguments"@.len() == 9
        && "method"@[0] == 'm'
        && "params"@[0] == 'p');
}

/// Of headers with one name the last counts, and only that.
pub proof fn the_last_header_counts(pairs: Seq<(Seq<char>, Seq<char>)>, i: int)
    ensures
        0 <= i < pairs.len() ==> (comes_again(pairs, i) <==> exists|j: int|
            i < j < pairs.len() && (#[trigger] pairs[j]).0 == pairs[i].0),
        0 <= i < pairs.len() && !comes_again(pairs, i) ==> counting(pairs).contains(pairs[i]),
        pairs.len() > 0 ==> counting(pairs).contains(pairs.last()),
{
    if 0 <= i < pairs.len() && !comes_again(pairs, i) {
        crate::seqs::each_that_is_there_is_kept(each_that_counts(pairs), i, pairs[i]);
    }
    if pairs.len() > 0 {
        crate::seqs::each_that_is_there_is_kept(
            each_that_counts(pairs),
            pairs.len() - 1,
            pairs.last(),
        );
    }
}

/// Headers are refused for the first one with a fault: its name is looked at before its
/// value.
pub proof fn the_first_fault_is_told(
    headers: Seq<(Seq<char>, Seq<char>)>,
    name: Seq<char>,
    value: Seq<char>,
)
    ensures
        first_fault(headers) is Some ==> first_fault(headers.push((name, value))) == first_fault(
            headers,
        ),
        first_fault(headers) is None ==> first_fault(headers.push((name, value))) == header_fault(
            name,
            value,
        ),
        first_fault(Seq::empty()) is None,
        header_fault(name, value) is None <==> header_name_ok(name) && header_text_ok(value),
        !header_name_ok(name) ==> header_fault(name, value) == Some(
            McpErrorView::Transport("Invalid header name: invalid HTTP header name"@),
        ),
        header_name_ok(name) && !header_text_ok(value) ==> header_fault(name, value) == Some(
            McpErrorView::Transport("Invalid header value: failed to parse header value"@),
        ),
{
    assert(headers.push((name, value)).drop_last() =~= headers);
}

/// Nothing counts but what was set, and nothing that comes again.
pub proof fn only_the_last_counts(
    pairs: Seq<(Seq<char>, Seq<char>)>,
    name: Seq<char>,
    value: Seq<char>,
    i: int,
)
    requires
        counting(pairs).contains((name, value)),
    ensures
        pairs.contains((name, value)),
        exists|k: int|
            0 <= k < pairs.len() && #[trigger] pairs[k] == (name, value) && !comes_again(pairs, k),
{
    crate::seqs::each_that_is_there_is_kept(each_that_counts(pairs), i, (name, value));
    let all = each_that_counts(pairs);
    let k = choose|k: int| 0 <= k < all.len() && all[k] == Some((name, value));
    assert(pairs[k] == (name, value));
}

} // verus!
