//! A client of several servers. `T` is what talks to a server.
use vstd::prelude::*;
use vstd::string::*;

use super::error::{McpError, McpErrorView};
use super::types::{
    CallToolParams, JsonRpcId, JsonRpcRequest, McpTool, ServerCapabilities, ServerConfig, SseConfig,
    StdioConfig, ToolView,
};
use crate::json::{field_if, opt_json, Json, JsonView};
use crate::registry::{names, Registry};
use crate::seqs::{prefix_next, whole_prefix};
use crate::text::{concat2, pair_views, str_eq, texts};

verus! {

/// A connection with a server.
#[derive(Debug)]
pub struct ServerConnection<T> {
    pub transport: T,
    pub capabilities: ServerCapabilities,
    pub tools: Vec<McpTool>,
    pub initialized: bool,
}

/// A client of several servers.
#[derive(Debug)]
pub struct McpClient<T> {
    pub id: String,
    pub server_configs: Registry<ServerConfig>,
    pub connections: Registry<ServerConnection<T>>,
}

/// A tool with the server that offers it.
#[derive(Debug)]
pub struct McpToolWithServer {
    pub server: String,
    pub tool: McpTool,
}

/// What tools say.
pub open spec fn tool_views(tools: Seq<McpTool>) -> Seq<ToolView> {
    Seq::new(tools.len(), |i: int| tools[i]@)
}

/// Whether a tool of that name is among others.
pub open spec fn has_tool(tools: Seq<McpTool>, name: Seq<char>) -> bool {
    exists|i: int| 0 <= i < tools.len() && (#[trigger] tools[i]).name@ == name
}

fn offers(tools: &Vec<McpTool>, name: &str) -> (r: bool)
    ensures
        r == has_tool(tools@, name@),
{
    let mut i: usize = 0;
    while i < tools.len()
        invariant
            i <= tools@.len(),
            forall|j: int| 0 <= j < i ==> (#[trigger] tools@[j]).name@ != name@,
        decreases tools@.len() - i,
    {
        if str_eq(tools[i].name.as_str(), name) {
            return true;
        }
        i = i + 1;
    }
    false
}

fn copy_tools(tools: &Vec<McpTool>) -> (r: Vec<McpTool>)
    ensures
        tool_views(r@) == tool_views(tools@),
{
    let mut out: Vec<McpTool> = Vec::new();
    let mut i: usize = 0;
    while i < tools.len()
        invariant
            i <= tools@.len(),
            out@.len() == i,
            forall|j: int| 0 <= j < i ==> (#[trigger] out@[j])@ == tools@[j]@,
        decreases tools@.len() - i,
    {
        out.push(tools[i].duplicate());
        i = i + 1;
    }
    assert(tool_views(out@) =~= tool_views(tools@));
    out
}

/// What is said of a server that is not connected.
pub open spec fn not_connected(server: Seq<char>) -> McpErrorView {
    McpErrorView::Server("Server not connected: "@ + server)
}

/// The tools of a server with its name.
pub open spec fn named_tools(server: Seq<char>, tools: Seq<McpTool>) -> Seq<(Seq<char>, ToolView)> {
    Seq::new(tools.len(), |i: int| (server, tools[i]@))
}

/// The tools of servers with their names, server by server.
pub open spec fn all_tools<T>(connections: Seq<(String, ServerConnection<T>)>) -> Seq<
    (Seq<char>, ToolView),
>
    decreases connections.len(),
{
    if connections.len() == 0 {
        Seq::empty()
    } else {
        all_tools(connections.drop_last()) + named_tools(
            connections.last().0@,
            connections.last().1.tools@,
        )
    }
}

/// What tools with their servers say.
pub open spec fn listed_views(list: Seq<McpToolWithServer>) -> Seq<(Seq<char>, ToolView)> {
    Seq::new(list.len(), |i: int| (list[i].server@, list[i].tool@))
}

/// The request that begins a connection.
pub fn initialize_request(params: Json) -> (r: JsonRpcRequest)
    ensures
        r == (JsonRpcRequest { id: r.id, method: r.method, params: Some(params) }),
        r.id == JsonRpcId::Number(0),
        r.method@ == "initialize"@,
{
    JsonRpcRequest::new("initialize", Some(params), 0)
}

/// What a server is told once the connection began.
pub fn initialized_notification() -> (r: JsonRpcRequest)
    ensures
        r.id == JsonRpcId::Null,
        r.method@ == "initialized"@,
        r.params is None,
{
    JsonRpcRequest::notification("initialized", None)
}

/// The request for a server's tools, if it has any.
pub fn tools_request(capabilities: &ServerCapabilities) -> (r: Option<JsonRpcRequest>)
    ensures
        match r {
            Some(request) => {
                &&& capabilities.tools is Some
                &&& request.id == JsonRpcId::Number(0)
                &&& request.method@ == "tools/list"@
                &&& request.params is None
            },
            None => capabilities.tools is None,
        },
{
    if capabilities.tools.is_some() {
        Some(JsonRpcRequest::new("tools/list", None, 0))
    } else {
        None
    }
}

/// The document that calls a tool.
pub open spec fn call_document(tool: Seq<char>, arguments: JsonView) -> JsonView {
    JsonView::Object(
        seq![("name"@, JsonView::String(tool))] + field_if(
            "arguments"@,
            if arguments is Null {
                None
            } else {
                Some(arguments)
            },
        ),
    )
}

impl<T> McpClient<T> {
    /// No name stands for two servers.
    pub open spec fn well_formed(self) -> bool {
        self.server_configs.well_formed() && self.connections.well_formed()
    }

    pub fn new(id: &str) -> (r: Self)
        ensures
            r.well_formed(),
            r.id@ == id@,
            r.server_configs.entries@.len() == 0,
            r.connections.entries@.len() == 0,
    {
        McpClient {
            id: id.to_owned(),
            server_configs: Registry::new(),
            connections: Registry::new(),
        }
    }

    pub fn id(&self) -> (r: &str)
        ensures
            r@ == self.id@,
    {
        self.id.as_str()
    }

    /// Sets how a server is reached, in place of what was set.
    pub fn add_server(&mut self, name: &str, config: ServerConfig)
        requires
            old(self).well_formed(),
        ensures
            final(self).well_formed(),
            final(self).id == old(self).id,
            final(self).connections == old(self).connections,
            final(self).server_configs.value(name@) == Some(config),
            forall|other: Seq<char>|
                other != name@ ==> #[trigger] final(self).server_configs.value(other) == old(
                    self,
                ).server_configs.value(other),
            final(self).server_configs.entries@.len() == old(self).server_configs.entries@.len() + (
            if old(self).server_configs.value(name@) is None {
                1int
            } else {
                0int
            }),
    {
        self.server_configs.register(name, config);
    }

    /// Sets the process that is a server.
    pub fn add_stdio_server(&mut self, name: &str, command: &str, args: Vec<String>)
        requires
            old(self).well_formed(),
        ensures
            final(self).well_formed(),
            final(self).id == old(self).id,
            final(self).connections == old(self).connections,
            final(self).server_configs.value(name@) matches Some(ServerConfig::Stdio(config)) && {
                &&& config.command@ == command@
                &&& config.args == args
                &&& config.env@.len() == 0
                &&& config.cwd is None
            },
            forall|other: Seq<char>|
                other != name@ ==> #[trigger] final(self).server_configs.value(other) == old(
                    self,
                ).server_configs.value(other),
            final(self).server_configs.entries@.len() == old(self).server_configs.entries@.len() + (
            if old(self).server_configs.value(name@) is None {
                1int
            } else {
                0int
            }),
    {
        let config = StdioConfig::new(command, args);
        assert(pair_views(config.env@).len() == 0);
        self.add_server(name, ServerConfig::Stdio(config));
    }

    /// Sets where a server is reached over HTTP.
    pub fn add_sse_server(&mut self, name: &str, url: &str)
        requires
            old(self).well_formed(),
        ensures
            final(self).well_formed(),
            final(self).id == old(self).id,
            final(self).connections == old(self).connections,
            final(self).server_configs.value(name@) matches Some(ServerConfig::Sse(config)) && {
                &&& config.url@ == url@
                &&& config.headers@.len() == 0
            },
            forall|other: Seq<char>|
                other != name@ ==> #[trigger] final(self).server_configs.value(other) == old(
                    self,
                ).server_configs.value(other),
            final(self).server_configs.entries@.len() == old(self).server_configs.entries@.len() + (
            if old(self).server_configs.value(name@) is None {
                1int
            } else {
                0int
            }),
    {
        let config = SseConfig::new(url);
        assert(pair_views(config.headers@).len() == 0);
        self.add_server(name, ServerConfig::Sse(config));
    }

    /// Sets where a server is reached over HTTP, with a key.
    pub fn add_sse_server_with_api_key(&mut self, name: &str, url: &str, api_key: &str)
        requires
            old(self).well_formed(),
        ensures
            final(self).well_formed(),
            final(self).id == old(self).id,
            final(self).connections == old(self).connections,
            final(self).server_configs.value(name@) matches Some(ServerConfig::Sse(config)) && {
                &&& config.url@ == url@
                &&& pair_views(config.headers@) == seq![("X-API-KEY"@, api_key@)]
            },
            forall|other: Seq<char>|
                other != name@ ==> #[trigger] final(self).server_configs.value(other) == old(
                    self,
                ).server_configs.value(other),
            final(self).server_configs.entries@.len() == old(self).server_configs.entries@.len() + (
            if old(self).server_configs.value(name@) is None {
                1int
            } else {
                0int
            }),
    {
        let config = SseConfig::new(url).with_api_key(api_key);
        assert(pair_views(config.headers@) =~= seq![("X-API-KEY"@, api_key@)]);
        self.add_server(name, ServerConfig::Sse(config));
    }

    /// Keeps a connection that was made, in place of one that was there.
    pub fn store_connection(
        &mut self,
        name: &str,
        transport: T,
        capabilities: ServerCapabilities,
        tools: Vec<McpTool>,
    )
        requires
            old(self).well_formed(),
        ensures
            final(self).well_formed(),
            final(self).id == old(self).id,
            final(self).server_configs == old(self).server_configs,
            final(self).connections.value(name@) == Some(
                ServerConnection { transport, capabilities, tools, initialized: true },
            ),
            forall|other: Seq<char>|
                other != name@ ==> #[trigger] final(self).connections.value(other) == old(
                    self,
                ).connections.value(other),
    {
        self.connections.register(
            name,
            ServerConnection { transport, capabilities, tools, initialized: true },
        );
    }

    /// Drops all connections: what there was.
    pub fn disconnect(&mut self) -> (r: Vec<(String, ServerConnection<T>)>)
        ensures
            r@ == old(self).connections.entries@,
            final(self).id == old(self).id,
            final(self).server_configs == old(self).server_configs,
            final(self).connections.entries@.len() == 0,
            final(self).connections.well_formed(),
    {
        let mut taken: Vec<(String, ServerConnection<T>)> = Vec::new();
        core::mem::swap(&mut taken, &mut self.connections.entries);
        taken
    }

    /// The tools of all servers.
    pub fn list_tools(&self) -> (r: Vec<McpToolWithServer>)
        ensures
            listed_views(r@) == all_tools(self.connections.entries@),
    {
        let mut out: Vec<McpToolWithServer> = Vec::new();
        let mut i: usize = 0;
        proof {
            whole_prefix(self.connections.entries@);
            assert(listed_views(out@) =~= Seq::empty());
        }
        while i < self.connections.entries.len()
            invariant
                i <= self.connections.entries@.len(),
                listed_views(out@) == all_tools(self.connections.entries@.subrange(0, i as int)),
            decreases self.connections.entries@.len() - i,
        {
            let ghost before = listed_views(out@);
            let tools = &self.connections.entries[i].1.tools;
            let ghost own = named_tools(self.connections.entries@[i as int].0@, tools@);
            let mut k: usize = 0;
            assert(before + own.subrange(0, 0) =~= before);
            while k < tools.len()
                invariant
                    i < self.connections.entries@.len(),
                    *tools == self.connections.entries@[i as int].1.tools,
                    own == named_tools(self.connections.entries@[i as int].0@, tools@),
                    k <= tools@.len(),
                    listed_views(out@) == before + own.subrange(0, k as int),
                decreases tools@.len() - k,
            {
                let ghost so_far = listed_views(out@);
                let entry = McpToolWithServer {
                    server: self.connections.entries[i].0.clone(),
                    tool: tools[k].duplicate(),
                };
                out.push(entry);
                proof {
                    assert(listed_views(out@) =~= so_far.push((entry.server@, entry.tool@)));
                    prefix_next(own, k as int);
                    assert(so_far.push(own[k as int]) =~= before + own.subrange(0, k + 1));
                }
                k = k + 1;
            }
            proof {
                whole_prefix(own);
                prefix_next(self.connections.entries@, i as int);
            }
            i = i + 1;
        }
        proof {
            whole_prefix(self.connections.entries@);
        }
        out
    }

    fn connection(&self, server: &str) -> (r: Result<&ServerConnection<T>, McpError>)
        ensures
            match r {
                Ok(connection) => self.connections.value(server@) == Some(*connection),
                Err(e) => self.connections.value(server@) is None && e@ == not_connected(server@),
            },
    {
        match self.connections.get(server) {
            Some(connection) => Ok(connection),
            None => Err(McpError::Server(concat2("Server not connected: ", server))),
        }
    }

    /// The tools of a server.
    pub fn list_server_tools(&self, server: &str) -> (r: Result<Vec<McpTool>, McpError>)
        ensures
            match self.connections.value(server@) {
                Some(connection) => r matches Ok(tools) && tool_views(tools@) == tool_views(
                    connection.tools@,
                ),
                None => r matches Err(e) && e@ == not_connected(server@),
            },
    {
        match self.connection(server) {
            Ok(connection) => Ok(copy_tools(&connection.tools)),
            Err(e) => Err(e),
        }
    }

    /// The request that calls a tool of a server, unless the server is not connected
    /// or has no such tool.
    pub fn prepare_call(&self, server: &str, tool_name: &str, arguments: Json) -> (r: Result<
        JsonRpcRequest,
        McpError,
    >)
        ensures
            match self.connections.value(server@) {
                Some(connection) => if has_tool(connection.tools@, tool_name@) {
                    &&& r matches Ok(request)
                    &&& request.id == JsonRpcId::Number(0)
                    &&& request.method@ == "tools/call"@
                    &&& opt_json(request.params) == Some(call_document(tool_name@, arguments@))
                } else {
                    r matches Err(e) && e@ == McpErrorView::ToolNotFound(tool_name@)
                },
                None => r matches Err(e) && e@ == not_connected(server@),
            },
    {
        let connection = match self.connection(server) {
            Ok(connection) => connection,
            Err(e) => return Err(e),
        };
        if !offers(&connection.tools, tool_name) {
            return Err(McpError::ToolNotFound(tool_name.to_owned()));
        }
        let own = if arguments.is_null() {
            None
        } else {
            Some(arguments)
        };
        let params = CallToolParams { name: tool_name.to_owned(), arguments: own };
        Ok(JsonRpcRequest::new("tools/call", Some(params.to_json()), 0))
    }

    /// A server that has a tool.
    pub fn find_server(&self, tool_name: &str) -> (r: Result<String, McpError>)
        ensures
            match r {
                Ok(server) => exists|i: int|
                    0 <= i < self.connections.entries@.len() && (
                    #[trigger] self.connections.entries@[i]).0@ == server@ && has_tool(
                        self.connections.entries@[i].1.tools@,
                        tool_name@,
                    ),
                Err(e) => e@ == McpErrorView::ToolNotFound(tool_name@) && forall|i: int|
                    0 <= i < self.connections.entries@.len() ==> !has_tool(
                        (#[trigger] self.connections.entries@[i]).1.tools@,
                        tool_name@,
                    ),
            },
    {
        let mut i: usize = 0;
        while i < self.connections.entries.len()
            invariant
                i <= self.connections.entries@.len(),
                forall|j: int|
                    0 <= j < i ==> !has_tool(
                        (#[trigger] self.connections.entries@[j]).1.tools@,
                        tool_name@,
                    ),
            decreases self.connections.entries@.len() - i,
        {
            if offers(&self.connections.entries[i].1.tools, tool_name) {
                return Ok(self.connections.entries[i].0.clone());
            }
            i = i + 1;
        }
        Err(McpError::ToolNotFound(tool_name.to_owned()))
    }

    /// What a server can do.
    pub fn get_capabilities(&self, server: &str) -> (r: Result<ServerCapabilities, McpError>)
        ensures
            match self.connections.value(server@) {
                Some(connection) => r == Ok::<ServerCapabilities, McpError>(
                    connection.capabilities,
                ),
                None => r matches Err(e) && e@ == not_connected(server@),
            },
    {
        match self.connection(server) {
            Ok(connection) => Ok(connection.capabilities),
            Err(e) => Err(e),
        }
    }

    /// Whether a server is connected. `transport_connected` is what its transport
    /// says.
    pub fn is_connected(&self, server: &str, transport_connected: bool) -> (r: bool)
        ensures
            r == (match self.connections.value(server@) {
                Some(connection) => connection.initialized && transport_connected,
                None => false,
            }),
    {
        match self.connections.get(server) {
            Some(connection) => connection.initialized && transport_connected,
            None => false,
        }
    }

    /// The servers that are connected.
    pub fn connected_servers(&self) -> (r: Vec<String>)
        ensures
            texts(r@) == names(self.connections.entries@),
    {
        self.connections.list()
    }
}

/// Tools are listed server by server, each with its server's name and in the order in
/// which the server told them.
pub proof fn tools_are_listed_in_order<T>(
    connections: Seq<(String, ServerConnection<T>)>,
    connection: (String, ServerConnection<T>),
    i: int,
)
    ensures
        ({
            let before = all_tools(connections);
            let all = all_tools(connections.push(connection));
            let tools = connection.1.tools@;
            &&& all.len() == before.len() + tools.len()
            &&& all.subrange(0, before.len() as int) == before
            &&& 0 <= i < tools.len() ==> all[before.len() + i] == (connection.0@, tools[i]@)
        }),
{
    assert(connections.push(connection).drop_last() =~= connections);
    let before = all_tools(connections);
    assert(all_tools(connections.push(connection)).subrange(0, before.len() as int) =~= before);
}

/// A call names the tool and carries its arguments, unless there are none.
pub proof fn calls_carry_their_arguments(tool: Seq<char>, arguments: JsonView, server: Seq<char>)
    ensures
        call_document(tool, arguments).field_text("name"@) == Some(tool),
        arguments is Null ==> call_document(tool, arguments).field("arguments"@) is None,
        !(arguments is Null) ==> call_document(tool, arguments).field("arguments"@) == Some(
            arguments,
        ),
        not_connected(server) == McpErrorView::Server("Server not connected: "@ + server),
{
    broadcast use crate::json::group_fields;

    reveal_strlit("name");
    reveal_strlit("arguments");
    assert("name"@.len() == 4
        && "arguments"@.len() == 9);
}

/// A tool is offered if and only if one of that name is listed.
pub proof fn tools_are_found_by_name(tools: Seq<McpTool>, tool: McpTool, name: Seq<char>)
    ensures
        tool.name@ == name ==> has_tool(tools.push(tool), name),
        tool.name@ != name ==> has_tool(tools.push(tool), name) == has_tool(tools, name),
        !has_tool(Seq::empty(), name),
{
    let all = tools.push(tool);
    if tool.name@ == name {
        assert(all[tools.len() as int].name@ == name);
    }
    if has_tool(tools, name) {
        let i = choose|i: int| 0 <= i < tools.len() && (#[trigger] tools[i]).name@ == name;
        assert(all[i].name@ == name);
    }
    if has_tool(all, name) && tool.name@ != name {
        let i = choose|i: int| 0 <= i < all.len() && (#[trigger] all[i]).name@ == name;
        assert(tools[i].name@ == name);
    }
}

} // verus!
