use agnt5_sdk_core::json::Json;
use agnt5_sdk_core::logging::{ErrorBuffer, ErrorVisitor, MAX_ERRORS};
use agnt5_sdk_core::mcp::client::{
    initialize_request, initialized_notification, tools_request, McpClient,
};
use agnt5_sdk_core::mcp::error::McpError;
use agnt5_sdk_core::mcp::framing::{read_message, write_message, FrameFault, FrameReader, FrameStep};
use agnt5_sdk_core::mcp::transport::{
    check_notification, read_stretch, spawn_error, RequestStep, RequestTable, SseSession,
    WaitOutcome,
};
use agnt5_sdk_core::mcp::types::{
    extract_response_id, JsonRpcError, JsonRpcId, JsonRpcRequest, JsonRpcResponse, McpTool,
    ServerCapabilities, ServerConfig, SseConfig, StdioConfig, ToolsCapability,
};

fn tool(name: &str) -> McpTool {
    McpTool { name: name.to_string(), description: None, input_schema: Json::Null }
}

fn capabilities(tools: bool) -> ServerCapabilities {
    ServerCapabilities {
        tools: if tools { Some(ToolsCapability { list_changed: None }) } else { None },
        resources: false,
        prompts: false,
    }
}

fn reply(id: JsonRpcId) -> JsonRpcResponse {
    JsonRpcResponse { id, result: Some(Json::whole(1)), error: None }
}

#[test]
fn test_client_creation() {
    let client = McpClient::<()>::new("test-client");
    assert_eq!(client.id(), "test-client");
}

#[test]
fn test_add_servers() {
    let mut client = McpClient::<()>::new("test");
    client.add_stdio_server("wikipedia", "npx", vec!["-y".into(), "wikipedia-mcp".into()]);
    client.add_sse_server("remote", "https://example.com/mcp");

    assert_eq!(client.server_configs.entries.len(), 2);
}

#[test]
fn test_stdio_config() {
    let config = StdioConfig::new("npx", vec!["-y".to_string(), "wikipedia-mcp".to_string()])
        .with_env("FOO", "bar")
        .with_cwd("/tmp");

    assert_eq!(config.command, "npx");
    assert_eq!(config.args.len(), 2);
    assert_eq!(config.env_value("FOO"), Some("bar"));
    assert_eq!(config.cwd, Some("/tmp".to_string()));
}

#[test]
fn test_sse_config() {
    let config = SseConfig::new("https://example.com/mcp/sse").with_api_key("test-key");

    assert_eq!(config.url, "https://example.com/mcp/sse");
    assert_eq!(config.header("X-API-KEY"), Some("test-key"));
}

#[test]
fn a_server_is_set_once() {
    let mut client = McpClient::<()>::new("c");
    client.add_sse_server("a", "http://one.test");
    client.add_sse_server_with_api_key("a", "http://two.test", "k");
    assert_eq!(client.server_configs.entries.len(), 1);
    match client.server_configs.get("a") {
        Some(ServerConfig::Sse(config)) => {
            assert_eq!(config.url, "http://two.test");
            assert_eq!(config.header("X-API-KEY"), Some("k"));
        }
        other => panic!("expected a server over HTTP, got {other:?}"),
    }
}

#[test]
fn messages_are_written_and_read() {
    assert_eq!(write_message(b"{}"), b"Content-Length: 2\r\n\r\n{}".to_vec());
    let mut stream = write_message(b"one");
    stream.extend_from_slice(&write_message(b""));
    stream.extend_from_slice(&write_message("zwölf".as_bytes()));
    for cut in 0..stream.len() {
        let mut reader = FrameReader::new();
        let mut found: Vec<Vec<u8>> = Vec::new();
        for part in [&stream[..cut], &stream[cut..]] {
            reader.push(part);
            while let FrameStep::Message { body, .. } = reader.next_message(false) {
                found.push(body);
            }
        }
        assert_eq!(found, vec![b"one".to_vec(), b"".to_vec(), "zwölf".as_bytes().to_vec()]);
        assert!(matches!(reader.next_message(true), FrameStep::Ended));
    }
}

#[test]
fn other_headers_are_passed_over() {
    let step = read_message(b"X-A: b\nContent-Length:  +3 \n\nabcd", false);
    match step {
        FrameStep::Message { body, used } => {
            assert_eq!(body, b"abc".to_vec());
            assert_eq!(used, 32);
        }
        other => panic!("expected a message, got {other:?}"),
    }
}

#[test]
fn broken_streams_are_refused() {
    let cases: Vec<(&[u8], bool, FrameFault)> = vec![
        (b"Content-Length: x\r\n", false, FrameFault::InvalidLength),
        (b"\r\nabc", false, FrameFault::MissingLength),
        (b"\xff\n", false, FrameFault::NotText),
        (b"Content-Length: 5\r\n\r\nabc", true, FrameFault::EarlyEnd),
    ];
    for (bytes, ended, fault) in cases {
        match read_message(bytes, ended) {
            FrameStep::Broken(found) => assert_eq!(found, fault),
            other => panic!("expected a fault, got {other:?}"),
        }
    }
    assert!(matches!(read_message(b"Content-Le", false), FrameStep::More));
    assert!(matches!(read_message(b"", true), FrameStep::Ended));
    assert_eq!(
        McpError::from_frame(FrameFault::InvalidLength).message(),
        "Protocol error: Invalid Content-Length"
    );
    assert_eq!(
        McpError::from_frame(FrameFault::MissingLength).message(),
        "Protocol error: Missing Content-Length header"
    );
}

#[test]
fn replies_find_who_waits() {
    let mut table = RequestTable::<&str>::new();
    let first = table.open("a");
    let second = table.open("b");
    assert_eq!((first, second), (1, 2));
    assert_eq!(table.route(&reply(JsonRpcId::Number(2))), Some("b"));
    assert_eq!(table.route(&reply(JsonRpcId::Number(2))), None);
    assert_eq!(table.route(&reply(JsonRpcId::String("1".to_string()))), None);
    assert_eq!(table.close(1), Some("a"));
    assert_eq!(extract_response_id(&reply(JsonRpcId::Null)), None);
}

#[test]
fn numbers_begin_again_after_the_last() {
    let mut table = RequestTable::<u8>::new();
    table.next_id = u64::MAX;
    assert_eq!(table.open(1), u64::MAX);
    assert_eq!(table.open(2), 0);
}

#[test]
fn what_follows_a_request_over_http() {
    let mut table = RequestTable::<u8>::new();
    let id = table.open(1);
    let refused = table.after_post(id, false, "500 Internal Server Error", None);
    assert_eq!(
        refused.unwrap_err().message(),
        "HTTP error: Request failed: 500 Internal Server Error"
    );
    assert!(table.pending.is_empty());
    let id = table.open(2);
    assert!(matches!(table.after_post(id, true, "200 OK", None), Ok(RequestStep::Wait)));
    assert_eq!(table.pending.len(), 1);
    let answered = table.after_post(id, true, "200 OK", Some(reply(JsonRpcId::Number(id))));
    assert!(matches!(answered, Ok(RequestStep::Reply(_))));
    assert!(table.pending.is_empty());
    let id = table.open(3);
    assert!(matches!(table.after_wait(id, WaitOutcome::TimedOut), Err(McpError::Timeout)));
    assert!(table.pending.is_empty());
    assert!(matches!(
        table.after_wait(9, WaitOutcome::Closed),
        Err(McpError::ConnectionClosed)
    ));
    assert!(table.after_wait(9, WaitOutcome::Reply(reply(JsonRpcId::Number(9)))).is_ok());
}

#[test]
fn sessions_are_named_by_the_server() {
    let mut session = SseSession::new("http://s.test/sse");
    assert!(matches!(session.request_url(), Err(McpError::ConnectionClosed)));
    assert!(session.on_connect(false, "404 Not Found").is_err());
    session.on_connect(true, "200 OK").unwrap();
    assert_eq!(session.request_url().unwrap(), "http://s.test/sse");
    let bytes = b": note\ndata: {\"session\": \"abc\"}\ndata: no json\ndata: {\"x\": 1}\n";
    let documents = read_stretch(bytes);
    assert_eq!(documents.len(), 2);
    for document in &documents {
        session.on_document(document);
    }
    assert_eq!(session.request_url().unwrap(), "http://s.test/sse?session=abc");
    session.url = "http://s.test/sse?a=1".to_string();
    assert_eq!(session.request_url().unwrap(), "http://s.test/sse?a=1&session=abc");
    session.close();
    assert!(session.request_url().is_err());
    assert!(check_notification(true, "200 OK").is_ok());
    assert_eq!(
        check_notification(false, "500").unwrap_err().message(),
        "HTTP error: Notification failed: 500"
    );
}

#[test]
fn bytes_that_are_no_text_do_not_stop_a_stream() {
    let documents = read_stretch(b"data: {\"a\": \"\xff\"}\n");
    assert_eq!(documents.len(), 1);
    assert_eq!(documents[0].get_str("a"), Some("\u{fffd}"));
}

#[test]
fn tools_are_called_where_they_are() {
    let mut client = McpClient::<u8>::new("c");
    client.store_connection("one", 1, capabilities(true), vec![tool("search"), tool("read")]);
    client.store_connection("two", 2, capabilities(false), vec![tool("write")]);
    let all = client.list_tools();
    assert_eq!(all.len(), 3);
    assert_eq!(all[2].server, "two");
    assert_eq!(client.list_server_tools("one").unwrap().len(), 2);
    let request = client
        .prepare_call("one", "search", Json::parse(r#"{"query": "Rust"}"#).unwrap())
        .unwrap();
    assert_eq!(request.method, "tools/call");
    assert_eq!(
        request.params.unwrap().to_text(),
        r#"{"arguments":{"query":"Rust"},"name":"search"}"#
    );
    let bare = client.prepare_call("one", "read", Json::Null).unwrap();
    assert_eq!(bare.params.unwrap().to_text(), r#"{"name":"read"}"#);
    assert_eq!(
        client.prepare_call("none", "search", Json::Null).unwrap_err().message(),
        "Server error: Server not connected: none"
    );
    assert_eq!(
        client.prepare_call("two", "search", Json::Null).unwrap_err().message(),
        "Tool not found: search"
    );
    assert_eq!(client.find_server("write").unwrap(), "two");
    assert!(client.find_server("nothing").is_err());
    assert!(client.get_capabilities("one").unwrap().tools.is_some());
    assert!(client.is_connected("one", true));
    assert!(!client.is_connected("one", false));
    assert!(!client.is_connected("none", true));
    assert_eq!(client.connected_servers(), vec!["one", "two"]);
    assert_eq!(client.disconnect().len(), 2);
    assert!(client.connected_servers().is_empty());
}

#[test]
fn connections_begin_with_a_greeting() {
    let hello = initialize_request(Json::object(Vec::new()));
    assert_eq!(
        hello.to_json().to_text(),
        r#"{"id":0,"jsonrpc":"2.0","method":"initialize","params":{}}"#
    );
    let told = initialized_notification();
    assert_eq!(told.to_json().to_text(), r#"{"jsonrpc":"2.0","method":"initialized"}"#);
    assert!(tools_request(&capabilities(false)).is_none());
    assert_eq!(tools_request(&capabilities(true)).unwrap().method, "tools/list");
    let other = JsonRpcRequest::new("x", None, 3).with_id(7);
    assert_eq!(other.to_json().get_u64("id"), Some(7));
}

#[test]
fn errors_of_a_server_are_told() {
    let failed = JsonRpcResponse {
        id: JsonRpcId::Number(1),
        result: None,
        error: Some(JsonRpcError { code: -32601, message: "no such method".into(), data: None }),
    };
    assert_eq!(failed.server_result().unwrap_err().message(), "Server error: no such method");
    let empty = JsonRpcResponse { id: JsonRpcId::Number(1), result: None, error: None };
    assert!(empty.server_result().unwrap().is_null());
    assert!(reply(JsonRpcId::Number(1)).into_result().is_ok());
}

#[test]
fn each_error_has_its_words() {
    let error = JsonRpcError { code: 1, message: "m".to_string(), data: None };
    let cases = vec![
        (McpError::Transport("x".into()), "Transport error: x"),
        (McpError::JsonRpc(error), "JSON-RPC error: m"),
        (McpError::Serialization("x".into()), "Serialization error: x"),
        (McpError::Protocol("x".into()), "Protocol error: x"),
        (McpError::NotInitialized, "Server not initialized"),
        (McpError::ToolNotFound("x".into()), "Tool not found: x"),
        (McpError::Server("x".into()), "Server error: x"),
        (McpError::Timeout, "Operation timed out"),
        (McpError::ConnectionClosed, "Connection closed"),
        (McpError::Http("x".into()), "HTTP error: x"),
        (McpError::ProcessSpawn("x".into()), "Failed to spawn process: x"),
        (McpError::Io("x".into()), "IO error: x"),
    ];
    for (error, text) in cases {
        assert_eq!(error.message(), text);
    }
    assert!(matches!(McpError::from_http(true, true, "r"), McpError::Timeout));
    assert_eq!(
        McpError::from_http(false, true, "r").message(),
        "Transport error: Connection failed: r"
    );
    assert_eq!(McpError::from_http(false, false, "r").message(), "HTTP error: r");
    let config = StdioConfig::new("npx", vec!["-y".to_string(), "w".to_string()]);
    assert_eq!(
        spawn_error(&config, "not found").message(),
        "Failed to spawn process: npx -y w: not found"
    );
}

#[test]
fn the_latest_errors_are_kept() {
    let mut buffer = ErrorBuffer::new();
    for i in 0..(MAX_ERRORS + 5) {
        buffer.record("t", &format!("{i}"));
    }
    let kept = buffer.get_error_buffer();
    assert_eq!(kept.len(), 100);
    assert_eq!(kept[0], "[t] 5");
    assert_eq!(kept[99], "[t] 104");
    buffer.clear_error_buffer();
    assert!(buffer.get_error_buffer().is_empty());
}

#[test]
fn only_errors_with_a_message_are_kept() {
    let mut buffer = ErrorBuffer::new();
    let mut visitor = ErrorVisitor::new();
    visitor.record("code", "7".to_string());
    buffer.on_event(true, &visitor);
    assert!(buffer.get_error_buffer().is_empty());
    visitor.record("message", "boom".to_string());
    buffer.on_event(false, &visitor);
    assert!(buffer.get_error_buffer().is_empty());
    buffer.on_event(true, &visitor);
    let kept = buffer.get_error_buffer();
    assert!(kept[0].starts_with("[20"));
    assert!(kept[0].ends_with("] boom"));
}

fn told(config: SseConfig) -> Result<Vec<(String, String)>, String> {
    config.request_headers().map_err(|e| e.message())
}

#[test]
fn headers_are_checked_and_the_last_of_a_name_counts() {
    let config = SseConfig::new("http://s.test")
        .with_header("X-One", "bad\nvalue")
        .with_header("X-Two", "2\té")
        .with_header("X-One", "1");
    assert_eq!(
        told(config),
        Ok(vec![
            ("X-Two".to_string(), "2\té".to_string()),
            ("X-One".to_string(), "1".to_string()),
        ])
    );
    for name in ["", "a b", "a:b", "é", "a\n", "a(b)", "[", "{"] {
        assert_eq!(
            told(SseConfig::new("http://s.test").with_header(name, "v")),
            Err("Transport error: Invalid header name: invalid HTTP header name".to_string()),
            "{name}"
        );
    }
    let every = "!#$%&'*+-.0129AZ^_`az|~";
    assert!(told(SseConfig::new("http://s.test").with_header(every, "v")).is_ok());
    assert!(told(SseConfig::new("http://s.test").with_header(&"a".repeat(65535), "v")).is_ok());
    assert!(told(SseConfig::new("http://s.test").with_header(&"a".repeat(65536), "v")).is_err());
    for value in ["a\n", "\r", "\u{7f}", "\0"] {
        assert_eq!(
            told(SseConfig::new("http://s.test").with_header("X-One", value)),
            Err("Transport error: Invalid header value: failed to parse header value".to_string())
        );
    }
}

#[test]
fn requests_wait_through_what_befalls_others() {
    let mut table = RequestTable::new();
    let own = table.open("own");
    let other = table.open("other");
    assert_ne!(own, other);
    assert_eq!(table.route(&reply(JsonRpcId::Number(other))), Some("other"));
    let third = table.open("third");
    assert_eq!(table.close(third), Some("third"));
    assert_eq!(table.close(99), None);
    assert_eq!(table.route(&reply(JsonRpcId::Number(own))), Some("own"));
    assert_eq!(table.route(&reply(JsonRpcId::Number(own))), None);
}
