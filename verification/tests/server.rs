use phishri::config::{Config, Environment};
use phishri::door::schema::{ContextBundle, Door, HashTableEntry, Metadata, Confidence};
use phishri::door::store::{
    CategoryDir, Corpus, DirEntry, DoorFile, FileContent, FileOp, FlatIndex, IndexFile, Listing,
    Outcome, SessionRecord, TextFile,
};
use phishri::json::JsonValue;
use phishri::mcp::catalog::{get_prompt, list_prompts, list_resources};
use phishri::mcp::protocol::{
    params_kind, ClientCapabilities, ClientInfo, Decoded, InitializeParams, JsonRpcError,
    JsonRpcRequest, JsonRpcResponse, Params, ParamsKind, PromptContent, PromptGetParams,
    PromptValue, ProtocolError, RequestId, ResourceBody, ResourceReadParams, ResultBody,
    ToolCallParams, ToolCallResult, ToolContent, JSONRPC_VERSION, MCP_PROTOCOL_VERSION,
};
use phishri::mcp::server::{McpServer, Message, Pending, Step, Waiting};
use phishri::mcp::tools::get_tool_definitions;

fn config() -> Config {
    Config::new(&Environment {
        knowledge_base: "/kb".to_string(),
        session_root: Some("/sessions".to_string()),
        home: None,
        agent_id: None,
        session_id: Some("s1".to_string()),
        clock_millis: 0,
    })
}

fn server() -> McpServer {
    McpServer::new(config(), "1.2.3")
}

fn door(code: &str, prerequisites: &[&str], summary: &str, path: &str, tags: &[&str]) -> Door {
    Door {
        door_code: code.to_string(),
        semantic_path: path.to_string(),
        aliases: vec![],
        context_bundle: ContextBundle {
            summary: summary.to_string(),
            prerequisites: prerequisites.iter().map(|s| s.to_string()).collect(),
            related_doors: vec![],
            onboarding: None,
            resources: None,
            metadata: Some(Metadata {
                last_updated: String::new(),
                confidence: Confidence { score: "1.0".to_string(), percent: 100 },
                tags: tags.iter().map(|s| s.to_string()).collect(),
                category: "TOOLS".to_string(),
                subcategory: String::new(),
                version: String::new(),
                agent_affinity: vec![],
            }),
        },
    }
}

fn corpus(doors: Vec<Door>) -> Corpus {
    let mut files = vec![];
    let mut entries = vec![];
    let mut index = vec![];
    for d in doors {
        let path = format!("/kb/CONTEXTS/TOOLS/{}.json", d.door_code);
        entries.push(DirEntry { path: path.clone(), is_file: true });
        index.push((
            d.door_code.clone(),
            HashTableEntry {
                door_code: d.door_code.clone(),
                file_path: format!("CONTEXTS/TOOLS/{}.json", d.door_code),
                category: "TOOLS".to_string(),
                short_code: d.short_code(),
            },
        ));
        files.push(DoorFile { path, content: FileContent::Door(d) });
    }
    Corpus {
        contexts_exists: true,
        directories: vec![CategoryDir { category: "TOOLS".to_string(), listing: Listing::Entries(entries) }],
        files,
        index: IndexFile::Present { text: "{}".to_string(), flat: FlatIndex::Entries(index) },
        bootstrap: TextFile::Missing,
    }
}

fn small() -> Corpus {
    corpus(vec![
        door("D05SILENT", &["D01BASE"], "Silent install of packages", "TOOLS.DEPLOYMENT.SILENT", &["msi", "silent"]),
        door("D01BASE", &[], "Base deployment", "TOOLS.DEPLOYMENT", &["base"]),
        door("W115GIT", &[], "Git workflow", "WORKFLOWS.GIT", &[]),
    ])
}

fn request(id: Option<RequestId>, method: &str, params: Params) -> Message {
    Message::Request(JsonRpcRequest {
        jsonrpc: "2.0".to_string(),
        id,
        method: method.to_string(),
        params,
    })
}

fn call(name: &str, arguments: &str) -> Message {
    let arguments = if arguments.is_empty() { None } else { Some(JsonValue::parse(arguments).unwrap()) };
    request(
        Some(RequestId::Number(7)),
        "tools/call",
        Params::ToolCall(Decoded::Value(ToolCallParams { name: name.to_string(), arguments })),
    )
}

fn reply(step: Step) -> JsonRpcResponse {
    match step {
        Step::Reply(Some(response)) => response,
        other => panic!("no response: {:?}", other),
    }
}

fn tool_result(response: JsonRpcResponse) -> ToolCallResult {
    assert!(response.error.is_none());
    assert_eq!(response.jsonrpc, "2.0");
    match response.result {
        Some(ResultBody::ToolCall(result)) => result,
        other => panic!("no tool result: {:?}", other),
    }
}

fn text_of(result: &ToolCallResult) -> &str {
    assert_eq!(result.content.len(), 1);
    match &result.content[0] {
        ToolContent::Text { text } => text,
        other => panic!("no text: {:?}", other),
    }
}

/// Calls a tool that writes nothing, and gives its text and whether it failed.
fn run(server: &mut McpServer, c: &Corpus, name: &str, arguments: &str) -> (String, bool) {
    let step = server.handle_message_at(&call(name, arguments), c, 0, "2024-06-01T12:00:00+00:00");
    let result = tool_result(reply(step));
    (text_of(&result).to_string(), result.is_error == Some(true))
}

#[test]
fn test_server_creation() {
    let server = server();
    assert!(!server.is_initialized());
    assert_eq!(server.server_info().name, "phishri-mcp");
}

#[test]
fn test_handle_unknown_method() {
    let mut server = server();
    let request = JsonRpcRequest {
        jsonrpc: "2.0".to_string(),
        id: Some(RequestId::Number(1)),
        method: "unknown/method".to_string(),
        params: Params::Raw(None),
    };
    let response = reply(server.route_request(&request, &small(), 0, "t"));
    assert!(response.error.is_some());
    assert_eq!(response.error.unwrap().code, -32601);
}

#[test]
fn test_error_response() {
    let resp = JsonRpcResponse::error(
        Some(RequestId::Number(1)),
        JsonRpcError::method_not_found("unknown"),
    );
    let error = resp.error.unwrap();
    assert_eq!(error.code, -32601);
    assert_eq!(error.message, "Method not found: unknown");
    assert!(resp.result.is_none());
    assert_eq!(resp.id, Some(RequestId::Number(1)));
}

#[test]
fn test_all_tools_defined() {
    let tools = get_tool_definitions();
    assert_eq!(tools.len(), 15);
}

#[test]
fn test_tool_names() {
    let tools = get_tool_definitions();
    let names: Vec<&str> = tools.iter().map(|t| t.name.as_str()).collect();

    assert!(names.contains(&"phishri_read_door"));
    assert!(names.contains(&"phishri_list_doors"));
    assert!(names.contains(&"phishri_find_door"));
    assert!(names.contains(&"phishri_load_chain"));
    assert!(names.contains(&"phishri_get_bootstrap"));
    assert!(names.contains(&"phishri_update_bootstrap"));
    assert!(names.contains(&"phishri_session_checkpoint"));
    assert!(names.contains(&"phishri_search_semantic"));
    assert!(names.contains(&"phishri_get_prerequisites"));
    assert!(names.contains(&"phishri_rebuild_indexes"));
}

#[test]
fn test_schemas_are_valid_json() {
    let tools = get_tool_definitions();
    for tool in tools {
        assert!(tool.input_schema.is_object());
        assert!(tool.input_schema.get("type").is_some());
    }
}

#[test]
fn tool_schemas_name_their_required_parameters() {
    let tools = get_tool_definitions();
    let read = &tools[0];
    assert_eq!(read.name, "phishri_read_door");
    assert_eq!(read.input_schema.get("type").unwrap().as_text(), Some("object"));
    let required = read.input_schema.get("required").unwrap().as_array().unwrap();
    assert_eq!(required[0].as_text(), Some("door_code"));
    let list = &tools[1];
    assert!(list.input_schema.get("required").is_none());
    let limit = list.input_schema.get("properties").unwrap().get("limit").unwrap();
    assert_eq!(limit.get("default").unwrap().as_natural(), Some(50));
    assert_eq!(limit.get("maximum").unwrap().as_natural(), Some(268));
    let batch = tools.iter().find(|t| t.name == "phishri_batch_create").unwrap();
    let items = batch.input_schema.get("properties").unwrap().get("doors").unwrap().get("items").unwrap();
    assert_eq!(items.get("required").unwrap().as_array().unwrap().len(), 4);
    assert!(tools.iter().all(|t| !t.description.is_empty()));
}

#[test]
fn envelope_is_checked_before_anything_else() {
    let valid = JsonRpcRequest {
        jsonrpc: JSONRPC_VERSION.to_string(),
        id: None,
        method: "ping".to_string(),
        params: Params::Raw(None),
    };
    assert!(valid.validate().is_ok());
    assert!(valid.is_notification());
    let old = JsonRpcRequest { jsonrpc: "1.0".to_string(), ..valid };
    assert!(matches!(old.validate(), Err(ProtocolError::InvalidVersion(v)) if v == "1.0"));
    let nameless = JsonRpcRequest {
        jsonrpc: "2.0".to_string(),
        id: Some(RequestId::Null),
        method: String::new(),
        params: Params::Raw(None),
    };
    assert!(matches!(nameless.validate(), Err(ProtocolError::InvalidMethod)));
    assert!(!nameless.is_notification());

    let mut server = server();
    let message = Message::Request(JsonRpcRequest {
        jsonrpc: "1.0".to_string(),
        id: Some(RequestId::String("a".to_string())),
        method: "ping".to_string(),
        params: Params::Raw(None),
    });
    let response = reply(server.handle_message_at(&message, &small(), 0, "t"));
    let error = response.error.unwrap();
    assert_eq!(error.code, -32600);
    assert_eq!(error.message, "Invalid Request");
    assert_eq!(response.id, Some(RequestId::String("a".to_string())));
    let unreadable = reply(server.handle_message_at(&Message::Unreadable, &small(), 0, "t"));
    assert_eq!(unreadable.error.unwrap().code, -32700);
    assert_eq!(unreadable.id, None);
}

#[test]
fn protocol_errors_map_to_their_codes() {
    let code = |e: ProtocolError| JsonRpcError::from_protocol(e).code;
    assert_eq!(code(ProtocolError::InvalidVersion("1".into())), -32600);
    assert_eq!(code(ProtocolError::InvalidMethod), -32600);
    assert_eq!(code(ProtocolError::InvalidParams("x".into())), -32602);
    assert_eq!(code(ProtocolError::ParseError("x".into())), -32700);
    assert_eq!(code(ProtocolError::IoError("x".into())), -32603);
    assert_eq!(code(ProtocolError::SerializationError("x".into())), -32603);
    assert_eq!(JsonRpcError::from_protocol(ProtocolError::InvalidParams("bad".into())).message, "bad");
    assert_eq!(JsonRpcError::door_not_found("D9").code, -32000);
    assert_eq!(JsonRpcError::door_not_found("D9").message, "Door not found: D9");
    assert_eq!(JsonRpcError::index_error("i".into()).code, -32001);
    assert_eq!(JsonRpcError::bootstrap_error("b".into()).code, -32002);
    assert_eq!(JsonRpcError::search_error("s".into()).code, -32003);
    assert_eq!(JsonRpcError::internal_error("s".into()).code, -32603);
    let with = JsonRpcError::new(1, "m".into()).with_data(JsonValue::natural(3));
    assert_eq!(with.data.unwrap().as_natural(), Some(3));
    assert_eq!(ProtocolError::InvalidVersion("1.0".into()).message(), "Invalid JSON-RPC version: 1.0");
    assert_eq!(ProtocolError::InvalidMethod.message(), "Invalid method");
    assert_eq!(ProtocolError::InvalidParams("p".into()).message(), "Invalid params: p");
    assert_eq!(ProtocolError::ParseError("p".into()).message(), "Parse error: p");
    assert_eq!(ProtocolError::IoError("p".into()).message(), "IO error: p");
    assert_eq!(ProtocolError::SerializationError("p".into()).message(), "Serialization error: p");
    assert_eq!(RequestId::default(), RequestId::Null);
    assert_ne!(RequestId::Number(1), RequestId::String("1".into()));
}

#[test]
fn tool_results_hold_one_text() {
    let ok = ToolCallResult::text("fine".to_string());
    assert_eq!(text_of(&ok), "fine");
    assert_eq!(ok.is_error, None);
    let bad = ToolCallResult::error("broken".to_string());
    assert_eq!(text_of(&bad), "broken");
    assert_eq!(bad.is_error, Some(true));
}

#[test]
fn params_are_decoded_by_method() {
    assert_eq!(params_kind("initialize"), ParamsKind::Initialize);
    assert_eq!(params_kind("tools/call"), ParamsKind::ToolCall);
    assert_eq!(params_kind("prompts/get"), ParamsKind::PromptGet);
    assert_eq!(params_kind("resources/read"), ParamsKind::ResourceRead);
    assert_eq!(params_kind("tools/list"), ParamsKind::Raw);
    assert_eq!(params_kind("ping"), ParamsKind::Raw);
    assert_eq!(params_kind(""), ParamsKind::Raw);
}

fn initialize(id: Option<RequestId>, client: &str) -> Message {
    request(
        id,
        "initialize",
        Params::Initialize(Decoded::Value(InitializeParams {
            protocol_version: "2024-11-05".to_string(),
            capabilities: ClientCapabilities { roots: None, sampling: None, experimental: None },
            client_info: ClientInfo { name: client.to_string(), version: "1".to_string() },
        })),
    )
}

#[test]
fn handshake_names_the_agent_and_makes_the_session_directories() {
    let mut server = server();
    assert_eq!(server.config().agent_id, "default");
    let step = server.handle_message_at(&initialize(Some(RequestId::Number(1)), "Studio Desktop"), &small(), 0, "t");
    assert!(server.is_initialized());
    assert_eq!(server.config().agent_id, "Studio_Desktop");
    let pending = match step {
        Step::Perform { ops, pending } => {
            assert_eq!(ops.len(), 2);
            assert!(matches!(&ops[0], FileOp::CreateDir(p) if p == "/sessions/sessions/Studio-uDesktop_s1"));
            assert!(matches!(&ops[1], FileOp::CreateDir(p) if p == "/sessions/sessions/Studio-uDesktop_s1/checkpoints"));
            pending
        }
        other => panic!("unexpected: {:?}", other),
    };
    // The handshake is answered whether or not the directories could be made.
    let failed = Outcome { completed: 0, failure: Some("read-only".to_string()) };
    let response = reply(server.resume(pending, &failed, &small()));
    assert_eq!(response.id, Some(RequestId::Number(1)));
    match response.result {
        Some(ResultBody::Initialize(result)) => {
            assert_eq!(result.protocol_version, MCP_PROTOCOL_VERSION);
            assert_eq!(result.server_info.name, "phishri-mcp");
            assert_eq!(result.server_info.version, "1.2.3");
            assert_eq!(result.capabilities.tools.unwrap().list_changed, Some(false));
            assert_eq!(result.capabilities.resources.unwrap().subscribe, Some(false));
            assert_eq!(result.capabilities.prompts.unwrap().list_changed, Some(false));
            assert!(result.capabilities.logging.is_none());
        }
        other => panic!("unexpected: {:?}", other),
    }
}

#[test]
fn malformed_parameters_are_invalid_params() {
    let mut server = server();
    let message = request(
        Some(RequestId::Number(2)),
        "initialize",
        Params::Initialize(Decoded::Malformed("missing field `clientInfo`".to_string())),
    );
    let response = reply(server.handle_message_at(&message, &small(), 0, "t"));
    let error = response.error.unwrap();
    assert_eq!(error.code, -32602);
    assert_eq!(error.message, "missing field `clientInfo`");
    assert!(!server.is_initialized());
    let raw = request(Some(RequestId::Number(3)), "tools/call", Params::Raw(None));
    assert_eq!(reply(server.handle_message_at(&raw, &small(), 0, "t")).error.unwrap().code, -32602);
    let read = request(
        Some(RequestId::Number(4)),
        "resources/read",
        Params::ResourceRead(Decoded::Malformed("missing field `uri`".to_string())),
    );
    assert_eq!(reply(server.handle_message_at(&read, &small(), 0, "t")).error.unwrap().message, "missing field `uri`");
}

#[test]
fn notifications_are_never_answered() {
    let c = small();
    let mut server = server();
    let silent = |server: &mut McpServer, message: Message| {
        match server.handle_message_at(&message, &c, 0, "t") {
            Step::Reply(None) => None,
            Step::Perform { pending, .. } => {
                assert!(pending.id.is_none());
                Some(pending)
            }
            other => panic!("answered: {:?}", other),
        }
    };
    assert!(silent(&mut server, request(None, "ping", Params::Raw(None))).is_none());
    assert!(silent(&mut server, request(None, "initialized", Params::Raw(None))).is_none());
    assert!(silent(&mut server, request(None, "notifications/cancelled", Params::Raw(None))).is_none());
    assert!(silent(&mut server, request(None, "no/such/method", Params::Raw(None))).is_none());
    assert!(silent(&mut server, request(None, "tools/list", Params::Raw(None))).is_none());
    assert!(silent(&mut server, request(None, "tools/call", Params::Raw(None))).is_none());
    let failing = Message::Request(JsonRpcRequest {
        jsonrpc: "2.0".to_string(),
        id: None,
        method: "tools/call".to_string(),
        params: Params::ToolCall(Decoded::Value(ToolCallParams { name: "phishri_read_door".into(), arguments: None })),
    });
    assert!(silent(&mut server, failing).is_none());
    let invalid = Message::Request(JsonRpcRequest {
        jsonrpc: "1.0".to_string(),
        id: None,
        method: "ping".to_string(),
        params: Params::Raw(None),
    });
    assert!(silent(&mut server, invalid).is_none());
    let pending = silent(&mut server, initialize(None, "client")).unwrap();
    assert!(server.is_initialized());
    assert!(matches!(server.resume(pending, &Outcome { completed: 2, failure: None }, &c), Step::Reply(None)));
    // The same requests with an identifier are answered.
    assert!(reply(server.handle_message_at(&request(Some(RequestId::Null), "ping", Params::Raw(None)), &c, 0, "t")).result.is_some());
}

#[test]
fn plain_methods_answer_with_fixed_results() {
    let c = small();
    let mut server = server();
    let id = || Some(RequestId::String("x".to_string()));
    let response = reply(server.handle_message_at(&request(id(), "ping", Params::Raw(None)), &c, 0, "t"));
    assert!(matches!(response.result, Some(ResultBody::Empty)));
    assert_eq!(response.id, id());
    let response = reply(server.handle_message_at(&request(id(), "initialized", Params::Raw(None)), &c, 0, "t"));
    assert!(matches!(response.result, Some(ResultBody::Null)));
    let response = reply(server.handle_message_at(&request(id(), "notifications/cancelled", Params::Raw(None)), &c, 0, "t"));
    assert!(matches!(response.result, Some(ResultBody::Null)));
    let response = reply(server.handle_message_at(&request(id(), "tools/list", Params::Raw(None)), &c, 0, "t"));
    assert!(matches!(response.result, Some(ResultBody::Tools(list)) if list.tools.len() == 15));
    let response = reply(server.handle_message_at(&request(id(), "prompts/list", Params::Raw(None)), &c, 0, "t"));
    assert!(matches!(response.result, Some(ResultBody::Prompts(list)) if list.prompts.len() == 5));
    let response = reply(server.handle_message_at(&request(id(), "resources/list", Params::Raw(None)), &c, 0, "t"));
    assert!(matches!(response.result, Some(ResultBody::Resources(list)) if list.resources.len() == 10));
    // No operation needs the handshake first.
    assert!(!server.is_initialized());
    // The time of day may be handed in as a moment.
    let step = server.handle_message(&request(id(), "ping", Params::Raw(None)), &c, 0, 1_717_243_200, 0);
    assert!(reply(step.unwrap()).result.is_some());
}

#[test]
fn prompts_are_listed_and_filled_in() {
    let prompts = list_prompts();
    let names: Vec<&str> = prompts.iter().map(|p| p.name.as_str()).collect();
    assert_eq!(names, vec!["open_door", "explore_category", "find_context", "session_resume", "phishri_overview"]);
    let argument = &prompts[0].arguments.as_ref().unwrap()[0];
    assert_eq!(argument.name, "door_code");
    assert_eq!(argument.required, Some(true));
    assert!(prompts[3].arguments.is_none());

    let get = |name: &str, arguments: Option<Vec<(&str, &str)>>| {
        get_prompt(&PromptGetParams {
            name: name.to_string(),
            arguments: arguments.map(|a| {
                a.into_iter().map(|(n, v)| PromptValue { name: n.to_string(), value: v.to_string() }).collect()
            }),
        })
    };
    let text = |name: &str, arguments: Option<Vec<(&str, &str)>>| {
        let prompt = get(name, arguments).unwrap();
        assert_eq!(prompt.messages.len(), 1);
        assert_eq!(prompt.messages[0].role, "user");
        let PromptContent::Text { text } = &prompt.messages[0].content;
        (prompt.description.clone().unwrap(), text.clone())
    };
    let (description, body) = text("open_door", Some(vec![("other", "x"), ("door_code", "S01")]));
    assert_eq!(description, "Load context from door S01");
    assert_eq!(body, "Please open PhiSHRI door S01 and use the context to help me with my current task. After loading, summarize the key points and ask how you can help.");
    assert_eq!(text("open_door", None).0, "Load context from door D05");
    assert_eq!(text("explore_category", Some(vec![])).0, "Explore TOOLS category");
    assert!(text("explore_category", Some(vec![("category", "AGENTS")])).1.starts_with("List all PhiSHRI doors in the AGENTS category and give"));
    let (description, body) = text("find_context", None);
    assert_eq!(description, "Find relevant context");
    assert!(body.starts_with("I need help with: general development\n\nSearch PhiSHRI"));
    assert_eq!(text("session_resume", None).0, "Resume previous session");
    assert!(text("phishri_overview", None).1.contains("base:\n1. How many doors"));
    assert!(get("nope", None).is_none());

    let mut server = server();
    let message = request(
        Some(RequestId::Number(1)),
        "prompts/get",
        Params::PromptGet(Decoded::Value(PromptGetParams { name: "nope".to_string(), arguments: None })),
    );
    let error = reply(server.handle_message_at(&message, &small(), 0, "t")).error.unwrap();
    assert_eq!(error.code, -32602);
    assert_eq!(error.message, "Unknown prompt: nope");
}

fn read_resource(server: &mut McpServer, c: &Corpus, uri: &str) -> ResourceBody {
    let message = request(
        Some(RequestId::Number(1)),
        "resources/read",
        Params::ResourceRead(Decoded::Value(ResourceReadParams { uri: uri.to_string() })),
    );
    match reply(server.handle_message_at(&message, c, 0, "t")).result {
        Some(ResultBody::Resource(mut result)) => {
            assert_eq!(result.contents.len(), 1);
            let content = result.contents.remove(0);
            assert_eq!(content.uri, uri);
            assert_eq!(content.mime_type.as_deref(), Some("application/json"));
            content.body
        }
        other => panic!("unexpected: {:?}", other),
    }
}

#[test]
fn resources_are_listed_and_read() {
    let resources = list_resources();
    assert_eq!(resources[0].uri, "phishri://category/security");
    assert_eq!(resources[0].name, "SECURITY Doors");
    assert_eq!(resources[7].uri, "phishri://category/languages");
    assert_eq!(resources[8].uri, "phishri://index");
    assert_eq!(resources[9].name, "Statistics");
    assert!(resources.iter().all(|r| r.mime_type.as_deref() == Some("application/json")));

    let c = small();
    let mut server = server();
    match read_resource(&mut server, &c, "phishri://index") {
        ResourceBody::Doors(doors) => {
            let codes: Vec<&str> = doors.iter().map(|d| d.code.as_str()).collect();
            assert_eq!(codes, vec!["D01BASE", "D05SILENT", "W115GIT"]);
            assert_eq!(doors[1].summary, "Silent install of packages");
        }
        other => panic!("unexpected: {:?}", other),
    }
    match read_resource(&mut server, &c, "phishri://category/tools") {
        ResourceBody::Doors(doors) => assert_eq!(doors.len(), 3),
        other => panic!("unexpected: {:?}", other),
    }
    match read_resource(&mut server, &c, "phishri://category/agents") {
        ResourceBody::Doors(doors) => assert!(doors.is_empty()),
        other => panic!("unexpected: {:?}", other),
    }
    match read_resource(&mut server, &c, "phishri://stats") {
        ResourceBody::Stats { total_doors, index_exists, by_category } => {
            assert_eq!(total_doors, 3);
            assert!(index_exists);
            assert_eq!(by_category, vec![("TOOLS".to_string(), 3)]);
        }
        other => panic!("unexpected: {:?}", other),
    }
    match read_resource(&mut server, &c, "phishri://door/w115") {
        ResourceBody::Door(door) => assert_eq!(door.door_code, "W115GIT"),
        other => panic!("unexpected: {:?}", other),
    }
    match read_resource(&mut server, &c, "phishri://door/Z9") {
        ResourceBody::Text(text) => assert_eq!(text, "{\"error\": \"Door not found: Z9\"}"),
        other => panic!("unexpected: {:?}", other),
    }
    match read_resource(&mut server, &c, "http://elsewhere") {
        ResourceBody::Text(text) => assert_eq!(text, "{\"error\": \"Unknown resource: http://elsewhere\"}"),
        other => panic!("unexpected: {:?}", other),
    }
    let mut no_index = small();
    no_index.index = IndexFile::Missing;
    let mut fresh = McpServer::new(config(), "0");
    match read_resource(&mut fresh, &no_index, "phishri://index") {
        ResourceBody::Text(text) => assert_eq!(text, "{\"error\": \"Index not found: /kb/INDEXES/HASH_TABLE.json\"}"),
        other => panic!("unexpected: {:?}", other),
    }
}

#[test]
fn reading_tools_show_doors() {
    let c = small();
    let mut server = server();
    let (text, failed) = run(&mut server, &c, "phishri_read_door", r#"{"door_code": "w115"}"#);
    assert!(!failed);
    assert!(text.starts_with("# W115GIT (W115)\n\n**Path:** WORKFLOWS.GIT\n\n## Summary\nGit workflow\n\n"));
    assert_eq!(run(&mut server, &c, "phishri_read_door", ""), ("Missing required parameter: door_code".to_string(), true));
    assert_eq!(run(&mut server, &c, "phishri_read_door", r#"{"door_code": 5}"#).0, "Missing required parameter: door_code");
    assert_eq!(
        run(&mut server, &c, "phishri_read_door", r#"{"door_code": "Z9"}"#),
        ("Failed to read door Z9: Door not found: Z9".to_string(), true)
    );
    assert_eq!(
        run(&mut server, &c, "phishri_list_doors", "").0,
        "# All Doors\n\n- D01: Base deployment\n- D05: Silent install of packages\n- W115: Git workflow\n"
    );
    assert_eq!(
        run(&mut server, &c, "phishri_list_doors", r#"{"category": "tools", "limit": 1}"#).0,
        "# Doors in category: tools\n\n- D01: Base deployment\n"
    );
    assert_eq!(run(&mut server, &c, "phishri_list_doors", r#"{"category": "NONE"}"#).0, "# Doors in category: NONE\n\n");
    assert_eq!(run(&mut server, &c, "no_such_tool", "{}"), ("Unknown tool: no_such_tool".to_string(), true));
    let mut no_index = small();
    no_index.index = IndexFile::Missing;
    let mut fresh = McpServer::new(config(), "0");
    assert_eq!(
        run(&mut fresh, &no_index, "phishri_list_doors", ""),
        ("Failed to list doors: Index not found: /kb/INDEXES/HASH_TABLE.json".to_string(), true)
    );
    assert_eq!(run(&mut fresh, &no_index, "phishri_find_door", r#"{"query": "x"}"#).0, "Search failed: Index not found: /kb/INDEXES/HASH_TABLE.json");
    assert_eq!(run(&mut fresh, &no_index, "phishri_search_semantic", r#"{"path": "x"}"#).0, "Semantic search failed: Index not found: /kb/INDEXES/HASH_TABLE.json");
}

#[test]
fn chains_and_prerequisites_are_shown_in_order() {
    let c = small();
    let mut server = server();
    let (text, failed) = run(&mut server, &c, "phishri_load_chain", r#"{"door_codes": ["d05silent"]}"#);
    assert!(!failed);
    assert!(text.starts_with("# Door Chain (2 doors)\n\n*Prerequisites automatically included*\n\n## Load Order\n1. D01BASE\n2. D05SILENT\n\n---\n\n# D01BASE (D01)"));
    let (text, _) = run(&mut server, &c, "phishri_load_chain", r#"{"door_codes": ["D05SILENT"], "include_prerequisites": false}"#);
    assert!(text.starts_with("# Door Chain (1 doors)\n\n## Load Order\n1. D05SILENT\n"));
    assert_eq!(run(&mut server, &c, "phishri_load_chain", r#"{"door_codes": []}"#), ("Missing required parameter: door_codes".to_string(), true));
    assert_eq!(run(&mut server, &c, "phishri_load_chain", r#"{"door_codes": ["NOPE"]}"#), ("Failed to load chain: Door not found: NOPE".to_string(), true));
    assert_eq!(
        run(&mut server, &c, "phishri_get_prerequisites", r#"{"door_code": "d05silent"}"#).0,
        "# Prerequisites for d05silent\n\nRead these doors in order:\n\n1. D01BASE\n2. D05SILENT ← (target)\n"
    );
    assert_eq!(run(&mut server, &c, "phishri_get_prerequisites", r#"{"door_code": "W115GIT"}"#).0, "Door W115GIT has no prerequisites.");
    assert_eq!(run(&mut server, &c, "phishri_get_prerequisites", r#"{"door_code": "Q"}"#).0, "Door Q has no prerequisites.");
    assert_eq!(run(&mut server, &c, "phishri_get_prerequisites", "{}"), ("Missing required parameter: door_code".to_string(), true));
}

#[test]
fn searches_rank_and_filter() {
    let c = small();
    let mut server = server();
    let (text, failed) = run(&mut server, &c, "phishri_find_door", r#"{"query": "Silent deployment"}"#);
    assert!(!failed);
    // D05SILENT: code 10, path 8 + 8, summary 5, tag 12; D01BASE: path 8, summary 5.
    assert_eq!(
        text,
        "# Search Results for: \"Silent deployment\"\n\n- **D05SILENT** (score: 43) - Silent install of packages\n- **D01BASE** (score: 13) - Base deployment\n\n_Found 2 matches, showing top 2_"
    );
    let (text, _) = run(&mut server, &c, "phishri_find_door", r#"{"query": "deployment", "limit": 1}"#);
    assert!(text.ends_with("\n_Found 2 matches, showing top 1_"));
    assert_eq!(run(&mut server, &c, "phishri_find_door", r#"{"query": "zebra"}"#).0, "No doors found matching: zebra");
    assert_eq!(run(&mut server, &c, "phishri_find_door", "{}"), ("Missing required parameter: query".to_string(), true));
    assert_eq!(
        run(&mut server, &c, "phishri_search_semantic", r#"{"path": "tools.deploy"}"#).0,
        "# Semantic Search: tools.deploy\n\n- D01BASE → TOOLS.DEPLOYMENT\n- D05SILENT → TOOLS.DEPLOYMENT.SILENT\n"
    );
    assert_eq!(run(&mut server, &c, "phishri_search_semantic", r#"{"path": "AGENTS"}"#).0, "No doors found with semantic path containing: AGENTS");
    assert_eq!(run(&mut server, &c, "phishri_search_semantic", ""), ("Missing required parameter: path".to_string(), true));
}

#[test]
fn review_tools_show_what_they_found() {
    let c = small();
    let mut server = server();
    assert_eq!(
        run(&mut server, &c, "phishri_validate_door", r#"{"door_code": "D05SILENT"}"#).0,
        "# Validation Result\n\n**Valid:** YES\n**Door:** D05SILENT\n"
    );
    let broken = corpus(vec![door("D05", &["GONE", "LOST"], "", "", &[])]);
    let mut other = McpServer::new(config(), "0");
    assert_eq!(
        run(&mut other, &broken, "phishri_validate_door", r#"{"file_path": "/kb/CONTEXTS/TOOLS/D05.json"}"#).0,
        "# Validation Result\n\n**Valid:** YES\n**Door:** D05\n\n## Warnings\n- summary is empty\n- Prerequisite not found: GONE\n- Prerequisite not found: LOST\n\n**Missing Prerequisites:** GONE, LOST\n"
    );
    assert_eq!(
        run(&mut other, &broken, "phishri_validate_door", r#"{"door_code": "Z"}"#).0,
        "# Validation Result\n\n**Valid:** NO\n\n## Errors\n- Failed to load: Door not found: Z\n"
    );
    assert_eq!(run(&mut other, &broken, "phishri_validate_door", "{}"), ("Must provide door_code or file_path".to_string(), true));
    assert_eq!(
        run(&mut other, &broken, "phishri_audit", "").0,
        "# PhiSHRI Audit Report\n\n**Healthy:** NO\n**Total Doors:** 1\n\n## By Category\n- TOOLS: 1\n\n## Warnings (1)\n- D05: empty summary\n\n## Missing Prerequisites (2)\nGONE, LOST\n"
    );
    assert_eq!(
        run(&mut server, &c, "phishri_audit", r#"{"scope": "all"}"#).0,
        "# PhiSHRI Audit Report\n\n**Healthy:** YES\n**Total Doors:** 3\n\n## By Category\n- TOOLS: 3\n"
    );
    assert_eq!(
        run(&mut server, &c, "phishri_stats", "").0,
        "# PhiSHRI Statistics\n\n**Total Doors:** 3\n**Index Exists:** YES\n\n## By Category\n- TOOLS: 3\n"
    );
    assert_eq!(
        run(&mut server, &c, "phishri_stats", r#"{"granularity": "detailed"}"#).0,
        "# PhiSHRI Statistics\n\n**Total Doors:** 3\n**Index Exists:** YES\n\n## By Category\n- TOOLS: 3\n\n**Doors with Prerequisites:** 1\n\n## Top Tags\n- msi: 1\n- silent: 1\n- base: 1\n"
    );
}

#[test]
fn audit_shows_at_most_twenty_warnings() {
    let doors = (0..25).map(|i| door(&format!("D{:02}X", i), &[], "", "", &[])).collect();
    let c = corpus(doors);
    let mut server = server();
    let (text, _) = run(&mut server, &c, "phishri_audit", "");
    assert!(text.contains("\n## Warnings (25)\n- D00X: empty summary\n"));
    assert!(text.contains("- D19X: empty summary\n... and 5 more\n"));
    assert!(!text.contains("D20X"));
}

#[test]
fn bootstrap_is_read_from_the_session() {
    let mut c = small();
    let mut server = server();
    assert_eq!(
        run(&mut server, &c, "phishri_get_bootstrap", "").0,
        "# No Bootstrap File\n\nNo session state found at: /sessions/sessions/default_s1/bootstrap.json\n\nThis is a new session for agent 'default' (session: s1)"
    );
    c.bootstrap = TextFile::Present("{\"progress\": \"half\"}".to_string());
    assert_eq!(
        run(&mut server, &c, "phishri_get_bootstrap", "").0,
        "# Session Bootstrap\n\n**Agent:** default\n**Session:** s1\n**Path:** /sessions/sessions/default_s1/bootstrap.json\n\n---\n\n{\"progress\": \"half\"}"
    );
    c.bootstrap = TextFile::Unreadable("denied".to_string());
    assert_eq!(run(&mut server, &c, "phishri_get_bootstrap", ""), ("Failed to read bootstrap: denied".to_string(), true));
}

fn perform(step: Step) -> (Vec<FileOp>, Pending) {
    match step {
        Step::Perform { ops, pending } => (ops, pending),
        other => panic!("nothing to perform: {:?}", other),
    }
}

fn finish(server: &mut McpServer, pending: Pending, outcome: Outcome, c: &Corpus) -> (String, bool) {
    let result = tool_result(reply(server.resume(pending, &outcome, c)));
    (text_of(&result).to_string(), result.is_error == Some(true))
}

fn ok(n: usize) -> Outcome {
    Outcome { completed: n, failure: None }
}

fn failed_at(n: usize, message: &str) -> Outcome {
    Outcome { completed: n, failure: Some(message.to_string()) }
}

#[test]
fn session_records_are_written_after_their_directories() {
    let c = small();
    let mut server = server();
    let arguments = r#"{"progress": "phase 1", "next_options": ["D06", 3], "doors_loaded": ["D05"]}"#;
    let (ops, pending) = perform(server.handle_message_at(&call("phishri_update_bootstrap", arguments), &c, 0, "2024-06-01T12:00:00+00:00"));
    assert_eq!(ops.len(), 3);
    assert!(matches!(&ops[0], FileOp::CreateDir(p) if p == "/sessions/sessions/default_s1"));
    assert!(matches!(&ops[1], FileOp::CreateDir(p) if p == "/sessions/sessions/default_s1/checkpoints"));
    match &ops[2] {
        FileOp::WriteRecord { path, record: SessionRecord::Bootstrap { agent_id, session_id, updated_at, progress, batch_completed, next_options, doors_loaded } } => {
            assert_eq!(path, "/sessions/sessions/default_s1/bootstrap.json");
            assert_eq!(agent_id, "default");
            assert_eq!(session_id, "s1");
            assert_eq!(updated_at, "2024-06-01T12:00:00+00:00");
            assert_eq!(progress, "phase 1");
            assert_eq!(batch_completed, "");
            assert_eq!(next_options, &vec!["D06"]);
            assert_eq!(doors_loaded, &vec!["D05"]);
        }
        other => panic!("unexpected: {:?}", other),
    }
    assert!(matches!(pending.waiting, Waiting::Tool(_)));
    assert_eq!(finish(&mut server, pending, ok(3), &c), ("Bootstrap updated successfully at: /sessions/sessions/default_s1/bootstrap.json".to_string(), false));
    let (_, pending) = perform(server.handle_message_at(&call("phishri_update_bootstrap", ""), &c, 0, "t"));
    assert_eq!(finish(&mut server, pending, failed_at(1, "denied"), &c), ("Failed to create session directory: denied".to_string(), true));
    let (_, pending) = perform(server.handle_message_at(&call("phishri_update_bootstrap", ""), &c, 0, "t"));
    assert_eq!(finish(&mut server, pending, failed_at(2, "full"), &c), ("Failed to write bootstrap: full".to_string(), true));

    let (ops, pending) = perform(server.handle_message_at(&call("phishri_session_checkpoint", r#"{"checkpoint_name": "phase 1/done", "notes": "n"}"#), &c, 0, "T"));
    match &ops[2] {
        FileOp::WriteRecord { path, record: SessionRecord::Checkpoint { name, created_at, notes, doors_loaded, .. } } => {
            assert_eq!(path, "/sessions/sessions/default_s1/checkpoints/phase_1_done.json");
            assert_eq!(name, "phase 1/done");
            assert_eq!(created_at, "T");
            assert_eq!(notes, "n");
            assert!(doors_loaded.is_empty());
        }
        other => panic!("unexpected: {:?}", other),
    }
    assert_eq!(finish(&mut server, pending, ok(3), &c).0, "Checkpoint 'phase 1/done' created at: /sessions/sessions/default_s1/checkpoints/phase_1_done.json");
    let (_, pending) = perform(server.handle_message_at(&call("phishri_session_checkpoint", r#"{"checkpoint_name": "x"}"#), &c, 0, "T"));
    assert_eq!(finish(&mut server, pending, failed_at(2, "full"), &c), ("Failed to create checkpoint: full".to_string(), true));
    assert_eq!(run(&mut server, &c, "phishri_session_checkpoint", "{}"), ("Missing required parameter: checkpoint_name".to_string(), true));
}

#[test]
fn rebuild_writes_the_scanned_index() {
    let c = small();
    let mut server = server();
    let (ops, pending) = perform(server.handle_message_at(&call("phishri_rebuild_indexes", ""), &c, 0, "t"));
    assert!(matches!(&ops[0], FileOp::CreateDir(p) if p == "/kb/INDEXES"));
    assert!(matches!(&ops[1], FileOp::WriteIndex { path, table } if path == "/kb/INDEXES/HASH_TABLE.json" && table.len() == 3));
    assert_eq!(finish(&mut server, pending, ok(2), &c).0, "# Index Rebuild Complete\n\n- Doors indexed: 3\n- Hash table: /kb/INDEXES/HASH_TABLE.json");
    let (_, pending) = perform(server.handle_message_at(&call("phishri_rebuild_indexes", ""), &c, 0, "t"));
    assert_eq!(finish(&mut server, pending, failed_at(1, "full"), &c), ("Index rebuild failed: IO error: full".to_string(), true));
    let mut gone = small();
    gone.contexts_exists = false;
    assert_eq!(run(&mut server, &gone, "phishri_rebuild_indexes", ""), ("Index rebuild failed: Index not found: /kb/CONTEXTS".to_string(), true));
}

#[test]
fn create_writes_the_door_and_then_the_index() {
    let c = small();
    let mut server = server();
    let arguments = r#"{"door_code": "D15NEW", "category": "Tools", "summary": "New", "semantic_path": "TOOLS.NEW", "tags": ["n"]}"#;
    let (ops, pending) = perform(server.handle_message_at(&call("phishri_create_door", arguments), &c, 0, "2024-06-01T12:00:00+00:00"));
    assert!(matches!(&ops[0], FileOp::CreateDir(p) if p == "/kb/CONTEXTS/TOOLS"));
    let written = match &ops[1] {
        FileOp::WriteDoor { path, door } => {
            assert_eq!(path, "/kb/CONTEXTS/TOOLS/D15NEW.json");
            assert_eq!(door.context_bundle.metadata.as_ref().unwrap().subcategory, "NEW");
            door.clone()
        }
        other => panic!("unexpected: {:?}", other),
    };
    let mut after = small();
    after.files.push(DoorFile { path: "/kb/CONTEXTS/TOOLS/D15NEW.json".to_string(), content: FileContent::Door(written) });
    if let Listing::Entries(entries) = &mut after.directories[0].listing {
        entries.push(DirEntry { path: "/kb/CONTEXTS/TOOLS/D15NEW.json".to_string(), is_file: true });
    }
    let (ops, pending) = perform(server.resume(pending, &ok(2), &after));
    assert!(matches!(&ops[1], FileOp::WriteIndex { table, .. } if table.len() == 4 && table.get("D15NEW").is_some()));
    // The door is made whether or not the index could be written.
    assert_eq!(
        finish(&mut server, pending, failed_at(1, "full"), &after),
        ("# Door Created\n\n- **Code:** D15NEW\n- **File:** /kb/CONTEXTS/TOOLS/D15NEW.json\n- **Validated:** true".to_string(), false)
    );

    let (_, pending) = perform(server.handle_message_at(&call("phishri_create_door", arguments), &c, 0, "t"));
    assert_eq!(finish(&mut server, pending, failed_at(1, "full"), &c), ("Create failed: IO error: full".to_string(), true));
    let (_, pending) = perform(server.handle_message_at(&call("phishri_create_door", arguments), &c, 0, "t"));
    let mut gone = small();
    gone.contexts_exists = false;
    assert!(finish(&mut server, pending, ok(2), &gone).0.starts_with("# Door Created"));
    assert_eq!(run(&mut server, &c, "phishri_create_door", ""), ("Missing arguments".to_string(), true));
    assert_eq!(
        run(&mut server, &c, "phishri_create_door", r#"{"door_code": "D16", "category": "TOOLS"}"#),
        ("Missing required fields: door_code, category, summary".to_string(), true)
    );
    assert_eq!(
        run(&mut server, &c, "phishri_create_door", r#"{"door_code": "d05", "category": "TOOLS", "summary": "s"}"#),
        ("Create failed: Invalid door file: Door d05 already exists".to_string(), true)
    );
}

#[test]
fn batch_is_all_or_nothing() {
    let c = small();
    let mut server = server();
    let colliding = r#"{"doors": [
        {"door_code": "D20", "category": "TOOLS", "summary": "a"},
        {"door_code": "D21", "category": "TOOLS", "summary": "b"},
        {"door_code": "W115GIT", "category": "WORKFLOWS", "summary": "c"}]}"#;
    assert_eq!(
        run(&mut server, &c, "phishri_batch_create", colliding),
        ("# Batch Create Result\n\n**Success:** NO\n**Created:** 0\n\n## Errors\n- Door W115GIT exists\n".to_string(), false)
    );
    assert_eq!(run(&mut server, &c, "phishri_batch_create", ""), ("Missing arguments".to_string(), true));
    assert_eq!(run(&mut server, &c, "phishri_batch_create", r#"{"doors": "x"}"#), ("Missing doors array".to_string(), true));

    let fresh = r#"{"doors": [
        {"door_code": "D20", "category": "TOOLS", "summary": "a"},
        {"door_code": "D21", "category": "TOOLS", "summary": "b"}]}"#;
    let (ops, pending) = perform(server.handle_message_at(&call("phishri_batch_create", fresh), &c, 0, "t"));
    assert_eq!(ops.len(), 4);
    let (undo, pending) = perform(server.resume(pending, &failed_at(3, "full"), &c));
    assert_eq!(undo.len(), 1);
    assert!(matches!(&undo[0], FileOp::Remove(p) if p == "/kb/CONTEXTS/TOOLS/D20.json"));
    assert_eq!(
        finish(&mut server, pending, ok(1), &c).0,
        "# Batch Create Result\n\n**Success:** NO\n**Created:** 1\n\n## Created Doors\nD20\n\n## Errors\n- Write error: full\n"
    );

    let (_, pending) = perform(server.handle_message_at(&call("phishri_batch_create", fresh), &c, 0, "t"));
    let (ops, pending) = perform(server.resume(pending, &ok(4), &c));
    assert!(matches!(&ops[1], FileOp::WriteIndex { .. }));
    assert_eq!(
        finish(&mut server, pending, ok(2), &c).0,
        "# Batch Create Result\n\n**Success:** YES\n**Created:** 2\n\n## Created Doors\nD20, D21\n\n**Total Doors After:** 3\n"
    );
    let (_, pending) = perform(server.handle_message_at(&call("phishri_batch_create", fresh), &c, 0, "t"));
    let (_, pending) = perform(server.resume(pending, &ok(4), &c));
    assert_eq!(
        finish(&mut server, pending, failed_at(0, "denied"), &c).0,
        "# Batch Create Result\n\n**Success:** YES\n**Created:** 2\n\n## Created Doors\nD20, D21\n"
    );
    let unindexed = r#"{"update_indexes": false, "validate": false, "doors": [{"door_code": "W115GIT", "category": "x", "summary": "c"}]}"#;
    let (ops, pending) = perform(server.handle_message_at(&call("phishri_batch_create", unindexed), &c, 0, "t"));
    assert!(matches!(&ops[0], FileOp::CreateDir(p) if p == "/kb/CONTEXTS/X"));
    assert_eq!(
        finish(&mut server, pending, ok(2), &c).0,
        "# Batch Create Result\n\n**Success:** YES\n**Created:** 1\n\n## Created Doors\nW115GIT\n"
    );
    let (ops, pending) = perform(server.handle_message_at(&call("phishri_batch_create", r#"{"doors": []}"#), &c, 0, "t"));
    assert!(ops.is_empty());
    assert_eq!(finish(&mut server, pending, ok(0), &c).0, "# Batch Create Result\n\n**Success:** YES\n**Created:** 0\n");
}

#[test]
fn files_wanted_are_those_of_the_index_and_the_one_that_is_named() {
    let c = small();
    let server = server();
    let by_path = call("phishri_validate_door", r#"{"file_path": "/elsewhere/x.json"}"#);
    let wanted = server.files_wanted(&by_path, &c.index);
    assert_eq!(wanted.len(), 4);
    assert_eq!(wanted[0], "/kb/CONTEXTS/TOOLS/D05SILENT.json");
    assert_eq!(wanted[3], "/elsewhere/x.json");
    assert_eq!(server.files_wanted(&call("phishri_read_door", r#"{"door_code": "D05"}"#), &c.index).len(), 3);
    assert_eq!(server.files_wanted(&Message::Unreadable, &c.index).len(), 3);
    assert!(server.files_wanted(&Message::Unreadable, &IndexFile::Missing).is_empty());
}

fn stamp(server: &mut McpServer, c: &Corpus, secs: i64, nanos: u32) -> String {
    let step = server.handle_message(&call("phishri_update_bootstrap", ""), c, 0, secs, nanos);
    let (ops, _) = perform(step.unwrap());
    match &ops[2] {
        FileOp::WriteRecord { record: SessionRecord::Bootstrap { updated_at, .. }, .. } => updated_at.clone(),
        other => panic!("unexpected: {:?}", other),
    }
}

#[test]
fn records_are_stamped_with_the_moment_that_is_handed_in() {
    let c = small();
    let mut server = server();
    assert_eq!(stamp(&mut server, &c, 1_717_243_200, 0), "2024-06-01T12:00:00+00:00");
    assert_eq!(stamp(&mut server, &c, 0, 500_000_000), "1970-01-01T00:00:00.500+00:00");
    assert_eq!(stamp(&mut server, &c, 1, 123_456_789), "1970-01-01T00:00:01.123456789+00:00");
    assert_eq!(stamp(&mut server, &c, -1, 0), "1969-12-31T23:59:59+00:00");
}

#[test]
fn a_moment_beyond_the_calendar_is_not_handled() {
    let c = small();
    let mut server = server();
    let greeting = initialize(Some(RequestId::Number(1)), "Studio Desktop");
    assert!(server.handle_message(&greeting, &c, 0, i64::MAX, 0).is_none());
    assert!(server.handle_message(&greeting, &c, 0, 0, 2_000_000_000).is_none());
    assert!(!server.is_initialized());
    assert_eq!(server.config().agent_id, "default");
}

#[test]
fn routing_does_not_look_at_the_envelope() {
    let mut server = server();
    let request = JsonRpcRequest {
        jsonrpc: "1.0".to_string(),
        id: Some(RequestId::Number(1)),
        method: "ping".to_string(),
        params: Params::Raw(None),
    };
    assert!(reply(server.route_request(&request, &small(), 0, "t")).result.is_some());
    let refused = reply(server.handle_message_at(&Message::Request(request), &small(), 0, "t"));
    assert_eq!(refused.error.unwrap().code, -32600);
}
