//! The server: it takes one message at a time, routes it to the operation
//! that its method names, and says what to answer. It does not touch a file
//! itself: where files are to be changed, it says which, and goes on once
//! it is told how that went.
use vstd::prelude::*;
use vstd::string::*;
use crate::config::{sanitize_id, sanitized, Config, ConfigModel};
use crate::door::creation::cleared;
use crate::door::loader::{index_targets, same_answers, LoaderModel};
use crate::door::manager::{DoorManager, ManagerModel};
use crate::door::store::{
    Corpus, CorpusModel, FileOp, FileOpModel, IndexFile, IndexFileModel, Outcome, OutcomeModel,
};
use crate::json::{text_arg, text_field};
use crate::mcp::catalog::{
    get_prompt, list_prompts, list_resources, prompt_definitions, prompt_for, read_resource,
    resource_definitions, resource_read,
};
use crate::mcp::handlers::{
    dispatch_tool, drops_caches, resume_tool, resumed_step, tool_step, Stage, StageModel,
    ToolStep, ToolStepModel,
};
use crate::mcp::protocol::{
    copy_id, envelope_error, error_of, failure_of, success_of, Decoded, DecodedModel,
    InitializeResult, InitializeResultModel, JsonRpcError, JsonRpcErrorModel, JsonRpcRequest,
    JsonRpcRequestModel, JsonRpcResponse, JsonRpcResponseModel, Params, ParamsModel,
    PromptsCapability, PromptsCapabilityModel, PromptsListResult, PromptsListResultModel,
    RequestId, RequestIdModel, ResourcesCapability, ResourcesCapabilityModel, ResourcesListResult,
    ResourcesListResultModel, ResultBody, ResultBodyModel, ServerCapabilities,
    ServerCapabilitiesModel, ServerInfo, ServerInfoModel, ToolDefinitionModel, ToolsCapability,
    ToolsCapabilityModel, ToolsListResult, ToolsListResultModel, INVALID_PARAMS, INVALID_REQUEST, MCP_PROTOCOL_VERSION,
    METHOD_NOT_FOUND, PARSE_ERROR,
};
use crate::mcp::tools::{get_tool_definitions, tool_definitions};
use crate::text::{owned, same};

verus! {

/// The name under which the server makes itself known.
pub const SERVER_NAME: &'static str = "phishri-mcp";

/// What is said of parameters that were decoded in a shape that the method
/// does not take.
pub const MISDECODED: &'static str = "parameters are not in the shape that the method takes";

// ---------------------------------------------------------------------------
// What comes in and what goes out
// ---------------------------------------------------------------------------

/// A message as it came in: a request, or a line that holds none.
#[derive(Debug)]
pub enum Message {
    Unreadable,
    Request(JsonRpcRequest),
}

pub enum MessageModel {
    Unreadable,
    Request(JsonRpcRequestModel),
}

impl DeepView for Message {
    type V = MessageModel;

    open spec fn deep_view(&self) -> MessageModel {
        match self {
            Message::Unreadable => MessageModel::Unreadable,
            Message::Request(request) => MessageModel::Request(request.deep_view()),
        }
    }
}

/// What a request waits for while changes to the files are made.
#[derive(Debug)]
pub enum Waiting {
    /// The handshake, while the directories of the session are made.
    Initialize(InitializeResult),
    /// An operation.
    Tool(Stage),
}

pub enum WaitingModel {
    Initialize(InitializeResultModel),
    Tool(StageModel),
}

impl DeepView for Waiting {
    type V = WaitingModel;

    open spec fn deep_view(&self) -> WaitingModel {
        match self {
            Waiting::Initialize(result) => WaitingModel::Initialize(result.deep_view()),
            Waiting::Tool(stage) => WaitingModel::Tool(stage.deep_view()),
        }
    }
}

/// A request that waits: its identifier, and what it waits for.
#[derive(Debug)]
pub struct Pending {
    pub id: Option<RequestId>,
    pub waiting: Waiting,
}

pub struct PendingModel {
    pub id: Option<RequestIdModel>,
    pub waiting: WaitingModel,
}

impl DeepView for Pending {
    type V = PendingModel;

    open spec fn deep_view(&self) -> PendingModel {
        PendingModel { id: self.id.deep_view(), waiting: self.waiting.deep_view() }
    }
}

/// What the server says after a message: the response to send, if any; or
/// the changes to make to the files before the request goes on.
#[derive(Debug)]
pub enum Step {
    Reply(Option<JsonRpcResponse>),
    Perform { ops: Vec<FileOp>, pending: Pending },
}

pub enum StepModel {
    Reply(Option<JsonRpcResponseModel>),
    Perform { ops: Seq<FileOpModel>, pending: PendingModel },
}

impl DeepView for Step {
    type V = StepModel;

    open spec fn deep_view(&self) -> StepModel {
        match self {
            Step::Reply(response) => StepModel::Reply(response.deep_view()),
            Step::Perform { ops, pending } => StepModel::Perform {
                ops: ops.deep_view(),
                pending: pending.deep_view(),
            },
        }
    }
}

// ---------------------------------------------------------------------------
// The server
// ---------------------------------------------------------------------------

/// The server: whether the handshake was made, who the server is, the
/// session it serves, and the manager of the doors.
#[derive(Debug)]
pub struct McpServer {
    initialized: bool,
    server_info: ServerInfo,
    config: Config,
    door_manager: DoorManager,
}

pub struct ServerModel {
    pub initialized: bool,
    pub server_info: ServerInfoModel,
    pub config: ConfigModel,
    pub manager: ManagerModel,
}

impl DeepView for McpServer {
    type V = ServerModel;

    closed spec fn deep_view(&self) -> ServerModel {
        ServerModel {
            initialized: self.initialized,
            server_info: self.server_info.deep_view(),
            config: self.config.deep_view(),
            manager: self.door_manager.deep_view(),
        }
    }
}

/// What the server can do: tools, resources and prompts, none of which
/// change while it runs.
pub open spec fn capabilities() -> ServerCapabilitiesModel {
    ServerCapabilitiesModel {
        tools: Some(ToolsCapabilityModel { list_changed: Some(false) }),
        resources: Some(
            ResourcesCapabilityModel { subscribe: Some(false), list_changed: Some(false) },
        ),
        prompts: Some(PromptsCapabilityModel { list_changed: Some(false) }),
        logging: None,
    }
}

/// The answer to the handshake.
pub open spec fn handshake(server_info: ServerInfoModel) -> InitializeResultModel {
    InitializeResultModel {
        protocol_version: MCP_PROTOCOL_VERSION@,
        capabilities: capabilities(),
        server_info,
    }
}

/// The configuration once a client of the given name has made the
/// handshake: the agent is the client's name, sanitized.
pub open spec fn serving(config: ConfigModel, client: Seq<char>) -> ConfigModel {
    ConfigModel { agent_id: sanitized(client), ..config }
}

/// What a request comes to before it is known whether it is answered: a
/// result, an error, or changes to be made first.
pub enum Routed {
    Answer(ResultBodyModel),
    Refuse(JsonRpcErrorModel),
    Perform { ops: Seq<FileOpModel>, waiting: WaitingModel },
}

/// The refusal of parameters that could not be decoded, or that were
/// decoded in another shape.
pub open spec fn bad_params<T>(decoded: Option<DecodedModel<T>>) -> Routed {
    match decoded {
        Some(DecodedModel::Malformed(message)) => Routed::Refuse(error_of(INVALID_PARAMS, message)),
        _ => Routed::Refuse(error_of(INVALID_PARAMS, MISDECODED@)),
    }
}

/// What the handshake comes to: the directories of the session, which is
/// that of the client from now on, are to be made.
pub open spec fn initialize_routed(s: ServerModel, params: ParamsModel) -> Routed {
    match params {
        ParamsModel::Initialize(DecodedModel::Value(p)) => Routed::Perform {
            ops: seq![
                FileOpModel::CreateDir(serving(s.config, p.client_info.name).session_path()),
                FileOpModel::CreateDir(serving(s.config, p.client_info.name).checkpoints_path()),
            ],
            waiting: WaitingModel::Initialize(handshake(s.server_info)),
        },
        ParamsModel::Initialize(d) => bad_params(Some(d)),
        _ => bad_params::<int>(None),
    }
}

/// What a call comes to: what the operation of the name comes to.
pub open spec fn call_routed(s: ServerModel, params: ParamsModel, c: CorpusModel, now: u64, timestamp: Seq<
    char,
>) -> Routed {
    match params {
        ParamsModel::ToolCall(DecodedModel::Value(p)) => match tool_step(
            s.manager.loader,
            s.config,
            p.name,
            p.arguments,
            c,
            now,
            timestamp,
        ) {
            ToolStepModel::Done(result) => Routed::Answer(ResultBodyModel::ToolCall(result)),
            ToolStepModel::Perform { ops, stage } => Routed::Perform {
                ops,
                waiting: WaitingModel::Tool(stage),
            },
        },
        ParamsModel::ToolCall(d) => bad_params(Some(d)),
        _ => bad_params::<int>(None),
    }
}

/// What asking for a prompt comes to: the prompt, or the refusal of a
/// name that no prompt has.
pub open spec fn prompt_routed(params: ParamsModel) -> Routed {
    match params {
        ParamsModel::PromptGet(DecodedModel::Value(p)) => match prompt_for(p) {
            Some(prompt) => Routed::Answer(ResultBodyModel::Prompt(prompt)),
            None => Routed::Refuse(error_of(INVALID_PARAMS, "Unknown prompt: "@ + p.name)),
        },
        ParamsModel::PromptGet(d) => bad_params(Some(d)),
        _ => bad_params::<int>(None),
    }
}

/// What reading a resource comes to.
pub open spec fn resource_routed(s: ServerModel, params: ParamsModel, c: CorpusModel, now: u64) -> Routed {
    match params {
        ParamsModel::ResourceRead(DecodedModel::Value(p)) => Routed::Answer(
            ResultBodyModel::Resource(resource_read(s.manager.loader, c, now, p.uri)),
        ),
        ParamsModel::ResourceRead(d) => bad_params(Some(d)),
        _ => bad_params::<int>(None),
    }
}

/// What a request comes to, by its method.
pub open spec fn routed(s: ServerModel, request: JsonRpcRequestModel, c: CorpusModel, now: u64, timestamp: Seq<
    char,
>) -> Routed {
    let method = request.method;
    if method == "initialize"@ {
        initialize_routed(s, request.params)
    } else if method == "initialized"@ {
        Routed::Answer(ResultBodyModel::Null)
    } else if method == "ping"@ {
        Routed::Answer(ResultBodyModel::Empty)
    } else if method == "tools/list"@ {
        Routed::Answer(ResultBodyModel::Tools(ToolsListResultModel { tools: tool_definitions() }))
    } else if method == "tools/call"@ {
        call_routed(s, request.params, c, now, timestamp)
    } else if method == "prompts/list"@ {
        Routed::Answer(
            ResultBodyModel::Prompts(PromptsListResultModel { prompts: prompt_definitions() }),
        )
    } else if method == "prompts/get"@ {
        prompt_routed(request.params)
    } else if method == "resources/list"@ {
        Routed::Answer(
            ResultBodyModel::Resources(
                ResourcesListResultModel { resources: resource_definitions() },
            ),
        )
    } else if method == "resources/read"@ {
        resource_routed(s, request.params, c, now)
    } else if method == "notifications/cancelled"@ {
        Routed::Answer(ResultBodyModel::Null)
    } else {
        Routed::Refuse(error_of(METHOD_NOT_FOUND, "Method not found: "@ + method))
    }
}

/// The step that answers a request with a response, or with none where the
/// request is a notification.
pub open spec fn reply(id: Option<RequestIdModel>, response: JsonRpcResponseModel) -> StepModel {
    if id is None {
        StepModel::Reply(None)
    } else {
        StepModel::Reply(Some(response))
    }
}

/// The step that what a request comes to makes.
pub open spec fn step_of(id: Option<RequestIdModel>, routed: Routed) -> StepModel {
    match routed {
        Routed::Answer(result) => reply(id, success_of(id, result)),
        Routed::Refuse(error) => reply(id, failure_of(id, error)),
        Routed::Perform { ops, waiting } => StepModel::Perform {
            ops,
            pending: PendingModel { id, waiting },
        },
    }
}

/// What the server says after a message.
///
/// A line that holds no request is answered with a parse error, without an
/// identifier. A request whose envelope is not valid is refused as an
/// invalid request, and not routed. Any other request is routed by its
/// method. A notification is never answered, whatever it comes to.
pub open spec fn stepped(s: ServerModel, message: MessageModel, c: CorpusModel, now: u64, timestamp: Seq<
    char,
>) -> StepModel {
    match message {
        MessageModel::Unreadable => StepModel::Reply(
            Some(failure_of(None, error_of(PARSE_ERROR, "Parse error"@))),
        ),
        MessageModel::Request(request) => if envelope_error(request) is Some {
            reply(request.id, failure_of(request.id, error_of(INVALID_REQUEST, "Invalid Request"@)))
        } else {
            step_of(request.id, routed(s, request, c, now, timestamp))
        },
    }
}

/// The name of the client that greets with a request: the request names the
/// handshake and its parameters were decoded.
pub open spec fn greeting(request: JsonRpcRequestModel) -> Option<Seq<char>> {
    match request.params {
        ParamsModel::Initialize(DecodedModel::Value(p)) => if request.method == "initialize"@ {
            Some(p.client_info.name)
        } else {
            None
        },
        _ => None,
    }
}

/// The configuration that serves the client that greets, where one does.
pub open spec fn greeted(config: ConfigModel, client: Option<Seq<char>>) -> ConfigModel {
    match client {
        Some(name) => serving(config, name),
        None => config,
    }
}

/// The name of the client that makes the handshake with a message: the
/// message is a request with a valid envelope that greets.
pub open spec fn client_of(message: MessageModel) -> Option<Seq<char>> {
    match message {
        MessageModel::Request(request) => if envelope_error(request) is None {
            greeting(request)
        } else {
            None
        },
        _ => None,
    }
}

/// Whether a message makes the handshake.
pub open spec fn is_handshake(message: MessageModel) -> bool {
    client_of(message) is Some
}

/// The configuration after a message: that of the client where the message
/// makes the handshake, unchanged otherwise.
pub open spec fn config_after(config: ConfigModel, message: MessageModel) -> ConfigModel {
    greeted(config, client_of(message))
}

/// The time of day in the notation of RFC 3339 that `chrono` gives to the
/// moment `secs` seconds and `nanos` nanoseconds after the start of 1970 in
/// universal time; nothing where its calendar has no such moment.
pub uninterp spec fn rfc3339_of(secs: i64, nanos: u32) -> Option<Seq<char>>;

/// Calls `chrono::DateTime::from_timestamp` and, on the moment that it
/// gives, `DateTime::to_rfc3339`. Both depend on the two numbers alone, and
/// neither fails otherwise than by giving no moment; nothing more is
/// claimed of the text than that it is the one they give.
#[verifier::external_body]
fn rfc3339(secs: i64, nanos: u32) -> (r: Option<String>)
    ensures
        r.deep_view() == rfc3339_of(secs, nanos),
{
    match chrono::DateTime::from_timestamp(secs, nanos) {
        Some(moment) => Some(moment.to_rfc3339()),
        None => None,
    }
}

fn answer(id: &Option<RequestId>, result: ResultBody) -> (r: Step)
    ensures
        r.deep_view() == reply(id.deep_view(), success_of(id.deep_view(), result.deep_view())),
{
    match id {
        Some(_) => Step::Reply(Some(JsonRpcResponse::success(copy_id(id), result))),
        None => Step::Reply(None),
    }
}

fn refuse(id: &Option<RequestId>, error: JsonRpcError) -> (r: Step)
    ensures
        r.deep_view() == reply(id.deep_view(), failure_of(id.deep_view(), error.deep_view())),
{
    match id {
        Some(_) => Step::Reply(Some(JsonRpcResponse::error(copy_id(id), error))),
        None => Step::Reply(None),
    }
}

fn refuse_params(id: &Option<RequestId>, message: Option<&String>) -> (r: Step)
    ensures
        r.deep_view() == reply(
            id.deep_view(),
            failure_of(
                id.deep_view(),
                error_of(
                    INVALID_PARAMS,
                    match message {
                        Some(m) => m@,
                        None => MISDECODED@,
                    },
                ),
            ),
        ),
{
    let text = match message {
        Some(m) => m.clone(),
        None => owned(MISDECODED),
    };
    refuse(id, JsonRpcError::invalid_params(text))
}

impl McpServer {
    /// A server for a session, not yet initialized; `version` is the
    /// version that it makes itself known with.
    pub fn new(config: Config, version: &str) -> (r: McpServer)
        ensures
            !r.deep_view().initialized,
            r.deep_view().server_info == (ServerInfoModel {
                name: SERVER_NAME@,
                version: version@,
            }),
            r.deep_view().config == config.deep_view(),
            r.deep_view().manager.config == config.deep_view(),
            r.deep_view().manager.loader == (LoaderModel {
                config: config.deep_view(),
                index: None,
                cache: Seq::empty(),
            }),
            r.deep_view().manager.loader.settled(),
    {
        let door_manager = DoorManager::new(config.clone());
        McpServer {
            initialized: false,
            server_info: ServerInfo { name: owned(SERVER_NAME), version: owned(version) },
            config,
            door_manager,
        }
    }

    /// Whether the handshake was made.
    pub fn is_initialized(&self) -> (r: bool)
        ensures
            r == self.deep_view().initialized,
    {
        self.initialized
    }

    /// Who the server is.
    pub fn server_info(&self) -> (r: &ServerInfo)
        ensures
            r.deep_view() == self.deep_view().server_info,
    {
        &self.server_info
    }

    /// The session that the server serves.
    pub fn config(&self) -> (r: &Config)
        ensures
            r.deep_view() == self.deep_view().config,
    {
        &self.config
    }

    /// The manager of the doors.
    pub fn door_manager(&self) -> (r: &DoorManager)
        ensures
            r.deep_view() == self.deep_view().manager,
    {
        &self.door_manager
    }

    fn handle_initialize(&mut self, request: &JsonRpcRequest) -> (r: Step)
        requires
            request.method@ == "initialize"@,
        ensures
            r.deep_view() == step_of(
                request.id.deep_view(),
                initialize_routed(old(self).deep_view(), request.params.deep_view()),
            ),
            final(self).deep_view() == (ServerModel {
                initialized: old(self).deep_view().initialized || greeting(request.deep_view())
                    is Some,
                config: greeted(old(self).deep_view().config, greeting(request.deep_view())),
                ..old(self).deep_view()
            }),
    {
        let params = match &request.params {
            Params::Initialize(Decoded::Value(params)) => params,
            Params::Initialize(Decoded::Malformed(message)) => {
                return refuse_params(&request.id, Some(message));
            },
            _ => {
                return refuse_params(&request.id, None);
            },
        };
        self.config.agent_id = sanitize_id(params.client_info.name.as_str());
        self.initialized = true;
        let mut ops: Vec<FileOp> = Vec::new();
        ops.push(FileOp::CreateDir(self.config.session_path()));
        ops.push(FileOp::CreateDir(self.config.checkpoints_path()));
        let result = InitializeResult {
            protocol_version: owned(MCP_PROTOCOL_VERSION),
            capabilities: ServerCapabilities {
                tools: Some(ToolsCapability { list_changed: Some(false) }),
                resources: Some(
                    ResourcesCapability { subscribe: Some(false), list_changed: Some(false) },
                ),
                prompts: Some(PromptsCapability { list_changed: Some(false) }),
                logging: None,
            },
            server_info: self.server_info.clone(),
        };
        proof {
            let served = serving(old(self).deep_view().config, params.client_info.name@);
            assert(ops.deep_view() =~= seq![
                FileOpModel::CreateDir(served.session_path()),
                FileOpModel::CreateDir(served.checkpoints_path()),
            ]);
        }
        Step::Perform {
            ops,
            pending: Pending { id: copy_id(&request.id), waiting: Waiting::Initialize(result) },
        }
    }

    fn handle_tools_call(&mut self, request: &JsonRpcRequest, corpus: &Corpus, now: u64, timestamp: &str) -> (r:
        Step)
        ensures
            r.deep_view() == step_of(
                request.id.deep_view(),
                call_routed(
                    old(self).deep_view(),
                    request.params.deep_view(),
                    corpus.deep_view(),
                    now,
                    timestamp@,
                ),
            ),
            final(self).deep_view().initialized == old(self).deep_view().initialized,
            final(self).deep_view().config == old(self).deep_view().config,
            final(self).deep_view().server_info == old(self).deep_view().server_info,
            final(self).deep_view().manager.config == old(self).deep_view().manager.config,
            same_answers(
                final(self).deep_view().manager.loader,
                old(self).deep_view().manager.loader,
                corpus.deep_view(),
                now,
            ),
            old(self).deep_view().manager.loader.settled() ==> final(self).deep_view().manager.loader.settled(),
    {
        let id = &request.id;
        match &request.params {
            Params::ToolCall(Decoded::Value(params)) => {
                match dispatch_tool(
                    &mut self.door_manager,
                    &self.config,
                    params.name.as_str(),
                    &params.arguments,
                    corpus,
                    now,
                    timestamp,
                ) {
                    ToolStep::Done(result) => answer(id, ResultBody::ToolCall(result)),
                    ToolStep::Perform { ops, stage } => Step::Perform {
                        ops,
                        pending: Pending { id: copy_id(id), waiting: Waiting::Tool(stage) },
                    },
                }
            },
            Params::ToolCall(Decoded::Malformed(message)) => refuse_params(id, Some(message)),
            _ => refuse_params(id, None),
        }
    }

    fn handle_prompts_get(&self, request: &JsonRpcRequest) -> (r: Step)
        ensures
            r.deep_view() == step_of(
                request.id.deep_view(),
                prompt_routed(request.params.deep_view()),
            ),
    {
        let id = &request.id;
        match &request.params {
            Params::PromptGet(Decoded::Value(params)) => match get_prompt(params) {
                Some(prompt) => answer(id, ResultBody::Prompt(prompt)),
                None => {
                    let mut message = owned("Unknown prompt: ");
                    message.append(params.name.as_str());
                    refuse(id, JsonRpcError::invalid_params(message))
                },
            },
            Params::PromptGet(Decoded::Malformed(message)) => refuse_params(id, Some(message)),
            _ => refuse_params(id, None),
        }
    }

    fn handle_resources_read(&mut self, request: &JsonRpcRequest, corpus: &Corpus, now: u64) -> (r:
        Step)
        ensures
            r.deep_view() == step_of(
                request.id.deep_view(),
                resource_routed(
                    old(self).deep_view(),
                    request.params.deep_view(),
                    corpus.deep_view(),
                    now,
                ),
            ),
            final(self).deep_view().initialized == old(self).deep_view().initialized,
            final(self).deep_view().config == old(self).deep_view().config,
            final(self).deep_view().server_info == old(self).deep_view().server_info,
            final(self).deep_view().manager.config == old(self).deep_view().manager.config,
            same_answers(
                final(self).deep_view().manager.loader,
                old(self).deep_view().manager.loader,
                corpus.deep_view(),
                now,
            ),
            old(self).deep_view().manager.loader.settled() ==> final(self).deep_view().manager.loader.settled(),
    {
        let id = &request.id;
        match &request.params {
            Params::ResourceRead(Decoded::Value(params)) => {
                let result = read_resource(
                    &mut self.door_manager,
                    params.uri.as_str(),
                    corpus,
                    now,
                );
                answer(id, ResultBody::Resource(result))
            },
            Params::ResourceRead(Decoded::Malformed(message)) => refuse_params(id, Some(message)),
            _ => refuse_params(id, None),
        }
    }

    /// Routes a request by its method, whatever its envelope.
    pub fn route_request(&mut self, request: &JsonRpcRequest, corpus: &Corpus, now: u64, timestamp: &str) -> (r:
        Step)
        ensures
            r.deep_view() == step_of(
                request.id.deep_view(),
                routed(
                    old(self).deep_view(),
                    request.deep_view(),
                    corpus.deep_view(),
                    now,
                    timestamp@,
                ),
            ),
            final(self).deep_view().initialized == (old(self).deep_view().initialized || greeting(
                request.deep_view(),
            ) is Some),
            final(self).deep_view().config == greeted(
                old(self).deep_view().config,
                greeting(request.deep_view()),
            ),
            final(self).deep_view().server_info == old(self).deep_view().server_info,
            final(self).deep_view().manager.config == old(self).deep_view().manager.config,
            same_answers(
                final(self).deep_view().manager.loader,
                old(self).deep_view().manager.loader,
                corpus.deep_view(),
                now,
            ),
            old(self).deep_view().manager.loader.settled() ==> final(self).deep_view().manager.loader.settled(),
    {
        let method = request.method.as_str();
        let id = &request.id;
        if same(method, "initialize") {
            self.handle_initialize(request)
        } else if same(method, "initialized") {
            answer(id, ResultBody::Null)
        } else if same(method, "ping") {
            answer(id, ResultBody::Empty)
        } else if same(method, "tools/list") {
            answer(id, ResultBody::Tools(ToolsListResult { tools: get_tool_definitions() }))
        } else if same(method, "tools/call") {
            self.handle_tools_call(request, corpus, now, timestamp)
        } else if same(method, "prompts/list") {
            answer(id, ResultBody::Prompts(PromptsListResult { prompts: list_prompts() }))
        } else if same(method, "prompts/get") {
            self.handle_prompts_get(request)
        } else if same(method, "resources/list") {
            answer(id, ResultBody::Resources(ResourcesListResult { resources: list_resources() }))
        } else if same(method, "resources/read") {
            self.handle_resources_read(request, corpus, now)
        } else if same(method, "notifications/cancelled") {
            answer(id, ResultBody::Null)
        } else {
            refuse(id, JsonRpcError::method_not_found(method))
        }
    }

    /// Handles one message at a known time: `now` counts milliseconds on a
    /// clock that does not go back, `timestamp` is the time of day as it is
    /// written into files. `corpus` is the files as they are.
    pub fn handle_message_at(&mut self, message: &Message, corpus: &Corpus, now: u64, timestamp: &str) -> (r:
        Step)
        ensures
            r.deep_view() == stepped(
                old(self).deep_view(),
                message.deep_view(),
                corpus.deep_view(),
                now,
                timestamp@,
            ),
            message matches Message::Request(request) && request.id is None ==> match r {
                Step::Reply(response) => response is None,
                Step::Perform { pending, .. } => pending.id is None,
            },
            final(self).deep_view().initialized == (old(self).deep_view().initialized
                || is_handshake(message.deep_view())),
            final(self).deep_view().config == config_after(
                old(self).deep_view().config,
                message.deep_view(),
            ),
            final(self).deep_view().server_info == old(self).deep_view().server_info,
            final(self).deep_view().manager.config == old(self).deep_view().manager.config,
            same_answers(
                final(self).deep_view().manager.loader,
                old(self).deep_view().manager.loader,
                corpus.deep_view(),
                now,
            ),
            old(self).deep_view().manager.loader.settled() ==> final(self).deep_view().manager.loader.settled(),
    {
        match message {
            Message::Unreadable => Step::Reply(
                Some(JsonRpcResponse::error(None, JsonRpcError::parse_error())),
            ),
            Message::Request(request) => {
                if request.validate().is_err() {
                    return refuse(&request.id, JsonRpcError::invalid_request());
                }
                self.route_request(request, corpus, now, timestamp)
            },
        }
    }

    /// Handles one message at the moment `secs` seconds and `nanos`
    /// nanoseconds after the start of 1970, which is written into files in
    /// the notation of RFC 3339. Where the calendar has no such moment the
    /// message is not handled and the server stays as it is.
    pub fn handle_message(
        &mut self,
        message: &Message,
        corpus: &Corpus,
        now: u64,
        secs: i64,
        nanos: u32,
    ) -> (r: Option<Step>)
        ensures
            rfc3339_of(secs, nanos) is None ==> r is None && final(self).deep_view() == old(self).deep_view(),
            rfc3339_of(secs, nanos) matches Some(timestamp) ==> {
                &&& r matches Some(step)
                &&& step.deep_view() == stepped(
                    old(self).deep_view(),
                    message.deep_view(),
                    corpus.deep_view(),
                    now,
                    timestamp,
                )
                &&& (message matches Message::Request(request) && request.id is None ==> match step {
                    Step::Reply(response) => response is None,
                    Step::Perform { pending, .. } => pending.id is None,
                })
                &&& final(self).deep_view().initialized == (old(self).deep_view().initialized
                    || is_handshake(message.deep_view()))
                &&& final(self).deep_view().config == config_after(
                    old(self).deep_view().config,
                    message.deep_view(),
                )
                &&& final(self).deep_view().server_info == old(self).deep_view().server_info
                &&& final(self).deep_view().manager.config == old(self).deep_view().manager.config
                &&& same_answers(
                    final(self).deep_view().manager.loader,
                    old(self).deep_view().manager.loader,
                    corpus.deep_view(),
                    now,
                )
                &&& (old(self).deep_view().manager.loader.settled() ==> final(
                    self
                ).deep_view().manager.loader.settled())
            },
    {
        match rfc3339(secs, nanos) {
            Some(timestamp) => Some(self.handle_message_at(message, corpus, now, timestamp.as_str())),
            None => None,
        }
    }
}

// ---------------------------------------------------------------------------
// Which files a message may ask for
// ---------------------------------------------------------------------------

/// The file that a message names itself: the argument `file_path` of a
/// call.
pub open spec fn named_file(message: MessageModel) -> Option<Seq<char>> {
    match message {
        MessageModel::Request(request) => match request.params {
            ParamsModel::ToolCall(DecodedModel::Value(p)) => text_field(
                p.arguments,
                "file_path"@,
            ),
            _ => None,
        },
        _ => None,
    }
}

/// The files, besides those of the category directories, whose content
/// handling a message may ask for: those that the index leads to, and the
/// one that the message names itself.
pub open spec fn files_wanted(s: ServerModel, message: MessageModel, index: IndexFileModel) -> Seq<
    Seq<char>,
> {
    match named_file(message) {
        Some(path) => index_targets(s.manager.loader, index).push(path),
        None => index_targets(s.manager.loader, index),
    }
}

impl McpServer {
    /// The files, besides those of the category directories, whose content
    /// handling a message may ask for, with the index file as it is.
    pub fn files_wanted(&self, message: &Message, index: &IndexFile) -> (r: Vec<String>)
        ensures
            r.deep_view() == files_wanted(
                self.deep_view(),
                message.deep_view(),
                index.deep_view(),
            ),
    {
        let mut wanted = self.door_manager.index_targets(index);
        let ghost before = wanted.deep_view();
        match message {
            Message::Request(request) => match &request.params {
                Params::ToolCall(Decoded::Value(params)) => {
                    match text_arg(&params.arguments, "file_path") {
                        Some(path) => {
                            wanted.push(path);
                            assert(wanted.deep_view() =~= before.push(path@));
                        },
                        None => {},
                    }
                },
                _ => {},
            },
            _ => {},
        }
        wanted
    }
}

// ---------------------------------------------------------------------------
// Going on after the files were changed
// ---------------------------------------------------------------------------

/// What the server says once the changes that a request waited for were
/// made, or not, with the files as they are now: the answer to the
/// handshake, however the making of the directories went; or what the
/// operation comes to.
pub open spec fn resumed(s: ServerModel, pending: PendingModel, outcome: OutcomeModel, c: CorpusModel) -> StepModel {
    match pending.waiting {
        WaitingModel::Initialize(result) => reply(
            pending.id,
            success_of(pending.id, ResultBodyModel::Initialize(result)),
        ),
        WaitingModel::Tool(stage) => match resumed_step(
            s.manager.loader.config,
            stage,
            outcome,
            c,
        ) {
            ToolStepModel::Done(result) => reply(
                pending.id,
                success_of(pending.id, ResultBodyModel::ToolCall(result)),
            ),
            ToolStepModel::Perform { ops, stage } => StepModel::Perform {
                ops,
                pending: PendingModel { id: pending.id, waiting: WaitingModel::Tool(stage) },
            },
        },
    }
}

impl McpServer {
    /// Goes on with a request after the changes it waited for were made, or
    /// not; `corpus` is the files as they are now.
    pub fn resume(&mut self, pending: Pending, outcome: &Outcome, corpus: &Corpus) -> (r: Step)
        ensures
            r.deep_view() == resumed(
                old(self).deep_view(),
                pending.deep_view(),
                outcome.deep_view(),
                corpus.deep_view(),
            ),
            pending.id is None ==> match r {
                Step::Reply(response) => response is None,
                Step::Perform { pending: next, .. } => next.id is None,
            },
            final(self).deep_view().initialized == old(self).deep_view().initialized,
            final(self).deep_view().config == old(self).deep_view().config,
            final(self).deep_view().server_info == old(self).deep_view().server_info,
            final(self).deep_view().manager.config == old(self).deep_view().manager.config,
            final(self).deep_view().manager.loader == (match pending.waiting {
                Waiting::Tool(stage) if drops_caches(stage.deep_view(), outcome.deep_view()) => {
                    cleared(old(self).deep_view().manager.loader)
                },
                _ => old(self).deep_view().manager.loader,
            }),
            old(self).deep_view().manager.loader.settled() ==> final(self).deep_view().manager.loader.settled(),
    {
        let Pending { id, waiting } = pending;
        match waiting {
            Waiting::Initialize(result) => answer(&id, ResultBody::Initialize(result)),
            Waiting::Tool(stage) => match resume_tool(
                &mut self.door_manager,
                stage,
                outcome,
                corpus,
            ) {
                ToolStep::Done(result) => answer(&id, ResultBody::ToolCall(result)),
                ToolStep::Perform { ops, stage } => Step::Perform {
                    ops,
                    pending: Pending { id, waiting: Waiting::Tool(stage) },
                },
            },
        }
    }
}

/// A notification is never answered: whatever a message without an
/// identifier comes to, the server says no response; where changes are to
/// be made first, the request that waits has no identifier either, and has
/// none when it goes on.
pub proof fn notification_is_never_answered(
    s: ServerModel,
    request: JsonRpcRequestModel,
    c: CorpusModel,
    now: u64,
    timestamp: Seq<char>,
    pending: PendingModel,
    outcome: OutcomeModel,
)
    requires
        request.id is None,
        pending.id is None,
    ensures
        match stepped(s, MessageModel::Request(request), c, now, timestamp) {
            StepModel::Reply(response) => response is None,
            StepModel::Perform { pending, .. } => pending.id is None,
        },
        match resumed(s, pending, outcome, c) {
            StepModel::Reply(response) => response is None,
            StepModel::Perform { pending, .. } => pending.id is None,
        },
{
}

/// A response carries a result or an error, never both, and the identifier
/// of its request.
pub proof fn response_is_result_or_error(
    s: ServerModel,
    message: MessageModel,
    c: CorpusModel,
    now: u64,
    timestamp: Seq<char>,
)
    ensures
        stepped(s, message, c, now, timestamp) matches StepModel::Reply(Some(response)) ==> {
            &&& response.result is Some <==> response.error is None
            &&& message matches MessageModel::Request(request) ==> response.id == request.id
        },
{
}

} // verus!
