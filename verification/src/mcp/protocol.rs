//! The envelope of the request and response protocol, and the shapes of its
//! messages.
use vstd::prelude::*;
use vstd::string::*;
use crate::door::schema::{Door, DoorModel};
use crate::json::{JsonModel, JsonValue};
use crate::text::{owned, same};

verus! {

/// The version of the envelope.
pub const JSONRPC_VERSION: &'static str = "2.0";

/// The version of the protocol that the server speaks.
pub const MCP_PROTOCOL_VERSION: &'static str = "2024-11-05";

// ---------------------------------------------------------------------------
// Identifiers
// ---------------------------------------------------------------------------

/// The identifier of a request: a text, a number, or null.
#[derive(Debug)]
pub enum RequestId {
    String(String),
    Number(i64),
    Null,
}

pub enum RequestIdModel {
    String(Seq<char>),
    Number(i64),
    Null,
}

impl DeepView for RequestId {
    type V = RequestIdModel;

    open spec fn deep_view(&self) -> RequestIdModel {
        match self {
            RequestId::String(s) => RequestIdModel::String(s@),
            RequestId::Number(n) => RequestIdModel::Number(*n),
            RequestId::Null => RequestIdModel::Null,
        }
    }
}

impl Clone for RequestId {
    fn clone(&self) -> (r: Self)
        ensures
            r.deep_view() == self.deep_view(),
    {
        match self {
            RequestId::String(s) => RequestId::String(s.clone()),
            RequestId::Number(n) => RequestId::Number(*n),
            RequestId::Null => RequestId::Null,
        }
    }
}

impl Default for RequestId {
    fn default() -> (r: Self)
        ensures
            r.deep_view() == RequestIdModel::Null,
    {
        RequestId::Null
    }
}

impl PartialEq for RequestId {
    fn eq(&self, other: &Self) -> (r: bool) {
        match (self, other) {
            (RequestId::String(a), RequestId::String(b)) => same(a.as_str(), b.as_str()),
            (RequestId::Number(a), RequestId::Number(b)) => *a == *b,
            (RequestId::Null, RequestId::Null) => true,
            _ => false,
        }
    }
}

impl vstd::std_specs::cmp::PartialEqSpecImpl for RequestId {
    open spec fn obeys_eq_spec() -> bool {
        true
    }

    open spec fn eq_spec(&self, other: &Self) -> bool {
        self.deep_view() == other.deep_view()
    }
}

/// A copy of an optional identifier.
pub fn copy_id(id: &Option<RequestId>) -> (r: Option<RequestId>)
    ensures
        r.deep_view() == id.deep_view(),
{
    match id {
        Some(id) => Some(id.clone()),
        None => None,
    }
}

// ---------------------------------------------------------------------------
// Errors
// ---------------------------------------------------------------------------

/// The code of a message that could not be read.
pub const PARSE_ERROR: i32 = -32700;

/// The code of an envelope that is not valid.
pub const INVALID_REQUEST: i32 = -32600;

/// The code of a method that is not known.
pub const METHOD_NOT_FOUND: i32 = -32601;

/// The code of parameters that do not fit the method.
pub const INVALID_PARAMS: i32 = -32602;

/// The code of a failure inside the server.
pub const INTERNAL_ERROR: i32 = -32603;

/// The code of a door that is not found.
pub const DOOR_NOT_FOUND: i32 = -32000;

/// The code of a failure of the index.
pub const INDEX_ERROR: i32 = -32001;

/// The code of a failure of the bootstrap.
pub const BOOTSTRAP_ERROR: i32 = -32002;

/// The code of a failure of a search.
pub const SEARCH_ERROR: i32 = -32003;

/// What went wrong with a message.
#[derive(Debug)]
pub enum ProtocolError {
    InvalidVersion(String),
    InvalidMethod,
    InvalidParams(String),
    ParseError(String),
    IoError(String),
    SerializationError(String),
}

pub enum ProtocolErrorModel {
    InvalidVersion(Seq<char>),
    InvalidMethod,
    InvalidParams(Seq<char>),
    ParseError(Seq<char>),
    IoError(Seq<char>),
    SerializationError(Seq<char>),
}

impl DeepView for ProtocolError {
    type V = ProtocolErrorModel;

    open spec fn deep_view(&self) -> ProtocolErrorModel {
        match self {
            ProtocolError::InvalidVersion(s) => ProtocolErrorModel::InvalidVersion(s@),
            ProtocolError::InvalidMethod => ProtocolErrorModel::InvalidMethod,
            ProtocolError::InvalidParams(s) => ProtocolErrorModel::InvalidParams(s@),
            ProtocolError::ParseError(s) => ProtocolErrorModel::ParseError(s@),
            ProtocolError::IoError(s) => ProtocolErrorModel::IoError(s@),
            ProtocolError::SerializationError(s) => ProtocolErrorModel::SerializationError(s@),
        }
    }
}

/// The message of a protocol error.
pub open spec fn protocol_error_message(e: ProtocolErrorModel) -> Seq<char> {
    match e {
        ProtocolErrorModel::InvalidVersion(s) => "Invalid JSON-RPC version: "@ + s,
        ProtocolErrorModel::InvalidMethod => "Invalid method"@,
        ProtocolErrorModel::InvalidParams(s) => "Invalid params: "@ + s,
        ProtocolErrorModel::ParseError(s) => "Parse error: "@ + s,
        ProtocolErrorModel::IoError(s) => "IO error: "@ + s,
        ProtocolErrorModel::SerializationError(s) => "Serialization error: "@ + s,
    }
}

impl ProtocolError {
    /// The message of the error.
    pub fn message(&self) -> (r: String)
        ensures
            r@ == protocol_error_message(self.deep_view()),
    {
        match self {
            ProtocolError::InvalidVersion(s) => {
                let mut out = owned("Invalid JSON-RPC version: ");
                out.append(s.as_str());
                out
            },
            ProtocolError::InvalidMethod => owned("Invalid method"),
            ProtocolError::InvalidParams(s) => {
                let mut out = owned("Invalid params: ");
                out.append(s.as_str());
                out
            },
            ProtocolError::ParseError(s) => {
                let mut out = owned("Parse error: ");
                out.append(s.as_str());
                out
            },
            ProtocolError::IoError(s) => {
                let mut out = owned("IO error: ");
                out.append(s.as_str());
                out
            },
            ProtocolError::SerializationError(s) => {
                let mut out = owned("Serialization error: ");
                out.append(s.as_str());
                out
            },
        }
    }
}

// ---------------------------------------------------------------------------
// Messages
// ---------------------------------------------------------------------------

/// The error of a response.
#[derive(Debug)]
pub struct JsonRpcError {
    pub code: i32,
    pub message: String,
    pub data: Option<JsonValue>,
}

pub struct JsonRpcErrorModel {
    pub code: i32,
    pub message: Seq<char>,
    pub data: Option<JsonModel>,
}

impl DeepView for JsonRpcError {
    type V = JsonRpcErrorModel;

    open spec fn deep_view(&self) -> JsonRpcErrorModel {
        JsonRpcErrorModel {
            code: self.code,
            message: self.message@,
            data: self.data.deep_view(),
        }
    }
}

impl Clone for JsonRpcError {
    fn clone(&self) -> (r: Self)
        ensures
            r.deep_view() == self.deep_view(),
    {
        JsonRpcError {
            code: self.code,
            message: self.message.clone(),
            data: match &self.data {
                Some(x) => Some(x.clone()),
                None => None,
            },
        }
    }
}

/// What a client can do with roots.
#[derive(Debug)]
pub struct RootsCapability {
    pub list_changed: bool,
}

pub struct RootsCapabilityModel {
    pub list_changed: bool,
}

impl DeepView for RootsCapability {
    type V = RootsCapabilityModel;

    open spec fn deep_view(&self) -> RootsCapabilityModel {
        RootsCapabilityModel {
            list_changed: self.list_changed,
        }
    }
}

impl Clone for RootsCapability {
    fn clone(&self) -> (r: Self)
        ensures
            r.deep_view() == self.deep_view(),
    {
        RootsCapability {
            list_changed: self.list_changed,
        }
    }
}

/// What a client can do.
#[derive(Debug)]
pub struct ClientCapabilities {
    pub roots: Option<RootsCapability>,
    pub sampling: Option<JsonValue>,
    pub experimental: Option<JsonValue>,
}

pub struct ClientCapabilitiesModel {
    pub roots: Option<RootsCapabilityModel>,
    pub sampling: Option<JsonModel>,
    pub experimental: Option<JsonModel>,
}

impl DeepView for ClientCapabilities {
    type V = ClientCapabilitiesModel;

    open spec fn deep_view(&self) -> ClientCapabilitiesModel {
        ClientCapabilitiesModel {
            roots: self.roots.deep_view(),
            sampling: self.sampling.deep_view(),
            experimental: self.experimental.deep_view(),
        }
    }
}

impl Clone for ClientCapabilities {
    fn clone(&self) -> (r: Self)
        ensures
            r.deep_view() == self.deep_view(),
    {
        ClientCapabilities {
            roots: match &self.roots {
                Some(x) => Some(x.clone()),
                None => None,
            },
            sampling: match &self.sampling {
                Some(x) => Some(x.clone()),
                None => None,
            },
            experimental: match &self.experimental {
                Some(x) => Some(x.clone()),
                None => None,
            },
        }
    }
}

/// Who the client is.
#[derive(Debug)]
pub struct ClientInfo {
    pub name: String,
    pub version: String,
}

pub struct ClientInfoModel {
    pub name: Seq<char>,
    pub version: Seq<char>,
}

impl DeepView for ClientInfo {
    type V = ClientInfoModel;

    open spec fn deep_view(&self) -> ClientInfoModel {
        ClientInfoModel {
            name: self.name@,
            version: self.version@,
        }
    }
}

impl Clone for ClientInfo {
    fn clone(&self) -> (r: Self)
        ensures
            r.deep_view() == self.deep_view(),
    {
        ClientInfo {
            name: self.name.clone(),
            version: self.version.clone(),
        }
    }
}

/// The parameters of the handshake.
#[derive(Debug)]
pub struct InitializeParams {
    pub protocol_version: String,
    pub capabilities: ClientCapabilities,
    pub client_info: ClientInfo,
}

pub struct InitializeParamsModel {
    pub protocol_version: Seq<char>,
    pub capabilities: ClientCapabilitiesModel,
    pub client_info: ClientInfoModel,
}

impl DeepView for InitializeParams {
    type V = InitializeParamsModel;

    open spec fn deep_view(&self) -> InitializeParamsModel {
        InitializeParamsModel {
            protocol_version: self.protocol_version@,
            capabilities: self.capabilities.deep_view(),
            client_info: self.client_info.deep_view(),
        }
    }
}

impl Clone for InitializeParams {
    fn clone(&self) -> (r: Self)
        ensures
            r.deep_view() == self.deep_view(),
    {
        InitializeParams {
            protocol_version: self.protocol_version.clone(),
            capabilities: self.capabilities.clone(),
            client_info: self.client_info.clone(),
        }
    }
}

/// What the server can do with tools.
#[derive(Debug)]
pub struct ToolsCapability {
    pub list_changed: Option<bool>,
}

pub struct ToolsCapabilityModel {
    pub list_changed: Option<bool>,
}

impl DeepView for ToolsCapability {
    type V = ToolsCapabilityModel;

    open spec fn deep_view(&self) -> ToolsCapabilityModel {
        ToolsCapabilityModel {
            list_changed: self.list_changed.deep_view(),
        }
    }
}

impl Clone for ToolsCapability {
    fn clone(&self) -> (r: Self)
        ensures
            r.deep_view() == self.deep_view(),
    {
        ToolsCapability {
            list_changed: self.list_changed,
        }
    }
}

/// What the server can do with resources.
#[derive(Debug)]
pub struct ResourcesCapability {
    pub subscribe: Option<bool>,
    pub list_changed: Option<bool>,
}

pub struct ResourcesCapabilityModel {
    pub subscribe: Option<bool>,
    pub list_changed: Option<bool>,
}

impl DeepView for ResourcesCapability {
    type V = ResourcesCapabilityModel;

    open spec fn deep_view(&self) -> ResourcesCapabilityModel {
        ResourcesCapabilityModel {
            subscribe: self.subscribe.deep_view(),
            list_changed: self.list_changed.deep_view(),
        }
    }
}

impl Clone for ResourcesCapability {
    fn clone(&self) -> (r: Self)
        ensures
            r.deep_view() == self.deep_view(),
    {
        ResourcesCapability {
            subscribe: self.subscribe,
            list_changed: self.list_changed,
        }
    }
}

/// What the server can do with prompts.
#[derive(Debug)]
pub struct PromptsCapability {
    pub list_changed: Option<bool>,
}

pub struct PromptsCapabilityModel {
    pub list_changed: Option<bool>,
}

impl DeepView for PromptsCapability {
    type V = PromptsCapabilityModel;

    open spec fn deep_view(&self) -> PromptsCapabilityModel {
        PromptsCapabilityModel {
            list_changed: self.list_changed.deep_view(),
        }
    }
}

impl Clone for PromptsCapability {
    fn clone(&self) -> (r: Self)
        ensures
            r.deep_view() == self.deep_view(),
    {
        PromptsCapability {
            list_changed: self.list_changed,
        }
    }
}

/// What the server can do.
#[derive(Debug)]
pub struct ServerCapabilities {
    pub tools: Option<ToolsCapability>,
    pub resources: Option<ResourcesCapability>,
    pub prompts: Option<PromptsCapability>,
    pub logging: Option<JsonValue>,
}

pub struct ServerCapabilitiesModel {
    pub tools: Option<ToolsCapabilityModel>,
    pub resources: Option<ResourcesCapabilityModel>,
    pub prompts: Option<PromptsCapabilityModel>,
    pub logging: Option<JsonModel>,
}

impl DeepView for ServerCapabilities {
    type V = ServerCapabilitiesModel;

    open spec fn deep_view(&self) -> ServerCapabilitiesModel {
        ServerCapabilitiesModel {
            tools: self.tools.deep_view(),
            resources: self.resources.deep_view(),
            prompts: self.prompts.deep_view(),
            logging: self.logging.deep_view(),
        }
    }
}

impl Clone for ServerCapabilities {
    fn clone(&self) -> (r: Self)
        ensures
            r.deep_view() == self.deep_view(),
    {
        ServerCapabilities {
            tools: match &self.tools {
                Some(x) => Some(x.clone()),
                None => None,
            },
            resources: match &self.resources {
                Some(x) => Some(x.clone()),
                None => None,
            },
            prompts: match &self.prompts {
                Some(x) => Some(x.clone()),
                None => None,
            },
            logging: match &self.logging {
                Some(x) => Some(x.clone()),
                None => None,
            },
        }
    }
}

/// Who the server is.
#[derive(Debug)]
pub struct ServerInfo {
    pub name: String,
    pub version: String,
}

pub struct ServerInfoModel {
    pub name: Seq<char>,
    pub version: Seq<char>,
}

impl DeepView for ServerInfo {
    type V = ServerInfoModel;

    open spec fn deep_view(&self) -> ServerInfoModel {
        ServerInfoModel {
            name: self.name@,
            version: self.version@,
        }
    }
}

impl Clone for ServerInfo {
    fn clone(&self) -> (r: Self)
        ensures
            r.deep_view() == self.deep_view(),
    {
        ServerInfo {
            name: self.name.clone(),
            version: self.version.clone(),
        }
    }
}

/// The answer to the handshake.
#[derive(Debug)]
pub struct InitializeResult {
    pub protocol_version: String,
    pub capabilities: ServerCapabilities,
    pub server_info: ServerInfo,
}

pub struct InitializeResultModel {
    pub protocol_version: Seq<char>,
    pub capabilities: ServerCapabilitiesModel,
    pub server_info: ServerInfoModel,
}

impl DeepView for InitializeResult {
    type V = InitializeResultModel;

    open spec fn deep_view(&self) -> InitializeResultModel {
        InitializeResultModel {
            protocol_version: self.protocol_version@,
            capabilities: self.capabilities.deep_view(),
            server_info: self.server_info.deep_view(),
        }
    }
}

impl Clone for InitializeResult {
    fn clone(&self) -> (r: Self)
        ensures
            r.deep_view() == self.deep_view(),
    {
        InitializeResult {
            protocol_version: self.protocol_version.clone(),
            capabilities: self.capabilities.clone(),
            server_info: self.server_info.clone(),
        }
    }
}

/// An operation as the server announces it: its name, what it does, and the
/// schema of its parameters.
#[derive(Debug)]
pub struct ToolDefinition {
    pub name: String,
    pub description: String,
    pub input_schema: JsonValue,
}

pub struct ToolDefinitionModel {
    pub name: Seq<char>,
    pub description: Seq<char>,
    pub input_schema: JsonModel,
}

impl DeepView for ToolDefinition {
    type V = ToolDefinitionModel;

    open spec fn deep_view(&self) -> ToolDefinitionModel {
        ToolDefinitionModel {
            name: self.name@,
            description: self.description@,
            input_schema: self.input_schema.deep_view(),
        }
    }
}

impl Clone for ToolDefinition {
    fn clone(&self) -> (r: Self)
        ensures
            r.deep_view() == self.deep_view(),
    {
        ToolDefinition {
            name: self.name.clone(),
            description: self.description.clone(),
            input_schema: self.input_schema.clone(),
        }
    }
}

/// The operations of the server.
#[derive(Debug)]
pub struct ToolsListResult {
    pub tools: Vec<ToolDefinition>,
}

pub struct ToolsListResultModel {
    pub tools: Seq<ToolDefinitionModel>,
}

impl DeepView for ToolsListResult {
    type V = ToolsListResultModel;

    open spec fn deep_view(&self) -> ToolsListResultModel {
        ToolsListResultModel {
            tools: self.tools.deep_view(),
        }
    }
}

impl Clone for ToolsListResult {
    fn clone(&self) -> (r: Self)
        ensures
            r.deep_view() == self.deep_view(),
    {
        ToolsListResult {
            tools: self.tools.clone(),
        }
    }
}

/// The parameters of a call: the operation and its arguments.
#[derive(Debug)]
pub struct ToolCallParams {
    pub name: String,
    pub arguments: Option<JsonValue>,
}

pub struct ToolCallParamsModel {
    pub name: Seq<char>,
    pub arguments: Option<JsonModel>,
}

impl DeepView for ToolCallParams {
    type V = ToolCallParamsModel;

    open spec fn deep_view(&self) -> ToolCallParamsModel {
        ToolCallParamsModel {
            name: self.name@,
            arguments: self.arguments.deep_view(),
        }
    }
}

impl Clone for ToolCallParams {
    fn clone(&self) -> (r: Self)
        ensures
            r.deep_view() == self.deep_view(),
    {
        ToolCallParams {
            name: self.name.clone(),
            arguments: match &self.arguments {
                Some(x) => Some(x.clone()),
                None => None,
            },
        }
    }
}

/// A resource inside the result of a call.
#[derive(Debug)]
pub struct ResourceContent {
    pub uri: String,
    pub mime_type: String,
    pub text: Option<String>,
}

pub struct ResourceContentModel {
    pub uri: Seq<char>,
    pub mime_type: Seq<char>,
    pub text: Option<Seq<char>>,
}

impl DeepView for ResourceContent {
    type V = ResourceContentModel;

    open spec fn deep_view(&self) -> ResourceContentModel {
        ResourceContentModel {
            uri: self.uri@,
            mime_type: self.mime_type@,
            text: self.text.deep_view(),
        }
    }
}

impl Clone for ResourceContent {
    fn clone(&self) -> (r: Self)
        ensures
            r.deep_view() == self.deep_view(),
    {
        ResourceContent {
            uri: self.uri.clone(),
            mime_type: self.mime_type.clone(),
            text: match &self.text {
                Some(x) => Some(x.clone()),
                None => None,
            },
        }
    }
}

/// A piece of the content of a result.
#[derive(Debug)]
pub enum ToolContent {
    Text { text: String },
    Image { data: String, mime_type: String },
    Resource { resource: ResourceContent },
}

pub enum ToolContentModel {
    Text { text: Seq<char> },
    Image { data: Seq<char>, mime_type: Seq<char> },
    Resource { resource: ResourceContentModel },
}

impl DeepView for ToolContent {
    type V = ToolContentModel;

    open spec fn deep_view(&self) -> ToolContentModel {
        match self {
            ToolContent::Text { text } => ToolContentModel::Text { text: text@ },
            ToolContent::Image { data, mime_type } => ToolContentModel::Image {
                data: data@,
                mime_type: mime_type@,
            },
            ToolContent::Resource { resource } => ToolContentModel::Resource {
                resource: resource.deep_view(),
            },
        }
    }
}

impl Clone for ToolContent {
    fn clone(&self) -> (r: Self)
        ensures
            r.deep_view() == self.deep_view(),
    {
        match self {
            ToolContent::Text { text } => ToolContent::Text { text: text.clone() },
            ToolContent::Image { data, mime_type } => ToolContent::Image {
                data: data.clone(),
                mime_type: mime_type.clone(),
            },
            ToolContent::Resource { resource } => ToolContent::Resource {
                resource: resource.clone(),
            },
        }
    }
}

/// The result of a call: its content, and whether the call failed.
#[derive(Debug)]
pub struct ToolCallResult {
    pub content: Vec<ToolContent>,
    pub is_error: Option<bool>,
}

pub struct ToolCallResultModel {
    pub content: Seq<ToolContentModel>,
    pub is_error: Option<bool>,
}

impl DeepView for ToolCallResult {
    type V = ToolCallResultModel;

    open spec fn deep_view(&self) -> ToolCallResultModel {
        ToolCallResultModel {
            content: self.content.deep_view(),
            is_error: self.is_error.deep_view(),
        }
    }
}

impl Clone for ToolCallResult {
    fn clone(&self) -> (r: Self)
        ensures
            r.deep_view() == self.deep_view(),
    {
        ToolCallResult {
            content: self.content.clone(),
            is_error: self.is_error,
        }
    }
}

/// An argument of a prompt.
#[derive(Debug)]
pub struct PromptArgument {
    pub name: String,
    pub description: String,
    pub required: Option<bool>,
}

pub struct PromptArgumentModel {
    pub name: Seq<char>,
    pub description: Seq<char>,
    pub required: Option<bool>,
}

impl DeepView for PromptArgument {
    type V = PromptArgumentModel;

    open spec fn deep_view(&self) -> PromptArgumentModel {
        PromptArgumentModel {
            name: self.name@,
            description: self.description@,
            required: self.required.deep_view(),
        }
    }
}

impl Clone for PromptArgument {
    fn clone(&self) -> (r: Self)
        ensures
            r.deep_view() == self.deep_view(),
    {
        PromptArgument {
            name: self.name.clone(),
            description: self.description.clone(),
            required: self.required,
        }
    }
}

/// A prompt as the server announces it.
#[derive(Debug)]
pub struct PromptDefinition {
    pub name: String,
    pub description: String,
    pub arguments: Option<Vec<PromptArgument>>,
}

pub struct PromptDefinitionModel {
    pub name: Seq<char>,
    pub description: Seq<char>,
    pub arguments: Option<Seq<PromptArgumentModel>>,
}

impl DeepView for PromptDefinition {
    type V = PromptDefinitionModel;

    open spec fn deep_view(&self) -> PromptDefinitionModel {
        PromptDefinitionModel {
            name: self.name@,
            description: self.description@,
            arguments: self.arguments.deep_view(),
        }
    }
}

impl Clone for PromptDefinition {
    fn clone(&self) -> (r: Self)
        ensures
            r.deep_view() == self.deep_view(),
    {
        PromptDefinition {
            name: self.name.clone(),
            description: self.description.clone(),
            arguments: match &self.arguments {
                Some(x) => Some(x.clone()),
                None => None,
            },
        }
    }
}

/// The prompts of the server.
#[derive(Debug)]
pub struct PromptsListResult {
    pub prompts: Vec<PromptDefinition>,
}

pub struct PromptsListResultModel {
    pub prompts: Seq<PromptDefinitionModel>,
}

impl DeepView for PromptsListResult {
    type V = PromptsListResultModel;

    open spec fn deep_view(&self) -> PromptsListResultModel {
        PromptsListResultModel {
            prompts: self.prompts.deep_view(),
        }
    }
}

impl Clone for PromptsListResult {
    fn clone(&self) -> (r: Self)
        ensures
            r.deep_view() == self.deep_view(),
    {
        PromptsListResult {
            prompts: self.prompts.clone(),
        }
    }
}

/// The parameters of asking for a prompt: its name, and its arguments by
/// their names.
#[derive(Debug)]
pub struct PromptGetParams {
    pub name: String,
    pub arguments: Option<Vec<PromptValue>>,
}

pub struct PromptGetParamsModel {
    pub name: Seq<char>,
    pub arguments: Option<Seq<PromptValueModel>>,
}

impl DeepView for PromptGetParams {
    type V = PromptGetParamsModel;

    open spec fn deep_view(&self) -> PromptGetParamsModel {
        PromptGetParamsModel {
            name: self.name@,
            arguments: self.arguments.deep_view(),
        }
    }
}

impl Clone for PromptGetParams {
    fn clone(&self) -> (r: Self)
        ensures
            r.deep_view() == self.deep_view(),
    {
        PromptGetParams {
            name: self.name.clone(),
            arguments: match &self.arguments {
                Some(x) => Some(x.clone()),
                None => None,
            },
        }
    }
}

/// An argument that a prompt is asked with.
#[derive(Debug)]
pub struct PromptValue {
    pub name: String,
    pub value: String,
}

pub struct PromptValueModel {
    pub name: Seq<char>,
    pub value: Seq<char>,
}

impl DeepView for PromptValue {
    type V = PromptValueModel;

    open spec fn deep_view(&self) -> PromptValueModel {
        PromptValueModel {
            name: self.name@,
            value: self.value@,
        }
    }
}

impl Clone for PromptValue {
    fn clone(&self) -> (r: Self)
        ensures
            r.deep_view() == self.deep_view(),
    {
        PromptValue {
            name: self.name.clone(),
            value: self.value.clone(),
        }
    }
}

/// The content of a message of a prompt.
#[derive(Debug)]
pub enum PromptContent {
    Text { text: String },
}

pub enum PromptContentModel {
    Text { text: Seq<char> },
}

impl DeepView for PromptContent {
    type V = PromptContentModel;

    open spec fn deep_view(&self) -> PromptContentModel {
        match self {
            PromptContent::Text { text } => PromptContentModel::Text { text: text@ },
        }
    }
}

impl Clone for PromptContent {
    fn clone(&self) -> (r: Self)
        ensures
            r.deep_view() == self.deep_view(),
    {
        match self {
            PromptContent::Text { text } => PromptContent::Text { text: text.clone() },
        }
    }
}

/// A message of a prompt.
#[derive(Debug)]
pub struct PromptMessage {
    pub role: String,
    pub content: PromptContent,
}

pub struct PromptMessageModel {
    pub role: Seq<char>,
    pub content: PromptContentModel,
}

impl DeepView for PromptMessage {
    type V = PromptMessageModel;

    open spec fn deep_view(&self) -> PromptMessageModel {
        PromptMessageModel {
            role: self.role@,
            content: self.content.deep_view(),
        }
    }
}

impl Clone for PromptMessage {
    fn clone(&self) -> (r: Self)
        ensures
            r.deep_view() == self.deep_view(),
    {
        PromptMessage {
            role: self.role.clone(),
            content: self.content.clone(),
        }
    }
}

/// A prompt.
#[derive(Debug)]
pub struct PromptGetResult {
    pub description: Option<String>,
    pub messages: Vec<PromptMessage>,
}

pub struct PromptGetResultModel {
    pub description: Option<Seq<char>>,
    pub messages: Seq<PromptMessageModel>,
}

impl DeepView for PromptGetResult {
    type V = PromptGetResultModel;

    open spec fn deep_view(&self) -> PromptGetResultModel {
        PromptGetResultModel {
            description: self.description.deep_view(),
            messages: self.messages.deep_view(),
        }
    }
}

impl Clone for PromptGetResult {
    fn clone(&self) -> (r: Self)
        ensures
            r.deep_view() == self.deep_view(),
    {
        PromptGetResult {
            description: match &self.description {
                Some(x) => Some(x.clone()),
                None => None,
            },
            messages: self.messages.clone(),
        }
    }
}

/// A resource as the server announces it.
#[derive(Debug)]
pub struct ResourceDefinition {
    pub uri: String,
    pub name: String,
    pub description: Option<String>,
    pub mime_type: Option<String>,
}

pub struct ResourceDefinitionModel {
    pub uri: Seq<char>,
    pub name: Seq<char>,
    pub description: Option<Seq<char>>,
    pub mime_type: Option<Seq<char>>,
}

impl DeepView for ResourceDefinition {
    type V = ResourceDefinitionModel;

    open spec fn deep_view(&self) -> ResourceDefinitionModel {
        ResourceDefinitionModel {
            uri: self.uri@,
            name: self.name@,
            description: self.description.deep_view(),
            mime_type: self.mime_type.deep_view(),
        }
    }
}

impl Clone for ResourceDefinition {
    fn clone(&self) -> (r: Self)
        ensures
            r.deep_view() == self.deep_view(),
    {
        ResourceDefinition {
            uri: self.uri.clone(),
            name: self.name.clone(),
            description: match &self.description {
                Some(x) => Some(x.clone()),
                None => None,
            },
            mime_type: match &self.mime_type {
                Some(x) => Some(x.clone()),
                None => None,
            },
        }
    }
}

/// The resources of the server.
#[derive(Debug)]
pub struct ResourcesListResult {
    pub resources: Vec<ResourceDefinition>,
}

pub struct ResourcesListResultModel {
    pub resources: Seq<ResourceDefinitionModel>,
}

impl DeepView for ResourcesListResult {
    type V = ResourcesListResultModel;

    open spec fn deep_view(&self) -> ResourcesListResultModel {
        ResourcesListResultModel {
            resources: self.resources.deep_view(),
        }
    }
}

impl Clone for ResourcesListResult {
    fn clone(&self) -> (r: Self)
        ensures
            r.deep_view() == self.deep_view(),
    {
        ResourcesListResult {
            resources: self.resources.clone(),
        }
    }
}

/// The parameters of reading a resource.
#[derive(Debug)]
pub struct ResourceReadParams {
    pub uri: String,
}

pub struct ResourceReadParamsModel {
    pub uri: Seq<char>,
}

impl DeepView for ResourceReadParams {
    type V = ResourceReadParamsModel;

    open spec fn deep_view(&self) -> ResourceReadParamsModel {
        ResourceReadParamsModel {
            uri: self.uri@,
        }
    }
}

impl Clone for ResourceReadParams {
    fn clone(&self) -> (r: Self)
        ensures
            r.deep_view() == self.deep_view(),
    {
        ResourceReadParams {
            uri: self.uri.clone(),
        }
    }
}

/// A door in the listing of a resource: its code and its summary.
#[derive(Debug)]
pub struct DoorSummary {
    pub code: String,
    pub summary: String,
}

pub struct DoorSummaryModel {
    pub code: Seq<char>,
    pub summary: Seq<char>,
}

impl DeepView for DoorSummary {
    type V = DoorSummaryModel;

    open spec fn deep_view(&self) -> DoorSummaryModel {
        DoorSummaryModel { code: self.code@, summary: self.summary@ }
    }
}

/// What a resource holds, before it is put into JSON notation.
#[derive(Debug)]
pub enum ResourceBody {
    /// A text that is sent as it is.
    Text(String),
    /// A listing of doors, sent as an array of objects with the members
    /// `code` and `summary`.
    Doors(Vec<DoorSummary>),
    /// Statistics, sent as an object with the members `total_doors`,
    /// `index_exists` and `by_category`.
    Stats { total_doors: usize, index_exists: bool, by_category: Vec<(String, usize)> },
    /// A door, sent as the document it is stored as.
    Door(Door),
}

pub enum ResourceBodyModel {
    Text(Seq<char>),
    Doors(Seq<DoorSummaryModel>),
    Stats { total_doors: usize, index_exists: bool, by_category: Seq<(Seq<char>, usize)> },
    Door(DoorModel),
}

impl DeepView for ResourceBody {
    type V = ResourceBodyModel;

    open spec fn deep_view(&self) -> ResourceBodyModel {
        match self {
            ResourceBody::Text(t) => ResourceBodyModel::Text(t@),
            ResourceBody::Doors(doors) => ResourceBodyModel::Doors(doors.deep_view()),
            ResourceBody::Stats { total_doors, index_exists, by_category } => {
                ResourceBodyModel::Stats {
                    total_doors: *total_doors,
                    index_exists: *index_exists,
                    by_category: by_category.deep_view(),
                }
            },
            ResourceBody::Door(door) => ResourceBodyModel::Door(door.deep_view()),
        }
    }
}

/// What a resource holds.
#[derive(Debug)]
pub struct ResourceReadContent {
    pub uri: String,
    pub mime_type: Option<String>,
    pub body: ResourceBody,
}

pub struct ResourceReadContentModel {
    pub uri: Seq<char>,
    pub mime_type: Option<Seq<char>>,
    pub body: ResourceBodyModel,
}

impl DeepView for ResourceReadContent {
    type V = ResourceReadContentModel;

    open spec fn deep_view(&self) -> ResourceReadContentModel {
        ResourceReadContentModel {
            uri: self.uri@,
            mime_type: self.mime_type.deep_view(),
            body: self.body.deep_view(),
        }
    }
}

/// The answer to reading a resource.
#[derive(Debug)]
pub struct ResourceReadResult {
    pub contents: Vec<ResourceReadContent>,
}

pub struct ResourceReadResultModel {
    pub contents: Seq<ResourceReadContentModel>,
}

impl DeepView for ResourceReadResult {
    type V = ResourceReadResultModel;

    open spec fn deep_view(&self) -> ResourceReadResultModel {
        ResourceReadResultModel { contents: self.contents.deep_view() }
    }
}

// ---------------------------------------------------------------------------
// The envelope
// ---------------------------------------------------------------------------

/// What decoding the parameters of a request gave: the parameters in the
/// shape that the method takes, or the decoder's message.
#[derive(Debug)]
pub enum Decoded<T> {
    Value(T),
    Malformed(String),
}

/// The shape in which a method takes its parameters.
#[derive(Debug, Clone, Copy, PartialEq, Eq, Structural)]
pub enum ParamsKind {
    /// The method reads no parameters.
    Raw,
    /// The parameters of the handshake.
    Initialize,
    /// The parameters of a call.
    ToolCall,
    /// The parameters of asking for a prompt.
    PromptGet,
    /// The parameters of reading a resource.
    ResourceRead,
}

/// The parameters of a request, decoded in the shape that its method takes.
/// Parameters that are absent are decoded as an empty object.
#[derive(Debug)]
pub enum Params {
    Raw(Option<JsonValue>),
    Initialize(Decoded<InitializeParams>),
    ToolCall(Decoded<ToolCallParams>),
    PromptGet(Decoded<PromptGetParams>),
    ResourceRead(Decoded<ResourceReadParams>),
}

pub enum DecodedModel<T> {
    Value(T),
    Malformed(Seq<char>),
}

pub enum ParamsModel {
    Raw(Option<JsonModel>),
    Initialize(DecodedModel<InitializeParamsModel>),
    ToolCall(DecodedModel<ToolCallParamsModel>),
    PromptGet(DecodedModel<PromptGetParamsModel>),
    ResourceRead(DecodedModel<ResourceReadParamsModel>),
}

impl<T: DeepView> DeepView for Decoded<T> {
    type V = DecodedModel<T::V>;

    open spec fn deep_view(&self) -> DecodedModel<T::V> {
        match self {
            Decoded::Value(v) => DecodedModel::Value(v.deep_view()),
            Decoded::Malformed(s) => DecodedModel::Malformed(s@),
        }
    }
}

impl DeepView for Params {
    type V = ParamsModel;

    open spec fn deep_view(&self) -> ParamsModel {
        match self {
            Params::Raw(v) => ParamsModel::Raw(v.deep_view()),
            Params::Initialize(d) => ParamsModel::Initialize(d.deep_view()),
            Params::ToolCall(d) => ParamsModel::ToolCall(d.deep_view()),
            Params::PromptGet(d) => ParamsModel::PromptGet(d.deep_view()),
            Params::ResourceRead(d) => ParamsModel::ResourceRead(d.deep_view()),
        }
    }
}

/// The shape in which a method takes its parameters.
pub open spec fn params_kind_of(method: Seq<char>) -> ParamsKind {
    if method == "initialize"@ {
        ParamsKind::Initialize
    } else if method == "tools/call"@ {
        ParamsKind::ToolCall
    } else if method == "prompts/get"@ {
        ParamsKind::PromptGet
    } else if method == "resources/read"@ {
        ParamsKind::ResourceRead
    } else {
        ParamsKind::Raw
    }
}

/// The shape in which a method takes its parameters.
pub fn params_kind(method: &str) -> (r: ParamsKind)
    ensures
        r == params_kind_of(method@),
{
    if same(method, "initialize") {
        ParamsKind::Initialize
    } else if same(method, "tools/call") {
        ParamsKind::ToolCall
    } else if same(method, "prompts/get") {
        ParamsKind::PromptGet
    } else if same(method, "resources/read") {
        ParamsKind::ResourceRead
    } else {
        ParamsKind::Raw
    }
}

/// A request.
#[derive(Debug)]
pub struct JsonRpcRequest {
    pub jsonrpc: String,
    pub id: Option<RequestId>,
    pub method: String,
    pub params: Params,
}

pub struct JsonRpcRequestModel {
    pub jsonrpc: Seq<char>,
    pub id: Option<RequestIdModel>,
    pub method: Seq<char>,
    pub params: ParamsModel,
}

impl DeepView for JsonRpcRequest {
    type V = JsonRpcRequestModel;

    open spec fn deep_view(&self) -> JsonRpcRequestModel {
        JsonRpcRequestModel {
            jsonrpc: self.jsonrpc@,
            id: self.id.deep_view(),
            method: self.method@,
            params: self.params.deep_view(),
        }
    }
}

/// What stands against an envelope: a version that is not the envelope's,
/// or else an empty method.
pub open spec fn envelope_error(request: JsonRpcRequestModel) -> Option<ProtocolErrorModel> {
    if request.jsonrpc != JSONRPC_VERSION@ {
        Some(ProtocolErrorModel::InvalidVersion(request.jsonrpc))
    } else if request.method.len() == 0 {
        Some(ProtocolErrorModel::InvalidMethod)
    } else {
        None
    }
}

impl JsonRpcRequest {
    /// Checks the envelope.
    pub fn validate(&self) -> (r: Result<(), ProtocolError>)
        ensures
            match r {
                Ok(_) => envelope_error(self.deep_view()) is None,
                Err(e) => envelope_error(self.deep_view()) == Some(e.deep_view()),
            },
    {
        if !same(self.jsonrpc.as_str(), JSONRPC_VERSION) {
            return Err(ProtocolError::InvalidVersion(self.jsonrpc.clone()));
        }
        if self.method.as_str().unicode_len() == 0 {
            return Err(ProtocolError::InvalidMethod);
        }
        Ok(())
    }

    /// Whether the request is a notification: it has no identifier.
    pub fn is_notification(&self) -> (r: bool)
        ensures
            r == (self.id is None),
    {
        self.id.is_none()
    }

    /// The shape in which the method of the request takes its parameters.
    pub fn params_kind(&self) -> (r: ParamsKind)
        ensures
            r == params_kind_of(self.method@),
    {
        params_kind(self.method.as_str())
    }
}

/// What a response carries where the request succeeded.
#[derive(Debug)]
pub enum ResultBody {
    /// The JSON value null.
    Null,
    /// The empty JSON object.
    Empty,
    Initialize(InitializeResult),
    Tools(ToolsListResult),
    ToolCall(ToolCallResult),
    Prompts(PromptsListResult),
    Prompt(PromptGetResult),
    Resources(ResourcesListResult),
    Resource(ResourceReadResult),
}

pub enum ResultBodyModel {
    Null,
    Empty,
    Initialize(InitializeResultModel),
    Tools(ToolsListResultModel),
    ToolCall(ToolCallResultModel),
    Prompts(PromptsListResultModel),
    Prompt(PromptGetResultModel),
    Resources(ResourcesListResultModel),
    Resource(ResourceReadResultModel),
}

impl DeepView for ResultBody {
    type V = ResultBodyModel;

    open spec fn deep_view(&self) -> ResultBodyModel {
        match self {
            ResultBody::Null => ResultBodyModel::Null,
            ResultBody::Empty => ResultBodyModel::Empty,
            ResultBody::Initialize(r) => ResultBodyModel::Initialize(r.deep_view()),
            ResultBody::Tools(r) => ResultBodyModel::Tools(r.deep_view()),
            ResultBody::ToolCall(r) => ResultBodyModel::ToolCall(r.deep_view()),
            ResultBody::Prompts(r) => ResultBodyModel::Prompts(r.deep_view()),
            ResultBody::Prompt(r) => ResultBodyModel::Prompt(r.deep_view()),
            ResultBody::Resources(r) => ResultBodyModel::Resources(r.deep_view()),
            ResultBody::Resource(r) => ResultBodyModel::Resource(r.deep_view()),
        }
    }
}

/// A response: it carries a result or an error, never both.
#[derive(Debug)]
pub struct JsonRpcResponse {
    pub jsonrpc: String,
    pub id: Option<RequestId>,
    pub result: Option<ResultBody>,
    pub error: Option<JsonRpcError>,
}

pub struct JsonRpcResponseModel {
    pub jsonrpc: Seq<char>,
    pub id: Option<RequestIdModel>,
    pub result: Option<ResultBodyModel>,
    pub error: Option<JsonRpcErrorModel>,
}

impl DeepView for JsonRpcResponse {
    type V = JsonRpcResponseModel;

    open spec fn deep_view(&self) -> JsonRpcResponseModel {
        JsonRpcResponseModel {
            jsonrpc: self.jsonrpc@,
            id: self.id.deep_view(),
            result: self.result.deep_view(),
            error: self.error.deep_view(),
        }
    }
}

/// The response that carries a result.
pub open spec fn success_of(id: Option<RequestIdModel>, result: ResultBodyModel) -> JsonRpcResponseModel {
    JsonRpcResponseModel { jsonrpc: JSONRPC_VERSION@, id, result: Some(result), error: None }
}

/// The response that carries an error.
pub open spec fn failure_of(id: Option<RequestIdModel>, error: JsonRpcErrorModel) -> JsonRpcResponseModel {
    JsonRpcResponseModel { jsonrpc: JSONRPC_VERSION@, id, result: None, error: Some(error) }
}

impl JsonRpcResponse {
    /// The response that carries a result.
    pub fn success(id: Option<RequestId>, result: ResultBody) -> (r: JsonRpcResponse)
        ensures
            r.deep_view() == success_of(id.deep_view(), result.deep_view()),
    {
        JsonRpcResponse { jsonrpc: owned(JSONRPC_VERSION), id, result: Some(result), error: None }
    }

    /// The response that carries an error.
    pub fn error(id: Option<RequestId>, error: JsonRpcError) -> (r: JsonRpcResponse)
        ensures
            r.deep_view() == failure_of(id.deep_view(), error.deep_view()),
    {
        JsonRpcResponse { jsonrpc: owned(JSONRPC_VERSION), id, result: None, error: Some(error) }
    }
}

/// An error with a code and a message, and no data.
pub open spec fn error_of(code: i32, message: Seq<char>) -> JsonRpcErrorModel {
    JsonRpcErrorModel { code, message, data: None }
}

/// The error that a protocol error is answered with.
pub open spec fn answer_to(e: ProtocolErrorModel) -> JsonRpcErrorModel {
    match e {
        ProtocolErrorModel::InvalidVersion(_) => error_of(INVALID_REQUEST, "Invalid Request"@),
        ProtocolErrorModel::InvalidMethod => error_of(INVALID_REQUEST, "Invalid Request"@),
        ProtocolErrorModel::InvalidParams(message) => error_of(INVALID_PARAMS, message),
        ProtocolErrorModel::ParseError(_) => error_of(PARSE_ERROR, "Parse error"@),
        ProtocolErrorModel::IoError(message) => error_of(INTERNAL_ERROR, message),
        ProtocolErrorModel::SerializationError(message) => error_of(INTERNAL_ERROR, message),
    }
}

impl JsonRpcError {
    pub fn new(code: i32, message: String) -> (r: JsonRpcError)
        ensures
            r.deep_view() == error_of(code, message@),
    {
        JsonRpcError { code, message, data: None }
    }

    /// The error with data attached.
    pub fn with_data(self, data: JsonValue) -> (r: JsonRpcError)
        ensures
            r.deep_view() == (JsonRpcErrorModel {
                data: Some(data.deep_view()),
                ..self.deep_view()
            }),
    {
        let mut error = self;
        error.data = Some(data);
        error
    }

    pub fn parse_error() -> (r: JsonRpcError)
        ensures
            r.deep_view() == error_of(PARSE_ERROR, "Parse error"@),
    {
        JsonRpcError::new(PARSE_ERROR, owned("Parse error"))
    }

    pub fn invalid_request() -> (r: JsonRpcError)
        ensures
            r.deep_view() == error_of(INVALID_REQUEST, "Invalid Request"@),
    {
        JsonRpcError::new(INVALID_REQUEST, owned("Invalid Request"))
    }

    pub fn method_not_found(method: &str) -> (r: JsonRpcError)
        ensures
            r.deep_view() == error_of(METHOD_NOT_FOUND, "Method not found: "@ + method@),
    {
        let mut message = owned("Method not found: ");
        message.append(method);
        JsonRpcError::new(METHOD_NOT_FOUND, message)
    }

    pub fn invalid_params(message: String) -> (r: JsonRpcError)
        ensures
            r.deep_view() == error_of(INVALID_PARAMS, message@),
    {
        JsonRpcError::new(INVALID_PARAMS, message)
    }

    pub fn internal_error(message: String) -> (r: JsonRpcError)
        ensures
            r.deep_view() == error_of(INTERNAL_ERROR, message@),
    {
        JsonRpcError::new(INTERNAL_ERROR, message)
    }

    pub fn door_not_found(door_code: &str) -> (r: JsonRpcError)
        ensures
            r.deep_view() == error_of(DOOR_NOT_FOUND, "Door not found: "@ + door_code@),
    {
        let mut message = owned("Door not found: ");
        message.append(door_code);
        JsonRpcError::new(DOOR_NOT_FOUND, message)
    }

    pub fn index_error(message: String) -> (r: JsonRpcError)
        ensures
            r.deep_view() == error_of(INDEX_ERROR, message@),
    {
        JsonRpcError::new(INDEX_ERROR, message)
    }

    pub fn bootstrap_error(message: String) -> (r: JsonRpcError)
        ensures
            r.deep_view() == error_of(BOOTSTRAP_ERROR, message@),
    {
        JsonRpcError::new(BOOTSTRAP_ERROR, message)
    }

    pub fn search_error(message: String) -> (r: JsonRpcError)
        ensures
            r.deep_view() == error_of(SEARCH_ERROR, message@),
    {
        JsonRpcError::new(SEARCH_ERROR, message)
    }

    /// The error that a protocol error is answered with.
    pub fn from_protocol(err: ProtocolError) -> (r: JsonRpcError)
        ensures
            r.deep_view() == answer_to(err.deep_view()),
    {
        match err {
            ProtocolError::InvalidVersion(_) => JsonRpcError::invalid_request(),
            ProtocolError::InvalidMethod => JsonRpcError::invalid_request(),
            ProtocolError::InvalidParams(message) => JsonRpcError::invalid_params(message),
            ProtocolError::ParseError(_) => JsonRpcError::parse_error(),
            ProtocolError::IoError(message) => JsonRpcError::internal_error(message),
            ProtocolError::SerializationError(message) => JsonRpcError::internal_error(message),
        }
    }
}

/// The result that holds one text.
pub open spec fn text_result(text: Seq<char>) -> ToolCallResultModel {
    ToolCallResultModel { content: seq![ToolContentModel::Text { text }], is_error: None }
}

/// The result that holds one text and says that the call failed.
pub open spec fn error_result(message: Seq<char>) -> ToolCallResultModel {
    ToolCallResultModel {
        content: seq![ToolContentModel::Text { text: message }],
        is_error: Some(true),
    }
}

impl ToolCallResult {
    /// The result that holds one text.
    pub fn text(text: String) -> (r: ToolCallResult)
        ensures
            r.deep_view() == text_result(text@),
    {
        let mut content: Vec<ToolContent> = Vec::new();
        content.push(ToolContent::Text { text });
        let r = ToolCallResult { content, is_error: None };
        assert(r.deep_view().content =~= seq![ToolContentModel::Text { text: text@ }]);
        r
    }

    /// The result that holds one text and says that the call failed.
    pub fn error(message: String) -> (r: ToolCallResult)
        ensures
            r.deep_view() == error_result(message@),
    {
        let mut content: Vec<ToolContent> = Vec::new();
        content.push(ToolContent::Text { text: message });
        let r = ToolCallResult { content, is_error: Some(true) };
        assert(r.deep_view().content =~= seq![ToolContentModel::Text { text: message@ }]);
        r
    }
}

} // verus!
