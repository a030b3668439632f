use vstd::prelude::*;

use std::collections::HashMap;

verus! {

/// The protocol version this server speaks.
pub const PROTOCOL_VERSION: &'static str = "2024-11-05";

/// The JSON-RPC version of every response.
pub const JSONRPC_VERSION: &'static str = "2.0";

/// The error code of a failed request.
pub const METHOD_ERROR_CODE: i32 = -32601;

/// Declares `serde_json::Value`, a JSON value carried through unread (request
/// ids, results, error data).
#[verifier::external_type_specification]
#[verifier::external_body]
pub struct ExJsonValue(serde_json::Value);

/// The error part of a failed response.
#[derive(Debug)]
pub struct McpError {
    pub code: i32,
    pub message: String,
    pub data: Option<serde_json::Value>,
}

/// A response to the request with id `id`: a result or an error.
#[derive(Debug)]
pub struct McpResponse {
    pub jsonrpc: &'static str,
    pub id: serde_json::Value,
    pub result: Option<serde_json::Value>,
    pub error: Option<McpError>,
}

impl McpResponse {
    /// A successful response to request `id`, carrying `result`.
    pub fn success(id: serde_json::Value, result: serde_json::Value) -> (r: McpResponse)
        ensures
            r.jsonrpc == JSONRPC_VERSION,
            r.id == id,
            r.result == Some(result),
            r.error is None,
    {
        McpResponse { jsonrpc: JSONRPC_VERSION, id, result: Some(result), error: None }
    }

    /// A failed response to request `id`, with the request error code and `message`.
    pub fn error(id: serde_json::Value, message: String) -> (r: McpResponse)
        ensures
            r.jsonrpc == JSONRPC_VERSION,
            r.id == id,
            r.result is None,
            r.error matches Some(e) && e.code == METHOD_ERROR_CODE && e.message == message
                && e.data is None,
    {
        McpResponse {
            jsonrpc: JSONRPC_VERSION,
            id,
            result: None,
            error: Some(McpError { code: METHOD_ERROR_CODE, message, data: None }),
        }
    }
}

/// Name and version of a server or client.
#[derive(Clone, Debug)]
pub struct Info {
    pub name: String,
    pub version: String,
}

impl Info {
    pub fn new(name: String, version: String) -> (r: Info)
        ensures
            r.name == name,
            r.version == version,
    {
        Info { name, version }
    }
}

/// What the server offers: tools, with no options.
#[derive(Debug)]
pub struct Capabilities {
    pub tools: HashMap<(), ()>,
}

impl Default for Capabilities {
    fn default() -> (r: Capabilities)
        ensures
            r.tools@ == Map::<(), ()>::empty(),
    {
        Capabilities { tools: HashMap::new() }
    }
}

/// The answer to an `initialize` request.
#[derive(Debug)]
pub struct InitializeResponse {
    pub protocol_version: &'static str,
    pub capabilities: Capabilities,
    pub server_info: Info,
    pub instructions: Option<&'static str>,
}

impl InitializeResponse {
    /// The answer for a server described by `server_info`, at this protocol
    /// version, offering tools, with no instructions.
    pub fn new(server_info: Info) -> (r: InitializeResponse)
        ensures
            r.protocol_version == PROTOCOL_VERSION,
            r.capabilities.tools@ == Map::<(), ()>::empty(),
            r.server_info == server_info,
            r.instructions is None,
    {
        InitializeResponse {
            protocol_version: PROTOCOL_VERSION,
            capabilities: Capabilities::default(),
            server_info,
            instructions: None,
        }
    }

    /// The same answer with its instructions replaced by `instructions`.
    pub fn with_instructions(self, instructions: Option<&'static str>) -> (r: InitializeResponse)
        ensures
            r.protocol_version == self.protocol_version,
            r.capabilities == self.capabilities,
            r.server_info == self.server_info,
            r.instructions == instructions,
    {
        InitializeResponse { instructions, ..self }
    }
}

/// An example call of a tool, with a description.
#[derive(Debug)]
pub struct Example<T> {
    pub description: &'static str,
    pub item: T,
}

/// One piece of text content in a tool's answer; `kind` is always `"text"`.
#[derive(Debug)]
pub struct TextContent {
    pub kind: &'static str,
    pub text: String,
}

/// The content of a tool's answer.
#[derive(Debug)]
pub struct ContentResponse {
    pub content: Vec<TextContent>,
}

impl ContentResponse {
    /// An answer that holds `text` as its one piece of text content.
    pub fn text(text: String) -> (r: ContentResponse)
        ensures
            r.content@.len() == 1,
            r.content@[0].kind@ == "text"@,
            r.content@[0].text == text,
    {
        ContentResponse { content: vec![TextContent { kind: "text", text }] }
    }
}

/// What a request asks for, by its method name.
#[derive(Clone, Copy, Debug, PartialEq, Eq, Structural)]
pub enum Route {
    Initialize,
    ToolsList,
    ToolsCall,
    Unknown,
}

pub open spec fn route_of(method: Seq<char>) -> Route {
    if method == "initialize"@ {
        Route::Initialize
    } else if method == "tools/list"@ {
        Route::ToolsList
    } else if method == "tools/call"@ {
        Route::ToolsCall
    } else {
        Route::Unknown
    }
}

/// The route of a request with method name `method`.
pub fn route(method: &str) -> (r: Route)
    ensures
        r == route_of(method@),
{
    let m = method.to_owned();
    if m == "initialize".to_owned() {
        Route::Initialize
    } else if m == "tools/list".to_owned() {
        Route::ToolsList
    } else if m == "tools/call".to_owned() {
        Route::ToolsCall
    } else {
        Route::Unknown
    }
}

} // verus!
