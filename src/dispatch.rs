use vstd::prelude::*;
use vstd::utf8::encode_utf8;
use crate::catalog::{
    backend_for_tool,
    backend_name,
    backend_of,
    get_tools_list,
    is_tool_catalog,
    str_equal,
    ToolDescriptor,
};
use crate::codec::{diagram_url, generate_url, zlib_best};

verus! {

/// The protocol revision announced during initialization.
pub const PROTOCOL_VERSION: &'static str = "2024-11-05";

/// The name under which this server introduces itself.
pub const SERVER_NAME: &'static str = "mcp-kroki-bridge";

/// The version under which this server introduces itself.
pub const SERVER_VERSION: &'static str = "0.1.0";

/// What the handling of a request does, decided from its method and whether it has an id.
#[derive(Clone, Copy, Debug, PartialEq, Eq, Structural)]
pub enum Route {
    /// Answered at once, in the reply to the request itself.
    Initialize,
    /// A notification that expects no reply: dropped.
    Discard,
    /// The tool catalog, published on the stream.
    ListTools,
    /// A diagram URL, published on the stream.
    CallTool,
    /// The client's readiness notice: nothing is published.
    Initialized,
    /// An error-flagged result naming the method, published on the stream.
    Unsupported,
}

pub open spec fn route_of(method: Seq<char>, has_id: bool) -> Route {
    if method == "initialize"@ {
        Route::Initialize
    } else if !has_id && method != "notifications/initialized"@ {
        Route::Discard
    } else if method == "tools/list"@ {
        Route::ListTools
    } else if method == "tools/call"@ {
        Route::CallTool
    } else if method == "notifications/initialized"@ {
        Route::Initialized
    } else {
        Route::Unsupported
    }
}

/// Decides how a request is handled.
pub fn route_request(method: &str, has_id: bool) -> (r: Route)
    ensures
        r == route_of(method@, has_id),
{
    if str_equal(method, "initialize") {
        Route::Initialize
    } else if !has_id && !str_equal(method, "notifications/initialized") {
        Route::Discard
    } else if str_equal(method, "tools/list") {
        Route::ListTools
    } else if str_equal(method, "tools/call") {
        Route::CallTool
    } else if str_equal(method, "notifications/initialized") {
        Route::Initialized
    } else {
        Route::Unsupported
    }
}

/// The text that hands a diagram's URL to the caller: once as an image, once as a link.
pub open spec fn diagram_text(url: Seq<char>) -> Seq<char> {
    "Diagramme généré !\n\n![Diagram]("@ + url + ")\n\nLien direct : "@ + url
}

/// The text of the result for a method that is not supported.
pub open spec fn unsupported_text(method: Seq<char>) -> Seq<char> {
    "Method "@ + method + " not supported"@
}

pub fn make_diagram_text(url: &str) -> (r: String)
    ensures
        r@ == diagram_text(url@),
{
    let mut out = String::from_str("Diagramme généré !\n\n![Diagram](");
    out.append(url);
    out.append(")\n\nLien direct : ");
    out.append(url);
    out
}

pub fn make_unsupported_text(method: &str) -> (r: String)
    ensures
        r@ == unsupported_text(method@),
{
    let mut out = String::from_str("Method ");
    out.append(method);
    out.append(" not supported");
    out
}

/// An incoming request, as far as its handling reads it: the method, whether an id
/// came with it, and for a tool call the tool's name and the diagram source (empty
/// where the parameters lack them).
pub struct Request {
    pub method: String,
    pub has_id: bool,
    pub tool_name: String,
    pub source: String,
}

/// What the server announces of itself when a client initializes.
pub struct InitializeResult {
    pub protocol_version: String,
    pub tools_list_changed: bool,
    pub server_name: String,
    pub server_version: String,
}

/// The result carried by a published response.
pub enum Reply {
    /// The tool catalog.
    Tools(Vec<ToolDescriptor>),
    /// A text result, flagged as an error or not.
    Text { text: String, is_error: bool },
}

/// What becomes of a request.
pub enum Outcome {
    /// Answered in the reply to the request itself.
    Answer(InitializeResult),
    /// Nothing is published.
    Ignore,
    /// A response with this result is published on the stream.
    Publish(Reply),
}

pub open spec fn is_initialize_result(r: InitializeResult) -> bool {
    &&& r.protocol_version@ == PROTOCOL_VERSION@
    &&& !r.tools_list_changed
    &&& r.server_name@ == SERVER_NAME@
    &&& r.server_version@ == SERVER_VERSION@
}

/// The URL that a tool call on `source` yields for a tool name.
pub open spec fn tool_call_url(base: Seq<char>, tool: Seq<char>, source: Seq<u8>) -> Seq<char> {
    diagram_url(base, backend_name(backend_of(tool)), zlib_best(source))
}

/// What a request comes to, given the backend's base URL.
pub open spec fn outcome_spec(req: Request, base: Seq<char>, r: Outcome) -> bool {
    match route_of(req.method@, req.has_id) {
        Route::Initialize => r matches Outcome::Answer(init) && is_initialize_result(init),
        Route::Discard | Route::Initialized => r is Ignore,
        Route::ListTools => r matches Outcome::Publish(Reply::Tools(tools)) && is_tool_catalog(
            tools@,
        ),
        Route::CallTool => r matches Outcome::Publish(Reply::Text { text, is_error }) && !is_error
            && text@ == diagram_text(tool_call_url(base, req.tool_name@, encode_utf8(req.source@))),
        Route::Unsupported => r matches Outcome::Publish(Reply::Text { text, is_error })
            && is_error && text@ == unsupported_text(req.method@),
    }
}

/// What the server announces of itself.
pub fn initialize_result() -> (r: InitializeResult)
    ensures
        is_initialize_result(r),
{
    InitializeResult {
        protocol_version: String::from_str(PROTOCOL_VERSION),
        tools_list_changed: false,
        server_name: String::from_str(SERVER_NAME),
        server_version: String::from_str(SERVER_VERSION),
    }
}

/// The URL of the diagram that a tool call asks for.
pub fn tool_call(base_url: &str, tool_name: &str, source: &str) -> (r: String)
    ensures
        r@ == tool_call_url(base_url@, tool_name@, encode_utf8(source@)),
{
    let backend = backend_for_tool(tool_name);
    generate_url(base_url, backend.as_str(), source)
}

/// Handles a request: answers it at once, ignores it, or says what to publish.
pub fn handle_request(req: &Request, base_url: &str) -> (r: Outcome)
    ensures
        outcome_spec(*req, base_url@, r),
{
    match route_request(req.method.as_str(), req.has_id) {
        Route::Initialize => Outcome::Answer(initialize_result()),
        Route::Discard | Route::Initialized => Outcome::Ignore,
        Route::ListTools => Outcome::Publish(Reply::Tools(get_tools_list())),
        Route::CallTool => {
            let url = tool_call(base_url, req.tool_name.as_str(), req.source.as_str());
            Outcome::Publish(Reply::Text { text: make_diagram_text(url.as_str()), is_error: false })
        },
        Route::Unsupported => Outcome::Publish(
            Reply::Text { text: make_unsupported_text(req.method.as_str()), is_error: true },
        ),
    }
}

/// An `initialize` request is answered in the reply to the request itself, with the
/// protocol version, the tool capability and the server's name and version, whatever
/// its id; nothing is published on the stream.
pub proof fn lemma_initialize_answered_directly(req: Request, base: Seq<char>, r: Outcome)
    requires
        outcome_spec(req, base, r),
        req.method@ == "initialize"@,
    ensures
        r matches Outcome::Answer(init) && is_initialize_result(init),
        !(r is Publish),
{
}

/// A request without an id, other than the readiness notice, never has a response
/// published; unless it is `initialize`, it is dropped altogether.
pub proof fn lemma_no_id_not_published(req: Request, base: Seq<char>, r: Outcome)
    requires
        outcome_spec(req, base, r),
        !req.has_id,
        req.method@ != "notifications/initialized"@,
    ensures
        !(r is Publish),
        req.method@ != "initialize"@ ==> r is Ignore,
{
}

/// The readiness notice never has a response published, with or without an id.
pub proof fn lemma_initialized_not_published(req: Request, base: Seq<char>, r: Outcome)
    requires
        outcome_spec(req, base, r),
        req.method@ == "notifications/initialized"@,
    ensures
        r is Ignore,
{
    reveal_strlit("notifications/initialized");
    reveal_strlit("initialize");
    reveal_strlit("tools/list");
    reveal_strlit("tools/call");
    assert("notifications/initialized"@.len() == 25);
    assert("initialize"@.len() == 10);
    assert("tools/list"@.len() == 10);
    assert("tools/call"@.len() == 10);
}

} // verus!
