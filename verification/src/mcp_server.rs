//! The provider side of the tool protocol: a server that offers the
//! library's tools, and the documents of the knowledge store as resources.
//!
//! A request is answered at once where the answer needs nothing from the
//! store. For the resources the server says what to fetch, and a second
//! call turns what was fetched into the response.

use std::sync::Arc;
use vstd::prelude::*;
use vstd::string::StringExecFns;
use crate::json::{
    field, json_compact, json_model, json_parse, json_quoted, parse_value, quote, value_as_str,
    value_get, value_is_null, value_text, JsonModel,
};
use crate::mcp_client::JsonRpcError;
use crate::text::{
    begins_with, chars_of, int_of_text, matches_at, parse_int, replace_char, same_text,
    signed_decimal, signed_decimal_of, slice_of, string_of, with_char_replaced,
};
use crate::tools::{place_in, Tool, ToolSet};

verus! {

/// The method is not known.
pub const METHOD_NOT_FOUND: i32 = -32601;

/// The parameters are missing or wrong.
pub const INVALID_PARAMS: i32 = -32602;

/// The server failed on its side.
pub const INTERNAL_ERROR: i32 = -32603;

/// The tool failed.
pub const TOOL_FAILED: i32 = -32000;

/// A request as it came from the client.
#[derive(Debug)]
pub struct JsonRpcRequest {
    pub jsonrpc: String,
    pub id: Option<serde_json::Value>,
    pub method: String,
    pub params: Option<serde_json::Value>,
}

/// A response on its way to the client. It holds a result or an error.
#[derive(Debug)]
pub struct JsonRpcResponse {
    pub jsonrpc: String,
    pub id: Option<serde_json::Value>,
    pub result: Option<serde_json::Value>,
    pub error: Option<JsonRpcError>,
}

/// What the server does for a request.
#[derive(Debug)]
pub enum ServerStep {
    /// Send this response.
    Respond(JsonRpcResponse),
    /// List the documents of the store, then `resources_listed`.
    ListResources { id: Option<serde_json::Value> },
    /// Read document `document` of the store, then `resource_read`.
    ReadResource { id: Option<serde_json::Value>, uri: String, document: i64 },
}

/// The content of an optional document.
pub open spec fn model_of(v: Option<serde_json::Value>) -> Option<JsonModel> {
    match v {
        Some(v) => Some(json_model(v)),
        None => None,
    }
}

/// The response is an error with this code and message, for the request
/// numbered `id`.
pub open spec fn is_error(r: JsonRpcResponse, id: Option<JsonModel>, code: i32, message: Seq<char>) -> bool {
    &&& r.jsonrpc@ == "2.0"@
    &&& model_of(r.id) == id
    &&& r.result is None
    &&& r.error matches Some(e)
    &&& e.code == code
    &&& e.message@ == message
}

/// The response is the result written by the JSON text `text`, for the
/// request numbered `id`; an internal error where the text is no JSON.
pub open spec fn is_result(r: JsonRpcResponse, id: Option<JsonModel>, text: Seq<char>) -> bool {
    match json_parse(text) {
        Some(m) => {
            &&& r.jsonrpc@ == "2.0"@
            &&& model_of(r.id) == id
            &&& r.error is None
            &&& model_of(r.result) == Some(m)
        },
        None => is_error(r, id, INTERNAL_ERROR, "Failed to build the result"@),
    }
}

/// The result of the handshake, as JSON text.
pub open spec fn handshake_result() -> Seq<char> {
    "{\"protocolVersion\":\"0.1.0\",\"server\":{\"name\":\"sensei-mcp\",\"version\":\"0.1.0\"},\"capabilities\":{\"tools\":{},\"resources\":{}}}"@
}

/// The result of the tool enumeration, as JSON text.
pub open spec fn tools_result() -> Seq<char> {
    "{\"tools\":[{\"name\":\"nmap\",\"description\":\"Run a network scan on a target.\",\"input_schema\":{\"type\":\"object\",\"properties\":{\"target\":{\"type\":\"string\",\"description\":\"IP or Hostname\"}},\"required\":[\"target\"]}},{\"name\":\"system_diagnostic\",\"description\":\"Run system checks (uptime, df, free).\",\"input_schema\":{\"type\":\"object\",\"properties\":{\"command\":{\"type\":\"string\",\"enum\":[\"uptime\",\"disk\",\"memory\",\"whoami\",\"date\"],\"description\":\"Diagnostic command to run\"}},\"required\":[\"command\"]}}]}"@
}

/// The result of a tool's run that gave `output`, as JSON text.
pub open spec fn tool_result(output: Seq<char>) -> Seq<char> {
    "{\"content\":[{\"type\":\"text\",\"text\":"@ + json_quoted(output) + "}]}"@
}

/// The address of document `id`.
pub open spec fn document_uri(id: i64) -> Seq<char> {
    "sensei://knowledge/"@ + signed_decimal_of(id as int)
}

/// The title of document `id`, whose text begins with `snippet`.
pub open spec fn document_title(id: i64, snippet: Seq<char>) -> Seq<char> {
    "Document #"@ + signed_decimal_of(id as int) + " - "@ + with_char_replaced(snippet, '\n', ' ')
        + "..."@
}

/// The description of document `id` as a resource, as JSON text.
pub open spec fn resource_entry(id: i64, snippet: Seq<char>) -> Seq<char> {
    "{\"uri\":"@ + json_quoted(document_uri(id)) + ",\"name\":"@ + json_quoted(
        document_title(id, snippet),
    ) + ",\"mime_type\":\"text/plain\"}"@
}

/// The descriptions of the first `n` documents, with commas between them.
pub open spec fn resource_entries(docs: Seq<(i64, String)>, n: int) -> Seq<char>
    decreases n,
{
    if n <= 0 || n > docs.len() {
        Seq::<char>::empty()
    } else if n == 1 {
        resource_entry(docs[0].0, docs[0].1@)
    } else {
        resource_entries(docs, n - 1) + ","@ + resource_entry(docs[n - 1].0, docs[n - 1].1@)
    }
}

/// The result of the resource enumeration, as JSON text.
pub open spec fn resources_result(docs: Seq<(i64, String)>) -> Seq<char> {
    "{\"resources\":["@ + resource_entries(docs, docs.len() as int) + "]}"@
}

/// The result of reading the document at `uri`, as JSON text.
pub open spec fn contents_result(uri: Seq<char>, content: Seq<char>) -> Seq<char> {
    "{\"contents\":[{\"uri\":"@ + json_quoted(uri) + ",\"mimeType\":\"text/plain\",\"text\":"@
        + json_quoted(content) + "}]}"@
}

/// The document that `uri` addresses, if it addresses one: the number
/// after the scheme of the knowledge store.
pub open spec fn addressed_document(uri: Seq<char>) -> Option<i64> {
    if begins_with(uri, "sensei://knowledge/"@) {
        int_of_text(uri.subrange("sensei://knowledge/"@.len() as int, uri.len() as int))
    } else {
        None
    }
}

/// The text member `key` of the document `m`, if it has one.
pub open spec fn text_field(m: JsonModel, key: Seq<char>) -> Option<Seq<char>> {
    match field(m, key) {
        Some(JsonModel::Text(t)) => Some(t),
        _ => None,
    }
}

/// The argument that the tool named `name` takes out of `arguments`: the
/// target of a scan, the command of a diagnostic, each empty where it is
/// missing. Other tools have no known argument.
pub open spec fn tool_argument(name: Seq<char>, arguments: JsonModel) -> Option<Seq<char>> {
    if name == "nmap"@ {
        Some(
            match text_field(arguments, "target"@) {
                Some(t) => t,
                None => Seq::<char>::empty(),
            },
        )
    } else if name == "system_diagnostic"@ {
        Some(
            match text_field(arguments, "command"@) {
                Some(t) => t,
                None => Seq::<char>::empty(),
            },
        )
    } else {
        None
    }
}

/// The arguments of an invocation with the parameters `p`: `null` where it
/// has none.
pub open spec fn arguments_of(p: JsonModel) -> JsonModel {
    match field(p, "arguments"@) {
        Some(a) => a,
        None => JsonModel::Null,
    }
}

/// An error response.
pub fn error_response(id: Option<serde_json::Value>, code: i32, message: String) -> (r:
    JsonRpcResponse)
    ensures
        is_error(r, model_of(id), code, message@),
{
    JsonRpcResponse {
        jsonrpc: String::from_str("2.0"),
        id,
        result: None,
        error: Some(JsonRpcError { code, message }),
    }
}

/// The response with the result that the JSON text `text` writes.
pub fn result_response(id: Option<serde_json::Value>, text: &str) -> (r: JsonRpcResponse)
    ensures
        is_result(r, model_of(id), text@),
{
    match parse_value(text) {
        Some(v) => JsonRpcResponse {
            jsonrpc: String::from_str("2.0"),
            id,
            result: Some(v),
            error: None,
        },
        None => error_response(id, INTERNAL_ERROR, String::from_str("Failed to build the result")),
    }
}

/// The text member `key` of `v`, if it has one.
fn text_member(v: &serde_json::Value, key: &str) -> (r: Option<String>)
    ensures
        match r {
            Some(t) => text_field(json_model(*v), key@) == Some(t@),
            None => text_field(json_model(*v), key@) is None,
        },
{
    match value_get(v, key) {
        Some(m) => value_as_str(&m),
        None => None,
    }
}

/// The document that `uri` addresses, if it addresses one.
pub fn document_of_uri(uri: &str) -> (r: Option<i64>)
    ensures
        r == addressed_document(uri@),
{
    let s: Vec<char> = chars_of(uri);
    let prefix: Vec<char> = chars_of("sensei://knowledge/");
    if matches_at(&s, &prefix, 0) {
        let rest = string_of(&slice_of(&s, prefix.len(), s.len()));
        parse_int(rest.as_str())
    } else {
        None
    }
}

/// The response to a resource enumeration: `docs` is what the store
/// listed, numbers and beginnings of its documents, or why it failed.
pub fn resources_listed(id: Option<serde_json::Value>, docs: Result<Vec<(i64, String)>, String>) -> (r:
    JsonRpcResponse)
    ensures
        match docs {
            Ok(list) => is_result(r, model_of(id), resources_result(list@)),
            Err(why) => is_error(r, model_of(id), INTERNAL_ERROR, why@),
        },
{
    match docs {
        Ok(list) => {
            let mut text = String::from_str("{\"resources\":[");
            let ghost head = text@;
            let mut i: usize = 0;
            while i < list.len()
                invariant
                    i <= list.len(),
                    text@ == head + resource_entries(list@, i as int),
                decreases list.len() - i,
            {
                let ghost before = text@;
                if i > 0 {
                    text.append(",");
                }
                let number: Vec<char> = signed_decimal(list[i].0);
                let mut uri = String::from_str("sensei://knowledge/");
                uri.append(string_of(&number).as_str());
                let mut title = String::from_str("Document #");
                title.append(string_of(&number).as_str());
                title.append(" - ");
                title.append(
                    string_of(&replace_char(&chars_of(list[i].1.as_str()), '\n', ' ')).as_str(),
                );
                title.append("...");
                let mut entry = String::from_str("{\"uri\":");
                entry.append(quote(uri.as_str()).as_str());
                entry.append(",\"name\":");
                entry.append(quote(title.as_str()).as_str());
                entry.append(",\"mime_type\":\"text/plain\"}");
                text.append(entry.as_str());
                proof {
                    assert(entry@ == resource_entry(list[i as int].0, list[i as int].1@));
                    if i == 0 {
                        assert(text@ =~= head + resource_entries(list@, 1));
                    } else {
                        assert(text@ =~= head + resource_entries(list@, i + 1));
                    }
                }
                i += 1;
            }
            text.append("]}");
            result_response(id, text.as_str())
        },
        Err(why) => error_response(id, INTERNAL_ERROR, why),
    }
}

/// The response to the reading of the document at `uri`: `content` is the
/// document's text, or why the store could not give it.
pub fn resource_read(id: Option<serde_json::Value>, uri: &str, content: Result<String, String>) -> (r:
    JsonRpcResponse)
    ensures
        match content {
            Ok(text) => is_result(r, model_of(id), contents_result(uri@, text@)),
            Err(why) => is_error(
                r,
                model_of(id),
                INTERNAL_ERROR,
                "Failed to read doc: "@ + why@,
            ),
        },
{
    match content {
        Ok(body) => {
            let mut text = String::from_str("{\"contents\":[{\"uri\":");
            text.append(quote(uri).as_str());
            text.append(",\"mimeType\":\"text/plain\",\"text\":");
            text.append(quote(body.as_str()).as_str());
            text.append("}]}");
            result_response(id, text.as_str())
        },
        Err(why) => error_response(
            id,
            INTERNAL_ERROR,
            String::from_str("Failed to read doc: ").concat(why.as_str()),
        ),
    }
}

/// Whether `step` is what the reading of a resource with `params` asks
/// for, for the request numbered `id`.
pub open spec fn reads(id: Option<JsonModel>, params: Option<JsonModel>, step: ServerStep) -> bool {
    match params {
        None => step matches ServerStep::Respond(r) && is_error(
            r,
            id,
            INVALID_PARAMS,
            "Missing params"@,
        ),
        Some(p) => match text_field(p, "uri"@) {
            None => step matches ServerStep::Respond(r) && is_error(
                r,
                id,
                INVALID_PARAMS,
                "Missing uri"@,
            ),
            Some(uri) => match addressed_document(uri) {
                Some(document) => step matches ServerStep::ReadResource {
                    id: step_id,
                    uri: step_uri,
                    document: step_document,
                } && model_of(step_id) == id && step_uri@ == uri && step_document == document,
                None => step matches ServerStep::Respond(r) && is_error(
                    r,
                    id,
                    INVALID_PARAMS,
                    "Resource not found or invalid URI"@,
                ),
            },
        },
    }
}

/// The server: the tools it offers.
pub struct McpServer {
    tools: ToolSet,
}

impl McpServer {
    /// A server that offers no tool yet.
    pub fn new() -> (s: Self)
        ensures
            s.tool_names() == Seq::<Seq<char>>::empty(),
    {
        McpServer { tools: ToolSet::new() }
    }

    /// The names of the offered tools.
    pub open spec fn tool_names(&self) -> Seq<Seq<char>> {
        self.tool_set().names()
    }

    /// The offered tools.
    pub closed spec fn tool_set(&self) -> ToolSet {
        self.tools
    }

    /// Where the tool named `name` stands among the offered tools.
    pub open spec fn place_of(&self, name: Seq<char>) -> Option<int> {
        place_in(self.tool_names(), name, 0)
    }

    /// Whether `output` is a text that the tool at place `i` may return for
    /// `args`.
    pub open spec fn tool_may_return(&self, i: int, args: Seq<char>, output: Seq<char>) -> bool {
        self.tool_set().may_return(i, args, output)
    }

    /// Whether the tool at place `i` may fail on `args` with an error whose
    /// message is `message`.
    pub open spec fn tool_may_fail(&self, i: int, args: Seq<char>, message: Seq<char>) -> bool {
        self.tool_set().may_fail(i, args, message)
    }

    /// Offers `tool` under its name, in place of any tool that had the name.
    /// The name then stands for `tool`, and every other name for what it
    /// stood for.
    pub fn register_tool(&mut self, tool: Box<dyn Tool>)
        ensures
            exists|shared: Arc<Box<dyn Tool>>|
                shared == tool && #[trigger] old(self).tool_set().with_tool(
                    tool.name_spec(),
                    shared,
                    final(self).tool_set(),
                ),
    {
        let name: String = String::from_str(tool.name());
        let ghost start = *self;
        let shared = Arc::new(tool);
        let ghost held = shared;
        self.tools.insert(name, shared);
        assert(held == tool);
        assert(start.tool_set().with_tool(tool.name_spec(), held, self.tool_set()));
    }

    /// Answers the handshake.
    pub fn handle_initialize(&self, id: Option<serde_json::Value>) -> (r: JsonRpcResponse)
        ensures
            is_result(r, model_of(id), handshake_result()),
    {
        result_response(
            id,
            "{\"protocolVersion\":\"0.1.0\",\"server\":{\"name\":\"sensei-mcp\",\"version\":\"0.1.0\"},\"capabilities\":{\"tools\":{},\"resources\":{}}}",
        )
    }

    /// Answers the tool enumeration.
    pub fn handle_tools_list(&self, id: Option<serde_json::Value>) -> (r: JsonRpcResponse)
        ensures
            is_result(r, model_of(id), tools_result()),
    {
        result_response(
            id,
            "{\"tools\":[{\"name\":\"nmap\",\"description\":\"Run a network scan on a target.\",\"input_schema\":{\"type\":\"object\",\"properties\":{\"target\":{\"type\":\"string\",\"description\":\"IP or Hostname\"}},\"required\":[\"target\"]}},{\"name\":\"system_diagnostic\",\"description\":\"Run system checks (uptime, df, free).\",\"input_schema\":{\"type\":\"object\",\"properties\":{\"command\":{\"type\":\"string\",\"enum\":[\"uptime\",\"disk\",\"memory\",\"whoami\",\"date\"],\"description\":\"Diagnostic command to run\"}},\"required\":[\"command\"]}}]}",
        )
    }

    /// Whether `r` is a response that a run of the tool at place `i` on
    /// `argument` may get: the tool's output as a result, or its failure as
    /// an error.
    pub open spec fn may_report_run(
        &self,
        i: int,
        argument: Seq<char>,
        id: Option<JsonModel>,
        r: JsonRpcResponse,
    ) -> bool {
        ||| (exists|output: Seq<char>| #[trigger]
            self.tool_may_return(i, argument, output) && is_result(r, id, tool_result(output)))
        ||| (exists|message: Seq<char>| #[trigger]
            self.tool_may_fail(i, argument, message) && is_error(r, id, TOOL_FAILED, message))
    }

    /// Whether `r` is a response that a tool invocation with `params` may
    /// get, for the request numbered `id`.
    pub open spec fn may_answer_call(
        &self,
        id: Option<JsonModel>,
        params: Option<JsonModel>,
        r: JsonRpcResponse,
    ) -> bool {
        match params {
            None => is_error(r, id, INVALID_PARAMS, "Missing params"@),
            Some(p) => match text_field(p, "name"@) {
                None => is_error(r, id, INVALID_PARAMS, "Missing tool name"@),
                Some(name) => match self.place_of(name) {
                    None => is_error(r, id, METHOD_NOT_FOUND, "Tool "@ + name + " not found"@),
                    Some(i) => match tool_argument(name, arguments_of(p)) {
                        None => is_error(r, id, INVALID_PARAMS, "Unknown tool signature"@),
                        Some(argument) => self.may_report_run(i, argument, id, r),
                    },
                },
            },
        }
    }

    /// Answers a tool invocation: runs the named tool on its argument and
    /// reports its output, or says what is wrong with the invocation.
    pub fn handle_tools_call(
        &self,
        id: Option<serde_json::Value>,
        params: Option<serde_json::Value>,
    ) -> (r: JsonRpcResponse)
        ensures
            self.may_answer_call(model_of(id), model_of(params), r),
    {
        let p = match params {
            Some(p) => p,
            None => {
                return error_response(id, INVALID_PARAMS, String::from_str("Missing params"));
            },
        };
        let name = match text_member(&p, "name") {
            Some(n) => n,
            None => {
                return error_response(id, INVALID_PARAMS, String::from_str("Missing tool name"));
            },
        };
        let place = match self.tools.position(name.as_str()) {
            Some(i) => i,
            None => {
                let mut m = String::from_str("Tool ");
                m.append(name.as_str());
                m.append(" not found");
                return error_response(id, METHOD_NOT_FOUND, m);
            },
        };
        let arguments = value_get(&p, "arguments");
        let key: &str = if same_text(name.as_str(), "nmap") {
            "target"
        } else if same_text(name.as_str(), "system_diagnostic") {
            "command"
        } else {
            return error_response(
                id,
                INVALID_PARAMS,
                String::from_str("Unknown tool signature"),
            );
        };
        let argument: String = match &arguments {
            Some(a) => match text_member(a, key) {
                Some(t) => t,
                None => String::new(),
            },
            None => String::new(),
        };
        let ghost id_model = model_of(id);
        let ghost wanted = tool_argument(name@, arguments_of(json_model(p)));
        assert(wanted == Some(argument@));
        let ghost params_model = model_of(params);
        assert(params_model == Some(json_model(p)));
        assert(text_field(json_model(p), "name"@) == Some(name@));
        assert(self.place_of(name@) == Some(place as int));
        match self.tools.run(place, argument.as_str()) {
            Ok(output) => {
                let mut text = String::from_str("{\"content\":[{\"type\":\"text\",\"text\":");
                text.append(quote(output.as_str()).as_str());
                text.append("}]}");
                let r = result_response(id, text.as_str());
                proof {
                    assert(self.tool_may_return(place as int, argument@, output@));
                    assert(is_result(r, id_model, tool_result(output@)));
                    assert(exists|o: Seq<char>| #[trigger]
                        self.tool_may_return(place as int, argument@, o) && is_result(
                            r,
                            id_model,
                            tool_result(o),
                        ));
                    assert(self.may_report_run(place as int, argument@, id_model, r));
                    assert(self.may_answer_call(id_model, params_model, r));
                }
                r
            },
            Err(e) => {
                let r = error_response(id, TOOL_FAILED, e.message());
                proof {
                    assert(self.tool_may_fail(place as int, argument@, e.message_spec()));
                    assert(exists|m: Seq<char>| #[trigger]
                        self.tool_may_fail(place as int, argument@, m) && is_error(
                            r,
                            id_model,
                            TOOL_FAILED,
                            m,
                        ));
                    assert(self.may_report_run(place as int, argument@, id_model, r));
                    assert(self.may_answer_call(id_model, params_model, r));
                }
                r
            },
        }
    }

    /// What the reading of a resource with `params` asks for, for the
    /// request numbered `id`: to read the document that the `uri` addresses,
    /// or to send the error that says what is wrong.
    pub fn handle_resources_read(
        &self,
        id: Option<serde_json::Value>,
        params: Option<serde_json::Value>,
    ) -> (step: ServerStep)
        ensures
            reads(model_of(id), model_of(params), step),
    {
        let p = match params {
            Some(p) => p,
            None => {
                return ServerStep::Respond(
                    error_response(id, INVALID_PARAMS, String::from_str("Missing params")),
                );
            },
        };
        let uri = match text_member(&p, "uri") {
            Some(u) => u,
            None => {
                return ServerStep::Respond(
                    error_response(id, INVALID_PARAMS, String::from_str("Missing uri")),
                );
            },
        };
        match document_of_uri(uri.as_str()) {
            Some(document) => ServerStep::ReadResource { id, uri, document },
            None => ServerStep::Respond(
                error_response(
                    id,
                    INVALID_PARAMS,
                    String::from_str("Resource not found or invalid URI"),
                ),
            ),
        }
    }

    /// Whether `step` is what the server may do for a request with these
    /// parts: the answer of the method's handler, and for an unknown method
    /// the error that says so.
    pub open spec fn may_react(
        &self,
        id: Option<JsonModel>,
        method: Seq<char>,
        params: Option<JsonModel>,
        step: ServerStep,
    ) -> bool {
        if method == "initialize"@ {
            step matches ServerStep::Respond(r) && is_result(r, id, handshake_result())
        } else if method == "tools/list"@ {
            step matches ServerStep::Respond(r) && is_result(r, id, tools_result())
        } else if method == "tools/call"@ {
            step matches ServerStep::Respond(r) && self.may_answer_call(id, params, r)
        } else if method == "resources/list"@ {
            step matches ServerStep::ListResources { id: step_id } && model_of(step_id) == id
        } else if method == "resources/read"@ {
            reads(id, params, step)
        } else {
            step matches ServerStep::Respond(r) && is_error(
                r,
                id,
                METHOD_NOT_FOUND,
                "Method '"@ + method + "' not found"@,
            )
        }
    }

    /// What the server does for `req`.
    pub fn handle_request(&self, req: JsonRpcRequest) -> (step: ServerStep)
        ensures
            self.may_react(model_of(req.id), req.method@, model_of(req.params), step),
    {
        let method = req.method;
        if same_text(method.as_str(), "initialize") {
            ServerStep::Respond(self.handle_initialize(req.id))
        } else if same_text(method.as_str(), "tools/list") {
            ServerStep::Respond(self.handle_tools_list(req.id))
        } else if same_text(method.as_str(), "tools/call") {
            ServerStep::Respond(self.handle_tools_call(req.id, req.params))
        } else if same_text(method.as_str(), "resources/list") {
            ServerStep::ListResources { id: req.id }
        } else if same_text(method.as_str(), "resources/read") {
            self.handle_resources_read(req.id, req.params)
        } else {
            let mut m = String::from_str("Method '");
            m.append(method.as_str());
            m.append("' not found");
            ServerStep::Respond(error_response(req.id, METHOD_NOT_FOUND, m))
        }
    }
}

/// The request that the document `m` writes, if it writes one: an object
/// whose `jsonrpc` and `method` are strings. Its number and parameters are
/// what stands under `id` and `params`, nothing where that is `null`.
pub open spec fn request_of(m: JsonModel) -> Option<
    (Seq<char>, Option<JsonModel>, Seq<char>, Option<JsonModel>),
> {
    match (text_field(m, "jsonrpc"@), text_field(m, "method"@)) {
        (Some(version), Some(method)) => Some(
            (version, present(field(m, "id"@)), method, present(field(m, "params"@))),
        ),
        _ => None,
    }
}

/// A member that is there and not `null`.
pub open spec fn present(v: Option<JsonModel>) -> Option<JsonModel> {
    match v {
        Some(JsonModel::Null) => None,
        other => other,
    }
}

/// The member of `v` under `key` that is there and not `null`.
fn present_member(v: &serde_json::Value, key: &str) -> (r: Option<serde_json::Value>)
    ensures
        model_of(r) == present(field(json_model(*v), key@)),
{
    match value_get(v, key) {
        Some(m) => {
            if value_is_null(&m) {
                None
            } else {
                Some(m)
            }
        },
        None => None,
    }
}

/// Reads a request from a line of the client. A line that writes no request
/// gives nothing.
pub fn read_request(line: &str) -> (r: Option<JsonRpcRequest>)
    ensures
        match r {
            Some(req) => json_parse(line@) matches Some(m) && request_of(m) == Some(
                (req.jsonrpc@, model_of(req.id), req.method@, model_of(req.params)),
            ),
            None => json_parse(line@) matches Some(m) ==> request_of(m) is None,
        },
{
    let doc = match parse_value(line) {
        Some(v) => v,
        None => { return None; },
    };
    let jsonrpc = match text_member(&doc, "jsonrpc") {
        Some(t) => t,
        None => { return None; },
    };
    let method = match text_member(&doc, "method") {
        Some(t) => t,
        None => { return None; },
    };
    let id = present_member(&doc, "id");
    let params = present_member(&doc, "params");
    Some(JsonRpcRequest { jsonrpc, id, method, params })
}

/// The line that carries the response `r`: one JSON object with the
/// protocol version, the request's number or `null`, and the result or the
/// error, whichever is there.
pub open spec fn response_line(r: JsonRpcResponse) -> Seq<char> {
    "{\"jsonrpc\":"@ + json_quoted(r.jsonrpc@) + ",\"id\":"@ + (match r.id {
        Some(id) => json_compact(json_model(id)),
        None => "null"@,
    }) + (match r.result {
        Some(result) => ",\"result\":"@ + json_compact(json_model(result)),
        None => Seq::<char>::empty(),
    }) + (match r.error {
        Some(e) => ",\"error\":{\"code\":"@ + signed_decimal_of(e.code as int) + ",\"message\":"@
            + json_quoted(e.message@) + "}"@,
        None => Seq::<char>::empty(),
    }) + "}"@
}

/// Writes a response down as the line to send, without a line feed.
pub fn write_response(r: &JsonRpcResponse) -> (line: String)
    ensures
        line@ == response_line(*r),
{
    let mut line = String::from_str("{\"jsonrpc\":");
    line.append(quote(r.jsonrpc.as_str()).as_str());
    line.append(",\"id\":");
    match &r.id {
        Some(id) => {
            line.append(value_text(id).as_str());
        },
        None => {
            line.append("null");
        },
    }
    let ghost with_id = line@;
    match &r.result {
        Some(result) => {
            line.append(",\"result\":");
            line.append(value_text(result).as_str());
        },
        None => {
            assert(with_id + Seq::<char>::empty() =~= with_id);
        },
    }
    let ghost with_result = line@;
    match &r.error {
        Some(e) => {
            line.append(",\"error\":{\"code\":");
            line.append(string_of(&signed_decimal(e.code as i64)).as_str());
            line.append(",\"message\":");
            line.append(quote(e.message.as_str()).as_str());
            line.append("}");
            assert(line@ =~= with_result + (",\"error\":{\"code\":"@ + signed_decimal_of(
                e.code as int,
            ) + ",\"message\":"@ + json_quoted(e.message@) + "}"@));
        },
        None => {
            assert(with_result + Seq::<char>::empty() =~= with_result);
        },
    }
    line.append("}");
    line
}

} // verus!
