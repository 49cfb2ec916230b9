//! The client side of the tool-provider protocol.
//!
//! A tool provider is a child process that reads one JSON object per line
//! and writes one per line. This module frames the requests, numbers them,
//! and reads the lines that come back: a line that is no well-formed
//! response, or answers another request, is skipped. Writing and reading the
//! streams is the caller's part; one request is outstanding at a time.

use vstd::prelude::*;
use vstd::string::StringExecFns;
use crate::json::{
    field, json_compact, json_model, json_parse, json_pretty, json_quoted, null_value,
    parse_value, quote, value_as_array, value_as_i64, value_as_str, value_as_u64, value_get,
    value_is_null, value_pretty, value_text, JsonModel, JsonNumber,
};
use crate::text::{decimal, decimal_of, signed_decimal, signed_decimal_of, string_of};

verus! {

/// The error object of a response.
#[derive(Debug)]
pub struct JsonRpcError {
    pub code: i32,
    pub message: String,
}

/// Why a call to the tool provider failed.
#[derive(Debug)]
pub enum McpError {
    /// The provider closed its output before it answered.
    Closed,
    /// The provider answered with an error object.
    Remote(JsonRpcError),
    /// The client has no request number left.
    Exhausted,
}

impl McpError {
    /// The message of the error.
    pub open spec fn message_spec(self) -> Seq<char> {
        match self {
            McpError::Closed => "MCP Server closed connection unexpectedly"@,
            McpError::Remote(e) => "MCP Error "@ + signed_decimal_of(e.code as int) + ": "@
                + e.message@,
            McpError::Exhausted => "MCP client has no request id left"@,
        }
    }

    /// The message of the error, as it is shown to a reader.
    pub fn message(&self) -> (m: String)
        ensures
            m@ == self.message_spec(),
    {
        match self {
            McpError::Closed => String::from_str("MCP Server closed connection unexpectedly"),
            McpError::Remote(e) => {
                let mut m = String::from_str("MCP Error ");
                m.append(string_of(&signed_decimal(e.code as i64)).as_str());
                m.append(": ");
                m.append(e.message.as_str());
                m
            },
            McpError::Exhausted => String::from_str("MCP client has no request id left"),
        }
    }
}

/// A framed request: its number, and the line to write.
#[derive(Debug)]
pub struct Request {
    pub id: u64,
    pub line: String,
}

/// What a line from the provider means to the request that waits.
#[derive(Debug)]
pub enum Reading {
    /// The line is not the answer: read on.
    Skip,
    /// The answer is an error.
    Failed(JsonRpcError),
    /// The answer is a result.
    Answered(serde_json::Value),
}

/// The content of a `Reading`.
pub enum ReadingModel {
    Skip,
    Failed { code: int, message: Seq<char> },
    Answered { result: JsonModel },
}

impl View for Reading {
    type V = ReadingModel;

    open spec fn view(&self) -> ReadingModel {
        match self {
            Reading::Skip => ReadingModel::Skip,
            Reading::Failed(e) => ReadingModel::Failed { code: e.code as int, message: e.message@ },
            Reading::Answered(v) => ReadingModel::Answered { result: json_model(*v) },
        }
    }
}

/// The line of the request numbered `id`: one JSON object with the protocol
/// version, the number, the method and, where there are any, the parameters
/// as JSON text; then a line feed.
pub open spec fn request_line(id: u64, method: Seq<char>, params: Option<Seq<char>>) -> Seq<char> {
    "{\"jsonrpc\":\"2.0\",\"id\":"@ + decimal_of(id as nat) + ",\"method\":"@ + json_quoted(method)
        + match params {
        Some(p) => ",\"params\":"@ + p,
        None => Seq::<char>::empty(),
    } + "}\n"@
}

/// Frames the request numbered `id`.
pub fn frame_request(id: u64, method: &str, params: Option<&str>) -> (line: String)
    ensures
        line@ == request_line(
            id,
            method@,
            match params {
                Some(p) => Some(p@),
                None => None,
            },
        ),
{
    let mut line = String::from_str("{\"jsonrpc\":\"2.0\",\"id\":");
    line.append(string_of(&decimal(id)).as_str());
    line.append(",\"method\":");
    line.append(quote(method).as_str());
    match params {
        Some(p) => {
            line.append(",\"params\":");
            line.append(p);
        },
        None => {
            assert(line@ + Seq::<char>::empty() =~= line@);
        },
    }
    line.append("}\n");
    line
}

/// The request number of a response: `None` where the document has none or
/// `null`; nothing at all where it has something else than a non-negative
/// integer.
pub open spec fn response_id(m: JsonModel) -> Option<Option<u64>> {
    match field(m, "id"@) {
        None => Some(None),
        Some(JsonModel::Null) => Some(None),
        Some(JsonModel::Number(JsonNumber::Unsigned(n))) => Some(Some(n)),
        _ => None,
    }
}

/// The code of an error object: an integer of 32 signed bits.
pub open spec fn error_code(e: JsonModel) -> Option<i32> {
    match field(e, "code"@) {
        Some(JsonModel::Number(JsonNumber::Unsigned(n))) => if n <= i32::MAX {
            Some(n as i32)
        } else {
            None
        },
        Some(JsonModel::Number(JsonNumber::Negative(n))) => if i32::MIN <= n <= i32::MAX {
            Some(n as i32)
        } else {
            None
        },
        _ => None,
    }
}

/// The error of a response: `None` where the document has none or `null`;
/// nothing at all where it has something else than an object with an integer
/// code and a message.
pub open spec fn response_error(m: JsonModel) -> Option<Option<(i32, Seq<char>)>> {
    match field(m, "error"@) {
        None => Some(None),
        Some(JsonModel::Null) => Some(None),
        Some(e) => match (error_code(e), field(e, "message"@)) {
            (Some(code), Some(JsonModel::Text(message))) => Some(Some((code, message))),
            _ => None,
        },
    }
}

/// The result of a response: `null` where the document has none.
pub open spec fn response_result(m: JsonModel) -> JsonModel {
    match field(m, "result"@) {
        Some(r) => r,
        None => JsonModel::Null,
    }
}

/// The document is a well-formed response: an object whose `jsonrpc` is a
/// string, with a request number and an error as above.
pub open spec fn well_formed_response(m: JsonModel) -> bool {
    &&& field(m, "jsonrpc"@) matches Some(JsonModel::Text(_))
    &&& response_id(m) is Some
    &&& response_error(m) is Some
}

/// What the document `m` means to the request numbered `id`.
pub open spec fn reading_of_document(id: u64, m: JsonModel) -> ReadingModel {
    if !well_formed_response(m) || response_id(m) != Some(Some(id)) {
        ReadingModel::Skip
    } else {
        match response_error(m) {
            Some(Some((code, message))) => ReadingModel::Failed { code: code as int, message },
            _ => ReadingModel::Answered { result: response_result(m) },
        }
    }
}

/// What the line `line` means to the request numbered `id`.
pub open spec fn reading_of(id: u64, line: Seq<char>) -> ReadingModel {
    match json_parse(line) {
        Some(m) => reading_of_document(id, m),
        None => ReadingModel::Skip,
    }
}

/// What the lines from index `from` on mean to the request numbered `id`:
/// the reading of the first line that is not skipped, and `Skip` where
/// every line is skipped.
pub open spec fn reading_in(id: u64, lines: Seq<String>, from: int) -> ReadingModel
    decreases lines.len() - from,
{
    if from < 0 || from >= lines.len() {
        ReadingModel::Skip
    } else if reading_of(id, lines[from]@) is Skip {
        reading_in(id, lines, from + 1)
    } else {
        reading_of(id, lines[from]@)
    }
}

/// Lines that are skipped change nothing: the reading of lines that follow
/// skipped lines is the reading of all of them.
pub proof fn law_skipped_lines(id: u64, skipped: Seq<String>, rest: Seq<String>)
    requires
        forall|i: int| 0 <= i < skipped.len() ==> reading_of(id, (#[trigger] skipped[i])@) is Skip,
    ensures
        reading_in(id, skipped + rest, 0) == reading_in(id, rest, 0),
{
    lemma_skipped_prefix(id, skipped, rest, 0);
}

/// The reading of `skipped + rest` from index `from` of the skipped part on
/// is the reading of `rest`.
proof fn lemma_skipped_prefix(id: u64, skipped: Seq<String>, rest: Seq<String>, from: int)
    requires
        0 <= from <= skipped.len(),
        forall|i: int| 0 <= i < skipped.len() ==> reading_of(id, (#[trigger] skipped[i])@) is Skip,
    ensures
        reading_in(id, skipped + rest, from) == reading_in(id, rest, 0),
    decreases skipped.len() - from,
{
    let all = skipped + rest;
    if from < skipped.len() {
        assert(all[from] == skipped[from]);
        lemma_skipped_prefix(id, skipped, rest, from + 1);
    } else {
        lemma_shifted(id, skipped, rest, 0);
    }
}

/// The reading of `skipped + rest` from the place of index `k` of `rest` on
/// is the reading of `rest` from `k` on.
proof fn lemma_shifted(id: u64, skipped: Seq<String>, rest: Seq<String>, k: int)
    requires
        0 <= k <= rest.len(),
    ensures
        reading_in(id, skipped + rest, skipped.len() + k) == reading_in(id, rest, k),
    decreases rest.len() - k,
{
    let all = skipped + rest;
    if k < rest.len() {
        assert(all[skipped.len() + k] == rest[k]);
        lemma_shifted(id, skipped, rest, k + 1);
    }
}

/// The tools that the result of a tool enumeration lists: the items of its
/// `tools` array, none where it has no such array.
pub open spec fn tool_list(result: JsonModel) -> Seq<JsonModel> {
    match field(result, "tools"@) {
        Some(JsonModel::Array(items)) => items,
        _ => Seq::<JsonModel>::empty(),
    }
}

/// The text of one content part: its `text` where that is a string, else
/// nothing.
pub open spec fn part_text(part: JsonModel) -> Seq<char> {
    match field(part, "text"@) {
        Some(JsonModel::Text(t)) => t,
        _ => Seq::<char>::empty(),
    }
}

/// The texts of the content parts, joined in order.
pub open spec fn joined_text(parts: Seq<JsonModel>) -> Seq<char>
    decreases parts.len(),
{
    if parts.len() == 0 {
        Seq::<char>::empty()
    } else {
        joined_text(parts.drop_last()) + part_text(parts.last())
    }
}

/// The plain text of the result of a tool invocation: the joined texts of
/// its `content` array; where it has no such array, the result itself as
/// indented JSON.
pub open spec fn output_text(result: JsonModel) -> Seq<char> {
    match field(result, "content"@) {
        Some(JsonModel::Array(parts)) => joined_text(parts),
        _ => json_pretty(result),
    }
}

/// The parameters of the handshake, as JSON text.
pub open spec fn handshake_params() -> Seq<char> {
    "{\"protocolVersion\":\"2024-11-05\",\"clientInfo\":{\"name\":\"sensei-client\",\"version\":\"0.1.0\"},\"capabilities\":{}}"@
}

/// The parameters of the invocation of the tool `name` with `arguments`, as
/// JSON text.
pub open spec fn invocation_params(name: Seq<char>, arguments: JsonModel) -> Seq<char> {
    "{\"name\":"@ + json_quoted(name) + ",\"arguments\":"@ + json_compact(arguments) + "}"@
}

/// The state of one client session: the number of the next request.
#[derive(Debug)]
pub struct McpClient {
    next_id: u64,
}

impl McpClient {
    /// The number that the next request gets.
    pub closed spec fn next_id(&self) -> u64 {
        self.next_id
    }

    /// A new session. Its first request is numbered 1.
    pub fn new() -> (c: Self)
        ensures
            c.next_id() == 1,
    {
        McpClient { next_id: 1 }
    }

    /// Frames a request with parameters given as JSON text, and takes the
    /// next number for it. Numbers rise by one with each request; when none
    /// is left, nothing is framed and the session stays as it is.
    pub fn frame(&mut self, method: &str, params: Option<&str>) -> (r: Option<Request>)
        ensures
            match r {
                Some(request) => {
                    &&& request.id == old(self).next_id()
                    &&& final(self).next_id() == request.id + 1
                    &&& request.line@ == request_line(
                        request.id,
                        method@,
                        match params {
                            Some(p) => Some(p@),
                            None => None,
                        },
                    )
                },
                None => old(self).next_id() == u64::MAX && final(self).next_id() == u64::MAX,
            },
    {
        if self.next_id == u64::MAX {
            return None;
        }
        let id: u64 = self.next_id;
        self.next_id = id + 1;
        Some(Request { id, line: frame_request(id, method, params) })
    }

    /// Frames a request for `method` with `params`, and takes the next
    /// number for it.
    pub fn send_request(&mut self, method: &str, params: Option<&serde_json::Value>) -> (r: Option<
        Request,
    >)
        ensures
            match r {
                Some(request) => {
                    &&& request.id == old(self).next_id()
                    &&& final(self).next_id() == request.id + 1
                    &&& request.line@ == request_line(
                        request.id,
                        method@,
                        match params {
                            Some(p) => Some(json_compact(json_model(*p))),
                            None => None,
                        },
                    )
                },
                None => old(self).next_id() == u64::MAX && final(self).next_id() == u64::MAX,
            },
    {
        match params {
            Some(p) => {
                let text = value_text(p);
                self.frame(method, Some(text.as_str()))
            },
            None => self.frame(method, None),
        }
    }

    /// Frames the handshake that opens a session.
    pub fn initialize(&mut self) -> (r: Option<Request>)
        ensures
            match r {
                Some(request) => {
                    &&& request.id == old(self).next_id()
                    &&& final(self).next_id() == request.id + 1
                    &&& request.line@ == request_line(
                        request.id,
                        "initialize"@,
                        Some(handshake_params()),
                    )
                },
                None => old(self).next_id() == u64::MAX && final(self).next_id() == u64::MAX,
            },
    {
        self.frame(
            "initialize",
            Some(
                "{\"protocolVersion\":\"2024-11-05\",\"clientInfo\":{\"name\":\"sensei-client\",\"version\":\"0.1.0\"},\"capabilities\":{}}",
            ),
        )
    }

    /// Frames the enumeration of the provider's tools.
    pub fn list_tools(&mut self) -> (r: Option<Request>)
        ensures
            match r {
                Some(request) => {
                    &&& request.id == old(self).next_id()
                    &&& final(self).next_id() == request.id + 1
                    &&& request.line@ == request_line(request.id, "tools/list"@, Some("{}"@))
                },
                None => old(self).next_id() == u64::MAX && final(self).next_id() == u64::MAX,
            },
    {
        self.frame("tools/list", Some("{}"))
    }

    /// Frames the invocation of the tool `name` with `arguments`.
    pub fn call_tool(&mut self, name: &str, arguments: &serde_json::Value) -> (r: Option<Request>)
        ensures
            match r {
                Some(request) => {
                    &&& request.id == old(self).next_id()
                    &&& final(self).next_id() == request.id + 1
                    &&& request.line@ == request_line(
                        request.id,
                        "tools/call"@,
                        Some(invocation_params(name@, json_model(*arguments))),
                    )
                },
                None => old(self).next_id() == u64::MAX && final(self).next_id() == u64::MAX,
            },
    {
        let mut params = String::from_str("{\"name\":");
        params.append(quote(name).as_str());
        params.append(",\"arguments\":");
        params.append(value_text(arguments).as_str());
        params.append("}");
        self.frame("tools/call", Some(params.as_str()))
    }

    /// Reads one line from the provider for the request numbered `id`.
    pub fn read_line(id: u64, line: &str) -> (r: Reading)
        ensures
            r@ == reading_of(id, line@),
    {
        let doc = match parse_value(line) {
            Some(v) => v,
            None => { return Reading::Skip; },
        };
        match value_get(&doc, "jsonrpc") {
            Some(v) => match value_as_str(&v) {
                Some(_) => {},
                None => { return Reading::Skip; },
            },
            None => { return Reading::Skip; },
        }
        let answered: Option<u64> = match value_get(&doc, "id") {
            Some(v) => {
                if value_is_null(&v) {
                    None
                } else {
                    match value_as_u64(&v) {
                        Some(n) => Some(n),
                        None => { return Reading::Skip; },
                    }
                }
            },
            None => None,
        };
        let error: Option<JsonRpcError> = match value_get(&doc, "error") {
            Some(e) => {
                if value_is_null(&e) {
                    None
                } else {
                    let code: i32 = match value_get(&e, "code") {
                        Some(c) => match value_as_i64(&c) {
                            Some(n) => {
                                if -2147483648 <= n && n <= 2147483647 {
                                    n as i32
                                } else {
                                    return Reading::Skip;
                                }
                            },
                            None => { return Reading::Skip; },
                        },
                        None => { return Reading::Skip; },
                    };
                    let message: String = match value_get(&e, "message") {
                        Some(m) => match value_as_str(&m) {
                            Some(s) => s,
                            None => { return Reading::Skip; },
                        },
                        None => { return Reading::Skip; },
                    };
                    Some(JsonRpcError { code, message })
                }
            },
            None => None,
        };
        match answered {
            Some(n) => {
                if n != id {
                    return Reading::Skip;
                }
            },
            None => { return Reading::Skip; },
        }
        match error {
            Some(e) => Reading::Failed(e),
            None => match value_get(&doc, "result") {
                Some(v) => Reading::Answered(v),
                None => Reading::Answered(null_value()),
            },
        }
    }

    /// Reads the lines that the provider wrote before it closed its output,
    /// for the request numbered `id`: the answer is the first line that is
    /// not skipped; without one the provider closed before it answered.
    pub fn read_lines(id: u64, lines: &Vec<String>) -> (r: Result<serde_json::Value, McpError>)
        ensures
            match r {
                Ok(v) => reading_in(id, lines@, 0) == (ReadingModel::Answered {
                    result: json_model(v),
                }),
                Err(McpError::Remote(e)) => reading_in(id, lines@, 0) == (ReadingModel::Failed {
                    code: e.code as int,
                    message: e.message@,
                }),
                Err(McpError::Closed) => reading_in(id, lines@, 0) is Skip,
                Err(McpError::Exhausted) => false,
            },
    {
        let mut i: usize = 0;
        while i < lines.len()
            invariant
                i <= lines.len(),
                reading_in(id, lines@, 0) == reading_in(id, lines@, i as int),
            decreases lines.len() - i,
        {
            match McpClient::read_line(id, lines[i].as_str()) {
                Reading::Skip => {},
                Reading::Failed(e) => { return Err(McpError::Remote(e)); },
                Reading::Answered(v) => { return Ok(v); },
            }
            i += 1;
        }
        Err(McpError::Closed)
    }

    /// What the call that waits for an answer returns when the provider's
    /// output ends.
    pub fn closed() -> (e: McpError)
        ensures
            e is Closed,
    {
        McpError::Closed
    }
}

/// The tools that the result of a tool enumeration lists.
pub fn listed_tools(result: &serde_json::Value) -> (tools: Vec<serde_json::Value>)
    ensures
        tools.len() == tool_list(json_model(*result)).len(),
        forall|i: int|
            0 <= i < tools.len() ==> json_model(#[trigger] tools[i]) == tool_list(
                json_model(*result),
            )[i],
{
    match value_get(result, "tools") {
        Some(v) => match value_as_array(&v) {
            Some(items) => items,
            None => Vec::new(),
        },
        None => Vec::new(),
    }
}

/// The plain text of the result of a tool invocation.
pub fn tool_output(result: &serde_json::Value) -> (text: String)
    ensures
        text@ == output_text(json_model(*result)),
{
    let parts: Vec<serde_json::Value> = match value_get(result, "content") {
        Some(v) => match value_as_array(&v) {
            Some(items) => items,
            None => { return value_pretty(result); },
        },
        None => { return value_pretty(result); },
    };
    let ghost models = field(json_model(*result), "content"@)->0->Array_0;
    let mut text = String::new();
    let mut i: usize = 0;
    while i < parts.len()
        invariant
            i <= parts.len(),
            parts.len() == models.len(),
            forall|j: int| 0 <= j < parts.len() ==> json_model(#[trigger] parts[j]) == models[j],
            text@ == joined_text(models.subrange(0, i as int)),
        decreases parts.len() - i,
    {
        proof {
            let next = models.subrange(0, i + 1);
            assert(next.drop_last() =~= models.subrange(0, i as int));
            assert(next.last() == models[i as int]);
        }
        match value_get(&parts[i], "text") {
            Some(t) => match value_as_str(&t) {
                Some(s) => {
                    text.append(s.as_str());
                },
                None => {
                    assert(text@ + Seq::<char>::empty() =~= text@);
                },
            },
            None => {
                assert(text@ + Seq::<char>::empty() =~= text@);
            },
        }
        i += 1;
    }
    assert(models.subrange(0, parts.len() as int) =~= models);
    text
}

} // verus!
