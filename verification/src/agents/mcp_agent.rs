//! The tool-provider proxy: a handler for the tools of one provider
//! process.
//!
//! The language model picks a tool of the provider and its arguments. The
//! invocation itself goes over the provider's streams, which the caller
//! holds: `plan` says what to invoke, `report` turns the result into the
//! handler's answer.

use std::sync::Arc;
use vstd::prelude::*;
use vstd::string::StringExecFns;
use crate::common::{category_name, AgentCategory};
use crate::errors::SenseiError;
use crate::json::{
    candidate_of, field, json_candidate, json_model, json_parse, json_pretty, parse_value,
    value_array, value_as_str, value_get, value_pretty, JsonModel,
};
use crate::llm::Llm;
use crate::text::same_text;

verus! {

/// The model's choice: a tool of the provider by name, and its arguments.
#[derive(Debug)]
pub struct McpToolCall {
    pub tool_name: String,
    pub arguments: serde_json::Value,
}

impl View for McpToolCall {
    type V = (Seq<char>, JsonModel);

    /// The name of the tool, then the arguments.
    open spec fn view(&self) -> (Seq<char>, JsonModel) {
        (self.tool_name@, json_model(self.arguments))
    }
}

/// What the proxy does for an input.
#[derive(Debug)]
pub enum McpStep {
    /// Answer with this text.
    Reply(String),
    /// Invoke this tool of the provider, then `report`.
    Call(McpToolCall),
}

/// The content of an `McpStep`.
pub enum McpStepModel {
    Reply { text: Seq<char> },
    Call { tool_name: Seq<char>, arguments: JsonModel },
}

impl View for McpStep {
    type V = McpStepModel;

    open spec fn view(&self) -> McpStepModel {
        match self {
            McpStep::Reply(text) => McpStepModel::Reply { text: text@ },
            McpStep::Call(call) => McpStepModel::Call {
                tool_name: call.tool_name@,
                arguments: json_model(call.arguments),
            },
        }
    }
}

/// The choice that a document holds, if it is well formed: an object whose
/// `tool_name` is a string and that has `arguments`.
pub open spec fn chosen(m: JsonModel) -> Option<(Seq<char>, JsonModel)> {
    match (field(m, "tool_name"@), field(m, "arguments"@)) {
        (Some(JsonModel::Text(name)), Some(arguments)) => Some((name, arguments)),
        _ => None,
    }
}

/// The choice that the model's `reply` holds, if it holds one.
pub open spec fn call_of_reply(reply: Seq<char>) -> Option<(Seq<char>, JsonModel)> {
    match candidate_of(reply) {
        Some(c) => match json_parse(c) {
            Some(m) => chosen(m),
            None => None,
        },
        None => None,
    }
}

/// The prompt that asks the model to choose among the tools described by
/// `tools`, for the provider named `server` and the request `query`.
pub open spec fn decision_prompt(server: Seq<char>, tools: Seq<char>, query: Seq<char>) -> Seq<
    char,
> {
    " \n            You are an autonomous Agent controlling an MCP Server named '"@ + server
        + "'.\n            \n            Available Tools (JSON Schema):\n            "@ + tools
        + " \n            \n            Task: Analyze the user request and decide which tool to execute.\n            User Request: \""@
        + query
        + "\" \n            \n            Rules:\n            - If the request matches a tool, output strictly JSON: { \"tool_name\": \"name\", \"arguments\": { ... } }\n            - If NO tool matches, output strictly JSON: { \"tool_name\": \"none\", \"arguments\": {} } \n            \n            Output strictly JSON.\n            "@
}

/// The answer when no choice could be had from the model.
pub open spec fn decision_failed() -> Seq<char> {
    "Error: Failed to decide on MCP tool execution."@
}

/// The answer when the model chose no tool of the provider named `server`.
pub open spec fn refusal(server: Seq<char>) -> Seq<char> {
    "I cannot process this request with the available tools on "@ + server + "."@
}

/// The answer when the tool `tool_name` of the provider named `server` gave
/// `output`.
pub open spec fn success_report(tool_name: Seq<char>, server: Seq<char>, output: Seq<char>) -> Seq<
    char,
> {
    "✅ Tool '"@ + tool_name + "' on "@ + server + " executed successfully:\n\n"@ + output
}

/// The answer when the invocation failed with an error whose message is
/// `message`.
pub open spec fn failure_report(message: Seq<char>) -> Seq<char> {
    "❌ MCP Tool execution failed: "@ + message
}

/// The step that follows the choice `call`, or the lack of one, for the
/// provider named `server`.
pub open spec fn step_of(server: Seq<char>, call: Option<(Seq<char>, JsonModel)>) -> McpStepModel {
    match call {
        None => McpStepModel::Reply { text: decision_failed() },
        Some((name, arguments)) => if name == "none"@ {
            McpStepModel::Reply { text: refusal(server) }
        } else {
            McpStepModel::Call { tool_name: name, arguments }
        },
    }
}

/// Reads the model's `reply` for a choice of tool.
pub fn read_tool_call(reply: &str) -> (r: Option<McpToolCall>)
    ensures
        match r {
            Some(call) => call_of_reply(reply@) == Some(call@),
            None => call_of_reply(reply@) is None,
        },
{
    let candidate = match json_candidate(reply) {
        Some(c) => c,
        None => { return None; },
    };
    let doc = match parse_value(candidate.as_str()) {
        Some(v) => v,
        None => { return None; },
    };
    let tool_name = match value_get(&doc, "tool_name") {
        Some(v) => match value_as_str(&v) {
            Some(s) => s,
            None => { return None; },
        },
        None => { return None; },
    };
    match value_get(&doc, "arguments") {
        Some(arguments) => Some(McpToolCall { tool_name, arguments }),
        None => None,
    }
}

/// The step that follows the choice `call`, or the lack of one, for the
/// provider named `server`.
pub fn next_step(server: &str, call: Option<McpToolCall>) -> (step: McpStep)
    ensures
        step@ == step_of(
            server@,
            match call {
                Some(c) => Some(c@),
                None => None,
            },
        ),
{
    match call {
        None => McpStep::Reply(String::from_str("Error: Failed to decide on MCP tool execution.")),
        Some(c) => {
            if same_text(c.tool_name.as_str(), "none") {
                let mut text = String::from_str(
                    "I cannot process this request with the available tools on ",
                );
                text.append(server);
                text.append(".");
                McpStep::Reply(text)
            } else {
                McpStep::Call(c)
            }
        },
    }
}

/// The answer for a finished invocation of `tool_name` on the provider
/// named `server`: `outcome` is the tool's output, or the message of the
/// error that the invocation ended with.
pub fn report(server: &str, tool_name: &str, outcome: &Result<String, String>) -> (r: String)
    ensures
        r@ == match outcome {
            Ok(output) => success_report(tool_name@, server@, output@),
            Err(message) => failure_report(message@),
        },
{
    match outcome {
        Ok(output) => {
            let mut r = String::from_str("✅ Tool '");
            r.append(tool_name);
            r.append("' on ");
            r.append(server);
            r.append(" executed successfully:\n\n");
            r.append(output.as_str());
            r
        },
        Err(message) => String::from_str("❌ MCP Tool execution failed: ").concat(
            message.as_str(),
        ),
    }
}

/// A handler for the tools of one provider.
pub struct McpAgent {
    llm: Arc<Box<dyn Llm>>,
    server_name: String,
    tools: serde_json::Value,
}

impl McpAgent {
    /// A proxy for the provider named `server_name`, whose tools are
    /// described by `tools` as the provider listed them.
    pub fn new(llm: Arc<Box<dyn Llm>>, server_name: &str, tools: Vec<serde_json::Value>) -> (a: Self)
        ensures
            a.model() == llm,
            a.server_name() == server_name@,
            a.tools() is Array,
            a.tools()->Array_0.len() == tools.len(),
            forall|i: int|
                0 <= i < tools.len() ==> a.tools()->Array_0[i] == json_model(#[trigger] tools[i]),
    {
        McpAgent { llm, server_name: String::from_str(server_name), tools: value_array(tools) }
    }

    /// The language model service that the proxy asks.
    pub closed spec fn model(&self) -> Arc<Box<dyn Llm>> {
        self.llm
    }

    /// The name of the provider.
    pub closed spec fn server_name(&self) -> Seq<char> {
        self.server_name@
    }

    /// The descriptions of the provider's tools, as one array.
    pub closed spec fn tools(&self) -> JsonModel {
        json_model(self.tools)
    }

    /// Whether `reply` is a text that the proxy's model may generate for
    /// `prompt`.
    pub open spec fn model_may_say(&self, prompt: Seq<char>, reply: Seq<char>) -> bool {
        self.model().may_generate(prompt, reply)
    }

    /// Whether the proxy's model may fail on `prompt` with `error`.
    pub open spec fn model_may_refuse(&self, prompt: Seq<char>, error: SenseiError) -> bool {
        self.model().may_refuse(prompt, error)
    }

    /// Whether the model may leave `query` without a choice: it may fail on
    /// the decision prompt, or a reply that it may give holds no choice.
    pub open spec fn may_decide_nothing(&self, query: Seq<char>) -> bool {
        ||| (exists|error: SenseiError| #[trigger]
            self.model_may_refuse(self.prompt_for(query), error))
        ||| (exists|reply: Seq<char>| #[trigger]
            self.model_may_say(self.prompt_for(query), reply) && call_of_reply(reply) is None)
    }

    /// The prompt that the model gets for `query`.
    pub open spec fn prompt_for(&self, query: Seq<char>) -> Seq<char> {
        decision_prompt(self.server_name(), json_pretty(self.tools()), query)
    }

    /// The category that the proxy serves: the one that the provider's name
    /// names.
    pub fn category(&self) -> (c: AgentCategory)
        ensures
            c@ == category_name(self.server_name()),
    {
        AgentCategory::new(self.server_name.as_str())
    }

    /// Asks the model which tool to invoke for `query`. The choice is the
    /// one that the model's reply to the decision prompt holds. Nothing comes
    /// back where the model fails or its reply holds no choice, and only
    /// there.
    pub fn decide_tool(&self, query: &str) -> (r: Option<McpToolCall>)
        ensures
            match r {
                Some(call) => exists|reply: Seq<char>| #[trigger]
                    self.model_may_say(self.prompt_for(query@), reply) && call_of_reply(reply)
                        == Some(call@),
                None => self.may_decide_nothing(query@),
            },
    {
        let mut prompt = String::from_str(
            " \n            You are an autonomous Agent controlling an MCP Server named '",
        );
        prompt.append(self.server_name.as_str());
        prompt.append(
            "'.\n            \n            Available Tools (JSON Schema):\n            ",
        );
        prompt.append(value_pretty(&self.tools).as_str());
        prompt.append(
            " \n            \n            Task: Analyze the user request and decide which tool to execute.\n            User Request: \"",
        );
        prompt.append(query);
        prompt.append(
            "\" \n            \n            Rules:\n            - If the request matches a tool, output strictly JSON: { \"tool_name\": \"name\", \"arguments\": { ... } }\n            - If NO tool matches, output strictly JSON: { \"tool_name\": \"none\", \"arguments\": {} } \n            \n            Output strictly JSON.\n            ",
        );
        match self.llm.generate(prompt.as_str()) {
            Ok(reply) => {
                let r = read_tool_call(reply.as_str());
                assert(self.model_may_say(self.prompt_for(query@), reply@));
                r
            },
            Err(e) => {
                assert(self.model_may_refuse(self.prompt_for(query@), e));
                None
            },
        }
    }

    /// Whether `step` is what the proxy may do for `input`: the step that
    /// follows a choice that the model may make, or, where the model may
    /// leave the input without a choice, the step that follows none.
    pub open spec fn may_plan(&self, input: Seq<char>, step: McpStepModel) -> bool {
        ||| (step == step_of(self.server_name(), None) && self.may_decide_nothing(input))
        ||| (exists|reply: Seq<char>| #[trigger]
            self.model_may_say(self.prompt_for(input), reply) && call_of_reply(reply) is Some
                && step == step_of(self.server_name(), call_of_reply(reply)))
    }

    /// What to do for `input`: the fixed answer where the model gave no
    /// choice, and only there; the refusal where it chose no tool; else the
    /// invocation of the tool it chose.
    pub fn plan(&self, input: &str) -> (step: McpStep)
        ensures
            self.may_plan(input@, step@),
    {
        let call = self.decide_tool(input);
        next_step(self.server_name.as_str(), call)
    }

    /// The answer for a finished invocation of `tool_name`.
    pub fn report(&self, tool_name: &str, outcome: &Result<String, String>) -> (r: String)
        ensures
            r@ == match outcome {
                Ok(output) => success_report(tool_name@, self.server_name(), output@),
                Err(message) => failure_report(message@),
            },
    {
        report(self.server_name.as_str(), tool_name, outcome)
    }
}

} // verus!
