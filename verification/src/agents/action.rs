//! The tool executor: a handler that lets the language model pick one of its
//! tools and an argument, runs the tool, and reports.

use std::sync::Arc;
use vstd::prelude::*;
use vstd::string::StringExecFns;
use crate::agents::Agent;
use crate::common::AgentCategory;
use crate::errors::SenseiError;
use crate::json::{
    candidate_of, field, json_candidate, json_parse, parse_value, value_as_str, value_get,
    JsonModel,
};
use crate::llm::Llm;
use crate::text::same_text;
use crate::tools::{place_in, Tool, ToolSet};

verus! {

/// A handler that runs tools.
pub struct ToolExecutorAgent {
    llm: Arc<Box<dyn Llm>>,
    tools: ToolSet,
    category: AgentCategory,
}

/// The model's choice: a tool by name, and the argument for it.
#[derive(Debug)]
pub struct ToolCall {
    pub tool_name: String,
    pub argument: String,
}

impl View for ToolCall {
    type V = (Seq<char>, Seq<char>);

    /// The name of the tool, then the argument.
    open spec fn view(&self) -> (Seq<char>, Seq<char>) {
        (self.tool_name@, self.argument@)
    }
}

/// The choice that a document holds, if it is well formed: an object whose
/// `tool_name` and `argument` are strings.
pub open spec fn chosen(m: JsonModel) -> Option<(Seq<char>, Seq<char>)> {
    match (field(m, "tool_name"@), field(m, "argument"@)) {
        (Some(JsonModel::Text(name)), Some(JsonModel::Text(argument))) => Some((name, argument)),
        _ => None,
    }
}

/// The choice that the model's `reply` holds, if it holds one.
pub open spec fn call_of_reply(reply: Seq<char>) -> Option<(Seq<char>, Seq<char>)> {
    match candidate_of(reply) {
        Some(c) => match json_parse(c) {
            Some(m) => chosen(m),
            None => None,
        },
        None => None,
    }
}

/// The names in `names`, with `", "` between them.
pub open spec fn listed(names: Seq<Seq<char>>) -> Seq<char>
    decreases names.len(),
{
    if names.len() == 0 {
        Seq::<char>::empty()
    } else if names.len() == 1 {
        names[0]
    } else {
        listed(names.drop_last()) + ", "@ + names.last()
    }
}

/// The prompt that asks the model to choose among the tools named `tools`
/// for the request `query`.
pub open spec fn decision_prompt(tools: Seq<char>, query: Seq<char>) -> Seq<char> {
    "            You are an autonomous Action Agent.\n            Available Tools: ["@ + tools
        + "] \n            Task: Analyze the user request and decide which tool to execute.\n            User Request: \""@
        + query
        + "\"\n            Rules:\n            - If the request matches a tool capability, output JSON: {'tool_name': 'name', 'argument': 'value'}\n            - Tool \"nmap\": argument must be a target (IP/Host) e.g. \"127.0.0.1\".\n            - Tool \"system_diagnostic\": argument must be one of: \"uptime\", \"disk\", \"memory\", \"whoami\", \"date\".\n            - If NO tool matches or arguments are ambiguous, return JSON: {'tool_name': 'none', 'argument': 'reason'}\n\n            Output strictly JSON.\n            "@
}

/// The answer when no choice could be had from the model.
pub open spec fn decision_failed() -> Seq<char> {
    "Error: Failed to process action request (LLM Decision Failed)."@
}

/// The answer when the model chose no tool, for the reason `argument`.
pub open spec fn refusal(argument: Seq<char>) -> Seq<char> {
    "I cannot perform this action: "@ + argument
}

/// The answer when the model chose a tool that is not registered.
pub open spec fn missing_tool(name: Seq<char>) -> Seq<char> {
    "Error: Tool '"@ + name + "' selected by AI is not found in registry."@
}

/// The answer when the tool ran and gave `output`.
pub open spec fn success_report(output: Seq<char>) -> Seq<char> {
    "✅ Action executed successfully.\n\n**Tool Output:**\n```\n"@ + output + "\n```"@
}

/// The answer when the tool failed with an error whose message is
/// `message`.
pub open spec fn failure_report(message: Seq<char>) -> Seq<char> {
    "❌ Tool execution failed: "@ + message
}

/// Reads the model's `reply` for a choice of tool.
pub fn read_tool_call(reply: &str) -> (r: Option<ToolCall>)
    ensures
        match r {
            Some(call) => call_of_reply(reply@) == Some(call@),
            None => call_of_reply(reply@) is None,
        },
{
    let candidate = match json_candidate(reply) {
        Some(c) => c,
        None => { return None; },
    };
    let doc = match parse_value(candidate.as_str()) {
        Some(v) => v,
        None => { return None; },
    };
    let tool_name = match value_get(&doc, "tool_name") {
        Some(v) => match value_as_str(&v) {
            Some(s) => s,
            None => { return None; },
        },
        None => { return None; },
    };
    let argument = match value_get(&doc, "argument") {
        Some(v) => match value_as_str(&v) {
            Some(s) => s,
            None => { return None; },
        },
        None => { return None; },
    };
    Some(ToolCall { tool_name, argument })
}

/// Reports how a tool's run ended.
pub fn report_run(result: &Result<String, SenseiError>) -> (r: String)
    ensures
        r@ == match result {
            Ok(output) => success_report(output@),
            Err(e) => failure_report(e.message_spec()),
        },
{
    match result {
        Ok(output) => {
            let mut r = String::from_str(
                "✅ Action executed successfully.\n\n**Tool Output:**\n```\n",
            );
            r.append(output.as_str());
            r.append("\n```");
            r
        },
        Err(e) => String::from_str("❌ Tool execution failed: ").concat(e.message().as_str()),
    }
}

impl ToolExecutorAgent {
    /// A tool executor of `category` that chooses with `llm`. It has no tool
    /// yet.
    pub fn new(llm: Arc<Box<dyn Llm>>, category: AgentCategory) -> (a: Self)
        ensures
            a.model() == llm,
            a.category_spec() == category@,
            a.tool_names() == Seq::<Seq<char>>::empty(),
    {
        ToolExecutorAgent { llm, tools: ToolSet::new(), category }
    }

    /// The language model service that the executor asks.
    pub closed spec fn model(&self) -> Arc<Box<dyn Llm>> {
        self.llm
    }

    /// The names of the registered tools, in the order of registration.
    pub open spec fn tool_names(&self) -> Seq<Seq<char>> {
        self.tool_set().names()
    }

    /// The registered tools.
    pub closed spec fn tool_set(&self) -> ToolSet {
        self.tools
    }

    /// Where the tool named `name` stands among the registered tools, if it
    /// is registered: at the first place that holds the name.
    pub open spec fn place_of(&self, name: Seq<char>) -> Option<int> {
        place_in(self.tool_names(), name, 0)
    }

    /// Whether `output` is a text that the tool at place `i` may return for
    /// `argument`.
    pub open spec fn tool_may_return(&self, i: int, argument: Seq<char>, output: Seq<char>) -> bool {
        self.tool_set().may_return(i, argument, output)
    }

    /// Whether the tool at place `i` may fail on `argument` with an error
    /// whose message is `message`.
    pub open spec fn tool_may_fail(&self, i: int, argument: Seq<char>, message: Seq<char>) -> bool {
        self.tool_set().may_fail(i, argument, message)
    }

    /// Whether `reply` is a text that the executor's model may generate for
    /// `prompt`.
    pub open spec fn model_may_say(&self, prompt: Seq<char>, reply: Seq<char>) -> bool {
        self.model().may_generate(prompt, reply)
    }

    /// Whether the executor's model may fail on `prompt` with `error`.
    pub open spec fn model_may_refuse(&self, prompt: Seq<char>, error: SenseiError) -> bool {
        self.model().may_refuse(prompt, error)
    }

    /// Whether the model may leave `query` without a choice: it may fail on
    /// the decision prompt, or a reply that it may give holds no choice.
    pub open spec fn may_decide_nothing(&self, query: Seq<char>) -> bool {
        ||| (exists|error: SenseiError| #[trigger]
            self.model_may_refuse(self.prompt_for(query), error))
        ||| (exists|reply: Seq<char>| #[trigger]
            self.model_may_say(self.prompt_for(query), reply) && call_of_reply(reply) is None)
    }

    /// The prompt that the model gets for `query`.
    pub open spec fn prompt_for(&self, query: Seq<char>) -> Seq<char> {
        decision_prompt(listed(self.tool_names()), query)
    }

    /// Whether `output` is a report of a run of the tool at place `i` on
    /// `argument`: of what it returned, or of how it failed.
    pub open spec fn may_report_run(&self, i: int, argument: Seq<char>, output: Seq<char>) -> bool {
        ||| (exists|text: Seq<char>| #[trigger]
            self.tool_may_return(i, argument, text) && output == success_report(text))
        ||| (exists|message: Seq<char>| #[trigger]
            self.tool_may_fail(i, argument, message) && output == failure_report(message))
    }

    /// Whether `output` is an answer to the choice `call`: the refusal where
    /// no tool was chosen, a report of the chosen tool's run where it is
    /// registered, else the word that it is missing.
    pub open spec fn may_answer_call(&self, call: (Seq<char>, Seq<char>), output: Seq<char>) -> bool {
        if call.0 == "none"@ {
            output == refusal(call.1)
        } else {
            match self.place_of(call.0) {
                Some(i) => self.may_report_run(i, call.1, output),
                None => output == missing_tool(call.0),
            }
        }
    }

    /// Registers `tool` under its name, in place of any tool that had the
    /// name. The name then stands for `tool`, and every other name for what
    /// it stood for; the category and the model stay.
    pub fn register_tool(&mut self, tool: Box<dyn Tool>)
        ensures
            final(self).category_spec() == old(self).category_spec(),
            final(self).model() == old(self).model(),
            exists|shared: Arc<Box<dyn Tool>>|
                shared == tool && #[trigger] old(self).tool_set().with_tool(
                    tool.name_spec(),
                    shared,
                    final(self).tool_set(),
                ),
    {
        let name: String = String::from_str(tool.name());
        let ghost start = *self;
        let shared = Arc::new(tool);
        let ghost held = shared;
        self.tools.insert(name, shared);
        assert(held == tool);
        assert(start.tool_set().with_tool(tool.name_spec(), held, self.tool_set()));
    }

    /// The names of the registered tools, with `", "` between them.
    fn tools_list(&self) -> (r: String)
        ensures
            r@ == listed(self.tool_names()),
    {
        let mut r = String::new();
        let n: usize = self.tools.len();
        let mut i: usize = 0;
        while i < n
            invariant
                i <= n,
                n == self.tool_names().len(),
                r@ == listed(self.tool_names().subrange(0, i as int)),
            decreases n - i,
        {
            let name = self.tools.name_at(i);
            proof {
                let next = self.tool_names().subrange(0, i + 1);
                assert(next.drop_last() =~= self.tool_names().subrange(0, i as int));
                assert(next.last() == name@);
                if i == 0 {
                    assert(next[0] == name@);
                    assert(r@ + name@ =~= name@);
                }
            }
            if i > 0 {
                r.append(", ");
            }
            r.append(name);
            i += 1;
        }
        assert(self.tool_names().subrange(0, n as int) =~= self.tool_names());
        r
    }

    /// Asks the model which tool to run for `query`. The choice is the one
    /// that the model's reply to the decision prompt holds. Nothing comes
    /// back where the model fails or its reply holds no choice, and only
    /// there.
    pub fn decide_tool(&self, query: &str) -> (r: Option<ToolCall>)
        ensures
            match r {
                Some(call) => exists|reply: Seq<char>| #[trigger]
                    self.model_may_say(self.prompt_for(query@), reply) && call_of_reply(reply)
                        == Some(call@),
                None => self.may_decide_nothing(query@),
            },
    {
        let mut prompt = String::from_str(
            "            You are an autonomous Action Agent.\n            Available Tools: [",
        );
        prompt.append(self.tools_list().as_str());
        prompt.append(
            "] \n            Task: Analyze the user request and decide which tool to execute.\n            User Request: \"",
        );
        prompt.append(query);
        prompt.append(
            "\"\n            Rules:\n            - If the request matches a tool capability, output JSON: {'tool_name': 'name', 'argument': 'value'}\n            - Tool \"nmap\": argument must be a target (IP/Host) e.g. \"127.0.0.1\".\n            - Tool \"system_diagnostic\": argument must be one of: \"uptime\", \"disk\", \"memory\", \"whoami\", \"date\".\n            - If NO tool matches or arguments are ambiguous, return JSON: {'tool_name': 'none', 'argument': 'reason'}\n\n            Output strictly JSON.\n            ",
        );
        match self.llm.generate(prompt.as_str()) {
            Ok(reply) => {
                let r = read_tool_call(reply.as_str());
                assert(self.model_may_say(self.prompt_for(query@), reply@));
                r
            },
            Err(e) => {
                assert(self.model_may_refuse(self.prompt_for(query@), e));
                None
            },
        }
    }
}

impl Agent for ToolExecutorAgent {
    closed spec fn category_spec(&self) -> Seq<char> {
        self.category@
    }

    /// An answer to a choice that the model may make for the input, or,
    /// where the model may leave the input without a choice, the fixed answer
    /// of a failed decision.
    open spec fn may_reply(&self, input: Seq<char>, output: Seq<char>) -> bool {
        ||| (output == decision_failed() && self.may_decide_nothing(input))
        ||| (exists|reply: Seq<char>| #[trigger]
            self.model_may_say(self.prompt_for(input), reply) && call_of_reply(reply) is Some
                && self.may_answer_call(call_of_reply(reply)->0, output))
    }

    fn process(&self, input: &str) -> (output: String) {
        let call = match self.decide_tool(input) {
            Some(call) => call,
            None => {
                return String::from_str(
                    "Error: Failed to process action request (LLM Decision Failed).",
                );
            },
        };
        if same_text(call.tool_name.as_str(), "none") {
            return String::from_str("I cannot perform this action: ").concat(
                call.argument.as_str(),
            );
        }
        match self.tools.position(call.tool_name.as_str()) {
            Some(i) => {
                let result = self.tools.run(i, call.argument.as_str());
                let output = report_run(&result);
                proof {
                    if result is Ok {
                        assert(self.tool_may_return(i as int, call@.1, result->Ok_0@));
                    } else {
                        assert(self.tool_may_fail(i as int, call@.1, result->Err_0.message_spec()));
                    }
                    assert(self.may_report_run(i as int, call@.1, output@));
                }
                output
            },
            None => {
                let mut m = String::from_str("Error: Tool '");
                m.append(call.tool_name.as_str());
                m.append("' selected by AI is not found in registry.");
                m
            },
        }
    }

    fn category(&self) -> (c: AgentCategory) {
        self.category.clone()
    }
}

} // verus!
