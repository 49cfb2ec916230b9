//! The specialist: a handler that puts its own prompt before the input and
//! lets the language model answer.

use std::sync::Arc;
use vstd::prelude::*;
use vstd::string::StringExecFns;
use crate::agents::Agent;
use crate::common::{category_name, AgentCategory};
use crate::errors::SenseiError;
use crate::llm::Llm;
use crate::text::{chars_of, contains, has};

verus! {

/// A handler backed by the language model.
pub struct SpecializedAgent {
    llm: Arc<Box<dyn Llm>>,
    category: AgentCategory,
    system_prompt: String,
    master_prompt: Option<String>,
}

/// The answer of a specialist whose model failed.
pub open spec fn failure_reply() -> Seq<char> {
    "I encountered an error processing your request."@
}

/// The answer for what the model gave: its text, or the fixed answer of a
/// failure.
pub fn answer(result: Result<String, SenseiError>) -> (output: String)
    ensures
        output@ == match result {
            Ok(reply) => reply@,
            Err(_) => failure_reply(),
        },
{
    match result {
        Ok(reply) => reply,
        Err(_) => String::from_str("I encountered an error processing your request."),
    }
}

impl SpecializedAgent {
    /// A specialist of `category` that answers with `llm` under
    /// `system_prompt`, and under `master_prompt` where raw mode is asked for
    /// and such a prompt is given.
    pub fn new(
        llm: Arc<Box<dyn Llm>>,
        category: AgentCategory,
        system_prompt: &str,
        master_prompt: Option<String>,
    ) -> (a: Self)
        ensures
            a.model() == llm,
            a.category_spec() == category@,
            a.system_prompt() == system_prompt@,
            a.master_prompt() == match master_prompt {
                Some(p) => Some(p@),
                None => None,
            },
    {
        SpecializedAgent {
            llm,
            category,
            system_prompt: String::from_str(system_prompt),
            master_prompt,
        }
    }

    /// The language model service that the specialist asks.
    pub closed spec fn model(&self) -> Arc<Box<dyn Llm>> {
        self.llm
    }

    /// The prompt of the specialist.
    pub closed spec fn system_prompt(&self) -> Seq<char> {
        self.system_prompt@
    }

    /// The prompt of the specialist in raw mode, if it has one.
    pub closed spec fn master_prompt(&self) -> Option<Seq<char>> {
        match self.master_prompt {
            Some(p) => Some(p@),
            None => None,
        }
    }

    /// Whether `reply` is a text that the specialist's model may generate
    /// for `prompt`, without its filters if `raw`.
    pub open spec fn model_may_say(&self, raw: bool, prompt: Seq<char>, reply: Seq<char>) -> bool {
        if raw {
            self.model().may_generate_raw(prompt, reply) || self.model().may_generate(prompt, reply)
        } else {
            self.model().may_generate(prompt, reply)
        }
    }

    /// Whether the specialist's model may fail on `prompt` with `error`,
    /// without its filters if `raw`.
    pub open spec fn model_may_refuse(&self, raw: bool, prompt: Seq<char>, error: SenseiError) -> bool {
        if raw {
            self.model().may_refuse_raw(prompt, error) || self.model().may_refuse(prompt, error)
        } else {
            self.model().may_refuse(prompt, error)
        }
    }

    /// Whether the model may fail on the prompt for `input`.
    pub open spec fn model_may_fail(&self, input: Seq<char>) -> bool {
        exists|error: SenseiError| #[trigger]
            self.model_may_refuse(self.unfiltered(input), self.prompt_for(input), error)
    }

    /// The input asks for raw mode.
    pub open spec fn raw_mode(input: Seq<char>) -> bool {
        has(input, "--raw"@)
    }

    /// The model is asked without its filters: raw mode, for the red
    /// category only.
    pub open spec fn unfiltered(&self, input: Seq<char>) -> bool {
        Self::raw_mode(input) && self.category_spec() == category_name("red"@)
    }

    /// The prompt that the model gets for `input`.
    pub open spec fn prompt_for(&self, input: Seq<char>) -> Seq<char> {
        (if Self::raw_mode(input) && self.master_prompt() is Some {
            self.master_prompt()->0
        } else {
            self.system_prompt()
        }) + "\n\nUser Query: "@ + input
    }
}

impl Agent for SpecializedAgent {
    closed spec fn category_spec(&self) -> Seq<char> {
        self.category@
    }

    /// What the model may say to the specialist's prompt for the input, or,
    /// where the model may fail on that prompt, the fixed answer of a
    /// failure.
    open spec fn may_reply(&self, input: Seq<char>, output: Seq<char>) -> bool {
        ||| (output == failure_reply() && self.model_may_fail(input))
        ||| self.model_may_say(self.unfiltered(input), self.prompt_for(input), output)
    }

    fn process(&self, input: &str) -> (output: String) {
        let is_raw: bool = contains(&chars_of(input), &chars_of("--raw"));
        let mut prompt: String = match &self.master_prompt {
            Some(master) => {
                if is_raw {
                    master.clone()
                } else {
                    self.system_prompt.clone()
                }
            },
            None => self.system_prompt.clone(),
        };
        prompt.append("\n\nUser Query: ");
        prompt.append(input);
        let red = AgentCategory::new("red");
        let result = if is_raw && self.category.same_as(&red) {
            self.llm.generate_raw(prompt.as_str())
        } else {
            self.llm.generate(prompt.as_str())
        };
        proof {
            if result is Err {
                assert(self.model_may_refuse(
                    self.unfiltered(input@),
                    self.prompt_for(input@),
                    result->Err_0,
                ));
            }
        }
        answer(result)
    }

    fn category(&self) -> (c: AgentCategory) {
        self.category.clone()
    }
}

} // verus!
