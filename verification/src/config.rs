//! Configuration as the library reads it: prompts by agent, tool providers
//! by name, and what a change of the providers' list asks for.

use vstd::prelude::*;
use vstd::string::StringExecFns;
use crate::text::{same_text, to_uppercase, uppercase_of};

verus! {

/// The configuration of one agent.
#[derive(Debug)]
pub struct AgentConfig {
    pub prompt: String,
}

/// The prompts, by the key of the agent. Where a key occurs twice, the
/// first entry counts.
#[derive(Debug)]
pub struct PromptsConfig {
    pub agents: Vec<(String, AgentConfig)>,
}

/// How to start one tool provider.
#[derive(Debug)]
pub struct McpServerConfig {
    pub command: String,
    pub args: Vec<String>,
    pub env: Option<Vec<(String, String)>>,
}

/// The tool providers, by name.
#[derive(Debug)]
pub struct McpSettings {
    pub mcp_servers: Vec<(String, McpServerConfig)>,
}

/// The prompt of the first entry of `agents` at or after `i` under `key`.
pub open spec fn prompt_in(agents: Seq<(String, AgentConfig)>, key: Seq<char>, i: int) -> Option<
    Seq<char>,
>
    decreases agents.len() - i,
{
    if i < 0 || i >= agents.len() {
        None
    } else if agents[i].0@ == key {
        Some(agents[i].1.prompt@)
    } else {
        prompt_in(agents, key, i + 1)
    }
}

impl PromptsConfig {
    /// The prompt configured under `key`, if there is one.
    pub open spec fn prompt_of(&self, key: Seq<char>) -> Option<Seq<char>> {
        prompt_in(self.agents@, key, 0)
    }

    /// The prompt configured under `key`, if there is one.
    pub fn get(&self, key: &str) -> (r: Option<String>)
        ensures
            match r {
                Some(p) => self.prompt_of(key@) == Some(p@),
                None => self.prompt_of(key@) is None,
            },
    {
        let mut i: usize = 0;
        while i < self.agents.len()
            invariant
                i <= self.agents.len(),
                self.prompt_of(key@) == prompt_in(self.agents@, key@, i as int),
            decreases self.agents.len() - i,
        {
            if same_text(self.agents[i].0.as_str(), key) {
                return Some(self.agents[i].1.prompt.clone());
            }
            i += 1;
        }
        None
    }
}

/// The prompt for the agent `key`: the configured one, else `default`.
/// Without a configuration every agent gets its default.
pub fn prompt_or(config: &Option<PromptsConfig>, key: &str, default: &str) -> (r: String)
    ensures
        r@ == match config {
            Some(c) => match c.prompt_of(key@) {
                Some(p) => p,
                None => default@,
            },
            None => default@,
        },
{
    match config {
        Some(c) => match c.get(key) {
            Some(p) => p,
            None => String::from_str(default),
        },
        None => String::from_str(default),
    }
}

/// Whether `name` stands in `names`.
pub open spec fn listed(names: Seq<String>, name: Seq<char>) -> bool {
    exists|i: int| 0 <= i < names.len() && (#[trigger] names[i])@ == name
}

/// Whether the upper-case form of some name in `names` is `upper`.
pub open spec fn listed_upper(names: Seq<String>, upper: Seq<char>) -> bool {
    exists|i: int| 0 <= i < names.len() && uppercase_of((#[trigger] names[i])@) == upper
}

/// Whether `name` stands in `names`.
pub fn is_listed(names: &Vec<String>, name: &str) -> (b: bool)
    ensures
        b == listed(names@, name@),
{
    let mut i: usize = 0;
    while i < names.len()
        invariant
            i <= names.len(),
            forall|j: int| 0 <= j < i ==> (#[trigger] names@[j])@ != name@,
        decreases names.len() - i,
    {
        if same_text(names[i].as_str(), name) {
            return true;
        }
        i += 1;
    }
    false
}

/// Whether the upper-case form of some name in `names` is `upper`.
pub fn is_listed_upper(names: &Vec<String>, upper: &str) -> (b: bool)
    ensures
        b == listed_upper(names@, upper@),
{
    let mut i: usize = 0;
    while i < names.len()
        invariant
            i <= names.len(),
            forall|j: int| 0 <= j < i ==> uppercase_of((#[trigger] names@[j])@) != upper@,
        decreases names.len() - i,
    {
        if same_text(to_uppercase(names[i].as_str()).as_str(), upper) {
            return true;
        }
        i += 1;
    }
    false
}

/// The texts that `names` holds.
pub open spec fn texts_of(names: Seq<String>) -> Seq<Seq<char>> {
    names.map_values(|s: String| s@)
}

/// Whether a known name is no longer configured.
pub open spec fn gone_from(configured: Seq<String>) -> spec_fn(Seq<char>) -> bool {
    |name: Seq<char>| !listed_upper(configured, name)
}

/// Whether a configured name is not known yet.
pub open spec fn new_to(known: Seq<String>) -> spec_fn(Seq<char>) -> bool {
    |name: Seq<char>| !listed(known, uppercase_of(name))
}

/// The providers to stop after a change of the configuration: the known
/// ones, in their order, that the configuration no longer names. `known`
/// holds names in upper case; a configured name counts by its upper-case
/// form.
pub fn providers_to_remove(known: &Vec<String>, configured: &Vec<String>) -> (r: Vec<String>)
    ensures
        texts_of(r@) == texts_of(known@).filter(gone_from(configured@)),
{
    let mut r: Vec<String> = Vec::new();
    let mut i: usize = 0;
    assert(texts_of(known@.subrange(0, 0)) =~= Seq::<Seq<char>>::empty());
    assert(texts_of(r@) =~= Seq::<Seq<char>>::empty());
    while i < known.len()
        invariant
            i <= known.len(),
            texts_of(r@) == texts_of(known@.subrange(0, i as int)).filter(gone_from(configured@)),
        decreases known.len() - i,
    {
        let ghost kept = texts_of(r@);
        proof {
            let head = texts_of(known@.subrange(0, i as int));
            let next = texts_of(known@.subrange(0, i + 1));
            assert(next.drop_last() =~= head);
            assert(next.last() == known[i as int]@);
            reveal(Seq::filter);
        }
        if !is_listed_upper(configured, known[i].as_str()) {
            r.push(known[i].clone());
            assert(texts_of(r@) =~= kept.push(known[i as int]@));
        }
        i += 1;
    }
    assert(known@.subrange(0, known.len() as int) =~= known@);
    r
}

/// The providers to start after a change of the configuration: the
/// configured ones, in their order, whose upper-case form is not known.
pub fn providers_to_add(known: &Vec<String>, configured: &Vec<String>) -> (r: Vec<String>)
    ensures
        texts_of(r@) == texts_of(configured@).filter(new_to(known@)),
{
    let mut r: Vec<String> = Vec::new();
    let mut i: usize = 0;
    assert(texts_of(configured@.subrange(0, 0)) =~= Seq::<Seq<char>>::empty());
    assert(texts_of(r@) =~= Seq::<Seq<char>>::empty());
    while i < configured.len()
        invariant
            i <= configured.len(),
            texts_of(r@) == texts_of(configured@.subrange(0, i as int)).filter(new_to(known@)),
        decreases configured.len() - i,
    {
        let ghost kept = texts_of(r@);
        proof {
            let head = texts_of(configured@.subrange(0, i as int));
            let next = texts_of(configured@.subrange(0, i + 1));
            assert(next.drop_last() =~= head);
            assert(next.last() == configured[i as int]@);
            reveal(Seq::filter);
        }
        let upper = to_uppercase(configured[i].as_str());
        if !is_listed(known, upper.as_str()) {
            r.push(configured[i].clone());
            assert(texts_of(r@) =~= kept.push(configured[i as int]@));
        }
        i += 1;
    }
    assert(configured@.subrange(0, configured.len() as int) =~= configured@);
    r
}

} // verus!
