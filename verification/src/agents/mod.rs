//! Handlers and the registry that dispatches to them.
//!
//! A handler answers text with text and serves one category. The
//! `Orchestrator` keeps at most one handler per category and dispatches an
//! input to the handler of a category. A handler may answer with a
//! delegation directive; the dispatcher then asks the named handler, appends
//! what it said to the original input as an observation, and asks the first
//! handler again. Every turn lowers the depth that is left, so a dispatch
//! ends.

pub mod action;
pub mod directive;
pub mod mcp_agent;
pub mod router;
pub mod specialists;

use std::sync::Arc;
use vstd::prelude::*;
use vstd::string::StringExecFns;
use crate::agents::directive::{
    observation_input, observation_input_spec, parse_directive, parse_spec, resolve_target,
    target_category, Step, StepModel,
};
use crate::common::{category_name, AgentCategory};
use crate::text::{debug_form, debug_string, has, occurs_at};

verus! {

/// A unit of behaviour that answers an input and serves one category.
pub trait Agent: Send + Sync {
    /// The name of the category that the handler serves. A handler that
    /// says nothing of it serves some fixed category.
    open spec fn category_spec(&self) -> Seq<char> {
        arbitrary()
    }

    /// Whether `output` is an answer that the handler may give to `input`.
    /// A handler that says nothing of it may give any answer.
    open spec fn may_reply(&self, input: Seq<char>, output: Seq<char>) -> bool {
        true
    }

    /// Answers `input`. A failure inside the handler is part of the answer.
    fn process(&self, input: &str) -> (output: String)
        ensures
            self.may_reply(input@, output@),
    ;

    /// The category that the handler serves.
    fn category(&self) -> (c: AgentCategory)
        ensures
            c@ == self.category_spec(),
    ;
}

/// How many turns a dispatch may take along one chain of delegations.
pub const MAX_DELEGATION_DEPTH: u8 = 3;

/// The name of the category whose handler answers for a category that has
/// none.
pub open spec fn default_category_name() -> Seq<char> {
    category_name("casual"@)
}

/// The answer of a dispatch that has no depth left.
pub open spec fn limit_message() -> Seq<char> {
    "Error: Agent recursion limit reached (A2A loop detected)."@
}

/// The answer of a dispatch that finds neither a handler for `category` nor
/// one for the default category.
pub open spec fn no_agent_message(category: Seq<char>) -> Seq<char> {
    "No agent found for category AgentCategory("@ + debug_form(category)
        + ") and Casual fallback missing"@
}

/// The category whose handler answers for `category`: itself, else the
/// default category, else none.
pub open spec fn resolve(reg: Map<Seq<char>, Arc<Box<dyn Agent>>>, category: Seq<char>) -> Option<
    Seq<char>,
> {
    if reg.contains_key(category) {
        Some(category)
    } else if reg.contains_key(default_category_name()) {
        Some(default_category_name())
    } else {
        None
    }
}

/// Whether `out` is an answer that a dispatch of `input` to `category` may
/// give when `depth` turns are left.
pub open spec fn outcome(
    reg: Map<Seq<char>, Arc<Box<dyn Agent>>>,
    category: Seq<char>,
    input: Seq<char>,
    depth: nat,
    out: Seq<char>,
) -> bool
    decreases depth, 1int,
{
    if depth == 0 {
        out == limit_message()
    } else {
        match resolve(reg, category) {
            None => out == no_agent_message(category),
            Some(served) => exists|response: Seq<char>| #[trigger]
                reg[served].may_reply(input, response) && continues(
                    reg,
                    category,
                    input,
                    depth,
                    response,
                    out,
                ),
        }
    }
}

/// Whether `out` is an answer that the dispatch may give once the handler of
/// `category` has answered `input` with `response`.
pub open spec fn continues(
    reg: Map<Seq<char>, Arc<Box<dyn Agent>>>,
    category: Seq<char>,
    input: Seq<char>,
    depth: nat,
    response: Seq<char>,
    out: Seq<char>,
) -> bool
    decreases depth, 0int,
{
    match parse_spec(response) {
        StepModel::Final { text } => out == text,
        StepModel::Delegate { target, payload } => depth > 0 && exists|observation: Seq<char>|
            outcome(reg, target_category(target), payload, (depth - 1) as nat, observation)
                && outcome(
                reg,
                category,
                #[trigger] observation_input_spec(input, target, observation),
                (depth - 1) as nat,
                out,
            ),
    }
}

/// A dispatch whose handler delegates may give what the second turn gives.
proof fn lemma_delegated(
    reg: Map<Seq<char>, Arc<Box<dyn Agent>>>,
    category: Seq<char>,
    input: Seq<char>,
    depth: nat,
    response: Seq<char>,
    observation: Seq<char>,
    out: Seq<char>,
)
    requires
        depth > 0,
        parse_spec(response) is Delegate,
        outcome(
            reg,
            target_category(parse_spec(response)->target),
            parse_spec(response)->payload,
            (depth - 1) as nat,
            observation,
        ),
        outcome(
            reg,
            category,
            observation_input_spec(input, parse_spec(response)->target, observation),
            (depth - 1) as nat,
            out,
        ),
    ensures
        continues(reg, category, input, depth, response, out),
{
}

/// An answer without a directive is the answer of the dispatch: where the
/// handler that answers for `category` may give `response` to `input`, and
/// `response` is final, the dispatch may give `response`.
pub proof fn law_final_answer(
    reg: Map<Seq<char>, Arc<Box<dyn Agent>>>,
    category: Seq<char>,
    input: Seq<char>,
    depth: nat,
    response: Seq<char>,
)
    requires
        depth > 0,
        resolve(reg, category) is Some,
        reg[resolve(reg, category)->0].may_reply(input, response),
        parse_spec(response) == (StepModel::Final { text: response }),
    ensures
        outcome(reg, category, input, depth, response),
{
    assert(continues(reg, category, input, depth, response, response));
}

/// An answer with a directive sends the payload to the target and brings
/// the handler back: where the handler that answers for `category` may give
/// `response` to `input`, `response` delegates, the dispatch of the payload
/// to the target with one turn less may give `observation`, and the dispatch
/// to `category` of the input with that observation, also with one turn
/// less, may give `out`, the dispatch may give `out`.
pub proof fn law_delegation(
    reg: Map<Seq<char>, Arc<Box<dyn Agent>>>,
    category: Seq<char>,
    input: Seq<char>,
    depth: nat,
    response: Seq<char>,
    observation: Seq<char>,
    out: Seq<char>,
)
    requires
        depth > 0,
        resolve(reg, category) is Some,
        reg[resolve(reg, category)->0].may_reply(input, response),
        parse_spec(response) is Delegate,
        outcome(
            reg,
            target_category(parse_spec(response)->target),
            parse_spec(response)->payload,
            (depth - 1) as nat,
            observation,
        ),
        outcome(
            reg,
            category,
            observation_input_spec(input, parse_spec(response)->target, observation),
            (depth - 1) as nat,
            out,
        ),
    ensures
        outcome(reg, category, input, depth, out),
{
    lemma_delegated(reg, category, input, depth, response, observation, out);
}

/// With no depth left a dispatch gives the message of the limit, whatever
/// the registry holds: no handler's answer enters into it.
pub proof fn law_depth_zero(
    reg: Map<Seq<char>, Arc<Box<dyn Agent>>>,
    category: Seq<char>,
    input: Seq<char>,
    out: Seq<char>,
)
    requires
        outcome(reg, category, input, 0, out),
    ensures
        out == limit_message(),
{
}

/// A dispatch to a category that has no handler, in a registry that has none
/// for the default category either, gives a message that holds the category
/// and the words that no fallback was there.
pub proof fn law_missing_handler(
    reg: Map<Seq<char>, Arc<Box<dyn Agent>>>,
    category: Seq<char>,
    input: Seq<char>,
    depth: nat,
    out: Seq<char>,
)
    requires
        depth > 0,
        !reg.contains_key(category),
        !reg.contains_key(default_category_name()),
        outcome(reg, category, input, depth, out),
    ensures
        out == no_agent_message(category),
        has(out, debug_form(category)),
        has(out, "fallback missing"@),
{
    let head = "No agent found for category AgentCategory("@;
    let name = debug_form(category);
    let tail = ") and Casual fallback missing"@;
    reveal_strlit(") and Casual fallback missing");
    reveal_strlit("fallback missing");
    assert(out == head + name + tail);
    assert(out.subrange(head.len() as int, (head.len() + name.len()) as int) =~= name);
    assert(occurs_at(out, name, head.len() as int));
    let at: int = (head.len() + name.len() + 13) as int;
    assert(out.subrange(at, at + 16) =~= "fallback missing"@);
    assert(occurs_at(out, "fallback missing"@, at));
}

/// Whether `after` is the registry `before` with `handler` registered for
/// `category`: the category holds the handler, and every other category
/// holds what it held.
pub open spec fn registered(
    before: Map<Seq<char>, Arc<Box<dyn Agent>>>,
    category: Seq<char>,
    handler: Arc<Box<dyn Agent>>,
    after: Map<Seq<char>, Arc<Box<dyn Agent>>>,
) -> bool {
    after == before.insert(category, handler)
}

/// After a handler is registered for a category, a lookup of the category
/// finds that handler and every other category is as it was; after the
/// category is unregistered, a lookup finds nothing.
pub proof fn law_register_lookup_unregister(
    before: Map<Seq<char>, Arc<Box<dyn Agent>>>,
    category: Seq<char>,
    handler: Arc<Box<dyn Agent>>,
    after: Map<Seq<char>, Arc<Box<dyn Agent>>>,
)
    requires
        registered(before, category, handler, after),
    ensures
        after.contains_key(category),
        after[category] == handler,
        forall|other: Seq<char>|
            other != category ==> (after.contains_key(other) == before.contains_key(other)) && (
            before.contains_key(other) ==> after[other] == before[other]),
        !after.remove(category).contains_key(category),
{
}

/// Registering the same handler for the same category a second time changes
/// nothing.
pub proof fn law_register_twice(
    before: Map<Seq<char>, Arc<Box<dyn Agent>>>,
    category: Seq<char>,
    handler: Arc<Box<dyn Agent>>,
    once: Map<Seq<char>, Arc<Box<dyn Agent>>>,
    twice: Map<Seq<char>, Arc<Box<dyn Agent>>>,
)
    requires
        registered(before, category, handler, once),
        registered(once, category, handler, twice),
    ensures
        twice == once,
{
    assert(before.insert(category, handler).insert(category, handler) =~= before.insert(
        category,
        handler,
    ));
}

/// A delegation that ends after one round: the handler that answers for
/// `category` delegates `input` to a target, the target's handler answers the
/// payload with `observation`, and the first handler answers the input with
/// that observation appended with `out`, neither answer holding a directive.
/// Then a dispatch with two turns or more may give `out`, and the input of
/// the second turn holds the observation block, named by the target token as
/// written, and the observation itself.
pub proof fn law_delegation_round(
    reg: Map<Seq<char>, Arc<Box<dyn Agent>>>,
    category: Seq<char>,
    input: Seq<char>,
    depth: nat,
    response: Seq<char>,
    observation: Seq<char>,
    out: Seq<char>,
)
    requires
        depth >= 2,
        resolve(reg, category) is Some,
        reg[resolve(reg, category)->0].may_reply(input, response),
        parse_spec(response) is Delegate,
        resolve(reg, target_category(parse_spec(response)->target)) is Some,
        reg[resolve(reg, target_category(parse_spec(response)->target))->0].may_reply(
            parse_spec(response)->payload,
            observation,
        ),
        parse_spec(observation) is Final,
        reg[resolve(reg, category)->0].may_reply(
            observation_input_spec(input, parse_spec(response)->target, observation),
            out,
        ),
        parse_spec(out) is Final,
    ensures
        outcome(reg, category, input, depth, out),
        has(
            observation_input_spec(input, parse_spec(response)->target, observation),
            "[OBSERVATION from "@ + parse_spec(response)->target + "]"@,
        ),
        has(
            observation_input_spec(input, parse_spec(response)->target, observation),
            observation,
        ),
{
    let token = parse_spec(response)->target;
    let payload = parse_spec(response)->payload;
    let second = observation_input_spec(input, token, observation);
    let left = (depth - 1) as nat;
    law_final_answer(reg, target_category(token), payload, left, observation);
    law_final_answer(reg, category, second, left, out);
    law_delegation(reg, category, input, depth, response, observation, out);
    reveal_strlit("

[OBSERVATION from ");
    reveal_strlit("[OBSERVATION from ");
    reveal_strlit("]
");
    reveal_strlit("]");
    let block = "[OBSERVATION from "@ + token + "]"@;
    let at: int = (input.len() + 2) as int;
    assert(second.subrange(at, at + block.len()) =~= block);
    assert(occurs_at(second, block, at));
    let tail: int = second.len() - observation.len();
    assert(second.subrange(tail, tail + observation.len()) =~= observation);
    assert(occurs_at(second, observation, tail));
}

/// One entry of the registry.
struct Registration {
    category: AgentCategory,
    agent: Arc<Box<dyn Agent>>,
}

/// The capability registry and the dispatcher over it.
pub struct Orchestrator {
    agents: Vec<Registration>,
}

impl View for Orchestrator {
    type V = Map<Seq<char>, Arc<Box<dyn Agent>>>;

    /// The handler of each category that has one.
    closed spec fn view(&self) -> Map<Seq<char>, Arc<Box<dyn Agent>>> {
        Map::new(
            |k: Seq<char>| exists|i: int| 0 <= i < self.agents.len() && self.agents[i].category@ == k,
            |k: Seq<char>| self.agents[choose|i: int| 0 <= i < self.agents.len() && self.agents[i].category@ == k].agent,
        )
    }
}

impl Orchestrator {
    /// The registry is well formed: no category occurs twice in it.
    pub closed spec fn wf(self) -> bool {
        forall|i: int, j: int|
            0 <= i < j < self.agents.len() ==> self.agents[i].category@ != self.agents[j].category@
    }

    /// The view at the category of entry `i` is the handler of entry `i`.
    proof fn lemma_view_at(self, i: int)
        requires
            self.wf(),
            0 <= i < self.agents.len(),
        ensures
            self@.contains_key(self.agents[i].category@),
            self@[self.agents[i].category@] == self.agents[i].agent,
    {
        let k = self.agents[i].category@;
        let j = choose|j: int| 0 <= j < self.agents.len() && self.agents[j].category@ == k;
        assert(j == i);
    }

    /// A registry without handlers.
    pub fn new() -> (o: Self)
        ensures
            o.wf(),
            o@ == Map::<Seq<char>, Arc<Box<dyn Agent>>>::empty(),
    {
        let o = Orchestrator { agents: Vec::new() };
        assert(o@ =~= Map::<Seq<char>, Arc<Box<dyn Agent>>>::empty());
        o
    }

    /// Where the entry of `category` stands, if there is one.
    fn position(&self, category: &AgentCategory) -> (r: Option<usize>)
        ensures
            match r {
                Some(i) => i < self.agents.len() && self.agents[i as int].category@ == category@,
                None => forall|j: int|
                    0 <= j < self.agents.len() ==> self.agents[j].category@ != category@,
            },
    {
        let mut i: usize = 0;
        while i < self.agents.len()
            invariant
                i <= self.agents.len(),
                forall|j: int| 0 <= j < i ==> self.agents[j].category@ != category@,
            decreases self.agents.len() - i,
        {
            if self.agents[i].category.same_as(category) {
                return Some(i);
            }
            i += 1;
        }
        None
    }

    /// Makes `agent` the handler of its category, in place of any handler
    /// that the category had. Every other category keeps what it has.
    pub fn register(&mut self, agent: Box<dyn Agent>)
        requires
            old(self).wf(),
        ensures
            final(self).wf(),
            exists|handler: Arc<Box<dyn Agent>>|
                handler == agent && #[trigger] registered(
                    old(self)@,
                    agent.category_spec(),
                    handler,
                    final(self)@,
                ),
    {
        let handler = Arc::new(agent);
        let ghost shared = handler;
        let ghost before = self@;
        self.register_shared(handler);
        assert(registered(before, agent.category_spec(), shared, self@));
    }

    /// Makes the shared handler `handler` the handler of its category, in
    /// place of any handler that the category had. Every other category
    /// keeps what it has. A handler that a lookup found can be registered
    /// again, here or in another registry.
    pub fn register_shared(&mut self, handler: Arc<Box<dyn Agent>>)
        requires
            old(self).wf(),
        ensures
            final(self).wf(),
            registered(old(self)@, handler.category_spec(), handler, final(self)@),
    {
        let category = handler.category();
        let ghost key = category@;
        let ghost before = *self;
        let found = self.position(&category);
        let ghost shared = handler;
        let entry = Registration { category, agent: handler };
        match found {
            Some(i) => {
                self.agents[i] = entry;
            },
            None => {
                self.agents.push(entry);
            },
        }
        proof {
            let after = *self;
            assert(after.wf());
            assert forall|k: Seq<char>| after@.contains_key(k) <==> before@.insert(
                key,
                shared,
            ).contains_key(k) by {
                if before@.contains_key(k) {
                    let j = choose|j: int|
                        0 <= j < before.agents.len() && before.agents[j].category@ == k;
                    assert(after.agents[j].category@ == k);
                }
                if k == key {
                    let j = match found {
                        Some(i) => i as int,
                        None => before.agents.len() as int,
                    };
                    assert(after.agents[j].category@ == k);
                }
            }
            assert forall|k: Seq<char>| after@.contains_key(k) implies after@[k] == before@.insert(
                key,
                shared,
            )[k] by {
                let j = choose|j: int| 0 <= j < after.agents.len() && after.agents[j].category@ == k;
                after.lemma_view_at(j);
                if k != key {
                    before.lemma_view_at(j);
                }
            }
            assert(after@ =~= before@.insert(key, shared));
        }
    }

    /// Takes the handler of `category` out of the registry, if it has one.
    pub fn unregister(&mut self, category: &AgentCategory)
        requires
            old(self).wf(),
        ensures
            final(self).wf(),
            final(self)@ == old(self)@.remove(category@),
    {
        let ghost before = *self;
        match self.position(category) {
            Some(i) => {
                self.agents.remove(i);
                proof {
                    let after = *self;
                    assert(after.wf());
                    assert forall|k: Seq<char>| after@.contains_key(k) <==> before@.remove(category@).contains_key(k) by {
                        if after@.contains_key(k) {
                            let j = choose|j: int| 0 <= j < after.agents.len() && after.agents[j].category@ == k;
                            let b = if j < i { j } else { j + 1 };
                            assert(before.agents[b].category@ == k);
                        }
                        if before@.contains_key(k) && k != category@ {
                            let j = choose|j: int| 0 <= j < before.agents.len() && before.agents[j].category@ == k;
                            let a = if j < i { j } else { j - 1 };
                            assert(after.agents[a].category@ == k);
                        }
                    }
                    assert forall|k: Seq<char>| after@.contains_key(k) implies after@[k] == before@.remove(category@)[k] by {
                        let j = choose|j: int| 0 <= j < after.agents.len() && after.agents[j].category@ == k;
                        let b = if j < i { j } else { j + 1 };
                        after.lemma_view_at(j);
                        before.lemma_view_at(b);
                    }
                    assert(after@ =~= before@.remove(category@));
                }
            },
            None => {
                assert(self@ =~= before@.remove(category@));
            },
        }
    }

    /// The handler of `category`, shared with the registry, if it has one.
    pub fn lookup(&self, category: &AgentCategory) -> (r: Option<Arc<Box<dyn Agent>>>)
        requires
            self.wf(),
        ensures
            match r {
                Some(h) => self@.contains_key(category@) && h == self@[category@],
                None => !self@.contains_key(category@),
            },
    {
        match self.position(category) {
            Some(i) => {
                proof {
                    self.lemma_view_at(i as int);
                }
                Some(self.agents[i].agent.clone())
            },
            None => None,
        }
    }

    /// Dispatches `input` to the handler of `category`, with the full depth.
    pub fn dispatch(&self, category: AgentCategory, input: &str) -> (out: String)
        requires
            self.wf(),
        ensures
            outcome(self@, category@, input@, MAX_DELEGATION_DEPTH as nat, out@),
    {
        self.dispatch_loop(category, input, MAX_DELEGATION_DEPTH)
    }

    /// Dispatches `input` to the handler of `category` with `depth` turns
    /// left.
    ///
    /// With no depth left the answer is the fixed message of the limit and no
    /// handler is asked. A category without a handler is answered by the
    /// handler of the default category; without that one too, by a message
    /// that names the category. Otherwise the handler is asked once. If its
    /// output holds a directive, the target is asked for the payload with one
    /// turn less, and the handler is asked again, also with one turn less, for
    /// the original input followed by the observation.
    pub fn dispatch_loop(&self, category: AgentCategory, input: &str, depth: u8) -> (out: String)
        requires
            self.wf(),
        ensures
            outcome(self@, category@, input@, depth as nat, out@),
        decreases depth,
    {
        if depth == 0 {
            return String::from_str("Error: Agent recursion limit reached (A2A loop detected).");
        }
        let fallback = AgentCategory::new("casual");
        let found = match self.lookup(&category) {
            Some(agent) => Some(agent),
            None => self.lookup(&fallback),
        };
        let agent = match found {
            Some(agent) => agent,
            None => {
                let mut out = String::from_str("No agent found for category AgentCategory(");
                out.append(debug_string(category.as_str()).as_str());
                out.append(") and Casual fallback missing");
                return out;
            },
        };
        assert(resolve(self@, category@) is Some && agent == self@[resolve(self@, category@)->0]);
        let response = agent.process(input);
        match parse_directive(response.as_str()) {
            Step::Final(text) => {
                assert(continues(self@, category@, input@, depth as nat, response@, text@));
                text
            },
            Step::Delegate { target, payload } => {
                let delegate = resolve_target(target.as_str());
                let observation = self.dispatch_loop(delegate, payload.as_str(), (depth - 1) as u8);
                let next = observation_input(input, target.as_str(), observation.as_str());
                let out = self.dispatch_loop(category, next.as_str(), (depth - 1) as u8);
                proof {
                    let left = (depth - 1) as nat;
                    assert(parse_spec(response@) == StepModel::Delegate {
                        target: target@,
                        payload: payload@,
                    });
                    assert(outcome(self@, target_category(target@), payload@, left, observation@));
                    assert(outcome(
                        self@,
                        category@,
                        observation_input_spec(input@, target@, observation@),
                        left,
                        out@,
                    ));
                    lemma_delegated(
                        self@,
                        category@,
                        input@,
                        depth as nat,
                        response@,
                        observation@,
                        out@,
                    );
                }
                out
            },
        }
    }
}

impl Default for Orchestrator {
    fn default() -> (o: Self)
        ensures
            o.wf(),
            o@ == Map::<Seq<char>, Arc<Box<dyn Agent>>>::empty(),
    {
        Orchestrator::new()
    }
}

} // verus!
