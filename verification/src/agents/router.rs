//! The router: from an input to the category that should handle it.
//!
//! Three tiers, each ending the search on a hit: fixed rules on the text,
//! the semantic cache, and a classification by the language model. The cache
//! is a store outside this library, so the tiers around it are two steps:
//! `classify_begin` says what to look up, `classify_finish` takes what was
//! found and says what to store.

use std::sync::Arc;
use vstd::prelude::*;
use vstd::string::StringExecFns;
use crate::common::{category_name, AgentCategory};
use crate::errors::SenseiError;
use crate::json::{
    candidate_of, field, json_candidate, json_parse, json_quoted, parse_value, quote,
    value_as_str, value_get, value_is_null, JsonModel,
};
use crate::llm::Llm;
use crate::text::{
    begins_with, chars_of, contains, has, is_numeric, lowercase_of, numeric, remove_char,
    starts_with, string_of, to_lowercase, without,
};

verus! {

/// Where an input goes, and the query to put to the handler there.
#[derive(Debug)]
pub struct RoutingDecision {
    pub category: AgentCategory,
    pub query: String,
}

impl View for RoutingDecision {
    type V = (Seq<char>, Seq<char>);

    /// The name of the category, then the query.
    open spec fn view(&self) -> (Seq<char>, Seq<char>) {
        (self.category@, self.query@)
    }
}

/// One routing decision as the semantic cache keeps it.
#[derive(Debug)]
pub struct CacheEntry {
    /// The input as it came.
    pub query_text: String,
    /// The category, as text.
    pub category: String,
    /// The query for the handler.
    pub enhanced_query: String,
    /// The embedding of the input.
    pub embedding: Vec<u32>,
}

/// What `classify_begin` found.
#[derive(Debug)]
pub enum ClassifyStep {
    /// The decision is made.
    Decided(RoutingDecision),
    /// Look the embedding up in the semantic cache, then go on with
    /// `classify_finish`.
    Lookup { embedding: Vec<u32> },
}

/// A decision, and what to add to the semantic cache for it.
#[derive(Debug)]
pub struct Classified {
    pub decision: RoutingDecision,
    pub store: Option<CacheEntry>,
}

/// A correction on its way to the semantic cache.
#[derive(Debug)]
pub struct Correction {
    /// The embedding of the corrected input.
    pub embedding: Vec<u32>,
    /// The right category, as text.
    pub category: String,
}

/// Some character of `s` is numeric.
pub open spec fn any_numeric(s: Seq<char>) -> bool {
    exists|i: int| 0 <= i < s.len() && numeric(#[trigger] s[i])
}

/// The input names the scanner, or begins with the word scan and holds a
/// number.
pub open spec fn asks_for_scan(input: Seq<char>) -> bool {
    has(lowercase_of(input), "nmap"@) || (begins_with(lowercase_of(input), "scan "@)
        && any_numeric(input))
}

/// The input holds one of the diagnostic commands.
pub open spec fn asks_for_diagnostic(input: Seq<char>) -> bool {
    let lower = lowercase_of(input);
    ||| has(lower, "uptime"@)
    ||| has(lower, "whoami"@)
    ||| has(lower, "df -h"@)
    ||| has(lower, "free -h"@)
    ||| has(lower, "check disk"@)
    ||| has(lower, "check memory"@)
    ||| has(lower, "check ram"@)
}

/// What the fixed rules decide for `input`, if they decide: the category,
/// and the input itself as the query.
pub open spec fn fast_path(input: Seq<char>) -> Option<(Seq<char>, Seq<char>)> {
    if asks_for_scan(input) {
        Some((category_name("action"@), input))
    } else if asks_for_diagnostic(input) {
        Some((category_name("system"@), input))
    } else {
        None
    }
}

/// The decision for an input that could not be classified.
pub open spec fn unknown_decision(input: Seq<char>) -> (Seq<char>, Seq<char>) {
    (category_name("unknown"@), input)
}

/// What a classification reply says, if it is well formed: the category as
/// written and the rephrased query, if any. A well-formed reply is an object
/// whose `category` is a string and whose `enhanced_query`, where it is there
/// and not `null`, is a string.
pub open spec fn routed(m: JsonModel) -> Option<(Seq<char>, Option<Seq<char>>)> {
    match field(m, "category"@) {
        Some(JsonModel::Text(c)) => match field(m, "enhanced_query"@) {
            None => Some((c, None)),
            Some(JsonModel::Null) => Some((c, None)),
            Some(JsonModel::Text(q)) => Some((c, Some(q))),
            _ => None,
        },
        _ => None,
    }
}

/// The decision that the model's `reply` makes for `input`, if the reply
/// holds a well-formed classification.
pub open spec fn decision_of_reply(input: Seq<char>, reply: Seq<char>) -> Option<
    (Seq<char>, Seq<char>),
> {
    match candidate_of(reply) {
        Some(c) => match json_parse(c) {
            Some(m) => match routed(m) {
                Some((category, Some(query))) => Some((category_name(category), query)),
                Some((category, None)) => Some((category_name(category), input)),
                None => None,
            },
            None => None,
        },
        None => None,
    }
}

/// The text under which the semantic cache keeps the category named `name`.
pub open spec fn cache_text(name: Seq<char>) -> Seq<char> {
    without(json_quoted(name), '"')
}

/// The category that the cached text `stored` stands for, if it stands for
/// one: `stored` between double quotes must be a JSON string.
pub open spec fn cached_category(stored: Seq<char>) -> Option<Seq<char>> {
    match json_parse(seq!['"'] + stored + seq!['"']) {
        Some(JsonModel::Text(name)) => Some(category_name(name)),
        _ => None,
    }
}

/// An input that names the scanner goes to the action category with the
/// input as the query, whatever the cache or the model would say: the fixed
/// rules decide before either is asked.
pub proof fn law_scanner_keyword(input: Seq<char>)
    requires
        has(lowercase_of(input), "nmap"@),
    ensures
        fast_path(input) == Some((category_name("action"@), input)),
{
}

/// An input that holds a diagnostic command, and asks for no scan, goes to
/// the system category with the input as the query.
pub proof fn law_diagnostic_keyword(input: Seq<char>, command: Seq<char>)
    requires
        !asks_for_scan(input),
        has(lowercase_of(input), command),
        command == "uptime"@ || command == "whoami"@ || command == "df -h"@ || command
            == "free -h"@ || command == "check disk"@ || command == "check memory"@ || command
            == "check ram"@,
    ensures
        fast_path(input) == Some((category_name("system"@), input)),
{
}

/// Whether some character of `s` is numeric.
fn has_numeric(s: &Vec<char>) -> (b: bool)
    ensures
        b == any_numeric(s@),
{
    let mut i: usize = 0;
    while i < s.len()
        invariant
            i <= s.len(),
            forall|j: int| 0 <= j < i ==> !numeric(#[trigger] s@[j]),
        decreases s.len() - i,
    {
        if is_numeric(s[i]) {
            return true;
        }
        i += 1;
    }
    false
}

/// Whether `pattern` stands in `lower`.
fn mentions(lower: &Vec<char>, pattern: &str) -> (b: bool)
    ensures
        b == has(lower@, pattern@),
{
    contains(lower, &chars_of(pattern))
}

/// Reads the model's `reply` to `input` for a classification.
pub fn read_reply(input: &str, reply: &str) -> (r: Option<RoutingDecision>)
    ensures
        match r {
            Some(d) => decision_of_reply(input@, reply@) == Some(d@),
            None => decision_of_reply(input@, reply@) is None,
        },
{
    let candidate = match json_candidate(reply) {
        Some(c) => c,
        None => { return None; },
    };
    let doc = match parse_value(candidate.as_str()) {
        Some(v) => v,
        None => { return None; },
    };
    let name = match value_get(&doc, "category") {
        Some(v) => match value_as_str(&v) {
            Some(s) => s,
            None => { return None; },
        },
        None => { return None; },
    };
    let query = match value_get(&doc, "enhanced_query") {
        Some(v) => {
            if value_is_null(&v) {
                String::from_str(input)
            } else {
                match value_as_str(&v) {
                    Some(q) => q,
                    None => { return None; },
                }
            }
        },
        None => String::from_str(input),
    };
    Some(RoutingDecision { category: AgentCategory::new(name.as_str()), query })
}

/// The decision for an input that could not be classified: the category
/// `unknown`, and the input as the query.
pub fn unknown(input: &str) -> (d: RoutingDecision)
    ensures
        d@ == unknown_decision(input@),
{
    RoutingDecision { category: AgentCategory::new("unknown"), query: String::from_str(input) }
}

/// The text under which the semantic cache keeps `category`.
pub fn category_to_cache(category: &AgentCategory) -> (r: String)
    ensures
        r@ == cache_text(category@),
{
    let quoted = quote(category.as_str());
    string_of(&remove_char(&chars_of(quoted.as_str()), '"'))
}

/// The category that the cached text `stored` stands for, if any.
pub fn category_from_cache(stored: &str) -> (r: Option<AgentCategory>)
    ensures
        match r {
            Some(c) => cached_category(stored@) == Some(c@),
            None => cached_category(stored@) is None,
        },
{
    let mut text = String::from_str("\"");
    text.append(stored);
    text.append("\"");
    proof {
        reveal_strlit("\"");
        assert(text@ =~= seq!['"'] + stored@ + seq!['"']);
    }
    match parse_value(text.as_str()) {
        Some(v) => match value_as_str(&v) {
            Some(name) => Some(AgentCategory::new(name.as_str())),
            None => None,
        },
        None => None,
    }
}

/// The router.
pub struct RouterAgent {
    llm: Arc<Box<dyn Llm>>,
    cache_enabled: bool,
    system_prompt: String,
}

impl RouterAgent {
    /// A router that classifies with `llm` under `system_prompt`, with or
    /// without a semantic cache behind it.
    pub fn new(llm: Arc<Box<dyn Llm>>, cache_enabled: bool, system_prompt: &str) -> (r: Self)
        ensures
            r.model() == llm,
            r.system_prompt() == system_prompt@,
            r.cache_enabled() == cache_enabled,
    {
        RouterAgent { llm, cache_enabled, system_prompt: String::from_str(system_prompt) }
    }

    /// The language model service that the router asks.
    pub closed spec fn model(&self) -> Arc<Box<dyn Llm>> {
        self.llm
    }

    /// The prompt that introduces every classification.
    pub closed spec fn system_prompt(&self) -> Seq<char> {
        self.system_prompt@
    }

    /// Whether the router has a semantic cache behind it.
    pub closed spec fn cache_enabled(&self) -> bool {
        self.cache_enabled
    }

    /// Whether `reply` is a text that the router's model may give for
    /// `prompt`.
    pub open spec fn model_may_say(&self, prompt: Seq<char>, reply: Seq<char>) -> bool {
        self.model().may_generate(prompt, reply)
    }

    /// Whether the router's model may fail on `prompt` with `error`.
    pub open spec fn model_may_refuse(&self, prompt: Seq<char>, error: SenseiError) -> bool {
        self.model().may_refuse(prompt, error)
    }

    /// Whether `embedding` is a vector that the router's model may give for
    /// `text`.
    pub open spec fn model_may_embed(&self, text: Seq<char>, embedding: Seq<u32>) -> bool {
        self.model().may_embed(text, embedding)
    }

    /// Whether the router's model may fail to embed `text` with `error`.
    pub open spec fn model_may_refuse_embed(&self, text: Seq<char>, error: SenseiError) -> bool {
        self.model().may_refuse_embed(text, error)
    }

    /// The prompt that asks the model to classify `input`.
    pub open spec fn prompt_for(&self, input: Seq<char>) -> Seq<char> {
        self.system_prompt() + "\n\nQuery: \""@ + input + "\""@
    }

    /// Whether `d` is a decision that the model makes for `input`: a reply
    /// that it may give to the classification prompt holds it.
    pub open spec fn model_decides(&self, input: Seq<char>, d: (Seq<char>, Seq<char>)) -> bool {
        exists|reply: Seq<char>| #[trigger]
            self.model_may_say(self.prompt_for(input), reply) && decision_of_reply(input, reply)
                == Some(d)
    }

    /// Whether the model may leave `input` undecided: it may fail on the
    /// classification prompt, or a reply that it may give holds no
    /// well-formed classification.
    pub open spec fn model_leaves_undecided(&self, input: Seq<char>) -> bool {
        ||| (exists|error: SenseiError| #[trigger]
            self.model_may_refuse(self.prompt_for(input), error))
        ||| (exists|reply: Seq<char>| #[trigger]
            self.model_may_say(self.prompt_for(input), reply) && decision_of_reply(input, reply)
                is None)
    }

    /// Whether `d` is a decision that the third tier may make for `input`:
    /// one that the model makes, or the unknown decision where the model may
    /// leave the input undecided.
    pub open spec fn third_tier_decides(&self, input: Seq<char>, d: (Seq<char>, Seq<char>)) -> bool {
        self.model_decides(input, d) || (d == unknown_decision(input)
            && self.model_leaves_undecided(input))
    }

    /// Whether the model may fail to embed `text`.
    pub open spec fn embedding_may_fail(&self, text: Seq<char>) -> bool {
        exists|error: SenseiError| #[trigger] self.model_may_refuse_embed(text, error)
    }

    /// Whether the router has a semantic cache behind it.
    pub fn has_cache(&self) -> (b: bool)
        ensures
            b == self.cache_enabled(),
    {
        self.cache_enabled
    }

    /// The first tier: fixed rules on the text. No service is asked.
    pub fn check_fast_path(&self, input: &str) -> (r: Option<RoutingDecision>)
        ensures
            match r {
                Some(d) => fast_path(input@) == Some(d@),
                None => fast_path(input@) is None,
            },
    {
        let lower: Vec<char> = chars_of(to_lowercase(input).as_str());
        if mentions(&lower, "nmap") || (starts_with(&lower, &chars_of("scan ")) && has_numeric(
            &chars_of(input),
        )) {
            return Some(
                RoutingDecision {
                    category: AgentCategory::new("action"),
                    query: String::from_str(input),
                },
            );
        }
        if mentions(&lower, "uptime") || mentions(&lower, "whoami") || mentions(&lower, "df -h")
            || mentions(&lower, "free -h") || mentions(&lower, "check disk") || mentions(
            &lower,
            "check memory",
        ) || mentions(&lower, "check ram") {
            return Some(
                RoutingDecision {
                    category: AgentCategory::new("system"),
                    query: String::from_str(input),
                },
            );
        }
        None
    }

    /// The third tier: asks the model. The decision is the one that the
    /// model's reply holds, and `true` comes with it; where the model fails or
    /// its reply holds none, and only there, it is the unknown decision, and
    /// `false` comes with it.
    pub fn classify_with_llm(&self, input: &str) -> (r: (RoutingDecision, bool))
        ensures
            r.1 ==> self.model_decides(input@, r.0@),
            !r.1 ==> r.0@ == unknown_decision(input@) && self.model_leaves_undecided(input@),
    {
        let mut prompt = self.system_prompt.clone();
        prompt.append("\n\nQuery: \"");
        prompt.append(input);
        prompt.append("\"");
        match self.llm.generate(prompt.as_str()) {
            Ok(reply) => {
                assert(self.model_may_say(self.prompt_for(input@), reply@));
                match read_reply(input, reply.as_str()) {
                    Some(d) => (d, true),
                    None => (unknown(input), false),
                }
            },
            Err(e) => {
                assert(self.model_may_refuse(self.prompt_for(input@), e));
                (unknown(input), false)
            },
        }
    }

    /// The first tier, and the second up to the cache. A hit of the fixed
    /// rules decides. Else, with a cache and an embedding of the input, the
    /// next step is the lookup. Else, without a cache or where the model
    /// fails to embed the input, the third tier decides.
    pub fn classify_begin(&self, input: &str) -> (r: ClassifyStep)
        ensures
            fast_path(input@) is Some ==> (r matches ClassifyStep::Decided(d) && fast_path(input@)
                == Some(d@)),
            fast_path(input@) is None ==> match r {
                ClassifyStep::Decided(d) => self.third_tier_decides(input@, d@) && (
                self.cache_enabled() ==> self.embedding_may_fail(input@)),
                ClassifyStep::Lookup { embedding } => self.cache_enabled() && self.model_may_embed(
                    input@,
                    embedding@,
                ),
            },
    {
        match self.check_fast_path(input) {
            Some(d) => { return ClassifyStep::Decided(d); },
            None => {},
        }
        if self.cache_enabled {
            match self.llm.embed(input) {
                Ok(embedding) => { return ClassifyStep::Lookup { embedding }; },
                Err(e) => {
                    assert(self.model_may_refuse_embed(input@, e));
                },
            }
        }
        ClassifyStep::Decided(self.classify_with_llm(input).0)
    }

    /// The second tier after the cache, and the third. `hit` is what the
    /// lookup found within the threshold: a category as text and a query. A
    /// hit whose text stands for a category decides, and nothing is stored.
    /// Else the third tier decides; what the model decided is to be stored
    /// under the embedding, and the unknown decision, which comes only where
    /// the model may leave the input undecided, is not.
    pub fn classify_finish(
        &self,
        input: &str,
        embedding: Vec<u32>,
        hit: Option<(String, String)>,
    ) -> (r: Classified)
        ensures
            match hit {
                Some((stored, query)) if cached_category(stored@) is Some => {
                    &&& r.decision@ == (cached_category(stored@)->0, query@)
                    &&& r.store is None
                },
                _ => match r.store {
                    Some(entry) => {
                        &&& self.model_decides(input@, r.decision@)
                        &&& entry.query_text@ == input@
                        &&& entry.category@ == cache_text(r.decision.category@)
                        &&& entry.enhanced_query@ == r.decision.query@
                        &&& entry.embedding@ == embedding@
                    },
                    None => r.decision@ == unknown_decision(input@)
                        && self.model_leaves_undecided(input@),
                },
            },
    {
        match hit {
            Some((stored, query)) => match category_from_cache(stored.as_str()) {
                Some(category) => {
                    return Classified {
                        decision: RoutingDecision { category, query },
                        store: None,
                    };
                },
                None => {},
            },
            None => {},
        }
        let (decision, from_model) = self.classify_with_llm(input);
        if from_model {
            let entry = CacheEntry {
                query_text: String::from_str(input),
                category: category_to_cache(&decision.category),
                enhanced_query: decision.query.clone(),
                embedding,
            };
            Classified { decision, store: Some(entry) }
        } else {
            Classified { decision, store: None }
        }
    }

    /// Classifies `input` on a router that has no semantic cache: the fixed
    /// rules, then the model. A router with a cache classifies in the two
    /// steps `classify_begin` and `classify_finish`, with the lookup between
    /// them.
    pub fn classify(&self, input: &str) -> (d: RoutingDecision)
        requires
            !self.cache_enabled(),
        ensures
            fast_path(input@) is Some ==> fast_path(input@) == Some(d@),
            fast_path(input@) is None ==> self.third_tier_decides(input@, d@),
    {
        match self.check_fast_path(input) {
            Some(d) => d,
            None => self.classify_with_llm(input).0,
        }
    }

    /// Begins a correction: `input` belongs to `correct_category`. Without a
    /// cache, or where the model fails to embed the input, there is nothing to
    /// do, and only there. Else the correction holds the embedding of the
    /// input and the category as the cache keeps it; the next step is to
    /// update the nearest entry of the cache within the correction threshold,
    /// and to go on with `correct_finish`.
    pub fn correct_begin(&self, input: &str, correct_category: &AgentCategory) -> (r: Option<
        Correction,
    >)
        ensures
            match r {
                Some(c) => {
                    &&& self.cache_enabled()
                    &&& c.category@ == cache_text(correct_category@)
                    &&& self.model_may_embed(input@, c.embedding@)
                },
                None => !self.cache_enabled() || self.embedding_may_fail(input@),
            },
    {
        if !self.cache_enabled {
            return None;
        }
        match self.llm.embed(input) {
            Ok(embedding) => Some(
                Correction { embedding, category: category_to_cache(correct_category) },
            ),
            Err(e) => {
                assert(self.model_may_refuse_embed(input@, e));
                None
            },
        }
    }
}

/// What is left to store after the cache was asked to update its nearest
/// entry. Where it updated one, or failed, nothing; where no entry was near
/// enough, a new entry with the input as both the original and the query.
pub open spec fn correction_entry(
    input: Seq<char>,
    correction: Correction,
    updated: Result<bool, SenseiError>,
) -> Option<(Seq<char>, Seq<char>, Seq<char>, Seq<u32>)> {
    match updated {
        Ok(false) => Some((input, correction.category@, input, correction.embedding@)),
        _ => None,
    }
}

/// Ends a correction: says what to add to the cache, given how the update
/// went.
pub fn correct_finish(input: &str, correction: Correction, updated: Result<bool, SenseiError>) -> (r:
    Option<CacheEntry>)
    ensures
        match r {
            Some(e) => correction_entry(input@, correction, updated) == Some(
                (e.query_text@, e.category@, e.enhanced_query@, e.embedding@),
            ),
            None => correction_entry(input@, correction, updated) is None,
        },
{
    match updated {
        Ok(false) => Some(
            CacheEntry {
                query_text: String::from_str(input),
                category: correction.category,
                enhanced_query: String::from_str(input),
                embedding: correction.embedding,
            },
        ),
        _ => None,
    }
}

} // verus!
