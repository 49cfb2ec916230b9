//! The delegation directive: the one place where a handler's output is read
//! for a request to hand work to another handler.
//!
//! A directive is a line that begins with the marker `[DELEGATE:`, then
//! optional white space, a target token of word characters and a closing
//! bracket. Everything after the bracket, to the end of the text, is the
//! payload. Only the first such line counts; output without one is final.
//! What counts as a word character, and as white space inside the directive,
//! is what the `regex` crate's classes `\w` and `\s` match.

use vstd::prelude::*;
use vstd::string::StringExecFns;
use crate::common::{category_name, AgentCategory};
use crate::text::{
    chars_of, matches_at, occurs_at, slice_of, string_of, to_uppercase, trim, trimmed,
    uppercase_of,
};

verus! {

/// Whether `c` is a word character to the `regex` crate: what its class `\w`
/// matches.
pub uninterp spec fn word_char(c: char) -> bool;

/// Asks the `regex` crate whether the one-character text `c` matches `\w`
/// from start to end. Trusted: the answer is the one named `word_char`.
#[verifier::external_body]
pub(crate) fn is_word_char(c: char) -> (r: bool)
    ensures
        r == word_char(c),
{
    let mut buf = [0u8; 4];
    match regex::Regex::new(r"\A\w\z") {
        Ok(re) => re.is_match(c.encode_utf8(&mut buf)),
        Err(_) => false,
    }
}

/// Whether `c` is white space to the `regex` crate: what its class `\s`
/// matches.
pub uninterp spec fn space_char(c: char) -> bool;

/// Asks the `regex` crate whether the one-character text `c` matches `\s`
/// from start to end. Trusted: the answer is the one named `space_char`.
#[verifier::external_body]
pub(crate) fn is_space_char(c: char) -> (r: bool)
    ensures
        r == space_char(c),
{
    let mut buf = [0u8; 4];
    match regex::Regex::new(r"\A\s\z") {
        Ok(re) => re.is_match(c.encode_utf8(&mut buf)),
        Err(_) => false,
    }
}

/// What a handler's output asks for.
#[derive(Debug, PartialEq, Eq)]
pub enum Step {
    /// Hand `payload` to the handler that `target` names.
    Delegate { target: String, payload: String },
    /// The output is the answer.
    Final(String),
}

/// The content of a `Step`.
pub enum StepModel {
    Delegate { target: Seq<char>, payload: Seq<char> },
    Final { text: Seq<char> },
}

impl View for Step {
    type V = StepModel;

    open spec fn view(&self) -> StepModel {
        match self {
            Step::Delegate { target, payload } => StepModel::Delegate {
                target: target@,
                payload: payload@,
            },
            Step::Final(text) => StepModel::Final { text: text@ },
        }
    }
}

/// The marker that opens a directive.
pub open spec fn marker() -> Seq<char> {
    "[DELEGATE:"@
}

/// Index `i` of `s` is the start of a line.
pub open spec fn line_start(s: Seq<char>, i: int) -> bool {
    i == 0 || (0 < i <= s.len() && s[i - 1] == '\n')
}

/// How many word characters stand in `s` from index `i` on, without a gap.
pub open spec fn word_run(s: Seq<char>, i: int) -> int
    decreases s.len() - i,
{
    if 0 <= i < s.len() && word_char(s[i]) {
        1 + word_run(s, i + 1)
    } else {
        0
    }
}

/// How many white-space characters of the directive stand in `s` from index
/// `i` on, without a gap.
pub open spec fn gap_run(s: Seq<char>, i: int) -> int
    decreases s.len() - i,
{
    if 0 <= i < s.len() && space_char(s[i]) {
        1 + gap_run(s, i + 1)
    } else {
        0
    }
}

/// Where the target token of a directive at `i` begins.
pub open spec fn token_start(s: Seq<char>, i: int) -> int {
    i + marker().len() + gap_run(s, i + marker().len())
}

/// Where the target token of a directive at `i` ends.
pub open spec fn token_end(s: Seq<char>, i: int) -> int {
    token_start(s, i) + word_run(s, token_start(s, i))
}

/// Where the payload of a directive at `i` begins, before it is trimmed.
pub open spec fn payload_start(s: Seq<char>, i: int) -> int {
    token_end(s, i) + 1 + gap_run(s, token_end(s, i) + 1)
}

/// A directive stands in `s` at index `i`.
pub open spec fn directive_at(s: Seq<char>, i: int) -> bool {
    &&& line_start(s, i)
    &&& occurs_at(s, marker(), i)
    &&& token_start(s, i) < token_end(s, i) < s.len()
    &&& s[token_end(s, i)] == ']'
}

/// The least index at or after `from` at which a directive stands in `s`.
pub open spec fn first_directive(s: Seq<char>, from: int) -> Option<int>
    decreases s.len() - from,
{
    if from < 0 || from >= s.len() {
        None
    } else if directive_at(s, from) {
        Some(from)
    } else {
        first_directive(s, from + 1)
    }
}

/// What the text `s` asks for: the first directive in it, with the token as
/// written, or `s` itself as the answer. The payload is what follows the
/// closing bracket and the directive's white space after it, trimmed.
pub open spec fn parse_spec(s: Seq<char>) -> StepModel {
    match first_directive(s, 0) {
        Some(i) => StepModel::Delegate {
            target: s.subrange(token_start(s, i), token_end(s, i)),
            payload: trimmed(s.subrange(payload_start(s, i), s.len() as int)),
        },
        None => StepModel::Final { text: s },
    }
}

/// The first directive at or after `from` is a directive, and none stands
/// between `from` and it; where there is none, none stands from `from` on.
pub proof fn lemma_first_directive(s: Seq<char>, from: int)
    requires
        0 <= from,
    ensures
        match first_directive(s, from) {
            Some(i) => from <= i < s.len() && directive_at(s, i) && forall|j: int|
                from <= j < i ==> !directive_at(s, j),
            None => forall|j: int| from <= j < s.len() ==> !directive_at(s, j),
        },
    decreases s.len() - from,
{
    if from < s.len() && !directive_at(s, from) {
        lemma_first_directive(s, from + 1);
    }
}

/// A text in which no directive stands is final as it is; a text in which
/// one stands delegates.
pub proof fn law_final_without_directive(s: Seq<char>)
    ensures
        (forall|i: int| 0 <= i < s.len() ==> !directive_at(s, i)) ==> parse_spec(s)
            == (StepModel::Final { text: s }),
        (exists|i: int| 0 <= i < s.len() && directive_at(s, i)) ==> parse_spec(s) is Delegate,
{
    lemma_first_directive(s, 0);
}

/// A run of white space has no negative length.
proof fn lemma_gap_run_nonnegative(s: Seq<char>, i: int)
    ensures
        gap_run(s, i) >= 0,
    decreases s.len() - i,
{
    if 0 <= i < s.len() && space_char(s[i]) {
        lemma_gap_run_nonnegative(s, i + 1);
    }
}

/// A run of word characters from `i` stays inside `s` and holds word
/// characters only.
proof fn lemma_word_run(s: Seq<char>, i: int)
    requires
        0 <= i,
    ensures
        word_run(s, i) >= 0,
        word_run(s, i) > 0 ==> i + word_run(s, i) <= s.len(),
        forall|k: int| i <= k < i + word_run(s, i) ==> word_char(#[trigger] s[k]),
    decreases s.len() - i,
{
    if i < s.len() && word_char(s[i]) {
        lemma_word_run(s, i + 1);
    }
}

/// The target of a delegation is a word: it is not empty and holds word
/// characters only.
pub proof fn law_target_is_a_word(s: Seq<char>)
    requires
        parse_spec(s) is Delegate,
    ensures
        parse_spec(s)->target.len() > 0,
        forall|k: int|
            0 <= k < parse_spec(s)->target.len() ==> word_char(#[trigger] parse_spec(s)->target[k]),
{
    lemma_first_directive(s, 0);
    let i = first_directive(s, 0)->0;
    lemma_gap_run_nonnegative(s, i + marker().len());
    lemma_word_run(s, token_start(s, i));
    let target = s.subrange(token_start(s, i), token_end(s, i));
    assert forall|k: int| 0 <= k < target.len() implies word_char(#[trigger] target[k]) by {
        assert(target[k] == s[token_start(s, i) + k]);
    }
}

/// The index of the first character at or after `from` that is no white
/// space of the directive; the length of `s` when there is none.
fn skip_gap(s: &Vec<char>, from: usize) -> (r: usize)
    requires
        from <= s.len(),
    ensures
        r == from + gap_run(s@, from as int),
        from <= r <= s.len(),
{
    let mut i: usize = from;
    while i < s.len() && is_space_char(s[i])
        invariant
            from <= i <= s.len(),
            gap_run(s@, from as int) == (i - from) + gap_run(s@, i as int),
        decreases s.len() - i,
    {
        i += 1;
    }
    i
}

/// The index of the first character at or after `from` that is not a word
/// character; the length of `s` when there is none.
fn skip_words(s: &Vec<char>, from: usize) -> (r: usize)
    requires
        from <= s.len(),
    ensures
        r == from + word_run(s@, from as int),
        from <= r <= s.len(),
{
    let mut i: usize = from;
    while i < s.len() && is_word_char(s[i])
        invariant
            from <= i <= s.len(),
            word_run(s@, from as int) == (i - from) + word_run(s@, i as int),
        decreases s.len() - i,
    {
        i += 1;
    }
    i
}

/// Whether a directive stands in `s` at `i`; if so, where its token begins
/// and ends.
fn directive_here(s: &Vec<char>, mark: &Vec<char>, i: usize) -> (r: Option<(usize, usize)>)
    requires
        i <= s.len(),
        mark@ == marker(),
    ensures
        r is Some <==> directive_at(s@, i as int),
        r matches Some((a, b)) ==> a == token_start(s@, i as int) && b == token_end(s@, i as int),
{
    if i > 0 && s[i - 1] != '\n' {
        return None;
    }
    if !matches_at(s, mark, i) {
        return None;
    }
    let a: usize = skip_gap(s, i + mark.len());
    let b: usize = skip_words(s, a);
    if a < b && b < s.len() && s[b] == ']' {
        Some((a, b))
    } else {
        None
    }
}

/// Reads `response` for a delegation directive.
pub fn parse_directive(response: &str) -> (step: Step)
    ensures
        step@ == parse_spec(response@),
{
    let s: Vec<char> = chars_of(response);
    let mark: Vec<char> = chars_of("[DELEGATE:");
    let mut i: usize = 0;
    while i < s.len()
        invariant
            i <= s.len(),
            s@ == response@,
            mark@ == marker(),
            first_directive(s@, 0) == first_directive(s@, i as int),
        decreases s.len() - i,
    {
        match directive_here(&s, &mark, i) {
            Some((a, b)) => {
                let target = string_of(&slice_of(&s, a, b));
                let rest: usize = skip_gap(&s, b + 1);
                let payload = string_of(&trim(&slice_of(&s, rest, s.len())));
                return Step::Delegate { target, payload };
            },
            None => {},
        }
        i += 1;
    }
    Step::Final(response.to_owned())
}

/// The category that the target token `token` names: the token in upper
/// case, normalized as every category name is.
pub open spec fn target_category(token: Seq<char>) -> Seq<char> {
    category_name(uppercase_of(token))
}

/// Resolves a target token to a category. Every token names one: a token
/// that is no well-known name is the name of a category registered at run
/// time.
pub fn resolve_target(token: &str) -> (c: AgentCategory)
    ensures
        c@ == target_category(token@),
{
    let upper = to_uppercase(token);
    AgentCategory::new(upper.as_str())
}

/// The input with an observation appended to it.
pub open spec fn observation_input_spec(
    input: Seq<char>,
    token: Seq<char>,
    observation: Seq<char>,
) -> Seq<char> {
    input + "\n\n[OBSERVATION from "@ + token + "]\n"@ + observation
}

/// The input for the handler's second turn: the original input, then a block
/// that names the delegate by its token as written and holds what the
/// delegate returned.
pub fn observation_input(input: &str, token: &str, observation: &str) -> (r: String)
    ensures
        r@ == observation_input_spec(input@, token@, observation@),
{
    let mut r = String::from_str(input);
    r.append("\n\n[OBSERVATION from ");
    r.append(token);
    r.append("]\n");
    r.append(observation);
    r
}

} // verus!
