//! The language model service as the library sees it, and a client that
//! fails over from one service to another.

use std::sync::Arc;
use vstd::prelude::*;
use crate::errors::SenseiError;

verus! {

/// The chat model that answers fast.
pub const MODEL_CHAT_FAST: &'static str = "gemini-2.5-flash";

/// The chat model that answers best.
pub const MODEL_CHAT_SMART: &'static str = "gemini-3-pro-preview";

/// The chat model used where none is chosen.
pub const MODEL_CHAT_DEFAULT: &'static str = "gemini-2.5-flash";

/// The model that computes embeddings.
pub const MODEL_EMBEDDING: &'static str = "gemini-embedding-001";

/// A language model service. An embedding is a vector of 32-bit floating
/// point numbers, each held by its bits.
pub trait Llm: Send + Sync {
    /// Whether `reply` is a text that `generate` may return for `prompt`.
    /// A service that says nothing of it may return any text.
    open spec fn may_generate(&self, prompt: Seq<char>, reply: Seq<char>) -> bool {
        true
    }

    /// Whether `generate` may fail on `prompt` with `error`. A service that
    /// says nothing of it may fail with any error.
    open spec fn may_refuse(&self, prompt: Seq<char>, error: SenseiError) -> bool {
        true
    }

    /// Whether `reply` is a text that `generate_raw` may return for `prompt`.
    open spec fn may_generate_raw(&self, prompt: Seq<char>, reply: Seq<char>) -> bool {
        true
    }

    /// Whether `generate_raw` may fail on `prompt` with `error`.
    open spec fn may_refuse_raw(&self, prompt: Seq<char>, error: SenseiError) -> bool {
        true
    }

    /// Whether `embedding` is a vector that `embed` may return for `text`.
    open spec fn may_embed(&self, text: Seq<char>, embedding: Seq<u32>) -> bool {
        true
    }

    /// Whether `embed` may fail on `text` with `error`.
    open spec fn may_refuse_embed(&self, text: Seq<char>, error: SenseiError) -> bool {
        true
    }

    /// Generates a text for `prompt`.
    fn generate(&self, prompt: &str) -> (r: Result<String, SenseiError>)
        ensures
            match r {
                Ok(reply) => self.may_generate(prompt@, reply@),
                Err(error) => self.may_refuse(prompt@, error),
            },
    ;

    /// Computes the embedding of `text`.
    fn embed(&self, text: &str) -> (r: Result<Vec<u32>, SenseiError>)
        ensures
            match r {
                Ok(embedding) => self.may_embed(text@, embedding@),
                Err(error) => self.may_refuse_embed(text@, error),
            },
    ;

    /// Generates a text for `prompt` without the service's filters. A
    /// service that has no such mode generates as usual: it returns what
    /// `generate` returns, and fails as `generate` fails.
    fn generate_raw(&self, prompt: &str) -> (r: Result<String, SenseiError>)
        ensures
            match r {
                Ok(reply) => self.may_generate_raw(prompt@, reply@) || self.may_generate(
                    prompt@,
                    reply@,
                ),
                Err(error) => self.may_refuse_raw(prompt@, error) || self.may_refuse(
                    prompt@,
                    error,
                ),
            },
    {
        self.generate(prompt)
    }
}

/// A client of two services: the second answers where the first fails.
pub struct TieredLlmClient {
    primary: Arc<Box<dyn Llm>>,
    secondary: Option<Arc<Box<dyn Llm>>>,
}

impl TieredLlmClient {
    /// A client of `primary`, with `secondary` to fail over to: its first
    /// service is `primary`, its second is `secondary`, if there is one.
    pub fn new(primary: Box<dyn Llm>, secondary: Option<Box<dyn Llm>>) -> (c: Self)
        ensures
            c.has_secondary() == secondary is Some,
            forall|raw: bool, prompt: Seq<char>, reply: Seq<char>| #[trigger]
                c.primary_may_generate(raw, prompt, reply) == (primary.may_generate(prompt, reply)
                    || (raw && primary.may_generate_raw(prompt, reply))),
            forall|raw: bool, prompt: Seq<char>, error: SenseiError| #[trigger]
                c.primary_may_refuse(raw, prompt, error) == (primary.may_refuse(prompt, error) || (
                raw && primary.may_refuse_raw(prompt, error))),
            forall|text: Seq<char>, embedding: Seq<u32>| #[trigger]
                c.primary_may_embed(text, embedding) == primary.may_embed(text, embedding),
            forall|text: Seq<char>, error: SenseiError| #[trigger]
                c.primary_may_refuse_embed(text, error) == primary.may_refuse_embed(text, error),
            forall|raw: bool, prompt: Seq<char>, reply: Seq<char>| #[trigger]
                c.secondary_may_generate(raw, prompt, reply) == (secondary matches Some(second) && (
                second.may_generate(prompt, reply) || (raw && second.may_generate_raw(
                    prompt,
                    reply,
                )))),
            forall|raw: bool, prompt: Seq<char>, error: SenseiError| #[trigger]
                c.secondary_may_refuse(raw, prompt, error) == (secondary matches Some(second) && (
                second.may_refuse(prompt, error) || (raw && second.may_refuse_raw(prompt, error)))),
    {
        let first = Arc::new(primary);
        let second = match secondary {
            Some(service) => {
                let shared = Arc::new(service);
                assert(shared == service);
                Some(shared)
            },
            None => None,
        };
        assert(first == primary);
        TieredLlmClient { primary: first, secondary: second }
    }

    /// Whether the client has a second service.
    pub closed spec fn has_secondary(&self) -> bool {
        self.secondary is Some
    }

    /// Whether `reply` is a text that the first service may generate for
    /// `prompt`; with `raw`, in its unfiltered mode or as usual.
    pub closed spec fn primary_may_generate(
        &self,
        raw: bool,
        prompt: Seq<char>,
        reply: Seq<char>,
    ) -> bool {
        self.primary.may_generate(prompt, reply) || (raw && self.primary.may_generate_raw(
            prompt,
            reply,
        ))
    }

    /// Whether the first service may fail on `prompt` with `error`; with
    /// `raw`, in its unfiltered mode or as usual.
    pub closed spec fn primary_may_refuse(
        &self,
        raw: bool,
        prompt: Seq<char>,
        error: SenseiError,
    ) -> bool {
        self.primary.may_refuse(prompt, error) || (raw && self.primary.may_refuse_raw(
            prompt,
            error,
        ))
    }

    /// Whether the first service may fail on `prompt` at all.
    pub open spec fn primary_may_fail(&self, raw: bool, prompt: Seq<char>) -> bool {
        exists|error: SenseiError| #[trigger] self.primary_may_refuse(raw, prompt, error)
    }

    /// Whether there is a second service and `reply` is a text that it may
    /// generate for `prompt`; with `raw`, in its unfiltered mode or as usual.
    pub closed spec fn secondary_may_generate(
        &self,
        raw: bool,
        prompt: Seq<char>,
        reply: Seq<char>,
    ) -> bool {
        self.secondary matches Some(second) && (second.may_generate(prompt, reply) || (raw
            && second.may_generate_raw(prompt, reply)))
    }

    /// Whether there is a second service and it may fail on `prompt` with
    /// `error`; with `raw`, in its unfiltered mode or as usual.
    pub closed spec fn secondary_may_refuse(
        &self,
        raw: bool,
        prompt: Seq<char>,
        error: SenseiError,
    ) -> bool {
        self.secondary matches Some(second) && (second.may_refuse(prompt, error) || (raw
            && second.may_refuse_raw(prompt, error)))
    }

    /// Whether `embedding` is a vector that the first service may return for
    /// `text`.
    pub closed spec fn primary_may_embed(&self, text: Seq<char>, embedding: Seq<u32>) -> bool {
        self.primary.may_embed(text, embedding)
    }

    /// Whether the first service may fail to embed `text` with `error`.
    pub closed spec fn primary_may_refuse_embed(&self, text: Seq<char>, error: SenseiError) -> bool {
        self.primary.may_refuse_embed(text, error)
    }

    /// Whether `reply` is a text that the client may return for `prompt`: one
    /// of the first service, or, where the first service may fail, one of
    /// the second.
    pub open spec fn fails_over_to(&self, raw: bool, prompt: Seq<char>, reply: Seq<char>) -> bool {
        self.primary_may_generate(raw, prompt, reply) || (self.primary_may_fail(raw, prompt)
            && self.secondary_may_generate(raw, prompt, reply))
    }

    /// Whether the client may fail on `prompt` with `error`: without a
    /// second service, as the first fails; with one, where the first may
    /// fail, as the second fails.
    pub open spec fn fails_with(&self, raw: bool, prompt: Seq<char>, error: SenseiError) -> bool {
        if self.has_secondary() {
            self.primary_may_fail(raw, prompt) && self.secondary_may_refuse(raw, prompt, error)
        } else {
            self.primary_may_refuse(raw, prompt, error)
        }
    }
}

impl Llm for TieredLlmClient {
    /// A text of the first service, or, where the first may fail, one of the
    /// second.
    open spec fn may_generate(&self, prompt: Seq<char>, reply: Seq<char>) -> bool {
        self.fails_over_to(false, prompt, reply)
    }

    /// The error of the first service where there is no second, else that
    /// of the second after the first failed.
    open spec fn may_refuse(&self, prompt: Seq<char>, error: SenseiError) -> bool {
        self.fails_with(false, prompt, error)
    }

    /// As `may_generate`, with the unfiltered mode of each service.
    open spec fn may_generate_raw(&self, prompt: Seq<char>, reply: Seq<char>) -> bool {
        self.fails_over_to(true, prompt, reply)
    }

    /// As `may_refuse`, with the unfiltered mode of each service.
    open spec fn may_refuse_raw(&self, prompt: Seq<char>, error: SenseiError) -> bool {
        self.fails_with(true, prompt, error)
    }

    /// An embedding of the first service.
    open spec fn may_embed(&self, text: Seq<char>, embedding: Seq<u32>) -> bool {
        self.primary_may_embed(text, embedding)
    }

    /// A failure of the first service.
    open spec fn may_refuse_embed(&self, text: Seq<char>, error: SenseiError) -> bool {
        self.primary_may_refuse_embed(text, error)
    }

    /// What the first service generates; where it fails, what the second
    /// generates or fails with; where there is no second, the first one's
    /// error.
    fn generate(&self, prompt: &str) -> (r: Result<String, SenseiError>)
        ensures
            match r {
                Ok(reply) => self.fails_over_to(false, prompt@, reply@),
                Err(error) => self.fails_with(false, prompt@, error),
            },
    {
        match self.primary.generate(prompt) {
            Ok(reply) => Ok(reply),
            Err(e) => {
                assert(self.primary_may_refuse(false, prompt@, e));
                match &self.secondary {
                    Some(second) => second.generate(prompt),
                    None => Err(e),
                }
            },
        }
    }

    /// The embedding that the first service computes, or the error that it
    /// fails with: embeddings of two services do not mix.
    fn embed(&self, text: &str) -> (r: Result<Vec<u32>, SenseiError>)
        ensures
            match r {
                Ok(embedding) => self.primary_may_embed(text@, embedding@),
                Err(error) => self.primary_may_refuse_embed(text@, error),
            },
    {
        self.primary.embed(text)
    }

    /// As `generate`, with the unfiltered mode of each service.
    fn generate_raw(&self, prompt: &str) -> (r: Result<String, SenseiError>)
        ensures
            match r {
                Ok(reply) => self.fails_over_to(true, prompt@, reply@),
                Err(error) => self.fails_with(true, prompt@, error),
            },
    {
        match self.primary.generate_raw(prompt) {
            Ok(reply) => Ok(reply),
            Err(e) => {
                assert(self.primary_may_refuse(true, prompt@, e));
                match &self.secondary {
                    Some(second) => second.generate_raw(prompt),
                    None => Err(e),
                }
            },
        }
    }
}

} // verus!
