//! Types shared by every front end: categories and the request and response
//! bodies of the question interface.

use vstd::prelude::*;
use crate::text::{chars_of, lowercase_of, string_of, to_lowercase, to_uppercase, trim, trimmed, uppercase_of};

verus! {

/// The body of a health check response.
#[derive(Debug)]
pub struct Health {
    pub status: String,
}

/// A question put to the system.
#[derive(Debug)]
pub struct AskRequest {
    pub prompt: String,
}

/// The answer to a question.
#[derive(Debug)]
pub struct AskResponse {
    pub content: String,
}

/// The normalized form of a category name: trimmed, then lowercased.
pub open spec fn category_name(name: Seq<char>) -> Seq<char> {
    lowercase_of(trimmed(name))
}

/// A domain of expertise, named by a string. Well-known categories and those
/// registered at run time share this one representation; two categories are
/// the same when their names are equal.
#[derive(Debug, PartialEq, Eq, Hash)]
pub struct AgentCategory(pub String);

impl View for AgentCategory {
    type V = Seq<char>;

    open spec fn view(&self) -> Seq<char> {
        self.0@
    }
}

impl AgentCategory {
    /// The category named `name`, normalized.
    pub fn new(name: &str) -> (c: Self)
        ensures
            c@ == category_name(name@),
    {
        let chars = chars_of(name);
        let inner = string_of(&trim(&chars));
        AgentCategory(to_lowercase(inner.as_str()))
    }

    /// The name of the category.
    pub fn as_str(&self) -> (s: &str)
        ensures
            s@ == self@,
    {
        self.0.as_str()
    }

    /// The form in which the category is shown: its name in upper case.
    pub fn display(&self) -> (s: String)
        ensures
            s@ == uppercase_of(self@),
    {
        to_uppercase(self.0.as_str())
    }

    /// Whether `self` and `other` name the same category.
    pub fn same_as(&self, other: &AgentCategory) -> (b: bool)
        ensures
            b == (self@ == other@),
    {
        self.0 == other.0
    }
}

impl Clone for AgentCategory {
    fn clone(&self) -> (c: Self)
        ensures
            c@ == self@,
    {
        AgentCategory(self.0.clone())
    }
}

impl<'a> From<&'a str> for AgentCategory {
    /// The category named `s`, normalized: the same as `AgentCategory::new`.
    fn from(s: &'a str) -> (c: Self)
        ensures
            c@ == category_name(s@),
    {
        AgentCategory::new(s)
    }
}

impl<'a> vstd::std_specs::convert::FromSpecImpl<&'a str> for AgentCategory {
    open spec fn obeys_from_spec() -> bool {
        false
    }

    open spec fn from_spec(s: &'a str) -> AgentCategory {
        arbitrary()
    }
}

} // verus!
