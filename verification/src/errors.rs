//! The error type shared by the library's fallible operations.

use vstd::prelude::*;
use vstd::string::StringExecFns;

verus! {

/// Why an operation failed. Each variant carries the detail as text.
#[derive(Debug)]
pub enum SenseiError {
    /// The database refused or failed a statement.
    Sqlx(String),
    /// A schema migration failed.
    Migration(String),
    /// A configuration file could not be read.
    Io(String),
    /// A configuration file could not be parsed.
    Yaml(String),
    /// The configuration is unusable.
    Config(String),
    /// The language model service failed.
    Llm(String),
    /// A tool refused its argument or failed to run.
    Tool(String),
    /// Anything else.
    Unknown(String),
}

impl SenseiError {
    /// The detail carried by the error.
    pub open spec fn detail(self) -> Seq<char> {
        match self {
            SenseiError::Sqlx(d) => d@,
            SenseiError::Migration(d) => d@,
            SenseiError::Io(d) => d@,
            SenseiError::Yaml(d) => d@,
            SenseiError::Config(d) => d@,
            SenseiError::Llm(d) => d@,
            SenseiError::Tool(d) => d@,
            SenseiError::Unknown(d) => d@,
        }
    }

    /// The words that introduce the detail in the error's message.
    pub open spec fn heading(self) -> Seq<char> {
        match self {
            SenseiError::Sqlx(_) => "Database error: "@,
            SenseiError::Migration(_) => "Migration error: "@,
            SenseiError::Io(_) => "Configuration IO error: "@,
            SenseiError::Yaml(_) => "Configuration Parse error: "@,
            SenseiError::Config(_) => "Configuration error: "@,
            SenseiError::Llm(_) => "LLM error: "@,
            SenseiError::Tool(_) => "Tool execution error: "@,
            SenseiError::Unknown(_) => "Unknown error: "@,
        }
    }

    /// The message of the error: its heading, then its detail.
    pub open spec fn message_spec(self) -> Seq<char> {
        self.heading() + self.detail()
    }

    /// The message of the error, as it is shown to a reader.
    pub fn message(&self) -> (m: String)
        ensures
            m@ == self.message_spec(),
    {
        match self {
            SenseiError::Sqlx(d) => String::from_str("Database error: ").concat(d.as_str()),
            SenseiError::Migration(d) => String::from_str("Migration error: ").concat(d.as_str()),
            SenseiError::Io(d) => String::from_str("Configuration IO error: ").concat(d.as_str()),
            SenseiError::Yaml(d) => String::from_str("Configuration Parse error: ").concat(
                d.as_str(),
            ),
            SenseiError::Config(d) => String::from_str("Configuration error: ").concat(d.as_str()),
            SenseiError::Llm(d) => String::from_str("LLM error: ").concat(d.as_str()),
            SenseiError::Tool(d) => String::from_str("Tool execution error: ").concat(d.as_str()),
            SenseiError::Unknown(d) => String::from_str("Unknown error: ").concat(d.as_str()),
        }
    }
}

} // verus!
