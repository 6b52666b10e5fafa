//! What can go wrong when a document is read or written.

use crate::fields::{Invalid, Problem};
use vstd::prelude::*;
use vstd::string::StringExecFns;

verus! {

/// Why a document could not be read.
#[derive(Debug, Clone, PartialEq, Eq)]
pub enum LoadError {
    /// The text is no well-formed document. The message is the parser's.
    Syntax(String),
    /// The document is well formed, but a key holds what its field cannot
    /// take.
    Invalid(Invalid),
}

/// Why a cache could not be written.
#[derive(Debug, Clone, PartialEq, Eq)]
pub enum SaveError {
    /// A field holds a value that a document cannot.
    Invalid(Invalid),
    /// The document could not be printed. The message is the printer's.
    Print(String),
}

impl Problem {
    /// The problem in words.
    pub open spec fn spec_description(self) -> Seq<char> {
        match self {
            Problem::ExpectedTable => "expected a table"@,
            Problem::ExpectedBoolean => "expected a boolean"@,
            Problem::ExpectedInteger => "expected an integer"@,
            Problem::ExpectedString => "expected a string"@,
            Problem::ExpectedArray => "expected an array"@,
            Problem::OutOfRange => "number out of range"@,
            Problem::UnknownName => "unknown name"@,
            Problem::Missing => "missing"@,
        }
    }

    /// The problem in words.
    pub fn description(self) -> (words: &'static str)
        ensures
            words@ == self.spec_description(),
    {
        match self {
            Problem::ExpectedTable => "expected a table",
            Problem::ExpectedBoolean => "expected a boolean",
            Problem::ExpectedInteger => "expected an integer",
            Problem::ExpectedString => "expected a string",
            Problem::ExpectedArray => "expected an array",
            Problem::OutOfRange => "number out of range",
            Problem::UnknownName => "unknown name",
            Problem::Missing => "missing",
        }
    }
}

impl Invalid {
    /// The key, a colon and the problem in words.
    pub open spec fn spec_message(self) -> Seq<char> {
        self.key.spec_name() + ": "@ + self.problem.spec_description()
    }

    /// Names the key and says what is wrong with it.
    pub fn message(self) -> (message: String)
        ensures
            message@ == self.spec_message(),
    {
        let mut message = String::from_str(self.key.name());
        message.append(": ");
        message.append(self.problem.description());
        message
    }
}

impl LoadError {
    /// The error's message.
    pub open spec fn spec_message(self) -> Seq<char> {
        match self {
            LoadError::Syntax(message) => message@,
            LoadError::Invalid(invalid) => invalid.spec_message(),
        }
    }

    /// The message to show: the parser's own for a syntax error, and the
    /// key with its problem otherwise.
    pub fn message(&self) -> (message: String)
        ensures
            message@ == self.spec_message(),
    {
        match self {
            LoadError::Syntax(message) => message.clone(),
            LoadError::Invalid(invalid) => invalid.message(),
        }
    }
}

impl SaveError {
    /// The error's message.
    pub open spec fn spec_message(self) -> Seq<char> {
        match self {
            SaveError::Invalid(invalid) => invalid.spec_message(),
            SaveError::Print(message) => message@,
        }
    }

    /// The message to show: the key with its problem, or the printer's own
    /// message.
    pub fn message(&self) -> (message: String)
        ensures
            message@ == self.spec_message(),
    {
        match self {
            SaveError::Invalid(invalid) => invalid.message(),
            SaveError::Print(message) => message.clone(),
        }
    }
}

} // verus!
