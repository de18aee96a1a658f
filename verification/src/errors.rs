//! Error definitions.
//!
//! Every fallible operation of this crate reports its failure through
//! [`Error`], a single type with a kind discriminant that keeps the
//! stages of reading apart: parsing the document, compiling the path
//! expression, evaluating it, and converting a selected value.

use vstd::prelude::*;

verus! {

/// Describes the kind of the error.
#[derive(Copy, Clone, Debug, Eq, PartialEq, Structural)]
pub enum ErrorKind {
    /// The document text failed to parse.
    ParseXml,
    /// The path expression failed to compile, or compiled to an empty
    /// program.
    CompileQuery,
    /// Evaluation failed: the engine reported an error, the result was
    /// not a node-set, or there was no anchor node to evaluate against.
    EvaluateQuery,
    /// The textual content of a selected node could not be parsed into
    /// the target scalar type.
    ConversionValue,
    /// Any other error, supplied by a caller or a conversion author.
    Custom,
}

/// The payload of an [`Error`]: where it came from and what it carries.
#[derive(Debug)]
pub enum ErrorData {
    /// A diagnostic produced inside the crate or by one of its
    /// collaborators (the document parser or the query engine).
    Internal(String),
    /// A conversion failure carrying the exact text that could not be
    /// parsed.
    Value(String),
    /// A caller-supplied error.
    Custom(CustomError),
}

/// A caller-supplied error: a message, a rendered error, or both.
#[derive(Debug)]
pub enum CustomError {
    /// Only a message.
    Message(String),
    /// A rendered error.
    Error(String),
    /// A rendered error together with an additional message.
    ErrorWithMessage(String, String),
}

/// The error type used throughout the crate.
#[derive(Debug)]
pub struct Error {
    kind: ErrorKind,
    data: ErrorData,
}

impl Error {
    /// The kind of this error, as a spec-level value.
    pub closed spec fn spec_kind(self) -> ErrorKind {
        self.kind
    }

    /// The payload of this error, as a spec-level value.
    pub closed spec fn spec_data(self) -> ErrorData {
        self.data
    }

    /// True when this error is a conversion failure carrying exactly
    /// the offending text `t`.
    pub open spec fn is_value_error(self, t: Seq<char>) -> bool {
        &&& self.spec_kind() == ErrorKind::ConversionValue
        &&& self.spec_data() matches ErrorData::Value(s) && s@ == t
    }

    /// An error produced inside the crate, carrying a diagnostic.
    pub(crate) fn internal(message: String, kind: ErrorKind) -> (r: Self)
        ensures
            r.spec_kind() == kind,
            r.spec_data() == ErrorData::Internal(message),
    {
        Error { kind, data: ErrorData::Internal(message) }
    }

    /// A conversion failure on the text `value`: the error every
    /// scalar conversion reports, available to conversion authors too.
    pub fn value_failure(value: String) -> (r: Self)
        ensures
            r.is_value_error(value@),
    {
        Error { kind: ErrorKind::ConversionValue, data: ErrorData::Value(value) }
    }

    /// Returns the error kind of this error.
    pub fn kind(&self) -> (r: ErrorKind)
        ensures
            r == self.spec_kind(),
    {
        self.kind
    }

    /// For a conversion failure, the exact text that could not be
    /// parsed; `None` for every other error.
    pub fn value_text(&self) -> (r: Option<&String>)
        ensures
            match r {
                Some(s) => self.spec_data() == ErrorData::Value(*s),
                None => !(self.spec_data() is Value),
            },
    {
        match &self.data {
            ErrorData::Value(s) => Some(s),
            _ => None,
        }
    }

    /// The diagnostic or message text this error carries, for display.
    pub fn message(&self) -> (r: &String)
        ensures
            match self.spec_data() {
                ErrorData::Internal(s) => *r == s,
                ErrorData::Value(s) => *r == s,
                ErrorData::Custom(c) => match c {
                    CustomError::Message(s) => *r == s,
                    CustomError::Error(s) => *r == s,
                    CustomError::ErrorWithMessage(_, s) => *r
                        == c->ErrorWithMessage_1,
                },
            },
    {
        match &self.data {
            ErrorData::Internal(s) => s,
            ErrorData::Value(s) => s,
            ErrorData::Custom(CustomError::Message(s)) => s,
            ErrorData::Custom(CustomError::Error(s)) => s,
            ErrorData::Custom(CustomError::ErrorWithMessage(_, s)) => s,
        }
    }

    /// Create a new custom error by providing an error message.
    pub fn custom_msg(s: String) -> (r: Self)
        ensures
            r.spec_kind() == ErrorKind::Custom,
            r.spec_data() == ErrorData::Custom(CustomError::Message(s)),
    {
        Error { kind: ErrorKind::Custom, data: ErrorData::Custom(CustomError::Message(s)) }
    }

    /// Create a new custom error by providing a rendered error.
    pub fn custom_error(e: String) -> (r: Self)
        ensures
            r.spec_kind() == ErrorKind::Custom,
            r.spec_data() == ErrorData::Custom(CustomError::Error(e)),
    {
        Error { kind: ErrorKind::Custom, data: ErrorData::Custom(CustomError::Error(e)) }
    }

    /// Create a new custom error by providing a rendered error and an
    /// additional message.
    pub fn custom_err_msg(e: String, s: String) -> (r: Self)
        ensures
            r.spec_kind() == ErrorKind::Custom,
            r.spec_data() == ErrorData::Custom(CustomError::ErrorWithMessage(e, s)),
    {
        Error {
            kind: ErrorKind::Custom,
            data: ErrorData::Custom(CustomError::ErrorWithMessage(e, s)),
        }
    }
}

} // verus!
