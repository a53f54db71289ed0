//! Errors reported by tools and by the registry.
use vstd::prelude::*;

verus! {

/// An error of a tool call or a registry lookup.
#[derive(Debug)]
pub enum Error {
    InvalidArguments { tool: String, reason: String },
    ToolExecutionError { tool: String, reason: String },
    TypeError { expected: String, got: String },
    IndexOutOfBounds { index: usize, length: usize },
    EmptyCollection { operation: String },
    UndefinedTool { name: String },
}

/// The mathematical model of an [`Error`].
pub enum ErrV {
    InvalidArguments { tool: Seq<char>, reason: Seq<char> },
    ToolExecutionError { tool: Seq<char>, reason: Seq<char> },
    TypeError { expected: Seq<char>, got: Seq<char> },
    IndexOutOfBounds { index: nat, length: nat },
    EmptyCollection { operation: Seq<char> },
    UndefinedTool { name: Seq<char> },
}

impl View for Error {
    type V = ErrV;

    open spec fn view(&self) -> ErrV {
        match self {
            Error::InvalidArguments { tool, reason } => ErrV::InvalidArguments {
                tool: tool@,
                reason: reason@,
            },
            Error::ToolExecutionError { tool, reason } => ErrV::ToolExecutionError {
                tool: tool@,
                reason: reason@,
            },
            Error::TypeError { expected, got } => ErrV::TypeError { expected: expected@, got: got@ },
            Error::IndexOutOfBounds { index, length } => ErrV::IndexOutOfBounds {
                index: *index as nat,
                length: *length as nat,
            },
            Error::EmptyCollection { operation } => ErrV::EmptyCollection { operation: operation@ },
            Error::UndefinedTool { name } => ErrV::UndefinedTool { name: name@ },
        }
    }
}

/// An invalid-arguments error of the tool `tool`.
pub fn invalid_args(tool: &str, reason: &str) -> (e: Error)
    ensures
        e@ == (ErrV::InvalidArguments { tool: tool@, reason: reason@ }),
{
    Error::InvalidArguments { tool: String::from_str(tool), reason: String::from_str(reason) }
}

/// An execution error of the tool `tool`.
pub fn exec_error(tool: &str, reason: &str) -> (e: Error)
    ensures
        e@ == (ErrV::ToolExecutionError { tool: tool@, reason: reason@ }),
{
    Error::ToolExecutionError { tool: String::from_str(tool), reason: String::from_str(reason) }
}

/// An empty-collection error of the operation `op`.
pub fn empty_collection(op: &str) -> (e: Error)
    ensures
        e@ == (ErrV::EmptyCollection { operation: op@ }),
{
    Error::EmptyCollection { operation: String::from_str(op) }
}

} // verus!
