//! The errors of the interpreter and their texts.

use vstd::prelude::*;
use vstd::string::*;

verus! {

/// What can go wrong while a line is read or carried out. Each variant
/// carries the detail that its text ends with.
#[derive(Debug)]
pub enum VshError {
    ParseError(String),
    ExecutionError(String),
    FileNotFound(String),
    PermissionDenied(String),
    InvalidSyntax(String),
    IoError(String),
    UnknownCommand(String),
    Other(String),
}

/// An error as a mathematical value.
pub enum ErrorView {
    ParseError(Seq<char>),
    ExecutionError(Seq<char>),
    FileNotFound(Seq<char>),
    PermissionDenied(Seq<char>),
    InvalidSyntax(Seq<char>),
    IoError(Seq<char>),
    UnknownCommand(Seq<char>),
    Other(Seq<char>),
}

impl View for VshError {
    type V = ErrorView;

    open spec fn view(&self) -> ErrorView {
        match self {
            VshError::ParseError(m) => ErrorView::ParseError(m@),
            VshError::ExecutionError(m) => ErrorView::ExecutionError(m@),
            VshError::FileNotFound(m) => ErrorView::FileNotFound(m@),
            VshError::PermissionDenied(m) => ErrorView::PermissionDenied(m@),
            VshError::InvalidSyntax(m) => ErrorView::InvalidSyntax(m@),
            VshError::IoError(m) => ErrorView::IoError(m@),
            VshError::UnknownCommand(m) => ErrorView::UnknownCommand(m@),
            VshError::Other(m) => ErrorView::Other(m@),
        }
    }
}

/// The one-line text of an error: the name of its kind, a colon, and the
/// detail; `Other` is the detail alone.
pub open spec fn message_text(e: ErrorView) -> Seq<char> {
    match e {
        ErrorView::ParseError(m) => "Parse error: "@ + m,
        ErrorView::ExecutionError(m) => "Execution error: "@ + m,
        ErrorView::FileNotFound(m) => "File not found: "@ + m,
        ErrorView::PermissionDenied(m) => "Permission denied: "@ + m,
        ErrorView::InvalidSyntax(m) => "Invalid syntax: "@ + m,
        ErrorView::IoError(m) => "IO error: "@ + m,
        ErrorView::UnknownCommand(m) => "Unknown command: "@ + m,
        ErrorView::Other(m) => m,
    }
}

/// The text of an error followed, for an unknown command and for a file
/// that was not found, by a hint on what to try next.
pub open spec fn suggestion_text(e: ErrorView) -> Seq<char> {
    match e {
        ErrorView::UnknownCommand(_) => message_text(e)
            + "\n\nSuggestion: Type 'help' to see available commands"@,
        ErrorView::FileNotFound(_) => message_text(e)
            + "\n\nSuggestion: Check if the file exists with 'list' command"@,
        _ => message_text(e),
    }
}

fn prefixed(prefix: &str, detail: &String) -> (r: String)
    ensures
        r@ == prefix@ + detail@,
{
    String::from_str(prefix).concat(detail.as_str())
}

impl VshError {
    /// An invalid-syntax error that says `what` is wrong.
    pub fn invalid_syntax(what: &str) -> (e: VshError)
        ensures
            e@ == ErrorView::InvalidSyntax(what@),
    {
        VshError::InvalidSyntax(what.to_string())
    }

    /// The one-line text of the error.
    pub fn message(&self) -> (r: String)
        ensures
            r@ == message_text(self@),
    {
        match self {
            VshError::ParseError(m) => prefixed("Parse error: ", m),
            VshError::ExecutionError(m) => prefixed("Execution error: ", m),
            VshError::FileNotFound(m) => prefixed("File not found: ", m),
            VshError::PermissionDenied(m) => prefixed("Permission denied: ", m),
            VshError::InvalidSyntax(m) => prefixed("Invalid syntax: ", m),
            VshError::IoError(m) => prefixed("IO error: ", m),
            VshError::UnknownCommand(m) => prefixed("Unknown command: ", m),
            VshError::Other(m) => m.clone(),
        }
    }

    /// The text of the error, with a hint appended where one is known.
    pub fn with_suggestion(&self) -> (r: String)
        ensures
            r@ == suggestion_text(self@),
    {
        match self {
            VshError::UnknownCommand(_) => self.message().concat(
                "\n\nSuggestion: Type 'help' to see available commands",
            ),
            VshError::FileNotFound(_) => self.message().concat(
                "\n\nSuggestion: Check if the file exists with 'list' command",
            ),
            _ => self.message(),
        }
    }
}

} // verus!
