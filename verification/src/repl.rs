//! What the interactive loop does with a line, and what it suggests after
//! a line that did not parse.

use crate::system::{hostname, username};
use crate::text::{has_prefix, opt_text, opt_view, str_eq, trim, trimmed};
use vstd::prelude::*;
use vstd::string::*;

verus! {

/// What the loop does with one line.
#[derive(Debug, Clone, Copy, PartialEq, Eq, Structural)]
pub enum ReplAction {
    /// Nothing: the line is empty.
    Skip,
    /// Leave the loop.
    Quit,
    /// Show the help text.
    Help,
    /// Print the working directory.
    PrintWorkingDirectory,
    /// Parse the line and carry the command out.
    Run,
}

/// What the loop does with a line, given without the white space around
/// it: `exit` and `quit` leave, `help` and `pwd` are answered by the loop
/// itself, and anything else but the empty line is a command.
pub open spec fn repl_action_spec(line: Seq<char>) -> ReplAction {
    if line.len() == 0 {
        ReplAction::Skip
    } else if line == "exit"@ || line == "quit"@ {
        ReplAction::Quit
    } else if line == "help"@ {
        ReplAction::Help
    } else if line == "pwd"@ {
        ReplAction::PrintWorkingDirectory
    } else {
        ReplAction::Run
    }
}

/// Decides what the loop does with a trimmed line.
pub fn repl_action(line: &str) -> (r: ReplAction)
    ensures
        r == repl_action_spec(line@),
{
    if line.is_empty() {
        ReplAction::Skip
    } else if str_eq(line, "exit") || str_eq(line, "quit") {
        ReplAction::Quit
    } else if str_eq(line, "help") {
        ReplAction::Help
    } else if str_eq(line, "pwd") {
        ReplAction::PrintWorkingDirectory
    } else {
        ReplAction::Run
    }
}

/// The verbose form to try after a line in terse form did not parse, for
/// the lines that begin with `cp `, `ls`, `mv ` or `rm `.
pub open spec fn suggestion_spec(input: Seq<char>) -> Option<Seq<char>> {
    if "cp "@.is_prefix_of(input) {
        Some("Try: copy <source> to <dest>"@)
    } else if "ls"@.is_prefix_of(input) {
        Some("Try: list [path]"@)
    } else if "mv "@.is_prefix_of(input) {
        Some("Try: move <source> to <dest>"@)
    } else if "rm "@.is_prefix_of(input) {
        Some("Try: remove <file>"@)
    } else {
        None
    }
}

/// Finds what to suggest after `input` did not parse.
pub fn suggestion_for(input: &str) -> (r: Option<&'static str>)
    ensures
        opt_view(r) == suggestion_spec(input@),
{
    if has_prefix(input, "cp ") {
        Some("Try: copy <source> to <dest>")
    } else if has_prefix(input, "ls") {
        Some("Try: list [path]")
    } else if has_prefix(input, "mv ") {
        Some("Try: move <source> to <dest>")
    } else if has_prefix(input, "rm ") {
        Some("Try: remove <file>")
    } else {
        None
    }
}

/// What the line editor hands back.
#[derive(Debug, Clone)]
pub enum ReplEvent {
    /// A line was entered.
    Line(String),
    /// The user interrupted the input.
    Interrupted,
    /// The input has ended.
    EndOfInput,
    /// The editor failed.
    Failed,
}

/// What the loop does next.
#[derive(Debug, Clone, Copy, PartialEq, Eq, Structural)]
pub enum ReplStep {
    /// Do what the line asks for, and read on unless it is `Quit`.
    Act(ReplAction),
    /// Show that the input was interrupted, and read on.
    Interrupt,
    /// Say goodbye and leave.
    Leave,
    /// Report the failure and leave.
    Abort,
}

/// An event as a mathematical value.
pub enum EventView {
    Line(Seq<char>),
    Interrupted,
    EndOfInput,
    Failed,
}

impl View for ReplEvent {
    type V = EventView;

    open spec fn view(&self) -> EventView {
        match self {
            ReplEvent::Line(line) => EventView::Line(line@),
            ReplEvent::Interrupted => EventView::Interrupted,
            ReplEvent::EndOfInput => EventView::EndOfInput,
            ReplEvent::Failed => EventView::Failed,
        }
    }
}

/// The step after an event: a line is acted on by what it holds between
/// the white space around it, an interrupt is shown, and the loop ends
/// with the input and on a failure.
pub open spec fn repl_step_spec(event: EventView) -> ReplStep {
    match event {
        EventView::Line(line) => ReplStep::Act(repl_action_spec(trimmed(line))),
        EventView::Interrupted => ReplStep::Interrupt,
        EventView::EndOfInput => ReplStep::Leave,
        EventView::Failed => ReplStep::Abort,
    }
}

/// Decides what the loop does after an event.
pub fn repl_step(event: &ReplEvent) -> (r: ReplStep)
    ensures
        r == repl_step_spec(event@),
{
    match event {
        ReplEvent::Line(line) => ReplStep::Act(repl_action(trim(line.as_str()))),
        ReplEvent::Interrupted => ReplStep::Interrupt,
        ReplEvent::EndOfInput => ReplStep::Leave,
        ReplEvent::Failed => ReplStep::Abort,
    }
}

/// The prompt: user, `@`, host, `:`, directory, `$`. A host without a
/// name is `localhost`.
pub open spec fn prompt_spec(user: Seq<char>, host: Option<Seq<char>>, directory: Seq<char>) -> Seq<
    char,
> {
    let host = match host {
        Some(host) => host,
        None => "localhost"@,
    };
    user + "@"@ + host + ":"@ + directory + "$"@
}

/// Writes the prompt for a user on a host in a directory.
pub fn prompt_text(user: &str, host: Option<&str>, directory: &str) -> (r: String)
    ensures
        r@ == prompt_spec(user@, opt_view(host), directory@),
{
    let host = match host {
        Some(host) => host,
        None => "localhost",
    };
    String::from_str(user).concat("@").concat(host).concat(":").concat(directory).concat("$")
}

/// Writes the prompt for the user who runs the program, on this machine,
/// in `directory`.
pub fn prompt_for(directory: &str) -> (r: String)
    ensures
        exists|user: Seq<char>, host: Option<Seq<char>>| r@ == prompt_spec(user, host, directory@),
{
    let user = username();
    let host = hostname();
    let r = match &host {
        Some(host) => prompt_text(user.as_str(), Some(host.as_str()), directory),
        None => prompt_text(user.as_str(), None, directory),
    };
    assert(r@ == prompt_spec(user@, opt_text(host), directory@));
    r
}

} // verus!
