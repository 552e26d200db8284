//! The command parser: tokens, the grammar in use, the intent, and the
//! arguments in canonical form.

pub mod syntax;
pub mod tokenizer;
pub mod translator;

use crate::error::{ErrorView, VshError};
use crate::parser::syntax::{detect_syntax, detect_syntax_spec, identify_intent, identify_intent_spec};
use crate::parser::tokenizer::{token_views, tokenize, tokenize_spec};
use crate::parser::translator::{extract_args, extract_args_spec, required_present};
use crate::text::opt_text;
use vstd::prelude::*;
use vstd::string::*;

verus! {

/// The action that a command asks for.
#[derive(Debug, Clone, Copy, PartialEq, Eq, Structural)]
pub enum Intent {
    Copy,
    Move,
    Remove,
    List,
    ChangeDirectory,
}

/// The grammar in which a command was written.
#[derive(Debug, Clone, Copy, PartialEq, Eq, Structural)]
pub enum SyntaxStyle {
    /// Positional, as in `cp a b`.
    Terse,
    /// With connector words, as in `copy a to b`.
    Verbose,
    /// With `key=value` parameters, as in `copy source=a dest=b`.
    Named,
}

/// The arguments of a command in canonical form.
#[derive(Debug, Clone)]
pub struct CommandArgs {
    pub source: Option<String>,
    pub destination: Option<String>,
    pub path: Option<String>,
    pub flags: Vec<String>,
    pub extra: Vec<String>,
}

/// The arguments of a command as a mathematical value.
pub struct ArgsView {
    pub source: Option<Seq<char>>,
    pub destination: Option<Seq<char>>,
    pub path: Option<Seq<char>>,
    pub flags: Seq<Seq<char>>,
    pub extra: Seq<Seq<char>>,
}

/// The texts of a sequence of strings, in order.
pub open spec fn texts(v: Seq<String>) -> Seq<Seq<char>> {
    Seq::new(v.len(), |i: int| v[i]@)
}

/// The arguments with nothing set.
pub open spec fn empty_args() -> ArgsView {
    ArgsView {
        source: None,
        destination: None,
        path: None,
        flags: Seq::empty(),
        extra: Seq::empty(),
    }
}

impl View for CommandArgs {
    type V = ArgsView;

    open spec fn view(&self) -> ArgsView {
        ArgsView {
            source: opt_text(self.source),
            destination: opt_text(self.destination),
            path: opt_text(self.path),
            flags: texts(self.flags@),
            extra: texts(self.extra@),
        }
    }
}

impl CommandArgs {
    /// Arguments with every field absent or empty.
    pub fn new() -> (r: Self)
        ensures
            r@ == empty_args(),
    {
        let r = CommandArgs {
            source: None,
            destination: None,
            path: None,
            flags: Vec::new(),
            extra: Vec::new(),
        };
        assert(r@.flags =~= Seq::empty());
        assert(r@.extra =~= Seq::empty());
        r
    }
}

impl Default for CommandArgs {
    fn default() -> (r: Self)
        ensures
            r@ == empty_args(),
    {
        CommandArgs::new()
    }
}

/// A parsed command, ready to be carried out.
#[derive(Debug, Clone)]
pub struct Command {
    pub intent: Intent,
    pub args: CommandArgs,
    pub syntax_used: SyntaxStyle,
}

/// A parsed command as a mathematical value.
pub struct CommandView {
    pub intent: Intent,
    pub args: ArgsView,
    pub syntax_used: SyntaxStyle,
}

impl View for Command {
    type V = CommandView;

    open spec fn view(&self) -> CommandView {
        CommandView { intent: self.intent, args: self.args@, syntax_used: self.syntax_used }
    }
}

/// What `parse_command` returns on `input`: the first error on the way
/// from text to tokens, to grammar and intent, to arguments; or the command
/// made of the three.
pub open spec fn parse_spec(input: Seq<char>) -> Result<CommandView, ErrorView> {
    match tokenize_spec(input) {
        Err(e) => Err(e),
        Ok(tokens) => {
            if tokens.len() == 0 {
                Err(ErrorView::InvalidSyntax("Empty command"@))
            } else {
                let syntax = detect_syntax_spec(tokens);
                match identify_intent_spec(tokens[0].value) {
                    Err(e) => Err(e),
                    Ok(intent) => match extract_args_spec(tokens, syntax, intent) {
                        Err(e) => Err(e),
                        Ok(args) => Ok(CommandView { intent, args, syntax_used: syntax }),
                    },
                }
            }
        },
    }
}

/// The outcome of `parse_command` as a mathematical value.
pub open spec fn command_outcome(r: Result<Command, VshError>) -> Result<CommandView, ErrorView> {
    match r {
        Ok(command) => Ok(command@),
        Err(e) => Err(e@),
    }
}

/// Parses one line into a command. The line is split into tokens, the
/// grammar is detected over all of them, the first token gives the intent,
/// and the arguments are extracted by the grammar's rules. A line without
/// tokens is rejected as invalid syntax.
pub fn parse_command(input: &str) -> (r: Result<Command, VshError>)
    ensures
        command_outcome(r) == parse_spec(input@),
        r matches Ok(command) ==> required_present(command@.args, command@.intent),
{
    let tokens = match tokenize(input) {
        Ok(tokens) => tokens,
        Err(e) => {
            return Err(e);
        },
    };
    if tokens.len() == 0 {
        return Err(VshError::invalid_syntax("Empty command"));
    }
    let ghost views = token_views(tokens@);
    let syntax = detect_syntax(tokens.as_slice());
    assert(views[0].value == tokens@[0].value@);
    let intent = match identify_intent(tokens[0].value.as_str()) {
        Ok(intent) => intent,
        Err(e) => {
            return Err(e);
        },
    };
    let args = match extract_args(tokens.as_slice(), &syntax, &intent) {
        Ok(args) => args,
        Err(e) => {
            return Err(e);
        },
    };
    Ok(Command { intent, args, syntax_used: syntax })
}

/// Parsing has no hidden state: two outcomes of parsing the same line are
/// the same value.
pub proof fn parse_is_deterministic(
    input: Seq<char>,
    first: Result<Command, VshError>,
    second: Result<Command, VshError>,
)
    requires
        command_outcome(first) == parse_spec(input),
        command_outcome(second) == parse_spec(input),
    ensures
        command_outcome(first) == command_outcome(second),
{
}

/// A line that parses gives a command that holds every argument its
/// intent needs.
pub proof fn parsed_command_is_complete(input: Seq<char>)
    ensures
        parse_spec(input) matches Ok(command) ==> required_present(command.args, command.intent),
{
}

} // verus!
