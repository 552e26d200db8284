//! Which grammar a line uses, and which action its first word names.

use crate::error::{ErrorView, VshError};
use crate::parser::tokenizer::{token_views, Token, TokenView};
use crate::parser::{Intent, SyntaxStyle};
use crate::text::{contains_char, lowercase, str_eq, to_lowercase};
use vstd::prelude::*;
use vstd::string::*;

verus! {

/// The words that, in the verbose grammar, introduce the token after them.
pub open spec fn is_connector(word: Seq<char>) -> bool {
    ||| word == "to"@
    ||| word == "from"@
    ||| word == "in"@
    ||| word == "into"@
    ||| word == "with"@
    ||| word == "without"@
    ||| word == "at"@
    ||| word == "on"@
}

/// A `key=value` token: an unquoted token with an `=` in it.
pub open spec fn is_named_token(t: TokenView) -> bool {
    t.value.contains('=') && !t.is_quoted
}

/// Whether some token is a `key=value` token.
pub open spec fn has_named_token(tokens: Seq<TokenView>) -> bool {
    exists|i: int| 0 <= i < tokens.len() && is_named_token(#[trigger] tokens[i])
}

/// Whether some token is a connector word.
pub open spec fn has_connector(tokens: Seq<TokenView>) -> bool {
    exists|i: int| 0 <= i < tokens.len() && is_connector((#[trigger] tokens[i]).value)
}

/// The grammar of a token sequence: named where any token is a
/// `key=value` token; otherwise verbose where any token is a connector
/// word; otherwise terse.
pub open spec fn detect_syntax_spec(tokens: Seq<TokenView>) -> SyntaxStyle {
    if has_named_token(tokens) {
        SyntaxStyle::Named
    } else if has_connector(tokens) {
        SyntaxStyle::Verbose
    } else {
        SyntaxStyle::Terse
    }
}

/// The action that a lower-case command word names, if any.
pub open spec fn intent_of(word: Seq<char>) -> Option<Intent> {
    if word == "cp"@ || word == "copy"@ {
        Some(Intent::Copy)
    } else if word == "mv"@ || word == "move"@ {
        Some(Intent::Move)
    } else if word == "rm"@ || word == "remove"@ || word == "delete"@ {
        Some(Intent::Remove)
    } else if word == "ls"@ || word == "list"@ || word == "dir"@ {
        Some(Intent::List)
    } else if word == "cd"@ || word == "change-directory"@ || word == "goto"@ {
        Some(Intent::ChangeDirectory)
    } else {
        None
    }
}

/// What `identify_intent` returns on `command`: the action that its
/// lower-case form names, or the error that carries the word as written.
pub open spec fn identify_intent_spec(command: Seq<char>) -> Result<Intent, ErrorView> {
    match intent_of(lowercase(command)) {
        Some(intent) => Ok(intent),
        None => Err(ErrorView::UnknownCommand(command)),
    }
}

/// The outcome of `identify_intent` as a mathematical value.
pub open spec fn intent_outcome(r: Result<Intent, VshError>) -> Result<Intent, ErrorView> {
    match r {
        Ok(intent) => Ok(intent),
        Err(e) => Err(e@),
    }
}

/// Detects the grammar of a token sequence.
pub fn detect_syntax(tokens: &[Token]) -> (r: SyntaxStyle)
    ensures
        r == detect_syntax_spec(token_views(tokens@)),
{
    let ghost views = token_views(tokens@);
    let n: usize = tokens.len();
    let mut i: usize = 0;
    while i < n
        invariant
            n == tokens@.len(),
            views == token_views(tokens@),
            i <= n,
            forall|j: int| 0 <= j < i ==> !is_named_token(#[trigger] views[j]),
        decreases n - i,
    {
        let token = &tokens[i];
        if contains_char(token.value.as_str(), '=') && !token.is_quoted {
            assert(is_named_token(views[i as int]));
            return SyntaxStyle::Named;
        }
        i += 1;
    }
    i = 0;
    while i < n
        invariant
            n == tokens@.len(),
            views == token_views(tokens@),
            i <= n,
            !has_named_token(views),
            forall|j: int| 0 <= j < i ==> !is_connector((#[trigger] views[j]).value),
        decreases n - i,
    {
        if is_connector_word(tokens[i].value.as_str()) {
            assert(is_connector(views[i as int].value));
            return SyntaxStyle::Verbose;
        }
        i += 1;
    }
    SyntaxStyle::Terse
}

/// Whether `word` is a connector word of the verbose grammar.
pub fn is_connector_word(word: &str) -> (r: bool)
    ensures
        r == is_connector(word@),
{
    str_eq(word, "to") || str_eq(word, "from") || str_eq(word, "in") || str_eq(word, "into")
        || str_eq(word, "with") || str_eq(word, "without") || str_eq(word, "at") || str_eq(
        word,
        "on",
    )
}

/// Looks a lower-case command word up in the table of synonyms.
pub fn intent_of_word(word: &str) -> (r: Option<Intent>)
    ensures
        r == intent_of(word@),
{
    if str_eq(word, "cp") || str_eq(word, "copy") {
        Some(Intent::Copy)
    } else if str_eq(word, "mv") || str_eq(word, "move") {
        Some(Intent::Move)
    } else if str_eq(word, "rm") || str_eq(word, "remove") || str_eq(word, "delete") {
        Some(Intent::Remove)
    } else if str_eq(word, "ls") || str_eq(word, "list") || str_eq(word, "dir") {
        Some(Intent::List)
    } else if str_eq(word, "cd") || str_eq(word, "change-directory") || str_eq(word, "goto") {
        Some(Intent::ChangeDirectory)
    } else {
        None
    }
}

/// Finds the action that a command word names, whatever its case. An
/// unknown word comes back in the error as it was written.
pub fn identify_intent(command: &str) -> (r: Result<Intent, VshError>)
    ensures
        intent_outcome(r) == identify_intent_spec(command@),
{
    let lowered = to_lowercase(command);
    match intent_of_word(lowered.as_str()) {
        Some(intent) => Ok(intent),
        None => Err(VshError::UnknownCommand(command.to_string())),
    }
}

/// One `key=value` token anywhere makes the line named, whatever
/// connector words stand beside it.
pub proof fn named_token_wins(tokens: Seq<TokenView>, i: int)
    requires
        0 <= i < tokens.len(),
        is_named_token(tokens[i]),
    ensures
        detect_syntax_spec(tokens) == SyntaxStyle::Named,
{
}

/// The intent does not depend on the case of the command word: two words
/// with the same lower-case form name the same action, or neither names
/// one.
pub proof fn intent_ignores_case(first: Seq<char>, second: Seq<char>)
    requires
        lowercase(first) == lowercase(second),
    ensures
        identify_intent_spec(first) is Ok <==> identify_intent_spec(second) is Ok,
        identify_intent_spec(first) matches Ok(intent) ==> identify_intent_spec(second) == Ok::<
            Intent,
            ErrorView,
        >(intent),
{
}

/// An unknown word comes back as it was written.
pub proof fn unknown_command_keeps_its_word(command: Seq<char>)
    ensures
        identify_intent_spec(command) matches Err(e) ==> e == ErrorView::UnknownCommand(command),
{
}

} // verus!
