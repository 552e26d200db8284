//! From tokens to arguments: one extractor for each grammar, and the check
//! that the arguments an action needs are there.

use crate::error::{ErrorView, VshError};
use crate::parser::tokenizer::{token_views, Token, TokenView};
use crate::parser::{empty_args, texts, ArgsView, CommandArgs, Intent, SyntaxStyle};
use crate::text::{split_first, split_once_char, starts_with, starts_with_char, str_eq};
use vstd::prelude::*;
use vstd::string::*;

verus! {

/// The actions that work on a source: copy, move and remove.
pub open spec fn requires_source_spec(intent: Intent) -> bool {
    intent == Intent::Copy || intent == Intent::Move || intent == Intent::Remove
}

/// The actions that work on a directory path: list and change directory.
pub open spec fn requires_path_spec(intent: Intent) -> bool {
    intent == Intent::List || intent == Intent::ChangeDirectory
}

/// What is missing from `args` for `intent`, in words, if anything is.
/// Copy and move need a source and a destination, remove needs a source,
/// and the other actions need nothing.
pub open spec fn missing_argument(args: ArgsView, intent: Intent) -> Option<Seq<char>> {
    match intent {
        Intent::Copy | Intent::Move => {
            if args.source is None {
                Some("Missing source"@)
            } else if args.destination is None {
                Some("Missing destination"@)
            } else {
                None
            }
        },
        Intent::Remove => {
            if args.source is None {
                Some("Missing file to remove"@)
            } else {
                None
            }
        },
        Intent::List | Intent::ChangeDirectory => None,
    }
}

/// Whether `args` holds every argument that `intent` needs.
pub open spec fn required_present(args: ArgsView, intent: Intent) -> bool {
    match intent {
        Intent::Copy | Intent::Move => args.source is Some && args.destination is Some,
        Intent::Remove => args.source is Some,
        Intent::List | Intent::ChangeDirectory => true,
    }
}

/// The arguments themselves where nothing is missing, else the error that
/// says what is.
pub open spec fn validated(args: ArgsView, intent: Intent) -> Result<ArgsView, ErrorView> {
    match missing_argument(args, intent) {
        Some(what) => Err(ErrorView::InvalidSyntax(what)),
        None => Ok(args),
    }
}

/// The outcome of an extractor as a mathematical value.
pub open spec fn args_outcome(r: Result<CommandArgs, VshError>) -> Result<ArgsView, ErrorView> {
    match r {
        Ok(args) => Ok(args@),
        Err(e) => Err(e@),
    }
}

/// The fields that a `key=value` token can set.
pub enum Field {
    Source,
    Destination,
    Path,
}

/// The field that a key of the named grammar stands for, if it is known.
/// Keys are compared as written.
pub open spec fn field_of_key(key: Seq<char>) -> Option<Field> {
    if key == "source"@ || key == "src"@ || key == "from"@ {
        Some(Field::Source)
    } else if key == "destination"@ || key == "dest"@ || key == "to"@ || key == "target"@ {
        Some(Field::Destination)
    } else if key == "path"@ || key == "directory"@ || key == "dir"@ {
        Some(Field::Path)
    } else {
        None
    }
}

/// The field that a token sets and the value it gives it: the token is
/// split once, at its first `=`, and the part before it is a known key.
pub open spec fn named_field(token: Seq<char>) -> Option<(Field, Seq<char>)> {
    match split_first(token, '=') {
        Some((key, value)) => match field_of_key(key) {
            Some(field) => Some((field, value)),
            None => None,
        },
        None => None,
    }
}

/// The value that a token gives to the field it sets.
pub open spec fn named_value(token: Seq<char>) -> Seq<char> {
    match named_field(token) {
        Some((_, value)) => value,
        None => Seq::empty(),
    }
}

/// What `args` holds in `field`.
pub open spec fn get_field(args: ArgsView, field: Field) -> Option<Seq<char>> {
    match field {
        Field::Source => args.source,
        Field::Destination => args.destination,
        Field::Path => args.path,
    }
}

/// `args` with `value` in `field`.
pub open spec fn set_field(args: ArgsView, field: Field, value: Seq<char>) -> ArgsView {
    match field {
        Field::Source => ArgsView { source: Some(value), ..args },
        Field::Destination => ArgsView { destination: Some(value), ..args },
        Field::Path => ArgsView { path: Some(value), ..args },
    }
}

/// The arguments after one more token of the named grammar. A token
/// `key=value` with a known key sets that key's field; any other token is
/// kept whole among the leftovers.
pub open spec fn named_step(args: ArgsView, token: Seq<char>) -> ArgsView {
    match named_field(token) {
        Some((field, value)) => set_field(args, field, value),
        None => ArgsView { extra: args.extra.push(token), ..args },
    }
}

/// The arguments that the tokens after the command word and before
/// position `n` give in the named grammar.
pub open spec fn named_upto(tokens: Seq<TokenView>, n: int) -> ArgsView
    decreases n,
{
    if n <= 1 {
        empty_args()
    } else {
        named_step(named_upto(tokens, n - 1), tokens[n - 1].value)
    }
}

/// What `extract_named_args` returns.
pub open spec fn named_spec(tokens: Seq<TokenView>, intent: Intent) -> Result<
    ArgsView,
    ErrorView,
> {
    validated(named_upto(tokens, tokens.len() as int), intent)
}

/// The verbose grammar from position `i` on, with `args` gathered so far.
/// `to` and `into` give the next token as destination, `from` as source,
/// `in` and `at` as path, and it is an error if no token follows. Any
/// other token is the source, if the action has one and none is set yet;
/// else the path, likewise; else a leftover.
pub open spec fn verbose_from(tokens: Seq<TokenView>, i: int, args: ArgsView, intent: Intent)
    -> Result<ArgsView, Seq<char>>
    decreases tokens.len() - i,
{
    if i < 0 || i >= tokens.len() {
        Ok(args)
    } else {
        let word = tokens[i].value;
        if word == "to"@ || word == "into"@ {
            if i + 1 < tokens.len() {
                verbose_from(
                    tokens,
                    i + 2,
                    ArgsView { destination: Some(tokens[i + 1].value), ..args },
                    intent,
                )
            } else {
                Err("Expected destination after 'to'"@)
            }
        } else if word == "from"@ {
            if i + 1 < tokens.len() {
                verbose_from(
                    tokens,
                    i + 2,
                    ArgsView { source: Some(tokens[i + 1].value), ..args },
                    intent,
                )
            } else {
                Err("Expected source after 'from'"@)
            }
        } else if word == "in"@ || word == "at"@ {
            if i + 1 < tokens.len() {
                verbose_from(
                    tokens,
                    i + 2,
                    ArgsView { path: Some(tokens[i + 1].value), ..args },
                    intent,
                )
            } else {
                Err("Expected path after 'in'"@)
            }
        } else if args.source is None && requires_source_spec(intent) {
            verbose_from(tokens, i + 1, ArgsView { source: Some(word), ..args }, intent)
        } else if args.path is None && requires_path_spec(intent) {
            verbose_from(tokens, i + 1, ArgsView { path: Some(word), ..args }, intent)
        } else {
            verbose_from(tokens, i + 1, ArgsView { extra: args.extra.push(word), ..args }, intent)
        }
    }
}

/// What `extract_verbose_args` returns.
pub open spec fn verbose_spec(tokens: Seq<TokenView>, intent: Intent) -> Result<
    ArgsView,
    ErrorView,
> {
    match verbose_from(tokens, 1, empty_args(), intent) {
        Ok(args) => validated(args, intent),
        Err(what) => Err(ErrorView::InvalidSyntax(what)),
    }
}

/// A flag is a token that begins with `-`.
pub open spec fn is_flag(token: Seq<char>) -> bool {
    starts_with(token, '-')
}

/// The test for a flag, as a value.
pub open spec fn flag_pred() -> spec_fn(Seq<char>) -> bool {
    |token: Seq<char>| is_flag(token)
}

/// The test for a token that is no flag, as a value.
pub open spec fn plain_pred() -> spec_fn(Seq<char>) -> bool {
    |token: Seq<char>| !is_flag(token)
}

/// The texts of the tokens from position `from` up to position `to`.
pub open spec fn values_between(tokens: Seq<TokenView>, from: int, to: int) -> Seq<Seq<char>> {
    Seq::new(
        if from <= to {
            (to - from) as nat
        } else {
            0
        },
        |k: int| tokens[from + k].value,
    )
}

/// The texts of the tokens from position `from` on.
pub open spec fn values_from(tokens: Seq<TokenView>, from: int) -> Seq<Seq<char>> {
    values_between(tokens, from, tokens.len() as int)
}

/// The terse grammar with the positional tokens already placed: of the
/// tokens from `rest` on, the flags go to `flags` and the others to the
/// leftovers, each in their order.
pub open spec fn terse_args(
    tokens: Seq<TokenView>,
    source: Option<Seq<char>>,
    destination: Option<Seq<char>>,
    path: Option<Seq<char>>,
    rest: int,
) -> ArgsView {
    ArgsView {
        source,
        destination,
        path,
        flags: values_from(tokens, rest).filter(flag_pred()),
        extra: values_from(tokens, rest).filter(plain_pred()),
    }
}

/// What `extract_terse_args` returns. Copy and move take a source and a
/// destination, remove takes a source, list and change directory take a
/// path, which is `.` where none is given.
pub open spec fn terse_spec(tokens: Seq<TokenView>, intent: Intent) -> Result<
    ArgsView,
    ErrorView,
> {
    match intent {
        Intent::Copy | Intent::Move => {
            if tokens.len() < 3 {
                Err(ErrorView::InvalidSyntax("Expected: <command> <source> <destination>"@))
            } else {
                Ok(terse_args(tokens, Some(tokens[1].value), Some(tokens[2].value), None, 3))
            }
        },
        Intent::Remove => {
            if tokens.len() < 2 {
                Err(ErrorView::InvalidSyntax("Expected: <command> <file>"@))
            } else {
                Ok(terse_args(tokens, Some(tokens[1].value), None, None, 2))
            }
        },
        Intent::List | Intent::ChangeDirectory => {
            if tokens.len() > 1 {
                Ok(terse_args(tokens, None, None, Some(tokens[1].value), 2))
            } else {
                Ok(terse_args(tokens, None, None, Some("."@), 2))
            }
        },
    }
}

/// What `extract_args` returns: the result of the extractor of `syntax`.
pub open spec fn extract_args_spec(tokens: Seq<TokenView>, syntax: SyntaxStyle, intent: Intent)
    -> Result<ArgsView, ErrorView> {
    match syntax {
        SyntaxStyle::Named => named_spec(tokens, intent),
        SyntaxStyle::Verbose => verbose_spec(tokens, intent),
        SyntaxStyle::Terse => terse_spec(tokens, intent),
    }
}

/// Whether `intent` works on a source.
pub fn requires_source(intent: &Intent) -> (r: bool)
    ensures
        r == requires_source_spec(*intent),
{
    matches!(intent, Intent::Copy | Intent::Move | Intent::Remove)
}

/// Whether `intent` works on a directory path.
pub fn requires_path(intent: &Intent) -> (r: bool)
    ensures
        r == requires_path_spec(*intent),
{
    matches!(intent, Intent::List | Intent::ChangeDirectory)
}

/// Checks that `args` holds what `intent` needs.
pub fn validate_args(args: &CommandArgs, intent: &Intent) -> (r: Result<(), VshError>)
    ensures
        match r {
            Ok(_) => missing_argument(args@, *intent) is None,
            Err(e) => missing_argument(args@, *intent) matches Some(what) && e@
                == ErrorView::InvalidSyntax(what),
        },
        r is Ok <==> required_present(args@, *intent),
{
    match intent {
        Intent::Copy | Intent::Move => {
            if args.source.is_none() {
                return Err(VshError::invalid_syntax("Missing source"));
            }
            if args.destination.is_none() {
                return Err(VshError::invalid_syntax("Missing destination"));
            }
        },
        Intent::Remove => {
            if args.source.is_none() {
                return Err(VshError::invalid_syntax("Missing file to remove"));
            }
        },
        Intent::List | Intent::ChangeDirectory => {},
    }
    Ok(())
}

fn checked(args: CommandArgs, intent: &Intent) -> (r: Result<CommandArgs, VshError>)
    ensures
        args_outcome(r) == validated(args@, *intent),
{
    match validate_args(&args, intent) {
        Ok(_) => Ok(args),
        Err(e) => Err(e),
    }
}

fn push_text(list: &mut Vec<String>, text: String)
    ensures
        texts(final(list)@) == texts(old(list)@).push(text@),
{
    list.push(text);
    assert(texts(list@) =~= texts(old(list)@).push(text@));
}

/// Extracts the arguments in the named grammar.
pub fn extract_named_args(tokens: &[Token], intent: &Intent) -> (r: Result<CommandArgs, VshError>)
    ensures
        args_outcome(r) == named_spec(token_views(tokens@), *intent),
        r is Ok ==> required_present(r->Ok_0@, *intent),
{
    let ghost views = token_views(tokens@);
    let mut args = CommandArgs::new();
    let n: usize = tokens.len();
    let mut i: usize = 1;
    while i < n
        invariant
            n == tokens@.len(),
            views == token_views(tokens@),
            1 <= i,
            args@ == named_upto(views, if i <= n { i as int } else { n as int }),
        decreases n - i,
    {
        let token = &tokens[i];
        assert(views[i as int].value == token.value@);
        match split_once_char(token.value.as_str(), '=') {
            Some((key, value)) => {
                if str_eq(key, "source") || str_eq(key, "src") || str_eq(key, "from") {
                    args.source = Some(value.to_string());
                } else if str_eq(key, "destination") || str_eq(key, "dest") || str_eq(key, "to")
                    || str_eq(key, "target") {
                    args.destination = Some(value.to_string());
                } else if str_eq(key, "path") || str_eq(key, "directory") || str_eq(key, "dir") {
                    args.path = Some(value.to_string());
                } else {
                    push_text(&mut args.extra, token.value.clone());
                }
            },
            None => {
                push_text(&mut args.extra, token.value.clone());
            },
        }
        i += 1;
    }
    checked(args, intent)
}

/// Extracts the arguments in the verbose grammar.
pub fn extract_verbose_args(tokens: &[Token], intent: &Intent) -> (r: Result<
    CommandArgs,
    VshError,
>)
    ensures
        args_outcome(r) == verbose_spec(token_views(tokens@), *intent),
        r is Ok ==> required_present(r->Ok_0@, *intent),
{
    let ghost views = token_views(tokens@);
    let mut args = CommandArgs::new();
    let n: usize = tokens.len();
    let mut i: usize = 1;
    while i < n
        invariant
            n == tokens@.len(),
            views == token_views(tokens@),
            1 <= i,
            verbose_from(views, 1, empty_args(), *intent) == verbose_from(
                views,
                i as int,
                args@,
                *intent,
            ),
        decreases n - i,
    {
        let token = &tokens[i];
        let word = token.value.as_str();
        assert(views[i as int].value == word@);
        if str_eq(word, "to") || str_eq(word, "into") {
            if i + 1 < n {
                assert(views[i + 1].value == tokens@[i + 1].value@);
                args.destination = Some(tokens[i + 1].value.clone());
                i += 2;
            } else {
                return Err(VshError::invalid_syntax("Expected destination after 'to'"));
            }
        } else if str_eq(word, "from") {
            if i + 1 < n {
                assert(views[i + 1].value == tokens@[i + 1].value@);
                args.source = Some(tokens[i + 1].value.clone());
                i += 2;
            } else {
                return Err(VshError::invalid_syntax("Expected source after 'from'"));
            }
        } else if str_eq(word, "in") || str_eq(word, "at") {
            if i + 1 < n {
                assert(views[i + 1].value == tokens@[i + 1].value@);
                args.path = Some(tokens[i + 1].value.clone());
                i += 2;
            } else {
                return Err(VshError::invalid_syntax("Expected path after 'in'"));
            }
        } else {
            if args.source.is_none() && requires_source(intent) {
                args.source = Some(token.value.clone());
            } else if args.path.is_none() && requires_path(intent) {
                args.path = Some(token.value.clone());
            } else {
                push_text(&mut args.extra, token.value.clone());
            }
            i += 1;
        }
    }
    checked(args, intent)
}

/// Pushing onto a sequence pushes onto its filter where the item passes,
/// and leaves the filter as it is where it does not.
proof fn lemma_filter_push(s: Seq<Seq<char>>, x: Seq<char>, pred: spec_fn(Seq<char>) -> bool)
    ensures
        s.push(x).filter(pred) == if pred(x) {
            s.filter(pred).push(x)
        } else {
            s.filter(pred)
        },
{
    reveal_with_fuel(Seq::filter, 2);
    assert(s.push(x).drop_last() =~= s);
}

/// Sorts the tokens from position `from` on into flags and leftovers.
fn split_flags(tokens: &[Token], from: usize, args: &mut CommandArgs)
    requires
        old(args)@.flags == Seq::<Seq<char>>::empty(),
        old(args)@.extra == Seq::<Seq<char>>::empty(),
    ensures
        final(args)@ == terse_args(
            token_views(tokens@),
            old(args)@.source,
            old(args)@.destination,
            old(args)@.path,
            from as int,
        ),
{
    let ghost views = token_views(tokens@);
    let n: usize = tokens.len();
    let mut i: usize = from;
    proof {
        reveal_with_fuel(Seq::filter, 1);
        assert(values_between(views, from as int, from as int) =~= Seq::empty());
    }
    while i < n
        invariant
            n == tokens@.len(),
            views == token_views(tokens@),
            from <= i,
            i <= n || i == from,
            args@.source == old(args)@.source,
            args@.destination == old(args)@.destination,
            args@.path == old(args)@.path,
            args@.flags == values_between(views, from as int, i as int).filter(flag_pred()),
            args@.extra == values_between(views, from as int, i as int).filter(plain_pred()),
        decreases n - i,
    {
        let token = &tokens[i];
        proof {
            let before = values_between(views, from as int, i as int);
            assert(values_between(views, from as int, i + 1) =~= before.push(token.value@));
            lemma_filter_push(before, token.value@, flag_pred());
            lemma_filter_push(before, token.value@, plain_pred());
        }
        if starts_with_char(token.value.as_str(), '-') {
            push_text(&mut args.flags, token.value.clone());
        } else {
            push_text(&mut args.extra, token.value.clone());
        }
        i += 1;
    }
    proof {
        if from <= n {
            assert(i == n);
        } else {
            assert(values_from(views, from as int) =~= Seq::empty());
            assert(values_between(views, from as int, i as int) =~= Seq::empty());
        }
    }
}

/// Extracts the arguments in the terse grammar.
pub fn extract_terse_args(tokens: &[Token], intent: &Intent) -> (r: Result<CommandArgs, VshError>)
    ensures
        args_outcome(r) == terse_spec(token_views(tokens@), *intent),
        r is Ok ==> required_present(r->Ok_0@, *intent),
{
    let ghost views = token_views(tokens@);
    let mut args = CommandArgs::new();
    match intent {
        Intent::Copy | Intent::Move => {
            if tokens.len() < 3 {
                return Err(VshError::invalid_syntax("Expected: <command> <source> <destination>"));
            }
            assert(views[1].value == tokens@[1].value@);
            assert(views[2].value == tokens@[2].value@);
            args.source = Some(tokens[1].value.clone());
            args.destination = Some(tokens[2].value.clone());
            split_flags(tokens, 3, &mut args);
        },
        Intent::Remove => {
            if tokens.len() < 2 {
                return Err(VshError::invalid_syntax("Expected: <command> <file>"));
            }
            assert(views[1].value == tokens@[1].value@);
            args.source = Some(tokens[1].value.clone());
            split_flags(tokens, 2, &mut args);
        },
        Intent::List | Intent::ChangeDirectory => {
            if tokens.len() > 1 {
                assert(views[1].value == tokens@[1].value@);
                args.path = Some(tokens[1].value.clone());
            } else {
                args.path = Some(".".to_string());
            }
            split_flags(tokens, 2, &mut args);
        },
    }
    checked(args, intent)
}

/// Extracts the arguments of a command from its tokens, by the rules of
/// the grammar `syntax`, and checks that `intent` has what it needs.
pub fn extract_args(tokens: &[Token], syntax: &SyntaxStyle, intent: &Intent) -> (r: Result<
    CommandArgs,
    VshError,
>)
    ensures
        args_outcome(r) == extract_args_spec(token_views(tokens@), *syntax, *intent),
        r is Ok ==> required_present(r->Ok_0@, *intent),
{
    match syntax {
        SyntaxStyle::Named => extract_named_args(tokens, intent),
        SyntaxStyle::Verbose => extract_verbose_args(tokens, intent),
        SyntaxStyle::Terse => extract_terse_args(tokens, intent),
    }
}

/// Whether the token at position `i` sets `field` in the named grammar.
pub open spec fn names_field(tokens: Seq<TokenView>, i: int, field: Field) -> bool {
    named_field(tokens[i].value) matches Some((f, _)) && f == field
}

/// The test for a token that sets no field, as a value.
pub open spec fn leftover_pred() -> spec_fn(Seq<char>) -> bool {
    |token: Seq<char>| named_field(token) is None
}

proof fn lemma_named_upto(tokens: Seq<TokenView>, n: int, field: Field)
    requires
        n <= tokens.len(),
    ensures
        named_upto(tokens, n).flags == Seq::<Seq<char>>::empty(),
        named_upto(tokens, n).extra == values_between(tokens, 1, n).filter(leftover_pred()),
        (forall|j: int| 1 <= j < n ==> !names_field(tokens, j, field)) ==> get_field(
            named_upto(tokens, n),
            field,
        ) is None,
        forall|i: int|
            1 <= i < n && names_field(tokens, i, field) && (forall|j: int|
                i < j < n ==> !names_field(tokens, j, field)) ==> get_field(
                named_upto(tokens, n),
                field,
            ) == Some(named_value(tokens[i].value)),
    decreases n,
{
    if n <= 1 {
        reveal_with_fuel(Seq::filter, 1);
        assert(values_between(tokens, 1, n) =~= Seq::empty());
    } else {
        lemma_named_upto(tokens, n - 1, field);
        let before = values_between(tokens, 1, n - 1);
        let token = tokens[n - 1].value;
        assert(values_between(tokens, 1, n) =~= before.push(token));
        lemma_filter_push(before, token, leftover_pred());
        if forall|j: int| 1 <= j < n ==> !names_field(tokens, j, field) {
            assert(!names_field(tokens, n - 1, field));
            assert(forall|j: int| 1 <= j < n - 1 ==> !names_field(tokens, j, field));
        }
        assert forall|i: int|
            1 <= i < n && names_field(tokens, i, field) && (forall|j: int|
                i < j < n ==> !names_field(tokens, j, field)) implies get_field(
            named_upto(tokens, n),
            field,
        ) == Some(named_value(tokens[i].value)) by {
            if i < n - 1 {
                assert(!names_field(tokens, n - 1, field));
                assert(forall|j: int| i < j < n - 1 ==> !names_field(tokens, j, field));
            }
        }
    }
}

/// In the named grammar the leftovers are the tokens after the command
/// word that set no field, in their order, and there are no flags.
pub proof fn named_leftovers_keep_their_order(tokens: Seq<TokenView>)
    ensures
        named_upto(tokens, tokens.len() as int).flags == Seq::<Seq<char>>::empty(),
        named_upto(tokens, tokens.len() as int).extra == values_from(tokens, 1).filter(
            leftover_pred(),
        ),
{
    lemma_named_upto(tokens, tokens.len() as int, Field::Source);
}

/// In the named grammar a field has the value that the last token naming
/// it gives.
pub proof fn named_field_is_set_by_its_last_token(tokens: Seq<TokenView>, field: Field, i: int)
    requires
        1 <= i < tokens.len(),
        names_field(tokens, i, field),
        forall|j: int| i < j < tokens.len() ==> !names_field(tokens, j, field),
    ensures
        get_field(named_upto(tokens, tokens.len() as int), field) == Some(
            named_value(tokens[i].value),
        ),
{
    lemma_named_upto(tokens, tokens.len() as int, field);
}

/// In the named grammar a field that no token names stays absent.
pub proof fn named_field_is_absent_unless_named(tokens: Seq<TokenView>, field: Field)
    requires
        forall|j: int| 1 <= j < tokens.len() ==> !names_field(tokens, j, field),
    ensures
        get_field(named_upto(tokens, tokens.len() as int), field) is None,
{
    lemma_named_upto(tokens, tokens.len() as int, field);
}

/// The words that, in the verbose grammar, place the token after them.
pub open spec fn places_next(word: Seq<char>) -> bool {
    word == "to"@ || word == "into"@ || word == "from"@ || word == "in"@ || word == "at"@
}

/// A line of the shape `<command> <source> to <destination>`, for an
/// action that works on a source, gives that source and that destination
/// and nothing else.
pub proof fn verbose_source_to_destination(tokens: Seq<TokenView>, intent: Intent)
    requires
        tokens.len() == 4,
        !places_next(tokens[1].value),
        tokens[2].value == "to"@ || tokens[2].value == "into"@,
        requires_source_spec(intent),
    ensures
        verbose_spec(tokens, intent) == Ok::<ArgsView, ErrorView>(
            ArgsView {
                source: Some(tokens[1].value),
                destination: Some(tokens[3].value),
                ..empty_args()
            },
        ),
{
    reveal_with_fuel(verbose_from, 4);
}

/// A line that ends in a connector word with nothing after it is
/// rejected, where the words before it are read one by one.
pub proof fn verbose_dangling_connector_is_rejected(tokens: Seq<TokenView>, intent: Intent)
    requires
        tokens.len() >= 2,
        places_next(tokens.last().value),
        forall|i: int| 1 <= i < tokens.len() - 1 ==> !places_next(#[trigger] tokens[i].value),
    ensures
        verbose_spec(tokens, intent) is Err,
{
    lemma_verbose_reaches_last(tokens, intent, 1, empty_args());
}

proof fn lemma_verbose_reaches_last(
    tokens: Seq<TokenView>,
    intent: Intent,
    i: int,
    args: ArgsView,
)
    requires
        1 <= i < tokens.len(),
        places_next(tokens.last().value),
        forall|j: int| 1 <= j < tokens.len() - 1 ==> !places_next(#[trigger] tokens[j].value),
    ensures
        verbose_from(tokens, i, args, intent) is Err,
    decreases tokens.len() - i,
{
    if i < tokens.len() - 1 {
        assert(!places_next(tokens[i].value));
        let word = tokens[i].value;
        if args.source is None && requires_source_spec(intent) {
            lemma_verbose_reaches_last(
                tokens,
                intent,
                i + 1,
                ArgsView { source: Some(word), ..args },
            );
        } else if args.path is None && requires_path_spec(intent) {
            lemma_verbose_reaches_last(tokens, intent, i + 1, ArgsView { path: Some(word), ..args });
        } else {
            lemma_verbose_reaches_last(
                tokens,
                intent,
                i + 1,
                ArgsView { extra: args.extra.push(word), ..args },
            );
        }
    } else {
        assert(tokens[i] == tokens.last());
    }
}

} // verus!
