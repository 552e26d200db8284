//! Splitting a line into tokens, with quoting and backslash escapes.

use crate::error::{ErrorView, VshError};
use crate::text::push_char;
use vstd::prelude::*;
use vstd::std_specs::iter::IteratorSpec;
use vstd::string::*;

verus! {

/// A lexical unit of a line: its text, and whether it stood inside quotes.
#[derive(Debug, Clone, PartialEq)]
pub struct Token {
    pub value: String,
    pub is_quoted: bool,
}

/// A token as a mathematical value.
pub struct TokenView {
    pub value: Seq<char>,
    pub is_quoted: bool,
}

impl View for Token {
    type V = TokenView;

    open spec fn view(&self) -> TokenView {
        TokenView { value: self.value@, is_quoted: self.is_quoted }
    }
}

/// The views of a sequence of tokens, in order.
pub open spec fn token_views(tokens: Seq<Token>) -> Seq<TokenView> {
    Seq::new(tokens.len(), |i: int| tokens[i]@)
}

/// What the scanner knows after a prefix of the line.
pub struct Scan {
    /// The tokens completed so far.
    pub tokens: Seq<TokenView>,
    /// The text gathered for the token under way.
    pub current: Seq<char>,
    /// The quote character of the open span, if the scanner is inside one.
    pub quote: Option<char>,
    /// Whether the last character was an unescaped backslash.
    pub escape_next: bool,
}

/// The scanner before the first character.
pub open spec fn scan_start() -> Scan {
    Scan { tokens: Seq::empty(), current: Seq::empty(), quote: None, escape_next: false }
}

/// The completed tokens once the text under way is closed: it becomes a
/// token unless it is empty.
pub open spec fn flush(tokens: Seq<TokenView>, current: Seq<char>, quoted: bool) -> Seq<
    TokenView,
> {
    if current.len() > 0 {
        tokens.push(TokenView { value: current, is_quoted: quoted })
    } else {
        tokens
    }
}

/// The two quote characters.
pub open spec fn is_quote(ch: char) -> bool {
    ch == '"' || ch == '\''
}

/// The characters that separate tokens: space and tab.
pub open spec fn is_blank(ch: char) -> bool {
    ch == ' ' || ch == '\t'
}

/// The scanner after one more character.
pub open spec fn scan_step(st: Scan, ch: char) -> Scan {
    if st.escape_next {
        Scan { current: st.current.push(ch), escape_next: false, ..st }
    } else if ch == '\\' {
        Scan { escape_next: true, ..st }
    } else if is_quote(ch) && st.quote == Some(ch) {
        Scan { tokens: flush(st.tokens, st.current, true), current: Seq::empty(), quote: None, ..st }
    } else if is_quote(ch) && st.quote is None {
        Scan {
            tokens: flush(st.tokens, st.current, false),
            current: Seq::empty(),
            quote: Some(ch),
            ..st
        }
    } else if is_blank(ch) && st.quote is None {
        Scan { tokens: flush(st.tokens, st.current, false), current: Seq::empty(), ..st }
    } else {
        Scan { current: st.current.push(ch), ..st }
    }
}

/// The scanner after the whole of `input`, read from left to right.
pub open spec fn scan(input: Seq<char>) -> Scan
    decreases input.len(),
{
    if input.len() == 0 {
        scan_start()
    } else {
        scan_step(scan(input.drop_last()), input.last())
    }
}

/// Whether every quoted span of `input` is closed.
pub open spec fn balanced(input: Seq<char>) -> bool {
    scan(input).quote is None
}

/// The tokens of `input`: those completed during the scan, and the text
/// still under way at the end, if any.
pub open spec fn tokens_of(input: Seq<char>) -> Seq<TokenView> {
    let st = scan(input);
    flush(st.tokens, st.current, st.quote is Some)
}

/// What `tokenize` returns on `input`.
pub open spec fn tokenize_spec(input: Seq<char>) -> Result<Seq<TokenView>, ErrorView> {
    if balanced(input) {
        Ok(tokens_of(input))
    } else {
        Err(ErrorView::ParseError("Unclosed quote"@))
    }
}

/// The outcome of `tokenize` as a mathematical value.
pub open spec fn tokenize_outcome(r: Result<Vec<Token>, VshError>) -> Result<
    Seq<TokenView>,
    ErrorView,
> {
    match r {
        Ok(tokens) => Ok(token_views(tokens@)),
        Err(e) => Err(e@),
    }
}

fn flush_token(tokens: &mut Vec<Token>, current: String, quoted: bool)
    ensures
        token_views(final(tokens)@) == flush(token_views(old(tokens)@), current@, quoted),
{
    if !current.as_str().is_empty() {
        tokens.push(Token { value: current, is_quoted: quoted });
        assert(token_views(tokens@) =~= flush(token_views(old(tokens)@), current@, quoted));
    }
}

/// Splits a line into tokens. Blanks outside quotes separate tokens; a
/// quoted span is one token, marked as quoted; a backslash takes the next
/// character literally. Fails exactly when a quoted span is left open.
pub fn tokenize(input: &str) -> (r: Result<Vec<Token>, VshError>)
    ensures
        tokenize_outcome(r) == tokenize_spec(input@),
{
    let mut tokens: Vec<Token> = Vec::new();
    let mut current_token = String::new();
    let mut in_quotes = false;
    let mut quote_char = ' ';
    let mut escape_next = false;
    let mut chars = input.chars();
    let ghost mut seen: Seq<char> = Seq::empty();
    assert(token_views(tokens@) =~= Seq::empty());
    loop
        invariant
            input@ == seen + chars.remaining(),
            chars.obeys_prophetic_iter_laws(),
            chars.decrease() is Some,
            scan(seen) == (Scan {
                tokens: token_views(tokens@),
                current: current_token@,
                quote: if in_quotes { Some(quote_char) } else { None },
                escape_next,
            }),
        ensures
            seen == input@,
        decreases chars.decrease()->0,
    {
        let ch = match chars.next() {
            Some(ch) => ch,
            None => {
                assert(seen =~= input@);
                break;
            },
        };
        proof {
            assert(seen.push(ch).drop_last() =~= seen);
            assert(seen.push(ch) + chars.remaining() =~= input@);
            seen = seen.push(ch);
        }
        if escape_next {
            push_char(&mut current_token, ch);
            escape_next = false;
        } else if ch == '\\' {
            escape_next = true;
        } else if ch == '"' || ch == '\'' {
            if in_quotes && ch == quote_char {
                in_quotes = false;
                flush_token(&mut tokens, current_token, true);
                current_token = String::new();
            } else if !in_quotes {
                in_quotes = true;
                quote_char = ch;
                flush_token(&mut tokens, current_token, false);
                current_token = String::new();
            } else {
                push_char(&mut current_token, ch);
            }
        } else if ch == ' ' || ch == '\t' {
            if in_quotes {
                push_char(&mut current_token, ch);
            } else {
                flush_token(&mut tokens, current_token, false);
                current_token = String::new();
            }
        } else {
            push_char(&mut current_token, ch);
        }
    }
    flush_token(&mut tokens, current_token, in_quotes);
    if in_quotes {
        return Err(VshError::ParseError("Unclosed quote".to_string()));
    }
    Ok(tokens)
}

/// A text without quote characters and without backslashes.
pub open spec fn is_plain(input: Seq<char>) -> bool {
    forall|i: int| 0 <= i < input.len() ==> !is_quote(#[trigger] input[i]) && input[i] != '\\'
}

/// Whether a word begins at position `i`: a character that is no blank,
/// at the start of the text or after a blank.
pub open spec fn starts_word(input: Seq<char>, i: int) -> bool {
    !is_blank(input[i]) && (i == 0 || is_blank(input[i - 1]))
}

/// The number of positions of `input` at which a word begins.
pub open spec fn word_count(input: Seq<char>) -> nat
    decreases input.len(),
{
    if input.len() == 0 {
        0
    } else {
        let before = word_count(input.drop_last());
        if starts_word(input, input.len() - 1) {
            before + 1
        } else {
            before
        }
    }
}

proof fn lemma_scan_nonempty(input: Seq<char>)
    ensures
        forall|i: int|
            0 <= i < scan(input).tokens.len() ==> (#[trigger] scan(input).tokens[i]).value.len()
                > 0,
    decreases input.len(),
{
    if input.len() > 0 {
        lemma_scan_nonempty(input.drop_last());
    }
}

/// No token is empty, whatever the line.
pub proof fn tokens_are_nonempty(input: Seq<char>)
    ensures
        forall|i: int|
            0 <= i < tokens_of(input).len() ==> (#[trigger] tokens_of(input)[i]).value.len() > 0,
{
    lemma_scan_nonempty(input);
}

proof fn lemma_plain_scan(input: Seq<char>)
    requires
        is_plain(input),
    ensures
        scan(input).quote is None,
        !scan(input).escape_next,
        scan(input).current.len() > 0 <==> input.len() > 0 && !is_blank(input.last()),
        flush(scan(input).tokens, scan(input).current, false).len() == word_count(input),
        forall|i: int|
            0 <= i < scan(input).tokens.len() ==> !(#[trigger] scan(input).tokens[i]).is_quoted,
    decreases input.len(),
{
    if input.len() > 0 {
        let before = input.drop_last();
        assert forall|i: int| 0 <= i < before.len() implies !is_quote(#[trigger] before[i])
            && before[i] != '\\' by {
            assert(before[i] == input[i]);
        }
        lemma_plain_scan(before);
        assert(!is_quote(input.last()) && input.last() != '\\') by {
            assert(input.last() == input[input.len() - 1]);
        }
        if before.len() > 0 {
            assert(before.last() == input[input.len() - 2]);
        }
    }
}

/// A line with balanced quoting is tokenized, and only such a line.
pub proof fn balanced_text_is_tokenized(input: Seq<char>)
    ensures
        tokenize_spec(input) is Ok <==> balanced(input),
{
}

/// A line without quotes and backslashes is tokenized into its words: as
/// many tokens as there are places where a word begins, none of them
/// marked as quoted.
pub proof fn plain_text_gives_its_words(input: Seq<char>)
    requires
        is_plain(input),
    ensures
        tokenize_spec(input) is Ok,
        tokens_of(input).len() == word_count(input),
        forall|i: int| 0 <= i < tokens_of(input).len() ==> !(#[trigger] tokens_of(input)[i]).is_quoted,
{
    lemma_plain_scan(input);
}

proof fn lemma_open_span(quote: char, body: Seq<char>)
    requires
        is_quote(quote),
        !body.contains(quote),
        !body.contains('\\'),
    ensures
        scan(seq![quote] + body) == (Scan {
            tokens: Seq::empty(),
            current: body,
            quote: Some(quote),
            escape_next: false,
        }),
    decreases body.len(),
{
    let line = seq![quote] + body;
    if body.len() == 0 {
        assert(line.drop_last() =~= Seq::<char>::empty());
        assert(line.last() == quote);
        assert(scan(line).current =~= body);
    } else {
        let before = body.drop_last();
        assert(line.drop_last() =~= seq![quote] + before);
        assert(line.last() == body.last());
        assert(body[body.len() - 1] == body.last());
        assert forall|c: char| body.contains(c) || !before.contains(c) by {
            if before.contains(c) {
                let i = choose|i: int| 0 <= i < before.len() && before[i] == c;
                assert(body[i] == c);
            }
        }
        lemma_open_span(quote, before);
        assert(before.push(body.last()) =~= body);
    }
}

/// A quoted span is one token, blanks and all, and it is marked as
/// quoted.
pub proof fn quoted_span_is_one_token(quote: char, body: Seq<char>)
    requires
        is_quote(quote),
        body.len() > 0,
        !body.contains(quote),
        !body.contains('\\'),
    ensures
        tokenize_spec(seq![quote] + body + seq![quote]) == Ok::<Seq<TokenView>, ErrorView>(
            seq![TokenView { value: body, is_quoted: true }],
        ),
{
    let line = seq![quote] + body + seq![quote];
    lemma_open_span(quote, body);
    assert(line.drop_last() =~= seq![quote] + body);
    assert(line.last() == quote);
    assert(tokens_of(line) =~= seq![TokenView { value: body, is_quoted: true }]);
}

/// A span that is opened and never closed makes the line fail.
pub proof fn unclosed_span_is_rejected(quote: char, body: Seq<char>)
    requires
        is_quote(quote),
        !body.contains(quote),
        !body.contains('\\'),
    ensures
        tokenize_spec(seq![quote] + body) == Err::<Seq<TokenView>, ErrorView>(
            ErrorView::ParseError("Unclosed quote"@),
        ),
{
    lemma_open_span(quote, body);
}

proof fn lemma_scan_after_blank(first: Seq<char>, blank: char, second: Seq<char>)
    requires
        is_blank(blank),
        balanced(first),
        !scan(first).escape_next,
    ensures
        scan(first + seq![blank] + second) == (Scan {
            tokens: tokens_of(first) + scan(second).tokens,
            ..scan(second)
        }),
    decreases second.len(),
{
    let line = first + seq![blank] + second;
    if second.len() == 0 {
        assert(line.drop_last() =~= first);
        assert(line.last() == blank);
        assert(scan(line).tokens =~= tokens_of(first) + scan(second).tokens);
    } else {
        let before = second.drop_last();
        lemma_scan_after_blank(first, blank, before);
        assert(line.drop_last() =~= first + seq![blank] + before);
        assert(line.last() == second.last());
        let kept = tokens_of(first);
        let st = scan(before);
        assert(flush(kept + st.tokens, st.current, true) =~= kept + flush(
            st.tokens,
            st.current,
            true,
        ));
        assert(flush(kept + st.tokens, st.current, false) =~= kept + flush(
            st.tokens,
            st.current,
            false,
        ));
    }
}

/// A blank outside quotes separates: the tokens of a line made of two
/// parts with a blank between them are the tokens of the first part, then
/// those of the second, where the first part has balanced quoting and
/// does not end in an escaping backslash. The quoting of the whole is
/// balanced exactly when that of the second part is.
pub proof fn blank_separates(first: Seq<char>, blank: char, second: Seq<char>)
    requires
        is_blank(blank),
        balanced(first),
        !scan(first).escape_next,
    ensures
        tokens_of(first + seq![blank] + second) == tokens_of(first) + tokens_of(second),
        balanced(first + seq![blank] + second) == balanced(second),
{
    lemma_scan_after_blank(first, blank, second);
    let kept = tokens_of(first);
    let st = scan(second);
    assert(flush(kept + st.tokens, st.current, st.quote is Some) =~= kept + flush(
        st.tokens,
        st.current,
        st.quote is Some,
    ));
}

} // verus!
