//! Token trees as the attribute scanner reads them.
//!
//! Token streams come from `proc_macro2` and stay opaque: a stream is only
//! ever taken apart one level at a time, into [`Token`]s, and what it holds
//! is spoken of through [`stream_tokens`].
//!
//! Lexing a text is left to `proc_macro2` as well, and nothing is claimed of
//! what it comes to. A [`LexedToken`] carries the outcome along with the
//! literal whose text was lexed, so that whoever reads the literal reads the
//! outcome from there.

use std::str::FromStr;
use vstd::prelude::*;

verus! {

/// `proc_macro2::TokenStream`, carried as an opaque value.
#[verifier::external_type_specification]
#[verifier::external_body]
pub struct ExTokenStream(proc_macro2::TokenStream);

/// `proc_macro2::LexError`, carried as an opaque value.
#[verifier::external_type_specification]
#[verifier::external_body]
pub struct ExLexError(proc_macro2::LexError);

/// How a group of token trees is enclosed.
#[derive(Clone, Copy, Debug, PartialEq, Eq, Structural)]
pub enum Delimiter {
    /// `( ... )`
    Parenthesis,
    /// `{ ... }`
    Brace,
    /// `[ ... ]`
    Bracket,
    /// No visible delimiter.
    Invisible,
}

/// One token tree of a stream.
#[derive(Clone, Debug)]
pub enum Token {
    /// An identifier, by its text.
    Ident(String),
    /// A single punctuation character.
    Punct(char),
    /// A literal, by its source text (a string literal keeps its quotes).
    Literal(String),
    /// A delimited group and the stream inside it.
    Group(Delimiter, proc_macro2::TokenStream),
}

/// The mathematical reading of a [`Token`].
pub enum TokenView {
    Ident(Seq<char>),
    Punct(char),
    Literal(Seq<char>),
    Group(Delimiter, Seq<TokenView>),
}

/// The token trees that a stream holds, in order.
pub uninterp spec fn stream_tokens(stream: proc_macro2::TokenStream) -> Seq<TokenView>;

impl DeepView for Token {
    type V = TokenView;

    open spec fn deep_view(&self) -> TokenView {
        match self {
            Token::Ident(name) => TokenView::Ident(name@),
            Token::Punct(c) => TokenView::Punct(*c),
            Token::Literal(text) => TokenView::Literal(text@),
            Token::Group(delimiter, stream) => TokenView::Group(*delimiter, stream_tokens(*stream)),
        }
    }
}

/// The view of an optional stream.
pub open spec fn optional_stream_tokens(stream: Option<proc_macro2::TokenStream>) -> Option<
    Seq<TokenView>,
> {
    match stream {
        Some(s) => Some(stream_tokens(s)),
        None => None,
    }
}

/// One token tree, a literal together with what lexing its text came to.
#[derive(Clone, Debug)]
pub enum LexedToken {
    /// An identifier, by its text.
    Ident(String),
    /// A single punctuation character.
    Punct(char),
    /// A literal, by its source text, and the stream that its text was lexed
    /// into; `None` where the lexer turned the text down.
    Literal(String, Option<proc_macro2::TokenStream>),
    /// A delimited group and the stream inside it.
    Group(Delimiter, proc_macro2::TokenStream),
}

/// The mathematical reading of a [`LexedToken`].
pub enum LexedTokenView {
    Ident(Seq<char>),
    Punct(char),
    Literal(Seq<char>, Option<Seq<TokenView>>),
    Group(Delimiter, Seq<TokenView>),
}

impl DeepView for LexedToken {
    type V = LexedTokenView;

    open spec fn deep_view(&self) -> LexedTokenView {
        match self {
            LexedToken::Ident(name) => LexedTokenView::Ident(name@),
            LexedToken::Punct(c) => LexedTokenView::Punct(*c),
            LexedToken::Literal(text, lexed) => LexedTokenView::Literal(
                text@,
                optional_stream_tokens(*lexed),
            ),
            LexedToken::Group(delimiter, stream) => LexedTokenView::Group(
                *delimiter,
                stream_tokens(*stream),
            ),
        }
    }
}

impl LexedTokenView {
    /// The token that was lexed: this token without the outcome.
    pub open spec fn token(self) -> TokenView {
        match self {
            LexedTokenView::Ident(name) => TokenView::Ident(name),
            LexedTokenView::Punct(c) => TokenView::Punct(c),
            LexedTokenView::Literal(text, _) => TokenView::Literal(text),
            LexedTokenView::Group(delimiter, stream) => TokenView::Group(delimiter, stream),
        }
    }
}

impl TokenView {
    /// This token as a lexed token whose literal, if it is one, was turned
    /// down.
    pub open spec fn unlexed(self) -> LexedTokenView {
        match self {
            TokenView::Ident(name) => LexedTokenView::Ident(name),
            TokenView::Punct(c) => LexedTokenView::Punct(c),
            TokenView::Literal(text) => LexedTokenView::Literal(text, None),
            TokenView::Group(delimiter, stream) => LexedTokenView::Group(delimiter, stream),
        }
    }
}

/// The tokens that were lexed: the same list, token for token, without the
/// outcomes.
pub open spec fn tokens_of(lexed: Seq<LexedTokenView>) -> Seq<TokenView> {
    Seq::new(lexed.len(), |i: int| lexed[i].token())
}

/// The tokens as lexed tokens; where there is no literal among them, the
/// only list of lexed tokens that they can come to.
pub open spec fn unlexed(tokens: Seq<TokenView>) -> Seq<LexedTokenView> {
    Seq::new(tokens.len(), |i: int| tokens[i].unlexed())
}

/// Whether a literal stands among the tokens.
pub open spec fn has_literal(tokens: Seq<TokenView>) -> bool {
    exists|i: int| 0 <= i < tokens.len() && (#[trigger] tokens[i]) is Literal
}

/// Takes a stream apart into its token trees, one level deep.
///
/// Calls `TokenStream::into_iter` on a copy of the stream and maps each
/// `TokenTree` to a [`Token`]: an identifier and a literal by `to_string`, a
/// punctuation mark by `Punct::as_char`, a group by `Group::delimiter` and
/// `Group::stream`. The contract names the result: it is what the stream
/// holds.
#[verifier::external_body]
pub(crate) fn token_trees(stream: &proc_macro2::TokenStream) -> (tokens: Vec<Token>)
    ensures
        tokens.deep_view() == stream_tokens(*stream),
{
    stream.clone().into_iter().map(|tree| match tree {
        proc_macro2::TokenTree::Ident(ident) => Token::Ident(ident.to_string()),
        proc_macro2::TokenTree::Punct(punct) => Token::Punct(punct.as_char()),
        proc_macro2::TokenTree::Literal(literal) => Token::Literal(literal.to_string()),
        proc_macro2::TokenTree::Group(group) => Token::Group(match group.delimiter() {
            proc_macro2::Delimiter::Parenthesis => Delimiter::Parenthesis,
            proc_macro2::Delimiter::Brace => Delimiter::Brace,
            proc_macro2::Delimiter::Bracket => Delimiter::Bracket,
            proc_macro2::Delimiter::None => Delimiter::Invisible,
        }, group.stream()),
    }).collect()
}

/// Lexes a source text into a token stream.
///
/// Calls `TokenStream::from_str`, which returns the stream or a `LexError`.
/// Nothing is claimed of which of the two comes back, nor of what the stream
/// holds.
#[verifier::external_body]
pub(crate) fn lex(text: &str) -> Result<proc_macro2::TokenStream, proc_macro2::LexError> {
    proc_macro2::TokenStream::from_str(text)
}

/// `TokenStream::clone`: the copy holds the same token trees.
pub assume_specification[ <proc_macro2::TokenStream as Clone>::clone ](
    stream: &proc_macro2::TokenStream,
) -> (copy: proc_macro2::TokenStream)
    ensures
        stream_tokens(copy) == stream_tokens(*stream),
;

} // verus!
