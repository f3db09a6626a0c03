//! Token streams: what they hold, and the operations that fill them.
//!
//! The streams, identifiers and spans are those of `proc_macro2`. Each of them is opaque here: what
//! a stream holds is `stream_toks`, and what an identifier is made of is `ident_text` and
//! `ident_span`. Every function below that touches one of these values calls `proc_macro2`, and its
//! contract is taken on trust. Inside a procedural macro `proc_macro2` hands out values of the
//! compiler, and elsewhere values of its own; a stream is only ever filled with values of the same
//! kind, which no contract here states.

use proc_macro2::{Delimiter, Group, Ident, Literal, Punct, Spacing, Span, TokenStream, TokenTree};
use vstd::prelude::*;

verus! {

/// A stream of tokens.
#[verifier::external_type_specification]
#[verifier::external_body]
pub struct ExTokenStream(proc_macro2::TokenStream);

/// An identifier or a keyword, with the place it is resolved at.
#[verifier::external_type_specification]
#[verifier::external_body]
pub struct ExIdent(proc_macro2::Ident);

/// The place that a token is resolved at, which decides its hygiene.
#[verifier::external_type_specification]
#[verifier::external_body]
pub struct ExSpan(proc_macro2::Span);

/// The bracket that encloses a group of tokens.
#[derive(Clone, Copy, Debug, PartialEq, Eq, Structural)]
pub enum Delim {
    /// `( .. )`
    Paren,
    /// `{ .. }`
    Brace,
    /// `[ .. ]`
    Bracket,
    /// A group that is not written out.
    Invisible,
}

/// One token of a stream, in reading order: a group is its opening bracket, the tokens in it, and
/// the end of the group. Each has the place it is resolved at, which for a group stands with its
/// opening bracket.
pub enum Tok {
    /// An identifier or keyword: its text, `r#` included.
    Ident(Seq<char>, Span),
    /// A punctuation character, and whether the next character belongs to the same operator.
    Punct(char, bool, Span),
    /// A string literal, by the text it denotes.
    Text(Seq<char>, Span),
    /// Any other literal, as it is written.
    Literal(Seq<char>, Span),
    /// The start of a group.
    Open(Delim, Span),
    /// The end of the innermost group that is still open.
    Close,
}

/// The tokens that a stream holds.
pub uninterp spec fn stream_toks(stream: TokenStream) -> Seq<Tok>;

/// The text of an identifier, as `Ident` prints it.
pub uninterp spec fn ident_text(ident: Ident) -> Seq<char>;

/// The place that an identifier is resolved at: what `Ident::span` returns.
pub uninterp spec fn ident_span(ident: Ident) -> Span;

/// The token that an identifier is.
pub open spec fn ident_tok(ident: Ident) -> Tok {
    Tok::Ident(ident_text(ident), ident_span(ident))
}

/// A letter, a digit or an underscore of ASCII.
pub open spec fn is_word_char(c: char) -> bool {
    'a' <= c <= 'z' || 'A' <= c <= 'Z' || '0' <= c <= '9' || c == '_'
}

/// An identifier or keyword of ASCII.
pub open spec fn is_word(text: Seq<char>) -> bool {
    &&& text.len() > 0
    &&& !('0' <= text[0] <= '9')
    &&& forall|i: int| 0 <= i < text.len() ==> is_word_char(#[trigger] text[i])
}

/// The text of an identifier that can be part of another one: neither raw (`r#type`) nor `$crate`.
pub open spec fn is_plain(text: Seq<char>) -> bool {
    !text.contains('#') && !text.contains('$')
}

/// Text that an identifier can be made of: an ASCII word, or one that the text of a plain
/// identifier follows.
pub open spec fn is_name(text: Seq<char>) -> bool {
    is_word(text) || exists|prefix: Seq<char>, ident: Ident|
        is_word(prefix) && is_plain(ident_text(ident)) && text == #[trigger] (prefix + ident_text(
            ident,
        ))
}

/// A character that can be a punctuation token.
pub open spec fn is_punct(c: char) -> bool {
    ||| c == '!' || c == '#' || c == '$' || c == '%' || c == '&' || c == '\'' || c == '*'
    ||| c == '+' || c == ',' || c == '-' || c == '.' || c == '/' || c == ':' || c == ';'
    ||| c == '<' || c == '=' || c == '>' || c == '?' || c == '@' || c == '^' || c == '|'
    ||| c == '~'
}

/// `TokenStream::new`: a stream that holds nothing.
#[verifier::external_body]
pub(crate) fn empty_stream() -> (stream: TokenStream)
    ensures
        stream_toks(stream) == Seq::<Tok>::empty(),
{
    TokenStream::new()
}

/// `Clone` of a `TokenStream`: a stream that holds the same tokens.
#[verifier::external_body]
pub(crate) fn copy_stream(stream: &TokenStream) -> (copy: TokenStream)
    ensures
        stream_toks(copy) == stream_toks(*stream),
{
    stream.clone()
}

/// `Extend<TokenStream>`: the tokens of another stream follow those that were there.
#[verifier::external_body]
pub(crate) fn push_stream(out: &mut TokenStream, stream: TokenStream)
    ensures
        stream_toks(*final(out)) == stream_toks(*old(out)) + stream_toks(stream),
{
    out.extend([stream]);
}

/// `Extend<TokenTree>` with an `Ident`: the identifier follows the tokens that were there.
#[verifier::external_body]
pub(crate) fn push_ident(out: &mut TokenStream, ident: &Ident)
    ensures
        stream_toks(*final(out)) == stream_toks(*old(out)).push(ident_tok(*ident)),
{
    out.extend([TokenTree::Ident(ident.clone())]);
}

/// `Extend<TokenTree>` with what `Punct::new` and `Punct::set_span` make of a character, its
/// spacing and its place. The character is one that `Punct::new` accepts.
#[verifier::external_body]
pub(crate) fn push_punct(out: &mut TokenStream, c: char, joint: bool, span: Span)
    requires
        is_punct(c),
    ensures
        stream_toks(*final(out)) == stream_toks(*old(out)).push(Tok::Punct(c, joint, span)),
{
    let spacing = if joint { Spacing::Joint } else { Spacing::Alone };
    let mut punct = Punct::new(c, spacing);
    punct.set_span(span);
    out.extend([TokenTree::Punct(punct)]);
}

/// `Extend<TokenTree>` with what `Literal::string` and `Literal::set_span` make of a text and its
/// place: a string literal that denotes the text.
#[verifier::external_body]
pub(crate) fn push_text(out: &mut TokenStream, text: &str, span: Span)
    ensures
        stream_toks(*final(out)) == stream_toks(*old(out)).push(Tok::Text(text@, span)),
{
    let mut literal = Literal::string(text);
    literal.set_span(span);
    out.extend([TokenTree::Literal(literal)]);
}

/// `Extend<TokenTree>` with what `Group::new` and `Group::set_span` make of a bracket, a stream and
/// a place: the bracket, the tokens of the stream, and the end of the group.
#[verifier::external_body]
pub(crate) fn push_group(out: &mut TokenStream, delim: Delim, inner: TokenStream, span: Span)
    ensures
        stream_toks(*final(out)) == stream_toks(*old(out)).push(Tok::Open(delim, span))
            + stream_toks(inner).push(Tok::Close),
{
    let delimiter = match delim {
        Delim::Paren => Delimiter::Parenthesis,
        Delim::Brace => Delimiter::Brace,
        Delim::Bracket => Delimiter::Bracket,
        Delim::Invisible => Delimiter::None,
    };
    let mut group = Group::new(delimiter, inner);
    group.set_span(span);
    out.extend([TokenTree::Group(group)]);
}

/// `Ident::new`: an identifier of the given text, resolved at the given place. The text is one
/// that `Ident::new` accepts.
#[verifier::external_body]
pub(crate) fn new_ident(text: &str, span: Span) -> (ident: Ident)
    requires
        is_name(text@),
    ensures
        ident_text(ident) == text@,
        ident_span(ident) == span,
{
    Ident::new(text, span)
}

/// `Clone` of an `Ident`: the same text, resolved at the same place.
#[verifier::external_body]
pub(crate) fn copy_ident(ident: &Ident) -> (copy: Ident)
    ensures
        ident_text(copy) == ident_text(*ident),
        ident_span(copy) == ident_span(*ident),
{
    ident.clone()
}

/// `ToString` of an `Ident`: its text.
#[verifier::external_body]
pub(crate) fn text_of(ident: &Ident) -> (text: String)
    ensures
        text@ == ident_text(*ident),
{
    ident.to_string()
}

/// `Ident::span`: the place that an identifier is resolved at.
#[verifier::external_body]
pub(crate) fn span_of(ident: &Ident) -> (span: Span)
    ensures
        span == ident_span(*ident),
{
    ident.span()
}

/// `Ident` compared with a `str`: whether the text of the identifier is that string.
#[verifier::external_body]
pub(crate) fn ident_is(ident: &Ident, text: &str) -> (same: bool)
    ensures
        same == (ident_text(*ident) == text@),
{
    ident == text
}

/// `Span::call_site`: the place of the macro call that is being expanded. It is another one in
/// every expansion, so nothing is stated of it.
#[verifier::external_body]
pub(crate) fn call_site() -> (span: Span) {
    Span::call_site()
}

/// A place that `call_site` can give.
pub closed spec fn is_call_site(span: Span) -> bool {
    call_ensures(call_site, (), span)
}

/// What a function makes.
fn made_by(make: impl Fn() -> Span) -> (span: Span)
    requires
        call_requires(make, ()),
    ensures
        call_ensures(make, (), span),
{
    make()
}

/// The place of the macro call that is being expanded.
pub(crate) fn place_of_call() -> (span: Span)
    ensures
        is_call_site(span),
{
    made_by(call_site)
}

} // verus!
