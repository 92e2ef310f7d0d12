//! Token streams as sequences of described tokens, and the few operations
//! that build them.

use vstd::prelude::*;
use proc_macro2::{Delimiter, Group, Ident, Punct, Spacing, Span, TokenStream};
use quote::{ToTokens, TokenStreamExt};
use crate::text::{ascii_text, ident_text};

verus! {

#[verifier::external_type_specification]
#[verifier::external_body]
pub struct ExSpan(proc_macro2::Span);

#[verifier::external_type_specification]
#[verifier::external_body]
pub struct ExIdent(proc_macro2::Ident);

#[verifier::external_type_specification]
#[verifier::external_body]
pub struct ExTokenStream(proc_macro2::TokenStream);

#[verifier::external_type_specification]
pub struct ExSpacing(proc_macro2::Spacing);

#[verifier::external_type_specification]
pub struct ExDelimiter(proc_macro2::Delimiter);

/// One token of a stream, described by what it shows and where it points.
pub ghost enum Tok {
    /// An identifier or keyword, by its text.
    Word(Seq<char>, Span),
    /// One punctuation character and whether it joins the next one.
    Mark(char, Spacing, Span),
    /// A string literal, by the value it denotes.
    Str(Seq<char>, Span),
    /// Any other literal, by its source text.
    Literal(Seq<char>, Span),
    /// A delimited group and the tokens inside it.
    Group(Delimiter, Seq<Tok>, Span),
}

/// The tokens that a stream holds, in order.
pub uninterp spec fn stream_tokens(ts: TokenStream) -> Seq<Tok>;

/// The text of an identifier, as `to_string` shows it.
pub uninterp spec fn ident_name(i: Ident) -> Seq<char>;

/// The span that an identifier carries.
pub uninterp spec fn ident_span(i: Ident) -> Span;

/// The token that an identifier is.
pub open spec fn ident_token(i: Ident) -> Tok {
    Tok::Word(ident_name(i), ident_span(i))
}

/// The characters that can be punctuation tokens.
pub open spec fn punct_char(c: char) -> bool {
    c == '!' || c == '#' || c == '$' || c == '%' || c == '&' || c == '\'' || c == '*' || c == '+'
        || c == ',' || c == '-' || c == '.' || c == '/' || c == ':' || c == ';' || c == '<'
        || c == '=' || c == '>' || c == '?' || c == '@' || c == '^' || c == '|' || c == '~'
}

/// `Span::call_site`: the span of the macro invocation that is being
/// expanded. Nothing is claimed of it.
#[verifier::external_body]
pub(crate) fn call_site() -> (r: Span) {
    Span::call_site()
}

/// `TokenStream::new`: a stream without tokens.
#[verifier::external_body]
pub(crate) fn empty_stream() -> (r: TokenStream)
    ensures
        stream_tokens(r) == Seq::<Tok>::empty(),
{
    TokenStream::new()
}

/// `Ident::new`: an identifier with the given text and span. It panics on
/// text that is no identifier. The precondition leaves that out, and keeps
/// to ASCII text, which every lexer judges alike and leaves as it is.
#[verifier::external_body]
pub(crate) fn new_ident(text: &str, span: Span) -> (r: Ident)
    requires
        ident_text(text@),
        ascii_text(text@),
    ensures
        ident_span(r) == span,
        ident_name(r) == text@,
{
    Ident::new(text, span)
}

/// `Ident::span`: the span that the identifier carries.
#[verifier::external_body]
pub(crate) fn span_of(i: &Ident) -> (r: Span)
    ensures
        r == ident_span(*i),
{
    i.span()
}

/// `ToTokens::to_tokens` of an identifier: appends the identifier as one
/// token.
#[verifier::external_body]
pub(crate) fn push_ident(ts: &mut TokenStream, i: &Ident)
    ensures
        stream_tokens(*final(ts)) == stream_tokens(*old(ts)).push(ident_token(*i)),
{
    i.to_tokens(ts)
}

/// `Punct::new`, `Punct::set_span` and `TokenStreamExt::append`: appends one
/// punctuation token. `Punct::new` panics on a character that is no
/// punctuation, which the precondition leaves out.
#[verifier::external_body]
pub(crate) fn push_mark(ts: &mut TokenStream, ch: char, spacing: Spacing, span: Span)
    requires
        punct_char(ch),
    ensures
        stream_tokens(*final(ts)) == stream_tokens(*old(ts)).push(Tok::Mark(ch, spacing, span)),
{
    let mut punct = Punct::new(ch, spacing);
    punct.set_span(span);
    ts.append(punct)
}

/// `Group::new`, `Group::set_span` and `TokenStreamExt::append`: appends one
/// group that holds the tokens of `inner` between the delimiters.
#[verifier::external_body]
pub(crate) fn push_group(ts: &mut TokenStream, delimiter: Delimiter, inner: TokenStream, span: Span)
    ensures
        stream_tokens(*final(ts)) == stream_tokens(*old(ts)).push(
            Tok::Group(delimiter, stream_tokens(inner), span),
        ),
{
    let mut group = Group::new(delimiter, inner);
    group.set_span(span);
    ts.append(group)
}

/// `ToTokens::to_tokens` of a stream: appends all tokens of `other`.
#[verifier::external_body]
pub(crate) fn push_stream(ts: &mut TokenStream, other: &TokenStream)
    ensures
        stream_tokens(*final(ts)) == stream_tokens(*old(ts)) + stream_tokens(*other),
{
    other.to_tokens(ts)
}

} // verus!
