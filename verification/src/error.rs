//! What can be wrong with the attributes or the item, and how it is shown.

use vstd::prelude::*;
use proc_macro2::{Delimiter, Spacing, Span, TokenStream};
use crate::tokens::{stream_tokens, Tok};

verus! {

/// A rule of the `dto` attributes that an item can break.
#[derive(Clone, Copy, Debug, PartialEq, Eq)]
pub enum Violation {
    /// `rename` was given an empty or blank string.
    EmptyRename,
    /// `rename` was given a string that is no identifier, or that the lexer
    /// at work does not take as one. It stands where making the identifier
    /// would panic: such a string is turned down, and no identifier is made
    /// of it.
    InvalidRename,
    /// `rename` stands twice on one field.
    DuplicateRename,
    /// `transform_fn` stands twice on one field.
    DuplicateTransformFn,
    /// `skip` stands twice on one field.
    DuplicateSkip,
    /// `into` stands twice on one field.
    DuplicateInto,
    /// A key on a field that is none of the four.
    UnknownFieldKey,
    /// `skip` together with any other key.
    SkipConflict,
    /// `transform_fn` together with `into`.
    TransformIntoConflict,
    /// `from` stands twice on the struct.
    DuplicateFrom,
    /// A key on the struct other than `from`.
    UnknownStructKey,
    /// The struct names no source type.
    MissingFrom,
    /// The struct has no named fields.
    UnnamedFields,
    /// The item is no struct.
    NotStruct,
}

impl Violation {
    /// The sentence that reports the violation.
    pub open spec fn text(self) -> Seq<char> {
        match self {
            Violation::EmptyRename => "`rename` cannot be empty"@,
            Violation::InvalidRename => "`rename` must be a valid identifier"@,
            Violation::DuplicateRename => "duplicate `rename`"@,
            Violation::DuplicateTransformFn => "duplicate `transform_fn`"@,
            Violation::DuplicateSkip => "duplicate `skip`"@,
            Violation::DuplicateInto => "duplicate `into`"@,
            Violation::UnknownFieldKey =>
                "unknown #[dto(...)] key; expected one of: rename, transform_fn, skip, into"@,
            Violation::SkipConflict =>
                "`#[dto(skip)]` cannot be combined with `rename`, `transform_fn`, or `into`"@,
            Violation::TransformIntoConflict =>
                "`#[dto(transform_fn = ...)]` conflicts with `#[dto(into)]`"@,
            Violation::DuplicateFrom => "duplicate `from` on struct"@,
            Violation::UnknownStructKey => "unknown struct-level #[dto(...)] key; expected `from`"@,
            Violation::MissingFrom => "Expected `#[dto(from = Type)]` on the struct."@,
            Violation::UnnamedFields => "DtoFrom only supports named-field structs."@,
            Violation::NotStruct => "DtoFrom only supports structs."@,
        }
    }

    /// A violation that one entry of a field's attribute can show.
    pub open spec fn in_entry(self) -> bool {
        self is EmptyRename || self is InvalidRename || self is DuplicateRename
            || self is DuplicateTransformFn || self is DuplicateSkip || self is DuplicateInto
            || self is UnknownFieldKey
    }

    /// A violation that the attributes of one field can show: one in an
    /// entry, or a contradiction among the entries.
    pub open spec fn on_field(self) -> bool {
        self.in_entry() || self is SkipConflict || self is TransformIntoConflict
    }

    /// A violation that the attributes of the struct can show.
    pub open spec fn on_struct(self) -> bool {
        self is DuplicateFrom || self is UnknownStructKey || self is MissingFrom
    }

    /// The sentence that reports the violation.
    pub fn message(&self) -> (r: &'static str)
        ensures
            r@ == self.text(),
    {
        match self {
            Violation::EmptyRename => "`rename` cannot be empty",
            Violation::InvalidRename => "`rename` must be a valid identifier",
            Violation::DuplicateRename => "duplicate `rename`",
            Violation::DuplicateTransformFn => "duplicate `transform_fn`",
            Violation::DuplicateSkip => "duplicate `skip`",
            Violation::DuplicateInto => "duplicate `into`",
            Violation::UnknownFieldKey =>
                "unknown #[dto(...)] key; expected one of: rename, transform_fn, skip, into",
            Violation::SkipConflict =>
                "`#[dto(skip)]` cannot be combined with `rename`, `transform_fn`, or `into`",
            Violation::TransformIntoConflict =>
                "`#[dto(transform_fn = ...)]` conflicts with `#[dto(into)]`",
            Violation::DuplicateFrom => "duplicate `from` on struct",
            Violation::UnknownStructKey => "unknown struct-level #[dto(...)] key; expected `from`",
            Violation::MissingFrom => "Expected `#[dto(from = Type)]` on the struct.",
            Violation::UnnamedFields => "DtoFrom only supports named-field structs.",
            Violation::NotStruct => "DtoFrom only supports structs.",
        }
    }
}

/// Why no mapping could be made.
#[derive(Debug)]
pub enum DtoError {
    /// A rule was broken at the given place.
    Rule { kind: Violation, span: Span },
    /// The parser could not read the tokens.
    Syntax(syn::Error),
}

/// The message that a parser's error shows.
pub uninterp spec fn error_message(e: syn::Error) -> Seq<char>;

/// The tokens that a parser's error turns into when it is reported to the
/// compiler, on the thread that made it.
pub uninterp spec fn error_tokens(e: syn::Error) -> Seq<Tok>;

/// An invocation of `::core::compile_error!` with one message, every token
/// of it pointing at `span`.
pub open spec fn compile_error_tokens(span: Span, message: Seq<char>) -> Seq<Tok> {
    seq![
        Tok::Mark(':', Spacing::Joint, span),
        Tok::Mark(':', Spacing::Alone, span),
        Tok::Word("core"@, span),
        Tok::Mark(':', Spacing::Joint, span),
        Tok::Mark(':', Spacing::Alone, span),
        Tok::Word("compile_error"@, span),
        Tok::Mark('!', Spacing::Alone, span),
        Tok::Group(Delimiter::Brace, seq![Tok::Str(message, span)], span),
    ]
}

/// `syn::Error::new`: an error with one message at one span. Shown, it is
/// that message; reported on the thread that made it, it is one invocation
/// of `compile_error!` at that span.
#[verifier::external_body]
pub(crate) fn new_error(span: Span, message: &str) -> (r: syn::Error)
    ensures
        error_message(r) == message@,
        error_tokens(r) == compile_error_tokens(span, message@),
{
    syn::Error::new(span, message)
}

/// `syn::Error::to_compile_error`: the tokens that report the error.
#[verifier::external_body]
pub(crate) fn error_stream(e: &syn::Error) -> (r: TokenStream)
    ensures
        stream_tokens(r) == error_tokens(*e),
{
    e.to_compile_error()
}

/// `ToString::to_string` of a parser's error: its message.
#[verifier::external_body]
pub(crate) fn error_text(e: &syn::Error) -> (r: String)
    ensures
        r@ == error_message(*e),
{
    e.to_string()
}

impl DtoError {
    /// The message of the error.
    pub open spec fn text(self) -> Seq<char> {
        match self {
            DtoError::Rule { kind, span } => kind.text(),
            DtoError::Syntax(e) => error_message(e),
        }
    }

    /// The tokens that report the error to the compiler.
    pub open spec fn tokens(self) -> Seq<Tok> {
        match self {
            DtoError::Rule { kind, span } => compile_error_tokens(span, kind.text()),
            DtoError::Syntax(e) => error_tokens(e),
        }
    }

    /// The message of the error.
    pub fn message(&self) -> (r: String)
        ensures
            r@ == self.text(),
    {
        match self {
            DtoError::Rule { kind, span } => kind.message().to_owned(),
            DtoError::Syntax(e) => error_text(e),
        }
    }

    /// The error as the parser's own error type, for a caller that reports
    /// through it.
    pub fn into_syn(self) -> (r: syn::Error)
        ensures
            error_message(r) == self.text(),
            error_tokens(r) == self.tokens(),
    {
        match self {
            DtoError::Rule { kind, span } => new_error(span, kind.message()),
            DtoError::Syntax(e) => e,
        }
    }

    /// The tokens that report the error to the compiler.
    pub fn to_compile_error(&self) -> (r: TokenStream)
        ensures
            stream_tokens(r) == self.tokens(),
    {
        match self {
            DtoError::Rule { kind, span } => {
                let e = new_error(*span, kind.message());
                error_stream(&e)
            },
            DtoError::Syntax(e) => error_stream(e),
        }
    }
}

} // verus!
