//! The syntax tree values that the rules are applied to, and what is asked
//! of them.

use vstd::prelude::*;
use proc_macro2::{Ident, Span, TokenStream};
use quote::ToTokens;
use syn::ext::IdentExt;
use syn::meta::ParseNestedMeta;
use syn::parse::Parser;
use syn::spanned::Spanned;
use syn::{Attribute, Data, DeriveInput, Fields, Generics, LitStr, Path};
use crate::tokens::{ident_span, stream_tokens, Tok};

verus! {

#[verifier::external_type_specification]
#[verifier::external_body]
pub struct ExPath(syn::Path);

#[verifier::external_type_specification]
#[verifier::external_body]
pub struct ExAttribute(syn::Attribute);

#[verifier::external_type_specification]
#[verifier::external_body]
pub struct ExGenerics(syn::Generics);

#[verifier::external_type_specification]
#[verifier::external_body]
pub struct ExSynError(syn::Error);

#[verifier::external_type_specification]
#[verifier::external_body]
pub struct ExParseNestedMeta<'a>(syn::meta::ParseNestedMeta<'a>);

/// One field of the struct that is derived for.
pub struct TargetField {
    /// The field's name; a field of a tuple struct has none.
    pub name: Option<Ident>,
    /// The attributes written on the field.
    pub attrs: Vec<Attribute>,
}

/// What kind of item is derived for.
pub enum Shape {
    /// A struct with named fields.
    Named(Vec<TargetField>),
    /// A tuple struct.
    Tuple,
    /// A unit struct.
    Unit,
    /// An enum.
    Enum,
    /// A union.
    Union,
}

/// The item that is derived for, taken apart.
pub struct Target {
    pub name: Ident,
    pub attrs: Vec<Attribute>,
    pub generics: Generics,
    pub shape: Shape,
}

/// A string literal that was read as the value of a key.
pub struct StrValue {
    /// The string that the literal denotes.
    pub text: String,
    /// Where the literal stands.
    pub span: Span,
}

/// The tokens that a path prints as.
pub uninterp spec fn path_tokens(p: Path) -> Seq<Tok>;

/// The tokens that the generic parameters print as in front of an impl:
/// with their bounds, without their defaults. A comma that the printer has
/// to add points at the place where the macro was called.
pub uninterp spec fn impl_generics_tokens(g: Generics) -> Seq<Tok>;

/// The tokens that the generic parameters print as behind the type's name:
/// their names only. A comma that the printer has to add points at the
/// place where the macro was called.
pub uninterp spec fn type_generics_tokens(g: Generics) -> Seq<Tok>;

/// The tokens that the `where` clause prints as; none where there is no
/// clause.
pub uninterp spec fn where_clause_tokens(g: Generics) -> Seq<Tok>;

/// The key of a nested entry, where it is one plain identifier.
pub uninterp spec fn nested_key(meta: ParseNestedMeta<'_>) -> Option<Seq<char>>;

/// Where the key of a nested entry stands.
pub uninterp spec fn nested_key_span(meta: ParseNestedMeta<'_>) -> Span;

/// What parsing a stream as the input of a derive comes to.
pub uninterp spec fn parsed_target(input: TokenStream) -> Result<Target, syn::Error>;

/// Whether the attribute's path is the one plain identifier `name`.
pub uninterp spec fn attr_named(attr: Attribute, name: Seq<char>) -> bool;

/// `syn::parse2` for a `DeriveInput`, taken apart: the item that the tokens
/// spell, its parts moved over one for one, or the parser's complaint. The
/// contract only gives the outcome its name.
#[verifier::external_body]
pub(crate) fn parse_target(input: TokenStream) -> (r: Result<Target, syn::Error>)
    ensures
        r == parsed_target(input),
{
    let input = syn::parse2::<DeriveInput>(input)?;
    let field = |f: syn::Field| TargetField { name: f.ident, attrs: f.attrs };
    let shape = match input.data {
        Data::Struct(s) => match s.fields {
            Fields::Named(named) => Shape::Named(named.named.into_iter().map(field).collect()),
            Fields::Unnamed(_) => Shape::Tuple,
            Fields::Unit => Shape::Unit,
        },
        Data::Enum(_) => Shape::Enum,
        Data::Union(_) => Shape::Union,
    };
    Ok(Target { name: input.ident, attrs: input.attrs, generics: input.generics, shape })
}

/// `Parser::parse_str` with `IdentExt::parse_any`, then `Ident::set_span`:
/// the identifier that the text spells, pointing at `span`, where the lexer
/// at work takes the whole text as one identifier; inside the compiler that
/// is the compiler's own lexer. Neither when an identifier is made nor how
/// it is spelled is claimed.
#[verifier::external_body]
pub(crate) fn try_ident(text: &str, span: Span) -> (r: Option<Ident>)
    ensures
        r matches Some(id) ==> ident_span(id) == span,
{
    let mut id = Parser::parse_str(Ident::parse_any, text).ok()?;
    id.set_span(span);
    Some(id)
}

/// `Path::is_ident` on the attribute's path: whether the path is a single
/// identifier, without arguments or leading colons, equal to `name`.
#[verifier::external_body]
pub(crate) fn attr_is(attr: &Attribute, name: &str) -> (r: bool)
    ensures
        r == attr_named(*attr, name@),
{
    attr.path().is_ident(name)
}

/// `Path::get_ident` on the key of a nested entry, shown as a string: the
/// key where it is a single identifier without arguments or leading colons.
#[verifier::external_body]
pub(crate) fn meta_key(meta: &ParseNestedMeta<'_>) -> (r: Option<String>)
    ensures
        match r {
            Some(word) => nested_key(*meta) == Some(word@),
            None => nested_key(*meta) is None,
        },
{
    meta.path.get_ident().map(|i| i.to_string())
}

/// `Spanned::span` of the key of a nested entry: where the key stands.
#[verifier::external_body]
pub(crate) fn meta_key_span(meta: &ParseNestedMeta<'_>) -> (r: Span)
    ensures
        r == nested_key_span(*meta),
{
    meta.path.span()
}

/// `ParseNestedMeta::value` and the parser of `LitStr`: reads `=` and a
/// string literal from the entry. What comes back depends on the tokens
/// that are still unread, so nothing is claimed of it.
#[verifier::external_body]
pub(crate) fn meta_str_value(meta: &ParseNestedMeta<'_>) -> (r: Result<StrValue, syn::Error>) {
    let lit = meta.value()?.parse::<LitStr>()?;
    Ok(StrValue { text: lit.value(), span: lit.span() })
}

/// `ParseNestedMeta::value` and the parser of `Path`: reads `=` and a path
/// from the entry. What comes back depends on the tokens that are still
/// unread, so nothing is claimed of it.
#[verifier::external_body]
pub(crate) fn meta_path_value(meta: &ParseNestedMeta<'_>) -> (r: Result<Path, syn::Error>) {
    meta.value()?.parse::<Path>()
}

/// `ToTokens::to_tokens` of a path: appends the tokens that the path prints
/// as.
#[verifier::external_body]
pub(crate) fn push_path(ts: &mut TokenStream, path: &Path)
    ensures
        stream_tokens(*final(ts)) == stream_tokens(*old(ts)) + path_tokens(*path),
{
    path.to_tokens(ts)
}

/// `Generics::split_for_impl`, first part, printed: appends the generic
/// parameters as they stand in front of an impl.
#[verifier::external_body]
pub(crate) fn push_impl_generics(ts: &mut TokenStream, generics: &Generics)
    ensures
        stream_tokens(*final(ts)) == stream_tokens(*old(ts)) + impl_generics_tokens(*generics),
{
    generics.split_for_impl().0.to_tokens(ts)
}

/// `Generics::split_for_impl`, second part, printed: appends the generic
/// parameters as they stand behind the type's name.
#[verifier::external_body]
pub(crate) fn push_type_generics(ts: &mut TokenStream, generics: &Generics)
    ensures
        stream_tokens(*final(ts)) == stream_tokens(*old(ts)) + type_generics_tokens(*generics),
{
    generics.split_for_impl().1.to_tokens(ts)
}

/// `Generics::split_for_impl`, third part, printed: appends the `where`
/// clause, if there is one.
#[verifier::external_body]
pub(crate) fn push_where_clause(ts: &mut TokenStream, generics: &Generics)
    ensures
        stream_tokens(*final(ts)) == stream_tokens(*old(ts)) + where_clause_tokens(*generics),
{
    generics.split_for_impl().2.to_tokens(ts)
}

} // verus!
