//! From the item to the conversion: the source type, the shape of the item,
//! one entry for each field, the impl.

use vstd::prelude::*;
use proc_macro2::{Span, TokenStream};
use crate::emit::{all_tokens, emit_impl, entry_tokens, field_entry, impl_tokens};
use crate::error::{compile_error_tokens, DtoError, Violation};
use crate::field::{extract_dto_field_attrs, reading_of};
use crate::source::{find_source_type, source_of};
use crate::syntax::{Shape, Target, TargetField};
use crate::tokens::{ident_span, span_of, stream_tokens, Tok};

verus! {

/// The entry of one field in the struct literal: what its name and the
/// reading of its attributes give. A field without a name gets the report,
/// at `site`, that only named fields are supported.
pub open spec fn entry_of(field: TargetField, site: Span) -> Seq<Tok> {
    match field.name {
        Some(name) => entry_tokens(name, reading_of(field.attrs@, site), site),
        None => (DtoError::Rule { kind: Violation::UnnamedFields, span: site }).tokens(),
    }
}

/// One entry for each field, in the order of the fields.
pub open spec fn entries_from(fields: Seq<TargetField>, site: Span) -> Seq<Seq<Tok>> {
    Seq::new(fields.len(), |i: int| entry_of(fields[i], site))
}

/// What an item expands to. An error in reading the source type is
/// reported, and nothing else; else an item that is no struct, or a struct
/// without named fields, gets the report of that at the item's name; else
/// the impl is made, with one entry for each field.
pub open spec fn expansion_of(target: Target, site: Span) -> Seq<Tok> {
    match source_of(target.attrs@, site) {
        Err(e) => e.tokens(),
        Ok(path) => match target.shape {
            Shape::Enum | Shape::Union => compile_error_tokens(
                ident_span(target.name),
                Violation::NotStruct.text(),
            ),
            Shape::Tuple | Shape::Unit => compile_error_tokens(
                ident_span(target.name),
                Violation::UnnamedFields.text(),
            ),
            Shape::Named(fields) => impl_tokens(
                target.name,
                target.generics,
                path,
                entries_from(fields@, site),
                site,
            ),
        },
    }
}

/// The entry of one field in the struct literal.
pub fn expand_field(field: &TargetField, site: Span) -> (r: TokenStream)
    ensures
        stream_tokens(r) == entry_of(*field, site),
{
    match &field.name {
        Some(name) => {
            let reading = extract_dto_field_attrs(field.attrs.as_slice(), site);
            field_entry(name, &reading, site)
        },
        None => {
            let e = DtoError::Rule { kind: Violation::UnnamedFields, span: site };
            e.to_compile_error()
        },
    }
}

/// The entries of all fields, in order.
pub fn expand_fields(fields: &Vec<TargetField>, site: Span) -> (r: Vec<TokenStream>)
    ensures
        all_tokens(r@) == entries_from(fields@, site),
{
    let mut entries: Vec<TokenStream> = Vec::new();
    let mut i: usize = 0;
    while i < fields.len()
        invariant
            i <= fields@.len(),
            entries@.len() == i,
            forall|j: int| 0 <= j < i ==> stream_tokens(#[trigger] entries@[j]) == entry_of(fields@[j], site),
        decreases fields@.len() - i,
    {
        let entry = expand_field(&fields[i], site);
        entries.push(entry);
        i = i + 1;
    }
    assert(all_tokens(entries@) =~= entries_from(fields@, site));
    entries
}

/// What the derive makes of an item: the impl of the conversion, or the
/// report of the first thing that is wrong with the item. The source type
/// is looked for first, then the shape of the item is judged, then each
/// field gets its entry; an error in the attributes of a field is reported
/// in that field's place, inside the impl.
pub fn expand(target: &Target, site: Span) -> (r: TokenStream)
    ensures
        stream_tokens(r) == expansion_of(*target, site),
{
    let path = match find_source_type(target.attrs.as_slice(), site) {
        Ok(path) => path,
        Err(e) => {
            return e.to_compile_error();
        },
    };
    match &target.shape {
        Shape::Named(fields) => {
            let entries = expand_fields(fields, site);
            emit_impl(&target.name, &target.generics, &path, &entries, site)
        },
        Shape::Tuple | Shape::Unit => {
            let e = DtoError::Rule { kind: Violation::UnnamedFields, span: span_of(&target.name) };
            e.to_compile_error()
        },
        Shape::Enum | Shape::Union => {
            let e = DtoError::Rule { kind: Violation::NotStruct, span: span_of(&target.name) };
            e.to_compile_error()
        },
    }
}

} // verus!
