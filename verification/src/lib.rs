//! The rules behind a derive that maps one struct into another, field by
//! field: reading the `dto` attributes, rejecting what contradicts itself,
//! and emitting the conversion.
//!
//! A struct names its source with `#[dto(from = Type)]`. Each field reads
//! the source field of its own name, unless one of four keys says otherwise:
//! `rename = "field"` reads another field, `transform_fn = path` passes the
//! value through a function, `into` converts it with `Into`, and `skip`
//! leaves the field to `Default::default()`.

use vstd::prelude::*;
use proc_macro2::{Span, TokenStream};
use crate::error::{error_stream, error_tokens};
use crate::expand::{expand, expansion_of};
use crate::syntax::{parse_target, parsed_target};
use crate::tokens::{call_site, stream_tokens};

pub mod emit;
pub mod error;
pub mod expand;
pub mod field;
pub mod source;
pub mod syntax;
pub mod text;
pub mod tokens;

verus! {

/// The derive: parses the item, and answers with the impl of
/// `From<Source>` for it or with the report of what is wrong: the parser's
/// report where the input is no item, and else what the item expands to at
/// the place where the macro was called.
pub fn dto_from_derive(input: TokenStream) -> (r: TokenStream)
    ensures
        match parsed_target(input) {
            Ok(target) => exists|site: Span| stream_tokens(r) == expansion_of(target, site),
            Err(e) => stream_tokens(r) == error_tokens(e),
        },
{
    match parse_target(input) {
        Ok(target) => {
            let site = call_site();
            let out = expand(&target, site);
            assert(stream_tokens(out) == expansion_of(target, site));
            out
        },
        Err(e) => error_stream(&e),
    }
}

} // verus!
