//! The sentences that report broken rules, and the forms an error takes.

use proc_macro2::{Span, TokenStream};
use simple_dto_mapper_derive::error::{DtoError, Violation};

fn compile_error_text(message: &str) -> String {
    let tokens: TokenStream = "::core::compile_error!".parse().expect("tokens");
    format!("{} {{ {:?} }}", tokens, message)
}

#[test]
fn every_violation_has_its_sentence() {
    assert_eq!(Violation::EmptyRename.message(), "`rename` cannot be empty");
    assert_eq!(Violation::InvalidRename.message(), "`rename` must be a valid identifier");
    assert_eq!(Violation::DuplicateRename.message(), "duplicate `rename`");
    assert_eq!(Violation::DuplicateTransformFn.message(), "duplicate `transform_fn`");
    assert_eq!(Violation::DuplicateSkip.message(), "duplicate `skip`");
    assert_eq!(Violation::DuplicateInto.message(), "duplicate `into`");
    assert_eq!(
        Violation::UnknownFieldKey.message(),
        "unknown #[dto(...)] key; expected one of: rename, transform_fn, skip, into"
    );
    assert_eq!(
        Violation::SkipConflict.message(),
        "`#[dto(skip)]` cannot be combined with `rename`, `transform_fn`, or `into`"
    );
    assert_eq!(
        Violation::TransformIntoConflict.message(),
        "`#[dto(transform_fn = ...)]` conflicts with `#[dto(into)]`"
    );
    assert_eq!(Violation::DuplicateFrom.message(), "duplicate `from` on struct");
    assert_eq!(
        Violation::UnknownStructKey.message(),
        "unknown struct-level #[dto(...)] key; expected `from`"
    );
    assert_eq!(Violation::MissingFrom.message(), "Expected `#[dto(from = Type)]` on the struct.");
    assert_eq!(Violation::UnnamedFields.message(), "DtoFrom only supports named-field structs.");
    assert_eq!(Violation::NotStruct.message(), "DtoFrom only supports structs.");
}

#[test]
fn rule_error_shows_the_sentence_of_its_rule() {
    let e = DtoError::Rule { kind: Violation::DuplicateSkip, span: Span::call_site() };
    assert_eq!(e.message(), "duplicate `skip`");
    assert_eq!(e.to_compile_error().to_string(), compile_error_text("duplicate `skip`"));
    let e = e.into_syn();
    assert_eq!(e.to_string(), "duplicate `skip`");
    assert_eq!(e.to_compile_error().to_string(), compile_error_text("duplicate `skip`"));
}

#[test]
fn syntax_error_shows_the_parser_message() {
    let parser_error = syn::parse_str::<syn::Path>("3").err().expect("a number is no path");
    let expected = parser_error.to_string();
    let e = DtoError::Syntax(parser_error);
    assert_eq!(e.message(), expected);
    assert_eq!(e.to_compile_error().to_string(), compile_error_text(&expected));
    let e = e.into_syn();
    assert_eq!(e.to_string(), expected);
}

#[test]
fn message_with_quotes_is_escaped_in_the_report() {
    let e = DtoError::Syntax(syn::Error::new(Span::call_site(), "say \"hi\""));
    assert_eq!(e.message(), "say \"hi\"");
    assert_eq!(e.to_compile_error().to_string(), compile_error_text("say \"hi\""));
}
