//! The tokens of the entries and of the impl, shape by shape.

use proc_macro2::{Ident, Span, TokenStream};
use simple_dto_mapper_derive::emit::{emit_impl, field_entry, generate_field_mapping};
use simple_dto_mapper_derive::error::{DtoError, Violation};
use simple_dto_mapper_derive::expand::{expand, expand_field, expand_fields};
use simple_dto_mapper_derive::field::FieldAttrs;
use simple_dto_mapper_derive::syntax::{Shape, Target, TargetField};

fn tokens_of(code: &str) -> String {
    code.parse::<TokenStream>().expect("the text is made of tokens").to_string()
}

fn word(text: &str) -> Ident {
    Ident::new(text, Span::call_site())
}

fn fn_path(text: &str) -> syn::Path {
    syn::parse_str::<syn::Path>(text).expect("the text is a path")
}

fn generics_of(item: &str) -> syn::Generics {
    syn::parse_str::<syn::DeriveInput>(item).expect("the text is an item").generics
}

fn attrs_on_field(field: &str) -> Vec<syn::Attribute> {
    let item = format!("struct Holder {{ {} }}", field);
    let input = syn::parse_str::<syn::DeriveInput>(&item).expect("the text is a struct");
    match input.data {
        syn::Data::Struct(s) => s.fields.into_iter().next().expect("one field").attrs,
        _ => unreachable!(),
    }
}

fn attrs_on_item(item: &str) -> Vec<syn::Attribute> {
    syn::parse_str::<syn::DeriveInput>(item).expect("the text is an item").attrs
}

fn named(name: &str, field: &str) -> TargetField {
    TargetField { name: Some(word(name)), attrs: attrs_on_field(field) }
}

fn mapping(a: &FieldAttrs, target: &str, source: &str) -> String {
    generate_field_mapping(&word(target), &word(source), a, Span::call_site(), Span::call_site())
        .to_string()
}

#[test]
fn direct_mapping_reads_the_source_field() {
    let a = FieldAttrs::new();
    assert_eq!(mapping(&a, "id", "id"), tokens_of("id: source.id"));
    assert_eq!(mapping(&a, "headline", "title"), tokens_of("headline: source.title"));
}

#[test]
fn skipped_field_gets_its_default() {
    let mut a = FieldAttrs::new();
    a.skip = true;
    assert_eq!(mapping(&a, "note", "note"), tokens_of("note: Default::default()"));
    assert_eq!(mapping(&a, "note", "other"), tokens_of("note: Default::default()"));
}

#[test]
fn transformed_field_goes_through_the_function() {
    let mut a = FieldAttrs::new();
    a.transform_fn = Some(fn_path("types::mask_name"));
    assert_eq!(
        mapping(&a, "display_name", "name"),
        tokens_of("display_name: types::mask_name(source.name)")
    );
    a.transform_fn = Some(fn_path("upper"));
    assert_eq!(mapping(&a, "name", "name"), tokens_of("name: upper(source.name)"));
}

#[test]
fn converted_field_goes_through_into() {
    let mut a = FieldAttrs::new();
    a.into_flag = true;
    assert_eq!(
        mapping(&a, "status", "status"),
        tokens_of("status: ::core::convert::Into::into(source.status)")
    );
    assert_eq!(
        mapping(&a, "status", "state"),
        tokens_of("status: ::core::convert::Into::into(source.state)")
    );
}

#[test]
fn mapping_follows_the_precedence_of_the_action() {
    let mut a = FieldAttrs::new();
    a.into_flag = true;
    a.transform_fn = Some(fn_path("f"));
    assert_eq!(mapping(&a, "x", "y"), tokens_of("x: f(source.y)"));
    a.skip = true;
    assert_eq!(mapping(&a, "x", "y"), tokens_of("x: Default::default()"));
}

#[test]
fn entry_reads_the_field_of_its_own_name() {
    let out = field_entry(&word("age"), &Ok(FieldAttrs::new()), Span::call_site());
    assert_eq!(out.to_string(), tokens_of("age: source.age"));
}

#[test]
fn entry_reads_the_renamed_field() {
    let mut a = FieldAttrs::new();
    assert_eq!(a.accept_rename("title", Span::call_site()), Ok(()));
    let out = field_entry(&word("headline"), &Ok(a), Span::call_site());
    assert_eq!(out.to_string(), tokens_of("headline: source.title"));

    let mut b = FieldAttrs::new();
    assert_eq!(b.accept_rename("name", Span::call_site()), Ok(()));
    b.into_flag = true;
    let out = field_entry(&word("label"), &Ok(b), Span::call_site());
    assert_eq!(out.to_string(), tokens_of("label: ::core::convert::Into::into(source.name)"));
}

#[test]
fn entry_reads_a_renamed_field_that_is_not_ascii() {
    let mut a = FieldAttrs::new();
    assert_eq!(a.accept_rename("größe", Span::call_site()), Ok(()));
    let out = field_entry(&word("size"), &Ok(a), Span::call_site());
    assert_eq!(out.to_string(), tokens_of("size: source.größe"));
}

#[test]
fn entry_of_a_failed_reading_is_the_report() {
    let failed = Err(DtoError::Rule { kind: Violation::DuplicateInto, span: Span::call_site() });
    let out = field_entry(&word("age"), &failed, Span::call_site());
    assert_eq!(out.to_string(), tokens_of("::core::compile_error! { \"duplicate `into`\" }"));
}

#[test]
fn impl_wraps_the_entries() {
    let entries: Vec<TokenStream> = vec![
        "a: source.a".parse().expect("tokens"),
        "b: Default::default()".parse().expect("tokens"),
    ];
    let out = emit_impl(
        &word("Dto"),
        &syn::Generics::default(),
        &fn_path("types::Source"),
        &entries,
        Span::call_site(),
    );
    assert_eq!(
        out.to_string(),
        tokens_of(
            "impl From<types::Source> for Dto { fn from(source: types::Source) -> Self { Self { a: source.a, b: Default::default(), } } }"
        )
    );
}

#[test]
fn impl_without_entries_has_an_empty_literal() {
    let out = emit_impl(
        &word("Dto"),
        &syn::Generics::default(),
        &fn_path("Source"),
        &Vec::new(),
        Span::call_site(),
    );
    assert_eq!(
        out.to_string(),
        tokens_of("impl From<Source> for Dto { fn from(source: Source) -> Self { Self { } } }")
    );
}

#[test]
fn impl_carries_the_generics() {
    let generics = generics_of("struct Dto<T: Clone, U = u8> where U: Copy { t: T, u: U }");
    let entries: Vec<TokenStream> = vec!["t: source.t".parse().expect("tokens")];
    let out = emit_impl(&word("Dto"), &generics, &fn_path("Source"), &entries, Span::call_site());
    assert_eq!(
        out.to_string(),
        tokens_of(
            "impl<T: Clone, U> From<Source> for Dto<T, U> where U: Copy { fn from(source: Source) -> Self { Self { t: source.t, } } }"
        )
    );
}

#[test]
fn field_is_expanded_from_its_attributes() {
    let out = expand_field(&named("id", "id: String"), Span::call_site());
    assert_eq!(out.to_string(), tokens_of("id: source.id"));
    let out = expand_field(&named("n", "#[dto(rename = \"name\")] n: String"), Span::call_site());
    assert_eq!(out.to_string(), tokens_of("n: source.name"));
    let out = expand_field(&named("n", "#[dto(skip, skip)] n: String"), Span::call_site());
    assert_eq!(out.to_string(), tokens_of("::core::compile_error! { \"duplicate `skip`\" }"));
}

#[test]
fn field_without_a_name_is_reported() {
    let field = TargetField { name: None, attrs: Vec::new() };
    let out = expand_field(&field, Span::call_site());
    assert_eq!(
        out.to_string(),
        tokens_of("::core::compile_error! { \"DtoFrom only supports named-field structs.\" }")
    );
}

#[test]
fn fields_are_expanded_in_order() {
    let fields = vec![
        named("a", "a: u8"),
        named("b", "#[dto(into)] b: u8"),
        named("c", "#[dto(skip)] c: u8"),
    ];
    let out = expand_fields(&fields, Span::call_site());
    let shown: Vec<String> = out.iter().map(|ts| ts.to_string()).collect();
    assert_eq!(
        shown,
        vec![
            tokens_of("a: source.a"),
            tokens_of("b: ::core::convert::Into::into(source.b)"),
            tokens_of("c: Default::default()"),
        ]
    );
    assert!(expand_fields(&Vec::new(), Span::call_site()).is_empty());
}

#[test]
fn item_is_expanded_by_its_shape() {
    let target = Target {
        name: word("Dto"),
        attrs: attrs_on_item("#[dto(from = Source)] struct Dto;"),
        generics: syn::Generics::default(),
        shape: Shape::Named(vec![named("a", "a: u8")]),
    };
    assert_eq!(
        expand(&target, Span::call_site()).to_string(),
        tokens_of("impl From<Source> for Dto { fn from(source: Source) -> Self { Self { a: source.a, } } }")
    );

    let target = Target { shape: Shape::Tuple, ..target };
    assert_eq!(
        expand(&target, Span::call_site()).to_string(),
        tokens_of("::core::compile_error! { \"DtoFrom only supports named-field structs.\" }")
    );

    let target = Target { shape: Shape::Unit, ..target };
    assert_eq!(
        expand(&target, Span::call_site()).to_string(),
        tokens_of("::core::compile_error! { \"DtoFrom only supports named-field structs.\" }")
    );

    let target = Target { shape: Shape::Enum, ..target };
    assert_eq!(
        expand(&target, Span::call_site()).to_string(),
        tokens_of("::core::compile_error! { \"DtoFrom only supports structs.\" }")
    );

    let target = Target { shape: Shape::Union, ..target };
    assert_eq!(
        expand(&target, Span::call_site()).to_string(),
        tokens_of("::core::compile_error! { \"DtoFrom only supports structs.\" }")
    );

    let target = Target { attrs: Vec::new(), ..target };
    assert_eq!(
        expand(&target, Span::call_site()).to_string(),
        tokens_of("::core::compile_error! { \"Expected `#[dto(from = Type)]` on the struct.\" }")
    );
}
