//! Items that break a rule of the `dto` attributes: the derive answers with
//! an invocation of `compile_error!` that carries the rule's message.

use proc_macro2::TokenStream;
use simple_dto_mapper_derive::dto_from_derive;

fn report_of(item: &str) -> String {
    let input: TokenStream = item.parse().expect("the text is made of tokens");
    dto_from_derive(input).to_string()
}

fn compile_error_with(message: &str) -> String {
    let tokens: TokenStream = "::core::compile_error!".parse().expect("tokens");
    format!("{} {{ {:?} }}", tokens, message)
}

const CONFLICT_SKIP: &str = r#"
    #[derive(DtoFrom)]
    #[dto(from = types::Source)]
    struct Dto {
        #[dto(skip, into)]
        id: String,
    }
"#;

const CONFLICT_TRANSFORM_INTO: &str = r#"
    #[derive(DtoFrom)]
    #[dto(from = types::Source)]
    struct Dto {
        #[dto(rename = "name", transform_fn = types::upper, into)]
        display: String,
    }
"#;

const DUPLICATE_FROM: &str = r#"
    #[derive(DtoFrom)]
    #[dto(from = types::Source, from = types::Source)]
    struct Dto {
        id: String,
    }
"#;

const DUPLICATE_RENAME: &str = r#"
    #[derive(DtoFrom)]
    #[dto(from = types::Source)]
    struct Dto {
        #[dto(rename = "id", rename = "id")]
        id: String,
    }
"#;

const UNKNOWN_KEY: &str = r#"
    #[derive(DtoFrom)]
    #[dto(from = types::Source)]
    struct Dto {
        // Typo: rename → renmae
        #[dto(renmae = "id")]
        id: String,
    }
"#;

const UNKNOWN_STRUCT_KEY: &str = r#"
    #[derive(DtoFrom)]
    #[dto(from = types::Source, extra = true)]
    struct Dto {
        id: String,
    }
"#;

fn impl_with_entry(entry: &str) -> String {
    let code = format!(
        "impl From<types::Source> for Dto {{ fn from(source: types::Source) -> Self {{ Self {{ {} , }} }} }}",
        entry
    );
    code.parse::<TokenStream>().expect("tokens").to_string()
}

#[test]
fn compile_fail_diagnostics() {
    // Each item with the report it must get.
    assert_eq!(
        report_of(CONFLICT_SKIP),
        impl_with_entry(&compile_error_with(
            "`#[dto(skip)]` cannot be combined with `rename`, `transform_fn`, or `into`"
        ))
    );
    assert_eq!(
        report_of(CONFLICT_TRANSFORM_INTO),
        impl_with_entry(&compile_error_with(
            "`#[dto(transform_fn = ...)]` conflicts with `#[dto(into)]`"
        ))
    );
    assert_eq!(report_of(DUPLICATE_FROM), compile_error_with("duplicate `from` on struct"));
    assert_eq!(
        report_of(DUPLICATE_RENAME),
        impl_with_entry(&compile_error_with("duplicate `rename`"))
    );
    assert_eq!(
        report_of(UNKNOWN_KEY),
        impl_with_entry(&compile_error_with(
            "unknown #[dto(...)] key; expected one of: rename, transform_fn, skip, into"
        ))
    );
    assert_eq!(
        report_of(UNKNOWN_STRUCT_KEY),
        compile_error_with("unknown struct-level #[dto(...)] key; expected `from`")
    );
}

#[test]
fn missing_from_is_reported() {
    assert_eq!(
        report_of("struct Dto { id: String }"),
        compile_error_with("Expected `#[dto(from = Type)]` on the struct.")
    );
    assert_eq!(
        report_of("#[derive(Debug)] #[dto()] struct Dto { id: String }"),
        compile_error_with("Expected `#[dto(from = Type)]` on the struct.")
    );
}

#[test]
fn tuple_and_unit_structs_are_turned_down() {
    assert_eq!(
        report_of("#[dto(from = Source)] struct Dto(String, u32);"),
        compile_error_with("DtoFrom only supports named-field structs.")
    );
    assert_eq!(
        report_of("#[dto(from = Source)] struct Dto;"),
        compile_error_with("DtoFrom only supports named-field structs.")
    );
}

#[test]
fn enums_and_unions_are_turned_down() {
    assert_eq!(
        report_of("#[dto(from = Source)] enum Dto { A, B }"),
        compile_error_with("DtoFrom only supports structs.")
    );
    assert_eq!(
        report_of("#[dto(from = Source)] union Dto { a: u32, b: f32 }"),
        compile_error_with("DtoFrom only supports structs.")
    );
}

#[test]
fn source_type_is_judged_before_the_shape() {
    assert_eq!(
        report_of("enum Dto { A }"),
        compile_error_with("Expected `#[dto(from = Type)]` on the struct.")
    );
    assert_eq!(
        report_of("#[dto(into)] struct Dto(u8);"),
        compile_error_with("unknown struct-level #[dto(...)] key; expected `from`")
    );
}

#[test]
fn empty_rename_is_reported() {
    assert_eq!(
        report_of("#[dto(from = types::Source)] struct Dto { #[dto(rename = \"\")] id: String }"),
        impl_with_entry(&compile_error_with("`rename` cannot be empty"))
    );
    assert_eq!(
        report_of("#[dto(from = types::Source)] struct Dto { #[dto(rename = \" \\t \")] id: String }"),
        impl_with_entry(&compile_error_with("`rename` cannot be empty"))
    );
}

#[test]
fn rename_that_is_no_identifier_is_reported() {
    assert_eq!(
        report_of("#[dto(from = types::Source)] struct Dto { #[dto(rename = \"first name\")] id: String }"),
        impl_with_entry(&compile_error_with("`rename` must be a valid identifier"))
    );
    assert_eq!(
        report_of("#[dto(from = types::Source)] struct Dto { #[dto(rename = \"1st\")] id: String }"),
        impl_with_entry(&compile_error_with("`rename` must be a valid identifier"))
    );
}

#[test]
fn empty_rename_goes_before_duplicate_rename() {
    assert_eq!(
        report_of(
            "#[dto(from = types::Source)] struct Dto { #[dto(rename = \"id\", rename = \"\")] id: String }"
        ),
        impl_with_entry(&compile_error_with("`rename` cannot be empty"))
    );
}

#[test]
fn duplicate_keys_are_reported() {
    assert_eq!(
        report_of("#[dto(from = types::Source)] struct Dto { #[dto(skip, skip)] id: String }"),
        impl_with_entry(&compile_error_with("duplicate `skip`"))
    );
    assert_eq!(
        report_of("#[dto(from = types::Source)] struct Dto { #[dto(into)] #[dto(into)] id: String }"),
        impl_with_entry(&compile_error_with("duplicate `into`"))
    );
    assert_eq!(
        report_of(
            "#[dto(from = types::Source)] struct Dto { #[dto(transform_fn = f, transform_fn = g)] id: String }"
        ),
        impl_with_entry(&compile_error_with("duplicate `transform_fn`"))
    );
}

#[test]
fn duplicate_transform_is_reported_before_its_value_is_read() {
    assert_eq!(
        report_of(
            "#[dto(from = types::Source)] struct Dto { #[dto(transform_fn = f, transform_fn = 3)] id: String }"
        ),
        impl_with_entry(&compile_error_with("duplicate `transform_fn`"))
    );
}

#[test]
fn first_broken_rule_wins_over_a_later_contradiction() {
    assert_eq!(
        report_of("#[dto(from = types::Source)] struct Dto { #[dto(skip, into, bogus)] id: String }"),
        impl_with_entry(&compile_error_with(
            "unknown #[dto(...)] key; expected one of: rename, transform_fn, skip, into"
        ))
    );
}

#[test]
fn skip_conflict_goes_before_transform_conflict() {
    assert_eq!(
        report_of(
            "#[dto(from = types::Source)] struct Dto { #[dto(transform_fn = f, into, skip)] id: String }"
        ),
        impl_with_entry(&compile_error_with(
            "`#[dto(skip)]` cannot be combined with `rename`, `transform_fn`, or `into`"
        ))
    );
    assert_eq!(
        report_of(
            "#[dto(from = types::Source)] struct Dto { #[dto(skip, rename = \"name\")] id: String }"
        ),
        impl_with_entry(&compile_error_with(
            "`#[dto(skip)]` cannot be combined with `rename`, `transform_fn`, or `into`"
        ))
    );
}

#[test]
fn key_with_several_segments_is_unknown() {
    assert_eq!(
        report_of("#[dto(from = types::Source)] struct Dto { #[dto(dto::skip)] id: String }"),
        impl_with_entry(&compile_error_with(
            "unknown #[dto(...)] key; expected one of: rename, transform_fn, skip, into"
        ))
    );
    assert_eq!(
        report_of("#[dto(a::from = types::Source)] struct Dto { id: String }"),
        compile_error_with("unknown struct-level #[dto(...)] key; expected `from`")
    );
}

#[test]
fn error_in_one_field_leaves_the_others_mapped() {
    let out = report_of(
        "#[dto(from = Source)] struct Dto { a: u8, #[dto(nope)] b: u8, #[dto(into)] c: u8 }",
    );
    let expected = format!(
        "impl From<Source> for Dto {{ fn from(source: Source) -> Self {{ Self {{ a: source.a, {} , c: ::core::convert::Into::into(source.c), }} }} }}",
        compile_error_with(
            "unknown #[dto(...)] key; expected one of: rename, transform_fn, skip, into"
        )
    );
    assert_eq!(out, expected.parse::<TokenStream>().expect("tokens").to_string());
}

#[test]
fn unreadable_values_get_the_parser_report() {
    let out = report_of("#[dto(from = types::Source)] struct Dto { #[dto(rename = 3)] id: String }");
    assert_eq!(out, impl_with_entry(&compile_error_with("expected string literal")));
    let out = report_of("#[dto(from = types::Source)] struct Dto { #[dto(rename)] id: String }");
    assert_eq!(out, impl_with_entry(&compile_error_with("expected `=`")));
    let out = report_of("#[dto(from = \"Source\")] struct Dto { id: String }");
    assert_eq!(out, compile_error_with("expected identifier"));
    let out = report_of("#[dto(from = types::Source)] struct Dto { #[dto(skip into)] id: String }");
    assert_eq!(out, impl_with_entry(&compile_error_with("expected `,`")));
}

#[test]
fn attribute_without_a_list_gets_the_parser_report() {
    let out = report_of("#[dto] struct Dto { id: String }");
    assert_eq!(
        out,
        compile_error_with("expected attribute arguments in parentheses: #[dto(...)]")
    );
}

#[test]
fn input_that_is_no_item_gets_the_parser_report() {
    let out = report_of("fn main() {}");
    assert_eq!(out, compile_error_with("expected one of: `struct`, `enum`, `union`"));
}
