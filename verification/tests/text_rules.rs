//! Equality of text, blankness, and what can name an identifier.

use simple_dto_mapper_derive::text::{is_ascii_text, is_blank, is_ident_text, same_text};

#[test]
fn same_text_compares_character_by_character() {
    assert!(same_text("", ""));
    assert!(same_text("rename", "rename"));
    assert!(same_text("héllo", "héllo"));
    assert!(!same_text("rename", "renmae"));
    assert!(!same_text("rename", "rename "));
    assert!(!same_text("skip", "ski"));
    assert!(!same_text("", "x"));
    assert!(!same_text("Into", "into"));
}

#[test]
fn blank_is_empty_or_whitespace_only() {
    assert!(is_blank(""));
    assert!(is_blank(" "));
    assert!(is_blank(" \t\r\n "));
    assert!(is_blank("\u{a0}\u{3000}"));
    assert!(!is_blank("a"));
    assert!(!is_blank("  a  "));
    assert!(!is_blank("_"));
    assert!(!is_blank("\u{200b}"));
}

#[test]
fn identifiers_start_with_a_letter_or_an_underscore() {
    assert!(is_ident_text("a"));
    assert!(is_ident_text("name"));
    assert!(is_ident_text("Name"));
    assert!(is_ident_text("_"));
    assert!(is_ident_text("_x"));
    assert!(is_ident_text("__"));
    assert!(is_ident_text("x1"));
    assert!(is_ident_text("snake_case_2"));
    assert!(is_ident_text("type"));
    assert!(is_ident_text("été"));
    assert!(is_ident_text("名前"));
}

#[test]
fn text_with_other_characters_is_no_identifier() {
    assert!(!is_ident_text(""));
    assert!(!is_ident_text("1"));
    assert!(!is_ident_text("1x"));
    assert!(!is_ident_text("42"));
    assert!(!is_ident_text("first name"));
    assert!(!is_ident_text(" name"));
    assert!(!is_ident_text("name "));
    assert!(!is_ident_text("a-b"));
    assert!(!is_ident_text("a.b"));
    assert!(!is_ident_text("a::b"));
    assert!(!is_ident_text("r#type"));
    assert!(!is_ident_text("x\u{200b}"));
    assert!(!is_ident_text("€"));
}

#[test]
fn ascii_text_holds_no_other_character() {
    assert!(is_ascii_text(""));
    assert!(is_ascii_text("name_1"));
    assert!(is_ascii_text(" \t~\u{7f}"));
    assert!(!is_ascii_text("größe"));
    assert!(!is_ascii_text("a\u{80}"));
    assert!(!is_ascii_text("名前"));
}

#[test]
fn ascii_characters_settle_blankness() {
    assert!(is_blank("\t\n\u{b}\u{c}\r "));
    assert!(!is_blank("\u{1f}"));
    assert!(!is_blank("\u{3000}x\u{3000}"));
    assert!(!is_blank("\u{0}"));
}
