use cc_bindings_from_rs::ident::{
    format_cc_ident, ident_continue, ident_start, plain_identifier, reserved_keyword, same_text,
    FormatError,
};
use proc_macro2::TokenTree;

fn single_ident(name: &str) -> String {
    let stream = format_cc_ident(name).unwrap();
    let trees: Vec<TokenTree> = stream.into_iter().collect();
    assert_eq!(trees.len(), 1);
    match &trees[0] {
        TokenTree::Ident(ident) => ident.to_string(),
        other => panic!("not an identifier: {other}"),
    }
}

#[test]
fn identifiers_are_kept_as_they_are() {
    assert_eq!(single_ident("rust_out"), "rust_out");
    assert_eq!(single_ident("_"), "_");
    assert_eq!(single_ident("_9"), "_9");
    assert_eq!(single_ident("Foo2Bar"), "Foo2Bar");
    assert_eq!(single_ident("x"), "x");
    // Reserved in Rust, free in C++.
    assert_eq!(single_ident("fn"), "fn");
    assert_eq!(single_ident("impl"), "impl");
}

#[test]
fn empty_name_is_turned_down() {
    assert_eq!(format_cc_ident("").unwrap_err(), FormatError::Empty);
}

#[test]
fn illegal_characters_are_turned_down() {
    for name in ["9lives", "my-crate", "a b", "a.b", "operator==", "~Foo", "(", "na\u{ef}ve", "\u{e9}", " a", "a\n", "r#x"] {
        assert_eq!(format_cc_ident(name).unwrap_err(), FormatError::IllegalCharacter, "{name}");
    }
}

#[test]
fn reserved_keywords_are_turned_down() {
    for name in ["alignas", "class", "namespace", "reinterpret_cast", "xor_eq", "int", "while", "char8_t"] {
        assert_eq!(format_cc_ident(name).unwrap_err(), FormatError::ReservedKeyword, "{name}");
    }
}

#[test]
fn near_keywords_are_identifiers() {
    for name in ["Class", "class_", "_class", "clas", "xor_e", "INT", "namespaces"] {
        assert_eq!(single_ident(name), name);
    }
}

#[test]
fn format_error_messages() {
    assert_eq!(FormatError::Empty.message(), "Empty string is not a valid C++ identifier");
    assert_eq!(
        FormatError::IllegalCharacter.message(),
        "The name holds a character that a C++ identifier cannot hold"
    );
    assert_eq!(
        FormatError::ReservedKeyword.message(),
        "The name is a C++ reserved keyword and can't be used as a C++ identifier"
    );
}

#[test]
fn character_classes() {
    assert!(ident_start('a') && ident_start('z') && ident_start('A') && ident_start('Z'));
    assert!(ident_start('_'));
    assert!(!ident_start('0') && !ident_start('9') && !ident_start('-') && !ident_start(' '));
    assert!(!ident_start('`') && !ident_start('{') && !ident_start('@') && !ident_start('['));
    assert!(!ident_start('\u{e9}'));
    assert!(ident_continue('0') && ident_continue('9') && ident_continue('_'));
    assert!(ident_continue('q') && ident_continue('Q'));
    assert!(!ident_continue('/') && !ident_continue(':') && !ident_continue('\u{660}'));
}

#[test]
fn plain_identifiers() {
    assert!(plain_identifier("abc"));
    assert!(plain_identifier("class"));
    assert!(plain_identifier("_1"));
    assert!(!plain_identifier(""));
    assert!(!plain_identifier("1a"));
    assert!(!plain_identifier("a-b"));
    assert!(!plain_identifier("ab\u{df}"));
}

#[test]
fn reserved_words() {
    assert!(reserved_keyword("do"));
    assert!(reserved_keyword("synchronized"));
    assert!(!reserved_keyword("done"));
    assert!(!reserved_keyword(""));
    assert!(!reserved_keyword("fn"));
}

#[test]
fn same_text_compares_characters() {
    assert!(same_text("", ""));
    assert!(same_text("abc", "abc"));
    assert!(same_text("\u{e9}t\u{e9}", "\u{e9}t\u{e9}"));
    assert!(!same_text("abc", "abd"));
    assert!(!same_text("abc", "ab"));
    assert!(!same_text("ab", "abc"));
    assert!(!same_text("\u{e9}", "e"));
}
