use cc_bindings_from_rs::bindings::{
    classify, format_crate, format_def, format_symbol, format_unsupported_def, Classification,
    EmitError, GeneratedBindings,
};
use cc_bindings_from_rs::ident::FormatError;
use cc_bindings_from_rs::unit::{
    CompiledUnit, DefId, Definition, ExportedSymbol, LocalDefId, LOCAL_CRATE,
};
use proc_macro2::{Delimiter, Literal, TokenStream, TokenTree};

/// A token tree as the assertions below compare it.
#[derive(Clone, Debug, PartialEq, Eq)]
enum Tok {
    Ident(String),
    Literal(String),
    Braces(Vec<Tok>),
    Other(String),
}

fn toks(stream: &TokenStream) -> Vec<Tok> {
    stream
        .clone()
        .into_iter()
        .map(|tree| match tree {
            TokenTree::Ident(ident) => Tok::Ident(ident.to_string()),
            TokenTree::Literal(literal) => Tok::Literal(literal.to_string()),
            TokenTree::Group(group) if group.delimiter() == Delimiter::Brace => {
                Tok::Braces(toks(&group.stream()))
            }
            other => Tok::Other(other.to_string()),
        })
        .collect()
}

fn ident(name: &str) -> Tok {
    Tok::Ident(name.to_string())
}

fn text(text: &str) -> Tok {
    Tok::Literal(Literal::string(text).to_string())
}

fn comment(txt: &str) -> Vec<Tok> {
    vec![ident("__COMMENT__"), text(txt)]
}

fn newline() -> Tok {
    ident("__NEWLINE__")
}

fn placeholder(txt: &str) -> Vec<Tok> {
    let mut fragment = vec![newline(), newline()];
    fragment.extend(comment(txt));
    fragment.push(newline());
    fragment
}

/// Whether `needle` stands somewhere in `haystack`, at any depth.
fn contains(haystack: &[Tok], needle: &[Tok]) -> bool {
    if haystack.windows(needle.len()).any(|window| window == needle) {
        return true;
    }
    haystack.iter().any(|tok| match tok {
        Tok::Braces(inner) => contains(inner, needle),
        _ => false,
    })
}

fn definition(path: &str, span: &str) -> Definition {
    Definition { path: path.to_string(), span: span.to_string() }
}

fn local(index: u32) -> DefId {
    DefId { krate: LOCAL_CRATE, index }
}

fn unit(name: &str, definitions: Vec<Definition>, symbols: Vec<ExportedSymbol>) -> CompiledUnit {
    CompiledUnit::new(name.to_string(), definitions, symbols).unwrap()
}

fn header(name: &str) -> Vec<Tok> {
    let mut tokens = comment(&format!(
        "Automatically @generated C++ bindings for the following Rust crate:\n{name}"
    ));
    tokens.push(newline());
    tokens
}

fn document(name: &str, body: Vec<Tok>) -> Vec<Tok> {
    let mut tokens = header(name);
    tokens.extend(vec![ident("namespace"), ident(name), Tok::Braces(body)]);
    tokens
}

#[test]
fn test_generated_bindings_fn_success() {
    // pub extern "C" fn public_function() { println!("foo"); }
    let unit = unit(
        "rust_out",
        vec![definition("public_function", "<crubit_unittests.rs>:2:17: 2:52")],
        vec![ExportedSymbol::NonGeneric(local(0))],
    );
    let bindings = GeneratedBindings::generate(&unit);
    let expected_comment_txt = "Error while generating bindings for `public_function` \
                                defined at <crubit_unittests.rs>:2:17: 2:52: \
                                Nothing works yet!";
    assert!(contains(&toks(&bindings.h_body), &comment(expected_comment_txt)));
}

#[test]
fn test_generated_bindings_fn_non_pub() {
    // extern "C" fn private_function() { println!("foo"); }
    let unit = unit(
        "rust_out",
        vec![definition("private_function", "<crubit_unittests.rs>:2:17: 2:49")],
        vec![],
    );
    let bindings = GeneratedBindings::generate(&unit);
    // Non-public functions should not be present in the generated bindings.
    assert!(!contains(&toks(&bindings.h_body), &[ident("private_function")]));
    assert!(!bindings.h_body.to_string().contains("private_function"));
}

#[test]
fn test_generated_bindings_top_level_items() {
    // pub fn public_function() {}
    let unit = unit(
        "rust_out",
        vec![definition("public_function", "<crubit_unittests.rs>:1:1: 1:26")],
        vec![ExportedSymbol::NonGeneric(local(0))],
    );
    let bindings = GeneratedBindings::generate(&unit);
    let expected_comment_txt = "Automatically @generated C++ bindings for the following Rust crate:\n\
                                rust_out";
    let tokens = toks(&bindings.h_body);
    assert_eq!(&tokens[..2], &comment(expected_comment_txt)[..]);
    let namespace = tokens.iter().position(|tok| *tok == ident("namespace")).unwrap();
    assert!(namespace >= 2);
    assert_eq!(tokens[namespace + 1], ident("rust_out"));
    assert!(matches!(tokens[namespace + 2], Tok::Braces(_)));
    assert_eq!(tokens.len(), namespace + 3);
}

#[test]
fn test_generated_bindings_unsupported_item() {
    // pub async fn public_function() {}
    // The export table also holds an instance of a generic function of `core`.
    let unit = unit(
        "rust_out",
        vec![definition("public_function", "<crubit_unittests.rs>:2:17: 2:47")],
        vec![
            ExportedSymbol::NonGeneric(local(0)),
            ExportedSymbol::Generic(
                DefId { krate: 2, index: 14250 },
                vec!["[static generator@<crubit_unittests.rs>:2:48: 2:50]".to_string()],
            ),
        ],
    );
    let bindings = GeneratedBindings::generate(&unit);
    let expected_comment_txt = "Error while generating bindings for `public_function` \
                                defined at <crubit_unittests.rs>:2:17: 2:47: \
                                Nothing works yet!";
    assert!(contains(&toks(&bindings.h_body), &comment(expected_comment_txt)));
}

#[test]
fn one_public_function_gives_header_and_one_placeholder() {
    let unit = unit(
        "rust_out",
        vec![definition("public_function", "<crubit_unittests.rs>:2:17: 2:52")],
        vec![ExportedSymbol::NonGeneric(local(0))],
    );
    let bindings = GeneratedBindings::generate(&unit);
    let expected = document(
        "rust_out",
        placeholder(
            "Error while generating bindings for `public_function` defined at \
             <crubit_unittests.rs>:2:17: 2:52: Nothing works yet!",
        ),
    );
    assert_eq!(toks(&bindings.h_body), expected);
}

#[test]
fn rendered_document_of_one_public_function() {
    let unit = unit(
        "rust_out",
        vec![definition("f", "<a.rs>:1:1: 1:2")],
        vec![ExportedSymbol::NonGeneric(local(0))],
    );
    let bindings = GeneratedBindings::generate(&unit);
    let mut expected = TokenStream::new();
    let mut body = TokenStream::new();
    let id = |name: &str| TokenTree::Ident(proc_macro2::Ident::new(name, proc_macro2::Span::call_site()));
    let lit = |text: &str| TokenTree::Literal(Literal::string(text));
    body.extend(vec![
        id("__NEWLINE__"),
        id("__NEWLINE__"),
        id("__COMMENT__"),
        lit("Error while generating bindings for `f` defined at <a.rs>:1:1: 1:2: Nothing works yet!"),
        id("__NEWLINE__"),
    ]);
    expected.extend(vec![
        id("__COMMENT__"),
        lit("Automatically @generated C++ bindings for the following Rust crate:\nrust_out"),
        id("__NEWLINE__"),
        id("namespace"),
        id("rust_out"),
        TokenTree::Group(proc_macro2::Group::new(Delimiter::Brace, body)),
    ]);
    assert_eq!(bindings.h_body.to_string(), expected.to_string());
}

#[test]
fn unit_without_exports_gives_empty_namespace() {
    let unit = unit(
        "rust_out",
        vec![definition("private_function", "<crubit_unittests.rs>:2:17: 2:49")],
        vec![],
    );
    let bindings = GeneratedBindings::generate(&unit);
    assert_eq!(toks(&bindings.h_body), document("rust_out", vec![]));
}

#[test]
fn generic_instance_gives_one_placeholder_with_fixed_reason() {
    let unit = unit(
        "rust_out",
        vec![definition("outer", "<lib.rs>:1:1: 1:9"), definition("identity", "<lib.rs>:3:1: 3:30")],
        vec![ExportedSymbol::Generic(local(1), vec!["i32".to_string()])],
    );
    let bindings = GeneratedBindings::generate(&unit);
    let expected = document(
        "rust_out",
        placeholder(
            "Error while generating bindings for `identity` defined at <lib.rs>:3:1: 3:30: \
             Generics are not supported yet.",
        ),
    );
    assert_eq!(toks(&bindings.h_body), expected);
}

#[test]
fn generic_instances_differ_only_by_definition() {
    let definitions = || vec![definition("identity", "<lib.rs>:3:1: 3:30")];
    let with_i32 = unit(
        "rust_out",
        definitions(),
        vec![ExportedSymbol::Generic(local(0), vec!["i32".to_string()])],
    );
    let with_pair = unit(
        "rust_out",
        definitions(),
        vec![ExportedSymbol::Generic(local(0), vec!["(u8, String)".to_string(), "bool".to_string()])],
    );
    assert_eq!(
        GeneratedBindings::generate(&with_i32).h_body.to_string(),
        GeneratedBindings::generate(&with_pair).h_body.to_string()
    );
}

#[test]
fn unformattable_unit_name_gives_one_top_level_comment() {
    let unit = unit(
        "9lives",
        vec![definition("public_function", "<lib.rs>:1:1: 1:26")],
        vec![ExportedSymbol::NonGeneric(local(0))],
    );
    let bindings = GeneratedBindings::generate(&unit);
    let mut expected = header("9lives");
    expected.extend(comment(
        "Failed to generate bindings for the crate: \
         The name holds a character that a C++ identifier cannot hold",
    ));
    let tokens = toks(&bindings.h_body);
    assert_eq!(tokens, expected);
    assert!(!contains(&tokens, &[ident("namespace")]));
}

#[test]
fn reserved_unit_name_gives_one_top_level_comment() {
    let unit = unit("class", vec![], vec![]);
    let bindings = GeneratedBindings::generate(&unit);
    let mut expected = header("class");
    expected.extend(comment(
        "Failed to generate bindings for the crate: \
         The name is a C++ reserved keyword and can't be used as a C++ identifier",
    ));
    assert_eq!(toks(&bindings.h_body), expected);
}

#[test]
fn empty_unit_name_gives_one_top_level_comment() {
    let unit = unit("", vec![], vec![]);
    let bindings = GeneratedBindings::generate(&unit);
    let mut expected = header("");
    expected.extend(comment(
        "Failed to generate bindings for the crate: Empty string is not a valid C++ identifier",
    ));
    assert_eq!(toks(&bindings.h_body), expected);
}

#[test]
fn skipped_entries_leave_no_fragment() {
    let definitions = || {
        vec![definition("first", "<lib.rs>:1:1: 1:5"), definition("second", "<lib.rs>:2:1: 2:5")]
    };
    let with_skipped = unit(
        "rust_out",
        definitions(),
        vec![
            ExportedSymbol::DropGlue("Vec<u8>".to_string()),
            ExportedSymbol::NonGeneric(local(0)),
            ExportedSymbol::NoDefId("__rust_alloc".to_string()),
            ExportedSymbol::Generic(DefId { krate: 7, index: 1 }, vec!["u8".to_string()]),
            ExportedSymbol::NonGeneric(local(1)),
            ExportedSymbol::DropGlue("String".to_string()),
        ],
    );
    let without = unit(
        "rust_out",
        definitions(),
        vec![ExportedSymbol::NonGeneric(local(0)), ExportedSymbol::NonGeneric(local(1))],
    );
    let tokens = toks(&GeneratedBindings::generate(&with_skipped).h_body);
    assert_eq!(tokens, toks(&GeneratedBindings::generate(&without).h_body));
    let rendered = GeneratedBindings::generate(&with_skipped).h_body.to_string();
    assert!(!rendered.contains("__rust_alloc"));
    assert!(!rendered.contains("Vec"));
}

#[test]
fn only_skipped_entries_give_empty_namespace() {
    let unit = unit(
        "rust_out",
        vec![],
        vec![
            ExportedSymbol::DropGlue("Vec<u8>".to_string()),
            ExportedSymbol::NoDefId("main".to_string()),
            ExportedSymbol::Generic(DefId { krate: 1, index: 0 }, vec![]),
        ],
    );
    assert_eq!(toks(&GeneratedBindings::generate(&unit).h_body), document("rust_out", vec![]));
}

#[test]
fn fragments_keep_the_order_of_the_export_table() {
    let definitions = || {
        vec![
            definition("a", "<lib.rs>:1:1: 1:2"),
            definition("b", "<lib.rs>:2:1: 2:2"),
            definition("c", "<lib.rs>:3:1: 3:2"),
        ]
    };
    let unit_cab = unit(
        "rust_out",
        definitions(),
        vec![
            ExportedSymbol::NonGeneric(local(2)),
            ExportedSymbol::Generic(local(0), vec!["u8".to_string()]),
            ExportedSymbol::NonGeneric(local(1)),
        ],
    );
    let mut body = placeholder(
        "Error while generating bindings for `c` defined at <lib.rs>:3:1: 3:2: Nothing works yet!",
    );
    body.extend(placeholder(
        "Error while generating bindings for `a` defined at <lib.rs>:1:1: 1:2: \
         Generics are not supported yet.",
    ));
    body.extend(placeholder(
        "Error while generating bindings for `b` defined at <lib.rs>:2:1: 2:2: Nothing works yet!",
    ));
    assert_eq!(toks(&GeneratedBindings::generate(&unit_cab).h_body), document("rust_out", body));
}

#[test]
fn an_entry_exported_twice_gives_two_fragments() {
    let unit = unit(
        "rust_out",
        vec![definition("a", "<lib.rs>:1:1: 1:2")],
        vec![ExportedSymbol::NonGeneric(local(0)), ExportedSymbol::NonGeneric(local(0))],
    );
    let one = placeholder(
        "Error while generating bindings for `a` defined at <lib.rs>:1:1: 1:2: Nothing works yet!",
    );
    let mut body = one.clone();
    body.extend(one);
    assert_eq!(toks(&GeneratedBindings::generate(&unit).h_body), document("rust_out", body));
}

#[test]
fn generating_twice_gives_the_same_bytes() {
    let unit = unit(
        "rust_out",
        vec![definition("a", "<lib.rs>:1:1: 1:2"), definition("b", "<lib.rs>:2:1: 2:2")],
        vec![
            ExportedSymbol::NonGeneric(local(1)),
            ExportedSymbol::DropGlue("u8".to_string()),
            ExportedSymbol::Generic(local(0), vec![]),
        ],
    );
    let first = GeneratedBindings::generate(&unit).h_body.to_string();
    let second = GeneratedBindings::generate(&unit).h_body.to_string();
    assert_eq!(first.as_bytes(), second.as_bytes());
}

#[test]
fn format_crate_gives_the_namespace_alone() {
    let unit = unit(
        "my_crate",
        vec![definition("a", "<lib.rs>:1:1: 1:2")],
        vec![ExportedSymbol::NonGeneric(local(0))],
    );
    let stream = format_crate(&unit).unwrap();
    let expected = vec![
        ident("namespace"),
        ident("my_crate"),
        Tok::Braces(placeholder(
            "Error while generating bindings for `a` defined at <lib.rs>:1:1: 1:2: \
             Nothing works yet!",
        )),
    ];
    assert_eq!(toks(&stream), expected);
}

#[test]
fn format_crate_turns_down_a_bad_name() {
    let bad = |name: &str| format_crate(&unit(name, vec![], vec![])).unwrap_err();
    assert_eq!(bad(""), FormatError::Empty);
    assert_eq!(bad("my-crate"), FormatError::IllegalCharacter);
    assert_eq!(bad("namespace"), FormatError::ReservedKeyword);
}

#[test]
fn format_def_is_not_implemented() {
    let unit = unit("rust_out", vec![definition("a", "<lib.rs>:1:1: 1:2")], vec![]);
    let result = format_def(&unit, LocalDefId { index: 0 });
    assert_eq!(result.unwrap_err(), EmitError::Unimplemented);
    assert_eq!(EmitError::Unimplemented.message(), "Nothing works yet!");
}

#[test]
fn format_unsupported_def_names_definition_place_and_reason() {
    let unit = unit(
        "rust_out",
        vec![definition("a", "<lib.rs>:1:1: 1:2"), definition("m::b", "<lib.rs>:7:5: 9:6")],
        vec![],
    );
    let stream = format_unsupported_def(&unit, LocalDefId { index: 1 }, "some \"reason\"\n");
    let expected = placeholder(
        "Error while generating bindings for `m::b` defined at <lib.rs>:7:5: 9:6: some \"reason\"\n",
    );
    assert_eq!(toks(&stream), expected);
    assert_eq!(toks(&stream).len(), 5);
}

#[test]
fn format_symbol_gives_a_fragment_or_none() {
    let unit = unit("rust_out", vec![definition("a", "<lib.rs>:1:1: 1:2")], vec![]);
    let concrete = format_symbol(&unit, &ExportedSymbol::NonGeneric(local(0))).unwrap();
    assert_eq!(
        toks(&concrete),
        placeholder(
            "Error while generating bindings for `a` defined at <lib.rs>:1:1: 1:2: \
             Nothing works yet!"
        )
    );
    let generic = format_symbol(&unit, &ExportedSymbol::Generic(local(0), vec![])).unwrap();
    assert_eq!(
        toks(&generic),
        placeholder(
            "Error while generating bindings for `a` defined at <lib.rs>:1:1: 1:2: \
             Generics are not supported yet."
        )
    );
    assert!(format_symbol(&unit, &ExportedSymbol::DropGlue("u8".to_string())).is_none());
    assert!(format_symbol(&unit, &ExportedSymbol::NoDefId("x".to_string())).is_none());
    let foreign = ExportedSymbol::Generic(DefId { krate: 3, index: 0 }, vec![]);
    assert!(format_symbol(&unit, &foreign).is_none());
}

#[test]
fn classify_tells_the_four_kinds_of_entry_apart() {
    assert_eq!(
        classify(&ExportedSymbol::NonGeneric(local(4))),
        Classification::LocalConcrete(LocalDefId { index: 4 })
    );
    assert_eq!(
        classify(&ExportedSymbol::Generic(local(5), vec!["u8".to_string()])),
        Classification::LocalGenericInstance(LocalDefId { index: 5 })
    );
    assert_eq!(
        classify(&ExportedSymbol::Generic(DefId { krate: 2, index: 5 }, vec![])),
        Classification::Skip
    );
    assert_eq!(classify(&ExportedSymbol::DropGlue("u8".to_string())), Classification::Skip);
    assert_eq!(classify(&ExportedSymbol::NoDefId("x".to_string())), Classification::Skip);
}
