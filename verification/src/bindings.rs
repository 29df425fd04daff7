//! From a compiled crate to the tokens of its C++ bindings.
//!
//! Every entry of the export table is classified, and each entry that
//! denotes a local definition gives one fragment: the definition's
//! declaration, or a comment that says why there is none. The fragments
//! stand in the table's order inside one namespace that has the crate's
//! name, below a comment that names the crate.
//!
//! In a stream, the identifier `__COMMENT__` before a string literal stands
//! for a comment with the literal's text, and the identifier `__NEWLINE__`
//! for a line break.

use crate::document::{is_well_formed_document, lemma_document_is_well_formed};
use crate::ident::{
    format_cc_ident, format_error, format_error_text, is_cc_identifier, is_ident_continue,
    is_plain_identifier, FormatError,
};
use crate::tokens::{
    empty_stream, push_braces, push_ident, push_stream, push_text, stream_tokens, Token,
};
use crate::unit::{
    CompiledUnit, CompiledUnitView, DefinitionView, ExportedSymbol, ExportedSymbolView, LocalDefId,
};
use proc_macro2::TokenStream;
use vstd::prelude::*;
use vstd::string::StringExecFns;

verus! {

/// The token that announces a comment.
pub open spec fn comment_marker() -> Token {
    Token::Ident("__COMMENT__"@)
}

/// The token that stands for a line break.
pub open spec fn newline_marker() -> Token {
    Token::Ident("__NEWLINE__"@)
}

/// A comment with the text `text`.
pub open spec fn comment(text: Seq<char>) -> Seq<Token> {
    seq![comment_marker(), Token::Text(text)]
}

/// The three words that this module writes into a stream by itself are
/// spelled like identifiers.
proof fn lemma_fixed_words_are_identifiers()
    ensures
        is_plain_identifier("__COMMENT__"@),
        is_plain_identifier("__NEWLINE__"@),
        is_plain_identifier("namespace"@),
{
    reveal_strlit("__COMMENT__");
    reveal_strlit("__NEWLINE__");
    reveal_strlit("namespace");
    assert forall|i: int| 0 <= i < 11 implies is_ident_continue(#[trigger] "__COMMENT__"@[i]) by {
        assert(i == 0 || i == 1 || i == 2 || i == 3 || i == 4 || i == 5 || i == 6 || i == 7
            || i == 8 || i == 9 || i == 10);
    }
    assert forall|i: int| 0 <= i < 11 implies is_ident_continue(#[trigger] "__NEWLINE__"@[i]) by {
        assert(i == 0 || i == 1 || i == 2 || i == 3 || i == 4 || i == 5 || i == 6 || i == 7
            || i == 8 || i == 9 || i == 10);
    }
    assert forall|i: int| 0 <= i < 9 implies is_ident_continue(#[trigger] "namespace"@[i]) by {
        assert(i == 0 || i == 1 || i == 2 || i == 3 || i == 4 || i == 5 || i == 6 || i == 7
            || i == 8);
    }
}

/// Appends the token that stands for a line break.
fn push_newline(stream: &mut TokenStream)
    ensures
        stream_tokens(*final(stream)) == stream_tokens(*old(stream)).push(newline_marker()),
{
    proof {
        lemma_fixed_words_are_identifiers();
    }
    push_ident(stream, "__NEWLINE__");
}

/// Appends a comment with the text `text`.
fn push_comment(stream: &mut TokenStream, text: &str)
    ensures
        stream_tokens(*final(stream)) == stream_tokens(*old(stream)) + comment(text@),
{
    proof {
        lemma_fixed_words_are_identifiers();
    }
    push_ident(stream, "__COMMENT__");
    push_text(stream, text);
    assert(stream_tokens(*stream) =~= stream_tokens(*old(stream)) + comment(text@));
}

/// Why a definition got no declaration.
#[derive(Clone, Copy, Debug, PartialEq, Eq, Structural)]
pub enum EmitError {
    /// No kind of definition is given a declaration so far.
    Unimplemented,
}

/// The text by which an [`EmitError`] describes itself.
pub open spec fn emit_error_text(e: EmitError) -> Seq<char> {
    match e {
        EmitError::Unimplemented => "Nothing works yet!"@,
    }
}

impl EmitError {
    /// The description of this error, for a reader of the generated code.
    pub fn message(&self) -> (text: String)
        ensures
            text@ == emit_error_text(*self),
    {
        match self {
            EmitError::Unimplemented => String::from_str("Nothing works yet!"),
        }
    }
}

/// The declaration of the definition `id` of `unit`, or why it has none.
/// So far every definition is turned down.
pub open spec fn emission(unit: CompiledUnitView, id: LocalDefId) -> Result<Seq<Token>, EmitError> {
    Err(EmitError::Unimplemented)
}

/// Formats the declaration of one local definition. The result is that of
/// [`emission`], which reads the unit and changes nothing.
pub fn format_def(unit: &CompiledUnit, def_id: LocalDefId) -> (result: Result<
    TokenStream,
    EmitError,
>)
    ensures
        match result {
            Ok(stream) => emission(unit@, def_id) == Ok::<Seq<Token>, EmitError>(
                stream_tokens(stream),
            ),
            Err(e) => emission(unit@, def_id) == Err::<Seq<Token>, EmitError>(e),
        },
{
    Err(EmitError::Unimplemented)
}

/// What an entry of the export table means for bindings generation.
#[derive(Clone, Copy, Debug, PartialEq, Eq, Structural)]
pub enum Classification {
    /// A local definition without generic parameters.
    LocalConcrete(LocalDefId),
    /// An instance of a local generic definition.
    LocalGenericInstance(LocalDefId),
    /// Nothing that bindings are generated for.
    Skip,
}

/// The classification of `entry`. A non-generic entry is a local
/// definition; a generic entry is one if its definition is local; every
/// other entry is skipped.
pub open spec fn classification(entry: ExportedSymbolView) -> Classification {
    match entry {
        ExportedSymbolView::NonGeneric(id) => Classification::LocalConcrete(
            LocalDefId { index: id.index },
        ),
        ExportedSymbolView::Generic(id, _) => if id.local() {
            Classification::LocalGenericInstance(LocalDefId { index: id.index })
        } else {
            Classification::Skip
        },
        ExportedSymbolView::DropGlue(_) => Classification::Skip,
        ExportedSymbolView::NoDefId(_) => Classification::Skip,
    }
}

/// Whether `entry` keeps what the compiler promises of an export table: a
/// non-generic entry names a local definition.
pub open spec fn keeps_locality(entry: ExportedSymbolView) -> bool {
    entry matches ExportedSymbolView::NonGeneric(id) ==> id.local()
}

/// Classifies one entry of the export table. A non-generic entry that names
/// a definition of another crate breaks the compiler's promise; the caller
/// shows that `entry` is none.
pub fn classify(entry: &ExportedSymbol) -> (class: Classification)
    requires
        keeps_locality(entry@),
    ensures
        class == classification(entry@),
{
    match entry {
        ExportedSymbol::NonGeneric(def_id) => Classification::LocalConcrete(def_id.expect_local()),
        ExportedSymbol::Generic(def_id, _) => match def_id.as_local() {
            Some(local_id) => Classification::LocalGenericInstance(local_id),
            None => Classification::Skip,
        },
        ExportedSymbol::DropGlue(_) => Classification::Skip,
        ExportedSymbol::NoDefId(_) => Classification::Skip,
    }
}

/// The text of the comment that stands in for the declaration of
/// `definition`: its name, its place in the source, and `reason`.
pub open spec fn unsupported_message(definition: DefinitionView, reason: Seq<char>) -> Seq<char> {
    "Error while generating bindings for `"@ + definition.path + "` defined at "@
        + definition.span + ": "@ + reason
}

/// The fragment that stands in for the declaration of `definition`: two
/// line breaks, the comment, and a line break. It holds no token but
/// comments and line breaks.
pub open spec fn unsupported_fragment(definition: DefinitionView, reason: Seq<char>) -> Seq<Token> {
    seq![newline_marker(), newline_marker()] + comment(unsupported_message(definition, reason))
        + seq![newline_marker()]
}

/// Formats the comment that stands in for the declaration of the definition
/// `local_def_id` of `unit`, with `err_msg` as the reason.
pub fn format_unsupported_def(unit: &CompiledUnit, local_def_id: LocalDefId, err_msg: &str) -> (stream:
    TokenStream)
    requires
        unit@.has_definition(local_def_id),
    ensures
        stream_tokens(stream) == unsupported_fragment(unit@.definition(local_def_id), err_msg@),
{
    let definition = unit.definition(local_def_id).unwrap();
    let mut msg = String::from_str("Error while generating bindings for `");
    msg.append(definition.path.as_str());
    msg.append("` defined at ");
    msg.append(definition.span.as_str());
    msg.append(": ");
    msg.append(err_msg);
    let mut stream = empty_stream();
    push_newline(&mut stream);
    push_newline(&mut stream);
    push_comment(&mut stream, msg.as_str());
    push_newline(&mut stream);
    assert(stream_tokens(stream) =~= unsupported_fragment(
        unit@.definition(local_def_id),
        err_msg@,
    ));
    stream
}


/// The reason given for every instance of a generic definition.
pub open spec fn generics_unsupported_text() -> Seq<char> {
    "Generics are not supported yet."@
}

/// What one entry of the export table adds to the namespace of `unit`:
/// nothing for an entry that is skipped; for an instance of a generic
/// definition the comment with the fixed reason, whatever the instance; for
/// any other local definition its declaration, or the comment with the
/// reason why it has none.
pub open spec fn symbol_fragment(unit: CompiledUnitView, entry: ExportedSymbolView) -> Option<
    Seq<Token>,
> {
    match classification(entry) {
        Classification::LocalConcrete(id) => Some(
            match emission(unit, id) {
                Ok(tokens) => tokens,
                Err(e) => unsupported_fragment(unit.definition(id), emit_error_text(e)),
            },
        ),
        Classification::LocalGenericInstance(id) => Some(
            unsupported_fragment(unit.definition(id), generics_unsupported_text()),
        ),
        Classification::Skip => None,
    }
}

/// The fragments of `symbols`, one after the other in the order of
/// `symbols`.
pub open spec fn namespace_body(unit: CompiledUnitView, symbols: Seq<ExportedSymbolView>) -> Seq<
    Token,
>
    decreases symbols.len(),
{
    if symbols.len() == 0 {
        Seq::empty()
    } else {
        namespace_body(unit, symbols.drop_last()) + match symbol_fragment(unit, symbols.last()) {
            Some(fragment) => fragment,
            None => Seq::empty(),
        }
    }
}

/// The namespace of `unit`: the word `namespace`, the crate's name, and in
/// braces the fragments of the whole export table. There is none where the
/// crate's name is no C++ identifier.
pub open spec fn crate_tokens(unit: CompiledUnitView) -> Result<Seq<Token>, FormatError> {
    match format_error(unit.name) {
        Some(e) => Err(e),
        None => Ok(
            seq![
                Token::Ident("namespace"@),
                Token::Ident(unit.name),
                Token::Braces(namespace_body(unit, unit.exported_symbols)),
            ],
        ),
    }
}

/// Formats what one entry of the export table adds to the namespace of
/// `unit`, if it adds anything.
pub fn format_symbol(unit: &CompiledUnit, symbol: &ExportedSymbol) -> (fragment: Option<
    TokenStream,
>)
    requires
        symbol@.resolves(unit@.definitions.len()),
    ensures
        match fragment {
            Some(stream) => symbol_fragment(unit@, symbol@) == Some(stream_tokens(stream)),
            None => symbol_fragment(unit@, symbol@) is None,
        },
{
    match classify(symbol) {
        Classification::LocalConcrete(local_id) => Some(
            match format_def(unit, local_id) {
                Ok(snippet) => snippet,
                Err(err) => {
                    let reason = err.message();
                    format_unsupported_def(unit, local_id, reason.as_str())
                },
            },
        ),
        Classification::LocalGenericInstance(local_id) => Some(
            format_unsupported_def(unit, local_id, "Generics are not supported yet."),
        ),
        Classification::Skip => None,
    }
}

/// Formats the namespace of `unit`: every entry of the export table is
/// formatted in the table's order, none twice and none left out. Fails
/// only where the crate's name is no C++ identifier.
pub fn format_crate(unit: &CompiledUnit) -> (result: Result<TokenStream, FormatError>)
    ensures
        result is Ok <==> is_cc_identifier(unit@.name),
        match result {
            Ok(stream) => crate_tokens(unit@) == Ok::<Seq<Token>, FormatError>(
                stream_tokens(stream),
            ),
            Err(e) => crate_tokens(unit@) == Err::<Seq<Token>, FormatError>(e),
        },
{
    let crate_name = match format_cc_ident(unit.crate_name()) {
        Ok(name) => name,
        Err(e) => {
            return Err(e);
        },
    };
    proof {
        use_type_invariant(unit);
    }
    let count: usize = unit.exported_symbol_count();
    let mut snippets = empty_stream();
    let mut i: usize = 0;
    while i < count
        invariant
            unit@.well_formed(),
            count == unit@.exported_symbols.len(),
            i <= count,
            stream_tokens(snippets) == namespace_body(unit@, unit@.exported_symbols.take(i as int)),
        decreases count - i,
    {
        let symbol = unit.exported_symbol(i);
        let ghost before = unit@.exported_symbols.take(i as int);
        let ghost after = unit@.exported_symbols.take(i + 1);
        assert(after.drop_last() =~= before);
        assert(after.last() == symbol@);
        match format_symbol(unit, symbol) {
            Some(snippet) => {
                push_stream(&mut snippets, snippet);
            },
            None => {
                assert(stream_tokens(snippets) + Seq::<Token>::empty() =~= stream_tokens(snippets));
            },
        }
        i = i + 1;
    }
    assert(unit@.exported_symbols.take(count as int) =~= unit@.exported_symbols);
    proof {
        lemma_fixed_words_are_identifiers();
    }
    let mut stream = empty_stream();
    push_ident(&mut stream, "namespace");
    push_stream(&mut stream, crate_name);
    push_braces(&mut stream, snippets);
    assert(stream_tokens(stream) =~= seq![
        Token::Ident("namespace"@),
        Token::Ident(unit@.name),
        Token::Braces(namespace_body(unit@, unit@.exported_symbols)),
    ]);
    Ok(stream)
}

/// The comment that names the crate, and the line break after it.
pub open spec fn top_comment(name: Seq<char>) -> Seq<Token> {
    comment("Automatically @generated C++ bindings for the following Rust crate:\n"@ + name).push(
        newline_marker(),
    )
}

/// The comment that stands in for the namespace where there is none.
pub open spec fn failure_comment(e: FormatError) -> Seq<Token> {
    comment("Failed to generate bindings for the crate: "@ + format_error_text(e))
}

/// The whole document for `unit`: the comment that names the crate, then
/// the crate's namespace, or in its place the comment that says why there
/// is none.
pub open spec fn document(unit: CompiledUnitView) -> Seq<Token> {
    top_comment(unit.name) + match crate_tokens(unit) {
        Ok(tokens) => tokens,
        Err(e) => failure_comment(e),
    }
}

/// The bindings generated for one crate.
pub struct GeneratedBindings {
    /// The tokens of the C++ header.
    pub h_body: TokenStream,
}

impl GeneratedBindings {
    /// Generates the bindings for `unit`. This never fails: where the
    /// namespace cannot be made, the document says so in a comment.
    pub fn generate(unit: &CompiledUnit) -> (bindings: Self)
        ensures
            stream_tokens(bindings.h_body) == document(unit@),
            is_well_formed_document(stream_tokens(bindings.h_body)),
    {
        let mut h_body = empty_stream();
        let mut txt = String::from_str(
            "Automatically @generated C++ bindings for the following Rust crate:\n",
        );
        txt.append(unit.crate_name());
        push_comment(&mut h_body, txt.as_str());
        push_newline(&mut h_body);
        match format_crate(unit) {
            Ok(crate_content) => {
                push_stream(&mut h_body, crate_content);
            },
            Err(err) => {
                let mut txt = String::from_str("Failed to generate bindings for the crate: ");
                let reason = err.message();
                txt.append(reason.as_str());
                push_comment(&mut h_body, txt.as_str());
            },
        }
        assert(stream_tokens(h_body) =~= document(unit@));
        proof {
            lemma_document_is_well_formed(unit@);
        }
        GeneratedBindings { h_body }
    }
}

} // verus!
