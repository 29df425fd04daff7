//! What holds of every generated document.
//!
//! The functions of [`crate::bindings`] say token by token what they build.
//! Here stand the consequences that a reader of the generated code relies
//! on: the fragments keep the order of the export table, an entry that is
//! skipped leaves no trace, every instance of a generic definition is
//! reported with one fixed reason, equal snapshots give equal documents,
//! and a document is always of one of two shapes.

use crate::bindings::{
    classification, comment_marker, crate_tokens, document, emission, emit_error_text,
    failure_comment, generics_unsupported_text, namespace_body, newline_marker, symbol_fragment,
    top_comment, unsupported_fragment, Classification,
};
use crate::ident::{format_error, is_cc_identifier};
use crate::tokens::Token;
use crate::unit::{
    CompiledUnit, CompiledUnitView, DefId, DefinitionView, ExportedSymbolView, LocalDefId,
};
use vstd::prelude::*;

verus! {

/// The tokens that one entry adds to a namespace: its fragment, or nothing.
pub open spec fn contribution(unit: CompiledUnitView, entry: ExportedSymbolView) -> Seq<Token> {
    match symbol_fragment(unit, entry) {
        Some(fragment) => fragment,
        None => Seq::empty(),
    }
}

/// Whether an entry is one that bindings generation passes over.
pub open spec fn is_skipped(entry: ExportedSymbolView) -> bool {
    classification(entry) is Skip
}

/// The fragments of two tables, one after the other, are the fragments of
/// the one table that holds the entries of the first and then those of the
/// second: fragments stand in the order of their entries, whatever became
/// of each.
pub proof fn lemma_namespace_body_keeps_order(
    unit: CompiledUnitView,
    first: Seq<ExportedSymbolView>,
    second: Seq<ExportedSymbolView>,
)
    ensures
        namespace_body(unit, first + second) == namespace_body(unit, first) + namespace_body(
            unit,
            second,
        ),
    decreases second.len(),
{
    if second.len() == 0 {
        assert(first + second =~= first);
        assert(namespace_body(unit, first) + Seq::<Token>::empty() =~= namespace_body(unit, first));
    } else {
        let whole = first + second;
        assert(whole.drop_last() =~= first + second.drop_last());
        assert(whole.last() == second.last());
        lemma_namespace_body_keeps_order(unit, first, second.drop_last());
        assert(namespace_body(unit, whole) =~= namespace_body(unit, first) + namespace_body(
            unit,
            second,
        ));
    }
}

/// The fragment of the entry at place `at` stands in the namespace between
/// the fragments of the entries before it and those of the entries after
/// it.
pub proof fn lemma_fragment_stands_at_its_place(
    unit: CompiledUnitView,
    symbols: Seq<ExportedSymbolView>,
    at: int,
)
    requires
        0 <= at < symbols.len(),
    ensures
        namespace_body(unit, symbols) == namespace_body(unit, symbols.take(at)) + contribution(
            unit,
            symbols[at],
        ) + namespace_body(unit, symbols.skip(at + 1)),
{
    let before = symbols.take(at);
    let one = seq![symbols[at]];
    let after = symbols.skip(at + 1);
    assert(symbols =~= (before + one) + after);
    lemma_namespace_body_keeps_order(unit, before + one, after);
    lemma_namespace_body_keeps_order(unit, before, one);
    assert(one.drop_last() =~= Seq::<ExportedSymbolView>::empty());
    assert(one.last() == symbols[at]);
    assert(namespace_body(unit, one) =~= contribution(unit, symbols[at])) by {
        assert(namespace_body(unit, one.drop_last()) =~= Seq::<Token>::empty());
    }
}

/// An entry adds nothing to the namespace, not even a comment, exactly
/// where it is classified as skipped.
pub proof fn lemma_skipped_entry_has_no_fragment(unit: CompiledUnitView, entry: ExportedSymbolView)
    ensures
        is_skipped(entry) <==> symbol_fragment(unit, entry) is None,
        is_skipped(entry) ==> contribution(unit, entry) == Seq::<Token>::empty(),
{
}

/// The namespace of a table is that of the same table without its skipped
/// entries: an entry that is skipped leaves no trace in the output.
pub proof fn lemma_skipped_entries_leave_no_trace(
    unit: CompiledUnitView,
    symbols: Seq<ExportedSymbolView>,
)
    ensures
        namespace_body(unit, symbols) == namespace_body(
            unit,
            symbols.filter(|e: ExportedSymbolView| !is_skipped(e)),
        ),
    decreases symbols.len(),
{
    let kept = |e: ExportedSymbolView| !is_skipped(e);
    reveal(Seq::filter);
    if symbols.len() == 0 {
    } else {
        let front = symbols.drop_last();
        lemma_skipped_entries_leave_no_trace(unit, front);
        if kept(symbols.last()) {
            let filtered = front.filter(kept).push(symbols.last());
            assert(symbols.filter(kept) == filtered);
            assert(filtered.drop_last() =~= front.filter(kept));
            assert(filtered.last() == symbols.last());
        } else {
            assert(symbols.filter(kept) == front.filter(kept));
            assert(namespace_body(unit, front) + Seq::<Token>::empty() =~= namespace_body(
                unit,
                front,
            ));
        }
    }
}

/// The snapshot `unit` with another export table.
pub open spec fn with_exported_symbols(
    unit: CompiledUnitView,
    symbols: Seq<ExportedSymbolView>,
) -> CompiledUnitView {
    CompiledUnitView { name: unit.name, definitions: unit.definitions, exported_symbols: symbols }
}

/// What an entry adds to a namespace depends on the crate's definitions,
/// not on the export table around the entry.
pub proof fn lemma_namespace_body_reads_definitions_only(
    unit: CompiledUnitView,
    table: Seq<ExportedSymbolView>,
    symbols: Seq<ExportedSymbolView>,
)
    ensures
        namespace_body(with_exported_symbols(unit, table), symbols) == namespace_body(
            unit,
            symbols,
        ),
    decreases symbols.len(),
{
    if symbols.len() > 0 {
        lemma_namespace_body_reads_definitions_only(unit, table, symbols.drop_last());
    }
}

/// The document of a snapshot is that of the same snapshot without the
/// skipped entries of its export table: for an entry that is skipped no
/// token appears in the output, not even a comment.
pub proof fn lemma_document_ignores_skipped_entries(unit: CompiledUnitView)
    ensures
        document(unit) == document(
            with_exported_symbols(
                unit,
                unit.exported_symbols.filter(|e: ExportedSymbolView| !is_skipped(e)),
            ),
        ),
{
    let kept = unit.exported_symbols.filter(|e: ExportedSymbolView| !is_skipped(e));
    lemma_skipped_entries_leave_no_trace(unit, unit.exported_symbols);
    lemma_namespace_body_reads_definitions_only(unit, kept, kept);
}

/// An instance of a local generic definition gets the comment with the one
/// fixed reason, whatever the arguments of the instance are.
pub proof fn lemma_generic_instance_gets_fixed_reason(
    unit: CompiledUnitView,
    id: DefId,
    args: Seq<Seq<char>>,
)
    requires
        id.local(),
    ensures
        classification(ExportedSymbolView::Generic(id, args))
            == Classification::LocalGenericInstance(LocalDefId { index: id.index }),
        symbol_fragment(unit, ExportedSymbolView::Generic(id, args)) == Some(
            unsupported_fragment(
                unit.definition(LocalDefId { index: id.index }),
                generics_unsupported_text(),
            ),
        ),
{
}

/// Where the export table of `unit` holds an instance of a local generic
/// definition at place `at`, the namespace holds at that entry's place the
/// comment with the one fixed reason: between the fragments of the entries
/// before it and those of the entries after it.
pub proof fn lemma_generic_instance_is_reported(unit: CompiledUnitView, at: int)
    requires
        0 <= at < unit.exported_symbols.len(),
        classification(unit.exported_symbols[at]) is LocalGenericInstance,
    ensures
        namespace_body(unit, unit.exported_symbols) == namespace_body(
            unit,
            unit.exported_symbols.take(at),
        ) + unsupported_fragment(
            unit.definition(classification(unit.exported_symbols[at])->LocalGenericInstance_0),
            generics_unsupported_text(),
        ) + namespace_body(unit, unit.exported_symbols.skip(at + 1)),
{
    lemma_fragment_stands_at_its_place(unit, unit.exported_symbols, at);
}

/// Two snapshots that hold the same name, definitions and export table
/// give the same document: generating once more changes nothing.
pub proof fn lemma_equal_snapshots_give_equal_documents(a: &CompiledUnit, b: &CompiledUnit)
    requires
        a@ == b@,
    ensures
        document(a@) == document(b@),
{
}


/// Whether `tokens` hold comments and line breaks and nothing else: every
/// token is one of the two markers or a comment's text, and the texts are
/// exactly the tokens that follow a comment marker.
pub open spec fn is_comment_only(tokens: Seq<Token>) -> bool {
    &&& forall|i: int|
        0 <= i < tokens.len() ==> {
            ||| #[trigger] tokens[i] == newline_marker()
            ||| tokens[i] == comment_marker()
            ||| tokens[i] is Text
        }
    &&& forall|i: int|
        0 <= i < tokens.len() && #[trigger] tokens[i] == comment_marker() ==> i + 1 < tokens.len()
            && tokens[i + 1] is Text
    &&& forall|i: int|
        0 <= i < tokens.len() && #[trigger] tokens[i] is Text ==> i > 0 && tokens[i - 1]
            == comment_marker()
}

/// Whether `tokens` are a document of one of the two shapes that bindings
/// generation gives: a comment and a line break, and then either one more
/// comment, or the word `namespace`, a C++ identifier, and a group in
/// braces that holds comments and line breaks only.
pub open spec fn is_well_formed_document(tokens: Seq<Token>) -> bool {
    &&& tokens.len() >= 3
    &&& tokens[0] == comment_marker()
    &&& tokens[1] is Text
    &&& tokens[2] == newline_marker()
    &&& {
        let rest = tokens.skip(3);
        ||| {
            &&& rest.len() == 2
            &&& rest[0] == comment_marker()
            &&& rest[1] is Text
        }
        ||| {
            &&& rest.len() == 3
            &&& rest[0] == Token::Ident("namespace"@)
            &&& rest[1] matches Token::Ident(name) && is_cc_identifier(name)
            &&& rest[2] matches Token::Braces(body) && is_comment_only(body)
        }
    }
}

/// The two markers are different tokens.
pub proof fn lemma_markers_differ()
    ensures
        comment_marker() != newline_marker(),
{
    reveal_strlit("__COMMENT__");
    reveal_strlit("__NEWLINE__");
    assert("__COMMENT__"@[2] == 'C');
    assert("__NEWLINE__"@[2] == 'N');
}

/// Comments and line breaks after comments and line breaks are comments
/// and line breaks.
pub proof fn lemma_comment_only_concat(a: Seq<Token>, b: Seq<Token>)
    requires
        is_comment_only(a),
        is_comment_only(b),
    ensures
        is_comment_only(a + b),
{
    let whole = a + b;
    assert forall|i: int| 0 <= i < whole.len() implies {
        ||| #[trigger] whole[i] == newline_marker()
        ||| whole[i] == comment_marker()
        ||| whole[i] is Text
    } by {
        if i < a.len() {
            assert(whole[i] == a[i]);
        } else {
            assert(whole[i] == b[i - a.len()]);
        }
    }
    assert forall|i: int|
        0 <= i < whole.len() && #[trigger] whole[i] == comment_marker() implies i + 1 < whole.len()
        && whole[i + 1] is Text by {
        if i < a.len() {
            assert(whole[i] == a[i]);
            assert(whole[i + 1] == a[i + 1]);
        } else {
            assert(whole[i] == b[i - a.len()]);
            assert(whole[i + 1] == b[i - a.len() + 1]);
        }
    }
    assert forall|i: int| 0 <= i < whole.len() && #[trigger] whole[i] is Text implies i > 0
        && whole[i - 1] == comment_marker() by {
        if i < a.len() {
            assert(whole[i] == a[i]);
            assert(whole[i - 1] == a[i - 1]);
        } else {
            assert(whole[i] == b[i - a.len()]);
            assert(whole[i - 1] == b[i - a.len() - 1]);
        }
    }
}

/// The fragment that stands in for a declaration holds comments and line
/// breaks only.
pub proof fn lemma_unsupported_fragment_is_comment_only(
    definition: DefinitionView,
    reason: Seq<char>,
)
    ensures
        is_comment_only(unsupported_fragment(definition, reason)),
{
    lemma_markers_differ();
    let fragment = unsupported_fragment(definition, reason);
    assert(fragment.len() == 5);
    assert(fragment[0] == newline_marker());
    assert(fragment[1] == newline_marker());
    assert(fragment[2] == comment_marker());
    assert(fragment[3] is Text);
    assert(fragment[4] == newline_marker());
}

/// So far a namespace holds comments and line breaks only, whatever the
/// export table holds.
pub proof fn lemma_namespace_body_is_comment_only(
    unit: CompiledUnitView,
    symbols: Seq<ExportedSymbolView>,
)
    ensures
        is_comment_only(namespace_body(unit, symbols)),
    decreases symbols.len(),
{
    if symbols.len() == 0 {
    } else {
        lemma_namespace_body_is_comment_only(unit, symbols.drop_last());
        let last = contribution(unit, symbols.last());
        assert(is_comment_only(last)) by {
            match classification(symbols.last()) {
                Classification::LocalConcrete(id) => {
                    lemma_unsupported_fragment_is_comment_only(
                        unit.definition(id),
                        emit_error_text(emission(unit, id)->Err_0),
                    );
                },
                Classification::LocalGenericInstance(id) => {
                    lemma_unsupported_fragment_is_comment_only(
                        unit.definition(id),
                        generics_unsupported_text(),
                    );
                },
                Classification::Skip => {},
            }
        }
        lemma_comment_only_concat(namespace_body(unit, symbols.drop_last()), last);
    }
}

/// The document of every snapshot has one of the two shapes: below the
/// comment that names the crate stands the namespace, named by a C++
/// identifier and holding comments and line breaks only, or one comment
/// and no namespace.
pub proof fn lemma_document_is_well_formed(unit: CompiledUnitView)
    ensures
        is_well_formed_document(document(unit)),
        format_error(unit.name) is None <==> document(unit).len() == 6,
        format_error(unit.name) is Some <==> document(unit).len() == 5,
{
    let doc = document(unit);
    let top = top_comment(unit.name);
    assert(top.len() == 3);
    assert(doc[0] == top[0]);
    assert(doc[1] == top[1]);
    assert(doc[2] == top[2]);
    match crate_tokens(unit) {
        Ok(tokens) => {
            assert(doc.skip(3) =~= tokens);
            lemma_namespace_body_is_comment_only(unit, unit.exported_symbols);
        },
        Err(e) => {
            assert(doc.skip(3) =~= failure_comment(e));
        },
    }
}

} // verus!
