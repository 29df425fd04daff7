//! Identifiers of the generated C++ code.
//!
//! A name of the Rust side becomes a C++ identifier unchanged or not at all:
//! nothing is cut off or replaced. It is accepted when it is spelled with
//! ASCII letters, digits and underscores, does not start with a digit, and
//! is no word that C++ reserves.

use crate::tokens::{empty_stream, push_ident, stream_tokens, Token};
use proc_macro2::TokenStream;
use vstd::prelude::*;
use vstd::string::StrSliceExecFns;
use vstd::string::StringExecFns;

verus! {

/// Whether `c` may start an identifier: an ASCII letter or the underscore.
pub open spec fn is_ident_start(c: char) -> bool {
    ('a' <= c && c <= 'z') || ('A' <= c && c <= 'Z') || c == '_'
}

/// Whether `c` may stand inside an identifier: an ASCII letter, an ASCII
/// digit or the underscore.
pub open spec fn is_ident_continue(c: char) -> bool {
    is_ident_start(c) || ('0' <= c && c <= '9')
}

/// Whether `s` is spelled like an identifier: not empty, a letter or an
/// underscore first, then letters, digits and underscores only.
pub open spec fn is_plain_identifier(s: Seq<char>) -> bool {
    &&& s.len() > 0
    &&& is_ident_start(s[0])
    &&& forall|i: int| 0 <= i < s.len() ==> is_ident_continue(#[trigger] s[i])
}

/// Whether `s` is a word that C++ keeps for itself: a keyword or an
/// alternative spelling of an operator.
pub open spec fn is_reserved_keyword(s: Seq<char>) -> bool {
    ||| s == "alignas"@ || s == "alignof"@ || s == "and"@ || s == "and_eq"@ || s == "asm"@
    ||| s == "atomic_cancel"@ || s == "atomic_commit"@ || s == "atomic_noexcept"@
    ||| s == "auto"@ || s == "bitand"@ || s == "bitor"@ || s == "bool"@ || s == "break"@
    ||| s == "case"@ || s == "catch"@ || s == "char"@ || s == "char8_t"@ || s == "char16_t"@
    ||| s == "char32_t"@ || s == "class"@ || s == "compl"@ || s == "concept"@ || s == "const"@
    ||| s == "consteval"@ || s == "constexpr"@ || s == "constinit"@ || s == "const_cast"@
    ||| s == "continue"@ || s == "co_await"@ || s == "co_return"@ || s == "co_yield"@
    ||| s == "decltype"@ || s == "default"@ || s == "delete"@ || s == "do"@ || s == "double"@
    ||| s == "dynamic_cast"@ || s == "else"@ || s == "enum"@ || s == "explicit"@
    ||| s == "export"@ || s == "extern"@ || s == "false"@ || s == "float"@ || s == "for"@
    ||| s == "friend"@ || s == "goto"@ || s == "if"@ || s == "inline"@ || s == "int"@
    ||| s == "long"@ || s == "mutable"@ || s == "namespace"@ || s == "new"@ || s == "noexcept"@
    ||| s == "not"@ || s == "not_eq"@ || s == "nullptr"@ || s == "operator"@ || s == "or"@
    ||| s == "or_eq"@ || s == "private"@ || s == "protected"@ || s == "public"@
    ||| s == "reflexpr"@ || s == "register"@ || s == "reinterpret_cast"@ || s == "requires"@
    ||| s == "return"@ || s == "short"@ || s == "signed"@ || s == "sizeof"@ || s == "static"@
    ||| s == "static_assert"@ || s == "static_cast"@ || s == "struct"@ || s == "switch"@
    ||| s == "synchronized"@ || s == "template"@ || s == "this"@ || s == "thread_local"@
    ||| s == "throw"@ || s == "true"@ || s == "try"@ || s == "typedef"@ || s == "typeid"@
    ||| s == "typename"@ || s == "union"@ || s == "unsigned"@ || s == "using"@
    ||| s == "virtual"@ || s == "void"@ || s == "volatile"@ || s == "wchar_t"@ || s == "while"@
    ||| s == "xor"@ || s == "xor_eq"@
}

/// Whether `s` can stand as an identifier in C++ code.
pub open spec fn is_cc_identifier(s: Seq<char>) -> bool {
    is_plain_identifier(s) && !is_reserved_keyword(s)
}

/// Whether two strings hold the same characters.
pub fn same_text(a: &str, b: &str) -> (same: bool)
    ensures
        same == (a@ == b@),
{
    let n: usize = a.unicode_len();
    if n != b.unicode_len() {
        return false;
    }
    let mut i: usize = 0;
    while i < n
        invariant
            n == a@.len(),
            n == b@.len(),
            i <= n,
            forall|j: int| 0 <= j < i ==> a@[j] == b@[j],
        decreases n - i,
    {
        if a.get_char(i) != b.get_char(i) {
            return false;
        }
        i = i + 1;
    }
    assert(a@ =~= b@);
    true
}


/// Why a name is no C++ identifier.
#[derive(Clone, Copy, Debug, PartialEq, Eq, Structural)]
pub enum FormatError {
    /// The name is empty.
    Empty,
    /// The name holds a character that an identifier cannot hold at its
    /// place: a digit at the start, or anything but an ASCII letter, an
    /// ASCII digit or an underscore anywhere.
    IllegalCharacter,
    /// The name is spelled like an identifier, but C++ reserves the word.
    ReservedKeyword,
}

/// What formatting `s` as a C++ identifier comes to: `None` where `s` is
/// one, else the reason why it is none. Of several reasons the first in the
/// order of [`FormatError`] counts.
pub open spec fn format_error(s: Seq<char>) -> Option<FormatError> {
    if s.len() == 0 {
        Some(FormatError::Empty)
    } else if !is_plain_identifier(s) {
        Some(FormatError::IllegalCharacter)
    } else if is_reserved_keyword(s) {
        Some(FormatError::ReservedKeyword)
    } else {
        None
    }
}

/// The text by which a [`FormatError`] describes itself.
pub open spec fn format_error_text(e: FormatError) -> Seq<char> {
    match e {
        FormatError::Empty => "Empty string is not a valid C++ identifier"@,
        FormatError::IllegalCharacter => "The name holds a character that a C++ identifier cannot hold"@,
        FormatError::ReservedKeyword => "The name is a C++ reserved keyword and can't be used as a C++ identifier"@,
    }
}

impl FormatError {
    /// The description of this error, for a reader of the generated code.
    pub fn message(&self) -> (text: String)
        ensures
            text@ == format_error_text(*self),
    {
        match self {
            FormatError::Empty => String::from_str("Empty string is not a valid C++ identifier"),
            FormatError::IllegalCharacter => String::from_str(
                "The name holds a character that a C++ identifier cannot hold",
            ),
            FormatError::ReservedKeyword => String::from_str(
                "The name is a C++ reserved keyword and can't be used as a C++ identifier",
            ),
        }
    }
}

/// Whether `c` is an ASCII letter or the underscore.
pub fn ident_start(c: char) -> (ok: bool)
    ensures
        ok == is_ident_start(c),
{
    ('a' <= c && c <= 'z') || ('A' <= c && c <= 'Z') || c == '_'
}

/// Whether `c` is an ASCII letter, an ASCII digit or the underscore.
pub fn ident_continue(c: char) -> (ok: bool)
    ensures
        ok == is_ident_continue(c),
{
    ident_start(c) || ('0' <= c && c <= '9')
}

/// Whether `name` is spelled like an identifier.
pub fn plain_identifier(name: &str) -> (ok: bool)
    ensures
        ok == is_plain_identifier(name@),
{
    let n: usize = name.unicode_len();
    if n == 0 {
        return false;
    }
    if !ident_start(name.get_char(0)) {
        return false;
    }
    let mut i: usize = 1;
    while i < n
        invariant
            n == name@.len(),
            1 <= i <= n,
            is_ident_start(name@[0]),
            forall|j: int| 0 <= j < i ==> is_ident_continue(#[trigger] name@[j]),
        decreases n - i,
    {
        if !ident_continue(name.get_char(i)) {
            return false;
        }
        i = i + 1;
    }
    true
}

/// Whether C++ reserves the word `name`.
pub fn reserved_keyword(name: &str) -> (reserved: bool)
    ensures
        reserved == is_reserved_keyword(name@),
{
    same_text(name, "alignas") || same_text(name, "alignof") || same_text(name, "and")
        || same_text(name, "and_eq") || same_text(name, "asm") || same_text(name, "atomic_cancel")
        || same_text(name, "atomic_commit") || same_text(name, "atomic_noexcept")
        || same_text(name, "auto") || same_text(name, "bitand") || same_text(name, "bitor")
        || same_text(name, "bool") || same_text(name, "break") || same_text(name, "case")
        || same_text(name, "catch") || same_text(name, "char") || same_text(name, "char8_t")
        || same_text(name, "char16_t") || same_text(name, "char32_t") || same_text(name, "class")
        || same_text(name, "compl") || same_text(name, "concept") || same_text(name, "const")
        || same_text(name, "consteval") || same_text(name, "constexpr")
        || same_text(name, "constinit") || same_text(name, "const_cast")
        || same_text(name, "continue") || same_text(name, "co_await")
        || same_text(name, "co_return") || same_text(name, "co_yield")
        || same_text(name, "decltype") || same_text(name, "default") || same_text(name, "delete")
        || same_text(name, "do") || same_text(name, "double") || same_text(name, "dynamic_cast")
        || same_text(name, "else") || same_text(name, "enum") || same_text(name, "explicit")
        || same_text(name, "export") || same_text(name, "extern") || same_text(name, "false")
        || same_text(name, "float") || same_text(name, "for") || same_text(name, "friend")
        || same_text(name, "goto") || same_text(name, "if") || same_text(name, "inline")
        || same_text(name, "int") || same_text(name, "long") || same_text(name, "mutable")
        || same_text(name, "namespace") || same_text(name, "new") || same_text(name, "noexcept")
        || same_text(name, "not") || same_text(name, "not_eq") || same_text(name, "nullptr")
        || same_text(name, "operator") || same_text(name, "or") || same_text(name, "or_eq")
        || same_text(name, "private") || same_text(name, "protected") || same_text(name, "public")
        || same_text(name, "reflexpr") || same_text(name, "register")
        || same_text(name, "reinterpret_cast") || same_text(name, "requires")
        || same_text(name, "return") || same_text(name, "short") || same_text(name, "signed")
        || same_text(name, "sizeof") || same_text(name, "static")
        || same_text(name, "static_assert") || same_text(name, "static_cast")
        || same_text(name, "struct") || same_text(name, "switch")
        || same_text(name, "synchronized") || same_text(name, "template")
        || same_text(name, "this") || same_text(name, "thread_local") || same_text(name, "throw")
        || same_text(name, "true") || same_text(name, "try") || same_text(name, "typedef")
        || same_text(name, "typeid") || same_text(name, "typename") || same_text(name, "union")
        || same_text(name, "unsigned") || same_text(name, "using") || same_text(name, "virtual")
        || same_text(name, "void") || same_text(name, "volatile") || same_text(name, "wchar_t")
        || same_text(name, "while") || same_text(name, "xor") || same_text(name, "xor_eq")
}

/// Formats `ident` as a C++ identifier: a stream of the one identifier
/// spelled as `ident` is, or the reason why `ident` is no C++ identifier.
pub fn format_cc_ident(ident: &str) -> (result: Result<TokenStream, FormatError>)
    ensures
        result is Ok <==> is_cc_identifier(ident@),
        match result {
            Ok(stream) => stream_tokens(stream) == seq![Token::Ident(ident@)],
            Err(e) => format_error(ident@) == Some(e),
        },
{
    if ident.unicode_len() == 0 {
        return Err(FormatError::Empty);
    }
    if !plain_identifier(ident) {
        return Err(FormatError::IllegalCharacter);
    }
    if reserved_keyword(ident) {
        return Err(FormatError::ReservedKeyword);
    }
    let mut stream = empty_stream();
    push_ident(&mut stream, ident);
    assert(stream_tokens(stream) =~= seq![Token::Ident(ident@)]);
    Ok(stream)
}

} // verus!
