//! Token streams, and what the contracts of this crate say of them.
//!
//! The streams are those of `proc_macro2`. Verified code never looks into
//! one; it builds them through the few functions at the end of this file,
//! whose contracts are taken on trust from the sources of `proc_macro2` and
//! `quote`. The contracts speak of a stream through [`stream_tokens`], the
//! sequence of token trees that it holds.

use crate::ident::is_plain_identifier;
use proc_macro2::{Delimiter, Group, Ident, Span, TokenStream};
use quote::{ToTokens, TokenStreamExt};
use vstd::prelude::*;

verus! {

/// A token tree, reduced to what this crate ever puts into a stream.
pub enum Token {
    /// An identifier or keyword, by its spelling.
    Ident(Seq<char>),
    /// A string literal, by the text that it denotes (not by its escaped
    /// spelling).
    Text(Seq<char>),
    /// A group in curly braces, by the token trees between the braces.
    Braces(Seq<Token>),
}

/// `proc_macro2::TokenStream`, declared so that it may stand in signatures
/// and fields. Nothing inside a stream is visible to the verifier.
#[verifier::external_type_specification]
#[verifier::external_body]
pub struct ExTokenStream(proc_macro2::TokenStream);

/// The token trees that `stream` holds, first to last. Spans are left out.
///
/// This has no definition: all that is known of it is what the functions
/// below state of the streams that they make or change.
pub uninterp spec fn stream_tokens(stream: TokenStream) -> Seq<Token>;

/// `TokenStream::new`: a stream that holds no token tree.
#[verifier::external_body]
pub(crate) fn empty_stream() -> (stream: TokenStream)
    ensures
        stream_tokens(stream) == Seq::<Token>::empty(),
{
    TokenStream::new()
}

/// `Ident::new` with the call-site span, appended by `TokenStreamExt::append`:
/// the stream grows by one identifier spelled `name`. `Ident::new` panics on
/// a string that is no identifier, so the caller has to show that `name` is
/// one; only spellings in ASCII are admitted here.
#[verifier::external_body]
pub(crate) fn push_ident(stream: &mut TokenStream, name: &str)
    requires
        is_plain_identifier(name@),
    ensures
        stream_tokens(*final(stream)) == stream_tokens(*old(stream)).push(Token::Ident(name@)),
{
    stream.append(Ident::new(name, Span::call_site()));
}

/// `ToTokens::to_tokens` of `str`: the stream grows by one string literal
/// that denotes `text`, whatever characters `text` holds.
#[verifier::external_body]
pub(crate) fn push_text(stream: &mut TokenStream, text: &str)
    ensures
        stream_tokens(*final(stream)) == stream_tokens(*old(stream)).push(Token::Text(text@)),
{
    text.to_tokens(stream);
}

/// `Group::new` with `Delimiter::Brace`, appended by
/// `TokenStreamExt::append`: the stream grows by one group in curly braces
/// that holds the token trees of `inner`.
#[verifier::external_body]
pub(crate) fn push_braces(stream: &mut TokenStream, inner: TokenStream)
    ensures
        stream_tokens(*final(stream)) == stream_tokens(*old(stream)).push(
            Token::Braces(stream_tokens(inner)),
        ),
{
    stream.append(Group::new(Delimiter::Brace, inner));
}

/// `Extend<TokenStream>::extend` with one stream: the token trees of `tail`
/// are appended to the stream, in their order.
#[verifier::external_body]
pub(crate) fn push_stream(stream: &mut TokenStream, tail: TokenStream)
    ensures
        stream_tokens(*final(stream)) == stream_tokens(*old(stream)) + stream_tokens(tail),
{
    stream.extend([tail]);
}

} // verus!
