//! Generation of C++ declarations for the exported symbols of a compiled Rust
//! crate.
//!
//! A [`unit::CompiledUnit`] is a read-only snapshot of one crate after type
//! checking: its name, its local definitions and its export table.
//! [`bindings::GeneratedBindings::generate`] turns such a snapshot into a
//! token stream that holds a header comment and one namespace, and inside
//! the namespace one fragment per exported symbol that denotes a local
//! definition. A definition that cannot be bound is reported as a comment in
//! place of its declaration, so one failure never ends the run.
//!
//! Every function is verified against a contract over the token sequence of
//! the stream it builds; see [`tokens::stream_tokens`].

pub mod bindings;
pub mod document;
pub mod ident;
pub mod tokens;
pub mod unit;
