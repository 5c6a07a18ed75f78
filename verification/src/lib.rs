//! Runtime type description, value marshaling and ownership tracking for a
//! bridge between a scripting runtime and native libraries.
//!
//! A call signature arrives at call time as a [`types::Type`] per argument.
//! Scripting values ([`value::Value`]) are encoded into call-ready values
//! ([`cif::Value`]) that own whatever storage the native callee will read,
//! and native results are decoded back. Everything that touches native
//! memory, the toolkit or the scripting runtime is handed to the embedding
//! as plain data: addresses are `usize`, floating-point numbers travel as
//! their bit patterns, native operations are returned as requests.

pub mod cif;
pub mod error;
pub mod ffi;
pub mod gtk_dispatch;
pub mod gvariant;
pub mod js_ext;
pub mod managed;
pub mod memory;
pub mod module;
pub mod number;
pub mod numeric;
pub mod queue;
pub mod render;
pub mod sync;
pub mod text;
pub mod trampolines;
pub mod types;
pub mod value;

