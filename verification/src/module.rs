//! The operations that the embedding exposes to scripts, as far as they
//! are decisions on plain values: field access, the draining of the
//! callback queue, shutdown, and the address behind a handle.

pub mod field;
pub mod object;
pub mod poll;
pub mod stop;

