//! Serde-style serializer generating Rust source text.
//!
//! The crate turns an in-memory value tree into the text of a single Rust
//! expression which, compiled in a context where every referenced type is in
//! scope, evaluates back to an equivalent value.  The interesting part is the
//! emission engine in [`ser`], together with the arity-indexed dispatch table
//! in [`convert`] that lets a fixed-length group of values resolve, purely by
//! static typing, to either an array or a tuple at the use site.

pub mod convert;
pub mod error;
pub mod funcs;
pub mod helpers;
pub mod ser;
pub mod sink;
pub mod text;
pub mod value;

pub use funcs::to_string;
