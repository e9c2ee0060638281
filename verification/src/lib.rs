//! Wrapper synthesis for foreign function declarations.
//!
//! Given the declaration of a function that lives on the other side of a
//! language boundary, this crate builds the native function that forwards to
//! it: the receiver is brought into canonical form, every argument is converted
//! to its FFI representation, the linked symbol is called inside `unsafe`, and
//! the raw result is converted back into a native value.

pub mod catalog;
pub mod error;
pub mod expr;
pub mod fn_arg;
pub mod ident;
pub mod laws;
pub mod parsed_extern_fn;
pub mod path;
pub mod search;
pub mod tokens;
pub mod types;
pub mod wrapper;
