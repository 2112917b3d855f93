//! Planning of the code that the `#[bitfield]` attribute expands to.
//!
//! The expansion of a `#[bitfield]` struct is computed here as a plan: which
//! items are emitted, under which names, with which documentation, and which
//! compile-time `usize` expressions size the storage and place each field.
//! Those expressions are kept symbolic (`SizeExpr`), because the widths of the
//! field types are only known to the compiler; `SizeExpr::eval` gives their
//! meaning for any assignment of widths, and the contracts and laws are stated
//! over it.
//!
//! Turning a plan into tokens is left to the caller.

pub mod size_expr;
pub mod model;
pub mod names;
pub mod items;
pub mod expand;
pub mod laws;
