//! Constant substitution for a typed, generics-bearing intermediate
//! representation.
//!
//! Given a read-only mapping from constant names to already-evaluated
//! expression values, the reader rewrites a typed program (or a single
//! top-level declaration) so that every resolvable occurrence of a
//! constant becomes a literal:
//!
//! * an identifier expression whose name is bound becomes the bound
//!   value's inner form, in the expression family of the occurrence;
//! * a symbolic type-level size parameter (a declaration constant, such
//!   as an array length) whose name is bound becomes a concrete length;
//! * every occurrence whose name is absent from the bindings survives
//!   structurally unchanged, ready for a later resolution attempt.
//!
//! The mathematical model of the rewrite lives in [`model`]; the
//! executable pass in [`reader`] is proved to compute exactly that
//! model, and [`laws`] proves the global properties of the model:
//! idempotence, identity on trees that mention no bound name,
//! completeness of substitution, and preservation of well-formedness.

pub mod ast;
pub mod bindings;
pub mod laws;
pub mod model;
pub mod reader;
