//! Derivation of ergonomic wrappers for raw, pointer-based linear-algebra
//! routine declarations.
//!
//! A raw declaration communicates exclusively through pointer arguments. From
//! a model of such a declaration this library derives a wrapper signature that
//! takes values, references and array views instead, together with the exact
//! call-site expressions that recover compatible pointers when the wrapper
//! invokes the raw routine. Both directions follow a single name-based
//! convention table, so they stay inverse to each other by construction.

pub mod callexpr;
pub mod names;
pub mod signature;
pub mod syntax;
pub mod typing;
pub mod wrapper;
