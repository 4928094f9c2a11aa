//! Expansion of the `pyfunction` and `pymethods` attributes, from source text
//! to source text.
//!
//! Parameters are classified by position. After an optional `&self`, the first
//! one is the thread-state token. The second one is the module state, except
//! in getters and constructors. The remaining ones are visible from Python.
//! Only the shape is looked at: the generated code names the real types, so
//! that a wrong one is an ordinary compile error.

pub mod codegen;
pub mod codegen_laws;
pub mod functions;
pub mod functions_laws;
pub mod items;
pub mod laws;
pub mod methods;
pub mod methods_laws;
pub mod model;
pub mod model_laws;
pub mod signature;
pub mod signature_laws;
pub mod tokens;
