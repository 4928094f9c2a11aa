//! Decision logic for writing CPython extension modules in Rust.
//!
//! The interpreter itself is not called from here. Objects are addresses; what
//! has to be asked of the interpreter is returned as a value, and its reply is
//! an argument of the function that goes on from there. The shell around this
//! crate makes the calls.
//!
//! - The thread state is passed explicitly everywhere as [`ThreadState`].
//! - Errors are represented by the [`PyErrRaised`] marker: the exception itself
//!   lives in the thread state.
//! - [`args`] binds call arguments, [`conversion`] converts values, [`module`]
//!   defines modules and holds their state, [`macros`] expands the attributes.

pub mod args;
pub mod base64;
pub mod buffer;
pub mod build_helper;
pub mod build_laws;
pub mod class;
pub mod conversion;
pub mod conversion_laws;
pub mod cstr;
pub mod entry;
pub mod err;
pub mod instance;
pub mod macros;
pub mod module;
pub mod prelude;
pub mod runtime_laws;
pub mod sys_calls;
pub mod text;
pub mod text_laws;
pub mod threadstate;
pub mod types;
pub mod version;

pub use buffer::PyBuffer;
pub use conversion::{FromPyObject, IntoPyObject};
pub use cstr::{const_cstr, CStr};
pub use err::{PyErrRaised, PyResult};
pub use instance::{Borrowed, Bound, Py};
pub use macros::functions::pyfunction;
pub use macros::methods::pymethods;
pub use module::{ModuleState, TraverseResult, TraverseStop, Visit};
pub use threadstate::ThreadState;
pub use types::{PyAny, PyBytes, PyModule, PyType};
