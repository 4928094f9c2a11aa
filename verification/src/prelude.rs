//! Commonly used items.

pub use crate::buffer::PyBuffer;
pub use crate::conversion::{FromPyObject, IntoPyObject};
pub use crate::err::{
    PyBufferError, PyEOFError, PyErrRaised, PyException, PyMemoryError, PyNotImplementedError,
    PyOverflowError, PyResult, PyRuntimeError, PySystemError, PyTypeError, PyValueError,
};
pub use crate::instance::{Borrowed, Bound, Py};
pub use crate::macros::functions::pyfunction;
pub use crate::macros::methods::pymethods;
pub use crate::module::{export_module, ModuleState};
pub use crate::threadstate::ThreadState;
pub use crate::types::{PyAny, PyBytes, PyModule, PyType};
