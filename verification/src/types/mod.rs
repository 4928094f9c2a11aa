//! Concrete Python type markers and their operations.

pub mod any;
pub mod bytes;
pub mod module;
pub mod type_object;

pub use any::PyAny;
pub use bytes::PyBytes;
pub use module::PyModule;
pub use type_object::PyType;
