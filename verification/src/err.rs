//! Error handling: the marker for "an exception is set" and the raise helpers.
//!
//! The exception itself lives in the thread state. Rust code only carries the
//! [`PyErrRaised`] marker.

use std::marker::PhantomData;
use std::rc::Rc;
use vstd::prelude::*;
use crate::instance::{Borrowed, Bound, Py};
use crate::text::{cut_at_nul, until_nul};
use crate::threadstate::{ExcType, ThreadState};
use crate::types::PyType;

verus! {

/// Marker: a Python exception has been set on the current thread.
///
/// It refers to per-thread state, so it is not `Send`.
#[must_use]
#[derive(Debug)]
pub struct PyErrRaised {
    marker: PhantomData<Rc<()>>,
}

/// The result of any fallible operation against the interpreter.
pub type PyResult<T> = Result<T, PyErrRaised>;

impl PyErrRaised {
    /// Assert that an exception is already set, for example after a C call
    /// returned `NULL` or `-1`.
    pub fn assume_set(ts: &ThreadState<'_>) -> PyErrRaised
        requires
            ts@.pending is Some,
    {
        PyErrRaised { marker: PhantomData }
    }
}

/// Set `exc` with a message and return the raised marker.
///
/// A C string cannot hold a NUL, so the message is cut at its first one
/// rather than losing the exception.
pub fn raise_with_type(ts: &mut ThreadState<'_>, exc: ExcType, msg: &str) -> (r: PyErrRaised)
    ensures
        final(ts)@ == old(ts)@.raised(exc, until_nul(msg@)),
{
    ts.set_exception(exc, cut_at_nul(msg));
    PyErrRaised::assume_set(ts)
}

/// Turn a C return value that is `-1` on error into a result.
pub fn error_on_minus_one(ts: &ThreadState<'_>, ret: i32) -> (r: PyResult<()>)
    requires
        ret == -1 ==> ts@.pending is Some,
    ensures
        r is Err <==> ret == -1,
{
    if ret == -1 {
        Err(PyErrRaised::assume_set(ts))
    } else {
        Ok(())
    }
}

/// `Exception`
pub struct PyException;

impl PyException {
    /// Set this exception with the given message.
    pub fn raise(ts: &mut ThreadState<'_>, msg: &str) -> (r: PyErrRaised)
        ensures
            final(ts)@ == old(ts)@.raised(ExcType::Exception, until_nul(msg@)),
    {
        raise_with_type(ts, ExcType::Exception, msg)
    }
}

/// `ValueError`
pub struct PyValueError;

impl PyValueError {
    /// Set this exception with the given message.
    pub fn raise(ts: &mut ThreadState<'_>, msg: &str) -> (r: PyErrRaised)
        ensures
            final(ts)@ == old(ts)@.raised(ExcType::ValueError, until_nul(msg@)),
    {
        raise_with_type(ts, ExcType::ValueError, msg)
    }
}

/// `TypeError`
pub struct PyTypeError;

impl PyTypeError {
    /// Set this exception with the given message.
    pub fn raise(ts: &mut ThreadState<'_>, msg: &str) -> (r: PyErrRaised)
        ensures
            final(ts)@ == old(ts)@.raised(ExcType::TypeError, until_nul(msg@)),
    {
        raise_with_type(ts, ExcType::TypeError, msg)
    }
}

/// `OverflowError`
pub struct PyOverflowError;

impl PyOverflowError {
    /// Set this exception with the given message.
    pub fn raise(ts: &mut ThreadState<'_>, msg: &str) -> (r: PyErrRaised)
        ensures
            final(ts)@ == old(ts)@.raised(ExcType::OverflowError, until_nul(msg@)),
    {
        raise_with_type(ts, ExcType::OverflowError, msg)
    }
}

/// `BufferError`
pub struct PyBufferError;

impl PyBufferError {
    /// Set this exception with the given message.
    pub fn raise(ts: &mut ThreadState<'_>, msg: &str) -> (r: PyErrRaised)
        ensures
            final(ts)@ == old(ts)@.raised(ExcType::BufferError, until_nul(msg@)),
    {
        raise_with_type(ts, ExcType::BufferError, msg)
    }
}

/// `EOFError`
pub struct PyEOFError;

impl PyEOFError {
    /// Set this exception with the given message.
    pub fn raise(ts: &mut ThreadState<'_>, msg: &str) -> (r: PyErrRaised)
        ensures
            final(ts)@ == old(ts)@.raised(ExcType::EOFError, until_nul(msg@)),
    {
        raise_with_type(ts, ExcType::EOFError, msg)
    }
}

/// `NotImplementedError`
pub struct PyNotImplementedError;

impl PyNotImplementedError {
    /// Set this exception with the given message.
    pub fn raise(ts: &mut ThreadState<'_>, msg: &str) -> (r: PyErrRaised)
        ensures
            final(ts)@ == old(ts)@.raised(ExcType::NotImplementedError, until_nul(msg@)),
    {
        raise_with_type(ts, ExcType::NotImplementedError, msg)
    }
}

/// `MemoryError`
pub struct PyMemoryError;

impl PyMemoryError {
    /// Set this exception with the given message.
    pub fn raise(ts: &mut ThreadState<'_>, msg: &str) -> (r: PyErrRaised)
        ensures
            final(ts)@ == old(ts)@.raised(ExcType::MemoryError, until_nul(msg@)),
    {
        raise_with_type(ts, ExcType::MemoryError, msg)
    }
}

/// `RuntimeError`
pub struct PyRuntimeError;

impl PyRuntimeError {
    /// Set this exception with the given message.
    pub fn raise(ts: &mut ThreadState<'_>, msg: &str) -> (r: PyErrRaised)
        ensures
            final(ts)@ == old(ts)@.raised(ExcType::RuntimeError, until_nul(msg@)),
    {
        raise_with_type(ts, ExcType::RuntimeError, msg)
    }
}

/// `SystemError`
pub struct PySystemError;

impl PySystemError {
    /// Set this exception with the given message.
    pub fn raise(ts: &mut ThreadState<'_>, msg: &str) -> (r: PyErrRaised)
        ensures
            final(ts)@ == old(ts)@.raised(ExcType::SystemError, until_nul(msg@)),
    {
        raise_with_type(ts, ExcType::SystemError, msg)
    }
}

impl<'py> Bound<'py, PyType> {
    /// Raise this exception type with a message.
    pub fn raise(&self, ts: &mut ThreadState<'py>, msg: &str) -> (r: PyErrRaised)
        ensures
            final(ts)@ == old(ts)@.raised(ExcType::Object(self.addr()), until_nul(msg@)),
    {
        raise_with_type(ts, ExcType::Object(self.as_ptr()), msg)
    }
}

impl<'py> Borrowed<'_, 'py, PyType> {
    /// Raise this exception type with a message.
    pub fn raise(&self, ts: &mut ThreadState<'py>, msg: &str) -> (r: PyErrRaised)
        ensures
            final(ts)@ == old(ts)@.raised(ExcType::Object(self.addr()), until_nul(msg@)),
    {
        raise_with_type(ts, ExcType::Object(self.as_ptr()), msg)
    }
}

impl Py<PyType> {
    /// Raise this exception type with a message.
    pub fn raise(&self, ts: &mut ThreadState<'_>, msg: &str) -> (r: PyErrRaised)
        ensures
            final(ts)@ == old(ts)@.raised(ExcType::Object(self.addr()), until_nul(msg@)),
    {
        raise_with_type(ts, ExcType::Object(self.as_ptr()), msg)
    }
}

} // verus!
