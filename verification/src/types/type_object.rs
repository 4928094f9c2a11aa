//! The type of types.

use vstd::prelude::*;
use crate::cstr::CStr;
use crate::err::{PyErrRaised, PyResult};
use crate::instance::Bound;
use crate::sys_calls::{SysQuery, SysQueryView};
use crate::threadstate::ThreadState;
use crate::types::any::PyAny;

verus! {

/// The Python type-object marker.
pub struct PyType(PyAny);

impl PyType {
    /// What to ask for a new exception type with the name `"module.name"`.
    /// Without a base the base class is `Exception`.
    pub fn new_exception_query<'a, 'py>(
        qualname: &'a CStr,
        base: Option<&Bound<'py, PyType>>,
    ) -> (r: SysQuery<'a>)
        ensures
            r@ == (SysQueryView::ErrNewException {
                qualname: qualname@,
                base: match base {
                    Some(b) => b.addr(),
                    None => 0,
                },
            }),
    {
        SysQuery::ErrNewException {
            qualname,
            base: match base {
                Some(b) => b.as_ptr(),
                None => 0,
            },
        }
    }

    /// Take the exception type that the interpreter made, if `reply` is not
    /// zero.
    pub fn new_exception<'py>(ts: &ThreadState<'py>, reply: usize) -> (r: PyResult<
        Bound<'py, PyType>,
    >)
        requires
            reply == 0 ==> ts@.pending is Some,
        ensures
            r is Ok <==> reply != 0,
            r matches Ok(b) ==> b.addr() == reply,
    {
        if reply != 0 {
            Ok(Bound::from_owned_ptr(ts, reply))
        } else {
            Err(PyErrRaised::assume_set(ts))
        }
    }
}

} // verus!
