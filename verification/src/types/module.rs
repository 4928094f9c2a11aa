//! The module type.

use vstd::prelude::*;
use crate::cstr::CStr;
use crate::err::{error_on_minus_one, PyResult};
use crate::instance::{Borrowed, Bound};
use crate::sys_calls::{SysCall, SysQuery, SysQueryView};
use crate::threadstate::ThreadState;
use crate::types::any::PyAny;
use crate::types::type_object::PyType;

verus! {

/// The Python module type marker.
pub struct PyModule(PyAny);

impl<'py> Bound<'py, PyModule> {
    /// What to ask to add an attribute to the module.
    pub fn add_query<'a>(&self, name: &'a CStr, value: &Bound<'py, PyAny>) -> (r: SysQuery<'a>)
        ensures
            r@ == (SysQueryView::ModuleAddObjectRef {
                module: self.addr(),
                name: name@,
                value: value.addr(),
            }),
    {
        SysQuery::ModuleAddObjectRef { module: self.as_ptr(), name, value: value.as_ptr() }
    }

    /// Finish adding an attribute. The module took a reference of its own, so
    /// the one to `value` is given back.
    pub fn add(&self, ts: &mut ThreadState<'py>, value: Bound<'py, PyAny>, ret: i32) -> (r: PyResult<
        (),
    >)
        requires
            ret == -1 ==> old(ts)@.pending is Some,
        ensures
            r is Err <==> ret == -1,
            final(ts)@ == old(ts)@.called(SysCall::DecRef(value.addr())),
    {
        value.drop_with(ts);
        error_on_minus_one(ts, ret)
    }

    /// What to ask to add a type to the module under its unqualified name.
    pub fn add_type_query(&self, ty: &Bound<'py, PyType>) -> (r: SysQuery<'static>)
        ensures
            r@ == (SysQueryView::ModuleAddType { module: self.addr(), ty: ty.addr() }),
    {
        SysQuery::ModuleAddType { module: self.as_ptr(), ty: ty.as_ptr() }
    }

    /// Finish adding a type.
    pub fn add_type(&self, ts: &ThreadState<'py>, ret: i32) -> (r: PyResult<()>)
        requires
            ret == -1 ==> ts@.pending is Some,
        ensures
            r is Err <==> ret == -1,
    {
        error_on_minus_one(ts, ret)
    }
}

impl<'py> Borrowed<'_, 'py, PyModule> {
    /// What to ask to add an attribute to the module.
    pub fn add_query<'a>(&self, name: &'a CStr, value: &Bound<'py, PyAny>) -> (r: SysQuery<'a>)
        ensures
            r@ == (SysQueryView::ModuleAddObjectRef {
                module: self.addr(),
                name: name@,
                value: value.addr(),
            }),
    {
        SysQuery::ModuleAddObjectRef { module: self.as_ptr(), name, value: value.as_ptr() }
    }

    /// Finish adding an attribute. The module took a reference of its own, so
    /// the one to `value` is given back.
    pub fn add(&self, ts: &mut ThreadState<'py>, value: Bound<'py, PyAny>, ret: i32) -> (r: PyResult<
        (),
    >)
        requires
            ret == -1 ==> old(ts)@.pending is Some,
        ensures
            r is Err <==> ret == -1,
            final(ts)@ == old(ts)@.called(SysCall::DecRef(value.addr())),
    {
        value.drop_with(ts);
        error_on_minus_one(ts, ret)
    }

    /// What to ask to add a type to the module under its unqualified name.
    pub fn add_type_query(&self, ty: &Bound<'py, PyType>) -> (r: SysQuery<'static>)
        ensures
            r@ == (SysQueryView::ModuleAddType { module: self.addr(), ty: ty.addr() }),
    {
        SysQuery::ModuleAddType { module: self.as_ptr(), ty: ty.as_ptr() }
    }

    /// Finish adding a type.
    pub fn add_type(&self, ts: &ThreadState<'py>, ret: i32) -> (r: PyResult<()>)
        requires
            ret == -1 ==> ts@.pending is Some,
        ensures
            r is Err <==> ret == -1,
    {
        error_on_minus_one(ts, ret)
    }
}

} // verus!
