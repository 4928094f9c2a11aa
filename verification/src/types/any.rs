//! The abstract object type.

use vstd::prelude::*;

verus! {

/// Any Python object, identified by its address. It is only used behind a
/// handle.
pub struct PyAny {
    addr: usize,
}

impl PyAny {
    /// The address of the object.
    pub closed spec fn addr(&self) -> usize {
        self.addr
    }

    /// The object at an address.
    pub fn at(addr: usize) -> (r: PyAny)
        requires
            addr != 0,
        ensures
            r.addr() == addr,
    {
        PyAny { addr }
    }

    /// The address of the object.
    pub fn as_ptr(&self) -> (r: usize)
        ensures
            r == self.addr(),
    {
        self.addr
    }
}

} // verus!
