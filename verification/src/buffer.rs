//! Read-only access to the buffer of an object.

use std::marker::PhantomData;
use std::rc::Rc;
use vstd::prelude::*;
use crate::conversion::FromPyObject;
use crate::err::{PyErrRaised, PyResult};
use crate::instance::Borrowed;
use crate::sys_calls::{SysQuery, SysQueryView};
use crate::threadstate::{ThreadState, ThreadStateView};
use crate::types::PyAny;

verus! {

/// What `PyObject_GetBuffer` replied: its return value and, where that is
/// zero, the view. `bytes` is `None` where the view has no memory.
pub struct BufferReply<'py> {
    pub ret: i32,
    pub len: isize,
    pub bytes: Option<&'py [u8]>,
}

impl<'py> BufferReply<'py> {
    /// Whether the view is contiguous memory of `len` bytes. Only an empty one
    /// may have none.
    pub open spec fn contiguous(self) -> bool {
        &&& self.len >= 0
        &&& self.len > 0 ==> (self.bytes matches Some(b) && b@.len() == self.len)
    }

    /// The bytes of the view.
    pub open spec fn contents(self) -> Seq<u8> {
        if self.len == 0 {
            Seq::empty()
        } else {
            self.bytes->0@
        }
    }
}

/// A read-only, contiguous byte view of an object that exports a buffer. It is
/// neither `Send` nor `Sync`.
pub struct PyBuffer<'py> {
    len: isize,
    bytes: Option<&'py [u8]>,
    marker: PhantomData<Rc<()>>,
}

impl<'py> View for PyBuffer<'py> {
    type V = Seq<u8>;

    closed spec fn view(&self) -> Seq<u8> {
        if self.len == 0 {
            Seq::empty()
        } else {
            self.bytes->0@
        }
    }
}

impl<'py> PyBuffer<'py> {
    #[verifier::type_invariant]
    spec fn contiguous(self) -> bool {
        &&& self.len >= 0
        &&& self.len > 0 ==> (self.bytes matches Some(b) && b@.len() == self.len)
    }

    /// What to ask for a view of `obj`.
    pub fn get_query(obj: &Borrowed<'_, 'py, PyAny>) -> (r: SysQuery<'static>)
        ensures
            r@ == SysQueryView::GetSimpleBuffer(obj.addr()),
    {
        SysQuery::GetSimpleBuffer(obj.as_ptr())
    }

    /// Take the view that the interpreter gave.
    pub fn get(ts: &ThreadState<'py>, reply: BufferReply<'py>) -> (r: PyResult<PyBuffer<'py>>)
        requires
            reply.ret != 0 ==> ts@.pending is Some,
            reply.ret == 0 ==> reply.contiguous(),
        ensures
            r is Ok <==> reply.ret == 0,
            r matches Ok(b) ==> b@ == reply.contents(),
    {
        if reply.ret != 0 {
            return Err(PyErrRaised::assume_set(ts));
        }
        Ok(PyBuffer { len: reply.len, bytes: reply.bytes, marker: PhantomData })
    }

    /// The contents.
    pub fn as_bytes(&self) -> (r: &[u8])
        ensures
            r@ == self@,
    {
        proof {
            use_type_invariant(self);
        }
        if self.len == 0 {
            let empty: &[u8] = &[];
            assert(empty@ =~= Seq::<u8>::empty());
            empty
        } else {
            self.bytes.unwrap()
        }
    }

    /// Length in bytes.
    pub fn len(&self) -> (r: usize)
        ensures
            r == self@.len(),
    {
        proof {
            use_type_invariant(self);
        }
        self.len as usize
    }

    /// True if there are no bytes.
    pub fn is_empty(&self) -> (r: bool)
        ensures
            r == (self@.len() == 0),
    {
        proof {
            use_type_invariant(self);
        }
        self.len == 0
    }
}

/// Whether dropping a view releases the buffer: only if this thread is attached
/// (`tls` is its thread state), otherwise it leaks.
pub fn releases(tls: usize) -> (r: bool)
    ensures
        r == (tls != 0),
{
    tls != 0
}

impl<'py> FromPyObject<'py> for PyBuffer<'py> {
    type Reply = BufferReply<'py>;

    open spec fn asks(none: usize, obj: usize) -> Option<SysQueryView> {
        Some(SysQueryView::GetSimpleBuffer(obj))
    }

    open spec fn answers(ts: ThreadStateView, obj: usize, reply: BufferReply<'py>) -> bool {
        &&& reply.ret != 0 ==> ts.pending is Some
        &&& reply.ret == 0 ==> reply.contiguous()
    }

    open spec fn extracts(
        before: ThreadStateView,
        obj: usize,
        reply: BufferReply<'py>,
        value: Option<PyBuffer<'py>>,
        after: ThreadStateView,
    ) -> bool {
        &&& after == before
        &&& value is Some <==> reply.ret == 0
        &&& value matches Some(b) ==> b@ == reply.contents()
    }

    fn query(ts: &ThreadState<'py>, obj: &Borrowed<'_, 'py, PyAny>) -> (r: Option<
        SysQuery<'static>,
    >) {
        Some(PyBuffer::get_query(obj))
    }

    fn extract(
        ts: &mut ThreadState<'py>,
        obj: &Borrowed<'_, 'py, PyAny>,
        reply: BufferReply<'py>,
    ) -> (r: PyResult<PyBuffer<'py>>) {
        PyBuffer::get(ts, reply)
    }
}

} // verus!
