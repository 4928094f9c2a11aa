//! References to Python objects: [`Borrowed`] (not owned), [`Bound`] (owned,
//! attached scope) and [`Py`] (owned, for storage in module state).

use std::marker::PhantomData;
use std::rc::Rc;
use vstd::prelude::*;
use crate::sys_calls::{decref, incref, ref_delta, SysCall};
use crate::threadstate::{ThreadState, ThreadStateView};
use crate::types::PyAny;

verus! {

/// A reference that is kept alive by its real owner for `'a`.
pub struct Borrowed<'a, 'py, T> {
    ptr: usize,
    marker: PhantomData<(&'a (), &'py (), Rc<()>, T)>,
}

impl<'a, 'py, T> Clone for Borrowed<'a, 'py, T> {
    fn clone(&self) -> (r: Borrowed<'a, 'py, T>)
        ensures
            r == *self,
    {
        *self
    }
}

impl<'a, 'py, T> Copy for Borrowed<'a, 'py, T> {

}

/// An owned reference to a Python object, valid within the attached scope
/// `'py`. It is neither `Send` nor `Sync`.
pub struct Bound<'py, T> {
    ptr: usize,
    marker: PhantomData<(&'py (), Rc<()>, T)>,
}

/// An owned reference for storage in module state. The handle may move
/// between threads; every operation on it still takes the token.
pub struct Py<T> {
    ptr: usize,
    marker: PhantomData<T>,
}

impl<'a, 'py, T> Borrowed<'a, 'py, T> {
    #[verifier::type_invariant]
    spec fn not_null(self) -> bool {
        self.ptr != 0
    }

    /// The address of the object.
    pub closed spec fn addr(&self) -> usize {
        self.ptr
    }

    /// The address of the object.
    pub fn as_ptr(&self) -> (r: usize)
        ensures
            r == self.addr(),
            r != 0,
    {
        proof {
            use_type_invariant(self);
        }
        self.ptr
    }

    /// Take a strong reference of one's own.
    pub fn to_owned(&self, ts: &mut ThreadState<'py>) -> (r: Bound<'py, T>)
        ensures
            r.addr() == self.addr(),
            final(ts)@ == old(ts)@.called(SysCall::IncRef(self.addr())),
    {
        proof {
            use_type_invariant(self);
        }
        incref(ts, self.ptr);
        Bound { ptr: self.ptr, marker: PhantomData }
    }
}

impl<'py, T> Bound<'py, T> {
    #[verifier::type_invariant]
    spec fn not_null(self) -> bool {
        self.ptr != 0
    }

    /// The address of the object.
    pub closed spec fn addr(&self) -> usize {
        self.ptr
    }

    /// Take ownership of a strong reference that a C call returned.
    pub fn from_owned_ptr(_ts: &ThreadState<'py>, ptr: usize) -> (r: Bound<'py, T>)
        requires
            ptr != 0,
        ensures
            r.addr() == ptr,
    {
        Bound { ptr, marker: PhantomData }
    }

    /// Lend a borrowed pointer without touching the refcount.
    pub fn ref_from_ptr<'a>(ptr: &'a usize) -> (r: Borrowed<'a, 'py, T>)
        requires
            *ptr != 0,
        ensures
            r.addr() == *ptr,
    {
        Borrowed { ptr: *ptr, marker: PhantomData }
    }

    /// The address of the object; the handle keeps its reference.
    pub fn as_ptr(&self) -> (r: usize)
        ensures
            r == self.addr(),
            r != 0,
    {
        proof {
            use_type_invariant(self);
        }
        self.ptr
    }

    /// Create a new strong reference.
    pub fn clone_ref(&self, ts: &mut ThreadState<'py>) -> (r: Bound<'py, T>)
        ensures
            r.addr() == self.addr(),
            final(ts)@ == old(ts)@.called(SysCall::IncRef(self.addr())),
    {
        proof {
            use_type_invariant(self);
        }
        incref(ts, self.ptr);
        Bound { ptr: self.ptr, marker: PhantomData }
    }

    /// Leave the `'py` scope. The reference moves; the refcount stays.
    pub fn unbind(self) -> (r: Py<T>)
        ensures
            r.addr() == self.addr(),
    {
        proof {
            use_type_invariant(&self);
        }
        Py { ptr: self.ptr, marker: PhantomData }
    }

    /// View as any object.
    pub fn as_any(&self) -> (r: Borrowed<'_, 'py, PyAny>)
        ensures
            r.addr() == self.addr(),
    {
        proof {
            use_type_invariant(self);
        }
        Borrowed { ptr: self.ptr, marker: PhantomData }
    }

    /// Convert into a handle of any object. The reference moves; the refcount
    /// stays.
    pub fn into_any(self) -> (r: Bound<'py, PyAny>)
        ensures
            r.addr() == self.addr(),
    {
        self.cast_unchecked()
    }

    /// Reinterpret as a handle of another type without checking. The object
    /// has to be an instance of `U`.
    pub fn cast_unchecked<U>(self) -> (r: Bound<'py, U>)
        ensures
            r.addr() == self.addr(),
    {
        proof {
            use_type_invariant(&self);
        }
        Bound { ptr: self.ptr, marker: PhantomData }
    }

    /// Hand the strong reference to C. The refcount stays.
    pub fn into_ptr(self) -> (r: usize)
        ensures
            r == self.addr(),
            r != 0,
    {
        proof {
            use_type_invariant(&self);
        }
        self.ptr
    }

    /// Give the reference back with the token at hand.
    pub fn drop_with(self, ts: &mut ThreadState<'py>)
        ensures
            final(ts)@ == old(ts)@.called(SysCall::DecRef(self.addr())),
    {
        decref(ts, self.ptr);
    }
}

impl<T> Py<T> {
    #[verifier::type_invariant]
    spec fn not_null(self) -> bool {
        self.ptr != 0
    }

    /// The address of the object.
    pub closed spec fn addr(&self) -> usize {
        self.ptr
    }

    /// The address of the object; the handle keeps its reference.
    pub fn as_ptr(&self) -> (r: usize)
        ensures
            r == self.addr(),
            r != 0,
    {
        proof {
            use_type_invariant(self);
        }
        self.ptr
    }

    /// Borrow for the attached scope without touching the refcount.
    pub fn bind<'a, 'py>(&'a self, _ts: &'a ThreadState<'py>) -> (r: Borrowed<'a, 'py, T>)
        ensures
            r.addr() == self.addr(),
    {
        proof {
            use_type_invariant(self);
        }
        Borrowed { ptr: self.ptr, marker: PhantomData }
    }

    /// Enter the attached scope again. The reference moves; the refcount
    /// stays.
    pub fn into_bound<'py>(self, _ts: &ThreadState<'py>) -> (r: Bound<'py, T>)
        ensures
            r.addr() == self.addr(),
    {
        proof {
            use_type_invariant(&self);
        }
        Bound { ptr: self.ptr, marker: PhantomData }
    }

    /// Create a new strong reference.
    pub fn clone_ref(&self, ts: &mut ThreadState<'_>) -> (r: Py<T>)
        ensures
            r.addr() == self.addr(),
            final(ts)@ == old(ts)@.called(SysCall::IncRef(self.addr())),
    {
        proof {
            use_type_invariant(self);
        }
        incref(ts, self.ptr);
        Py { ptr: self.ptr, marker: PhantomData }
    }

    /// Give the reference back with the token at hand.
    pub fn drop_with(self, ts: &mut ThreadState<'_>)
        ensures
            final(ts)@ == old(ts)@.called(SysCall::DecRef(self.addr())),
    {
        decref(ts, self.ptr);
    }
}

/// What dropping a handle without a token asks for: the reference is given
/// back if this thread is attached (`tls` is its thread state), otherwise it
/// leaks. Leaking is always sound; giving a reference back while detached is
/// not.
pub fn drop_ref(ptr: usize, tls: usize) -> (r: Option<SysCall>)
    ensures
        tls != 0 ==> r == Some(SysCall::DecRef(ptr)),
        tls == 0 ==> r is None,
{
    if tls != 0 {
        Some(SysCall::DecRef(ptr))
    } else {
        None
    }
}

/// Cloning a reference and giving the clone back leaves every refcount, and
/// all else of the thread state, as it was.
pub proof fn law_clone_then_drop(ts: ThreadStateView, addr: usize, other: usize)
    ensures
        ({
            let after = ts.called(SysCall::IncRef(addr)).called(SysCall::DecRef(addr));
            &&& ref_delta(after.calls, other) == ref_delta(ts.calls, other)
            &&& after.pending == ts.pending
            &&& after.ptr == ts.ptr
        }),
{
    let one = ts.calls.push(SysCall::IncRef(addr));
    let two = one.push(SysCall::DecRef(addr));
    assert(one.drop_last() =~= ts.calls);
    assert(two.drop_last() =~= one);
    assert(ref_delta(one, other) == ref_delta(ts.calls, other) + if addr == other {
        1int
    } else {
        0
    });
}

} // verus!
