//! Conversions between Python objects and Rust values.
//!
//! Both directions take two steps. The first one says what to ask the
//! interpreter, if anything; the second one is handed the reply.

use vstd::prelude::*;
use crate::err::{PyErrRaised, PyOverflowError, PyResult, PySystemError};
use crate::instance::{Borrowed, Bound, Py};
use crate::sys_calls::{decref, incref, query_view, SysCall, SysQuery, SysQueryView};
use crate::text::until_nul;
use crate::threadstate::{ExcType, ThreadState, ThreadStateView};
use crate::types::PyAny;

verus! {

/// Extract a Rust value from a Python object.
pub trait FromPyObject<'py>: Sized {
    /// What the interpreter replies.
    type Reply;

    /// What is asked about the object at `obj`.
    spec fn asks(none: usize, obj: usize) -> Option<SysQueryView>;

    /// Whether `reply` is one that the interpreter gives about the object at
    /// `obj`, where `ts` is the thread state after the call.
    spec fn answers(ts: ThreadStateView, obj: usize, reply: Self::Reply) -> bool;

    /// Whether extraction may turn the thread state `before` into `after` and
    /// give `value`, `None` for an error.
    spec fn extracts(
        before: ThreadStateView,
        obj: usize,
        reply: Self::Reply,
        value: Option<Self>,
        after: ThreadStateView,
    ) -> bool;

    /// What to ask the interpreter about `obj`.
    fn query(ts: &ThreadState<'py>, obj: &Borrowed<'_, 'py, PyAny>) -> (r: Option<
        SysQuery<'static>,
    >)
        ensures
            query_view(r) == Self::asks(ts@.none, obj.addr()),
    ;

    /// Extract the value, given the reply.
    fn extract(
        ts: &mut ThreadState<'py>,
        obj: &Borrowed<'_, 'py, PyAny>,
        reply: Self::Reply,
    ) -> (r: PyResult<Self>)
        requires
            Self::answers(old(ts)@, obj.addr(), reply),
        ensures
            Self::extracts(old(ts)@, obj.addr(), reply, ok_of(r), final(ts)@),
            r is Err ==> final(ts)@.pending is Some,
    ;
}

/// The value of a result, `None` for an error.
pub open spec fn ok_of<T>(r: PyResult<T>) -> Option<T> {
    match r {
        Ok(v) => Some(v),
        Err(_) => None,
    }
}

/// Convert a Rust value into a Python object.
pub trait IntoPyObject<'py>: Sized {
    /// What is asked of the interpreter.
    spec fn asks(&self) -> Option<SysQueryView>;

    /// Whether conversion may turn the thread state `before` into `after` and
    /// give the object at `value`, `None` for an error.
    spec fn converts(
        &self,
        before: ThreadStateView,
        reply: usize,
        value: Option<usize>,
        after: ThreadStateView,
    ) -> bool;

    /// What to ask the interpreter for.
    fn query(&self) -> (r: Option<SysQuery<'_>>)
        ensures
            query_view(r) == self.asks(),
    ;

    /// Convert the value. `reply` is the address of the object that the
    /// interpreter made, zero where it failed; without a query it is not
    /// looked at.
    fn into_pyobject(self, ts: &mut ThreadState<'py>, reply: usize) -> (r: PyResult<
        Bound<'py, PyAny>,
    >)
        requires
            self.asks() is Some && reply == 0 ==> old(ts)@.pending is Some,
        ensures
            self.converts(old(ts)@, reply, addr_of(r), final(ts)@),
            r is Err ==> final(ts)@.pending is Some,
    ;
}

/// The address of the object of a result, `None` for an error.
pub open spec fn addr_of<T>(r: PyResult<Bound<'_, T>>) -> Option<usize> {
    match r {
        Ok(b) => Some(b.addr()),
        Err(_) => None,
    }
}

/// The object that a reply stands for, and a thread state that stays as it is.
pub open spec fn taken(
    before: ThreadStateView,
    reply: usize,
    value: Option<usize>,
    after: ThreadStateView,
) -> bool {
    &&& after == before
    &&& value == if reply != 0 {
        Some(reply)
    } else {
        None
    }
}

/// The address of `None`.
pub fn none_ptr(ts: &ThreadState<'_>) -> (r: usize)
    ensures
        r == ts@.none,
        r != 0,
{
    ts.none_ptr()
}

/// Take ownership of what a C call returned, or take note that it failed.
pub fn owned_or_raised<'py>(ts: &ThreadState<'py>, ptr: usize) -> (r: PyResult<Bound<'py, PyAny>>)
    requires
        ptr == 0 ==> ts@.pending is Some,
    ensures
        r is Ok <==> ptr != 0,
        r matches Ok(b) ==> b.addr() == ptr,
{
    if ptr != 0 {
        Ok(Bound::from_owned_ptr(ts, ptr))
    } else {
        Err(PyErrRaised::assume_set(ts))
    }
}

/// What `PyLong_AsLongLong` gave. Minus one can be a value, or the sign of a
/// failure.
pub fn extract_i64(ts: &ThreadState<'_>, reply: i64) -> (r: PyResult<i64>)
    ensures
        r is Err <==> reply == -1 && ts@.pending is Some,
        r matches Ok(v) ==> v == reply,
{
    if reply == -1 && ts.exception_set() {
        return Err(PyErrRaised::assume_set(ts));
    }
    Ok(reply)
}

pub const OUT_OF_INT: &'static str = "Python int out of range for C int";

pub const OUT_OF_UINT: &'static str = "Python int out of range for C unsigned int";

impl<'py> FromPyObject<'py> for i32 {
    type Reply = i64;

    open spec fn asks(none: usize, obj: usize) -> Option<SysQueryView> {
        Some(SysQueryView::LongAsLongLong(obj))
    }

    open spec fn answers(ts: ThreadStateView, obj: usize, reply: i64) -> bool {
        true
    }

    open spec fn extracts(
        before: ThreadStateView,
        obj: usize,
        reply: i64,
        value: Option<i32>,
        after: ThreadStateView,
    ) -> bool {
        if reply == -1 && before.pending is Some {
            value is None && after == before
        } else if i32::MIN <= reply <= i32::MAX {
            value == Some(reply as i32) && after == before
        } else {
            value is None && after == before.raised(ExcType::OverflowError, until_nul(OUT_OF_INT@))
        }
    }

    fn query(ts: &ThreadState<'py>, obj: &Borrowed<'_, 'py, PyAny>) -> (r: Option<
        SysQuery<'static>,
    >) {
        Some(SysQuery::LongAsLongLong(obj.as_ptr()))
    }

    fn extract(ts: &mut ThreadState<'py>, obj: &Borrowed<'_, 'py, PyAny>, reply: i64) -> (r:
        PyResult<i32>)
    {
        let v: i64 = match extract_i64(ts, reply) {
            Ok(v) => v,
            Err(e) => {
                return Err(e);
            },
        };
        if -0x8000_0000 <= v && v <= 0x7fff_ffff {
            Ok(v as i32)
        } else {
            Err(PyOverflowError::raise(ts, OUT_OF_INT))
        }
    }
}

impl<'py> FromPyObject<'py> for u32 {
    type Reply = i64;

    open spec fn asks(none: usize, obj: usize) -> Option<SysQueryView> {
        Some(SysQueryView::LongAsLongLong(obj))
    }

    open spec fn answers(ts: ThreadStateView, obj: usize, reply: i64) -> bool {
        true
    }

    open spec fn extracts(
        before: ThreadStateView,
        obj: usize,
        reply: i64,
        value: Option<u32>,
        after: ThreadStateView,
    ) -> bool {
        if reply == -1 && before.pending is Some {
            value is None && after == before
        } else if 0 <= reply <= u32::MAX {
            value == Some(reply as u32) && after == before
        } else {
            value is None && after == before.raised(ExcType::OverflowError, until_nul(OUT_OF_UINT@))
        }
    }

    fn query(ts: &ThreadState<'py>, obj: &Borrowed<'_, 'py, PyAny>) -> (r: Option<
        SysQuery<'static>,
    >) {
        Some(SysQuery::LongAsLongLong(obj.as_ptr()))
    }

    fn extract(ts: &mut ThreadState<'py>, obj: &Borrowed<'_, 'py, PyAny>, reply: i64) -> (r:
        PyResult<u32>)
    {
        let v: i64 = match extract_i64(ts, reply) {
            Ok(v) => v,
            Err(e) => {
                return Err(e);
            },
        };
        if 0 <= v && v <= 0xffff_ffff {
            Ok(v as u32)
        } else {
            Err(PyOverflowError::raise(ts, OUT_OF_UINT))
        }
    }
}

impl<'py> FromPyObject<'py> for i64 {
    type Reply = i64;

    open spec fn asks(none: usize, obj: usize) -> Option<SysQueryView> {
        Some(SysQueryView::LongAsLongLong(obj))
    }

    open spec fn answers(ts: ThreadStateView, obj: usize, reply: i64) -> bool {
        true
    }

    open spec fn extracts(
        before: ThreadStateView,
        obj: usize,
        reply: i64,
        value: Option<i64>,
        after: ThreadStateView,
    ) -> bool {
        &&& after == before
        &&& value == if reply == -1 && before.pending is Some {
            None
        } else {
            Some(reply)
        }
    }

    fn query(ts: &ThreadState<'py>, obj: &Borrowed<'_, 'py, PyAny>) -> (r: Option<
        SysQuery<'static>,
    >) {
        Some(SysQuery::LongAsLongLong(obj.as_ptr()))
    }

    fn extract(ts: &mut ThreadState<'py>, obj: &Borrowed<'_, 'py, PyAny>, reply: i64) -> (r:
        PyResult<i64>)
    {
        extract_i64(ts, reply)
    }
}

impl<'py> FromPyObject<'py> for u64 {
    type Reply = u64;

    open spec fn asks(none: usize, obj: usize) -> Option<SysQueryView> {
        Some(SysQueryView::LongAsUnsignedLongLong(obj))
    }

    open spec fn answers(ts: ThreadStateView, obj: usize, reply: u64) -> bool {
        true
    }

    open spec fn extracts(
        before: ThreadStateView,
        obj: usize,
        reply: u64,
        value: Option<u64>,
        after: ThreadStateView,
    ) -> bool {
        &&& after == before
        &&& value == if reply == u64::MAX && before.pending is Some {
            None
        } else {
            Some(reply)
        }
    }

    fn query(ts: &ThreadState<'py>, obj: &Borrowed<'_, 'py, PyAny>) -> (r: Option<
        SysQuery<'static>,
    >) {
        Some(SysQuery::LongAsUnsignedLongLong(obj.as_ptr()))
    }

    fn extract(ts: &mut ThreadState<'py>, obj: &Borrowed<'_, 'py, PyAny>, reply: u64) -> (r:
        PyResult<u64>)
    {
        if reply == u64::MAX && ts.exception_set() {
            return Err(PyErrRaised::assume_set(ts));
        }
        Ok(reply)
    }
}

impl<'py> FromPyObject<'py> for isize {
    type Reply = isize;

    open spec fn asks(none: usize, obj: usize) -> Option<SysQueryView> {
        Some(SysQueryView::LongAsSsize(obj))
    }

    open spec fn answers(ts: ThreadStateView, obj: usize, reply: isize) -> bool {
        true
    }

    open spec fn extracts(
        before: ThreadStateView,
        obj: usize,
        reply: isize,
        value: Option<isize>,
        after: ThreadStateView,
    ) -> bool {
        &&& after == before
        &&& value == if reply == -1 && before.pending is Some {
            None
        } else {
            Some(reply)
        }
    }

    fn query(ts: &ThreadState<'py>, obj: &Borrowed<'_, 'py, PyAny>) -> (r: Option<
        SysQuery<'static>,
    >) {
        Some(SysQuery::LongAsSsize(obj.as_ptr()))
    }

    fn extract(ts: &mut ThreadState<'py>, obj: &Borrowed<'_, 'py, PyAny>, reply: isize) -> (r:
        PyResult<isize>)
    {
        if reply == -1 && ts.exception_set() {
            return Err(PyErrRaised::assume_set(ts));
        }
        Ok(reply)
    }
}

impl<'py> FromPyObject<'py> for usize {
    type Reply = usize;

    open spec fn asks(none: usize, obj: usize) -> Option<SysQueryView> {
        Some(SysQueryView::LongAsSize(obj))
    }

    open spec fn answers(ts: ThreadStateView, obj: usize, reply: usize) -> bool {
        true
    }

    open spec fn extracts(
        before: ThreadStateView,
        obj: usize,
        reply: usize,
        value: Option<usize>,
        after: ThreadStateView,
    ) -> bool {
        &&& after == before
        &&& value == if reply == usize::MAX && before.pending is Some {
            None
        } else {
            Some(reply)
        }
    }

    fn query(ts: &ThreadState<'py>, obj: &Borrowed<'_, 'py, PyAny>) -> (r: Option<
        SysQuery<'static>,
    >) {
        Some(SysQuery::LongAsSize(obj.as_ptr()))
    }

    fn extract(ts: &mut ThreadState<'py>, obj: &Borrowed<'_, 'py, PyAny>, reply: usize) -> (r:
        PyResult<usize>)
    {
        if reply == usize::MAX && ts.exception_set() {
            return Err(PyErrRaised::assume_set(ts));
        }
        Ok(reply)
    }
}

impl<'py> FromPyObject<'py> for bool {
    type Reply = i32;

    open spec fn asks(none: usize, obj: usize) -> Option<SysQueryView> {
        Some(SysQueryView::ObjectIsTrue(obj))
    }

    open spec fn answers(ts: ThreadStateView, obj: usize, reply: i32) -> bool {
        reply == -1 ==> ts.pending is Some
    }

    open spec fn extracts(
        before: ThreadStateView,
        obj: usize,
        reply: i32,
        value: Option<bool>,
        after: ThreadStateView,
    ) -> bool {
        &&& after == before
        &&& value == if reply == -1 {
            None
        } else {
            Some(reply != 0)
        }
    }

    fn query(ts: &ThreadState<'py>, obj: &Borrowed<'_, 'py, PyAny>) -> (r: Option<
        SysQuery<'static>,
    >) {
        Some(SysQuery::ObjectIsTrue(obj.as_ptr()))
    }

    fn extract(ts: &mut ThreadState<'py>, obj: &Borrowed<'_, 'py, PyAny>, reply: i32) -> (r:
        PyResult<bool>)
    {
        if reply == -1 {
            return Err(PyErrRaised::assume_set(ts));
        }
        Ok(reply != 0)
    }
}

/// The value inside an optional value, `None` where either is absent.
pub open spec fn flattened<T>(value: Option<Option<T>>) -> Option<T> {
    match value {
        Some(v) => v,
        None => None,
    }
}

/// Extract `None` as the absent value, and any other object as a `T`.
pub fn extract_option<'py, T: FromPyObject<'py>>(
    ts: &mut ThreadState<'py>,
    obj: &Borrowed<'_, 'py, PyAny>,
    reply: Option<T::Reply>,
) -> (r: PyResult<Option<T>>)
    requires
        obj.addr() == old(ts)@.none || (reply matches Some(inner) && T::answers(
            old(ts)@,
            obj.addr(),
            inner,
        )),
    ensures
        r matches Ok(None) <==> obj.addr() == old(ts)@.none,
        obj.addr() == old(ts)@.none ==> final(ts)@ == old(ts)@,
        obj.addr() != old(ts)@.none ==> T::extracts(
            old(ts)@,
            obj.addr(),
            reply->0,
            flattened(ok_of(r)),
            final(ts)@,
        ),
        r is Err ==> final(ts)@.pending is Some,
{
    if obj.as_ptr() == none_ptr(ts) {
        return Ok(None);
    }
    match reply {
        Some(inner) => match T::extract(ts, obj, inner) {
            Ok(v) => Ok(Some(v)),
            Err(e) => Err(e),
        },
        None => Ok(None),
    }
}

/// `None` is the absent value; any other object is extracted as a `T`.
impl<'py, T: FromPyObject<'py>> FromPyObject<'py> for Option<T> {
    type Reply = Option<T::Reply>;

    open spec fn asks(none: usize, obj: usize) -> Option<SysQueryView> {
        if obj == none {
            None
        } else {
            T::asks(none, obj)
        }
    }

    open spec fn answers(ts: ThreadStateView, obj: usize, reply: Option<T::Reply>) -> bool {
        obj == ts.none || (reply matches Some(inner) && T::answers(ts, obj, inner))
    }

    open spec fn extracts(
        before: ThreadStateView,
        obj: usize,
        reply: Option<T::Reply>,
        value: Option<Option<T>>,
        after: ThreadStateView,
    ) -> bool {
        if obj == before.none {
            value == Some(None::<T>) && after == before
        } else {
            T::extracts(before, obj, reply->0, flattened(value), after) && value != Some(None::<T>)
        }
    }

    fn query(ts: &ThreadState<'py>, obj: &Borrowed<'_, 'py, PyAny>) -> (r: Option<
        SysQuery<'static>,
    >) {
        if obj.as_ptr() == none_ptr(ts) {
            None
        } else {
            T::query(ts, obj)
        }
    }

    fn extract(
        ts: &mut ThreadState<'py>,
        obj: &Borrowed<'_, 'py, PyAny>,
        reply: Option<T::Reply>,
    ) -> (r: PyResult<Option<T>>)
    {
        extract_option(ts, obj, reply)
    }
}

impl<'py> FromPyObject<'py> for Bound<'py, PyAny> {
    type Reply = ();

    open spec fn asks(none: usize, obj: usize) -> Option<SysQueryView> {
        None
    }

    open spec fn answers(ts: ThreadStateView, obj: usize, reply: ()) -> bool {
        true
    }

    open spec fn extracts(
        before: ThreadStateView,
        obj: usize,
        reply: (),
        value: Option<Bound<'py, PyAny>>,
        after: ThreadStateView,
    ) -> bool {
        &&& value matches Some(b) && b.addr() == obj
        &&& after == before.called(SysCall::IncRef(obj))
    }

    fn query(ts: &ThreadState<'py>, obj: &Borrowed<'_, 'py, PyAny>) -> (r: Option<
        SysQuery<'static>,
    >) {
        None
    }

    fn extract(ts: &mut ThreadState<'py>, obj: &Borrowed<'_, 'py, PyAny>, reply: ()) -> (r:
        PyResult<Bound<'py, PyAny>>)
    {
        Ok(obj.to_owned(ts))
    }
}

impl<'py> IntoPyObject<'py> for i8 {
    open spec fn asks(&self) -> Option<SysQueryView> {
        Some(SysQueryView::LongFromLongLong(*self as i64))
    }

    open spec fn converts(
        &self,
        before: ThreadStateView,
        reply: usize,
        value: Option<usize>,
        after: ThreadStateView,
    ) -> bool {
        taken(before, reply, value, after)
    }

    fn query(&self) -> (r: Option<SysQuery<'_>>) {
        Some(SysQuery::LongFromLongLong(*self as i64))
    }

    fn into_pyobject(self, ts: &mut ThreadState<'py>, reply: usize) -> (r: PyResult<
        Bound<'py, PyAny>,
    >) {
        owned_or_raised(ts, reply)
    }
}

impl<'py> IntoPyObject<'py> for i16 {
    open spec fn asks(&self) -> Option<SysQueryView> {
        Some(SysQueryView::LongFromLongLong(*self as i64))
    }

    open spec fn converts(
        &self,
        before: ThreadStateView,
        reply: usize,
        value: Option<usize>,
        after: ThreadStateView,
    ) -> bool {
        taken(before, reply, value, after)
    }

    fn query(&self) -> (r: Option<SysQuery<'_>>) {
        Some(SysQuery::LongFromLongLong(*self as i64))
    }

    fn into_pyobject(self, ts: &mut ThreadState<'py>, reply: usize) -> (r: PyResult<
        Bound<'py, PyAny>,
    >) {
        owned_or_raised(ts, reply)
    }
}

impl<'py> IntoPyObject<'py> for i32 {
    open spec fn asks(&self) -> Option<SysQueryView> {
        Some(SysQueryView::LongFromLongLong(*self as i64))
    }

    open spec fn converts(
        &self,
        before: ThreadStateView,
        reply: usize,
        value: Option<usize>,
        after: ThreadStateView,
    ) -> bool {
        taken(before, reply, value, after)
    }

    fn query(&self) -> (r: Option<SysQuery<'_>>) {
        Some(SysQuery::LongFromLongLong(*self as i64))
    }

    fn into_pyobject(self, ts: &mut ThreadState<'py>, reply: usize) -> (r: PyResult<
        Bound<'py, PyAny>,
    >) {
        owned_or_raised(ts, reply)
    }
}

impl<'py> IntoPyObject<'py> for i64 {
    open spec fn asks(&self) -> Option<SysQueryView> {
        Some(SysQueryView::LongFromLongLong(*self))
    }

    open spec fn converts(
        &self,
        before: ThreadStateView,
        reply: usize,
        value: Option<usize>,
        after: ThreadStateView,
    ) -> bool {
        taken(before, reply, value, after)
    }

    fn query(&self) -> (r: Option<SysQuery<'_>>) {
        Some(SysQuery::LongFromLongLong(*self))
    }

    fn into_pyobject(self, ts: &mut ThreadState<'py>, reply: usize) -> (r: PyResult<
        Bound<'py, PyAny>,
    >) {
        owned_or_raised(ts, reply)
    }
}

impl<'py> IntoPyObject<'py> for u8 {
    open spec fn asks(&self) -> Option<SysQueryView> {
        Some(SysQueryView::LongFromUnsignedLongLong(*self as u64))
    }

    open spec fn converts(
        &self,
        before: ThreadStateView,
        reply: usize,
        value: Option<usize>,
        after: ThreadStateView,
    ) -> bool {
        taken(before, reply, value, after)
    }

    fn query(&self) -> (r: Option<SysQuery<'_>>) {
        Some(SysQuery::LongFromUnsignedLongLong(*self as u64))
    }

    fn into_pyobject(self, ts: &mut ThreadState<'py>, reply: usize) -> (r: PyResult<
        Bound<'py, PyAny>,
    >) {
        owned_or_raised(ts, reply)
    }
}

impl<'py> IntoPyObject<'py> for u16 {
    open spec fn asks(&self) -> Option<SysQueryView> {
        Some(SysQueryView::LongFromUnsignedLongLong(*self as u64))
    }

    open spec fn converts(
        &self,
        before: ThreadStateView,
        reply: usize,
        value: Option<usize>,
        after: ThreadStateView,
    ) -> bool {
        taken(before, reply, value, after)
    }

    fn query(&self) -> (r: Option<SysQuery<'_>>) {
        Some(SysQuery::LongFromUnsignedLongLong(*self as u64))
    }

    fn into_pyobject(self, ts: &mut ThreadState<'py>, reply: usize) -> (r: PyResult<
        Bound<'py, PyAny>,
    >) {
        owned_or_raised(ts, reply)
    }
}

impl<'py> IntoPyObject<'py> for u32 {
    open spec fn asks(&self) -> Option<SysQueryView> {
        Some(SysQueryView::LongFromUnsignedLongLong(*self as u64))
    }

    open spec fn converts(
        &self,
        before: ThreadStateView,
        reply: usize,
        value: Option<usize>,
        after: ThreadStateView,
    ) -> bool {
        taken(before, reply, value, after)
    }

    fn query(&self) -> (r: Option<SysQuery<'_>>) {
        Some(SysQuery::LongFromUnsignedLongLong(*self as u64))
    }

    fn into_pyobject(self, ts: &mut ThreadState<'py>, reply: usize) -> (r: PyResult<
        Bound<'py, PyAny>,
    >) {
        owned_or_raised(ts, reply)
    }
}

impl<'py> IntoPyObject<'py> for u64 {
    open spec fn asks(&self) -> Option<SysQueryView> {
        Some(SysQueryView::LongFromUnsignedLongLong(*self))
    }

    open spec fn converts(
        &self,
        before: ThreadStateView,
        reply: usize,
        value: Option<usize>,
        after: ThreadStateView,
    ) -> bool {
        taken(before, reply, value, after)
    }

    fn query(&self) -> (r: Option<SysQuery<'_>>) {
        Some(SysQuery::LongFromUnsignedLongLong(*self))
    }

    fn into_pyobject(self, ts: &mut ThreadState<'py>, reply: usize) -> (r: PyResult<
        Bound<'py, PyAny>,
    >) {
        owned_or_raised(ts, reply)
    }
}

impl<'py> IntoPyObject<'py> for usize {
    open spec fn asks(&self) -> Option<SysQueryView> {
        Some(SysQueryView::LongFromUnsignedLongLong(*self as u64))
    }

    open spec fn converts(
        &self,
        before: ThreadStateView,
        reply: usize,
        value: Option<usize>,
        after: ThreadStateView,
    ) -> bool {
        taken(before, reply, value, after)
    }

    fn query(&self) -> (r: Option<SysQuery<'_>>) {
        Some(SysQuery::LongFromUnsignedLongLong(*self as u64))
    }

    fn into_pyobject(self, ts: &mut ThreadState<'py>, reply: usize) -> (r: PyResult<
        Bound<'py, PyAny>,
    >) {
        owned_or_raised(ts, reply)
    }
}

impl<'py> IntoPyObject<'py> for isize {
    open spec fn asks(&self) -> Option<SysQueryView> {
        Some(SysQueryView::LongFromSsize(*self))
    }

    open spec fn converts(
        &self,
        before: ThreadStateView,
        reply: usize,
        value: Option<usize>,
        after: ThreadStateView,
    ) -> bool {
        taken(before, reply, value, after)
    }

    fn query(&self) -> (r: Option<SysQuery<'_>>) {
        Some(SysQuery::LongFromSsize(*self))
    }

    fn into_pyobject(self, ts: &mut ThreadState<'py>, reply: usize) -> (r: PyResult<
        Bound<'py, PyAny>,
    >) {
        owned_or_raised(ts, reply)
    }
}

/// A truth value as a C number.
pub open spec fn bool_number(b: bool) -> i64 {
    if b {
        1
    } else {
        0
    }
}

impl<'py> IntoPyObject<'py> for bool {
    open spec fn asks(&self) -> Option<SysQueryView> {
        Some(SysQueryView::BoolFromLong(bool_number(*self)))
    }

    open spec fn converts(
        &self,
        before: ThreadStateView,
        reply: usize,
        value: Option<usize>,
        after: ThreadStateView,
    ) -> bool {
        taken(before, reply, value, after)
    }

    fn query(&self) -> (r: Option<SysQuery<'_>>) {
        Some(
            SysQuery::BoolFromLong(
                if *self {
                    1
                } else {
                    0
                },
            ),
        )
    }

    fn into_pyobject(self, ts: &mut ThreadState<'py>, reply: usize) -> (r: PyResult<
        Bound<'py, PyAny>,
    >) {
        owned_or_raised(ts, reply)
    }
}

impl<'py> IntoPyObject<'py> for &str {
    open spec fn asks(&self) -> Option<SysQueryView> {
        Some(SysQueryView::UnicodeFromStringAndSize((*self)@))
    }

    open spec fn converts(
        &self,
        before: ThreadStateView,
        reply: usize,
        value: Option<usize>,
        after: ThreadStateView,
    ) -> bool {
        taken(before, reply, value, after)
    }

    fn query(&self) -> (r: Option<SysQuery<'_>>) {
        Some(SysQuery::UnicodeFromStringAndSize(*self))
    }

    fn into_pyobject(self, ts: &mut ThreadState<'py>, reply: usize) -> (r: PyResult<
        Bound<'py, PyAny>,
    >) {
        owned_or_raised(ts, reply)
    }
}

impl<'py> IntoPyObject<'py> for String {
    open spec fn asks(&self) -> Option<SysQueryView> {
        Some(SysQueryView::UnicodeFromStringAndSize(self@))
    }

    open spec fn converts(
        &self,
        before: ThreadStateView,
        reply: usize,
        value: Option<usize>,
        after: ThreadStateView,
    ) -> bool {
        taken(before, reply, value, after)
    }

    fn query(&self) -> (r: Option<SysQuery<'_>>) {
        Some(SysQuery::UnicodeFromStringAndSize(self.as_str()))
    }

    fn into_pyobject(self, ts: &mut ThreadState<'py>, reply: usize) -> (r: PyResult<
        Bound<'py, PyAny>,
    >) {
        owned_or_raised(ts, reply)
    }
}

/// The unit value becomes `None`.
impl<'py> IntoPyObject<'py> for () {
    open spec fn asks(&self) -> Option<SysQueryView> {
        None
    }

    open spec fn converts(
        &self,
        before: ThreadStateView,
        reply: usize,
        value: Option<usize>,
        after: ThreadStateView,
    ) -> bool {
        value == Some(before.none) && after == before.called(SysCall::IncRef(before.none))
    }

    fn query(&self) -> (r: Option<SysQuery<'_>>) {
        None
    }

    fn into_pyobject(self, ts: &mut ThreadState<'py>, reply: usize) -> (r: PyResult<
        Bound<'py, PyAny>,
    >) {
        let none: usize = none_ptr(ts);
        incref(ts, none);
        Ok(Bound::from_owned_ptr(ts, none))
    }
}

impl<'py, T> IntoPyObject<'py> for Bound<'py, T> {
    open spec fn asks(&self) -> Option<SysQueryView> {
        None
    }

    open spec fn converts(
        &self,
        before: ThreadStateView,
        reply: usize,
        value: Option<usize>,
        after: ThreadStateView,
    ) -> bool {
        value == Some(self.addr()) && after == before
    }

    fn query(&self) -> (r: Option<SysQuery<'_>>) {
        None
    }

    fn into_pyobject(self, ts: &mut ThreadState<'py>, reply: usize) -> (r: PyResult<
        Bound<'py, PyAny>,
    >) {
        Ok(self.into_any())
    }
}

impl<'py, T> IntoPyObject<'py> for Py<T> {
    open spec fn asks(&self) -> Option<SysQueryView> {
        None
    }

    open spec fn converts(
        &self,
        before: ThreadStateView,
        reply: usize,
        value: Option<usize>,
        after: ThreadStateView,
    ) -> bool {
        value == Some(self.addr()) && after == before
    }

    fn query(&self) -> (r: Option<SysQuery<'_>>) {
        None
    }

    fn into_pyobject(self, ts: &mut ThreadState<'py>, reply: usize) -> (r: PyResult<
        Bound<'py, PyAny>,
    >) {
        Ok(self.into_bound(ts).into_any())
    }
}

impl<'py, T: IntoPyObject<'py>> IntoPyObject<'py> for Option<T> {
    open spec fn asks(&self) -> Option<SysQueryView> {
        match self {
            Some(v) => v.asks(),
            None => None,
        }
    }

    open spec fn converts(
        &self,
        before: ThreadStateView,
        reply: usize,
        value: Option<usize>,
        after: ThreadStateView,
    ) -> bool {
        match self {
            Some(v) => v.converts(before, reply, value, after),
            None => ().converts(before, reply, value, after),
        }
    }

    fn query(&self) -> (r: Option<SysQuery<'_>>) {
        match self {
            Some(v) => v.query(),
            None => None,
        }
    }

    fn into_pyobject(self, ts: &mut ThreadState<'py>, reply: usize) -> (r: PyResult<
        Bound<'py, PyAny>,
    >) {
        match self {
            Some(v) => v.into_pyobject(ts, reply),
            None => ().into_pyobject(ts, reply),
        }
    }
}

/// Return-value conversion for trampolines: accepts both plain values and
/// results of them.
pub trait IntoPyCallbackOutput<'py>: Sized {
    /// What is asked of the interpreter.
    spec fn output_asks(&self) -> Option<SysQueryView>;

    /// Whether conversion may turn the thread state `before` into `after` and
    /// give the object at `value`, `None` for an error.
    spec fn output_converts(
        &self,
        before: ThreadStateView,
        reply: usize,
        value: Option<usize>,
        after: ThreadStateView,
    ) -> bool;

    /// What to ask the interpreter for.
    fn output_query(&self) -> (r: Option<SysQuery<'_>>)
        ensures
            query_view(r) == self.output_asks(),
    ;

    /// Convert the value to the object that is handed to C.
    fn convert(self, ts: &mut ThreadState<'py>, reply: usize) -> (r: PyResult<usize>)
        requires
            self.output_asks() is Some && reply == 0 ==> old(ts)@.pending is Some,
        ensures
            self.output_converts(old(ts)@, reply, ok_of(r), final(ts)@),
            r matches Ok(ptr) ==> ptr != 0,
    ;
}

impl<'py, T: IntoPyObject<'py>> IntoPyCallbackOutput<'py> for T {
    open spec fn output_asks(&self) -> Option<SysQueryView> {
        self.asks()
    }

    open spec fn output_converts(
        &self,
        before: ThreadStateView,
        reply: usize,
        value: Option<usize>,
        after: ThreadStateView,
    ) -> bool {
        self.converts(before, reply, value, after)
    }

    fn output_query(&self) -> (r: Option<SysQuery<'_>>) {
        self.query()
    }

    fn convert(self, ts: &mut ThreadState<'py>, reply: usize) -> (r: PyResult<usize>) {
        match self.into_pyobject(ts, reply) {
            Ok(b) => Ok(b.into_ptr()),
            Err(e) => Err(e),
        }
    }
}

impl<'py, T: IntoPyObject<'py>> IntoPyCallbackOutput<'py> for PyResult<T> {
    open spec fn output_asks(&self) -> Option<SysQueryView> {
        match self {
            Ok(v) => v.asks(),
            Err(_) => None,
        }
    }

    open spec fn output_converts(
        &self,
        before: ThreadStateView,
        reply: usize,
        value: Option<usize>,
        after: ThreadStateView,
    ) -> bool {
        match self {
            Ok(v) => v.converts(before, reply, value, after),
            Err(_) => value is None && after == before,
        }
    }

    fn output_query(&self) -> (r: Option<SysQuery<'_>>) {
        match self {
            Ok(v) => v.query(),
            Err(_) => None,
        }
    }

    fn convert(self, ts: &mut ThreadState<'py>, reply: usize) -> (r: PyResult<usize>) {
        match self {
            Ok(v) => match v.into_pyobject(ts, reply) {
                Ok(b) => Ok(b.into_ptr()),
                Err(e) => Err(e),
            },
            Err(e) => Err(e),
        }
    }
}

pub const NO_EXCEPTION: &'static str = "callback returned an error without an exception set";

/// What a trampoline hands to C: the object, or zero together with a pending
/// exception. An error without an exception raises `SystemError`; an object
/// together with an exception is given back.
pub fn callback_output(ts: &mut ThreadState<'_>, result: PyResult<usize>) -> (r: usize)
    requires
        result matches Ok(ptr) ==> ptr != 0,
    ensures
        match result {
            Ok(ptr) => if old(ts)@.pending is None {
                r == ptr && final(ts)@ == old(ts)@
            } else {
                r == 0 && final(ts)@ == old(ts)@.called(SysCall::DecRef(ptr))
            },
            Err(_) => r == 0 && final(ts)@ == if old(ts)@.pending is None {
                old(ts)@.raised(ExcType::SystemError, until_nul(NO_EXCEPTION@))
            } else {
                old(ts)@
            },
        },
        r == 0 <==> final(ts)@.pending is Some,
{
    match result {
        Ok(ptr) => if ts.exception_set() {
            decref(ts, ptr);
            0
        } else {
            ptr
        },
        Err(_) => {
            if !ts.exception_set() {
                let _ = PySystemError::raise(ts, NO_EXCEPTION);
            }
            0
        },
    }
}

pub const PANICKED: &'static str = "a Rust callback panicked";

/// What a function that C calls hands to C after a panic: zero, together with a
/// fixed `SystemError`.
pub fn callback_panicked(ts: &mut ThreadState<'_>) -> (r: usize)
    ensures
        r == 0,
        final(ts)@ == old(ts)@.raised(ExcType::SystemError, until_nul(PANICKED@)),
{
    let _ = PySystemError::raise(ts, PANICKED);
    0
}

/// A number that was made into a Python int is extracted again as itself, as
/// long as no exception is pending: the interpreter is asked for an int of that
/// value, and its reply about such an int is that value.
pub proof fn law_i32_round_trip(
    v: i32,
    ts: ThreadStateView,
    obj: usize,
    value: Option<i32>,
    after: ThreadStateView,
)
    requires
        ts.pending is None,
    ensures
        v.asks() == Some(SysQueryView::LongFromLongLong(v as i64)),
        i32::extracts(ts, obj, v as i64, value, after) <==> value == Some(v) && after == ts,
{
}

/// The same holds of an unsigned number.
pub proof fn law_u32_round_trip(
    v: u32,
    ts: ThreadStateView,
    obj: usize,
    value: Option<u32>,
    after: ThreadStateView,
)
    requires
        ts.pending is None,
    ensures
        v.asks() == Some(SysQueryView::LongFromUnsignedLongLong(v as u64)),
        u32::extracts(ts, obj, v as i64, value, after) <==> value == Some(v) && after == ts,
{
}

/// The sentinels of the C conversions are ordinary values where no exception is
/// pending.
pub proof fn law_sentinels_are_values(ts: ThreadStateView, obj: usize)
    requires
        ts.pending is None,
    ensures
        i64::extracts(ts, obj, (-1) as i64, Some((-1) as i64), ts),
        u64::extracts(ts, obj, u64::MAX, Some(u64::MAX), ts),
        isize::extracts(ts, obj, (-1) as isize, Some((-1) as isize), ts),
        usize::extracts(ts, obj, usize::MAX, Some(usize::MAX), ts),
{
}

/// An absent value becomes `None`, and `None` is extracted as an absent value
/// without asking the interpreter.
pub proof fn law_none_round_trip<'py, T: FromPyObject<'py> + IntoPyObject<'py>>(
    before: ThreadStateView,
    reply: usize,
    addr: Option<usize>,
    after: ThreadStateView,
    answer: Option<T::Reply>,
    value: Option<Option<T>>,
)
    requires
        None::<T>.converts(before, reply, addr, after),
    ensures
        addr == Some(before.none),
        <Option<T> as FromPyObject<'py>>::asks(before.none, addr->0) is None,
        <Option<T> as FromPyObject<'py>>::extracts(after, addr->0, answer, value, after) <==> value
            == Some(None::<T>),
{
}

/// `None`, and nothing else, is extracted as an absent value; any other object
/// gives what a `T` is extracted as.
pub proof fn law_option_extract<'py, T: FromPyObject<'py>>(
    before: ThreadStateView,
    obj: usize,
    reply: Option<T::Reply>,
    value: Option<Option<T>>,
    after: ThreadStateView,
)
    requires
        <Option<T> as FromPyObject<'py>>::extracts(before, obj, reply, value, after),
    ensures
        value == Some(None::<T>) <==> obj == before.none,
        obj == before.none ==> after == before,
        obj != before.none ==> T::extracts(before, obj, reply->0, flattened(value), after),
{
}

} // verus!
