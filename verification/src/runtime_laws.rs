//! What handles, exceptions, buffers and the token do, call by call.

use vstd::prelude::*;
use vstd::utf8::*;
use crate::base64::laws::{decoded, law_round_trip};
use crate::base64::{
    base64_exec, encode_into, encoded_output_len, standard_b64encode, standard_b64encode_query, Base64State,
};
use crate::buffer::{releases, BufferReply, PyBuffer};
use crate::build_helper::gil_disabled;
use crate::class::payload_offset;
use crate::cstr::{const_cstr, CStr};
use crate::entry::RustEntryGuard;
use crate::err::{
    error_on_minus_one, raise_with_type, PyBufferError, PyEOFError, PyErrRaised, PyException,
    PyMemoryError, PyNotImplementedError, PyOverflowError, PyResult, PyRuntimeError, PySystemError,
    PyTypeError, PyValueError,
};
use crate::instance::{drop_ref, Borrowed, Bound, Py};
use crate::sys_calls::{decref, incref, ref_delta, SysCall, SysQuery, SysQueryView};
use crate::text::{occurs_in, until_nul};
use crate::text_laws::law_occurs;
use crate::threadstate::{ExcType, PendingView, ThreadState, ThreadStateView};
use crate::types::bytes::zeros;
use crate::types::{PyAny, PyBytes, PyModule, PyType};

verus! {

/// Whether the only difference is `by` more references to `obj`.
pub open spec fn counted(before: ThreadStateView, after: ThreadStateView, obj: usize, by: int) -> bool {
    &&& ref_delta(after.calls, obj) == ref_delta(before.calls, obj) + by
    &&& forall|other: usize|
        other != obj ==> #[trigger] ref_delta(after.calls, other) == ref_delta(before.calls, other)
    &&& after == (ThreadStateView { calls: after.calls, ..before })
}

proof fn lemma_counted(ts: ThreadStateView, obj: usize)
    ensures
        counted(ts, ts.called(SysCall::IncRef(obj)), obj, 1),
        counted(ts, ts.called(SysCall::DecRef(obj)), obj, -1),
{
    assert(ts.calls.push(SysCall::IncRef(obj)).drop_last() =~= ts.calls);
    assert(ts.calls.push(SysCall::DecRef(obj)).drop_last() =~= ts.calls);
}

/// A clone of a handle, or an owned handle from a lent one, stands for the same
/// object and for one more reference to it. Giving a handle back takes one away.
/// No other reference count changes.
pub proof fn law_references<'py, T>(
    lent: Borrowed<'_, 'py, T>,
    bound: Bound<'py, T>,
    stored: Py<T>,
    obj: usize,
    b: Bound<'py, T>,
    p: Py<T>,
)
    ensures
        forall|ts: &mut ThreadState<'py>| #[trigger]
            call_ensures(Borrowed::<'_, 'py, T>::to_owned, (&lent, ts), b) ==> b.addr()
                == lent.addr() && counted(ts@, final(ts)@, lent.addr(), 1),
        forall|ts: &mut ThreadState<'py>| #[trigger]
            call_ensures(Bound::<'py, T>::clone_ref, (&bound, ts), b) ==> b.addr() == bound.addr()
                && counted(ts@, final(ts)@, bound.addr(), 1),
        forall|ts: &mut ThreadState<'py>| #[trigger]
            call_ensures(Py::<T>::clone_ref, (&stored, ts), p) ==> p.addr() == stored.addr()
                && counted(ts@, final(ts)@, stored.addr(), 1),
        forall|ts: &mut ThreadState<'py>| #[trigger]
            call_ensures(Bound::<'py, T>::drop_with, (bound, ts), ()) ==> counted(
                ts@,
                final(ts)@,
                bound.addr(),
                -1,
            ),
        forall|ts: &mut ThreadState<'py>| #[trigger]
            call_ensures(Py::<T>::drop_with, (stored, ts), ()) ==> counted(
                ts@,
                final(ts)@,
                stored.addr(),
                -1,
            ),
        forall|ts: &mut ThreadState<'py>| #[trigger]
            call_ensures(incref, (ts, obj), ()) ==> counted(ts@, final(ts)@, obj, 1),
        forall|ts: &mut ThreadState<'py>| #[trigger]
            call_ensures(decref, (ts, obj), ()) ==> counted(ts@, final(ts)@, obj, -1),
{
    assert forall|ts: ThreadStateView, o: usize| #[trigger]
        ts.called(SysCall::IncRef(o)) == ts.called(SysCall::IncRef(o)) implies counted(
        ts,
        ts.called(SysCall::IncRef(o)),
        o,
        1,
    ) by {
        lemma_counted(ts, o);
    }
    assert forall|ts: ThreadStateView, o: usize| #[trigger]
        ts.called(SysCall::DecRef(o)) == ts.called(SysCall::DecRef(o)) implies counted(
        ts,
        ts.called(SysCall::DecRef(o)),
        o,
        -1,
    ) by {
        lemma_counted(ts, o);
    }
}

/// A handle stands for the same object in every form that it moves or is lent
/// through.
pub proof fn law_handles_keep_their_object<'py, T, U>(
    bound: Bound<'py, T>,
    stored: Py<T>,
    ts: &ThreadState<'py>,
    addr: usize,
    a: usize,
    p: Py<T>,
    any: Bound<'py, PyAny>,
    u: Bound<'py, U>,
    b: Bound<'py, T>,
)
    ensures
        call_ensures(Bound::<'py, T>::as_ptr, (&bound,), a) ==> a == bound.addr(),
        call_ensures(Bound::<'py, T>::into_ptr, (bound,), a) ==> a == bound.addr(),
        call_ensures(Py::<T>::as_ptr, (&stored,), a) ==> a == stored.addr(),
        call_ensures(Bound::<'py, T>::unbind, (bound,), p) ==> p.addr() == bound.addr(),
        call_ensures(Bound::<'py, T>::into_any, (bound,), any) ==> any.addr() == bound.addr(),
        call_ensures(Bound::<'py, T>::cast_unchecked::<U>, (bound,), u) ==> u.addr() == bound.addr(),
        call_ensures(Bound::<'py, T>::from_owned_ptr, (ts, addr), b) ==> b.addr() == addr,
        call_ensures(Py::<T>::into_bound, (stored, ts), b) ==> b.addr() == stored.addr(),
{
}

/// A handle that is dropped without a token gives its reference back exactly if
/// the thread is attached, and so does a buffer view.
pub proof fn law_dropped(ptr: usize, tls: usize, r: Option<SysCall>, yes: bool)
    ensures
        call_ensures(drop_ref, (ptr, tls), r) ==> r == if tls != 0 {
            Some(SysCall::DecRef(ptr))
        } else {
            None
        },
        call_ensures(releases, (tls,), yes) ==> (yes <==> tls != 0),
{
}

/// Whether the only difference is that this exception is pending, with a message
/// that is cut at its first NUL.
pub open spec fn only_raised(
    before: ThreadStateView,
    after: ThreadStateView,
    exc: ExcType,
    msg: Seq<char>,
) -> bool {
    &&& after.pending == Some(PendingView::Raised { exc, msg: until_nul(msg) })
    &&& after == (ThreadStateView { pending: after.pending, ..before })
}

/// Each raise helper makes the exception of its name pending, with its message,
/// in place of any other. A type object raises itself.
pub proof fn law_raising(msg: &str, exc: ExcType, r: PyErrRaised)
    ensures
        forall|ts: &mut ThreadState<'_>| #[trigger]
            call_ensures(raise_with_type, (ts, exc, msg), r) ==> only_raised(
                ts@,
                final(ts)@,
                exc,
                msg@,
            ),
        forall|ts: &mut ThreadState<'_>| #[trigger]
            call_ensures(PyException::raise, (ts, msg), r) ==> only_raised(
                ts@,
                final(ts)@,
                ExcType::Exception,
                msg@,
            ),
        forall|ts: &mut ThreadState<'_>| #[trigger]
            call_ensures(PyValueError::raise, (ts, msg), r) ==> only_raised(
                ts@,
                final(ts)@,
                ExcType::ValueError,
                msg@,
            ),
        forall|ts: &mut ThreadState<'_>| #[trigger]
            call_ensures(PyTypeError::raise, (ts, msg), r) ==> only_raised(
                ts@,
                final(ts)@,
                ExcType::TypeError,
                msg@,
            ),
        forall|ts: &mut ThreadState<'_>| #[trigger]
            call_ensures(PyOverflowError::raise, (ts, msg), r) ==> only_raised(
                ts@,
                final(ts)@,
                ExcType::OverflowError,
                msg@,
            ),
        forall|ts: &mut ThreadState<'_>| #[trigger]
            call_ensures(PyBufferError::raise, (ts, msg), r) ==> only_raised(
                ts@,
                final(ts)@,
                ExcType::BufferError,
                msg@,
            ),
        forall|ts: &mut ThreadState<'_>| #[trigger]
            call_ensures(PyEOFError::raise, (ts, msg), r) ==> only_raised(
                ts@,
                final(ts)@,
                ExcType::EOFError,
                msg@,
            ),
        forall|ts: &mut ThreadState<'_>| #[trigger]
            call_ensures(PyNotImplementedError::raise, (ts, msg), r) ==> only_raised(
                ts@,
                final(ts)@,
                ExcType::NotImplementedError,
                msg@,
            ),
        forall|ts: &mut ThreadState<'_>| #[trigger]
            call_ensures(PyMemoryError::raise, (ts, msg), r) ==> only_raised(
                ts@,
                final(ts)@,
                ExcType::MemoryError,
                msg@,
            ),
        forall|ts: &mut ThreadState<'_>| #[trigger]
            call_ensures(PyRuntimeError::raise, (ts, msg), r) ==> only_raised(
                ts@,
                final(ts)@,
                ExcType::RuntimeError,
                msg@,
            ),
        forall|ts: &mut ThreadState<'_>| #[trigger]
            call_ensures(PySystemError::raise, (ts, msg), r) ==> only_raised(
                ts@,
                final(ts)@,
                ExcType::SystemError,
                msg@,
            ),
{
}

/// A type object that is raised makes itself pending, owned or stored.
pub proof fn law_raising_objects<'py>(
    bound: Bound<'py, PyType>,
    stored: Py<PyType>,
    msg: &str,
    r: PyErrRaised,
)
    ensures
        forall|ts: &mut ThreadState<'py>| #[trigger]
            call_ensures(Bound::<'py, PyType>::raise, (&bound, ts, msg), r) ==> only_raised(
                ts@,
                final(ts)@,
                ExcType::Object(bound.addr()),
                msg@,
            ),
        forall|ts: &mut ThreadState<'py>| #[trigger]
            call_ensures(Py::<PyType>::raise, (&stored, ts, msg), r) ==> only_raised(
                ts@,
                final(ts)@,
                ExcType::Object(stored.addr()),
                msg@,
            ),
{
}

/// Minus one, and nothing else, is an error.
pub proof fn law_minus_one(ts: &ThreadState<'_>, ret: i32, r: PyResult<()>)
    requires
        call_ensures(error_on_minus_one, (ts, ret), r),
    ensures
        r is Err <==> ret == -1,
{
}

/// The token reads back what it was made of, holds the exception that it
/// observed or that was raised, and hands over each raised one once. Calls are
/// taken once, oldest first.
pub proof fn law_token<'py>(
    ptr: usize,
    none: usize,
    depth: usize,
    t: ThreadState<'py>,
    addr: usize,
    yes: bool,
    current: usize,
    handed: Option<(ExcType, String)>,
    calls: Vec<SysCall>,
)
    ensures
        call_ensures(ThreadState::<'py>::from_raw, (ptr, none, depth), t) ==> t@.ptr == ptr && t@.none
            == none && t@.pending is None && t@.calls.len() == 0 && (t@.permit <==> depth == 1),
        call_ensures(ThreadState::<'py>::current_unchecked, (ptr, none, depth), t) ==> t@.ptr == ptr
            && t@.none == none && t@.pending is None && t@.calls.len() == 0 && (t@.permit <==> depth
            == 1),
        call_ensures(ThreadState::<'py>::as_ptr, (&t,), addr) ==> addr == t@.ptr,
        call_ensures(ThreadState::<'py>::none_ptr, (&t,), addr) ==> addr == t@.none,
        call_ensures(ThreadState::<'py>::exception_set, (&t,), yes) ==> (yes <==> t@.pending is Some),
        call_ensures(ThreadState::<'py>::may_detach, (&t,), yes) ==> (yes <==> t@.permit),
        forall|ts: &mut ThreadState<'py>| #[trigger]
            call_ensures(ThreadState::<'py>::observe_exception, (ts, current), ()) ==> {
                &&& final(ts)@.pending is Some <==> current != 0
                &&& final(ts)@.pending matches Some(p) ==> p is Foreign
                &&& final(ts)@ == (ThreadStateView { pending: final(ts)@.pending, ..ts@ })
            },
        forall|ts: &mut ThreadState<'py>| #[trigger]
            call_ensures(ThreadState::<'py>::hand_over_exception, (ts,), handed) ==> {
                &&& handed is Some <==> (ts@.pending matches Some(PendingView::Raised { .. }))
                &&& handed matches Some((e, m)) ==> ts@.pending == Some(
                    PendingView::Raised { exc: e, msg: m@ },
                ) && final(ts)@.pending == Some(PendingView::Foreign)
                &&& handed is None ==> final(ts)@ == ts@
                &&& final(ts)@ == (ThreadStateView { pending: final(ts)@.pending, ..ts@ })
            },
        forall|ts: &mut ThreadState<'py>| #[trigger]
            call_ensures(ThreadState::<'py>::take_calls, (ts,), calls) ==> calls@ == ts@.calls
                && final(ts)@.calls.len() == 0 && final(ts)@ == (ThreadStateView {
                calls: final(ts)@.calls,
                ..ts@
            }),
{
}

/// An entry stores one more than it found and puts back what it found. It is the
/// outermost one exactly if it found none.
pub proof fn law_entries(stored: usize, g: RustEntryGuard, depth: usize, back: usize, outer: bool)
    requires
        call_ensures(RustEntryGuard::enter, (stored,), Some(g)),
        call_ensures(RustEntryGuard::depth, (&g,), depth),
        call_ensures(RustEntryGuard::leave, (&g,), back),
        call_ensures(RustEntryGuard::is_outermost, (&g,), outer),
    ensures
        depth == stored + 1,
        back == stored,
        outer <==> stored == 0,
{
}

/// Detaching without a permit fails with `RuntimeError`. With one it succeeds
/// with what `f` gave, after the thread state was detached and attached again,
/// and leaves the token as it was.
pub proof fn law_detach<'py, S, F, A, R>(save: S, f: F, restore: A, r: PyResult<R>)
    where
        S: FnOnce() -> usize,
        F: FnOnce() -> R + Send,
        A: FnOnce(usize),
        R: Send,
    ensures
        forall|ts: &mut ThreadState<'py>| #[trigger]
            call_ensures(ThreadState::<'py>::detach::<S, F, A, R>, (ts, save, f, restore), r) ==> {
                &&& r is Ok <==> ts@.permit
                &&& r is Err ==> (final(ts)@.pending matches Some(PendingView::Raised { exc, .. })
                    && exc == ExcType::RuntimeError) && final(ts)@ == (ThreadStateView {
                    pending: final(ts)@.pending,
                    ..ts@
                })
                &&& r matches Ok(out) ==> f.ensures((), out) && save.ensures((), ts@.ptr)
                    && restore.ensures((ts@.ptr,), ()) && final(ts)@ == ts@
            },
{
}

/// A C string is read from exactly the bytes that end in their only NUL, and
/// holds the others. It is text exactly if these encode one, and then that one.
pub proof fn law_c_strings(bytes: &[u8], r: Option<CStr>, c: CStr, t: Option<String>)
    ensures
        call_ensures(CStr::from_bytes_with_nul, (bytes,), r) ==> {
            &&& r is Some <==> exists|s: Seq<u8>| !s.contains(0u8) && bytes@ == #[trigger] s.push(0u8)
            &&& r matches Some(k) ==> bytes@ == k@.push(0u8)
        },
        call_ensures(const_cstr, (bytes,), c) && bytes@.len() > 0 && bytes@.last() == 0 ==> bytes@
            == c@.push(0u8),
        call_ensures(CStr::to_str, (&c,), t) ==> {
            &&& t matches Some(s) ==> encode_utf8(s@) == c@
            &&& t is None ==> forall|s: Seq<char>| #[trigger] encode_utf8(s) != c@
        },
{
    if call_ensures(CStr::from_bytes_with_nul, (bytes,), r) {
        if let Some(k) = r {
            assert(bytes@ =~= bytes@.drop_last().push(0u8));
            assert(!bytes@.drop_last().contains(0u8));
        }
        if exists|s: Seq<u8>| !s.contains(0u8) && bytes@ == #[trigger] s.push(0u8) {
            let s = choose|s: Seq<u8>| !s.contains(0u8) && bytes@ == #[trigger] s.push(0u8);
            assert forall|i: int| 0 <= i < bytes@.len() - 1 implies bytes@[i] != 0 by {
                assert(s[i] == bytes@[i]);
                assert(s.contains(s[i]));
            }
        }
    }
    if bytes@.len() > 0 && bytes@.last() == 0 {
        assert(bytes@ =~= bytes@.drop_last().push(0u8));
    }
    if valid_utf8(c@) {
        decode_utf8_encode_utf8(c@);
    }
    assert forall|s: Seq<char>| !valid_utf8(c@) implies #[trigger] encode_utf8(s) != c@ by {
        encode_utf8_valid_utf8(s);
    }
}

/// The payload starts at the first aligned place after the header.
pub proof fn law_payload_offset(header: usize, align: usize, r: usize)
    requires
        align > 0,
        call_ensures(payload_offset, (header, align), r),
    ensures
        header <= r,
        r % align == 0,
        forall|at: int| header <= at < r ==> #[trigger] (at % align as int) != 0,
{
    let a = align as int;
    assert forall|at: int| header <= at < r implies #[trigger] (at % a) != 0 by {
        if at % a == 0 {
            vstd::arithmetic::div_mod::lemma_fundamental_div_mod(at, a);
            vstd::arithmetic::div_mod::lemma_fundamental_div_mod(r as int, a);
            let (p, q) = (at / a, r as int / a);
            assert(q >= p + 1) by (nonlinear_arith)
                requires
                    a > 0,
                    a * p < a * q,
            ;
            assert(a * q >= a * p + a) by (nonlinear_arith)
                requires
                    a > 0,
                    q >= p + 1,
            ;
        }
    }
}

/// What the encoder writes can be read back to the input, and it has the length
/// that is asked for: four bytes for each started block of three, unless that
/// cannot be counted.
pub proof fn law_encoder(input: &[u8], n: usize, r: Option<usize>)
    ensures
        forall|output: &mut [u8]| #[trigger]
            call_ensures(encode_into, (input, output), ()) ==> decoded(final(output)@) == input@,
        call_ensures(encoded_output_len, (n,), r) ==> {
            &&& r matches Some(m) ==> m % 4 == 0 && m / 4 * 3 >= n && m / 4 * 3 < n + 3
            &&& r is None ==> (n + 2) / 3 * 4 > usize::MAX
        },
{
    law_round_trip(input@);
}

/// A view gives the bytes that the interpreter lent, and a refusal is an error.
pub proof fn law_buffers<'py>(
    ts: &ThreadState<'py>,
    obj: &Borrowed<'_, 'py, PyAny>,
    reply: BufferReply<'py>,
    q: SysQuery<'static>,
    r: PyResult<PyBuffer<'py>>,
    view: PyBuffer<'py>,
    bytes: &[u8],
    n: usize,
    empty: bool,
)
    ensures
        call_ensures(PyBuffer::<'py>::get_query, (obj,), q) ==> q@ == SysQueryView::GetSimpleBuffer(
            obj.addr(),
        ),
        call_ensures(PyBuffer::<'py>::get, (ts, reply), r) ==> {
            &&& r is Ok <==> reply.ret == 0
            &&& r matches Ok(v) ==> reply.len > 0 ==> v@ == reply.bytes->0@
            &&& r matches Ok(v) ==> reply.len == 0 ==> v@.len() == 0
        },
        call_ensures(PyBuffer::<'py>::as_bytes, (&view,), bytes) ==> bytes@ == view@,
        call_ensures(PyBuffer::<'py>::len, (&view,), n) ==> n == view@.len(),
        call_ensures(PyBuffer::<'py>::is_empty, (&view,), empty) ==> (empty <==> view@.len() == 0),
{
}

/// Bytes are asked for as they are, or as zeros of a given length; what the
/// interpreter made is taken as it is.
pub proof fn law_bytes<'py>(
    data: &[u8],
    q: SysQuery<'static>,
    ts: &ThreadState<'py>,
    reply: usize,
    r: PyResult<Bound<'py, PyBytes>>,
    len: usize,
    asked: PyResult<SysQuery<'static>>,
)
    ensures
        call_ensures(PyBytes::new_query, (data,), q) ==> (
        q@ matches SysQueryView::BytesFromStringAndSize { data: Some(d), len: n } && d == data@),
        call_ensures(PyBytes::new, (ts, reply), r) ==> (r is Err <==> reply == 0) && (r matches Ok(b)
            ==> b.addr() == reply),
        forall|t: &mut ThreadState<'py>| #[trigger]
            call_ensures(PyBytes::new_with_query, (t, len), asked) ==> {
                &&& asked is Ok <==> len <= isize::MAX
                &&& asked matches Ok(z) ==> z@ == (SysQueryView::BytesFromStringAndSize {
                    data: None,
                    len: len as isize,
                }) && final(t)@ == t@
                &&& asked is Err ==> (final(t)@.pending matches Some(PendingView::Raised { exc, .. })
                    && exc == ExcType::MemoryError)
            },
{
}

/// An attribute or a type is added to the module that is asked, under the name
/// and with the value that are given. Adding fails exactly if the interpreter
/// says so, and the reference to the value is given back either way.
pub proof fn law_modules<'py>(
    m: Bound<'py, PyModule>,
    name: &CStr,
    value: Bound<'py, PyAny>,
    ty: Bound<'py, PyType>,
    q: SysQuery<'static>,
    ret: i32,
    r: PyResult<()>,
    t: &ThreadState<'py>,
)
    ensures
        call_ensures(Bound::<'py, PyModule>::add_query, (&m, name, &value), q) ==> q@ == (
        SysQueryView::ModuleAddObjectRef { module: m.addr(), name: name@, value: value.addr() }),
        call_ensures(Bound::<'py, PyModule>::add_type_query, (&m, &ty), q) ==> q@ == (
        SysQueryView::ModuleAddType { module: m.addr(), ty: ty.addr() }),
        forall|ts: &mut ThreadState<'py>| #[trigger]
            call_ensures(Bound::<'py, PyModule>::add, (&m, ts, value, ret), r) ==> (r is Err <==> ret
                == -1) && final(ts)@.pending == ts@.pending && final(ts)@.calls == ts@.calls.push(
                SysCall::DecRef(value.addr()),
            ),
        call_ensures(Bound::<'py, PyModule>::add_type, (&m, t, ret), r) ==> (r is Err <==> ret == -1),
{
}

/// A new exception type is asked for under its name, with its base if there is
/// one, and what the interpreter made is taken as it is.
pub proof fn law_exception_types<'py>(
    qualname: &CStr,
    base: Bound<'py, PyType>,
    q: SysQuery<'static>,
    ts: &ThreadState<'py>,
    reply: usize,
    r: PyResult<Bound<'py, PyType>>,
)
    ensures
        call_ensures(PyType::new_exception_query, (qualname, Some(&base)), q) ==> q@ == (
        SysQueryView::ErrNewException { qualname: qualname@, base: base.addr() }),
        call_ensures(PyType::new_exception_query, (qualname, None), q) ==> q@ == (
        SysQueryView::ErrNewException { qualname: qualname@, base: 0 }),
        call_ensures(PyType::new_exception, (ts, reply), r) ==> (r is Err <==> reply == 0) && (
        r matches Ok(b) ==> b.addr() == reply),
{
}

/// The lock is off exactly if one of the files that could be read defines it so.
pub proof fn law_gil_disabled(configs: &[Option<String>], r: bool)
    requires
        call_ensures(gil_disabled, (configs,), r),
    ensures
        r <==> exists|i: int|
            0 <= i < configs@.len() && (#[trigger] configs@[i] matches Some(text) && exists|
                before: Seq<char>,
                rest: Seq<char>,
            |
                text@ == #[trigger] (before + "Py_GIL_DISABLED 1"@ + rest)),
{
    assert forall|i: int| 0 <= i < configs@.len() && #[trigger] configs@[i] is Some implies (
    occurs_in("Py_GIL_DISABLED 1"@, configs@[i]->0@) <==> exists|
        before: Seq<char>,
        rest: Seq<char>,
    |
        configs@[i]->0@ == #[trigger] (before + "Py_GIL_DISABLED 1"@ + rest)) by {
        law_occurs("Py_GIL_DISABLED 1"@, configs@[i]->0@);
    }
}

/// What the base-64 function puts into the object that the interpreter made can
/// be read back to the data, and the object is what it returns. The object is
/// asked for with four bytes for each started block of three. Without an object
/// it fails.
pub proof fn law_base64_call<'py>(
    state: Base64State,
    data: PyBuffer<'py>,
    reply: usize,
    r: PyResult<Bound<'py, PyBytes>>,
    q: PyResult<SysQuery<'static>>,
)
    ensures
        forall|ts: &mut ThreadState<'py>, payload: &mut [u8]| #[trigger]
            call_ensures(standard_b64encode, (ts, &state, &data, reply, payload), r) ==> {
                &&& r is Ok <==> reply != 0
                &&& r matches Ok(b) ==> b.addr() == reply && decoded(final(payload)@) == data@
                &&& final(ts)@ == ts@
            },
        forall|ts: &mut ThreadState<'py>| #[trigger]
            call_ensures(standard_b64encode_query, (ts, &data), q) ==> {
                &&& q is Ok <==> (data@.len() + 2) / 3 * 4 <= isize::MAX
                &&& q matches Ok(z) ==> z@ == (SysQueryView::BytesFromStringAndSize {
                    data: None,
                    len: ((data@.len() + 2) / 3 * 4) as isize,
                }) && final(ts)@ == ts@
                &&& q is Err ==> (final(ts)@.pending matches Some(PendingView::Raised { exc, .. })
                    && exc == ExcType::MemoryError)
            },
{
    law_round_trip(data@);
}

/// A bytes object that is filled succeeds exactly if there is one and filling it
/// does. It is filled from zeros. Where filling fails, its reference is given
/// back after all that filling did.
pub proof fn law_bytes_filled<'py, I>(reply: usize, init: I, r: PyResult<Bound<'py, PyBytes>>)
    where I: FnOnce(&mut ThreadState<'py>, &mut [u8]) -> PyResult<()>
    ensures
        forall|ts: &mut ThreadState<'py>, payload: &mut [u8]| #[trigger]
            call_ensures(PyBytes::new_with::<I>, (ts, reply, payload, init), r) ==> {
                &&& reply == 0 ==> r is Err && final(ts)@ == ts@ && final(payload)@ == payload@
                &&& r matches Ok(b) ==> reply != 0 && b.addr() == reply
                &&& reply != 0 ==> exists|t: &mut ThreadState<'py>, p: &mut [u8], out: PyResult<()>|
                    {
                        &&& #[trigger] init.ensures((t, p), out)
                        &&& t@ == ts@
                        &&& p@.len() == payload@.len()
                        &&& forall|i: int| 0 <= i < p@.len() ==> p@[i] == 0
                        &&& final(p)@ == final(payload)@
                        &&& r is Ok <==> out is Ok
                        &&& out is Ok ==> final(ts)@ == final(t)@
                        &&& out is Err ==> final(ts)@.calls == final(t)@.calls.push(
                            SysCall::DecRef(reply),
                        ) && final(ts)@.pending == final(t)@.pending
                    }
            },
{
    assert forall|n: nat| (#[trigger] zeros(n)).len() == n && forall|i: int|
        0 <= i < n ==> zeros(n)[i] == 0 by {}
}

/// What can be done with a lent module or type is what can be done with an owned
/// one, on the same object.
pub proof fn law_lent<'py>(
    m: Borrowed<'_, 'py, PyModule>,
    t: Borrowed<'_, 'py, PyType>,
    name: &CStr,
    value: Bound<'py, PyAny>,
    ty: Bound<'py, PyType>,
    q: SysQuery<'static>,
    ret: i32,
    r: PyResult<()>,
    ts: &ThreadState<'py>,
    msg: &str,
    e: PyErrRaised,
    a: usize,
)
    ensures
        call_ensures(Borrowed::<'_, 'py, PyModule>::as_ptr, (&m,), a) ==> a == m.addr(),
        call_ensures(Borrowed::<'_, 'py, PyModule>::add_query, (&m, name, &value), q) ==> q@ == (
        SysQueryView::ModuleAddObjectRef { module: m.addr(), name: name@, value: value.addr() }),
        call_ensures(Borrowed::<'_, 'py, PyModule>::add_type_query, (&m, &ty), q) ==> q@ == (
        SysQueryView::ModuleAddType { module: m.addr(), ty: ty.addr() }),
        forall|x: &mut ThreadState<'py>| #[trigger]
            call_ensures(Borrowed::<'_, 'py, PyModule>::add, (&m, x, value, ret), r) ==> (r is Err
                <==> ret == -1) && final(x)@.pending == x@.pending && final(x)@.calls
                == x@.calls.push(SysCall::DecRef(value.addr())),
        call_ensures(Borrowed::<'_, 'py, PyModule>::add_type, (&m, ts, ret), r) ==> (r is Err <==> ret
            == -1),
        forall|x: &mut ThreadState<'py>| #[trigger]
            call_ensures(Borrowed::<'_, 'py, PyType>::raise, (&t, x, msg), e) ==> only_raised(
                x@,
                final(x)@,
                ExcType::Object(t.addr()),
                msg@,
            ),
{
}

/// An entry is counted unless the number of entries cannot be.
pub proof fn law_entry_counted(stored: usize, r: Option<RustEntryGuard>)
    requires
        call_ensures(RustEntryGuard::enter, (stored,), r),
    ensures
        r is None <==> stored == usize::MAX,
{
}

/// A handle that is lent stands for the same object as the one it is lent from.
pub proof fn law_lending<'a, 'py, T>(
    addr: &'a usize,
    bound: &'a Bound<'py, T>,
    stored: &'a Py<T>,
    ts: &'a ThreadState<'py>,
    lent: Borrowed<'a, 'py, T>,
    any: Borrowed<'a, 'py, PyAny>,
)
    ensures
        call_ensures(Bound::<'py, T>::ref_from_ptr, (addr,), lent) ==> lent.addr() == *addr,
        call_ensures(Bound::<'py, T>::as_any, (bound,), any) ==> any.addr() == bound.addr(),
        call_ensures(Py::<T>::bind, (stored, ts), lent) ==> lent.addr() == stored.addr(),
{
}

/// The bytes of a C string are what it holds, and the module's own exec function
/// of `_base64` succeeds without doing anything.
pub proof fn law_plain(c: CStr, bytes: &[u8], m: &Borrowed<'_, '_, PyModule>, r: PyResult<()>)
    ensures
        call_ensures(CStr::to_bytes, (&c,), bytes) ==> bytes@ == c@,
        forall|ts: &mut ThreadState<'_>| #[trigger]
            call_ensures(base64_exec, (ts, m), r) ==> r is Ok && final(ts)@ == ts@,
{
}

} // verus!
