//! What conversions between Python objects and Rust values give.

use vstd::prelude::*;
use crate::buffer::{BufferReply, PyBuffer};
use crate::conversion::{
    callback_output, callback_panicked, extract_i64, extract_option, none_ptr, owned_or_raised, FromPyObject,
    IntoPyCallbackOutput, IntoPyObject, OUT_OF_INT, OUT_OF_UINT,
};
use crate::err::PyResult;
use crate::instance::{Borrowed, Bound, Py};
use crate::sys_calls::{SysCall, SysQueryView};
use crate::text::until_nul;
use crate::threadstate::{ExcType, PendingView, ThreadState, ThreadStateView};
use crate::types::PyAny;

verus! {

/// A truth value that was made into a Python bool is extracted again as itself:
/// the interpreter is asked for the bool of one or of zero, and its reply about
/// a true object is one and about a false object zero. A reply of minus one is a
/// failure.
pub proof fn law_bool_round_trip(
    b: bool,
    ts: ThreadStateView,
    obj: usize,
    value: Option<bool>,
    after: ThreadStateView,
)
    ensures
        b ==> b.asks() == Some(SysQueryView::BoolFromLong(1)),
        !b ==> b.asks() == Some(SysQueryView::BoolFromLong(0)),
        <bool as FromPyObject>::asks(ts.none, obj) == Some(SysQueryView::ObjectIsTrue(obj)),
        bool::extracts(ts, obj, 1, value, after) <==> value == Some(true) && after == ts,
        bool::extracts(ts, obj, 0, value, after) <==> value == Some(false) && after == ts,
        bool::extracts(ts, obj, -1i32, value, after) <==> value is None && after == ts,
        forall|reply: i32|
            reply > 0 && #[trigger] bool::extracts(ts, obj, reply, value, after) ==> value == Some(
                true,
            ),
{
}

/// A Python int is extracted as its value where the type can hold it, and
/// otherwise refused with `OverflowError`. What the interpreter refuses stays
/// refused, with its own exception.
pub proof fn law_small_ints(ts: ThreadStateView, obj: usize, reply: i64, after: ThreadStateView)
    ensures
        <i32 as FromPyObject>::asks(ts.none, obj) == Some(SysQueryView::LongAsLongLong(obj)),
        <u32 as FromPyObject>::asks(ts.none, obj) == Some(SysQueryView::LongAsLongLong(obj)),
        reply == -1 && ts.pending is Some ==> {
            &&& forall|v: Option<i32>| #[trigger]
                i32::extracts(ts, obj, reply, v, after) <==> v is None && after == ts
            &&& forall|v: Option<u32>| #[trigger]
                u32::extracts(ts, obj, reply, v, after) <==> v is None && after == ts
        },
        !(reply == -1 && ts.pending is Some) ==> {
            &&& -0x8000_0000 <= reply <= 0x7fff_ffff ==> forall|v: Option<i32>| #[trigger]
                i32::extracts(ts, obj, reply, v, after) <==> (v matches Some(n) && n == reply)
                    && after == ts
            &&& !(-0x8000_0000 <= reply <= 0x7fff_ffff) ==> forall|v: Option<i32>| #[trigger]
                i32::extracts(ts, obj, reply, v, after) <==> v is None && after == ts.raised(
                    ExcType::OverflowError,
                    until_nul(OUT_OF_INT@),
                )
            &&& 0 <= reply <= 0xffff_ffff ==> forall|v: Option<u32>| #[trigger]
                u32::extracts(ts, obj, reply, v, after) <==> (v matches Some(n) && n == reply)
                    && after == ts
            &&& !(0 <= reply <= 0xffff_ffff) ==> forall|v: Option<u32>| #[trigger]
                u32::extracts(ts, obj, reply, v, after) <==> v is None && after == ts.raised(
                    ExcType::OverflowError,
                    until_nul(OUT_OF_UINT@),
                )
        },
{
}

/// The reply of the interpreter is the value, with the thread state unchanged,
/// unless it is the one that marks a failure and an exception is pending.
pub proof fn law_wide_ints(
    ts: ThreadStateView,
    obj: usize,
    a: i64,
    b: u64,
    c: isize,
    d: usize,
    after: ThreadStateView,
)
    ensures
        <i64 as FromPyObject>::asks(ts.none, obj) == Some(SysQueryView::LongAsLongLong(obj)),
        <u64 as FromPyObject>::asks(ts.none, obj) == Some(SysQueryView::LongAsUnsignedLongLong(obj)),
        <isize as FromPyObject>::asks(ts.none, obj) == Some(SysQueryView::LongAsSsize(obj)),
        <usize as FromPyObject>::asks(ts.none, obj) == Some(SysQueryView::LongAsSize(obj)),
        forall|v: Option<i64>| #[trigger]
            i64::extracts(ts, obj, a, v, after) <==> after == ts && (if a == -1 && ts.pending is Some {
                v is None
            } else {
                v == Some(a)
            }),
        forall|v: Option<u64>| #[trigger]
            u64::extracts(ts, obj, b, v, after) <==> after == ts && (if b == u64::MAX
                && ts.pending is Some {
                v is None
            } else {
                v == Some(b)
            }),
        forall|v: Option<isize>| #[trigger]
            isize::extracts(ts, obj, c, v, after) <==> after == ts && (if c == -1
                && ts.pending is Some {
                v is None
            } else {
                v == Some(c)
            }),
        forall|v: Option<usize>| #[trigger]
            usize::extracts(ts, obj, d, v, after) <==> after == ts && (if d == usize::MAX
                && ts.pending is Some {
                v is None
            } else {
                v == Some(d)
            }),
{
}

/// Any object is extracted as a handle of itself, with a reference of its own.
pub proof fn law_any_extracted<'py>(
    ts: ThreadStateView,
    obj: usize,
    value: Option<Bound<'py, PyAny>>,
    after: ThreadStateView,
)
    ensures
        <Bound<'py, PyAny> as FromPyObject<'py>>::asks(ts.none, obj) is None,
        Bound::<'py, PyAny>::extracts(ts, obj, (), value, after) ==> {
            &&& value matches Some(b)
            &&& value->0.addr() == obj
            &&& after == ts.called(SysCall::IncRef(obj))
        },
{
}

/// The interpreter is asked for an int of the value itself, whatever its type.
pub proof fn law_ints_become_objects(
    a: i8,
    b: i16,
    c: i32,
    d: i64,
    e: u8,
    f: u16,
    g: u32,
    h: u64,
    i: isize,
    j: usize,
)
    ensures
        a.asks() == Some(SysQueryView::LongFromLongLong(a as i64)),
        b.asks() == Some(SysQueryView::LongFromLongLong(b as i64)),
        c.asks() == Some(SysQueryView::LongFromLongLong(c as i64)),
        d.asks() == Some(SysQueryView::LongFromLongLong(d)),
        e.asks() == Some(SysQueryView::LongFromUnsignedLongLong(e as u64)),
        f.asks() == Some(SysQueryView::LongFromUnsignedLongLong(f as u64)),
        g.asks() == Some(SysQueryView::LongFromUnsignedLongLong(g as u64)),
        h.asks() == Some(SysQueryView::LongFromUnsignedLongLong(h)),
        i.asks() == Some(SysQueryView::LongFromSsize(i)),
        j.asks() == Some(SysQueryView::LongFromUnsignedLongLong(j as u64)),
{
}

/// Text is asked for as it is, borrowed or owned.
pub proof fn law_text_becomes_an_object(s: &str, t: String)
    ensures
        s.asks() == Some(SysQueryView::UnicodeFromStringAndSize(s@)),
        t.asks() == Some(SysQueryView::UnicodeFromStringAndSize(t@)),
{
}

/// Whether an object that was asked for is handed on: the reply itself, an
/// error where it is zero, and nothing else happens.
pub open spec fn hands_on(
    before: ThreadStateView,
    reply: usize,
    value: Option<usize>,
    after: ThreadStateView,
) -> bool {
    &&& reply != 0 ==> value == Some(reply)
    &&& reply == 0 ==> value is None
    &&& after == before
}

/// A value that the interpreter is asked for becomes just the object that it
/// replies.
pub proof fn law_replies_handed_on(
    ts: ThreadStateView,
    reply: usize,
    value: Option<usize>,
    after: ThreadStateView,
    a: i8,
    b: i16,
    c: i32,
    d: i64,
    e: u8,
    f: u16,
    g: u32,
    h: u64,
    i: isize,
    j: usize,
    k: bool,
    s: &str,
    t: String,
)
    ensures
        a.converts(ts, reply, value, after) <==> hands_on(ts, reply, value, after),
        b.converts(ts, reply, value, after) <==> hands_on(ts, reply, value, after),
        c.converts(ts, reply, value, after) <==> hands_on(ts, reply, value, after),
        d.converts(ts, reply, value, after) <==> hands_on(ts, reply, value, after),
        e.converts(ts, reply, value, after) <==> hands_on(ts, reply, value, after),
        f.converts(ts, reply, value, after) <==> hands_on(ts, reply, value, after),
        g.converts(ts, reply, value, after) <==> hands_on(ts, reply, value, after),
        h.converts(ts, reply, value, after) <==> hands_on(ts, reply, value, after),
        i.converts(ts, reply, value, after) <==> hands_on(ts, reply, value, after),
        j.converts(ts, reply, value, after) <==> hands_on(ts, reply, value, after),
        k.converts(ts, reply, value, after) <==> hands_on(ts, reply, value, after),
        s.converts(ts, reply, value, after) <==> hands_on(ts, reply, value, after),
        t.converts(ts, reply, value, after) <==> hands_on(ts, reply, value, after),
{
}

/// A handle becomes its own object without a call, its reference moves. The unit
/// value, and an absent one, become `None` with a reference of its own. A present
/// value becomes what it is.
pub proof fn law_handles_become_objects<'py, T, V: IntoPyObject<'py>>(
    ts: ThreadStateView,
    reply: usize,
    value: Option<usize>,
    after: ThreadStateView,
    b: Bound<'py, T>,
    p: Py<T>,
    v: V,
)
    ensures
        b.asks() is None && p.asks() is None && ().asks() is None && None::<V>.asks() is None,
        Some(v).asks() == v.asks(),
        b.converts(ts, reply, value, after) <==> value == Some(b.addr()) && after == ts,
        p.converts(ts, reply, value, after) <==> value == Some(p.addr()) && after == ts,
        ().converts(ts, reply, value, after) <==> value == Some(ts.none) && after == ts.called(
            SysCall::IncRef(ts.none),
        ),
        None::<V>.converts(ts, reply, value, after) <==> value == Some(ts.none) && after
            == ts.called(SysCall::IncRef(ts.none)),
        Some(v).converts(ts, reply, value, after) <==> v.converts(ts, reply, value, after),
{
}

/// What a function returns to Python is converted as the value, be it in a
/// result or not. An error asks for nothing, gives nothing and changes nothing.
pub proof fn law_results_converted<'py, V: IntoPyObject<'py>>(
    ts: ThreadStateView,
    reply: usize,
    value: Option<usize>,
    after: ThreadStateView,
    v: V,
    r: PyResult<V>,
)
    ensures
        v.output_asks() == v.asks(),
        v.output_converts(ts, reply, value, after) <==> v.converts(ts, reply, value, after),
        r matches Ok(w) ==> r.output_asks() == w.asks() && (r.output_converts(
            ts,
            reply,
            value,
            after,
        ) <==> w.converts(ts, reply, value, after)),
        r is Err ==> r.output_asks() is None && (r.output_converts(ts, reply, value, after)
            <==> value is None && after == ts),
{
}

/// A trampoline hands an object to C exactly where no exception is pending
/// afterwards. It hands out the object that it was given, and where it does not,
/// it gives its reference back. An error without an exception becomes
/// `SystemError`, and a pending exception is kept.
pub proof fn law_callback_output(result: PyResult<usize>, r: usize)
    ensures
        forall|ts: &mut ThreadState<'_>| #[trigger]
            call_ensures(callback_output, (ts, result), r) && (result matches Ok(p) ==> p != 0) ==> {
                &&& r == 0 <==> final(ts)@.pending is Some
                &&& r != 0 <==> result is Ok && ts@.pending is None
                &&& r != 0 ==> (result matches Ok(ptr) && r == ptr && final(ts)@ == ts@)
                &&& ts@.pending is Some ==> final(ts)@.pending == ts@.pending
                &&& ts@.pending is Some ==> match result {
                    Ok(ptr) => final(ts)@.calls == ts@.calls.push(SysCall::DecRef(ptr)),
                    Err(_) => final(ts)@.calls == ts@.calls,
                }
                &&& ts@.pending is None && result is Err ==> (final(ts)@.pending matches Some(
                    PendingView::Raised { exc, .. },
                ) && exc == ExcType::SystemError && final(ts)@.calls == ts@.calls)
            },
        forall|ts: &mut ThreadState<'_>| #[trigger]
            call_ensures(callback_panicked, (ts,), r) ==> r == 0 && (
            final(ts)@.pending matches Some(PendingView::Raised { exc, .. }) && exc
                == ExcType::SystemError && final(ts)@.calls == ts@.calls),
{
}

/// What a C call returned is owned as it is; a null pointer is an error. Minus
/// one is a number unless an exception is pending.
pub proof fn law_c_results<'py>(
    ts: &ThreadState<'py>,
    ptr: usize,
    o: PyResult<Bound<'py, PyAny>>,
    reply: i64,
    n: PyResult<i64>,
    none: usize,
)
    requires
        call_ensures(owned_or_raised, (ts, ptr), o),
        call_ensures(extract_i64, (ts, reply), n),
        call_ensures(none_ptr, (ts,), none),
    ensures
        ptr == 0 <==> o is Err,
        o matches Ok(b) ==> b.addr() == ptr,
        n is Err <==> reply == -1 && ts@.pending is Some,
        n matches Ok(v) ==> v == reply,
        none == ts@.none,
{
}

/// A buffer is asked of the object itself. A view is extracted exactly if the
/// interpreter gave one, with its bytes, and the thread state stays as it was.
pub proof fn law_buffer_extracted<'py>(
    ts: ThreadStateView,
    obj: usize,
    reply: BufferReply<'py>,
    value: Option<PyBuffer<'py>>,
    after: ThreadStateView,
)
    ensures
        <PyBuffer<'py> as FromPyObject<'py>>::asks(ts.none, obj) == Some(
            SysQueryView::GetSimpleBuffer(obj),
        ),
        PyBuffer::<'py>::extracts(ts, obj, reply, value, after) ==> {
            &&& after == ts
            &&& value is Some <==> reply.ret == 0
            &&& value matches Some(b) ==> reply.len > 0 ==> b@ == reply.bytes->0@
            &&& value matches Some(b) ==> reply.len == 0 ==> b@.len() == 0
        },
{
}

/// A number can be extracted whatever the interpreter replied, and a truth value
/// too, as long as a failure comes with an exception.
pub proof fn law_replies_accepted(
    ts: ThreadStateView,
    obj: usize,
    a: i64,
    b: u64,
    c: isize,
    d: usize,
    e: i32,
)
    ensures
        i32::answers(ts, obj, a) && u32::answers(ts, obj, a) && i64::answers(ts, obj, a),
        u64::answers(ts, obj, b) && isize::answers(ts, obj, c) && usize::answers(ts, obj, d),
        bool::answers(ts, obj, e) <==> (e == -1 ==> ts.pending is Some),
{
}

/// Only `None` is extracted as an absent value, without any change. Any other
/// object is extracted as a value, present exactly if that succeeds.
pub proof fn law_option_extracted<'py, T: FromPyObject<'py>>(
    obj: &Borrowed<'_, 'py, PyAny>,
    reply: Option<T::Reply>,
    r: PyResult<Option<T>>,
)
    ensures
        forall|ts: &mut ThreadState<'py>| #[trigger]
            call_ensures(extract_option::<T>, (ts, obj, reply), r) ==> {
                &&& (r matches Ok(None)) <==> obj.addr() == ts@.none
                &&& obj.addr() == ts@.none ==> final(ts)@ == ts@
                &&& obj.addr() != ts@.none ==> T::extracts(
                    ts@,
                    obj.addr(),
                    reply->0,
                    match r {
                        Ok(v) => v,
                        Err(_) => None,
                    },
                    final(ts)@,
                )
            },
{
}

} // verus!
