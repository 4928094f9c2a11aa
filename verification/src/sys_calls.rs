//! The calls that the interpreter is asked to make.
//!
//! Every effect on the interpreter is written down as one of these values.
//! The shell around this crate performs them with the C API and hands the
//! replies back.

use vstd::prelude::*;
use vstd::string::*;
use vstd::utf8::*;
use crate::cstr::CStr;
use crate::threadstate::ThreadState;

verus! {

/// A call without a reply, queued on the thread state.
#[derive(Clone, Copy, Debug, PartialEq, Eq, Structural)]
pub enum SysCall {
    /// `Py_IncRef`.
    IncRef(usize),
    /// `Py_DecRef`.
    DecRef(usize),
}

/// A call with a reply. The reply is handed to the function that finishes the
/// operation.
#[derive(Clone, Copy, Debug)]
pub enum SysQuery<'a> {
    /// `PyErr_NewException`; a zero `base` stands for the default one.
    ErrNewException { qualname: &'a CStr, base: usize },
    /// `PyBytes_FromStringAndSize`; without `data` the contents are zeroed
    /// rather than copied.
    BytesFromStringAndSize { data: Option<&'a [u8]>, len: isize },
    /// `PyObject_GetBuffer` with `PyBUF_SIMPLE`.
    GetSimpleBuffer(usize),
    /// `PyLong_AsLongLong`.
    LongAsLongLong(usize),
    /// `PyLong_AsUnsignedLongLong`.
    LongAsUnsignedLongLong(usize),
    /// `PyLong_AsSsize_t`.
    LongAsSsize(usize),
    /// `PyLong_AsSize_t`.
    LongAsSize(usize),
    /// `PyLong_FromLongLong`.
    LongFromLongLong(i64),
    /// `PyLong_FromUnsignedLongLong`.
    LongFromUnsignedLongLong(u64),
    /// `PyLong_FromSsize_t`.
    LongFromSsize(isize),
    /// `PyObject_IsTrue`.
    ObjectIsTrue(usize),
    /// `PyBool_FromLong`.
    BoolFromLong(i64),
    /// `PyUnicode_FromStringAndSize`.
    UnicodeFromStringAndSize(&'a str),
    /// `PyModule_AddObjectRef`.
    ModuleAddObjectRef { module: usize, name: &'a CStr, value: usize },
    /// `PyModule_AddType`.
    ModuleAddType { module: usize, ty: usize },
    /// `PyModule_GetState`.
    ModuleGetState(usize),
}

/// What a [`SysQuery`] asks.
pub ghost enum SysQueryView {
    ErrNewException { qualname: Seq<u8>, base: usize },
    BytesFromStringAndSize { data: Option<Seq<u8>>, len: isize },
    GetSimpleBuffer(usize),
    LongAsLongLong(usize),
    LongAsUnsignedLongLong(usize),
    LongAsSsize(usize),
    LongAsSize(usize),
    LongFromLongLong(i64),
    LongFromUnsignedLongLong(u64),
    LongFromSsize(isize),
    ObjectIsTrue(usize),
    BoolFromLong(i64),
    UnicodeFromStringAndSize(Seq<char>),
    ModuleAddObjectRef { module: usize, name: Seq<u8>, value: usize },
    ModuleAddType { module: usize, ty: usize },
    ModuleGetState(usize),
}

impl<'a> View for SysQuery<'a> {
    type V = SysQueryView;

    open spec fn view(&self) -> SysQueryView {
        match self {
            SysQuery::ErrNewException { qualname, base } => SysQueryView::ErrNewException {
                qualname: qualname@,
                base: *base,
            },
            SysQuery::BytesFromStringAndSize { data, len } => SysQueryView::BytesFromStringAndSize {
                data: match data {
                    Some(d) => Some(d@),
                    None => None,
                },
                len: *len,
            },
            SysQuery::GetSimpleBuffer(o) => SysQueryView::GetSimpleBuffer(*o),
            SysQuery::LongAsLongLong(o) => SysQueryView::LongAsLongLong(*o),
            SysQuery::LongAsUnsignedLongLong(o) => SysQueryView::LongAsUnsignedLongLong(*o),
            SysQuery::LongAsSsize(o) => SysQueryView::LongAsSsize(*o),
            SysQuery::LongAsSize(o) => SysQueryView::LongAsSize(*o),
            SysQuery::LongFromLongLong(v) => SysQueryView::LongFromLongLong(*v),
            SysQuery::LongFromUnsignedLongLong(v) => SysQueryView::LongFromUnsignedLongLong(*v),
            SysQuery::LongFromSsize(v) => SysQueryView::LongFromSsize(*v),
            SysQuery::ObjectIsTrue(o) => SysQueryView::ObjectIsTrue(*o),
            SysQuery::BoolFromLong(v) => SysQueryView::BoolFromLong(*v),
            SysQuery::UnicodeFromStringAndSize(s) => SysQueryView::UnicodeFromStringAndSize(s@),
            SysQuery::ModuleAddObjectRef { module, name, value } => SysQueryView::ModuleAddObjectRef {
                module: *module,
                name: name@,
                value: *value,
            },
            SysQuery::ModuleAddType { module, ty } => SysQueryView::ModuleAddType {
                module: *module,
                ty: *ty,
            },
            SysQuery::ModuleGetState(m) => SysQueryView::ModuleGetState(*m),
        }
    }
}

/// What an optional query asks.
pub open spec fn query_view(q: Option<SysQuery<'_>>) -> Option<SysQueryView> {
    match q {
        Some(q) => Some(q@),
        None => None,
    }
}

/// How many references to `obj` a list of calls adds (negative where it takes
/// some away).
pub open spec fn ref_delta(calls: Seq<SysCall>, obj: usize) -> int
    decreases calls.len(),
{
    if calls.len() == 0 {
        0
    } else {
        ref_delta(calls.drop_last(), obj) + match calls.last() {
            SysCall::IncRef(o) => if o == obj {
                1int
            } else {
                0
            },
            SysCall::DecRef(o) => if o == obj {
                -1int
            } else {
                0
            },
        }
    }
}

/// Add a strong reference to `obj`.
pub fn incref(ts: &mut ThreadState<'_>, obj: usize)
    ensures
        final(ts)@ == old(ts)@.called(SysCall::IncRef(obj)),
{
    ts.queue(SysCall::IncRef(obj));
}

/// Give a strong reference to `obj` back.
pub fn decref(ts: &mut ThreadState<'_>, obj: usize)
    ensures
        final(ts)@ == old(ts)@.called(SysCall::DecRef(obj)),
{
    ts.queue(SysCall::DecRef(obj));
}

/// Whether the Python string `text` is pure ASCII and its bytes are `name`.
pub open spec fn unicode_is_ascii_name(text: Seq<char>, name: Seq<u8>) -> bool {
    is_ascii_chars(text) && encode_utf8(text) == name
}

/// Compare a Python string with an ASCII C string. A string that is not pure
/// ASCII equals none.
pub fn unicode_eq_ascii(text: &str, name: &CStr) -> (r: bool)
    ensures
        r == unicode_is_ascii_name(text@, name@),
{
    if !text.is_ascii() {
        return false;
    }
    let a: &[u8] = text.as_bytes();
    let b: &[u8] = name.to_bytes();
    if a.len() != b.len() {
        return false;
    }
    let mut i: usize = 0;
    while i < a.len()
        invariant
            a@ == encode_utf8(text@),
            b@ == name@,
            a@.len() == b@.len(),
            i <= a@.len(),
            a@.take(i as int) == b@.take(i as int),
        decreases a@.len() - i,
    {
        if a[i] != b[i] {
            return false;
        }
        assert(a@.take(i + 1) =~= a@.take(i as int).push(a@[i as int]));
        assert(b@.take(i + 1) =~= b@.take(i as int).push(b@[i as int]));
        i = i + 1;
    }
    assert(a@.take(i as int) =~= a@);
    assert(b@.take(i as int) =~= b@);
    true
}

} // verus!
