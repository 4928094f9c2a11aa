//! The bytes type.

use vstd::prelude::*;
use crate::err::{PyErrRaised, PyMemoryError, PyResult};
use crate::instance::Bound;
use crate::sys_calls::{SysCall, SysQuery, SysQueryView};
use crate::text::until_nul;
use crate::threadstate::{ExcType, ThreadState};
use crate::types::any::PyAny;

verus! {

/// The Python bytes type marker.
pub struct PyBytes(PyAny);

pub const TOO_LARGE: &'static str = "bytes object is too large";

impl PyBytes {
    /// What to ask for a bytes object that is a copy of `data`.
    pub fn new_query<'a>(data: &'a [u8]) -> (r: SysQuery<'a>)
        requires
            data@.len() <= isize::MAX,
        ensures
            r@ == (SysQueryView::BytesFromStringAndSize {
                data: Some(data@),
                len: data@.len() as isize,
            }),
    {
        SysQuery::BytesFromStringAndSize { data: Some(data), len: data.len() as isize }
    }

    /// Take the bytes object that the interpreter made, if `reply` is not
    /// zero.
    pub fn new<'py>(ts: &ThreadState<'py>, reply: usize) -> (r: PyResult<Bound<'py, PyBytes>>)
        requires
            reply == 0 ==> ts@.pending is Some,
        ensures
            r is Ok <==> reply != 0,
            r matches Ok(b) ==> b.addr() == reply,
    {
        if reply != 0 {
            Ok(Bound::from_owned_ptr(ts, reply))
        } else {
            Err(PyErrRaised::assume_set(ts))
        }
    }

    /// What to ask for a zeroed bytes object of length `len`, which is filled
    /// before anyone else sees it. More than a `Py_ssize_t` can count raises
    /// `MemoryError`.
    pub fn new_with_query(ts: &mut ThreadState<'_>, len: usize) -> (r: PyResult<SysQuery<'static>>)
        ensures
            if len > isize::MAX {
                r is Err && final(ts)@ == old(ts)@.raised(
                    ExcType::MemoryError,
                    until_nul(TOO_LARGE@),
                )
            } else {
                &&& r matches Ok(q)
                &&& q@ == (SysQueryView::BytesFromStringAndSize { data: None, len: len as isize })
                &&& final(ts)@ == old(ts)@
            },
    {
        if len > isize::MAX as usize {
            return Err(PyMemoryError::raise(ts, TOO_LARGE));
        }
        Ok(SysQuery::BytesFromStringAndSize { data: None, len: len as isize })
    }

    /// Take the bytes object that the interpreter made, if `reply` is not zero,
    /// and let `init` fill its memory, which is lent as `payload`. `init` finds
    /// it zeroed; where `init` fails, the object is given back.
    pub fn new_with<'py, I>(
        ts: &mut ThreadState<'py>,
        reply: usize,
        payload: &mut [u8],
        init: I,
    ) -> (r: PyResult<Bound<'py, PyBytes>>)
        where I: FnOnce(&mut ThreadState<'py>, &mut [u8]) -> PyResult<()>
        requires
            reply == 0 ==> old(ts)@.pending is Some,
            forall|t: &mut ThreadState<'py>, p: &mut [u8]|
                p@ == zeros(old(payload)@.len()) ==> #[trigger] init.requires((t, p)),
            forall|t: &mut ThreadState<'py>, p: &mut [u8], out: PyResult<()>|
                #[trigger] init.ensures((t, p), out) && out is Err ==> final(t)@.pending is Some,
        ensures
            reply == 0 ==> r is Err && final(ts)@ == old(ts)@ && final(payload)@ == old(payload)@,
            reply != 0 ==> exists|t: &mut ThreadState<'py>, p: &mut [u8], out: PyResult<()>|
                {
                    &&& #[trigger] init.ensures((t, p), out)
                    &&& t@ == old(ts)@
                    &&& p@ == zeros(old(payload)@.len())
                    &&& final(p)@ == final(payload)@
                    &&& r is Ok <==> out is Ok
                    &&& final(ts)@ == if out is Ok {
                        final(t)@
                    } else {
                        final(t)@.called(SysCall::DecRef(reply))
                    }
                },
            r matches Ok(b) ==> b.addr() == reply,
            r is Err ==> final(ts)@.pending is Some,
    {
        if reply == 0 {
            return Err(PyErrRaised::assume_set(ts));
        }
        let bytes: Bound<'py, PyBytes> = Bound::from_owned_ptr(ts, reply);
        fill_zeros(payload);
        match init(ts, payload) {
            Ok(()) => Ok(bytes),
            Err(e) => {
                bytes.drop_with(ts);
                Err(e)
            },
        }
    }
}

/// `n` zero bytes.
pub open spec fn zeros(n: nat) -> Seq<u8> {
    Seq::new(n, |i: int| 0u8)
}

fn fill_zeros(payload: &mut [u8])
    ensures
        final(payload)@ == zeros(old(payload)@.len()),
{
    let n: usize = payload.len();
    let mut i: usize = 0;
    while i < n
        invariant
            i <= n,
            n == payload@.len(),
            n == old(payload)@.len(),
            forall|j: int| 0 <= j < i ==> payload@[j] == 0,
        decreases n - i,
    {
        payload[i] = 0;
        i = i + 1;
    }
    assert(payload@ =~= zeros(n as nat));
}

} // verus!
