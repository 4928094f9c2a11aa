//! The explicit thread-state token.

use std::marker::PhantomData;
use std::rc::Rc;
use vstd::prelude::*;
use crate::entry::outermost;
use crate::err::{PyResult, PyRuntimeError};
use crate::sys_calls::SysCall;
use crate::text::until_nul;

verus! {

/// The type of an exception: a built-in one, or a type object by its address.
#[derive(Clone, Copy, Debug, PartialEq, Eq, Structural)]
pub enum ExcType {
    Exception,
    ValueError,
    TypeError,
    OverflowError,
    BufferError,
    EOFError,
    NotImplementedError,
    MemoryError,
    RuntimeError,
    SystemError,
    Object(usize),
}

/// An exception that is pending on a thread state.
#[derive(Debug)]
pub enum Pending {
    /// It lives in the interpreter.
    Foreign,
    /// It was raised here and still has to be handed to the interpreter.
    Raised { exc: ExcType, msg: String },
}

/// What a pending exception is.
pub ghost enum PendingView {
    Foreign,
    Raised { exc: ExcType, msg: Seq<char> },
}

impl View for Pending {
    type V = PendingView;

    open spec fn view(&self) -> PendingView {
        match self {
            Pending::Foreign => PendingView::Foreign,
            Pending::Raised { exc, msg } => PendingView::Raised { exc: *exc, msg: msg@ },
        }
    }
}

/// What a thread state is: its address, the address of `None`, whether it may be
/// detached, the exception pending on it, and the calls queued for the
/// interpreter, oldest first.
pub ghost struct ThreadStateView {
    pub ptr: usize,
    pub none: usize,
    pub permit: bool,
    pub pending: Option<PendingView>,
    pub calls: Seq<SysCall>,
}

impl ThreadStateView {
    /// The same state with one more call queued.
    pub open spec fn called(self, call: SysCall) -> ThreadStateView {
        ThreadStateView { calls: self.calls.push(call), ..self }
    }

    /// The same state with more calls queued.
    pub open spec fn called_all(self, calls: Seq<SysCall>) -> ThreadStateView {
        ThreadStateView { calls: self.calls + calls, ..self }
    }

    /// The same state with an exception raised, in place of any other.
    pub open spec fn raised(self, exc: ExcType, msg: Seq<char>) -> ThreadStateView {
        ThreadStateView { pending: Some(PendingView::Raised { exc, msg }), ..self }
    }
}

/// The address of an attached thread state, and of the interpreter's `None`.
struct Attached {
    ptr: usize,
    none: usize,
}

impl Attached {
    #[verifier::type_invariant]
    spec fn not_null(self) -> bool {
        self.ptr != 0 && self.none != 0
    }
}

/// Proof of an attached thread state.
///
/// Every operation that touches the interpreter takes it. It is neither
/// `Send` nor `Sync`, it cannot be copied, and its lifetime is invariant, so
/// tokens of different attached scopes never unify.
pub struct ThreadState<'py> {
    at: Attached,
    permit: bool,
    pending: Option<Pending>,
    calls: Vec<SysCall>,
    marker: PhantomData<(&'py mut &'py (), Rc<()>)>,
}

impl<'py> View for ThreadState<'py> {
    type V = ThreadStateView;

    closed spec fn view(&self) -> ThreadStateView {
        ThreadStateView {
            ptr: self.at.ptr,
            none: self.at.none,
            permit: self.permit,
            pending: match self.pending {
                Some(p) => Some(p@),
                None => None,
            },
            calls: self.calls@,
        }
    }
}

impl<'py> ThreadState<'py> {
    /// Wrap the address of the thread state that is attached to the current
    /// thread. `none` is the address of the interpreter's `None`, and `depth` the
    /// number of entries into Rust on that thread state. No exception has been
    /// observed yet.
    pub fn from_raw(ptr: usize, none: usize, depth: usize) -> (r: ThreadState<'py>)
        requires
            ptr != 0,
            none != 0,
        ensures
            r@ == (ThreadStateView {
                ptr,
                none,
                permit: outermost(depth as int),
                pending: None,
                calls: Seq::empty(),
            }),
    {
        let r = ThreadState {
            at: Attached { ptr, none },
            permit: depth == 1,
            pending: None,
            calls: Vec::new(),
            marker: PhantomData,
        };
        assert(r@.calls =~= Seq::empty());
        r
    }

    /// Wrap what thread-local storage holds at an entry point, where a thread
    /// state is attached.
    pub fn current_unchecked(tls: usize, none: usize, depth: usize) -> (r: ThreadState<'py>)
        requires
            tls != 0,
            none != 0,
        ensures
            r@ == (ThreadStateView {
                ptr: tls,
                none,
                permit: outermost(depth as int),
                pending: None,
                calls: Seq::empty(),
            }),
    {
        ThreadState::from_raw(tls, none, depth)
    }

    /// Whether the thread state may be detached: only by the outermost entry.
    pub fn may_detach(&self) -> (r: bool)
        ensures
            r == self@.permit,
    {
        self.permit
    }

    /// The address of the thread state.
    pub fn as_ptr(&self) -> (r: usize)
        ensures
            r == self@.ptr,
            r != 0,
    {
        proof {
            use_type_invariant(&self.at);
        }
        self.at.ptr
    }

    /// The address of `None`.
    pub fn none_ptr(&self) -> (r: usize)
        ensures
            r == self@.none,
            r != 0,
    {
        proof {
            use_type_invariant(&self.at);
        }
        self.at.none
    }

    /// True if an exception is currently set on this thread.
    pub fn exception_set(&self) -> (r: bool)
        ensures
            r == (self@.pending is Some),
    {
        self.pending.is_some()
    }

    /// Take note of the interpreter's own exception field after a call into
    /// it: zero where no exception is set.
    pub fn observe_exception(&mut self, current_exception: usize)
        ensures
            final(self)@ == (ThreadStateView {
                pending: if current_exception == 0 {
                    None
                } else {
                    Some(PendingView::Foreign)
                },
                ..old(self)@
            }),
    {
        self.pending = if current_exception == 0 {
            None
        } else {
            Some(Pending::Foreign)
        };
    }

    /// Make `exc` with the message `msg` the pending exception.
    pub(crate) fn set_exception(&mut self, exc: ExcType, msg: String)
        ensures
            final(self)@ == old(self)@.raised(exc, msg@),
    {
        self.pending = Some(Pending::Raised { exc, msg });
    }

    /// Hand an exception that was raised here to the interpreter, which from
    /// then on holds it. `None` where there is nothing to hand over.
    pub fn hand_over_exception(&mut self) -> (r: Option<(ExcType, String)>)
        ensures
            match old(self)@.pending {
                Some(PendingView::Raised { exc, msg }) => {
                    &&& r matches Some((e, m))
                    &&& e == exc
                    &&& m@ == msg
                    &&& final(self)@ == (ThreadStateView {
                        pending: Some(PendingView::Foreign),
                        ..old(self)@
                    })
                },
                _ => r is None && final(self)@ == old(self)@,
            },
    {
        match self.pending.take() {
            Some(Pending::Raised { exc, msg }) => {
                self.pending = Some(Pending::Foreign);
                Some((exc, msg))
            },
            other => {
                self.pending = other;
                None
            },
        }
    }

    /// Queue a call for the interpreter.
    pub(crate) fn queue(&mut self, call: SysCall)
        ensures
            final(self)@ == old(self)@.called(call),
    {
        self.calls.push(call);
    }

    /// Take the queued calls, oldest first, to perform them.
    pub fn take_calls(&mut self) -> (r: Vec<SysCall>)
        ensures
            r@ == old(self)@.calls,
            final(self)@ == (ThreadStateView { calls: Seq::empty(), ..old(self)@ }),
    {
        let mut calls: Vec<SysCall> = Vec::new();
        std::mem::swap(&mut calls, &mut self.calls);
        assert(self@.calls =~= Seq::empty());
        calls
    }

    /// Detach the thread state, run `f`, then attach it again. Without a permit
    /// nothing is called, the thread state stays attached and `RuntimeError` is
    /// raised.
    ///
    /// `save` detaches and returns the state that was attached, which is the
    /// one of this token; `restore` is handed exactly that. `f` may count on
    /// running after `save`, and `restore` on running after `f`. `f` is `Send`,
    /// so it can hold neither the token nor a handle of its scope, and the
    /// exclusive borrow keeps the token out of use meanwhile.
    pub fn detach<S, F, A, R>(&mut self, save: S, f: F, restore: A) -> (r: PyResult<R>)
        where
            S: FnOnce() -> usize,
            F: FnOnce() -> R + Send,
            A: FnOnce(usize),
            R: Send,
        requires
            old(self)@.permit ==> {
                &&& save.requires(())
                &&& forall|s: usize| save.ensures((), s) ==> s == old(self)@.ptr
                &&& save.ensures((), old(self)@.ptr) ==> f.requires(())
                &&& forall|out: R|
                    save.ensures((), old(self)@.ptr) && f.ensures((), out) ==> restore.requires(
                        (old(self)@.ptr,),
                    )
            },
        ensures
            !old(self)@.permit ==> r is Err && final(self)@ == old(self)@.raised(
                ExcType::RuntimeError,
                until_nul(NO_PERMIT@),
            ),
            old(self)@.permit ==> {
                &&& r matches Ok(out)
                &&& save.ensures((), old(self)@.ptr)
                &&& f.ensures((), out)
                &&& restore.ensures((old(self)@.ptr,), ())
                &&& final(self)@ == old(self)@
            },
    {
        if !self.permit {
            return Err(PyRuntimeError::raise(self, NO_PERMIT));
        }
        let saved: usize = save();
        let out = f();
        restore(saved);
        Ok(out)
    }
}

pub const NO_PERMIT: &'static str = "cannot detach in a reentrant callback";

} // verus!
