//! Typed per-module state and the glue of a module's lifecycle.

use vstd::prelude::*;
use crate::conversion::PANICKED;
use crate::err::{PyResult, PySystemError};
use crate::instance::{Borrowed, Bound, Py};
use crate::sys_calls::{SysQuery, SysQueryView};
use crate::text::until_nul;
use crate::threadstate::{ExcType, ThreadState};
use crate::types::PyModule;

verus! {

/// The visitor of the garbage collector, if it gave one.
pub struct Visit<F> {
    visit: Option<F>,
}

/// Nonzero return value of a visitor, handed out of a traversal.
#[derive(Clone, Copy, Debug, PartialEq, Eq, Structural)]
pub struct TraverseStop(pub i32);

pub type TraverseResult = Result<(), TraverseStop>;

impl<F: Fn(usize) -> i32> Visit<F> {
    /// The visitor.
    pub closed spec fn visitor(&self) -> Option<F> {
        self.visit
    }

    /// Whether the visitor may be called on any object.
    pub open spec fn callable(&self) -> bool {
        self.visitor() matches Some(f) ==> forall|obj: usize| #[trigger] f.requires((obj,))
    }

    /// Wrap the visitor that the collector passed.
    pub fn new(visit: Option<F>) -> (r: Visit<F>)
        ensures
            r.visitor() == visit,
    {
        Visit { visit }
    }

    /// Report an owned reference to the collector.
    pub fn call<T>(&self, obj: &Py<T>) -> (r: TraverseResult)
        requires
            self.callable(),
        ensures
            match self.visitor() {
                None => r is Ok,
                Some(f) => {
                    ||| r is Ok && f.ensures((obj.addr(),), 0)
                    ||| (r matches Err(TraverseStop(code)) && code != 0 && f.ensures(
                        (obj.addr(),),
                        code,
                    ))
                },
            },
    {
        match &self.visit {
            None => Ok(()),
            Some(visit) => {
                let ret: i32 = visit(obj.as_ptr());
                if ret == 0 {
                    Ok(())
                } else {
                    Err(TraverseStop(ret))
                }
            },
        }
    }
}

/// Whether a visitor answered `ret` about the object at `obj`.
pub open spec fn answered<F: Fn(usize) -> i32>(visit: Visit<F>, obj: usize, ret: i32) -> bool {
    match visit.visitor() {
        Some(f) => f.ensures((obj,), ret),
        None => ret == 0,
    }
}

/// Whether a traversal over `edges` may end with `code`: zero where the visitor
/// accepted each of them, otherwise what it answered about the first one that
/// it did not accept.
pub open spec fn visited<F: Fn(usize) -> i32>(
    visit: Visit<F>,
    edges: Seq<usize>,
    code: i32,
) -> bool {
    if code == 0 {
        forall|i: int| 0 <= i < edges.len() ==> answered(visit, #[trigger] edges[i], 0)
    } else {
        exists|k: int|
            {
                &&& 0 <= k < edges.len()
                &&& answered(visit, #[trigger] edges[k], code)
                &&& forall|i: int| 0 <= i < k ==> answered(visit, #[trigger] edges[i], 0)
            }
    }
}

/// The code with which a traversal ends.
pub open spec fn stop_code(r: TraverseResult) -> i32 {
    match r {
        Ok(()) => 0,
        Err(TraverseStop(code)) => code,
    }
}

/// Typed per-module state. It holds the exception types and classes of a
/// module.
pub trait ModuleState: Sized + Send + Sync + 'static {
    /// The addresses of the objects that the state owns a reference to, where the
    /// state says which they are.
    open spec fn edges(&self) -> Option<Seq<usize>> {
        None
    }

    /// Build the state, before the module's own exec function runs.
    fn new<'py>(ts: &mut ThreadState<'py>, module: &Borrowed<'_, 'py, PyModule>) -> (r: PyResult<
        Self,
    >)
        ensures
            r is Err ==> final(ts)@.pending is Some,
    ;

    /// Report each owned reference to the collector, and stop where it says so.
    fn traverse<F: Fn(usize) -> i32>(&self, visit: &Visit<F>) -> (r: TraverseResult)
        requires
            visit.callable(),
        ensures
            self.edges() matches Some(edges) ==> visited(*visit, edges, stop_code(r)),
    ;

    /// Drop owned references.
    fn clear(&mut self)
        default_ensures
            *final(self) == *old(self),
    {
    }
}

/// Where the state of a module is in its lifecycle, with the state itself in
/// the phases in which there is one.
pub enum StatePhase<T> {
    /// Exec has not been claimed.
    Uninitialized,
    /// The state is being made.
    Initializing,
    /// No state could be made.
    FailedWithoutValue,
    /// The module's own exec function is running.
    Executing(T),
    /// The state can be borrowed.
    Ready(T),
    /// The module's own exec function failed.
    FailedWithValue(T),
    /// The state is being cleared.
    Clearing(T),
    /// The state has been cleared.
    Cleared(T),
    /// Clearing the state did not return.
    ClearFailed(T),
    /// The state is being dropped.
    Dropping,
    /// There is no state any more.
    Dropped,
}

impl<T> StatePhase<T> {
    /// The state, in the phases in which there is one.
    pub open spec fn value(self) -> Option<T> {
        match self {
            StatePhase::Executing(v) => Some(v),
            StatePhase::Ready(v) => Some(v),
            StatePhase::FailedWithValue(v) => Some(v),
            StatePhase::Clearing(v) => Some(v),
            StatePhase::Cleared(v) => Some(v),
            StatePhase::ClearFailed(v) => Some(v),
            _ => None,
        }
    }

    /// The phase after `made` came out of [`ModuleState::new`].
    pub open spec fn after_new(made: PyResult<T>) -> StatePhase<T> {
        match made {
            Ok(state) => StatePhase::Executing(state),
            Err(_) => StatePhase::FailedWithoutValue,
        }
    }

    /// The phase after the module's own exec function returned `ran`.
    pub open spec fn after_exec(state: T, ran: PyResult<()>) -> StatePhase<T> {
        match ran {
            Ok(()) => StatePhase::Ready(state),
            Err(_) => StatePhase::FailedWithValue(state),
        }
    }

    /// How far the lifecycle has come.
    pub open spec fn rank(self) -> int {
        match self {
            StatePhase::Uninitialized => 0,
            StatePhase::Initializing => 1,
            StatePhase::Executing(_) => 2,
            StatePhase::Ready(_) => 3,
            StatePhase::FailedWithValue(_) => 3,
            StatePhase::Clearing(_) => 4,
            StatePhase::Cleared(_) => 5,
            StatePhase::ClearFailed(_) => 5,
            StatePhase::FailedWithoutValue => 5,
            StatePhase::Dropping => 6,
            StatePhase::Dropped => 7,
        }
    }

    /// Whether the lifecycle may go on to `next`: it stays as it is, or it gets
    /// further.
    pub open spec fn advances(self, next: StatePhase<T>) -> bool {
        self == next || self.rank() < next.rank()
    }

    /// Whether the state is to be cleared in this phase.
    pub open spec fn clearable(self) -> bool {
        self is Ready || self is FailedWithValue
    }

    /// The phase after an operation was left by unwinding: the failure of that
    /// operation.
    pub open spec fn after_unwind(self) -> StatePhase<T> {
        match self {
            StatePhase::Initializing => StatePhase::FailedWithoutValue,
            StatePhase::Executing(v) => StatePhase::FailedWithValue(v),
            StatePhase::Clearing(v) => StatePhase::ClearFailed(v),
            StatePhase::Dropping => StatePhase::Dropped,
            other => other,
        }
    }
}

/// The state block of a module.
pub struct StateStorage<T> {
    phase: StatePhase<T>,
}

impl<T> View for StateStorage<T> {
    type V = StatePhase<T>;

    closed spec fn view(&self) -> StatePhase<T> {
        self.phase
    }
}

impl<T> StateStorage<T> {
    /// A fresh block.
    pub fn empty() -> (r: StateStorage<T>)
        ensures
            r@ is Uninitialized,
    {
        StateStorage { phase: StatePhase::Uninitialized }
    }

    /// Whether the state is being made.
    pub fn is_initializing(&self) -> (r: bool)
        ensures
            r == (self@ is Initializing),
    {
        matches!(self.phase, StatePhase::Initializing)
    }

    /// The state, while the module's own exec function is running.
    pub fn executing(&self) -> (r: Option<&T>)
        ensures
            match self@ {
                StatePhase::Executing(v) => r == Some(&v),
                _ => r is None,
            },
    {
        match &self.phase {
            StatePhase::Executing(v) => Some(v),
            _ => None,
        }
    }

    /// Take the phase out, and leave another one behind.
    fn replace(&mut self, phase: StatePhase<T>) -> (r: StatePhase<T>)
        ensures
            r == old(self)@,
            final(self)@ == phase,
    {
        let mut taken: StatePhase<T> = phase;
        std::mem::swap(&mut self.phase, &mut taken);
        taken
    }

    /// Publish the failure of an operation that was left by unwinding.
    pub fn unwound(&mut self)
        ensures
            final(self)@ == old(self)@.after_unwind(),
            old(self)@.advances(final(self)@),
    {
        let taken: StatePhase<T> = self.replace(StatePhase::Dropped);
        self.phase = match taken {
            StatePhase::Initializing => StatePhase::FailedWithoutValue,
            StatePhase::Executing(v) => StatePhase::FailedWithValue(v),
            StatePhase::Clearing(v) => StatePhase::ClearFailed(v),
            StatePhase::Dropping => StatePhase::Dropped,
            other => other,
        };
    }
}

/// What the exec glue and the clear glue return after a panic: the failure of
/// the operation is published, and a fixed `SystemError` is set.
pub fn glue_panicked<T: ModuleState>(
    ts: &mut ThreadState<'_>,
    storage: Option<&mut StateStorage<T>>,
) -> (r: i32)
    ensures
        r == -1,
        final(ts)@ == old(ts)@.raised(ExcType::SystemError, until_nul(PANICKED@)),
        storage matches Some(s) ==> final(s)@ == s@.after_unwind() && s@.advances(final(s)@),
{
    if let Some(s) = storage {
        s.unwound();
    }
    let _ = PySystemError::raise(ts, PANICKED);
    -1
}

pub const NOT_INITIALIZED: &'static str = "module state not initialized";

pub const NULL_MODULE: &'static str = "module exec called with NULL module";

pub const NO_STATE_BLOCK: &'static str = "module has no state block";

pub const EXEC_CLAIMED: &'static str = "module exec called more than once";

/// Borrow the state out of a block. It is lent once exec has succeeded, and
/// until it is cleared.
pub fn storage_state_ref<'a, T: ModuleState>(
    ts: &mut ThreadState<'_>,
    storage: Option<&'a StateStorage<T>>,
) -> (r: PyResult<&'a T>)
    ensures
        match storage {
            Some(s) if s@ is Ready => {
                &&& r matches Ok(v)
                &&& s@ == StatePhase::Ready(*v)
                &&& final(ts)@ == old(ts)@
            },
            _ => r is Err && final(ts)@ == old(ts)@.raised(
                ExcType::SystemError,
                until_nul(NOT_INITIALIZED@),
            ),
        },
{
    if let Some(s) = storage {
        if let StatePhase::Ready(v) = &s.phase {
            return Ok(v);
        }
    }
    Err(PySystemError::raise(ts, NOT_INITIALIZED))
}

/// Refuse exec on a module without an address or without a state block, and on
/// one on which exec was claimed before.
pub fn check_exec<T: ModuleState>(
    ts: &mut ThreadState<'_>,
    module: usize,
    storage: Option<&StateStorage<T>>,
) -> (r: PyResult<()>)
    ensures
        match storage {
            _ if module == 0 => r is Err && final(ts)@ == old(ts)@.raised(
                ExcType::SystemError,
                until_nul(NULL_MODULE@),
            ),
            None => r is Err && final(ts)@ == old(ts)@.raised(
                ExcType::SystemError,
                until_nul(NO_STATE_BLOCK@),
            ),
            Some(s) => if s@ is Uninitialized {
                r is Ok && final(ts)@ == old(ts)@
            } else {
                r is Err && final(ts)@ == old(ts)@.raised(
                    ExcType::SystemError,
                    until_nul(EXEC_CLAIMED@),
                )
            },
        },
{
    if module == 0 {
        return Err(PySystemError::raise(ts, NULL_MODULE));
    }
    match storage {
        None => Err(PySystemError::raise(ts, NO_STATE_BLOCK)),
        Some(s) => match &s.phase {
            StatePhase::Uninitialized => Ok(()),
            _ => Err(PySystemError::raise(ts, EXEC_CLAIMED)),
        },
    }
}

/// Claim exec, which can be done once in the life of a block.
pub fn claim_exec<T: ModuleState>(storage: &mut StateStorage<T>)
    requires
        old(storage)@ is Uninitialized,
    ensures
        final(storage)@ is Initializing,
        old(storage)@.advances(final(storage)@),
{
    storage.phase = StatePhase::Initializing;
}

/// Put the state that was made into its block, or record that none could be
/// made.
pub fn install_state<T: ModuleState>(storage: &mut StateStorage<T>, made: PyResult<T>) -> (r:
    PyResult<()>)
    requires
        old(storage)@ is Initializing,
    ensures
        final(storage)@ == StatePhase::after_new(made),
        r is Ok <==> made is Ok,
        old(storage)@.advances(final(storage)@),
{
    match made {
        Ok(state) => {
            storage.phase = StatePhase::Executing(state);
            Ok(())
        },
        Err(e) => {
            storage.phase = StatePhase::FailedWithoutValue;
            Err(e)
        },
    }
}

/// Publish how the module's own exec function ended, and give what the exec
/// glue returns to C. The state stays in its block either way.
pub fn finish_exec<T: ModuleState>(storage: &mut StateStorage<T>, ran: PyResult<()>) -> (r: i32)
    requires
        old(storage)@ is Executing,
    ensures
        old(storage)@ matches StatePhase::Executing(state) ==> final(storage)@
            == StatePhase::after_exec(state, ran),
        old(storage)@.advances(final(storage)@),
        r == if ran is Ok {
            0int
        } else {
            -1
        },
{
    let taken: StatePhase<T> = storage.replace(StatePhase::Dropped);
    match taken {
        StatePhase::Executing(state) => match ran {
            Ok(()) => {
                storage.phase = StatePhase::Ready(state);
                0
            },
            Err(_) => {
                storage.phase = StatePhase::FailedWithValue(state);
                -1
            },
        },
        _ => -1,
    }
}

fn make_with<'py, T, G>(
    g: G,
    ts: &mut ThreadState<'py>,
    module: &Borrowed<'_, 'py, PyModule>,
) -> (r: PyResult<T>)
    where G: FnOnce(&mut ThreadState<'py>, &Borrowed<'_, 'py, PyModule>) -> PyResult<T>
    requires
        forall|t: &mut ThreadState<'py>, m: &Borrowed<'_, 'py, PyModule>|
            #[trigger] g.requires((t, m)),
    ensures
        exists|t: &mut ThreadState<'py>, m: &Borrowed<'_, 'py, PyModule>|
            {
                &&& #[trigger] g.ensures((t, m), r)
                &&& t@ == old(ts)@
                &&& m.addr() == module.addr()
                &&& final(t)@ == final(ts)@
            },
{
    g(ts, module)
}

/// The exec glue: claim exec, make the state, put it into its block, then run
/// the module's own exec function, which is lent the block with the state in
/// it.
///
/// A module without an address or without a state block is refused, and so is
/// one on which exec was claimed before: nothing is called then, and the block
/// stays as it is. After that the glue fails exactly where
/// [`ModuleState::new`] or `user_exec` does, and a failure always leaves an
/// exception.
pub fn exec_impl<'py, T: ModuleState, E>(
    ts: &mut ThreadState<'py>,
    module: usize,
    storage: Option<&mut StateStorage<T>>,
    user_exec: E,
) -> (r: i32)
    where
        E: FnOnce(
            &mut ThreadState<'py>,
            &Borrowed<'_, 'py, PyModule>,
            &StateStorage<T>,
        ) -> PyResult<()>,
    requires
        forall|t: &mut ThreadState<'py>, m: &Borrowed<'_, 'py, PyModule>, b: &StateStorage<T>|
            b@ is Executing ==> #[trigger] user_exec.requires((t, m, b)),
        forall|
            t: &mut ThreadState<'py>,
            m: &Borrowed<'_, 'py, PyModule>,
            b: &StateStorage<T>,
            out: PyResult<()>,
        | #[trigger]
            user_exec.ensures((t, m, b), out) && out is Err ==> final(t)@.pending is Some,
    ensures
        r == 0 || r == -1,
        r == -1 ==> final(ts)@.pending is Some,
        module == 0 ==> r == -1 && final(ts)@ == old(ts)@.raised(
            ExcType::SystemError,
            until_nul(NULL_MODULE@),
        ),
        module != 0 && storage is None ==> r == -1 && final(ts)@ == old(ts)@.raised(
            ExcType::SystemError,
            until_nul(NO_STATE_BLOCK@),
        ),
        storage matches Some(s) ==> s@.advances(final(s)@),
        storage matches Some(s) ==> {
            &&& module == 0 ==> final(s)@ == s@
            &&& module != 0 && !(s@ is Uninitialized) ==> r == -1 && final(s)@ == s@ && final(ts)@
                == old(ts)@.raised(ExcType::SystemError, until_nul(EXEC_CLAIMED@))
            &&& module != 0 && s@ is Uninitialized ==> exists|
                t: &mut ThreadState<'py>,
                m: &Borrowed<'_, 'py, PyModule>,
                made: PyResult<T>,
            |
                {
                    &&& #[trigger] call_ensures(T::new, (t, m), made)
                    &&& t@ == old(ts)@
                    &&& m.addr() == module
                    &&& match made {
                        Err(_) => r == -1 && final(ts)@ == final(t)@
                            && final(s)@ is FailedWithoutValue,
                        Ok(state) => exists|
                            t2: &mut ThreadState<'py>,
                            m2: &Borrowed<'_, 'py, PyModule>,
                            b2: &StateStorage<T>,
                            out: PyResult<()>,
                        |
                            {
                                &&& #[trigger] user_exec.ensures((t2, m2, b2), out)
                                &&& t2@ == final(t)@
                                &&& m2.addr() == module
                                &&& b2@ == StatePhase::Executing(state)
                                &&& final(t2)@ == final(ts)@
                                &&& r == 0 <==> out is Ok
                                &&& final(s)@ == StatePhase::after_exec(state, out)
                            },
                    }
                }
        },
{
    let s: &mut StateStorage<T> = match storage {
        Some(s) => s,
        None => {
            let _ = check_exec::<T>(ts, module, None);
            return -1;
        },
    };
    if check_exec(ts, module, Some(&*s)).is_err() {
        return -1;
    }
    let bound: Borrowed<'_, 'py, PyModule> = Bound::ref_from_ptr(&module);
    claim_exec(s);
    let made: PyResult<T> = make_with(T::new, ts, &bound);
    if install_state(s, made).is_err() {
        return -1;
    }
    let ran: PyResult<()> = user_exec(ts, &bound, s);
    finish_exec(s, ran)
}

fn traverse_with<T, F, G>(g: G, state: &T, visit: &Visit<F>) -> (r: TraverseResult)
    where F: Fn(usize) -> i32, G: FnOnce(&T, &Visit<F>) -> TraverseResult
    requires
        g.requires((state, visit)),
    ensures
        g.ensures((state, visit), r),
{
    g(state, visit)
}

/// The traverse glue: let the state report its references, in the phases in
/// which there is one, and return what stopped the visitor. In the other phases
/// nothing is called.
pub fn traverse_impl<T: ModuleState, F: Fn(usize) -> i32>(
    storage: Option<&StateStorage<T>>,
    visit: &Visit<F>,
) -> (r: i32)
    requires
        visit.callable(),
    ensures
        match storage {
            Some(s) if s@.value() is Some => {
                let state = s@.value()->0;
                &&& exists|res: TraverseResult| #[trigger]
                    call_ensures(T::traverse::<F>, (&state, visit), res) && r == stop_code(res)
                &&& state.edges() matches Some(edges) ==> visited(*visit, edges, r)
            },
            _ => r == 0,
        },
{
    if let Some(s) = storage {
        let found: TraverseResult = match &s.phase {
            StatePhase::Executing(v) => traverse_with(T::traverse::<F>, v, visit),
            StatePhase::Ready(v) => traverse_with(T::traverse::<F>, v, visit),
            StatePhase::FailedWithValue(v) => traverse_with(T::traverse::<F>, v, visit),
            StatePhase::Clearing(v) => traverse_with(T::traverse::<F>, v, visit),
            StatePhase::Cleared(v) => traverse_with(T::traverse::<F>, v, visit),
            StatePhase::ClearFailed(v) => traverse_with(T::traverse::<F>, v, visit),
            _ => Ok(()),
        };
        if let Err(TraverseStop(code)) = found {
            return code;
        }
    }
    0
}

fn clear_with<T, G>(g: G, state: &mut T)
    where G: FnOnce(&mut T)
    requires
        forall|t: &mut T| #[trigger] g.requires((t,)),
    ensures
        exists|t: &mut T|
            {
                &&& #[trigger] g.ensures((t,), ())
                &&& *t == *old(state)
                &&& *final(t) == *final(state)
            },
{
    g(state)
}

/// The clear glue: clear the state once, after exec has ended. Every other
/// clear is a no-op.
pub fn clear_impl<T: ModuleState>(storage: Option<&mut StateStorage<T>>) -> (r: i32)
    ensures
        r == 0,
        storage matches Some(s) ==> s@.advances(final(s)@),
        storage matches Some(s) ==> if s@.clearable() {
            exists|t: &mut T|
                {
                    &&& #[trigger] call_ensures(T::clear, (t,), ())
                    &&& Some(*t) == s@.value()
                    &&& final(s)@ == StatePhase::Cleared(*final(t))
                }
        } else {
            final(s)@ == s@
        },
{
    if let Some(s) = storage {
        let taken: StatePhase<T> = s.replace(StatePhase::Dropped);
        s.phase = match taken {
            StatePhase::Ready(state) => StatePhase::Clearing(state),
            StatePhase::FailedWithValue(state) => StatePhase::Clearing(state),
            other => {
                s.phase = other;
                return 0;
            },
        };
        if let StatePhase::Clearing(state) = &mut s.phase {
            clear_with(T::clear, state);
        }
        let ended: StatePhase<T> = s.replace(StatePhase::Dropped);
        if let StatePhase::Clearing(state) = ended {
            s.phase = StatePhase::Cleared(state);
        }
    }
    0
}

/// The free glue: drop the state, in the phases in which there is one. There is
/// none afterwards.
pub fn free_impl<T: ModuleState>(storage: Option<&mut StateStorage<T>>)
    ensures
        storage matches Some(s) ==> final(s)@ is Dropped && s@.advances(final(s)@),
{
    if let Some(s) = storage {
        {
            let _held: StatePhase<T> = s.replace(StatePhase::Dropping);
        }
        s.phase = StatePhase::Dropped;
    }
}

/// The size of the state block of a module with state `T`, as the module
/// definition gives it.
pub fn state_size<T: ModuleState>() -> (r: isize)
    requires
        vstd::layout::size_of::<StateStorage<T>>() <= isize::MAX,
    ensures
        r == vstd::layout::size_of::<StateStorage<T>>(),
{
    std::mem::size_of::<StateStorage<T>>() as isize
}

/// What to ask for the state block of a module.
pub fn storage_query(module: usize) -> (r: SysQuery<'static>)
    ensures
        r@ == SysQueryView::ModuleGetState(module),
{
    SysQuery::ModuleGetState(module)
}

/// Borrow the typed state of `module`, given its state block.
pub fn module_state<'a, T: ModuleState>(
    ts: &mut ThreadState<'_>,
    module: &'a Bound<'_, PyModule>,
    storage: Option<&'a StateStorage<T>>,
) -> (r: PyResult<&'a T>)
    ensures
        match storage {
            Some(s) if s@ is Ready => {
                &&& r matches Ok(v)
                &&& s@ == StatePhase::Ready(*v)
                &&& final(ts)@ == old(ts)@
            },
            _ => r is Err && final(ts)@ == old(ts)@.raised(
                ExcType::SystemError,
                until_nul(NOT_INITIALIZED@),
            ),
        },
{
    state_from_module_ptr(ts, module.as_ptr(), storage)
}

impl<'a> Borrowed<'a, '_, PyModule> {
    /// Borrow the typed state of this module, given its state block.
    pub fn module_state<T: ModuleState>(
        &self,
        ts: &mut ThreadState<'_>,
        storage: Option<&'a StateStorage<T>>,
    ) -> (r: PyResult<&'a T>)
        ensures
            match storage {
                Some(s) if s@ is Ready => {
                    &&& r matches Ok(v)
                    &&& s@ == StatePhase::Ready(*v)
                    &&& final(ts)@ == old(ts)@
                },
                _ => r is Err && final(ts)@ == old(ts)@.raised(
                    ExcType::SystemError,
                    until_nul(NOT_INITIALIZED@),
                ),
            },
    {
        state_from_module_ptr(ts, self.as_ptr(), storage)
    }
}

/// Borrow the typed state of the module at `module`, given its state block.
pub fn state_from_module_ptr<'a, T: ModuleState>(
    ts: &mut ThreadState<'_>,
    module: usize,
    storage: Option<&'a StateStorage<T>>,
) -> (r: PyResult<&'a T>)
    ensures
        match storage {
            Some(s) if s@ is Ready => {
                &&& r matches Ok(v)
                &&& s@ == StatePhase::Ready(*v)
                &&& final(ts)@ == old(ts)@
            },
            _ => r is Err && final(ts)@ == old(ts)@.raised(
                ExcType::SystemError,
                until_nul(NOT_INITIALIZED@),
            ),
        },
{
    storage_state_ref(ts, storage)
}

} // verus!
