//! What the glue of a module's lifecycle does, call by call.

use vstd::prelude::*;
use crate::err::PyResult;
use crate::instance::{Borrowed, Bound, Py};
use crate::module::state::{
    check_exec, claim_exec, clear_impl, exec_impl, finish_exec, free_impl, glue_panicked,
    install_state, module_state, state_from_module_ptr, state_size, storage_query,
    storage_state_ref, traverse_impl, ModuleState, StatePhase, StateStorage, TraverseResult,
    TraverseStop, Visit,
};
use crate::sys_calls::{SysQuery, SysQueryView};
use crate::threadstate::{ExcType, PendingView, ThreadState, ThreadStateView};
use crate::types::PyModule;

verus! {

/// Whether a call left a `SystemError` behind and nothing else.
pub open spec fn system_error(before: ThreadStateView, after: ThreadStateView) -> bool {
    &&& after.pending matches Some(PendingView::Raised { exc, .. })
    &&& after.pending->0->exc == ExcType::SystemError
    &&& after == (ThreadStateView { pending: after.pending, ..before })
}

/// The state is lent exactly while it is ready, it is the one in the block, and
/// the thread state stays as it was. In every other phase, and without a block,
/// `SystemError` is raised. All ways to ask for it agree.
pub proof fn law_lent_while_ready<'a, T: ModuleState>(
    storage: Option<&'a StateStorage<T>>,
    module: usize,
    owned: &'a Bound<'_, PyModule>,
    r: PyResult<&'a T>,
)
    ensures
        forall|ts: &mut ThreadState<'_>| #[trigger]
            call_ensures(storage_state_ref::<T>, (ts, storage), r) ==> lends(
                storage,
                ts@,
                r,
                final(ts)@,
            ),
        forall|ts: &mut ThreadState<'_>| #[trigger]
            call_ensures(state_from_module_ptr::<T>, (ts, module, storage), r) ==> lends(
                storage,
                ts@,
                r,
                final(ts)@,
            ),
        forall|ts: &mut ThreadState<'_>| #[trigger]
            call_ensures(module_state::<T>, (ts, owned, storage), r) ==> lends(
                storage,
                ts@,
                r,
                final(ts)@,
            ),
{
}

/// Whether asking a block for its state may give `r`.
pub open spec fn lends<T: ModuleState>(
    storage: Option<&StateStorage<T>>,
    before: ThreadStateView,
    r: PyResult<&T>,
    after: ThreadStateView,
) -> bool {
    &&& r is Ok <==> (storage matches Some(s) && s@ is Ready)
    &&& r matches Ok(v) ==> storage->0@ == StatePhase::Ready(*v) && after == before
    &&& r is Err ==> system_error(before, after)
}

/// Exec is accepted exactly on a module with an address and a block that is
/// fresh. Accepting changes nothing, refusing raises `SystemError`.
pub proof fn law_exec_accepted<T: ModuleState>(
    module: usize,
    storage: Option<&StateStorage<T>>,
    r: PyResult<()>,
)
    ensures
        forall|ts: &mut ThreadState<'_>| #[trigger]
            call_ensures(check_exec::<T>, (ts, module, storage), r) ==> {
                &&& r is Ok <==> module != 0 && (storage matches Some(s) && s@ is Uninitialized)
                &&& r is Ok ==> final(ts)@ == ts@
                &&& r is Err ==> system_error(ts@, final(ts)@)
            },
        forall|fresh: StateStorage<T>| #[trigger]
            call_ensures(StateStorage::<T>::empty, (), fresh) ==> fresh@ is Uninitialized,
{
}

/// The steps of exec lead from a fresh block to one that lends the state that
/// was made, if both that and the module's own exec function succeed. Where
/// either fails the block never lends it. The state stays in its block as soon
/// as it is made, and C is told about a failure by -1.
pub proof fn law_exec_steps<T: ModuleState>(made: PyResult<T>, ran: PyResult<()>)
    ensures
        forall|s: &mut StateStorage<T>| #[trigger]
            call_ensures(claim_exec::<T>, (s,), ()) ==> final(s)@ is Initializing,
        forall|s: &mut StateStorage<T>, r: PyResult<()>| #[trigger]
            call_ensures(install_state::<T>, (s, made), r) ==> {
                &&& r is Ok <==> made is Ok
                &&& made matches Ok(state) ==> final(s)@ == StatePhase::Executing(state)
                &&& made is Err ==> final(s)@ is FailedWithoutValue
            },
        forall|s: &mut StateStorage<T>, r: i32| #[trigger]
            call_ensures(finish_exec::<T>, (s, ran), r) && s@ is Executing ==> {
                &&& r == 0 <==> ran is Ok
                &&& r == -1 <==> ran is Err
                &&& final(s)@ is Ready <==> ran is Ok
                &&& final(s)@ is FailedWithValue <==> ran is Err
                &&& final(s)@.value() == s@.value()
            },
{
}

/// Exec on a fresh block succeeds exactly if it leaves the state ready to be
/// lent, and tells C so. On a block on which exec was claimed before it fails
/// and touches nothing but the pending exception, and a failure is never silent.
pub proof fn law_exec_outcome<'py, T: ModuleState, E>(module: usize, e: E, r: i32)
    where
        E: FnOnce(
            &mut ThreadState<'py>,
            &Borrowed<'_, 'py, PyModule>,
            &StateStorage<T>,
        ) -> PyResult<()>,
    ensures
        forall|ts: &mut ThreadState<'py>, s: &mut StateStorage<T>| #[trigger]
            call_ensures(exec_impl::<T, E>, (ts, module, Some(s), e), r) ==> {
                &&& r == 0 || r == -1
                &&& r == -1 ==> final(ts)@.pending is Some
                &&& module == 0 || !(s@ is Uninitialized) ==> r == -1 && final(s)@ == s@
                    && system_error(ts@, final(ts)@)
                &&& module != 0 && s@ is Uninitialized ==> {
                    &&& r == 0 <==> final(s)@ is Ready
                    &&& r == -1 <==> final(s)@ is FailedWithoutValue || final(s)@ is FailedWithValue
                }
            },
        forall|ts: &mut ThreadState<'py>| #[trigger]
            call_ensures(exec_impl::<T, E>, (ts, module, None, e), r) ==> r == -1 && system_error(
                ts@,
                final(ts)@,
            ),
{
}

/// A state that was made ready, or whose exec failed, is cleared by the next
/// clear. It stays in its block, which lends it no more. Any other clear, and so
/// any second one, changes nothing. C is always told that it worked.
pub proof fn law_clear<T: ModuleState>(r: i32)
    ensures
        forall|s: &mut StateStorage<T>| #[trigger]
            call_ensures(clear_impl::<T>, (Some(s),), r) ==> {
                &&& r == 0
                &&& s@ is Ready || s@ is FailedWithValue ==> final(s)@ is Cleared && exists|
                    t: &mut T,
                |
                    #[trigger] call_ensures(T::clear, (t,), ()) && s@.value() == Some(*t)
                        && final(s)@.value() == Some(*final(t))
                &&& !(s@ is Ready || s@ is FailedWithValue) ==> final(s)@ == s@
            },
        call_ensures(clear_impl::<T>, (None,), r) ==> r == 0,
{
}

/// After a free there is no state in the block, whatever was there.
pub proof fn law_free<T: ModuleState>()
    ensures
        forall|s: &mut StateStorage<T>| #[trigger]
            call_ensures(free_impl::<T>, (Some(s),), ()) ==> final(s)@ is Dropped
                && final(s)@.value() is None,
{
}

/// A panic ends the operation that was under way as a failure of it and loses
/// no state; where nothing was under way nothing changes. C is told about a
/// failure, and `SystemError` is raised.
pub proof fn law_panicked<T: ModuleState>(r: i32)
    ensures
        forall|s: &mut StateStorage<T>| #[trigger]
            call_ensures(StateStorage::<T>::unwound, (s,), ()) ==> ended(s@, final(s)@),
        forall|ts: &mut ThreadState<'_>, s: &mut StateStorage<T>| #[trigger]
            call_ensures(glue_panicked::<T>, (ts, Some(s)), r) ==> r == -1 && ended(s@, final(s)@)
                && system_error(ts@, final(ts)@),
{
}

/// What a panic makes of a phase.
pub open spec fn ended<T>(before: StatePhase<T>, after: StatePhase<T>) -> bool {
    &&& after.value() == before.value()
    &&& before is Initializing ==> after is FailedWithoutValue
    &&& before is Executing ==> after is FailedWithValue
    &&& before is Clearing ==> after is ClearFailed
    &&& before is Dropping ==> after is Dropped
    &&& !(before is Initializing || before is Executing || before is Clearing || before is Dropping)
        ==> after == before
}

/// In the phases with a state, traversal returns what the state's own traversal
/// came to: zero, or the code that stopped it. Without a state it returns zero.
pub proof fn law_traverse<T: ModuleState, F: Fn(usize) -> i32>(
    storage: Option<&StateStorage<T>>,
    visit: &Visit<F>,
    r: i32,
)
    requires
        call_ensures(traverse_impl::<T, F>, (storage, visit), r),
    ensures
        (storage matches Some(s) ==> s@ is Uninitialized || s@ is Initializing
            || s@ is FailedWithoutValue || s@ is Dropping || s@ is Dropped) ==> r == 0,
        (storage matches Some(s) && (s@ is Executing || s@ is Ready || s@ is FailedWithValue
            || s@ is Clearing || s@ is Cleared || s@ is ClearFailed)) ==> exists|
            res: TraverseResult,
        |
            #[trigger] call_ensures(
                T::traverse::<F>,
                (&(storage->0@.value()->0), visit),
                res,
            ) && (res is Ok ==> r == 0) && (res matches Err(TraverseStop(code)) ==> r == code),
{
}

/// The block of a module is asked for by the address of the module.
pub proof fn law_storage_query(module: usize, r: SysQuery<'static>)
    requires
        call_ensures(storage_query, (module,), r),
    ensures
        r@ == SysQueryView::ModuleGetState(module),
{
}

/// A block holds a state from when it is made until it is dropped, and it is the
/// same one in every phase between.
pub proof fn law_phases_hold<T>(v: T)
    ensures
        StatePhase::Executing(v).value() == Some(v),
        StatePhase::Ready(v).value() == Some(v),
        StatePhase::FailedWithValue(v).value() == Some(v),
        StatePhase::Clearing(v).value() == Some(v),
        StatePhase::Cleared(v).value() == Some(v),
        StatePhase::ClearFailed(v).value() == Some(v),
        StatePhase::<T>::Uninitialized.value() is None,
        StatePhase::<T>::Initializing.value() is None,
        StatePhase::<T>::FailedWithoutValue.value() is None,
        StatePhase::<T>::Dropping.value() is None,
        StatePhase::<T>::Dropped.value() is None,
{
}

/// What is asked about the phase of a block is what it is.
pub proof fn law_phase_asked<T>(s: StateStorage<T>, yes: bool, v: Option<&T>)
    ensures
        call_ensures(StateStorage::<T>::is_initializing, (&s,), yes) ==> (yes
            <==> s@ is Initializing),
        call_ensures(StateStorage::<T>::executing, (&s,), v) ==> {
            &&& v is Some <==> s@ is Executing
            &&& v matches Some(x) ==> s@ == StatePhase::Executing(*x)
        },
{
}

/// A visitor is called on the object itself, and what it answers decides: zero
/// goes on, any other answer stops the traversal with that code. Without a
/// visitor the traversal goes on.
pub proof fn law_visit<F: Fn(usize) -> i32, T>(
    f: Option<F>,
    visit: Visit<F>,
    obj: Py<T>,
    r: TraverseResult,
)
    ensures
        call_ensures(Visit::<F>::new, (f,), visit) ==> visit.visitor() == f,
        call_ensures(Visit::<F>::call::<T>, (&visit, &obj), r) ==> match visit.visitor() {
            None => r is Ok,
            Some(g) => exists|code: i32| #[trigger]
                g.ensures((obj.addr(),), code) && (r is Ok <==> code == 0) && (r matches Err(
                    TraverseStop(c),
                ) ==> c == code),
        },
{
}

/// Exec on a fresh block makes the state from the token and the module as they
/// are. The module's own exec function then runs exactly if a state was made. It
/// finds that state in the block, and how it ends is how exec ends.
pub proof fn law_exec_calls<'py, T: ModuleState, E>(module: usize, e: E, r: i32)
    where
        E: FnOnce(
            &mut ThreadState<'py>,
            &Borrowed<'_, 'py, PyModule>,
            &StateStorage<T>,
        ) -> PyResult<()>,
    ensures
        forall|ts: &mut ThreadState<'py>, s: &mut StateStorage<T>| #[trigger]
            call_ensures(exec_impl::<T, E>, (ts, module, Some(s), e), r) && module != 0
                && s@ is Uninitialized ==> exists|
                t: &mut ThreadState<'py>,
                m: &Borrowed<'_, 'py, PyModule>,
                made: PyResult<T>,
            |
                {
                    &&& #[trigger] call_ensures(T::new, (t, m), made)
                    &&& t@ == ts@
                    &&& m.addr() == module
                    &&& made is Err ==> r == -1 && final(ts)@ == final(t)@
                    &&& made matches Ok(state) ==> exists|
                        t2: &mut ThreadState<'py>,
                        m2: &Borrowed<'_, 'py, PyModule>,
                        b2: &StateStorage<T>,
                        out: PyResult<()>,
                    |
                        {
                            &&& #[trigger] e.ensures((t2, m2, b2), out)
                            &&& t2@ == final(t)@ && m2.addr() == module
                            &&& b2@ == StatePhase::Executing(state)
                            &&& final(ts)@ == final(t2)@
                            &&& out is Ok ==> r == 0 && final(s)@ == StatePhase::Ready(state)
                            &&& out is Err ==> r == -1 && final(s)@ == StatePhase::FailedWithValue(
                                state,
                            )
                        }
                },
{
}

/// A lent module gives its state as an owned one does, and a state block is as
/// large as it has to be.
pub proof fn law_lent_module_state<'a, 'py, T: ModuleState>(
    m: Borrowed<'a, 'py, PyModule>,
    storage: Option<&'a StateStorage<T>>,
    r: PyResult<&'a T>,
    n: isize,
)
    ensures
        forall|ts: &mut ThreadState<'_>| #[trigger]
            call_ensures(Borrowed::<'a, 'py, PyModule>::module_state::<T>, (&m, ts, storage), r)
                ==> lends(storage, ts@, r, final(ts)@),
        call_ensures(state_size::<T>, (), n) ==> n == vstd::layout::size_of::<StateStorage<T>>(),
{
}

} // verus!
