use std::sync::atomic::{AtomicUsize, Ordering};
use std::sync::Arc;

use cpython_api_core::base64::{base64_exec, Base64State};
use cpython_api_core::class::payload_offset;
use cpython_api_core::err::PyValueError;
use cpython_api_core::module::slots::{export_symbol, MethodFunc, SlotValue};
use cpython_api_core::conversion::callback_panicked;
use cpython_api_core::module::state::storage_query;
use cpython_api_core::module::{
    abi_info, check_exec, claim_exec, clear_impl, exec_impl, export_module, finish_exec, free_impl,
    glue_panicked, install_state, module_state, py_version_hex, slot_data, slot_end, slot_func,
    slot_size, slot_static_data, slot_uint64, state_from_module_ptr, state_size, storage_state_ref,
    traverse_impl, Bindings, ModuleParts, StateStorage, TraverseStop, Visit,
};
use cpython_api_core::sys_calls::SysQuery;
use cpython_api_core::threadstate::ExcType;
use cpython_api_core::{
    Borrowed, Bound, ModuleState, Py, PyModule, PyResult, PyType, ThreadState, TraverseResult,
};

fn token() -> ThreadState<'static> {
    ThreadState::from_raw(8, 16, 1)
}

fn bindings() -> Bindings {
    Bindings {
        mod_name: 0x1_0064,
        mod_doc: 101,
        mod_state_size: 102,
        mod_methods: 103,
        mod_state_traverse: 104,
        mod_state_clear: 105,
        mod_state_free: 106,
        mod_abi: 109,
        slot_intptr: 1,
        slot_static: 2,
        meth_fastcall: 0x80,
        meth_keywords: 0x2,
        meth_method: 0x200,
        abi_internal: 8,
        abi_gil: 2,
        abi_freethreaded: 4,
        gil_disabled: false,
        major_version: 3,
        minor_version: 15,
        micro_version: 1,
        release_level: 0xa,
        release_serial: 2,
    }
}

/// State with two references, of which one can be cleared.
struct TestState {
    error: Option<Py<PyType>>,
    kept: Py<PyType>,
}

impl ModuleState for TestState {
    fn new<'py>(ts: &mut ThreadState<'py>, module: &Borrowed<'_, 'py, PyModule>) -> PyResult<Self> {
        if module.as_ptr() == 24 {
            return Err(PyValueError::raise(ts, "no state"));
        }
        Ok(TestState {
            error: Some(Bound::from_owned_ptr(ts, 200).unbind()),
            kept: Bound::from_owned_ptr(ts, 208).unbind(),
        })
    }

    fn traverse<F: Fn(usize) -> i32>(&self, visit: &Visit<F>) -> TraverseResult {
        if let Some(e) = &self.error {
            visit.call(e)?;
        }
        visit.call(&self.kept)
    }

    fn clear(&mut self) {
        self.error = None;
    }
}

fn ready() -> StateStorage<TestState> {
    let mut ts = token();
    let mut storage = StateStorage::empty();
    assert_eq!(exec_impl(&mut ts, 32, Some(&mut storage), |_, _, _| Ok(())), 0);
    storage
}

/// What a traversal reports.
fn reported(storage: &StateStorage<TestState>) -> Vec<usize> {
    let seen = std::cell::RefCell::new(Vec::new());
    let visit = Visit::new(Some(|obj: usize| {
        seen.borrow_mut().push(obj);
        0
    }));
    assert_eq!(traverse_impl(Some(storage), &visit), 0);
    seen.into_inner()
}

#[test]
fn slots_hold_their_values() {
    let b = bindings();
    let s = slot_data(&b, 5, 64);
    assert_eq!((s.id, s.flags, s.value), (5, 1, SlotValue::Ptr(64)));
    let s = slot_static_data(&b, b.mod_name, 64);
    // Ids are cut to their field.
    assert_eq!((s.id, s.flags, s.value), (100, 2, SlotValue::Ptr(64)));
    let s = slot_func(5, Some(64));
    assert_eq!((s.id, s.flags, s.value), (5, 0, SlotValue::Func(Some(64))));
    assert_eq!(slot_func(5, None).value, SlotValue::Func(None));
    let s = slot_size(5, -1);
    assert_eq!((s.id, s.flags, s.value), (5, 0, SlotValue::Size(-1)));
    let s = slot_uint64(5, u64::MAX);
    assert_eq!((s.id, s.flags, s.value), (5, 0, SlotValue::Uint64(u64::MAX)));
    let s = slot_end();
    assert_eq!((s.id, s.flags, s.reserved, s.value), (0, 0, 0, SlotValue::Ptr(0)));
}

#[test]
fn free_threading_is_declared() {
    let b = bindings();
    let parts = ModuleParts {
        name: 1,
        doc: 2,
        state_size: 16,
        methods: 3,
        exec_fn: 4,
        traverse_fn: 5,
        clear_fn: 6,
        free_fn: 7,
        abi: 8,
    };
    let array = export_module(&b, &parts);
    let slots = array.as_ptr();
    assert_eq!(slots.len(), 12);
    let find = |id: u32| slots.iter().find(|s| s.id as u32 == id).unwrap();
    assert_eq!(find(87).value, SlotValue::Ptr(1));
    assert_eq!(find(86).value, SlotValue::Ptr(2));
    assert_eq!(find(85).value, SlotValue::Func(Some(4)));
    assert_eq!(find(102).value, SlotValue::Size(16));
    assert_eq!(find(86).flags, 1);
    assert_eq!(find(103).flags, 2);
    assert!(slots[..11].iter().all(|s| s.id != 0));
    assert!(slots.iter().all(|s| s.reserved == 0));
    assert_eq!(slots[11].id, 0);
}

#[test]
fn version_and_abi() {
    let mut b = bindings();
    assert_eq!(py_version_hex(&b), 0x030f01a2);
    let abi = abi_info(&b);
    assert_eq!(abi.flags, 10);
    assert_eq!(abi.abiinfo_minor_version, 0);
    assert_eq!(abi.abi_version, 0x030f01a2);
    b.gil_disabled = true;
    assert_eq!(abi_info(&b).flags, 12);
    assert_eq!(export_symbol("_base64"), "PyModExport__base64");
    assert_eq!(MethodFunc::Null, cpython_api_core::module::slots::MethodDef::zeroed().func);
}

#[test]
fn exec_makes_the_state_first() {
    let mut ts = token();
    let mut storage: StateStorage<TestState> = StateStorage::empty();
    let own = |ts: &mut ThreadState<'static>, m: &Borrowed<'_, '_, PyModule>, block: &StateStorage<TestState>| {
        assert_eq!(m.as_ptr(), 32);
        // The state is in its block by then, but it is not lent yet.
        assert_eq!(block.executing().map(|state| state.kept.as_ptr()), Some(208));
        let all: Visit<fn(usize) -> i32> = Visit::new(Some(|obj| obj as i32));
        assert_eq!(traverse_impl(Some(block), &all), 200);
        assert!(state_from_module_ptr(ts, 32, Some(block)).is_err());
        assert_eq!(ts.hand_over_exception(), not_initialized());
        Ok(())
    };
    assert_eq!(exec_impl(&mut ts, 32, Some(&mut storage), own), 0);
    let state = storage_state_ref(&mut ts, Some(&storage)).unwrap();
    assert_eq!(state.kept.as_ptr(), 208);
    assert!(storage.executing().is_none());
}

fn not_initialized() -> Option<(ExcType, String)> {
    Some((ExcType::SystemError, "module state not initialized".to_string()))
}

fn claimed() -> Option<(ExcType, String)> {
    Some((ExcType::SystemError, "module exec called more than once".to_string()))
}

#[test]
fn exec_failures() {
    let mut ts = token();
    let mut storage: StateStorage<TestState> = StateStorage::empty();
    assert_eq!(exec_impl(&mut ts, 0, Some(&mut storage), |_, _, _| panic!("not called")), -1);
    assert_eq!(
        ts.hand_over_exception(),
        Some((ExcType::SystemError, "module exec called with NULL module".to_string()))
    );
    assert_eq!(exec_impl::<TestState, _>(&mut ts, 32, None, |_, _, _| panic!("not called")), -1);
    assert_eq!(
        ts.hand_over_exception(),
        Some((ExcType::SystemError, "module has no state block".to_string()))
    );
    // Without a state the module's own function does not run.
    assert_eq!(exec_impl(&mut ts, 24, Some(&mut storage), |_, _, _| panic!("not called")), -1);
    assert_eq!(ts.hand_over_exception(), Some((ExcType::ValueError, "no state".to_string())));
    assert!(storage_state_ref(&mut ts, Some(&storage)).is_err());
    assert_eq!(ts.hand_over_exception(), not_initialized());
    // It is not tried again.
    assert_eq!(exec_impl(&mut ts, 32, Some(&mut storage), |_, _, _| panic!("not called")), -1);
    assert_eq!(ts.hand_over_exception(), claimed());
    // A failure of the module's own function keeps the state, but does not lend it.
    let mut storage: StateStorage<TestState> = StateStorage::empty();
    let status = exec_impl(&mut ts, 32, Some(&mut storage), |ts: &mut ThreadState<'static>, _, _| {
        Err(PyValueError::raise(ts, "own"))
    });
    assert_eq!(status, -1);
    assert_eq!(ts.hand_over_exception(), Some((ExcType::ValueError, "own".to_string())));
    assert!(state_from_module_ptr(&mut ts, 32, Some(&storage)).is_err());
    assert_eq!(ts.hand_over_exception(), not_initialized());
    assert_eq!(reported(&storage), vec![200, 208]);
    assert_eq!(clear_impl(Some(&mut storage)), 0);
    assert_eq!(reported(&storage), vec![208]);
}

#[test]
fn exec_runs_once() {
    let mut ts = token();
    let mut storage = ready();
    assert_eq!(exec_impl(&mut ts, 32, Some(&mut storage), |_, _, _| panic!("not called")), -1);
    assert_eq!(ts.hand_over_exception(), claimed());
    assert!(ts.take_calls().is_empty());
    // The state is what it was.
    assert_eq!(storage_state_ref(&mut ts, Some(&storage)).unwrap().kept.as_ptr(), 208);
    // Nor does it run while another exec is under way, or after the state is gone.
    let mut busy: StateStorage<TestState> = StateStorage::empty();
    claim_exec(&mut busy);
    assert!(busy.is_initializing());
    assert!(check_exec(&mut ts, 32, Some(&busy)).is_err());
    assert_eq!(ts.hand_over_exception(), claimed());
    assert!(busy.is_initializing());
    free_impl(Some(&mut storage));
    assert!(check_exec(&mut ts, 32, Some(&storage)).is_err());
    assert_eq!(ts.hand_over_exception(), claimed());
}

#[test]
fn exec_step_by_step() {
    let mut ts = token();
    let mut storage: StateStorage<TestState> = StateStorage::empty();
    assert!(check_exec(&mut ts, 0, Some(&storage)).is_err());
    assert!(check_exec::<TestState>(&mut ts, 32, None).is_err());
    let _ = ts.hand_over_exception();
    assert!(check_exec(&mut ts, 32, Some(&storage)).is_ok());
    claim_exec(&mut storage);
    assert_eq!(reported(&storage), Vec::<usize>::new());
    let made = TestState::new(&mut ts, &Bound::ref_from_ptr(&32));
    assert!(install_state(&mut storage, made).is_ok());
    assert!(storage.executing().is_some());
    assert_eq!(reported(&storage), vec![200, 208]);
    assert_eq!(clear_impl(Some(&mut storage)), 0);
    assert_eq!(reported(&storage), vec![200, 208]);
    assert_eq!(finish_exec(&mut storage, Ok(())), 0);
    assert!(storage_state_ref(&mut ts, Some(&storage)).is_ok());

    let mut storage: StateStorage<TestState> = StateStorage::empty();
    claim_exec(&mut storage);
    let made = TestState::new(&mut ts, &Bound::ref_from_ptr(&24));
    assert!(install_state(&mut storage, made).is_err());
    assert!(!storage.is_initializing() && storage.executing().is_none());
}

#[test]
fn panics_publish_a_failure() {
    let mut ts = token();
    let panicked = Some((ExcType::SystemError, "a Rust callback panicked".to_string()));
    // While the state is made.
    let mut storage: StateStorage<TestState> = StateStorage::empty();
    claim_exec(&mut storage);
    assert_eq!(glue_panicked(&mut ts, Some(&mut storage)), -1);
    assert_eq!(ts.hand_over_exception(), panicked);
    assert!(!storage.is_initializing());
    assert_eq!(reported(&storage), Vec::<usize>::new());
    // While the module's own exec function runs.
    let mut storage: StateStorage<TestState> = StateStorage::empty();
    claim_exec(&mut storage);
    let made = TestState::new(&mut ts, &Bound::ref_from_ptr(&32));
    assert!(install_state(&mut storage, made).is_ok());
    storage.unwound();
    assert!(storage.executing().is_none());
    assert_eq!(reported(&storage), vec![200, 208]);
    assert!(storage_state_ref(&mut ts, Some(&storage)).is_err());
    // After that nothing is under way.
    let mut storage = ready();
    storage.unwound();
    assert_eq!(storage_state_ref(&mut ts, Some(&storage)).unwrap().kept.as_ptr(), 208);
    assert_eq!(glue_panicked::<TestState>(&mut ts, None), -1);
    assert_eq!(callback_panicked(&mut ts), 0);
    assert_eq!(ts.hand_over_exception(), panicked);
}

#[test]
fn state_that_is_not_there() {
    let mut ts = token();
    let storage: StateStorage<TestState> = StateStorage::empty();
    let expected = Some((ExcType::SystemError, "module state not initialized".to_string()));
    assert!(storage_state_ref(&mut ts, Some(&storage)).is_err());
    assert_eq!(ts.hand_over_exception(), expected);
    assert!(state_from_module_ptr::<TestState>(&mut ts, 32, None).is_err());
    assert_eq!(ts.hand_over_exception(), expected);
    let module: Bound<'_, PyModule> = Bound::from_owned_ptr(&ts, 32);
    assert!(module_state(&mut ts, &module, Some(&storage)).is_err());
    assert_eq!(ts.hand_over_exception(), expected);
    let full = ready();
    let addr: usize = 32;
    let lent: Borrowed<'_, '_, PyModule> = Bound::ref_from_ptr(&addr);
    assert!(lent.module_state(&mut ts, Some(&storage)).is_err());
    assert_eq!(ts.hand_over_exception(), expected);
    assert_eq!(lent.module_state(&mut ts, Some(&full)).unwrap().kept.as_ptr(), 208);
    assert_eq!(module_state(&mut ts, &module, Some(&full)).unwrap().kept.as_ptr(), 208);
    assert!(matches!(storage_query(32), SysQuery::ModuleGetState(32)));
}

#[test]
fn traversal_stops_where_the_visitor_does() {
    let storage = ready();
    assert_eq!(reported(&storage), vec![200, 208]);
    let stop = Visit::new(Some(|obj: usize| if obj == 200 { 7 } else { 0 }));
    assert_eq!(traverse_impl(Some(&storage), &stop), 7);
    let none: Visit<fn(usize) -> i32> = Visit::new(None);
    assert_eq!(traverse_impl(Some(&storage), &none), 0);
    let empty: StateStorage<TestState> = StateStorage::empty();
    assert_eq!(traverse_impl(Some(&empty), &stop), 0);
    assert_eq!(traverse_impl::<TestState, _>(None, &stop), 0);
    let later = Visit::new(Some(|obj: usize| if obj == 208 { -3 } else { 0 }));
    assert_eq!(traverse_impl(Some(&storage), &later), -3);
    let state: &TestState = storage_state_ref(&mut token(), Some(&storage)).unwrap();
    assert_eq!(state.traverse(&later), Err(TraverseStop(-3)));
    // A state without references reports none.
    assert!(Base64State.traverse(&stop).is_ok());
}

#[test]
fn clearing_and_freeing() {
    let mut ts = token();
    let mut storage = ready();
    assert_eq!(clear_impl(Some(&mut storage)), 0);
    assert_eq!(reported(&storage), vec![208]);
    // A state that was cleared is not lent any more.
    assert!(storage_state_ref(&mut ts, Some(&storage)).is_err());
    free_impl(Some(&mut storage));
    assert!(storage_state_ref(&mut ts, Some(&storage)).is_err());
    assert_eq!(reported(&storage), Vec::<usize>::new());
    free_impl(Some(&mut storage));
    assert_eq!(clear_impl(Some(&mut storage)), 0);
    assert_eq!(clear_impl::<TestState>(None), 0);
    free_impl::<TestState>(None);
}

/// State that counts how often it is cleared and dropped.
struct Counted {
    cleared: Arc<AtomicUsize>,
    dropped: Arc<AtomicUsize>,
}

impl ModuleState for Counted {
    fn new<'py>(_ts: &mut ThreadState<'py>, _module: &Borrowed<'_, 'py, PyModule>) -> PyResult<Self> {
        Ok(Counted { cleared: Arc::default(), dropped: Arc::default() })
    }

    fn traverse<F: Fn(usize) -> i32>(&self, _visit: &Visit<F>) -> TraverseResult {
        Ok(())
    }

    fn clear(&mut self) {
        self.cleared.fetch_add(1, Ordering::SeqCst);
    }
}

impl Drop for Counted {
    fn drop(&mut self) {
        self.dropped.fetch_add(1, Ordering::SeqCst);
    }
}

#[test]
fn cleared_and_dropped_once() {
    let mut ts = token();
    let mut storage: StateStorage<Counted> = StateStorage::empty();
    assert_eq!(exec_impl(&mut ts, 32, Some(&mut storage), |_, _, _| Ok(())), 0);
    let state = storage_state_ref(&mut ts, Some(&storage)).unwrap();
    let (cleared, dropped) = (state.cleared.clone(), state.dropped.clone());
    for _ in 0..3 {
        assert_eq!(clear_impl(Some(&mut storage)), 0);
        assert_eq!(cleared.load(Ordering::SeqCst), 1);
        assert_eq!(dropped.load(Ordering::SeqCst), 0);
    }
    for _ in 0..3 {
        free_impl(Some(&mut storage));
        assert_eq!(dropped.load(Ordering::SeqCst), 1);
    }
    assert_eq!(clear_impl(Some(&mut storage)), 0);
    assert_eq!(cleared.load(Ordering::SeqCst), 1);
    // A block that was never used has nothing to drop.
    let mut unused: StateStorage<Counted> = StateStorage::empty();
    free_impl(Some(&mut unused));
    assert!(check_exec(&mut ts, 32, Some(&unused)).is_err());
}

#[test]
fn base64_module_runs() {
    let mut ts = token();
    let mut storage: StateStorage<Base64State> = StateStorage::empty();
    let status = exec_impl(&mut ts, 32, Some(&mut storage), |t, m, _| base64_exec(t, m));
    assert_eq!(status, 0);
    assert!(storage_state_ref(&mut ts, Some(&storage)).is_ok());
    assert!(!ts.exception_set());
}

#[test]
fn sizes_and_offsets() {
    assert_eq!(state_size::<TestState>(), std::mem::size_of::<StateStorage<TestState>>() as isize);
    assert!(state_size::<TestState>() >= 16);
    assert_eq!(payload_offset(16, 8), 16);
    assert_eq!(payload_offset(17, 8), 24);
    assert_eq!(payload_offset(16, 64), 64);
    assert_eq!(payload_offset(0, 1), 0);
}
