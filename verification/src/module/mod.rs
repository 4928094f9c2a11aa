//! Module definition: the slots that define a module, and its typed state.

pub mod call_laws;
pub mod laws;
pub mod slots;
pub mod state;
pub mod state_laws;

pub use slots::{
    abi_info, export_module, py_version_hex, slot_data, slot_end, slot_func, slot_size,
    slot_static_data, slot_uint64, Bindings, GetSetDefs, MethodDefs, ModuleParts, PySlot,
    SlotArray, PY_MOD_CREATE, PY_MOD_EXEC, PY_MOD_GIL, PY_MOD_MULTIPLE_INTERPRETERS,
};
pub use state::{
    check_exec, claim_exec, clear_impl, exec_impl, finish_exec, free_impl, glue_panicked,
    install_state, module_state, state_from_module_ptr, state_size, storage_state_ref,
    traverse_impl, ModuleState, StatePhase, StateStorage, TraverseResult, TraverseStop, Visit,
};
