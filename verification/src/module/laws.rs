//! What holds of every module definition.

use vstd::prelude::*;
use crate::err::PyResult;
use crate::module::slots::{
    build_flag, module_slots, slot, version_hex, Bindings, ModuleParts, PySlot, SlotValue,
    PY_MOD_EXEC, PY_MOD_GIL, PY_MOD_GIL_NOT_USED, PY_MOD_MULTIPLE_INTERPRETERS,
    PY_MOD_PER_INTERPRETER_GIL_SUPPORTED,
};
use crate::module::state::StatePhase;

verus! {

/// Whether a slot id survives as itself and is not the end marker.
pub open spec fn usable_id(id: u32) -> bool {
    0 < id <= u16::MAX
}

/// Whether the headers give usable slot ids.
pub open spec fn usable_ids(b: Bindings) -> bool {
    &&& usable_id(b.mod_name)
    &&& usable_id(b.mod_doc)
    &&& usable_id(b.mod_state_size)
    &&& usable_id(b.mod_methods)
    &&& usable_id(b.mod_state_traverse)
    &&& usable_id(b.mod_state_clear)
    &&& usable_id(b.mod_state_free)
    &&& usable_id(b.mod_abi)
}

pub(crate) proof fn lemma_usable(id: u32)
    requires
        usable_id(id),
    ensures
        #[verifier::truncate] (id as u16) == id,
{
}

/// The slots of a module end with the end marker and with no other before it.
pub proof fn law_slots_terminated(b: Bindings, m: ModuleParts)
    requires
        usable_ids(b),
    ensures
        module_slots(b, m).last() == (PySlot {
            id: 0,
            flags: 0,
            reserved: 0,
            value: SlotValue::Ptr(0),
        }),
        forall|i: int|
            0 <= i < module_slots(b, m).len() - 1 ==> (#[trigger] module_slots(b, m)[i]).id != 0,
{
    lemma_usable(b.mod_name);
    lemma_usable(b.mod_doc);
    lemma_usable(b.mod_state_size);
    lemma_usable(b.mod_methods);
    lemma_usable(b.mod_state_traverse);
    lemma_usable(b.mod_state_clear);
    lemma_usable(b.mod_state_free);
    lemma_usable(b.mod_abi);
    lemma_usable(PY_MOD_EXEC);
    lemma_usable(PY_MOD_MULTIPLE_INTERPRETERS);
    lemma_usable(PY_MOD_GIL);
}

/// Whether some slot has this id.
pub open spec fn has_slot(slots: Seq<PySlot>, id: u32) -> bool {
    exists|i: int| 0 <= i < slots.len() && (#[trigger] slots[i]).id == id
}

/// Every slot that a module needs is there.
pub proof fn law_required_slots(b: Bindings, m: ModuleParts)
    requires
        usable_ids(b),
    ensures
        has_slot(module_slots(b, m), b.mod_name),
        has_slot(module_slots(b, m), b.mod_doc),
        has_slot(module_slots(b, m), b.mod_state_size),
        has_slot(module_slots(b, m), b.mod_methods),
        has_slot(module_slots(b, m), PY_MOD_EXEC),
        has_slot(module_slots(b, m), b.mod_state_traverse),
        has_slot(module_slots(b, m), b.mod_state_clear),
        has_slot(module_slots(b, m), b.mod_state_free),
        has_slot(module_slots(b, m), PY_MOD_MULTIPLE_INTERPRETERS),
        has_slot(module_slots(b, m), PY_MOD_GIL),
        has_slot(module_slots(b, m), b.mod_abi),
{
    let slots = module_slots(b, m);
    lemma_usable(b.mod_name);
    lemma_usable(b.mod_doc);
    lemma_usable(b.mod_state_size);
    lemma_usable(b.mod_methods);
    lemma_usable(b.mod_state_traverse);
    lemma_usable(b.mod_state_clear);
    lemma_usable(b.mod_state_free);
    lemma_usable(b.mod_abi);
    lemma_usable(PY_MOD_EXEC);
    lemma_usable(PY_MOD_MULTIPLE_INTERPRETERS);
    lemma_usable(PY_MOD_GIL);
    assert(slots[0].id == b.mod_name);
    assert(slots[1].id == b.mod_doc);
    assert(slots[2].id == b.mod_state_size);
    assert(slots[3].id == b.mod_methods);
    assert(slots[4].id == PY_MOD_EXEC);
    assert(slots[5].id == b.mod_state_traverse);
    assert(slots[6].id == b.mod_state_clear);
    assert(slots[7].id == b.mod_state_free);
    assert(slots[8].id == PY_MOD_MULTIPLE_INTERPRETERS);
    assert(slots[9].id == PY_MOD_GIL);
    assert(slots[10].id == b.mod_abi);
}

/// Every module declares that it does without the lock of the interpreter, and
/// that it can run under one lock per interpreter.
pub proof fn law_free_threading_declared(b: Bindings, m: ModuleParts)
    ensures
        module_slots(b, m).contains(
            slot(PY_MOD_GIL, b.slot_intptr, SlotValue::Ptr(PY_MOD_GIL_NOT_USED)),
        ),
        module_slots(b, m).contains(
            slot(
                PY_MOD_MULTIPLE_INTERPRETERS,
                b.slot_intptr,
                SlotValue::Ptr(PY_MOD_PER_INTERPRETER_GIL_SUPPORTED),
            ),
        ),
{
    let slots = module_slots(b, m);
    assert(slots[8] == slot(
        PY_MOD_MULTIPLE_INTERPRETERS,
        b.slot_intptr,
        SlotValue::Ptr(PY_MOD_PER_INTERPRETER_GIL_SUPPORTED),
    ));
    assert(slots[9] == slot(PY_MOD_GIL, b.slot_intptr, SlotValue::Ptr(PY_MOD_GIL_NOT_USED)));
}

/// The lifecycle of a module's state never goes back, whatever operations follow
/// each other.
pub proof fn law_phases_advance<T>(p: StatePhase<T>, q: StatePhase<T>, r: StatePhase<T>)
    requires
        p.advances(q),
        q.advances(r),
    ensures
        p.advances(r),
        p.advances(p),
{
}

/// Exec is claimed at most once, a state is cleared at most once, a state that
/// failed or was cleared is not lent any more, and a state that was dropped does
/// not come back.
pub proof fn law_lifecycle_once<T>(p: StatePhase<T>, q: StatePhase<T>)
    requires
        p.advances(q),
    ensures
        q is Uninitialized ==> p is Uninitialized,
        q is Initializing ==> p is Initializing || p is Uninitialized,
        p is Clearing || p is Cleared || p is ClearFailed ==> !q.clearable(),
        p is FailedWithValue || p is FailedWithoutValue || p is Clearing || p is Cleared
            || p is ClearFailed ==> !(q is Ready),
        p is Dropping || p is Dropped ==> q.value() is None,
        p is Dropped ==> q is Dropped,
{
}

/// A state that exec made ready, or that failed, is still there, and clearing is
/// what comes next for it.
pub proof fn law_exec_keeps_state<T>(state: T, ran: PyResult<()>)
    ensures
        StatePhase::after_exec(state, ran).value() == Some(state),
        StatePhase::after_exec(state, ran).clearable(),
        StatePhase::after_exec(state, ran) is Ready <==> ran is Ok,
        StatePhase::after_new(Ok(state)) == StatePhase::Executing(state),
{
}

/// Each part of the version can be read back from its place in
/// `PY_VERSION_HEX`.
pub proof fn law_version_parts(b: Bindings)
    requires
        b.major_version < 0x100,
        b.minor_version < 0x100,
        b.micro_version < 0x100,
        b.release_level < 0x10,
        b.release_serial < 0x10,
    ensures
        version_hex(b) >> 24u32 == b.major_version,
        (version_hex(b) >> 16u32) & 0xff == b.minor_version,
        (version_hex(b) >> 8u32) & 0xff == b.micro_version,
        (version_hex(b) >> 4u32) & 0xf == b.release_level,
        version_hex(b) & 0xf == b.release_serial,
{
    let (ma, mi, mc, rl, rs) = (
        b.major_version,
        b.minor_version,
        b.micro_version,
        b.release_level,
        b.release_serial,
    );
    let v = (ma << 24u32) | (mi << 16u32) | (mc << 8u32) | (rl << 4u32) | rs;
    assert(v >> 24u32 == ma && (v >> 16u32) & 0xff == mi && (v >> 8u32) & 0xff == mc && (v >> 4u32)
        & 0xf == rl && v & 0xf == rs) by (bit_vector)
        requires
            v == (ma << 24u32) | (mi << 16u32) | (mc << 8u32) | (rl << 4u32) | rs,
            ma < 0x100,
            mi < 0x100,
            mc < 0x100,
            rl < 0x10,
            rs < 0x10,
    ;
}

/// The ABI declaration is internal, and of the two build modes it names just
/// the one of the interpreter.
pub proof fn law_abi_flags(b: Bindings)
    requires
        b.abi_internal != 0,
        b.abi_internal <= u16::MAX,
        b.abi_gil <= u16::MAX,
        b.abi_freethreaded <= u16::MAX,
        b.abi_internal & b.abi_gil == 0,
        b.abi_internal & b.abi_freethreaded == 0,
        b.abi_gil & b.abi_freethreaded == 0,
    ensures
        ({
            let flags = #[verifier::truncate] ((b.abi_internal | build_flag(b)) as u16);
            &&& flags & (b.abi_internal as u16) != 0
            &&& flags & ((b.abi_gil | b.abi_freethreaded) as u16) == build_flag(b)
        }),
{
    let (i, g, f) = (b.abi_internal, b.abi_gil, b.abi_freethreaded);
    assert({
        &&& ((i | g) as u16) & (i as u16) != 0
        &&& ((i | f) as u16) & (i as u16) != 0
        &&& ((i | g) as u16) & ((g | f) as u16) == g
        &&& ((i | f) as u16) & ((g | f) as u16) == f
    }) by (bit_vector)
        requires
            i != 0,
            i <= 0xffff,
            g <= 0xffff,
            f <= 0xffff,
            i & g == 0,
            i & f == 0,
            g & f == 0,
    ;
}

} // verus!
