//! What the functions that define a module do, call by call.

use vstd::prelude::*;
use vstd::string::*;
use crate::cstr::CStr;
use crate::module::laws::{lemma_usable, usable_ids};
use crate::module::slots::{
    abi_info, export_module, export_symbol, py_version_hex, slot_data, slot_end, slot_func,
    slot_size, slot_static_data, slot_uint64, AbiInfo, Bindings, GetSetDef, GetSetDefs, MethodDef,
    MethodDefs, MethodFunc, ModuleParts, PySlot, SlotArray, SlotValue, PY_MOD_EXEC, PY_MOD_GIL,
    PY_MOD_MULTIPLE_INTERPRETERS,
};

verus! {

/// The ids of the slots of a module.
pub open spec fn ids(b: Bindings) -> Seq<u32> {
    seq![
        b.mod_name,
        b.mod_doc,
        b.mod_state_size,
        b.mod_methods,
        b.mod_state_traverse,
        b.mod_state_clear,
        b.mod_state_free,
        b.mod_abi,
        PY_MOD_EXEC,
        PY_MOD_MULTIPLE_INTERPRETERS,
        PY_MOD_GIL,
    ]
}

/// Whether there is a slot with this id, and every such slot holds this value
/// with these flags.
pub open spec fn carries(slots: Seq<PySlot>, id: u32, flags: u32, value: SlotValue) -> bool {
    &&& exists|i: int| 0 <= i < slots.len() && (#[trigger] slots[i]).id == id
    &&& forall|i: int|
        0 <= i < slots.len() && (#[trigger] slots[i]).id == id ==> slots[i].value == value
            && slots[i].flags == flags && slots[i].reserved == 0
}

/// Each slot carries the part of the module that its id stands for: the name,
/// the documentation, the size of the state, the method table, the glue
/// functions and the ABI declaration. No other slot has that id.
pub proof fn law_slots_carry_parts(b: Bindings, m: ModuleParts, r: SlotArray)
    requires
        call_ensures(export_module, (&b, &m), r),
        usable_ids(b),
        ids(b).no_duplicates(),
        b.slot_static <= u16::MAX,
        b.slot_intptr <= u16::MAX,
    ensures
        carries(r.0@, b.mod_name, b.slot_static, SlotValue::Ptr(m.name)),
        carries(r.0@, b.mod_doc, b.slot_static, SlotValue::Ptr(m.doc)),
        carries(r.0@, b.mod_state_size, 0, SlotValue::Size(m.state_size)),
        carries(r.0@, b.mod_methods, b.slot_static, SlotValue::Ptr(m.methods)),
        carries(r.0@, 85, 0, SlotValue::Func(Some(m.exec_fn))),
        carries(r.0@, b.mod_state_traverse, 0, SlotValue::Func(Some(m.traverse_fn))),
        carries(r.0@, b.mod_state_clear, 0, SlotValue::Func(Some(m.clear_fn))),
        carries(r.0@, b.mod_state_free, 0, SlotValue::Func(Some(m.free_fn))),
        carries(r.0@, 86, b.slot_intptr, SlotValue::Ptr(2)),
        carries(r.0@, 87, b.slot_intptr, SlotValue::Ptr(1)),
        carries(r.0@, b.mod_abi, b.slot_static, SlotValue::Ptr(m.abi)),
        r.0@.len() == ids(b).len() + 1,
        r.0@.last().id == 0,
{
    let s = r.0@;
    lemma_usable(b.mod_name);
    lemma_usable(b.mod_doc);
    lemma_usable(b.mod_state_size);
    lemma_usable(b.mod_methods);
    lemma_usable(b.mod_state_traverse);
    lemma_usable(b.mod_state_clear);
    lemma_usable(b.mod_state_free);
    lemma_usable(b.mod_abi);
    let all = ids(b);
    assert(all[0] == b.mod_name && all[1] == b.mod_doc && all[2] == b.mod_state_size && all[3]
        == b.mod_methods && all[4] == b.mod_state_traverse && all[5] == b.mod_state_clear && all[6]
        == b.mod_state_free && all[7] == b.mod_abi && all[8] == PY_MOD_EXEC && all[9]
        == PY_MOD_MULTIPLE_INTERPRETERS && all[10] == PY_MOD_GIL);
    assert(s[0].id == b.mod_name && s[1].id == b.mod_doc && s[2].id == b.mod_state_size && s[3].id
        == b.mod_methods && s[4].id == 85 && s[5].id == b.mod_state_traverse && s[6].id
        == b.mod_state_clear && s[7].id == b.mod_state_free && s[8].id == 86 && s[9].id == 87
        && s[10].id == b.mod_abi && s[11].id == 0);
}

/// A slot holds what it was given, under its id.
pub proof fn law_slot_holds(b: Bindings, id: u32, ptr: usize, func: Option<usize>, size: isize, n: u64)
    requires
        id <= u16::MAX,
        b.slot_static <= u16::MAX,
        b.slot_intptr <= u16::MAX,
    ensures
        forall|r: PySlot| #[trigger]
            call_ensures(slot_data, (&b, id, ptr), r) ==> r.id == id && r.flags == b.slot_intptr
                && r.reserved == 0 && r.value == SlotValue::Ptr(ptr),
        forall|r: PySlot| #[trigger]
            call_ensures(slot_static_data, (&b, id, ptr), r) ==> r.id == id && r.flags
                == b.slot_static && r.reserved == 0 && r.value == SlotValue::Ptr(ptr),
        forall|r: PySlot| #[trigger]
            call_ensures(slot_func, (id, func), r) ==> r.id == id && r.flags == 0 && r.reserved == 0
                && r.value == SlotValue::Func(func),
        forall|r: PySlot| #[trigger]
            call_ensures(slot_size, (id, size), r) ==> r.id == id && r.flags == 0 && r.reserved == 0
                && r.value == SlotValue::Size(size),
        forall|r: PySlot| #[trigger]
            call_ensures(slot_uint64, (id, n), r) ==> r.id == id && r.flags == 0 && r.reserved == 0
                && r.value == SlotValue::Uint64(n),
        forall|r: PySlot| #[trigger]
            call_ensures(slot_end, (), r) ==> r.id == 0 && r.flags == 0 && r.reserved == 0
                && r.value == SlotValue::Ptr(0),
{
}

/// A module function is entered by its trampoline with positional and keyword
/// arguments; a method gets its defining class too. Nothing else tells them
/// apart.
pub proof fn law_method_definitions(b: Bindings, name: CStr, trampoline: usize, f: MethodDef, m: MethodDef)
    requires
        call_ensures(MethodDef::function, (&b, name, trampoline), f),
        call_ensures(MethodDef::method, (&b, name, trampoline), m),
    ensures
        f.name == Some(name) && m.name == Some(name),
        f.func == MethodFunc::Fast(trampoline),
        m.func == MethodFunc::Method(trampoline),
        f.flags & b.meth_fastcall == b.meth_fastcall,
        f.flags & b.meth_keywords == b.meth_keywords,
        m.flags == f.flags | b.meth_method,
        b.meth_method & (b.meth_fastcall | b.meth_keywords) == 0 ==> f.flags & b.meth_method == 0,
{
    let (x, y, z) = (b.meth_fastcall, b.meth_keywords, b.meth_method);
    assert((x | y) & x == x && (x | y) & y == y) by (bit_vector);
    assert(z & (x | y) == (x | y) & z) by (bit_vector);
}

/// A table holds the definitions that it was given, in order, and then exactly
/// one that ends it.
pub proof fn law_tables(defs: Vec<MethodDef>, r: MethodDefs, attrs: Vec<GetSetDef>, t: GetSetDefs)
    requires
        call_ensures(MethodDefs::new, (defs,), r),
        call_ensures(GetSetDefs::new, (attrs,), t),
    ensures
        r.0@.len() == defs@.len() + 1,
        forall|i: int| 0 <= i < defs@.len() ==> #[trigger] r.0@[i] == defs@[i],
        r.0@.last().name is None && r.0@.last().func is Null && r.0@.last().flags == 0,
        t.0@.len() == attrs@.len() + 1,
        forall|i: int| 0 <= i < attrs@.len() ==> #[trigger] t.0@[i] == attrs@[i],
        t.0@.last().name is None && t.0@.last().get is None && t.0@.last().set is None,
{
    assert forall|i: int| 0 <= i < defs@.len() implies #[trigger] r.0@[i] == defs@[i] by {
        assert(r.0@.drop_last()[i] == r.0@[i]);
    }
    assert forall|i: int| 0 <= i < attrs@.len() implies #[trigger] t.0@[i] == attrs@[i] by {
        assert(t.0@.drop_last()[i] == t.0@[i]);
    }
}

/// A read-only attribute is read by its getter and cannot be set.
pub proof fn law_getter_definition(name: CStr, get: usize, r: GetSetDef)
    requires
        call_ensures(GetSetDef::getter, (name, get), r),
    ensures
        r.name == Some(name),
        r.get == Some(get),
        r.set is None,
{
}

/// The ABI declaration is made for exactly the version of the headers, as
/// declaration format 1.0, and says whether the build is free-threaded.
pub proof fn law_abi_declared(b: Bindings, r: AbiInfo, hex: u32)
    requires
        call_ensures(abi_info, (&b,), r),
        call_ensures(py_version_hex, (&b,), hex),
        b.major_version < 0x100,
        b.minor_version < 0x100,
        b.micro_version < 0x100,
        b.release_level < 0x10,
        b.release_serial < 0x10,
        b.abi_internal <= u16::MAX,
        b.abi_gil <= u16::MAX,
        b.abi_freethreaded <= u16::MAX,
    ensures
        r.build_version == hex && r.abi_version == hex,
        hex == b.major_version * 0x1000000 + b.minor_version * 0x10000 + b.micro_version * 0x100
            + b.release_level * 0x10 + b.release_serial,
        r.abiinfo_major_version == 1 && r.abiinfo_minor_version == 0,
        b.gil_disabled ==> r.flags == b.abi_internal | b.abi_freethreaded,
        !b.gil_disabled ==> r.flags == b.abi_internal | b.abi_gil,
{
    let (ma, mi, mc, rl, rs) = (
        b.major_version,
        b.minor_version,
        b.micro_version,
        b.release_level,
        b.release_serial,
    );
    assert(((ma << 24u32) | (mi << 16u32) | (mc << 8u32) | (rl << 4u32) | rs) == ma * 0x1000000 + mi
        * 0x10000 + mc * 0x100 + rl * 0x10 + rs) by (bit_vector)
        requires
            ma < 0x100,
            mi < 0x100,
            mc < 0x100,
            rl < 0x10,
            rs < 0x10,
    ;
    let (i, g, f) = (b.abi_internal, b.abi_gil, b.abi_freethreaded);
    assert((i | g) <= 0xffff && (i | f) <= 0xffff) by (bit_vector)
        requires
            i <= 0xffff,
            g <= 0xffff,
            f <= 0xffff,
    ;
}

/// A module is exported under a symbol that ends in its name.
pub proof fn law_export_symbol(name: &str, r: String)
    requires
        call_ensures(export_symbol, (name,), r),
    ensures
        r@ == "PyModExport_"@ + name@,
{
}

} // verus!
