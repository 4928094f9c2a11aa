//! The slots that define a module, its method tables, and its ABI declaration.

use vstd::prelude::*;
use vstd::string::*;
use crate::cstr::CStr;

verus! {

/// Slot ids that are function-like macros in C.
pub const PY_MOD_CREATE: u32 = 84;

pub const PY_MOD_EXEC: u32 = 85;

pub const PY_MOD_MULTIPLE_INTERPRETERS: u32 = 86;

pub const PY_MOD_GIL: u32 = 87;

/// Slot values that are casts to a pointer in C.
pub const PY_MOD_MULTIPLE_INTERPRETERS_SUPPORTED: usize = 1;

pub const PY_MOD_PER_INTERPRETER_GIL_SUPPORTED: usize = 2;

pub const PY_MOD_GIL_NOT_USED: usize = 1;

/// The numbers that the headers of the interpreter define.
#[derive(Clone, Copy, Debug)]
pub struct Bindings {
    pub mod_name: u32,
    pub mod_doc: u32,
    pub mod_state_size: u32,
    pub mod_methods: u32,
    pub mod_state_traverse: u32,
    pub mod_state_clear: u32,
    pub mod_state_free: u32,
    pub mod_abi: u32,
    pub slot_intptr: u32,
    pub slot_static: u32,
    pub meth_fastcall: i32,
    pub meth_keywords: i32,
    pub meth_method: i32,
    pub abi_internal: u32,
    pub abi_gil: u32,
    pub abi_freethreaded: u32,
    pub gil_disabled: bool,
    pub major_version: u32,
    pub minor_version: u32,
    pub micro_version: u32,
    pub release_level: u32,
    pub release_serial: u32,
}

/// The value of a slot.
#[derive(Clone, Copy, Debug, PartialEq, Eq, Structural)]
pub enum SlotValue {
    Ptr(usize),
    Func(Option<usize>),
    Size(isize),
    Uint64(u64),
}

/// One `PySlot`.
#[derive(Clone, Copy, Debug, PartialEq, Eq, Structural)]
pub struct PySlot {
    pub id: u16,
    pub flags: u16,
    pub reserved: u32,
    pub value: SlotValue,
}

/// `PySlot_END`.
pub fn slot_end() -> (r: PySlot)
    ensures
        r == (PySlot { id: 0, flags: 0, reserved: 0, value: SlotValue::Ptr(0) }),
{
    PySlot { id: 0, flags: 0, reserved: 0, value: SlotValue::Ptr(0) }
}

/// `PySlot_DATA`: a slot with a pointer to data.
pub fn slot_data(b: &Bindings, id: u32, ptr: usize) -> (r: PySlot)
    ensures
        r == (PySlot {
            id: #[verifier::truncate] (id as u16),
            flags: #[verifier::truncate] (b.slot_intptr as u16),
            reserved: 0,
            value: SlotValue::Ptr(ptr),
        }),
{
    PySlot {
        id: #[verifier::truncate] (id as u16),
        flags: #[verifier::truncate] (b.slot_intptr as u16),
        reserved: 0,
        value: SlotValue::Ptr(ptr),
    }
}

/// `PySlot_STATIC_DATA`: a slot with a pointer to static data.
pub fn slot_static_data(b: &Bindings, id: u32, ptr: usize) -> (r: PySlot)
    ensures
        r == (PySlot {
            id: #[verifier::truncate] (id as u16),
            flags: #[verifier::truncate] (b.slot_static as u16),
            reserved: 0,
            value: SlotValue::Ptr(ptr),
        }),
{
    PySlot {
        id: #[verifier::truncate] (id as u16),
        flags: #[verifier::truncate] (b.slot_static as u16),
        reserved: 0,
        value: SlotValue::Ptr(ptr),
    }
}

/// `PySlot_FUNC`: a slot with a function pointer.
pub fn slot_func(id: u32, func: Option<usize>) -> (r: PySlot)
    ensures
        r == (PySlot {
            id: #[verifier::truncate] (id as u16),
            flags: 0,
            reserved: 0,
            value: SlotValue::Func(func),
        }),
{
    PySlot {
        id: #[verifier::truncate] (id as u16),
        flags: 0,
        reserved: 0,
        value: SlotValue::Func(func),
    }
}

/// `PySlot_SIZE`: a slot with a size.
pub fn slot_size(id: u32, size: isize) -> (r: PySlot)
    ensures
        r == (PySlot {
            id: #[verifier::truncate] (id as u16),
            flags: 0,
            reserved: 0,
            value: SlotValue::Size(size),
        }),
{
    PySlot {
        id: #[verifier::truncate] (id as u16),
        flags: 0,
        reserved: 0,
        value: SlotValue::Size(size),
    }
}

/// `PySlot_UINT64`: a slot with a number.
pub fn slot_uint64(id: u32, value: u64) -> (r: PySlot)
    ensures
        r == (PySlot {
            id: #[verifier::truncate] (id as u16),
            flags: 0,
            reserved: 0,
            value: SlotValue::Uint64(value),
        }),
{
    PySlot {
        id: #[verifier::truncate] (id as u16),
        flags: 0,
        reserved: 0,
        value: SlotValue::Uint64(value),
    }
}

/// A slot array, as it is handed to the interpreter.
#[derive(Debug)]
pub struct SlotArray(pub Vec<PySlot>);

impl SlotArray {
    /// The slots that are handed to the interpreter.
    pub fn as_ptr(&self) -> (r: &[PySlot])
        ensures
            r@ == self.0@,
    {
        self.0.as_slice()
    }
}

/// How a method is called, and the address of its trampoline.
#[derive(Clone, Copy, Debug, PartialEq, Eq, Structural)]
pub enum MethodFunc {
    Null,
    /// `PyCFunctionFastWithKeywords`.
    Fast(usize),
    /// `PyCMethod`.
    Method(usize),
}

/// One `PyMethodDef`. The one that ends a table has no name.
#[derive(Debug)]
pub struct MethodDef {
    pub name: Option<CStr>,
    pub func: MethodFunc,
    pub flags: i32,
}

impl MethodDef {
    /// The definition that ends a table.
    pub fn zeroed() -> (r: MethodDef)
        ensures
            r.name is None,
            r.func is Null,
            r.flags == 0,
    {
        MethodDef { name: None, func: MethodFunc::Null, flags: 0 }
    }

    /// A module function: its state comes from the module object.
    pub fn function(b: &Bindings, name: CStr, trampoline: usize) -> (r: MethodDef)
        ensures
            r.name == Some(name),
            r.func == MethodFunc::Fast(trampoline),
            r.flags == b.meth_fastcall | b.meth_keywords,
    {
        MethodDef {
            name: Some(name),
            func: MethodFunc::Fast(trampoline),
            flags: b.meth_fastcall | b.meth_keywords,
        }
    }

    /// A method: its state comes from the defining class.
    pub fn method(b: &Bindings, name: CStr, trampoline: usize) -> (r: MethodDef)
        ensures
            r.name == Some(name),
            r.func == MethodFunc::Method(trampoline),
            r.flags == b.meth_fastcall | b.meth_keywords | b.meth_method,
    {
        MethodDef {
            name: Some(name),
            func: MethodFunc::Method(trampoline),
            flags: b.meth_fastcall | b.meth_keywords | b.meth_method,
        }
    }
}

/// A method table.
#[derive(Debug)]
pub struct MethodDefs(pub Vec<MethodDef>);

impl MethodDefs {
    /// A table of these methods, with the definition that ends it.
    pub fn new(defs: Vec<MethodDef>) -> (r: MethodDefs)
        ensures
            r.0@.len() == defs@.len() + 1,
            r.0@.drop_last() == defs@,
            r.0@.last().name is None,
            r.0@.last().func is Null,
            r.0@.last().flags == 0,
    {
        let mut all = defs;
        all.push(MethodDef::zeroed());
        assert(all@.drop_last() =~= defs@);
        MethodDefs(all)
    }
}

/// One `PyGetSetDef`. The one that ends a table has no name.
#[derive(Debug)]
pub struct GetSetDef {
    pub name: Option<CStr>,
    pub get: Option<usize>,
    pub set: Option<usize>,
}

/// A table of attributes.
#[derive(Debug)]
pub struct GetSetDefs(pub Vec<GetSetDef>);

impl GetSetDef {
    /// A read-only attribute.
    pub fn getter(name: CStr, get: usize) -> (r: GetSetDef)
        ensures
            r.name == Some(name),
            r.get == Some(get),
            r.set is None,
    {
        GetSetDef { name: Some(name), get: Some(get), set: None }
    }
}

impl GetSetDefs {
    /// A table of these attributes, with the definition that ends it.
    pub fn new(defs: Vec<GetSetDef>) -> (r: GetSetDefs)
        ensures
            r.0@.len() == defs@.len() + 1,
            r.0@.drop_last() == defs@,
            r.0@.last().name is None,
            r.0@.last().get is None,
            r.0@.last().set is None,
    {
        let mut all = defs;
        all.push(GetSetDef { name: None, get: None, set: None });
        assert(all@.drop_last() =~= defs@);
        GetSetDefs(all)
    }
}

/// `PY_VERSION_HEX`, put together from its parts.
pub open spec fn version_hex(b: Bindings) -> u32 {
    (b.major_version << 24u32) | (b.minor_version << 16u32) | (b.micro_version << 8u32) | (
    b.release_level << 4u32) | b.release_serial
}

/// `PY_VERSION_HEX`, put together from its parts.
pub fn py_version_hex(b: &Bindings) -> (r: u32)
    ensures
        r == version_hex(*b),
{
    (b.major_version << 24u32) | (b.minor_version << 16u32) | (b.micro_version << 8u32) | (
    b.release_level << 4u32) | b.release_serial
}

/// `PyABIInfo`.
#[derive(Clone, Copy, Debug, PartialEq, Eq, Structural)]
pub struct AbiInfo {
    pub abiinfo_major_version: u8,
    pub abiinfo_minor_version: u8,
    pub flags: u16,
    pub build_version: u32,
    pub abi_version: u32,
}

/// The flag of the interpreter build.
pub open spec fn build_flag(b: Bindings) -> u32 {
    if b.gil_disabled {
        b.abi_freethreaded
    } else {
        b.abi_gil
    }
}

/// The ABI declaration of a module: internal, of exactly this version,
/// free-threaded or not as the interpreter is.
pub fn abi_info(b: &Bindings) -> (r: AbiInfo)
    ensures
        r == (AbiInfo {
            abiinfo_major_version: 1,
            abiinfo_minor_version: 0,
            flags: #[verifier::truncate] ((b.abi_internal | build_flag(*b)) as u16),
            build_version: version_hex(*b),
            abi_version: version_hex(*b),
        }),
{
    let ft_flag: u32 = if b.gil_disabled {
        b.abi_freethreaded
    } else {
        b.abi_gil
    };
    AbiInfo {
        abiinfo_major_version: 1,
        abiinfo_minor_version: 0,
        flags: #[verifier::truncate] ((b.abi_internal | ft_flag) as u16),
        build_version: py_version_hex(b),
        abi_version: py_version_hex(b),
    }
}

/// The addresses that define a module: of its name, its documentation, its
/// method table, its ABI declaration and its glue functions, and the size of
/// its state.
#[derive(Clone, Copy, Debug)]
pub struct ModuleParts {
    pub name: usize,
    pub doc: usize,
    pub state_size: isize,
    pub methods: usize,
    pub exec_fn: usize,
    pub traverse_fn: usize,
    pub clear_fn: usize,
    pub free_fn: usize,
    pub abi: usize,
}

/// A slot with the given flags.
pub open spec fn slot(id: u32, flags: u32, value: SlotValue) -> PySlot {
    PySlot {
        id: #[verifier::truncate] (id as u16),
        flags: #[verifier::truncate] (flags as u16),
        reserved: 0,
        value,
    }
}

/// The slots of a module. Free threading and an interpreter lock per
/// interpreter are declared for every one.
pub open spec fn module_slots(b: Bindings, m: ModuleParts) -> Seq<PySlot> {
    seq![
        slot(b.mod_name, b.slot_static, SlotValue::Ptr(m.name)),
        slot(b.mod_doc, b.slot_static, SlotValue::Ptr(m.doc)),
        slot(b.mod_state_size, 0, SlotValue::Size(m.state_size)),
        slot(b.mod_methods, b.slot_static, SlotValue::Ptr(m.methods)),
        slot(PY_MOD_EXEC, 0, SlotValue::Func(Some(m.exec_fn))),
        slot(b.mod_state_traverse, 0, SlotValue::Func(Some(m.traverse_fn))),
        slot(b.mod_state_clear, 0, SlotValue::Func(Some(m.clear_fn))),
        slot(b.mod_state_free, 0, SlotValue::Func(Some(m.free_fn))),
        slot(
            PY_MOD_MULTIPLE_INTERPRETERS,
            b.slot_intptr,
            SlotValue::Ptr(PY_MOD_PER_INTERPRETER_GIL_SUPPORTED),
        ),
        slot(PY_MOD_GIL, b.slot_intptr, SlotValue::Ptr(PY_MOD_GIL_NOT_USED)),
        slot(b.mod_abi, b.slot_static, SlotValue::Ptr(m.abi)),
        PySlot { id: 0, flags: 0, reserved: 0, value: SlotValue::Ptr(0) },
    ]
}

/// Define a module.
pub fn export_module(b: &Bindings, m: &ModuleParts) -> (r: SlotArray)
    ensures
        r.0@ == module_slots(*b, *m),
{
    let mut slots: Vec<PySlot> = Vec::new();
    slots.push(slot_static_data(b, b.mod_name, m.name));
    slots.push(slot_static_data(b, b.mod_doc, m.doc));
    slots.push(slot_size(b.mod_state_size, m.state_size));
    slots.push(slot_static_data(b, b.mod_methods, m.methods));
    slots.push(slot_func(PY_MOD_EXEC, Some(m.exec_fn)));
    slots.push(slot_func(b.mod_state_traverse, Some(m.traverse_fn)));
    slots.push(slot_func(b.mod_state_clear, Some(m.clear_fn)));
    slots.push(slot_func(b.mod_state_free, Some(m.free_fn)));
    slots.push(
        slot_data(b, PY_MOD_MULTIPLE_INTERPRETERS, PY_MOD_PER_INTERPRETER_GIL_SUPPORTED),
    );
    slots.push(slot_data(b, PY_MOD_GIL, PY_MOD_GIL_NOT_USED));
    slots.push(slot_static_data(b, b.mod_abi, m.abi));
    slots.push(slot_end());
    proof {
        assert(#[verifier::truncate] (0u32 as u16) == 0u16) by (bit_vector);
        assert(slots@ =~= module_slots(*b, *m));
    }
    SlotArray(slots)
}

pub const EXPORT_PREFIX: &'static str = "PyModExport_";

/// The symbol under which a module is exported.
pub fn export_symbol(name: &str) -> (r: String)
    ensures
        r@ == EXPORT_PREFIX@ + name@,
{
    let mut s = EXPORT_PREFIX.to_owned();
    s.append(name);
    s
}

} // verus!
