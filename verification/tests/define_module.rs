//! Defines a zlib-shaped module and checks the shape of what comes out.

use std::sync::Mutex;

use cpython_api_core::args::ParamSpec;
use cpython_api_core::class::payload_offset;
use cpython_api_core::macros::codegen::param_spec;
use cpython_api_core::macros::functions::function_model;
use cpython_api_core::macros::methods::pymethods;
use cpython_api_core::module;
use cpython_api_core::module::slots::{GetSetDef, MethodDef};
use cpython_api_core::module::{Bindings, GetSetDefs, MethodDefs, ModuleParts};
use cpython_api_core::CStr;

const ADLER32: (&str, &str) = (
    "signature = (data, value = 1, /)",
    "fn adler32(_ts: &ThreadState<'_>, _state: &TestState, data: PyBuffer<'_>, value: u32) -> PyResult<u32> { Ok(value.wrapping_add(data.len() as u32)) }",
);

const COMPRESS: (&str, &str) = (
    "signature = (data, /, level = -1, wbits = 15)",
    "fn compress<'py>(ts: &mut ThreadState<'py>, state: &TestState, data: PyBuffer<'py>, level: i32, wbits: i32) -> PyResult<Bound<'py, PyBytes>> { PyBytes::new(ts, data.as_bytes()) }",
);

const CRC32_COMBINE: (&str, &str) = (
    "",
    "fn crc32_combine(_ts: &ThreadState<'_>, _state: &TestState, crc1: u32, crc2: u32, len2: i64) -> PyResult<u32> { Ok(crc1 ^ crc2 ^ (len2 as u32)) }",
);

const COMPRESS_CLASS: &str = "impl Compress {
    #[pyfunction(signature = (data, /))]
    fn compress<'py>(&self, ts: &ThreadState<'py>, state: &TestState, data: PyBuffer<'py>) -> PyResult<Bound<'py, PyBytes>> { PyBytes::new(ts, data.as_bytes()) }
    #[pyfunction(signature = (mode = 4, /))]
    fn flush<'py>(&self, ts: &ThreadState<'py>, _state: &TestState, mode: i32) -> PyResult<Bound<'py, PyBytes>> { PyBytes::new(ts, &[]) }
    #[getter]
    fn eof(&self, _ts: &ThreadState<'_>) -> bool { false }
    #[new]
    #[pyfunction(signature = (wbits = 15, zdict = None))]
    fn new(ts: &ThreadState<'_>, wbits: i32, zdict: Option<PyBuffer<'_>>) -> PyResult<Self> { Ok(Compress { inner: Mutex::new(Vec::new()) }) }
}";

fn bindings() -> Bindings {
    Bindings {
        mod_name: 100,
        mod_doc: 101,
        mod_state_size: 102,
        mod_methods: 103,
        mod_state_traverse: 104,
        mod_state_clear: 105,
        mod_state_free: 106,
        mod_abi: 109,
        slot_intptr: 1,
        slot_static: 2,
        meth_fastcall: 0x80,
        meth_keywords: 0x2,
        meth_method: 0x200,
        abi_internal: 8,
        abi_gil: 2,
        abi_freethreaded: 4,
        gil_disabled: false,
        major_version: 3,
        minor_version: 15,
        micro_version: 0,
        release_level: 0xa,
        release_serial: 2,
    }
}

fn spec(source: (&str, &str)) -> ParamSpec {
    let model = function_model(source.0, source.1).unwrap();
    param_spec(&model).unwrap()
}

fn cstr(text: &str) -> CStr {
    let mut bytes = text.as_bytes().to_vec();
    bytes.push(0);
    CStr::from_bytes_with_nul(&bytes).unwrap()
}

fn count(text: &str, needle: &str) -> usize {
    text.matches(needle).count()
}

struct Compress {
    inner: Mutex<Vec<u8>>,
}

#[test]
fn method_table_shape() {
    let b = bindings();
    let def = MethodDef::function(&b, cstr(&spec(ADLER32).fn_name), 1);
    assert_eq!(def.name.as_ref().unwrap().to_str().unwrap(), "adler32");
    assert_eq!(def.flags, b.meth_fastcall | b.meth_keywords);

    // Module functions stay FASTCALL (state comes from the module object);
    // methods are uniformly METH_METHOD (state via defining class).
    let compress = MethodDef::function(&b, cstr(&spec(COMPRESS).fn_name), 1);
    assert_eq!(compress.flags, b.meth_fastcall | b.meth_keywords);
    let table = MethodDefs::new(vec![
        MethodDef::method(&b, cstr("compress"), 1),
        MethodDef::method(&b, cstr("flush"), 2),
    ]);
    for def in &table.0[..2] {
        assert_eq!(def.flags, b.meth_fastcall | b.meth_keywords | b.meth_method);
    }
    // Terminator.
    assert!(table.0[2].name.is_none());

    // The generated table says the same.
    let out = pymethods(COMPRESS_CLASS);
    assert!(out.contains(
        "pub(crate) static COMPRESS_METHODS: ::cpython_api::module::MethodDefs<3usize> = ::cpython_api::module::MethodDefs([__cpy_Compress_compress::DEF, __cpy_Compress_flush::DEF, ::cpython_api::ffi::PyMethodDef::zeroed()]);"
    ));
    assert_eq!(
        count(
            &out,
            "ml_flags: ::cpython_api::ffi::METH_FASTCALL | ::cpython_api::ffi::METH_KEYWORDS | ::cpython_api::ffi::METH_METHOD,"
        ),
        2
    );
}

#[test]
fn spec_shape() {
    let adler32 = spec(ADLER32);
    assert_eq!(adler32.fn_name, "adler32");
    assert_eq!(adler32.params.len(), 2);
    assert_eq!(adler32.pos_only, 2);
    assert!(adler32.params[0].required);
    assert!(!adler32.params[1].required);

    let compress = spec(COMPRESS);
    assert_eq!(compress.pos_only, 1);
    assert_eq!(compress.params.len(), 3);

    // Signature-less: all positional-or-keyword, required.
    let crc32_combine = spec(CRC32_COMBINE);
    assert_eq!(crc32_combine.pos_only, 0);
    assert_eq!(crc32_combine.params.len(), 3);
    assert!(crc32_combine.params.iter().all(|p| p.required));
}

#[test]
fn getset_table_shape() {
    let table = GetSetDefs::new(vec![GetSetDef::getter(cstr("eof"), 1)]);
    assert_eq!(table.0[0].name.as_ref().unwrap().to_str().unwrap(), "eof");
    assert!(table.0[0].get.is_some());
    assert!(table.0[0].set.is_none());
    assert!(table.0[1].name.is_none());

    // The generated table says the same.
    let out = pymethods(COMPRESS_CLASS);
    assert!(out.contains("COMPRESS_GETSETS: ::cpython_api::module::GetSetDefs<2usize> = ::cpython_api::module::GetSetDefs([::cpython_api::ffi::PyGetSetDef { name: ::cpython_api::const_cstr(b\"eof\\0\").as_ptr(), get: Some(__cpy_Compress_eof::getter), set: None,"));
    assert!(out.contains("::cpython_api::ffi::PyGetSetDef { name: ::std::ptr::null(), get: None, set: None,"));
}

#[test]
fn payload_layout() {
    // Payload starts after the header, aligned for the payload type.
    let header = 2 * std::mem::size_of::<usize>();
    let off = payload_offset(header, std::mem::align_of::<Compress>());
    assert!(off >= header);
    assert_eq!(off % std::mem::align_of::<Compress>(), 0);
    let made = Compress { inner: Mutex::new(Vec::new()) };
    assert!(made.inner.lock().unwrap().is_empty());
}

#[test]
fn abi_info_shape() {
    let b = bindings();
    let abi = module::abi_info(&b);
    assert_eq!(abi.abiinfo_major_version, 1);
    assert_ne!(abi.flags & b.abi_internal as u16, 0);
    // Exactly one of GIL / FREETHREADED, matching the interpreter build.
    let ft = abi.flags & (b.abi_gil | b.abi_freethreaded) as u16;
    assert!(ft == b.abi_gil as u16 || ft == b.abi_freethreaded as u16);
    assert_eq!(abi.build_version, module::py_version_hex(&b));
}

#[test]
fn module_slots_shape() {
    // Walk the slot array and check the required PEP 793 slots are present,
    // terminated, and defaulted to free-threading + per-interpreter-GIL support.
    let b = bindings();
    let parts = ModuleParts {
        name: 1,
        doc: 2,
        state_size: 16,
        methods: 3,
        exec_fn: 4,
        traverse_fn: 5,
        clear_fn: 6,
        free_fn: 7,
        abi: 8,
    };
    let array = module::export_module(&b, &parts);
    let slots = array.as_ptr();
    let mut ids = Vec::new();
    let mut i = 0;
    loop {
        let slot = slots[i];
        if slot.id == 0 {
            break;
        }
        ids.push(slot.id as u32);
        i += 1;
        assert!(i < 32, "unterminated slot array");
    }
    for required in [
        b.mod_name,
        b.mod_doc,
        b.mod_state_size,
        b.mod_methods,
        module::PY_MOD_EXEC,
        b.mod_state_traverse,
        b.mod_state_clear,
        b.mod_state_free,
        module::PY_MOD_MULTIPLE_INTERPRETERS,
        module::PY_MOD_GIL,
        b.mod_abi,
    ] {
        assert!(ids.contains(&required), "missing slot id {required}");
    }
}
