use cpython_api_core::macros::codegen::{cstr_lit, param_spec};
use cpython_api_core::macros::functions::{error_tokens, function_model, pyfunction};
use cpython_api_core::macros::methods::{method_marks, pymethods, MethodKind};
use cpython_api_core::macros::model::{
    analyze_fn, reconcile, shared_ref_target, ArgType, FnArg, FnShape, Signature,
};
use cpython_api_core::macros::signature::{parse_attr, PyFunctionAttr, SigEntry};

use quote::ToTokens;

fn strings(items: &[&str]) -> Vec<String> {
    items.iter().map(|s| s.to_string()).collect()
}

/// The signature entries as short texts.
fn entries(text: &str) -> Result<Option<Vec<String>>, String> {
    match parse_attr(text) {
        Err(e) => Err(e.message),
        Ok(attr) => Ok(attr.entries.map(|list| {
            list.iter()
                .map(|e| match e {
                    SigEntry::PosOnlyMarker => "/".to_string(),
                    SigEntry::Param { name, default: None } => name.clone(),
                    SigEntry::Param { name, default: Some(d) } => format!("{name} = {d}"),
                })
                .collect()
        })),
    }
}

fn refused(text: &str) -> String {
    entries(text).unwrap_err()
}

#[test]
fn signature_grammar() {
    assert_eq!(entries(""), Ok(None));
    assert_eq!(entries("signature = ()"), Ok(Some(Vec::new())));
    assert_eq!(entries("signature = (a)"), Ok(Some(strings(&["a"]))));
    assert_eq!(entries("signature = (a, b,)"), Ok(Some(strings(&["a", "b"]))));
    assert_eq!(
        entries("signature = (data, value = 1, /)"),
        Ok(Some(strings(&["data", "value = 1", "/"])))
    );
    assert_eq!(entries("signature = (/, a)"), Ok(Some(strings(&["/", "a"]))));
    // A default may hold commas of its own.
    assert_eq!(
        entries("signature = (a = f::<A, B>(1, 2), b = |x, y| x + y)"),
        Ok(Some(strings(&["a = f :: < A , B > (1 , 2)", "b = | x , y | x + y"])))
    );
    assert_eq!(entries("signature = (a = b == c)"), Ok(Some(strings(&["a = b == c"]))));
}

#[test]
fn signature_errors() {
    assert_eq!(refused("\"open"), "cannot parse string into token stream");
    assert_eq!(refused("1"), "expected identifier");
    assert_eq!(refused("fn"), "expected identifier, found keyword `fn`");
    assert_eq!(refused("sig = (a)"), "expected `signature = (...)`");
    assert_eq!(refused("signature"), "expected `=`");
    assert_eq!(refused("signature (a)"), "expected `=`");
    assert_eq!(refused("signature ="), "unexpected end of input, expected parentheses");
    assert_eq!(refused("signature = [a]"), "expected parentheses");
    assert_eq!(refused("signature = (a) b"), "unexpected token");
    assert_eq!(refused("signature = (a b)"), "expected `,`");
    assert_eq!(refused("signature = (1)"), "expected identifier");
    assert_eq!(refused("signature = (self)"), "expected identifier, found keyword `self`");
    // A default is read as far as it is an expression.
    assert_eq!(refused("signature = (a = )"), "unexpected end of input, expected an expression");
    assert_eq!(refused("signature = (a = 1 +)"), "unexpected end of input, expected an expression");
    assert_eq!(refused("signature = (a = , b)"), "expected an expression");
    assert_eq!(refused("signature = (a = 1 2)"), "expected `,`");
    assert_eq!(refused("signature = (a = 1 2, b)"), "expected `,`");
    // An error in an entry comes before what follows the list.
    assert_eq!(refused("signature = (1) b"), "expected identifier");
}

fn shared(target: &str) -> ArgType {
    ArgType::Reference { mutable: false, target: target.to_string() }
}

fn arg(name: &str, ty: ArgType) -> FnArg {
    FnArg::Typed { name: Some(name.to_string()), ty }
}

fn this() -> FnArg {
    FnArg::Receiver { reference: true, mutable: false }
}

fn no_attr() -> PyFunctionAttr {
    PyFunctionAttr { entries: None }
}

fn refusal(inputs: Vec<FnArg>, attr: &str, shape: FnShape) -> String {
    let sig = Signature { name: "f".to_string(), inputs, asks_static: false };
    analyze_fn(&sig, &parse_attr(attr).unwrap(), shape).unwrap_err().message
}

#[test]
fn parameters_are_classified_by_position() {
    let sig = Signature {
        name: "f".to_string(),
        inputs: vec![
            this(),
            FnArg::Typed { name: None, ty: ArgType::Reference { mutable: true, target: "T".to_string() } },
            arg("s", shared("State")),
            arg("a", ArgType::Other),
            arg("b", shared("str")),
        ],
        asks_static: false,
    };
    let m = analyze_fn(&sig, &parse_attr("signature = (a, /, b = \"x\")").unwrap(), FnShape::Regular).unwrap();
    assert_eq!(m.rust_name, "f");
    assert!(m.has_receiver);
    assert!(m.ts_mut);
    assert_eq!(m.ts_tokens(), ("mut __ts", "&mut __ts"));
    assert_eq!(m.state_ty.as_deref(), Some("State"));
    assert_eq!(m.pos_only, 1);
    assert_eq!(m.params.len(), 2);
    assert_eq!(m.params[0].name, "a");
    assert_eq!(m.params[0].default, None);
    assert_eq!(m.params[1].name, "b");
    assert_eq!(m.params[1].default.as_deref(), Some("\"x\""));

    let new = Signature {
        name: "new".to_string(),
        inputs: vec![arg("ts", shared("T")), arg("a", ArgType::Other)],
        asks_static: false,
    };
    let m = analyze_fn(&new, &no_attr(), FnShape::New).unwrap();
    assert!(!m.has_receiver && !m.ts_mut);
    assert_eq!(m.state_ty, None);
    assert_eq!(m.params.len(), 1);
    assert_eq!(m.ts_tokens(), ("__ts", "&__ts"));
}

#[test]
fn shapes_that_are_refused() {
    let ts = || arg("ts", shared("T"));
    let state = || arg("s", shared("S"));
    let receiver = "methods must take `&self`; use interior mutability (e.g. Mutex) for state";
    assert_eq!(refusal(vec![FnArg::Receiver { reference: true, mutable: true }], "", FnShape::Regular), receiver);
    assert_eq!(refusal(vec![FnArg::Receiver { reference: false, mutable: false }], "", FnShape::Getter), receiver);
    assert_eq!(
        refusal(vec![arg("a", ArgType::Other)], "", FnShape::Regular),
        "the first parameter must be the thread-state token (`ts: &ThreadState` or `ts: &mut ThreadState`)"
    );
    assert_eq!(
        refusal(vec![ts(), arg("s", ArgType::Other)], "", FnShape::Regular),
        "this parameter must be the module state (`state: &YourModuleState`)"
    );
    assert_eq!(
        refusal(
            vec![ts(), arg("s", ArgType::Reference { mutable: true, target: "S".to_string() })],
            "",
            FnShape::Regular
        ),
        "this parameter must be a shared reference: the module state (`state: &YourModuleState`)"
    );
    assert_eq!(
        refusal(vec![ts(), state(), FnArg::Typed { name: None, ty: ArgType::Other }], "", FnShape::Regular),
        "parameter patterns are not supported; use a plain name"
    );
    assert_eq!(
        refusal(vec![this()], "", FnShape::Getter),
        "a `ts: &ThreadState` parameter is required (first after `&self`)"
    );
    assert_eq!(
        refusal(vec![ts()], "", FnShape::Regular),
        "a module-state parameter is required after `ts` (`state: &YourModuleState`; name it `_state` if unused)"
    );
    assert_eq!(
        refusal(vec![this(), ts(), arg("a", ArgType::Other)], "", FnShape::Getter),
        "#[getter] methods must be `fn name(&self, ts: &ThreadState) -> T`"
    );
    assert_eq!(
        refusal(vec![ts(), state(), arg("a", ArgType::Other)], "signature = (/, a, /)", FnShape::Regular),
        "duplicate `/` in signature"
    );
    assert_eq!(
        refusal(vec![ts(), state(), arg("a", ArgType::Other), arg("b", ArgType::Other)], "signature = (b, c)", FnShape::Regular),
        "signature parameters (b, c) do not match function parameters (a, b)"
    );
    assert_eq!(shared_ref_target(&ArgType::Other, "x").unwrap_err().message, "this parameter must be x");
    assert_eq!(shared_ref_target(&shared("Y"), "x").unwrap(), "Y");
}

const STATIC: &str =
    "functions must not ask for the specific lifetime `'static`; leave the lifetime out or use `'_`";

#[test]
fn specific_lifetimes_are_refused() {
    let sig = Signature {
        name: "f".to_string(),
        inputs: vec![arg("ts", shared("ThreadState<'static>")), arg("_state", shared("S"))],
        asks_static: true,
    };
    assert_eq!(analyze_fn(&sig, &no_attr(), FnShape::Regular).unwrap_err().message, STATIC);
    let refused = |item: &str| match function_model("", item) {
        Ok(_) => false,
        Err(e) => {
            assert_eq!(e.message, STATIC);
            true
        }
    };
    assert!(refused("fn f(ts: &ThreadState<'static>, _state: &S) -> u32 { 1 }"));
    assert!(refused("fn f(ts: &'static mut ThreadState, _state: &S) -> u32 { 1 }"));
    assert!(refused("fn f(ts: &ThreadState, _state: &'static S) -> u32 { 1 }"));
    assert!(refused("fn f(ts: &ThreadState, _state: &S, a: (u8, [&'static str; 2])) -> u32 { 1 }"));
    assert!(refused("fn f<'py: 'static>(ts: &ThreadState<'py>, _state: &S) -> u32 { 1 }"));
    assert!(refused("fn f<'py>(ts: &ThreadState<'py>, _state: &S) -> u32 where 'py: 'static { 1 }"));
    assert!(!refused("fn f<'py, 'a: 'py>(ts: &ThreadState<'py>, _state: &'a S) -> u32 where 'a: 'py { 1 }"));
    // Other lifetimes are parameters, and a result may be static.
    assert!(!refused("fn f(ts: &ThreadState<'_>, _state: &S) -> u32 { 1 }"));
    assert!(!refused("fn f<'py>(ts: &ThreadState<'py>, _state: &S, a: Bound<'py, PyAny>) -> &'static str { x }"));
    assert!(!refused("fn f(ts: &ThreadState, _state: &S, statics: u8) -> u32 { 1 }"));
    // What is wrong otherwise is reported first.
    assert_eq!(
        function_model("", "fn f(ts: &ThreadState<'static>) {}").unwrap_err().message,
        "a module-state parameter is required after `ts` (`state: &YourModuleState`; name it `_state` if unused)"
    );
    let block = "impl X { #[getter] fn f(&self, ts: &ThreadState<'static>) -> u8 { 1 } }";
    assert_eq!(pymethods(block), error_tokens(STATIC));
}

#[test]
fn reconciling_keeps_order_and_markers() {
    let (params, pos_only) = reconcile(&no_attr(), &strings(&["a", "b"])).unwrap();
    assert_eq!(params.len(), 2);
    assert_eq!(pos_only, 0);
    let attr = parse_attr("signature = (a, b = 2, /, c)").unwrap();
    let (params, pos_only) = reconcile(&attr, &strings(&["a", "b", "c"])).unwrap();
    assert_eq!(params.len(), 3);
    assert_eq!(pos_only, 2);
    assert!(reconcile(&attr, &strings(&["a", "c", "b"])).is_err());
}

#[test]
fn pyfunction_expands_to_a_module() {
    let out = pyfunction("", "pub fn f(ts: &ThreadState, s: &S) -> u8 { 1 } // trailing comment");
    assert_eq!(
        out,
        "pub fn f (ts : & ThreadState , s : & S) -> u8 { 1 } #[doc(hidden)] #[allow(non_upper_case_globals)] pub mod f { use super::*; \
pub const SPEC: ::cpython_api::args::ParamSpec = ::cpython_api::args::ParamSpec { fn_name: \"f\", params: &[], pos_only: 0usize, }; \
pub(crate) unsafe extern \"C\" fn trampoline(__slf: *mut ::cpython_api::ffi::PyObject, __args: *mut *mut ::cpython_api::ffi::PyObject, __nargs: ::cpython_api::ffi::Py_ssize_t, __kwnames: *mut ::cpython_api::ffi::PyObject) -> *mut ::cpython_api::ffi::PyObject { \
::cpython_api::panics::contain(|| { let __ts = unsafe { ::cpython_api::ThreadState::current_unchecked() }; let __result: ::cpython_api::PyResult<*mut ::cpython_api::ffi::PyObject> = (|| { \
let __state: &S = unsafe { ::cpython_api::module::state_from_module_ptr::<S>(&__ts, __slf)? }; \
let __slots = unsafe { ::cpython_api::args::parse_fastcall::<0usize>(&__ts, &SPEC, __args as *const _, __nargs, __kwnames) }?;  \
let __ret = super::f(&__ts, __state, ); ::cpython_api::conversion::IntoPyCallbackOutput::convert(__ret, &__ts) })(); \
::cpython_api::conversion::callback_output(&__ts, __result) }) } \
pub const DEF: ::cpython_api::ffi::PyMethodDef = ::cpython_api::ffi::PyMethodDef { ml_name: ::cpython_api::const_cstr(b\"f\\0\").as_ptr().cast_mut(), ml_meth: ::cpython_api::ffi::PyMethodDefFuncPointer { PyCFunctionFastWithKeywords: trampoline }, ml_flags: ::cpython_api::ffi::METH_FASTCALL | ::cpython_api::ffi::METH_KEYWORDS, ml_doc: ::std::ptr::null_mut() }; }"
    );
    assert!(syn::parse_file(&out).is_ok());
}

#[test]
fn pyfunction_passes_arguments_on() {
    let out = pyfunction(
        "signature = (data, value = 1, /)",
        "fn adler32(ts: &mut ThreadState<'_>, _state: &a::S, data: PyBuffer<'_>, value: u32) -> PyResult<u32> { Ok(value) }",
    );
    assert!(syn::parse_file(&out).is_ok());
    assert!(out.contains("params: &[::cpython_api::args::Param { name: ::cpython_api::const_cstr(b\"data\\0\"), required: true, }, ::cpython_api::args::Param { name: ::cpython_api::const_cstr(b\"value\\0\"), required: false, }], pos_only: 2usize, };"));
    assert!(out.contains("let mut __ts = unsafe"));
    assert!(out.contains("let __state: &a :: S = unsafe { ::cpython_api::module::state_from_module_ptr::<a :: S>(&__ts, __slf)? };"));
    assert!(out.contains("parse_fastcall::<2usize>"));
    assert!(out.contains("let __arg0 = match ::cpython_api::args::arg_bound(&__slots, 0usize) { Some(obj) => ::cpython_api::FromPyObject::extract(&__ts, obj)?, None => unreachable!(\"required argument enforced by parse\"), };"));
    assert!(out.contains("let __arg1 = match ::cpython_api::args::arg_bound(&__slots, 1usize) { Some(obj) => ::cpython_api::FromPyObject::extract(&__ts, obj)?, None => 1, };"));
    assert!(out.contains("super::adler32(&mut __ts, __state, __arg0, __arg1)"));
}

#[test]
fn pyfunction_reports_errors() {
    assert_eq!(
        pyfunction("", "fn f(&self, ts: &T, s: &S) {}"),
        ":: core :: compile_error ! { \"#[pyfunction] on methods must be used inside #[pymethods]\" }"
    );
    assert_eq!(
        pyfunction("x", "fn f() {}"),
        ":: core :: compile_error ! { \"expected `signature = (...)`\" }"
    );
    assert!(pyfunction("", "struct X;").starts_with(":: core :: compile_error ! { \""));
    assert_eq!(error_tokens("a \"b\""), ":: core :: compile_error ! { \"a \\\"b\\\"\" }");
    // What the compiler is made to report is a macro call.
    assert!(syn::parse_str::<syn::ExprMacro>(&error_tokens("x")).is_ok());
}

#[test]
fn literals() {
    assert_eq!(cstr_lit("eof"), "b\"eof\\0\"");
    assert_eq!(cstr_lit(""), "b\"\\0\"");
    assert_eq!(cstr_lit("\u{e9}"), "b\"\\xC3\\xA9\\0\"");
}

#[test]
fn specs_as_values() {
    let model = function_model("signature = (a, b = None)", "fn f(ts: &T, s: &S, a: u8, b: Option<u8>) {}").unwrap();
    let spec = param_spec(&model).unwrap();
    assert_eq!(spec.fn_name, "f");
    assert_eq!(spec.params[0].name.to_bytes(), b"a");
    assert!(spec.params[0].required);
    assert!(!spec.params[1].required);
    assert_eq!(
        function_model("", "fn f(ts: &T) {}").unwrap_err().message,
        "a module-state parameter is required after `ts` (`state: &YourModuleState`; name it `_state` if unused)"
    );
}

#[test]
fn markers_of_a_method() {
    let m = method_marks(&strings(&[
        "#[doc = \" text\"]",
        "#[new]",
        "#[pyfunction(signature = (a))]",
        "#![allow(x)]",
        "#[pyfunction::other]",
    ]))
    .unwrap();
    assert!(m.is_py);
    assert_eq!(m.kind, MethodKind::New);
    assert_eq!(m.attr.entries.map(|e| e.len()), Some(1));
    assert_eq!(m.outer, strings(&["#[doc = \" text\"]", "#[pyfunction::other]"]));
    assert_eq!(m.inner, strings(&["#![allow(x)]"]));

    let m = method_marks(&strings(&["#[inline]", "#[getters]"])).unwrap();
    assert!(!m.is_py);
    assert_eq!(m.kind, MethodKind::Regular);

    let m = method_marks(&strings(&["#[pyfunction(signature = (a))]", "#[pyfunction]"])).unwrap();
    assert!(m.attr.entries.is_none());

    assert_eq!(
        method_marks(&strings(&["#[pyfunction = 1]"])).unwrap_err().message,
        "expected parentheses: #[pyfunction(...)]"
    );
    assert_eq!(
        method_marks(&strings(&["#![pyfunction = 1]"])).unwrap_err().message,
        "expected parentheses: #![pyfunction(...)]"
    );
}

#[test]
fn pymethods_keeps_the_block() {
    let out = pymethods(
        "#[allow(dead_code)] impl Thing { /// doc\n #[getter] #[inline] pub fn size(&self, ts: &T) -> u8 where u8: Copy { #![allow(x)] if true { return 1; } 2 } const N: u8 = 1; fn plain(self) {} }",
    );
    // The items stay; only the marker is gone.
    let kept = "#[allow(dead_code)] impl Thing { /// doc\n #[inline] pub fn size(&self, ts: &T) -> u8 where u8: Copy { #![allow(x)] if true { return 1; } 2 } const N: u8 = 1; fn plain(self) {} }";
    let file = syn::parse_file(&out).unwrap();
    let block: syn::Item = syn::parse_str(kept).unwrap();
    assert_eq!(file.items[0].to_token_stream().to_string(), block.to_token_stream().to_string());
    assert_eq!(file.items.len(), 4);
    assert!(out.contains("#[doc(hidden)] #[allow(non_snake_case)] mod __cpy_Thing_size { use super::*; pub(crate) unsafe extern \"C\" fn getter("));
    assert!(out.contains("let __this: &Thing = unsafe { ::cpython_api::class::payload_ref::<Thing>(__slf) }; let __ret = super::Thing::size(__this, &__ts);"));
    assert!(out.contains("static THING_METHODS: ::cpython_api::module::MethodDefs<1usize> = ::cpython_api::module::MethodDefs([::cpython_api::ffi::PyMethodDef::zeroed()]);"));
    assert!(out.contains("static THING_GETSETS: ::cpython_api::module::GetSetDefs<2usize>"));
    assert!(!out.contains("TP_NEW"));
}

#[test]
fn pymethods_makes_constructors() {
    let out = pymethods(
        "impl m::Thing { #[new] fn make(ts: &mut T, a: u8) -> PyResult<Self> { x } #[pyfunction] fn go(&self, ts: &T, s: &S) {} }",
    );
    assert!(syn::parse_file(&out).is_ok());
    assert!(out.contains("mod __cpy_Thing_make { use super::*; pub const SPEC:"));
    assert!(out.contains("parse_tuple_dict::<1usize>(&__ts, &SPEC, __args, __kwargs)"));
    assert!(out.contains("let __payload: m :: Thing = super::m :: Thing::make(&mut __ts, __arg0)?; unsafe { ::cpython_api::class::alloc_with::<m :: Thing>(&__ts, __subtype, __payload) }"));
    assert!(out.contains("pub(crate) const THING_TP_NEW: ::cpython_api::class::NewFunc = __cpy_Thing_make::tp_new;"));
    assert!(out.contains("let __state: &S = unsafe { ::cpython_api::class::state_from_defining_class::<S>(&__ts, __cls)? };"));
    assert!(out.contains("super::m :: Thing::go(__this, &__ts, __state, )"));
    assert!(out.contains("PyCMethod: trampoline"));
    assert!(out.contains("__cls: *mut ::cpython_api::ffi::PyTypeObject"));
}

#[test]
fn everything_c_calls_is_contained() {
    let out = pymethods(
        "impl X { #[new] fn make(ts: &T) -> PyResult<Self> { x } #[getter] fn get(&self, ts: &T) {} #[pyfunction] fn go(&self, ts: &T, s: &S) {} }",
    );
    assert!(syn::parse_file(&out).is_ok());
    assert_eq!(out.matches("unsafe extern \"C\" fn").count(), 3);
    assert_eq!(out.matches("*mut ::cpython_api::ffi::PyObject { ::cpython_api::panics::contain(|| { let __ts").count(), 3);
    assert_eq!(out.matches("callback_output(&__ts, __result) }) }").count(), 3);
}

#[test]
fn unmarked_items_stay_as_written() {
    let out = pymethods("impl X { #[a] fn plain() { #![b] let x = 1; } const N: u8 = 1; }");
    assert!(out.starts_with("impl X {"), "{out}");
    let file = syn::parse_file(&out).unwrap();
    let kept: syn::Item = syn::parse_str("impl X { #[a] fn plain() { #![b] let x = 1; } const N: u8 = 1; }").unwrap();
    assert_eq!(file.items[0].to_token_stream().to_string(), kept.to_token_stream().to_string());
}

#[test]
fn pymethods_reports_errors() {
    let error = |text: &str| {
        let out = pymethods(text);
        let head = ":: core :: compile_error ! { \"";
        assert!(out.starts_with(head), "{out}");
        out[head.len()..out.len() - 3].to_string()
    };
    assert_eq!(error("impl Clone for X {}"), "#[pymethods] only supports inherent impl blocks");
    assert_eq!(error("impl (A, B) {}"), "unsupported self type");
    assert_eq!(
        error("impl X { #[pyfunction] fn f(ts: &T, s: &S) {} }"),
        "#[pyfunction] methods must take &self (use #[new] for constructors)"
    );
    assert_eq!(error("impl X { #[getter] fn f(ts: &T) {} }"), "#[getter] methods must take &self");
    assert_eq!(
        error("impl X { #[new] fn f(&self, ts: &T) {} }"),
        "#[new] must not take a receiver; it returns PyResult<Self>"
    );
    assert_eq!(error("impl X { #[new] fn f(ts: &T) {} #[new] fn g(ts: &T) {} }"), "duplicate #[new]");
    assert_eq!(
        error("impl X { #[getter] fn f(&mut self, ts: &T) {} }"),
        "methods must take `&self`; use interior mutability (e.g. Mutex) for state"
    );
    assert_eq!(error("impl r#match {}"), "\\\"R#MATCH_METHODS\\\" is not a valid Ident");
    // The first bad item decides.
    assert_eq!(
        error("impl X { #[getter] fn f(ts: &T) {} #[pyfunction] fn g(ts: &T, s: &S) {} }"),
        "#[getter] methods must take &self"
    );
}

#[test]
fn raw_names() {
    let out = pymethods("impl Thing { #[getter] fn r#type(&self, ts: &T) -> u8 { 1 } }");
    assert!(out.contains("mod __cpy_Thing_type {"));
    assert!(out.contains("super::Thing::r#type(__this, &__ts)"));
    assert!(out.contains("const_cstr(b\"r#type\\0\")"));
}
