//! The source text that is generated for an annotated function.
//!
//! Each piece of text has a spec function that says what it is; the template
//! constants hold the fixed parts.

use vstd::prelude::*;
use vstd::string::*;
use vstd::utf8::*;
use crate::args::{Param, ParamSpec, ParamSpecView, ParamView};
use crate::cstr::CStr;
use crate::macros::model::{FnModel, FnModelView, PyParam, PyParamView};
use crate::macros::tokens::{
    byte_string_literal, byte_string_literal_text, string_literal, string_literal_text,
};
use crate::text::{decimal, decimal_text, join, join_text, texts};

verus! {

pub const TRUE: &'static str = "true";

pub const FALSE: &'static str = "false";

pub const SPEC_HEAD: &'static str =
    "pub const SPEC: ::cpython_api::args::ParamSpec = ::cpython_api::args::ParamSpec { fn_name: ";

pub const SPEC_PARAMS: &'static str = ", params: &[";

pub const SPEC_POS_ONLY: &'static str = "], pos_only: ";

pub const SPEC_END: &'static str = "usize, };";

pub const PARAM_HEAD: &'static str =
    "::cpython_api::args::Param { name: ::cpython_api::const_cstr(";

pub const PARAM_REQUIRED: &'static str = "), required: ";

pub const PARAM_END: &'static str = ", }";

pub const ARG: &'static str = "__arg";

pub const EXTRACT_HEAD: &'static str = "let __arg";

pub const EXTRACT_SLOT: &'static str = " = match ::cpython_api::args::arg_bound(&__slots, ";

pub const EXTRACT_NONE: &'static str =
    "usize) { Some(obj) => ::cpython_api::FromPyObject::extract(&__ts, obj)?, None => ";

pub const EXTRACT_REQUIRED: &'static str =
    "unreachable!(\"required argument enforced by parse\")";

pub const EXTRACT_END: &'static str = ", };";

pub const TS_SHARED: &'static str = "__ts";

pub const TS_MUT: &'static str = "mut __ts";

pub const TS_REF: &'static str = "&__ts";

pub const TS_REF_MUT: &'static str = "&mut __ts";

pub const STATE_HEAD: &'static str = "let __state: &";

pub const STATE_FROM_MODULE: &'static str =
    " = unsafe { ::cpython_api::module::state_from_module_ptr::<";

pub const STATE_FROM_MODULE_END: &'static str = ">(&__ts, __slf)? };";

pub const STATE_FROM_CLASS: &'static str =
    " = unsafe { ::cpython_api::class::state_from_defining_class::<";

pub const STATE_FROM_CLASS_END: &'static str = ">(&__ts, __cls)? };";

pub const THIS_HEAD: &'static str = "let __this: &";

pub const THIS_PAYLOAD: &'static str = " = unsafe { ::cpython_api::class::payload_ref::<";

pub const THIS_END: &'static str = ">(__slf) }; ";

pub const SUPER: &'static str = "super::";

pub const PATH: &'static str = "::";

pub const OPEN: &'static str = "(";

pub const OPEN_THIS: &'static str = "(__this, ";

pub const CALL_STATE: &'static str = ", __state, ";

pub const COMMA: &'static str = ", ";

pub const CLOSE: &'static str = ")";

pub const CONTAIN: &'static str = "::cpython_api::panics::contain(|| { ";

pub const CONTAIN_END: &'static str = " })";

pub const BODY_HEAD: &'static str = "let ";

pub const BODY_RESULT: &'static str =
    " = unsafe { ::cpython_api::ThreadState::current_unchecked() }; let __result: ::cpython_api::PyResult<*mut ::cpython_api::ffi::PyObject> = (|| { ";

pub const BODY_PARSE: &'static str =
    " let __slots = unsafe { ::cpython_api::args::parse_fastcall::<";

pub const BODY_PARSED: &'static str =
    "usize>(&__ts, &SPEC, __args as *const _, __nargs, __kwnames) }?; ";

pub const BODY_CALL: &'static str = " let __ret = ";

pub const BODY_END: &'static str =
    "; ::cpython_api::conversion::IntoPyCallbackOutput::convert(__ret, &__ts) })(); ::cpython_api::conversion::callback_output(&__ts, __result)";

pub const METHOD_TRAMPOLINE: &'static str =
    " pub(crate) unsafe extern \"C\" fn trampoline(__slf: *mut ::cpython_api::ffi::PyObject, __cls: *mut ::cpython_api::ffi::PyTypeObject, __args: *mut *mut ::cpython_api::ffi::PyObject, __nargs: ::cpython_api::ffi::Py_ssize_t, __kwnames: *mut ::cpython_api::ffi::PyObject) -> *mut ::cpython_api::ffi::PyObject { ";

pub const FUNCTION_TRAMPOLINE: &'static str =
    " pub(crate) unsafe extern \"C\" fn trampoline(__slf: *mut ::cpython_api::ffi::PyObject, __args: *mut *mut ::cpython_api::ffi::PyObject, __nargs: ::cpython_api::ffi::Py_ssize_t, __kwnames: *mut ::cpython_api::ffi::PyObject) -> *mut ::cpython_api::ffi::PyObject { ";

pub const DEF_HEAD: &'static str =
    " } pub const DEF: ::cpython_api::ffi::PyMethodDef = ::cpython_api::ffi::PyMethodDef { ml_name: ::cpython_api::const_cstr(";

pub const METHOD_DEF_END: &'static str =
    ").as_ptr().cast_mut(), ml_meth: ::cpython_api::ffi::PyMethodDefFuncPointer { PyCMethod: trampoline }, ml_flags: ::cpython_api::ffi::METH_FASTCALL | ::cpython_api::ffi::METH_KEYWORDS | ::cpython_api::ffi::METH_METHOD, ml_doc: ::std::ptr::null_mut() };";

pub const FUNCTION_DEF_END: &'static str =
    ").as_ptr().cast_mut(), ml_meth: ::cpython_api::ffi::PyMethodDefFuncPointer { PyCFunctionFastWithKeywords: trampoline }, ml_flags: ::cpython_api::ffi::METH_FASTCALL | ::cpython_api::ffi::METH_KEYWORDS, ml_doc: ::std::ptr::null_mut() };";

pub const GETTER_HEAD: &'static str =
    "pub(crate) unsafe extern \"C\" fn getter(__slf: *mut ::cpython_api::ffi::PyObject, _closure: *mut ::std::os::raw::c_void) -> *mut ::cpython_api::ffi::PyObject { ";

pub const GETTER_CALL: &'static str = "let __ret = ";

pub const FN_END: &'static str = " }";

pub const NEW_HEAD: &'static str =
    " pub(crate) unsafe extern \"C\" fn tp_new(__subtype: *mut ::cpython_api::ffi::PyTypeObject, __args: *mut ::cpython_api::ffi::PyObject, __kwargs: *mut ::cpython_api::ffi::PyObject) -> *mut ::cpython_api::ffi::PyObject { ";

pub const NEW_PARSE: &'static str =
    "let __slots = unsafe { ::cpython_api::args::parse_tuple_dict::<";

pub const NEW_PARSED: &'static str = "usize>(&__ts, &SPEC, __args, __kwargs) }?; ";

pub const NEW_PAYLOAD: &'static str = " let __payload: ";

pub const NEW_PAYLOAD_CALL: &'static str = " = super::";

pub const NEW_ALLOC: &'static str = ")?; unsafe { ::cpython_api::class::alloc_with::<";

pub const NEW_END: &'static str =
    ">(&__ts, __subtype, __payload) } })(); ::cpython_api::conversion::callback_output(&__ts, __result)";

/// The bytes of `s` and the NUL that ends a C string.
pub open spec fn c_bytes(s: Seq<char>) -> Seq<u8> {
    encode_utf8(s).push(0)
}

/// The literal of the C string `s`.
pub open spec fn cstr_src(s: Seq<char>) -> Seq<char> {
    byte_string_literal(c_bytes(s))
}

/// The bytes of `s` and the NUL that ends a C string.
fn c_string_bytes(s: &str) -> (r: Vec<u8>)
    ensures
        r@ == c_bytes(s@),
{
    let b: &[u8] = s.as_bytes();
    let mut v: Vec<u8> = Vec::new();
    let mut i: usize = 0;
    while i < b.len()
        invariant
            i <= b@.len(),
            v@ == b@.take(i as int),
        decreases b@.len() - i,
    {
        v.push(b[i]);
        assert(b@.take(i + 1) =~= b@.take(i as int).push(b@[i as int]));
        i = i + 1;
    }
    assert(b@.take(i as int) =~= b@);
    v.push(0);
    v
}

/// Write the byte-string literal of a C string.
pub fn cstr_lit(s: &str) -> (r: String)
    ensures
        r@ == cstr_src(s@),
{
    byte_string_literal_text(c_string_bytes(s).as_slice())
}

impl FnModelView {
    /// The binding of the token in a trampoline.
    pub open spec fn ts_binding(self) -> Seq<char> {
        if self.ts_mut {
            TS_MUT@
        } else {
            TS_SHARED@
        }
    }

    /// The token as it is passed to the function.
    pub open spec fn ts_arg(self) -> Seq<char> {
        if self.ts_mut {
            TS_REF_MUT@
        } else {
            TS_REF@
        }
    }
}

impl FnModel {
    /// The binding of the token in a trampoline, and the token as it is passed
    /// to the function.
    pub fn ts_tokens(&self) -> (r: (&'static str, &'static str))
        ensures
            r.0@ == self@.ts_binding(),
            r.1@ == self@.ts_arg(),
    {
        if self.ts_mut {
            (TS_MUT, TS_REF_MUT)
        } else {
            (TS_SHARED, TS_REF)
        }
    }
}

/// The entry of one parameter in the generated parameter spec.
pub open spec fn param_src(p: PyParamView) -> Seq<char> {
    PARAM_HEAD@ + cstr_src(p.name) + PARAM_REQUIRED@ + (if p.default is None {
        TRUE@
    } else {
        FALSE@
    }) + PARAM_END@
}

/// The generated parameter spec.
pub open spec fn spec_src(m: FnModelView) -> Seq<char> {
    SPEC_HEAD@ + string_literal(m.rust_name) + SPEC_PARAMS@ + join(
        m.params.map_values(|p: PyParamView| param_src(p)),
        COMMA@,
    ) + SPEC_POS_ONLY@ + decimal(m.pos_only) + SPEC_END@
}

fn gen_param(p: &PyParam) -> (r: String)
    ensures
        r@ == param_src(p@),
{
    let mut s = PARAM_HEAD.to_owned();
    s.append(cstr_lit(p.name.as_str()).as_str());
    s.append(PARAM_REQUIRED);
    s.append(
        if p.default.is_none() {
            TRUE
        } else {
            FALSE
        },
    );
    s.append(PARAM_END);
    s
}

/// Write the parameter spec.
pub fn gen_spec(model: &FnModel) -> (r: String)
    ensures
        r@ == spec_src(model@),
{
    let mut params: Vec<String> = Vec::new();
    let mut i: usize = 0;
    while i < model.params.len()
        invariant
            i <= model.params@.len(),
            params@.len() == i,
            forall|j: int| 0 <= j < i ==> #[trigger] params@[j]@ == param_src(model.params@[j]@),
        decreases model.params@.len() - i,
    {
        params.push(gen_param(&model.params[i]));
        i = i + 1;
    }
    assert(texts(params@) =~= model@.params.map_values(|p: PyParamView| param_src(p)));
    let mut s = SPEC_HEAD.to_owned();
    s.append(string_literal_text(model.rust_name.as_str()).as_str());
    s.append(SPEC_PARAMS);
    s.append(join_text(params.as_slice(), COMMA).as_str());
    s.append(SPEC_POS_ONLY);
    s.append(decimal_text(model.pos_only).as_str());
    s.append(SPEC_END);
    s
}

/// The parameter spec that a model stands for.
pub open spec fn spec_of(m: FnModelView) -> ParamSpecView {
    ParamSpecView {
        fn_name: m.rust_name,
        params: m.params.map_values(
            |p: PyParamView| ParamView { name: encode_utf8(p.name), required: p.default is None },
        ),
        pos_only: m.pos_only,
    }
}

/// Whether the encoding of a text holds no NUL, so that a C string can hold it.
pub open spec fn fits_c_string(s: Seq<char>) -> bool {
    forall|i: int| 0 <= i < encode_utf8(s).len() ==> encode_utf8(s)[i] != 0
}

/// The parameter spec as a value, or `None` where a name holds a NUL.
pub fn param_spec(model: &FnModel) -> (r: Option<ParamSpec>)
    ensures
        r is Some <==> forall|i: int|
            0 <= i < model@.params.len() ==> fits_c_string(#[trigger] model@.params[i].name),
        r matches Some(s) ==> s@ == spec_of(model@),
{
    let mut params: Vec<Param> = Vec::new();
    let mut i: usize = 0;
    while i < model.params.len()
        invariant
            i <= model.params@.len(),
            params@.len() == i,
            forall|j: int|
                0 <= j < i ==> #[trigger] params@[j]@ == (ParamView {
                    name: encode_utf8(model.params@[j].name@),
                    required: model.params@[j].default is None,
                }),
            forall|j: int| 0 <= j < i ==> fits_c_string(#[trigger] model@.params[j].name),
        decreases model.params@.len() - i,
    {
        let p = &model.params[i];
        let ghost enc = encode_utf8(p.name@);
        let bytes = c_string_bytes(p.name.as_str());
        match CStr::from_bytes_with_nul(bytes.as_slice()) {
            None => {
                proof {
                    assert(model@.params[i as int].name == p.name@);
                    if fits_c_string(p.name@) {
                        assert forall|k: int| 0 <= k < bytes@.len() - 1 implies bytes@[k] != 0 by {
                            assert(bytes@[k] == enc[k]);
                        }
                        assert(false);
                    }
                }
                return None;
            },
            Some(name) => {
                proof {
                    assert(bytes@.drop_last() =~= enc);
                    assert forall|k: int| 0 <= k < enc.len() implies enc[k] != 0 by {
                        assert(bytes@[k] == enc[k]);
                    }
                    assert(model@.params[i as int].name == p.name@);
                }
                params.push(Param { name, required: p.default.is_none() });
            },
        }
        i = i + 1;
    }
    let spec = ParamSpec {
        fn_name: model.rust_name.clone(),
        params,
        pos_only: model.pos_only,
    };
    assert(spec@.params =~= spec_of(model@).params);
    Some(spec)
}

/// The name of the variable of parameter `i`.
pub open spec fn var_src(i: nat) -> Seq<char> {
    ARG@ + decimal(i)
}

/// The variables of `n` parameters.
pub open spec fn vars_src(n: nat) -> Seq<char> {
    join(Seq::new(n, |i: int| var_src(i as nat)), COMMA@)
}

/// The statement that extracts parameter `i` from its slot.
pub open spec fn extraction_src(p: PyParamView, i: nat) -> Seq<char> {
    EXTRACT_HEAD@ + decimal(i) + EXTRACT_SLOT@ + decimal(i) + EXTRACT_NONE@ + (match p.default {
        Some(d) => d,
        None => EXTRACT_REQUIRED@,
    }) + EXTRACT_END@
}

/// The statements that extract all parameters.
pub open spec fn extractions_src(m: FnModelView) -> Seq<char> {
    join(Seq::new(m.params.len(), |i: int| extraction_src(m.params[i], i as nat)), " "@)
}

/// Write the extraction statements and the list of their variables.
pub fn gen_extractions(model: &FnModel) -> (r: (String, String))
    ensures
        r.0@ == extractions_src(model@),
        r.1@ == vars_src(model@.params.len()),
{
    let mut stmts: Vec<String> = Vec::new();
    let mut vars: Vec<String> = Vec::new();
    let mut i: usize = 0;
    while i < model.params.len()
        invariant
            i <= model.params@.len(),
            stmts@.len() == i,
            vars@.len() == i,
            forall|j: int|
                0 <= j < i ==> #[trigger] stmts@[j]@ == extraction_src(model.params@[j]@, j as nat),
            forall|j: int| 0 <= j < i ==> #[trigger] vars@[j]@ == var_src(j as nat),
        decreases model.params@.len() - i,
    {
        let index = decimal_text(i);
        let mut var = ARG.to_owned();
        var.append(index.as_str());
        vars.push(var);
        let mut stmt = EXTRACT_HEAD.to_owned();
        stmt.append(index.as_str());
        stmt.append(EXTRACT_SLOT);
        stmt.append(index.as_str());
        stmt.append(EXTRACT_NONE);
        match &model.params[i].default {
            Some(d) => {
                stmt.append(d.as_str());
            },
            None => {
                stmt.append(EXTRACT_REQUIRED);
            },
        }
        stmt.append(EXTRACT_END);
        stmts.push(stmt);
        i = i + 1;
    }
    proof {
        let m = model@;
        assert(texts(stmts@) =~= Seq::new(
            m.params.len(),
            |i: int| extraction_src(m.params[i], i as nat),
        ));
        assert(texts(vars@) =~= Seq::new(m.params.len(), |i: int| var_src(i as nat)));
    }
    (join_text(stmts.as_slice(), " "), join_text(vars.as_slice(), COMMA))
}

/// Where a trampoline finds its state: a free function in the module object,
/// an instance method of `self_ty` in the defining class.
pub enum TrampolineKind<'a> {
    Function,
    Method { self_ty: &'a str },
}

impl<'a> View for TrampolineKind<'a> {
    type V = Option<Seq<char>>;

    open spec fn view(&self) -> Option<Seq<char>> {
        match self {
            TrampolineKind::Function => None,
            TrampolineKind::Method { self_ty } => Some(self_ty@),
        }
    }
}

/// The statement that binds the payload of `self`.
pub open spec fn this_src(self_ty: Seq<char>) -> Seq<char> {
    THIS_HEAD@ + self_ty + THIS_PAYLOAD@ + self_ty + THIS_END@
}

/// The statements that find the state, and `self` for a method.
pub open spec fn setup_src(m: FnModelView, kind: Option<Seq<char>>) -> Seq<char> {
    match kind {
        None => STATE_HEAD@ + m.state_ty->0 + STATE_FROM_MODULE@ + m.state_ty->0
            + STATE_FROM_MODULE_END@,
        Some(self_ty) => this_src(self_ty) + STATE_HEAD@ + m.state_ty->0 + STATE_FROM_CLASS@
            + m.state_ty->0 + STATE_FROM_CLASS_END@,
    }
}

/// The call of the annotated function.
pub open spec fn call_src(m: FnModelView, kind: Option<Seq<char>>) -> Seq<char> {
    match kind {
        None => SUPER@ + m.rust_name + OPEN@ + m.ts_arg() + CALL_STATE@ + vars_src(m.params.len())
            + CLOSE@,
        Some(self_ty) => SUPER@ + self_ty + PATH@ + m.rust_name + OPEN_THIS@ + m.ts_arg()
            + CALL_STATE@ + vars_src(m.params.len()) + CLOSE@,
    }
}

/// The body of a function that C calls: all of it runs inside the helper that
/// counts the entry and stops a panic there.
pub open spec fn contained(body: Seq<char>) -> Seq<char> {
    CONTAIN@ + body + CONTAIN_END@
}

fn gen_contained(body: &str) -> (r: String)
    ensures
        r@ == contained(body@),
{
    let mut s = CONTAIN.to_owned();
    s.append(body);
    s.append(CONTAIN_END);
    s
}

/// What a trampoline does: get the token, find the state, bind and extract the
/// arguments, call the function, and convert what it returns.
pub open spec fn body_src(m: FnModelView, kind: Option<Seq<char>>) -> Seq<char> {
    BODY_HEAD@ + m.ts_binding() + BODY_RESULT@ + setup_src(m, kind) + BODY_PARSE@ + decimal(
        m.params.len(),
    ) + BODY_PARSED@ + extractions_src(m) + BODY_CALL@ + call_src(m, kind) + BODY_END@
}

/// The parameter spec, the trampoline and the method definition of a function.
pub open spec fn definition_src(m: FnModelView, kind: Option<Seq<char>>) -> Seq<char> {
    spec_src(m) + (if kind is None {
        FUNCTION_TRAMPOLINE@
    } else {
        METHOD_TRAMPOLINE@
    }) + contained(body_src(m, kind)) + DEF_HEAD@ + cstr_src(m.rust_name) + (if kind is None {
        FUNCTION_DEF_END@
    } else {
        METHOD_DEF_END@
    })
}

fn gen_this(self_ty: &str) -> (r: String)
    ensures
        r@ == this_src(self_ty@),
{
    let mut s = THIS_HEAD.to_owned();
    s.append(self_ty);
    s.append(THIS_PAYLOAD);
    s.append(self_ty);
    s.append(THIS_END);
    s
}

fn gen_setup(model: &FnModel, kind: &TrampolineKind<'_>) -> (r: String)
    requires
        model.state_ty is Some,
    ensures
        r@ == setup_src(model@, kind@),
{
    let state_ty: &str = model.state_ty.as_ref().unwrap().as_str();
    match kind {
        TrampolineKind::Function => {
            let mut s = STATE_HEAD.to_owned();
            s.append(state_ty);
            s.append(STATE_FROM_MODULE);
            s.append(state_ty);
            s.append(STATE_FROM_MODULE_END);
            s
        },
        TrampolineKind::Method { self_ty } => {
            let mut s = gen_this(self_ty);
            s.append(STATE_HEAD);
            s.append(state_ty);
            s.append(STATE_FROM_CLASS);
            s.append(state_ty);
            s.append(STATE_FROM_CLASS_END);
            s
        },
    }
}

fn gen_call(model: &FnModel, kind: &TrampolineKind<'_>, vars: &str) -> (r: String)
    requires
        vars@ == vars_src(model@.params.len()),
    ensures
        r@ == call_src(model@, kind@),
{
    let mut s = SUPER.to_owned();
    match kind {
        TrampolineKind::Function => {
            s.append(model.rust_name.as_str());
            s.append(OPEN);
        },
        TrampolineKind::Method { self_ty } => {
            s.append(self_ty);
            s.append(PATH);
            s.append(model.rust_name.as_str());
            s.append(OPEN_THIS);
        },
    }
    s.append(model.ts_tokens().1);
    s.append(CALL_STATE);
    s.append(vars);
    s.append(CLOSE);
    s
}

/// Write the trampoline and the method definition of a function or method.
pub fn gen_trampoline_and_def(model: &FnModel, kind: TrampolineKind<'_>) -> (r: String)
    requires
        model.state_ty is Some,
    ensures
        r@ == definition_src(model@, kind@),
{
    let (extractions, vars) = gen_extractions(model);
    let setup = gen_setup(model, &kind);
    let call = gen_call(model, &kind, vars.as_str());
    let mut body = BODY_HEAD.to_owned();
    body.append(model.ts_tokens().0);
    body.append(BODY_RESULT);
    body.append(setup.as_str());
    body.append(BODY_PARSE);
    body.append(decimal_text(model.params.len()).as_str());
    body.append(BODY_PARSED);
    body.append(extractions.as_str());
    body.append(BODY_CALL);
    body.append(call.as_str());
    body.append(BODY_END);
    let (trampoline, def_end) = match kind {
        TrampolineKind::Function => (FUNCTION_TRAMPOLINE, FUNCTION_DEF_END),
        TrampolineKind::Method { .. } => (METHOD_TRAMPOLINE, METHOD_DEF_END),
    };
    let mut s = gen_spec(model);
    s.append(trampoline);
    s.append(gen_contained(body.as_str()).as_str());
    s.append(DEF_HEAD);
    s.append(cstr_lit(model.rust_name.as_str()).as_str());
    s.append(def_end);
    s
}

/// What a getter does: get the token, call the method, and convert what it
/// returns.
pub open spec fn getter_body_src(m: FnModelView, self_ty: Seq<char>) -> Seq<char> {
    BODY_HEAD@ + m.ts_binding() + BODY_RESULT@ + this_src(self_ty) + GETTER_CALL@ + SUPER@ + self_ty
        + PATH@ + m.rust_name + OPEN_THIS@ + m.ts_arg() + CLOSE@ + BODY_END@
}

/// The getter function of a `#[getter]` method.
pub open spec fn getter_src(m: FnModelView, self_ty: Seq<char>) -> Seq<char> {
    GETTER_HEAD@ + contained(getter_body_src(m, self_ty)) + FN_END@
}

/// Write the getter function of a `#[getter]` method.
pub fn gen_getter(model: &FnModel, self_ty: &str) -> (r: String)
    ensures
        r@ == getter_src(model@, self_ty@),
{
    let (ts_binding, ts_arg) = model.ts_tokens();
    let mut body = BODY_HEAD.to_owned();
    body.append(ts_binding);
    body.append(BODY_RESULT);
    body.append(gen_this(self_ty).as_str());
    body.append(GETTER_CALL);
    body.append(SUPER);
    body.append(self_ty);
    body.append(PATH);
    body.append(model.rust_name.as_str());
    body.append(OPEN_THIS);
    body.append(ts_arg);
    body.append(CLOSE);
    body.append(BODY_END);
    let mut s = GETTER_HEAD.to_owned();
    s.append(gen_contained(body.as_str()).as_str());
    s.append(FN_END);
    s
}

/// What a constructor does: get the token, bind and extract the arguments, make
/// the payload, and put it into a new object.
pub open spec fn new_body_src(m: FnModelView, self_ty: Seq<char>) -> Seq<char> {
    BODY_HEAD@ + m.ts_binding() + BODY_RESULT@ + NEW_PARSE@ + decimal(m.params.len()) + NEW_PARSED@
        + extractions_src(m) + NEW_PAYLOAD@ + self_ty + NEW_PAYLOAD_CALL@ + self_ty + PATH@
        + m.rust_name + OPEN@ + m.ts_arg() + COMMA@ + vars_src(m.params.len()) + NEW_ALLOC@ + self_ty
        + NEW_END@
}

/// The parameter spec and the constructor function of a `#[new]` function.
pub open spec fn tp_new_src(m: FnModelView, self_ty: Seq<char>) -> Seq<char> {
    spec_src(m) + NEW_HEAD@ + contained(new_body_src(m, self_ty)) + FN_END@
}

/// Write the parameter spec and the constructor function of a `#[new]`
/// function.
pub fn gen_tp_new(model: &FnModel, self_ty: &str) -> (r: String)
    ensures
        r@ == tp_new_src(model@, self_ty@),
{
    let (extractions, vars) = gen_extractions(model);
    let (ts_binding, ts_arg) = model.ts_tokens();
    let mut body = BODY_HEAD.to_owned();
    body.append(ts_binding);
    body.append(BODY_RESULT);
    body.append(NEW_PARSE);
    body.append(decimal_text(model.params.len()).as_str());
    body.append(NEW_PARSED);
    body.append(extractions.as_str());
    body.append(NEW_PAYLOAD);
    body.append(self_ty);
    body.append(NEW_PAYLOAD_CALL);
    body.append(self_ty);
    body.append(PATH);
    body.append(model.rust_name.as_str());
    body.append(OPEN);
    body.append(ts_arg);
    body.append(COMMA);
    body.append(vars.as_str());
    body.append(NEW_ALLOC);
    body.append(self_ty);
    body.append(NEW_END);
    let mut s = gen_spec(model);
    s.append(NEW_HEAD);
    s.append(gen_contained(body.as_str()).as_str());
    s.append(FN_END);
    s
}

} // verus!
