//! What the generated functions do, in the order in which they do it.

use vstd::prelude::*;
use vstd::string::*;
use vstd::utf8::*;
use crate::args::ParamSpec;
use crate::macros::codegen::{
    call_src, cstr_lit, cstr_src, extraction_src, extractions_src, gen_extractions, gen_getter,
    gen_spec, gen_tp_new, gen_trampoline_and_def, param_spec, param_src, spec_src, var_src,
    vars_src, TrampolineKind,
};
use crate::macros::model::{FnModel, FnModelView, PyParamView};
use crate::macros::tokens::{byte_string_literal, string_literal};
use crate::text::{decimal, join};

verus! {

/// The literal of a C string: the bytes of the text and one NUL.
pub open spec fn c_literal(s: Seq<char>) -> Seq<char> {
    byte_string_literal(encode_utf8(s) + seq![0u8])
}

/// The variable of parameter `k`.
pub open spec fn arg_name(k: int) -> Seq<char> {
    "__arg"@ + decimal(k as nat)
}

/// The variables of all parameters, in order.
pub open spec fn arg_names(m: FnModelView) -> Seq<char> {
    join(Seq::new(m.params.len(), |k: int| arg_name(k)), ", "@)
}

/// The statement that binds the variable of parameter `k` to what slot `k`
/// holds, or to its default where the slot is empty.
pub open spec fn binding(p: PyParamView, k: int) -> Seq<char> {
    "let __arg"@ + decimal(k as nat) + " = match ::cpython_api::args::arg_bound(&__slots, "@
        + decimal(k as nat)
        + "usize) { Some(obj) => ::cpython_api::FromPyObject::extract(&__ts, obj)?, None => "@ + (
    match p.default {
        Some(d) => d,
        None => "unreachable!(\"required argument enforced by parse\")"@,
    }) + ", };"@
}

/// The statements that bind the variables of all parameters, in order.
pub open spec fn bindings(m: FnModelView) -> Seq<char> {
    join(Seq::new(m.params.len(), |k: int| binding(m.params[k], k)), " "@)
}

/// The token as it is passed on.
pub open spec fn token(m: FnModelView) -> Seq<char> {
    if m.ts_mut {
        "&mut __ts"@
    } else {
        "&__ts"@
    }
}

/// The token as it is bound.
pub open spec fn bound_token(m: FnModelView) -> Seq<char> {
    if m.ts_mut {
        "mut __ts"@
    } else {
        "__ts"@
    }
}

/// The parameter spec: the name of the function, each parameter by name and by
/// whether it has to be given, in order, and how many cannot be named.
pub open spec fn spec_text(m: FnModelView) -> Seq<char> {
    "pub const SPEC: ::cpython_api::args::ParamSpec = ::cpython_api::args::ParamSpec { fn_name: "@
        + string_literal(m.rust_name) + ", params: &["@ + join(
        Seq::new(
            m.params.len(),
            |k: int|
                "::cpython_api::args::Param { name: ::cpython_api::const_cstr("@ + c_literal(
                    m.params[k].name,
                ) + "), required: "@ + (if m.params[k].default is None {
                    "true"@
                } else {
                    "false"@
                }) + ", }"@,
        ),
        ", "@,
    ) + "], pos_only: "@ + decimal(m.pos_only) + "usize, };"@
}

/// The call of the function, with the token, the state and the variable of each
/// visible parameter, in order. A method is called on its own payload.
pub open spec fn call_text(m: FnModelView, self_ty: Option<Seq<char>>) -> Seq<char> {
    match self_ty {
        None => "super::"@ + m.rust_name + "("@ + token(m) + ", __state, "@ + arg_names(m) + ")"@,
        Some(ty) => "super::"@ + ty + "::"@ + m.rust_name + "(__this, "@ + token(m) + ", __state, "@
            + arg_names(m) + ")"@,
    }
}

/// How the payload of a method's instance is found.
pub open spec fn payload_text(ty: Seq<char>) -> Seq<char> {
    "let __this: &"@ + ty + " = unsafe { ::cpython_api::class::payload_ref::<"@ + ty
        + ">(__slf) }; "@
}

/// How the state is found: by the module of a function, by the defining class of
/// a method, whose payload is found first.
pub open spec fn state_text(m: FnModelView, self_ty: Option<Seq<char>>) -> Seq<char> {
    let ty = m.state_ty->0;
    match self_ty {
        None => "let __state: &"@ + ty
            + " = unsafe { ::cpython_api::module::state_from_module_ptr::<"@ + ty
            + ">(&__ts, __slf)? };"@,
        Some(t) => payload_text(t) + "let __state: &"@ + ty
            + " = unsafe { ::cpython_api::class::state_from_defining_class::<"@ + ty
            + ">(&__ts, __cls)? };"@,
    }
}

/// How the token is got, for as long as the function runs.
pub open spec fn token_text(m: FnModelView) -> Seq<char> {
    "let "@ + bound_token(m)
        + " = unsafe { ::cpython_api::ThreadState::current_unchecked() }; let __result: ::cpython_api::PyResult<*mut ::cpython_api::ffi::PyObject> = (|| { "@
}

/// How the result of the function is converted and handed to C.
pub open spec fn result_text() -> Seq<char> {
    "; ::cpython_api::conversion::IntoPyCallbackOutput::convert(__ret, &__ts) })(); ::cpython_api::conversion::callback_output(&__ts, __result)"@
}

/// A text that runs inside the helper that counts the entry and stops a panic.
pub open spec fn inside(text: Seq<char>) -> Seq<char> {
    "::cpython_api::panics::contain(|| { "@ + text + " })"@
}

proof fn lemma_bindings(m: FnModelView)
    ensures
        extractions_src(m) == bindings(m),
        vars_src(m.params.len()) == arg_names(m),
        spec_src(m) == spec_text(m),
{
    assert(Seq::new(m.params.len(), |i: int| extraction_src(m.params[i], i as nat)) =~= Seq::new(
        m.params.len(),
        |k: int| binding(m.params[k], k),
    ));
    assert(Seq::new(m.params.len(), |i: int| var_src(i as nat)) =~= Seq::new(
        m.params.len(),
        |k: int| arg_name(k),
    ));
    let spelled = Seq::new(
        m.params.len(),
        |k: int|
            "::cpython_api::args::Param { name: ::cpython_api::const_cstr("@ + c_literal(
                m.params[k].name,
            ) + "), required: "@ + (if m.params[k].default is None {
                "true"@
            } else {
                "false"@
            }) + ", }"@,
    );
    assert(m.params.map_values(|p: PyParamView| param_src(p)) =~= spelled) by {
        assert forall|k: int| 0 <= k < m.params.len() implies param_src(m.params[k]) == spelled[k] by {
            lemma_c_literal(m.params[k].name);
        }
    }
}

pub(crate) proof fn lemma_c_literal(s: Seq<char>)
    ensures
        cstr_src(s) == c_literal(s),
{
    assert(encode_utf8(s).push(0u8) =~= encode_utf8(s) + seq![0u8]);
}

/// A trampoline gets the token, finds the state, binds the arguments to as many
/// slots as there are parameters, binds one variable to each slot, calls the
/// function with all of these variables in order, and converts what it returns,
/// all of it inside the helper. Before it stand the parameters of the function,
/// after it its definition under its name. C hands a method its defining class
/// too.
pub proof fn law_trampoline(model: FnModel, kind: TrampolineKind<'_>, r: String)
    requires
        model.state_ty is Some,
        call_ensures(gen_trampoline_and_def, (&model, kind), r),
    ensures
        r@ == spec_text(model@) + (if kind@ is None {
            " pub(crate) unsafe extern \"C\" fn trampoline(__slf: *mut ::cpython_api::ffi::PyObject, __args: *mut *mut ::cpython_api::ffi::PyObject, __nargs: ::cpython_api::ffi::Py_ssize_t, __kwnames: *mut ::cpython_api::ffi::PyObject) -> *mut ::cpython_api::ffi::PyObject { "@
        } else {
            " pub(crate) unsafe extern \"C\" fn trampoline(__slf: *mut ::cpython_api::ffi::PyObject, __cls: *mut ::cpython_api::ffi::PyTypeObject, __args: *mut *mut ::cpython_api::ffi::PyObject, __nargs: ::cpython_api::ffi::Py_ssize_t, __kwnames: *mut ::cpython_api::ffi::PyObject) -> *mut ::cpython_api::ffi::PyObject { "@
        }) + inside(
            token_text(model@) + state_text(model@, kind@)
                + " let __slots = unsafe { ::cpython_api::args::parse_fastcall::<"@ + decimal(
                model@.params.len(),
            ) + "usize>(&__ts, &SPEC, __args as *const _, __nargs, __kwnames) }?; "@ + bindings(
                model@,
            ) + " let __ret = "@ + call_text(model@, kind@) + result_text(),
        )
            + " } pub const DEF: ::cpython_api::ffi::PyMethodDef = ::cpython_api::ffi::PyMethodDef { ml_name: ::cpython_api::const_cstr("@
            + c_literal(model@.rust_name) + (if kind@ is None {
            ").as_ptr().cast_mut(), ml_meth: ::cpython_api::ffi::PyMethodDefFuncPointer { PyCFunctionFastWithKeywords: trampoline }, ml_flags: ::cpython_api::ffi::METH_FASTCALL | ::cpython_api::ffi::METH_KEYWORDS, ml_doc: ::std::ptr::null_mut() };"@
        } else {
            ").as_ptr().cast_mut(), ml_meth: ::cpython_api::ffi::PyMethodDefFuncPointer { PyCMethod: trampoline }, ml_flags: ::cpython_api::ffi::METH_FASTCALL | ::cpython_api::ffi::METH_KEYWORDS | ::cpython_api::ffi::METH_METHOD, ml_doc: ::std::ptr::null_mut() };"@
        }),
{
    lemma_bindings(model@);
    lemma_c_literal(model@.rust_name);
}

/// A getter gets the token and calls its method on the payload of the instance,
/// whose result it converts, all of it inside the helper.
pub proof fn law_getter(model: FnModel, self_ty: &str, r: String)
    requires
        call_ensures(gen_getter, (&model, self_ty), r),
    ensures
        r@
            == "pub(crate) unsafe extern \"C\" fn getter(__slf: *mut ::cpython_api::ffi::PyObject, _closure: *mut ::std::os::raw::c_void) -> *mut ::cpython_api::ffi::PyObject { "@
            + inside(
            token_text(model@) + payload_text(self_ty@) + "let __ret = "@ + "super::"@ + self_ty@
                + "::"@ + model@.rust_name + "(__this, "@ + token(model@) + ")"@ + result_text(),
        ) + " }"@,
{
}

/// A constructor gets the token, binds the arguments to as many slots as there
/// are parameters, binds one variable to each slot, makes the payload with all of
/// these variables in order, and puts it into a new object, all of it inside the
/// helper. Before it stand the parameters of the function.
pub proof fn law_constructor(model: FnModel, self_ty: &str, r: String)
    requires
        call_ensures(gen_tp_new, (&model, self_ty), r),
    ensures
        r@ == spec_text(model@)
            + " pub(crate) unsafe extern \"C\" fn tp_new(__subtype: *mut ::cpython_api::ffi::PyTypeObject, __args: *mut ::cpython_api::ffi::PyObject, __kwargs: *mut ::cpython_api::ffi::PyObject) -> *mut ::cpython_api::ffi::PyObject { "@
            + inside(
            token_text(model@) + "let __slots = unsafe { ::cpython_api::args::parse_tuple_dict::<"@
                + decimal(model@.params.len()) + "usize>(&__ts, &SPEC, __args, __kwargs) }?; "@
                + bindings(model@) + " let __payload: "@ + self_ty@ + " = super::"@ + self_ty@
                + "::"@ + model@.rust_name + "("@ + token(model@) + ", "@ + arg_names(model@)
                + ")?; unsafe { ::cpython_api::class::alloc_with::<"@ + self_ty@
                + ">(&__ts, __subtype, __payload) } })(); ::cpython_api::conversion::callback_output(&__ts, __result)"@,
        ) + " }"@,
{
    lemma_bindings(model@);
}

/// Whether a text ends like this.
pub open spec fn ends_with(text: Seq<char>, tail: Seq<char>) -> bool {
    text.len() >= tail.len() && text.skip(text.len() - tail.len()) == tail
}

/// For a function and for a method alike the call ends with the state, then the
/// variable of each visible parameter, in order, then the closing parenthesis,
/// and the variable of parameter `k` is the one that its statement binds to slot
/// `k`.
pub proof fn law_call_passes_arguments(m: FnModelView, kind: Option<Seq<char>>, k: int)
    requires
        0 <= k < m.params.len(),
    ensures
        ends_with(call_src(m, kind), ", __state, "@ + arg_names(m) + ")"@),
        extraction_src(m.params[k], k as nat) == binding(m.params[k], k),
        ("let "@ + arg_name(k) + " = match ::cpython_api::args::arg_bound(&__slots, "@ + decimal(
            k as nat,
        ) + "usize)"@).is_prefix_of(binding(m.params[k], k)),
{
    reveal_strlit("let ");
    reveal_strlit("__arg");
    reveal_strlit("let __arg");
    reveal_strlit("usize)");
    reveal_strlit("usize) { Some(obj) => ::cpython_api::FromPyObject::extract(&__ts, obj)?, None => ");
    lemma_bindings(m);
    let head = match kind {
        None => "super::"@ + m.rust_name + "("@ + token(m),
        Some(ty) => "super::"@ + ty + "::"@ + m.rust_name + "(__this, "@ + token(m),
    };
    let tail = ", __state, "@ + arg_names(m) + ")"@;
    assert(call_src(m, kind) =~= head + tail);
    assert((head + tail).skip(head.len() as int) =~= tail);
    assert("let __arg"@ =~= "let "@ + "__arg"@);
    let start = "let "@ + arg_name(k) + " = match ::cpython_api::args::arg_bound(&__slots, "@
        + decimal(k as nat) + "usize)"@;
    let long = "usize) { Some(obj) => ::cpython_api::FromPyObject::extract(&__ts, obj)?, None => "@;
    assert("usize)"@ =~= long.take(6));
    let b = binding(m.params[k], k);
    assert(b.take(start.len() as int) =~= start);
}

/// The parameter spec as a value says what the generated one says: the name of
/// the function, each parameter by name and by whether it has to be given, in
/// order, and how many cannot be named.
pub proof fn law_param_spec(model: FnModel, r: Option<ParamSpec>)
    requires
        call_ensures(param_spec, (&model,), r),
    ensures
        r matches Some(s) ==> {
            &&& s@.fn_name == model@.rust_name
            &&& s@.pos_only == model@.pos_only
            &&& s@.params.len() == model@.params.len()
            &&& forall|i: int|
                0 <= i < s@.params.len() ==> {
                    &&& (#[trigger] s@.params[i]).name == encode_utf8(model@.params[i].name)
                    &&& s@.params[i].required <==> model@.params[i].default is None
                }
        },
{
}

/// The pieces that are generated by themselves are those of which the whole
/// consists.
pub proof fn law_pieces(model: FnModel, text: &str, spec: String, parts: (String, String), lit: String)
    ensures
        call_ensures(gen_spec, (&model,), spec) ==> spec@ == spec_text(model@),
        call_ensures(gen_extractions, (&model,), parts) ==> parts.0@ == bindings(model@) && parts.1@
            == arg_names(model@),
        call_ensures(cstr_lit, (text,), lit) ==> lit@ == c_literal(text@),
{
    lemma_bindings(model@);
    lemma_c_literal(text@);
}

/// A token that is declared `&mut` is bound and passed on so that it can be
/// changed, and any other one is not.
pub proof fn law_token_passed(model: FnModel, r: (&'static str, &'static str))
    requires
        call_ensures(FnModel::ts_tokens, (&model,), r),
    ensures
        model.ts_mut ==> r.0@ == "mut __ts"@ && r.1@ == "&mut __ts"@,
        !model.ts_mut ==> r.0@ == "__ts"@ && r.1@ == "&__ts"@,
{
}

} // verus!
