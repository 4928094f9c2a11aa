//! The `pyfunction` attribute.

use vstd::prelude::*;
use vstd::string::*;
use crate::macros::codegen::{definition_src, gen_trampoline_and_def, TrampolineKind};
use crate::macros::items::{
    fn_arg, fn_item, parse_fn_arg, parse_fn_item, parse_sig_parts, sig_parts, FnItem, FnItemView,
    SigPartsView,
};
use crate::macros::model::{
    analyze_fn, analyzed, FnArg, FnArgView, FnModel, FnModelView, FnShape, Signature,
    SignatureView,
};
use crate::macros::signature::{
    attr_text, macro_error, parse_attr, MacroError, PyFunctionAttr, SigEntryView,
};
use crate::macros::tokens::{
    holds_static, string_literal, string_literal_text, text_names_static,
};
use crate::text::texts;

verus! {

pub const FREE_RECEIVER: &'static str = "#[pyfunction] on methods must be used inside #[pymethods]";

pub const COMPILE_ERROR: &'static str = ":: core :: compile_error ! { ";

pub const COMPILE_ERROR_END: &'static str = " }";

pub const FN_MOD: &'static str = " #[doc(hidden)] #[allow(non_upper_case_globals)] ";

pub const MOD: &'static str = " mod ";

pub const MOD_USE: &'static str = " { use super::*; ";

pub const MOD_END: &'static str = " }";

/// The tokens that make the compiler report a message.
pub open spec fn error_src(message: Seq<char>) -> Seq<char> {
    COMPILE_ERROR@ + string_literal(message) + COMPILE_ERROR_END@
}

/// Make the compiler report a message.
pub fn error_tokens(message: &str) -> (r: String)
    ensures
        r@ == error_src(message@),
{
    let mut s = COMPILE_ERROR.to_owned();
    s.append(string_literal_text(message).as_str());
    s.append(COMPILE_ERROR_END);
    s
}

/// The inputs that some texts are, or why the first bad one is none.
pub open spec fn inputs_of(inputs: Seq<Seq<char>>) -> Result<Seq<FnArgView>, Seq<char>>
    decreases inputs.len(),
{
    if inputs.len() == 0 {
        Ok(Seq::empty())
    } else {
        match inputs_of(inputs.drop_last()) {
            Err(m) => Err(m),
            Ok(args) => match fn_arg(inputs.last()) {
                Err(m) => Err(m),
                Ok(a) => Ok(args.push(a)),
            },
        }
    }
}

/// Read the first `n` inputs.
fn parse_inputs(inputs: &[String], n: usize) -> (r: Result<Vec<FnArg>, MacroError>)
    requires
        n <= inputs@.len(),
    ensures
        match inputs_of(texts(inputs@).take(n as int)) {
            Err(e) => r matches Err(m) && m@ == e,
            Ok(args) => r matches Ok(v) && v@.map_values(|a: FnArg| a@) == args,
        },
    decreases n,
{
    if n == 0 {
        let v: Vec<FnArg> = Vec::new();
        assert(v@.map_values(|a: FnArg| a@) =~= Seq::empty());
        return Ok(v);
    }
    proof {
        let all = texts(inputs@).take(n as int);
        assert(all.drop_last() =~= texts(inputs@).take(n - 1));
        assert(all.last() == inputs@[n - 1]@);
    }
    match parse_inputs(inputs, n - 1) {
        Err(e) => Err(e),
        Ok(mut v) => match parse_fn_arg(inputs[n - 1].as_str()) {
            Err(message) => Err(MacroError { message }),
            Ok(a) => {
                let ghost before = v@;
                v.push(a);
                assert(v@.map_values(|a: FnArg| a@) =~= before.map_values(|a: FnArg| a@).push(a@));
                Ok(v)
            },
        },
    }
}

/// Whether one of some inputs holds the lifetime `'static`.
pub open spec fn any_names_static(inputs: Seq<Seq<char>>) -> bool {
    exists|i: int| 0 <= i < inputs.len() && text_names_static(#[trigger] inputs[i])
}

/// Look for the lifetime `'static` in some inputs.
fn inputs_hold_static(inputs: &[String]) -> (r: bool)
    ensures
        r == any_names_static(texts(inputs@)),
{
    let ghost all = texts(inputs@);
    let mut i: usize = 0;
    while i < inputs.len()
        invariant
            i <= inputs@.len(),
            all == texts(inputs@),
            forall|j: int| 0 <= j < i ==> !text_names_static(#[trigger] all[j]),
        decreases inputs@.len() - i,
    {
        assert(all[i as int] == inputs@[i as int]@);
        if holds_static(inputs[i].as_str()) {
            return true;
        }
        i = i + 1;
    }
    false
}

/// Whether a function asks its caller for the lifetime `'static`: in an input, in
/// its generic parameters or in its `where` clause. What it returns may live that
/// long.
pub open spec fn asks_for_static(parts: SigPartsView) -> bool {
    ||| any_names_static(parts.inputs)
    ||| text_names_static(parts.generics)
    ||| text_names_static(parts.bounds)
}

/// The signature that a piece of text is, or why it is none.
pub open spec fn signature_of(text: Seq<char>) -> Result<SignatureView, Seq<char>> {
    match sig_parts(text) {
        Err(m) => Err(m),
        Ok(parts) => match inputs_of(parts.inputs) {
            Err(m) => Err(m),
            Ok(inputs) => Ok(
                SignatureView {
                    name: parts.name,
                    inputs,
                    asks_static: asks_for_static(parts),
                },
            ),
        },
    }
}

/// Read the signature of a function.
pub(crate) fn parse_signature(text: &str) -> (r: Result<Signature, MacroError>)
    ensures
        match signature_of(text@) {
            Err(e) => r matches Err(m) && m@ == e,
            Ok(sig) => r matches Ok(s) && s@ == sig,
        },
{
    let parts = match parse_sig_parts(text) {
        Err(message) => {
            return Err(MacroError { message });
        },
        Ok(p) => p,
    };
    assert(texts(parts.inputs@).take(parts.inputs@.len() as int) =~= texts(parts.inputs@));
    match parse_inputs(parts.inputs.as_slice(), parts.inputs.len()) {
        Err(e) => Err(e),
        Ok(v) => {
            let asks_static: bool = inputs_hold_static(parts.inputs.as_slice()) || holds_static(
                parts.generics.as_str(),
            ) || holds_static(parts.bounds.as_str());
            Ok(Signature { name: parts.name, inputs: v, asks_static })
        },
    }
}

/// What a free function expands to: the function, and a module of its name
/// with its definition.
pub open spec fn function_src(
    attr: Option<Seq<SigEntryView>>,
    func: FnItemView,
    sig: SignatureView,
) -> Result<Seq<char>, Seq<char>> {
    match analyzed(sig, attr, FnShape::Regular) {
        Err(m) => Err(m),
        Ok(model) => if model.has_receiver {
            Err(FREE_RECEIVER@)
        } else {
            Ok(
                func.tokens + FN_MOD@ + func.vis + MOD@ + model.rust_name + MOD_USE@
                    + definition_src(model, None) + MOD_END@,
            )
        },
    }
}

/// Expand an annotated free function.
pub fn expand_pyfunction(attr: &PyFunctionAttr, func: &FnItem, sig: &Signature) -> (r: Result<
    String,
    MacroError,
>)
    ensures
        match function_src(attr@, func@, sig@) {
            Err(e) => r matches Err(m) && m@ == e,
            Ok(t) => r matches Ok(s) && s@ == t,
        },
{
    let model = match analyze_fn(sig, attr, FnShape::Regular) {
        Err(e) => {
            return Err(e);
        },
        Ok(m) => m,
    };
    if model.has_receiver {
        return Err(macro_error(FREE_RECEIVER));
    }
    let generated = gen_trampoline_and_def(&model, TrampolineKind::Function);
    let mut s = func.tokens.clone();
    s.append(FN_MOD);
    s.append(func.vis.as_str());
    s.append(MOD);
    s.append(model.rust_name.as_str());
    s.append(MOD_USE);
    s.append(generated.as_str());
    s.append(MOD_END);
    Ok(s)
}

/// What `#[pyfunction(attr)] item` looks like from Python.
pub open spec fn function_model_of(attr: Seq<char>, item: Seq<char>) -> Result<
    FnModelView,
    Seq<char>,
> {
    match attr_text(attr) {
        Err(m) => Err(m),
        Ok(a) => match fn_item(item) {
            Err(m) => Err(m),
            Ok(func) => match signature_of(func.sig) {
                Err(m) => Err(m),
                Ok(sig) => analyzed(sig, a, FnShape::Regular),
            },
        },
    }
}

/// Read an annotated free function without expanding it.
pub fn function_model(attr: &str, item: &str) -> (r: Result<FnModel, MacroError>)
    ensures
        match function_model_of(attr@, item@) {
            Err(e) => r matches Err(m) && m@ == e,
            Ok(f) => r matches Ok(v) && v@ == f,
        },
{
    let a = match parse_attr(attr) {
        Err(e) => {
            return Err(e);
        },
        Ok(a) => a,
    };
    let func = match parse_fn_item(item) {
        Err(message) => {
            return Err(MacroError { message });
        },
        Ok(f) => f,
    };
    match parse_signature(func.sig.as_str()) {
        Err(e) => Err(e),
        Ok(sig) => analyze_fn(&sig, &a, FnShape::Regular),
    }
}

/// What `#[pyfunction(attr)] item` expands to. Where it cannot be expanded, it
/// becomes a compile error.
pub open spec fn pyfunction_src(attr: Seq<char>, item: Seq<char>) -> Seq<char> {
    match attr_text(attr) {
        Err(m) => error_src(m),
        Ok(a) => match fn_item(item) {
            Err(m) => error_src(m),
            Ok(func) => match signature_of(func.sig) {
                Err(m) => error_src(m),
                Ok(sig) => match function_src(a, func, sig) {
                    Err(m) => error_src(m),
                    Ok(text) => text,
                },
            },
        },
    }
}

/// Expand the `pyfunction` attribute on a free function.
pub fn pyfunction(attr: &str, item: &str) -> (r: String)
    ensures
        r@ == pyfunction_src(attr@, item@),
{
    let a = match parse_attr(attr) {
        Err(e) => {
            return error_tokens(e.message.as_str());
        },
        Ok(a) => a,
    };
    let func = match parse_fn_item(item) {
        Err(m) => {
            return error_tokens(m.as_str());
        },
        Ok(f) => f,
    };
    let sig = match parse_signature(func.sig.as_str()) {
        Err(e) => {
            return error_tokens(e.message.as_str());
        },
        Ok(s) => s,
    };
    match expand_pyfunction(&a, &func, &sig) {
        Err(e) => error_tokens(e.message.as_str()),
        Ok(s) => s,
    }
}

} // verus!
