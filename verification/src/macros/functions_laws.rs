//! What the `pyfunction` attribute expands to.

use vstd::prelude::*;
use vstd::string::*;
use crate::macros::codegen::definition_src;
use crate::macros::functions::{
    error_tokens, expand_pyfunction, function_model, inputs_of, pyfunction, signature_of,
};
use crate::macros::items::{fn_arg, fn_item, sig_parts, FnItem};
use crate::macros::model::{analyzed, FnModel, FnShape, Signature};
use crate::macros::signature::{attr_text, MacroError, PyFunctionAttr};
use crate::macros::tokens::{string_literal, text_names_static};

verus! {

proof fn lemma_inputs_of(inputs: Seq<Seq<char>>)
    ensures
        inputs_of(inputs) is Ok <==> forall|i: int|
            0 <= i < inputs.len() ==> fn_arg(#[trigger] inputs[i]) is Ok,
        inputs_of(inputs) matches Ok(args) ==> args.len() == inputs.len() && forall|i: int|
            0 <= i < inputs.len() ==> #[trigger] args[i] == fn_arg(inputs[i])->Ok_0,
    decreases inputs.len(),
{
    if inputs.len() > 0 {
        let head = inputs.drop_last();
        lemma_inputs_of(head);
        assert(forall|i: int| 0 <= i < head.len() ==> head[i] == inputs[i]);
        assert(inputs[inputs.len() - 1] == inputs.last());
        if forall|i: int| 0 <= i < inputs.len() ==> fn_arg(#[trigger] inputs[i]) is Ok {
            assert forall|i: int| 0 <= i < head.len() implies fn_arg(#[trigger] head[i]) is Ok by {
                assert(head[i] == inputs[i]);
            }
        }
        if inputs_of(inputs) is Ok {
            assert forall|i: int| 0 <= i < inputs.len() implies fn_arg(#[trigger] inputs[i]) is Ok by {
                if i < head.len() {
                    assert(fn_arg(head[i]) is Ok);
                }
            }
            let args = inputs_of(inputs)->Ok_0;
            let before = inputs_of(head)->Ok_0;
            assert forall|i: int| 0 <= i < inputs.len() implies #[trigger] args[i] == fn_arg(
                inputs[i],
            )->Ok_0 by {
                if i < head.len() {
                    assert(args[i] == before[i]);
                }
            }
        }
    }
}

/// A signature has the name and the inputs that are written there, in order. It
/// asks for the lifetime `'static` exactly if that stands in an input, in the
/// generic parameters or in the `where` clause.
pub proof fn law_signature_read(text: Seq<char>)
    ensures
        match sig_parts(text) {
            Err(m) => signature_of(text) is Err,
            Ok(parts) => {
                &&& signature_of(text) is Ok <==> forall|i: int|
                    0 <= i < parts.inputs.len() ==> fn_arg(#[trigger] parts.inputs[i]) is Ok
                &&& signature_of(text) matches Ok(sig) ==> {
                    &&& sig.name == parts.name
                    &&& sig.inputs.len() == parts.inputs.len()
                    &&& forall|i: int|
                        0 <= i < parts.inputs.len() ==> #[trigger] sig.inputs[i] == fn_arg(
                            parts.inputs[i],
                        )->Ok_0
                    &&& sig.asks_static <==> text_names_static(parts.generics) || text_names_static(
                        parts.bounds,
                    ) || exists|i: int|
                        0 <= i < parts.inputs.len() && text_names_static(#[trigger] parts.inputs[i])
                }
            },
        },
{
    if let Ok(parts) = sig_parts(text) {
        lemma_inputs_of(parts.inputs);
    }
}

/// A message is reported by a call of the macro that makes the compiler stop,
/// with the message as its literal.
pub proof fn law_error_tokens(message: &str, r: String)
    requires
        call_ensures(error_tokens, (message,), r),
    ensures
        r@ == ":: core :: compile_error ! { "@ + string_literal(message@) + " }"@,
{
}

/// A free function is expanded exactly if it can be called from Python and has
/// no receiver. It stays as it was written, and a module of its name and
/// visibility holds its definition.
pub proof fn law_function_expanded(
    attr: PyFunctionAttr,
    func: FnItem,
    sig: Signature,
    r: Result<String, MacroError>,
)
    requires
        call_ensures(expand_pyfunction, (&attr, &func, &sig), r),
    ensures
        ({
            let model = analyzed(sig@, attr@, FnShape::Regular);
            &&& r is Ok <==> model is Ok && !model->Ok_0.has_receiver
            &&& r matches Ok(s) ==> s@ == func@.tokens
                + " #[doc(hidden)] #[allow(non_upper_case_globals)] "@ + func@.vis + " mod "@
                + sig@.name + " { use super::*; "@ + definition_src(model->Ok_0, None) + " }"@
            &&& model matches Err(m) ==> (r matches Err(e) && e@ == m)
        }),
{
}

/// The attribute expands what is written as the function that it is. Whatever is
/// wrong with the arguments, the function or its signature becomes the error.
pub proof fn law_pyfunction(
    attr: &str,
    item: &str,
    r: String,
    a: PyFunctionAttr,
    func: FnItem,
    sig: Signature,
    x: Result<String, MacroError>,
)
    requires
        call_ensures(pyfunction, (attr, item), r),
    ensures
        attr_text(attr@) is Err || fn_item(item@) is Err ==> exists|m: Seq<char>|
            r@ == #[trigger] (":: core :: compile_error ! { "@ + string_literal(m) + " }"@),
        attr_text(attr@) matches Ok(given) && (fn_item(item@) matches Ok(f) && (signature_of(
            f.sig,
        ) matches Ok(s) && (given == a@ && f == func@ && s == sig@ && call_ensures(
            expand_pyfunction,
            (&a, &func, &sig),
            x,
        )))) ==> match x {
            Ok(text) => r@ == text@,
            Err(e) => r@ == ":: core :: compile_error ! { "@ + string_literal(e@) + " }"@,
        },
{
    if let Err(m) = attr_text(attr@) {
        assert(r@ == ":: core :: compile_error ! { "@ + string_literal(m) + " }"@);
    } else if let Err(m) = fn_item(item@) {
        assert(r@ == ":: core :: compile_error ! { "@ + string_literal(m) + " }"@);
    }
}

/// Reading a function without expanding it gives what the expansion is made of.
pub proof fn law_function_model(attr: &str, item: &str, r: Result<FnModel, MacroError>)
    requires
        call_ensures(function_model, (attr, item), r),
    ensures
        attr_text(attr@) is Ok && fn_item(item@) is Ok && signature_of(fn_item(item@)->Ok_0.sig)
            is Ok ==> match analyzed(
            signature_of(fn_item(item@)->Ok_0.sig)->Ok_0,
            attr_text(attr@)->Ok_0,
            FnShape::Regular,
        ) {
            Ok(m) => r matches Ok(v) && v@ == m,
            Err(m) => r matches Err(e) && e@ == m,
        },
        attr_text(attr@) is Err || fn_item(item@) is Err ==> r is Err,
{
}

} // verus!
