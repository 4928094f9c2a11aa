//! What holds of every expansion.

use vstd::prelude::*;
use crate::args::laws::{law_fastcall_required, law_tuple_dict_required};
use crate::args::tuple_dict::{nameable, tuple_dict_outcome, DictLookup};
use crate::args::fastcall_outcome;
use crate::macros::codegen::{
    body_src, cstr_src, definition_src, getter_body_src, getter_src, new_body_src, spec_of, spec_src,
    tp_new_src, CONTAIN, CONTAIN_END, DEF_HEAD, FN_END, FUNCTION_DEF_END, FUNCTION_TRAMPOLINE,
    GETTER_HEAD, METHOD_DEF_END, METHOD_TRAMPOLINE, NEW_HEAD,
};
use crate::macros::functions::function_src;
use crate::macros::items::{impl_method, FnItemView};
use crate::macros::methods::{
    attr_parts, marks_of, names, with_item, with_items, ExpansionView,
};
use crate::macros::model::{
    analyzed, before_marker, markers, param_names, sig_params, typed_of, visible_names, FnModelView,
    FnShape, SignatureView,
};
use crate::macros::signature::SigEntryView;

verus! {

proof fn lemma_before_marker(entries: Seq<SigEntryView>)
    ensures
        before_marker(entries) <= sig_params(entries).len(),
        markers(entries) == 0 ==> before_marker(entries) == 0,
    decreases entries.len(),
{
    if entries.len() > 0 {
        lemma_before_marker(entries.drop_last());
    }
}

/// What can be called from Python has the name of its function and, in order,
/// the names of its visible parameters. Only parameters that exist are
/// positional-only. Exactly the regular functions have a module state, and
/// getters have no parameters. Nothing asks for the lifetime `'static`.
pub proof fn law_model(sig: SignatureView, attr: Option<Seq<SigEntryView>>, shape: FnShape)
    requires
        analyzed(sig, attr, shape) is Ok,
    ensures
        ({
            let m = analyzed(sig, attr, shape)->Ok_0;
            &&& m.rust_name == sig.name
            &&& param_names(m.params) == visible_names(typed_of(sig.inputs), shape)
            &&& m.pos_only <= m.params.len()
            &&& m.state_ty is Some <==> shape is Regular
            &&& shape is Getter ==> m.params.len() == 0
            &&& !sig.asks_static
        }),
{
    let names = visible_names(typed_of(sig.inputs), shape);
    let m = analyzed(sig, attr, shape)->Ok_0;
    if let Some(entries) = attr {
        lemma_before_marker(entries);
    }
    assert(param_names(m.params) =~= names);
    assert(m.params.len() == names.len());
}

/// Without a signature every parameter is required and can be given by name.
pub proof fn law_without_signature(sig: SignatureView, shape: FnShape, i: int)
    requires
        analyzed(sig, None, shape) is Ok,
        0 <= i < analyzed(sig, None, shape)->Ok_0.params.len(),
    ensures
        analyzed(sig, None, shape)->Ok_0.pos_only == 0,
        spec_of(analyzed(sig, None, shape)->Ok_0).params[i].required,
{
}

/// A parameter without a default always has a value once a vectorcall is
/// bound, so the generated extraction never gets to its unreachable branch.
pub proof fn law_extraction_total(
    m: FnModelView,
    args: Seq<usize>,
    nargs: nat,
    names: Seq<Seq<char>>,
    i: int,
)
    requires
        args.len() == nargs + names.len(),
        fastcall_outcome(spec_of(m), args, nargs, names) is Ok,
        0 <= i < m.params.len(),
        m.params[i].default is None,
    ensures
        fastcall_outcome(spec_of(m), args, nargs, names)->Ok_0[i] is Some,
{
    law_fastcall_required(spec_of(m), args, nargs, names, i);
}

/// The same holds in a constructor, which binds a tuple and a dict.
pub proof fn law_new_extraction_total(
    m: FnModelView,
    items: Seq<usize>,
    kwargs: Option<(int, Seq<DictLookup>)>,
    i: int,
)
    requires
        kwargs matches Some((_, lookups)) ==> lookups.len() == nameable(spec_of(m)),
        tuple_dict_outcome(spec_of(m), items, kwargs).0 is Ok,
        0 <= i < m.params.len(),
        m.params[i].default is None,
    ensures
        tuple_dict_outcome(spec_of(m), items, kwargs).0->Ok_0[i] is Some,
{
    law_tuple_dict_required(spec_of(m), items, kwargs, i);
}

/// Expanding an impl block keeps each of its items, and each generated module
/// has exactly one entry: in the method table, in the attribute table, or as
/// the constructor.
pub proof fn law_expansion(type_ident: Seq<char>, self_ty: Seq<char>, items: Seq<Seq<char>>)
    requires
        with_items(type_ident, self_ty, items) is Ok,
    ensures
        ({
            let x = with_items(type_ident, self_ty, items)->Ok_0;
            &&& x.items.len() == items.len()
            &&& x.mods.len() == x.methods.len() + x.getsets.len() + if x.tp_new is Some {
                1int
            } else {
                0
            }
        }),
    decreases items.len(),
{
    if items.len() > 0 {
        law_expansion(type_ident, self_ty, items.drop_last());
    }
}

/// An item of an impl block that has no marker stays as it was written, and
/// nothing is generated for it.
pub proof fn law_unmarked_kept(
    x: ExpansionView,
    type_ident: Seq<char>,
    self_ty: Seq<char>,
    item: Seq<char>,
)
    requires
        match impl_method(item) {
            Err(_) => false,
            Ok(None) => true,
            Ok(Some(f)) => marks_of(f.attrs) matches Ok(marks) && !marks.is_py,
        },
    ensures
        with_item(x, type_ident, self_ty, item) == Ok::<ExpansionView, Seq<char>>(
            ExpansionView { items: x.items.push(item), ..x },
        ),
{
}

/// An expanded function starts with the function itself, as it was written.
pub proof fn law_function_kept(
    attr: Option<Seq<SigEntryView>>,
    func: FnItemView,
    sig: SignatureView,
)
    requires
        function_src(attr, func, sig) is Ok,
    ensures
        func.tokens.is_prefix_of(function_src(attr, func, sig)->Ok_0),
{
}

/// Whether an attribute is one of the markers.
pub open spec fn is_marker_text(text: Seq<char>) -> bool {
    let toks = attr_parts(text).1;
    names(toks, "pyfunction"@) || names(toks, "getter"@) || names(toks, "new"@)
}

/// The attributes that are no markers, in order: those inside the body, or those
/// before the method.
pub open spec fn kept(attrs: Seq<Seq<char>>, inner: bool) -> Seq<Seq<char>> {
    attrs.filter(|text: Seq<char>| !is_marker_text(text) && attr_parts(text).0 == inner)
}

/// Of the attributes of a method exactly the markers are taken away, the others
/// stay in order, and a method is visible from Python exactly if it has a
/// marker.
pub proof fn law_other_attributes_kept(attrs: Seq<Seq<char>>)
    requires
        marks_of(attrs) is Ok,
    ensures
        ({
            let marks = marks_of(attrs)->Ok_0;
            &&& marks.outer == kept(attrs, false)
            &&& marks.inner == kept(attrs, true)
            &&& marks.is_py <==> exists|i: int|
                0 <= i < attrs.len() && is_marker_text(#[trigger] attrs[i])
        }),
    decreases attrs.len(),
{
    reveal(Seq::filter);
    if attrs.len() > 0 {
        let head = attrs.drop_last();
        let last = attrs.last();
        law_other_attributes_kept(head);
        assert((exists|i: int| 0 <= i < attrs.len() && is_marker_text(#[trigger] attrs[i])) <==> (
        exists|i: int| 0 <= i < head.len() && is_marker_text(#[trigger] head[i]))
            || is_marker_text(last)) by {
            if exists|i: int| 0 <= i < head.len() && is_marker_text(#[trigger] head[i]) {
                let i = choose|i: int| 0 <= i < head.len() && is_marker_text(#[trigger] head[i]);
                assert(attrs[i] == head[i]);
            }
            assert(attrs[attrs.len() - 1] == last);
            if exists|i: int| 0 <= i < attrs.len() && is_marker_text(#[trigger] attrs[i]) {
                let i = choose|i: int| 0 <= i < attrs.len() && is_marker_text(#[trigger] attrs[i]);
                if i < head.len() {
                    assert(attrs[i] == head[i]);
                }
            }
        }
    }
}

/// Everything that is generated to be called from C runs inside the helper that
/// stops a panic there: the trampoline of a function or method, a getter, and a
/// constructor.
pub proof fn law_panics_contained(m: FnModelView, kind: Option<Seq<char>>, self_ty: Seq<char>)
    ensures
        definition_src(m, kind) == spec_src(m) + (if kind is None {
            FUNCTION_TRAMPOLINE@
        } else {
            METHOD_TRAMPOLINE@
        }) + (CONTAIN@ + body_src(m, kind) + CONTAIN_END@) + DEF_HEAD@ + cstr_src(m.rust_name) + (
        if kind is None {
            FUNCTION_DEF_END@
        } else {
            METHOD_DEF_END@
        }),
        getter_src(m, self_ty) == GETTER_HEAD@ + (CONTAIN@ + getter_body_src(m, self_ty)
            + CONTAIN_END@) + FN_END@,
        tp_new_src(m, self_ty) == spec_src(m) + NEW_HEAD@ + (CONTAIN@ + new_body_src(m, self_ty)
            + CONTAIN_END@) + FN_END@,
{
}

} // verus!
