//! Which functions can be called from Python, and what they look like there.

use vstd::prelude::*;
use crate::macros::model::{
    analyze_fn, before_marker, first_error, input_error, markers, param_names, param_views,
    reconcile, reconciled, shared_ref_target, sig_params, typed_error, typed_of, visible_names,
    ArgType, ArgTypeView, FnArgView, FnModel, FnShape, PyParam, Signature, SignatureView,
};
use crate::macros::signature::{MacroError, PyFunctionAttr, SigEntryView};
use crate::text::texts;

verus! {

/// The inputs of a function but for the receiver, in order.
pub open spec fn typed_inputs(inputs: Seq<FnArgView>) -> Seq<FnArgView> {
    inputs.filter(|a: FnArgView| a is Typed)
}

/// The parameters of a signature, in order.
pub open spec fn listed_params(entries: Seq<SigEntryView>) -> Seq<SigEntryView> {
    entries.filter(|e: SigEntryView| e is Param)
}

/// How many typed inputs Python does not see: the token, and the module state of
/// a regular function.
pub open spec fn hidden(shape: FnShape) -> int {
    match shape {
        FnShape::Regular => 2,
        FnShape::Getter => 1,
        FnShape::New => 1,
    }
}

/// Whether a function has a shape that can be called from Python.
pub open spec fn callable(sig: SignatureView, shape: FnShape) -> bool {
    let typed = typed_inputs(sig.inputs);
    &&& forall|i: int|
        0 <= i < sig.inputs.len() ==> (#[trigger] sig.inputs[i] matches FnArgView::Receiver {
            reference,
            mutable,
        } ==> reference && !mutable)
    &&& typed.len() >= hidden(shape)
    &&& shape is Getter ==> typed.len() == 1
    &&& typed[0]->Typed_0.ty is Reference
    &&& shape is Regular ==> typed[1]->Typed_0.ty is Reference && !typed[1]->Typed_0.ty->mutable
    &&& forall|i: int|
        hidden(shape) <= i < typed.len() ==> (#[trigger] typed[i])->Typed_0.name is Some
}

/// Whether a signature is one of the function: at most one slash, and the same
/// parameters in the same order.
pub open spec fn fits(sig: SignatureView, shape: FnShape, entries: Seq<SigEntryView>) -> bool {
    let typed = typed_inputs(sig.inputs);
    let params = listed_params(entries);
    &&& forall|i: int, j: int|
        0 <= i < j < entries.len() ==> !(#[trigger] entries[i] is PosOnlyMarker
            && #[trigger] entries[j] is PosOnlyMarker)
    &&& params.len() == typed.len() - hidden(shape)
    &&& forall|i: int|
        0 <= i < params.len() ==> Some((#[trigger] params[i])->name) == typed[hidden(shape)
            + i]->Typed_0.name
}

proof fn lemma_typed(inputs: Seq<FnArgView>)
    ensures
        typed_of(inputs).len() == typed_inputs(inputs).len(),
        forall|i: int|
            0 <= i < typed_of(inputs).len() ==> typed_inputs(inputs)[i] == FnArgView::Typed(
                #[trigger] typed_of(inputs)[i],
            ),
    decreases inputs.len(),
{
    reveal(Seq::filter);
    if inputs.len() > 0 {
        lemma_typed(inputs.drop_last());
    }
}

proof fn lemma_listed(entries: Seq<SigEntryView>)
    ensures
        sig_params(entries).len() == listed_params(entries).len(),
        forall|i: int|
            0 <= i < sig_params(entries).len() ==> {
                &&& listed_params(entries)[i] is Param
                &&& (#[trigger] sig_params(entries)[i]).name == listed_params(entries)[i]->name
                &&& sig_params(entries)[i].default == listed_params(entries)[i]->default
            },
    decreases entries.len(),
{
    reveal(Seq::filter);
    if entries.len() > 0 {
        lemma_listed(entries.drop_last());
    }
}

proof fn lemma_markers(entries: Seq<SigEntryView>, i: int)
    ensures
        markers(entries) == 0 <==> forall|k: int|
            0 <= k < entries.len() ==> !(#[trigger] entries[k] is PosOnlyMarker),
        markers(entries) <= 1 <==> forall|k: int, j: int|
            0 <= k < j < entries.len() ==> !(#[trigger] entries[k] is PosOnlyMarker
                && #[trigger] entries[j] is PosOnlyMarker),
        markers(entries) == 0 ==> sig_params(entries).len() == entries.len(),
        markers(entries) == 0 ==> before_marker(entries) == 0,
        markers(entries) == 1 && 0 <= i < entries.len() && entries[i] is PosOnlyMarker
            ==> before_marker(entries) == i,
    decreases entries.len(),
{
    if entries.len() > 0 {
        let head = entries.drop_last();
        let last = entries.len() - 1;
        lemma_markers(head, i);
        assert(forall|k: int| 0 <= k < last ==> head[k] == entries[k]);
        assert forall|k: int| 0 <= k < head.len() implies (#[trigger] head[k] is PosOnlyMarker
            <==> entries[k] is PosOnlyMarker) by {}
        if entries[last] is PosOnlyMarker {
            if markers(head) > 0 {
                let k = choose|k: int| 0 <= k < head.len() && #[trigger] head[k] is PosOnlyMarker;
                assert(entries[k] is PosOnlyMarker);
            } else {
                assert forall|k: int, j: int| 0 <= k < j < entries.len() implies !(
                #[trigger] entries[k] is PosOnlyMarker && #[trigger] entries[j] is PosOnlyMarker) by {
                    assert(head[k] == entries[k]);
                }
            }
        } else {
            if markers(head) <= 1 {
                assert forall|k: int, j: int| 0 <= k < j < entries.len() implies !(
                #[trigger] entries[k] is PosOnlyMarker && #[trigger] entries[j] is PosOnlyMarker) by {
                    if j < last {
                        assert(head[k] == entries[k] && head[j] == entries[j]);
                    }
                }
            } else {
                let (k, j) = choose|k: int, j: int|
                    0 <= k < j < head.len() && #[trigger] head[k] is PosOnlyMarker
                        && #[trigger] head[j] is PosOnlyMarker;
                assert(entries[k] is PosOnlyMarker && entries[j] is PosOnlyMarker);
            }
            if markers(head) > 0 {
                let k = choose|k: int| 0 <= k < head.len() && #[trigger] head[k] is PosOnlyMarker;
                assert(entries[k] is PosOnlyMarker);
            }
        }
        if i < last && 0 <= i {
            assert(head[i] == entries[i]);
        }
    }
}

/// What is wrong with the first `n` inputs is what is wrong with a receiver or
/// with a typed input in its place.
proof fn lemma_inputs(inputs: Seq<FnArgView>, n: int, shape: FnShape)
    requires
        0 <= n <= inputs.len(),
    ensures
        (forall|i: int| 0 <= i < n ==> #[trigger] input_error(inputs, i, shape) is None) <==> {
            &&& forall|i: int|
                0 <= i < n ==> (#[trigger] inputs[i] matches FnArgView::Receiver {
                    reference,
                    mutable,
                } ==> reference && !mutable)
            &&& forall|k: int|
                0 <= k < typed_of(inputs.take(n)).len() ==> typed_error(
                    #[trigger] typed_of(inputs.take(n))[k],
                    k,
                    shape,
                ) is None
        },
    decreases n,
{
    if n > 0 {
        lemma_inputs(inputs, n - 1, shape);
        let prev = inputs.take(n - 1);
        let now = inputs.take(n);
        assert(now.drop_last() =~= prev);
        assert(now.last() == inputs[n - 1]);
        let last = input_error(inputs, n - 1, shape);
        match inputs[n - 1] {
            FnArgView::Receiver { .. } => {
                assert(typed_of(now) == typed_of(prev));
            },
            FnArgView::Typed(t) => {
                assert(typed_of(now) == typed_of(prev).push(t));
                let m = typed_of(prev).len() as int;
                assert(typed_of(now)[m] == t);
                assert(forall|k: int| 0 <= k < m ==> typed_of(now)[k] == typed_of(prev)[k]);
                assert(last == typed_error(t, m, shape));
            },
        }
        let all_now = forall|i: int| 0 <= i < n ==> #[trigger] input_error(inputs, i, shape) is None;
        let all_prev = forall|i: int|
            0 <= i < n - 1 ==> #[trigger] input_error(inputs, i, shape) is None;
        assert(all_now <==> all_prev && last is None) by {
            if all_prev && last is None {
                assert forall|i: int| 0 <= i < n implies #[trigger] input_error(inputs, i, shape)
                    is None by {
                    if i == n - 1 {
                        assert(last is None);
                    }
                }
            }
            if all_now {
                assert(input_error(inputs, n - 1, shape) is None);
            }
        }
        if all_prev && last is None {
            assert forall|k: int| 0 <= k < typed_of(now).len() implies typed_error(
                #[trigger] typed_of(now)[k],
                k,
                shape,
            ) is None by {
                if k < typed_of(prev).len() {
                    assert(typed_of(now)[k] == typed_of(prev)[k]);
                }
            }
        }
        let typed_now = forall|k: int|
            0 <= k < typed_of(now).len() ==> typed_error(#[trigger] typed_of(now)[k], k, shape)
                is None;
        if typed_now {
            assert forall|k: int| 0 <= k < typed_of(prev).len() implies typed_error(
                #[trigger] typed_of(prev)[k],
                k,
                shape,
            ) is None by {
                assert(typed_of(now)[k] == typed_of(prev)[k]);
            }
        }
    }
}

proof fn lemma_first_error(inputs: Seq<FnArgView>, i: int, shape: FnShape)
    requires
        0 <= i <= inputs.len(),
    ensures
        first_error(inputs, i, shape) is None <==> forall|k: int|
            i <= k < inputs.len() ==> #[trigger] input_error(inputs, k, shape) is None,
    decreases inputs.len() - i,
{
    if i < inputs.len() {
        lemma_first_error(inputs, i + 1, shape);
    }
}

proof fn lemma_shape(sig: SignatureView, shape: FnShape)
    ensures
        callable(sig, shape) <==> {
            let typed = typed_of(sig.inputs);
            &&& first_error(sig.inputs, 0, shape) is None
            &&& typed.len() > 0
            &&& shape is Regular ==> typed.len() != 1
            &&& shape is Getter ==> typed.len() <= 1
        },
{
    let inputs = sig.inputs;
    let typed = typed_of(inputs);
    lemma_typed(inputs);
    lemma_first_error(inputs, 0, shape);
    lemma_inputs(inputs, inputs.len() as int, shape);
    assert(inputs.take(inputs.len() as int) =~= inputs);
    let enough = typed.len() > 0 && (shape is Regular ==> typed.len() != 1);
    if enough {
        assert(typed_inputs(inputs)[0] == FnArgView::Typed(typed[0]));
        if shape is Regular {
            assert(typed_inputs(inputs)[1] == FnArgView::Typed(typed[1]));
        }
        if callable(sig, shape) {
            assert forall|k: int| 0 <= k < typed.len() implies typed_error(
                #[trigger] typed[k],
                k,
                shape,
            ) is None by {
                assert(typed_inputs(inputs)[k] == FnArgView::Typed(typed[k]));
            }
        }
        if first_error(inputs, 0, shape) is None {
            assert(typed_error(typed[0], 0, shape) is None);
            if shape is Regular {
                assert(typed_error(typed[1], 1, shape) is None);
            }
            assert forall|k: int| hidden(shape) <= k < typed.len() implies (
            #[trigger] typed_inputs(inputs)[k])->Typed_0.name is Some by {
                assert(typed_inputs(inputs)[k] == FnArgView::Typed(typed[k]));
                assert(typed_error(typed[k], k, shape) is None);
            }
        }
    }
}

proof fn lemma_fits(sig: SignatureView, shape: FnShape, entries: Seq<SigEntryView>)
    requires
        callable(sig, shape),
    ensures
        fits(sig, shape, entries) <==> reconciled(
            Some(entries),
            visible_names(typed_of(sig.inputs), shape),
        ) is Ok,
{
    let inputs = sig.inputs;
    let typed = typed_of(inputs);
    let names = visible_names(typed, shape);
    let params = sig_params(entries);
    lemma_typed(inputs);
    lemma_listed(entries);
    lemma_markers(entries, 0);
    assert forall|i: int| 0 <= i < names.len() implies Some(#[trigger] names[i])
        == typed_inputs(inputs)[hidden(shape) + i]->Typed_0.name by {
        assert(typed_inputs(inputs)[hidden(shape) + i] == FnArgView::Typed(
            typed[hidden(shape) + i],
        ));
        assert(typed_inputs(inputs)[hidden(shape) + i]->Typed_0.name is Some);
    }
    if fits(sig, shape, entries) {
        assert(param_names(params) =~= names) by {
            assert forall|i: int| 0 <= i < names.len() implies param_names(params)[i] == names[i] by {
                assert(params[i].name == listed_params(entries)[i]->name);
            }
        }
    }
    if param_names(params) == names {
        assert forall|i: int| 0 <= i < listed_params(entries).len() implies Some(
            (#[trigger] listed_params(entries)[i])->name,
        ) == typed_inputs(inputs)[hidden(shape) + i]->Typed_0.name by {
            assert(params[i].name == listed_params(entries)[i]->name);
            assert(param_names(params)[i] == names[i]);
        }
        assert(param_names(params).len() == params.len());
    }
}

/// A function can be called from Python exactly if it has the right shape, does
/// not ask for the lifetime `'static`, and a signature, where there is one, is
/// that of its visible parameters. It keeps its name. The token comes first and
/// is passed as it is declared, the state of a regular function second, and what
/// follows is visible, in order. The signature gives the defaults, and the
/// parameters before its slash cannot be named.
pub proof fn law_analyzed(
    sig: Signature,
    attr: PyFunctionAttr,
    shape: FnShape,
    r: Result<FnModel, MacroError>,
)
    requires
        call_ensures(analyze_fn, (&sig, &attr, shape), r),
    ensures
        r is Ok <==> callable(sig@, shape) && !sig@.asks_static && (attr@ matches Some(entries)
            ==> fits(sig@, shape, entries)),
        r matches Ok(m) ==> {
            let typed = typed_inputs(sig@.inputs);
            let params = m@.params;
            &&& m@.rust_name == sig@.name
            &&& m@.has_receiver <==> exists|i: int|
                0 <= i < sig@.inputs.len() && #[trigger] sig@.inputs[i] is Receiver
            &&& m@.ts_mut == typed[0]->Typed_0.ty->mutable
            &&& shape is Regular ==> m@.state_ty == Some(typed[1]->Typed_0.ty->target)
            &&& !(shape is Regular) ==> m@.state_ty is None
            &&& params.len() == typed.len() - hidden(shape)
            &&& forall|i: int|
                0 <= i < params.len() ==> Some((#[trigger] params[i]).name) == typed[hidden(shape)
                    + i]->Typed_0.name
            &&& attr@ is None ==> m@.pos_only == 0 && forall|i: int|
                0 <= i < params.len() ==> (#[trigger] params[i]).default is None
            &&& attr@ matches Some(entries) ==> {
                &&& forall|i: int|
                    0 <= i < params.len() ==> (#[trigger] params[i]).default
                        == listed_params(entries)[i]->default
                &&& forall|i: int|
                    0 <= i < entries.len() && #[trigger] entries[i] is PosOnlyMarker ==> m@.pos_only
                        == i
                &&& (forall|i: int|
                    0 <= i < entries.len() ==> !(#[trigger] entries[i] is PosOnlyMarker))
                    ==> m@.pos_only == 0
            }
        },
{
    let typed = typed_of(sig@.inputs);
    let names = visible_names(typed, shape);
    lemma_shape(sig@, shape);
    lemma_typed(sig@.inputs);
    if callable(sig@, shape) {
        if let Some(entries) = attr@ {
            lemma_fits(sig@, shape, entries);
            lemma_listed(entries);
            lemma_markers(entries, 0);
            assert forall|i: int|
                0 <= i < entries.len() && #[trigger] entries[i] is PosOnlyMarker && markers(entries)
                    <= 1 implies before_marker(entries) == i by {
                lemma_markers(entries, i);
            }
        }
        if let Ok(m) = r {
            let params = m@.params;
            assert(typed_inputs(sig@.inputs)[0] == FnArgView::Typed(typed[0]));
            if shape is Regular {
                assert(typed_inputs(sig@.inputs)[1] == FnArgView::Typed(typed[1]));
            }
            assert(param_names(params) =~= names);
            assert forall|i: int| 0 <= i < params.len() implies Some((#[trigger] params[i]).name)
                == typed_inputs(sig@.inputs)[hidden(shape) + i]->Typed_0.name by {
                assert(param_names(params)[i] == names[i]);
                assert(typed_inputs(sig@.inputs)[hidden(shape) + i] == FnArgView::Typed(
                    typed[hidden(shape) + i],
                ));
                assert(typed_inputs(sig@.inputs)[hidden(shape) + i]->Typed_0.name is Some);
            }
        }
    }
}

/// A shared reference, and nothing else, has a type behind it.
pub proof fn law_shared_reference(ty: ArgType, what: &str, r: Result<String, MacroError>)
    requires
        call_ensures(shared_ref_target, (&ty, what), r),
    ensures
        r is Ok <==> ty@ is Reference && !ty@->mutable,
        r matches Ok(t) ==> ty@ == (ArgTypeView::Reference { mutable: false, target: t@ }),
{
}

proof fn lemma_error_found(inputs: Seq<FnArgView>, i: int, shape: FnShape)
    requires
        0 <= i <= inputs.len(),
    ensures
        first_error(inputs, i, shape) matches Some(m) ==> exists|k: int|
            i <= k < inputs.len() && #[trigger] input_error(inputs, k, shape) == Some(m),
    decreases inputs.len() - i,
{
    if i < inputs.len() {
        lemma_error_found(inputs, i + 1, shape);
        if input_error(inputs, i, shape) is Some {
            assert(first_error(inputs, i, shape) == input_error(inputs, i, shape));
        }
    }
}

proof fn lemma_typed_place(inputs: Seq<FnArgView>, i: int, n: int)
    requires
        0 <= i < n <= inputs.len(),
        inputs[i] is Typed,
    ensures
        typed_of(inputs.take(i)).len() < typed_of(inputs.take(n)).len(),
        typed_of(inputs.take(n))[typed_of(inputs.take(i)).len() as int] == inputs[i]->Typed_0,
    decreases n,
{
    let now = inputs.take(n);
    assert(now.drop_last() =~= inputs.take(n - 1));
    assert(now.last() == inputs[n - 1]);
    if i < n - 1 {
        lemma_typed_place(inputs, i, n - 1);
    }
}

/// A function that cannot be called from Python is refused for what is wrong
/// with it.
pub proof fn law_refused(
    sig: Signature,
    attr: PyFunctionAttr,
    shape: FnShape,
    r: Result<FnModel, MacroError>,
)
    requires
        call_ensures(analyze_fn, (&sig, &attr, shape), r),
    ensures
        r matches Err(e) ==> {
            let typed = typed_inputs(sig@.inputs);
            ||| e@ == "methods must take `&self`; use interior mutability (e.g. Mutex) for state"@
                && exists|i: int|
                0 <= i < sig@.inputs.len() && (#[trigger] sig@.inputs[i] matches FnArgView::Receiver {
                    reference,
                    mutable,
                } && (mutable || !reference))
            ||| e@
                == "the first parameter must be the thread-state token (`ts: &ThreadState` or `ts: &mut ThreadState`)"@
                && typed.len() > 0 && typed[0]->Typed_0.ty is Other
            ||| e@ == "this parameter must be "@
                + "the module state (`state: &YourModuleState`)"@ && shape is Regular && typed.len()
                > 1 && typed[1]->Typed_0.ty is Other
            ||| e@ == "this parameter must be a shared reference: "@
                + "the module state (`state: &YourModuleState`)"@ && shape is Regular && typed.len()
                > 1 && typed[1]->Typed_0.ty is Reference && typed[1]->Typed_0.ty->mutable
            ||| e@ == "parameter patterns are not supported; use a plain name"@ && exists|i: int|
                hidden(shape) <= i < typed.len() && (#[trigger] typed[i])->Typed_0.name is None
            ||| e@ == "a `ts: &ThreadState` parameter is required (first after `&self`)"@
                && typed.len() == 0
            ||| e@
                == "a module-state parameter is required after `ts` (`state: &YourModuleState`; name it `_state` if unused)"@
                && shape is Regular && typed.len() == 1
            ||| e@ == "#[getter] methods must be `fn name(&self, ts: &ThreadState) -> T`"@
                && shape is Getter && typed.len() > 1
            ||| e@ == "duplicate `/` in signature"@ && (attr@ matches Some(entries) && exists|
                i: int,
                j: int,
            |
                0 <= i < j < entries.len() && #[trigger] entries[i] is PosOnlyMarker
                    && #[trigger] entries[j] is PosOnlyMarker)
            ||| "signature parameters ("@.is_prefix_of(e@) && (attr@ matches Some(entries) && !fits(
                sig@,
                shape,
                entries,
            ))
            ||| e@
                == "functions must not ask for the specific lifetime `'static`; leave the lifetime out or use `'_`"@
                && sig@.asks_static
        },
{
    let inputs = sig@.inputs;
    let typed = typed_of(inputs);
    lemma_typed(inputs);
    lemma_shape(sig@, shape);
    lemma_error_found(inputs, 0, shape);
    if let Some(m) = first_error(inputs, 0, shape) {
        let i = choose|k: int|
            0 <= k < inputs.len() && #[trigger] input_error(inputs, k, shape) == Some(m);
        if inputs[i] is Typed {
            assert(inputs.take(inputs.len() as int) =~= inputs);
            lemma_typed_place(inputs, i, inputs.len() as int);
            let k = typed_of(inputs.take(i)).len() as int;
            assert(typed_inputs(inputs)[k] == FnArgView::Typed(typed[k]));
            assert(typed_error(typed[k], k, shape) == Some(m));
        }
    } else if typed.len() > 0 && !(shape is Regular && typed.len() == 1) && !(shape is Getter
        && typed.len() > 1) {
        if let Some(entries) = attr@ {
            lemma_fits(sig@, shape, entries);
            lemma_markers(entries, 0);
        }
    }
}

/// The parameters of a signature are those of the function exactly if there is
/// at most one slash and the names are the same, in order. They keep their
/// defaults, and those before the slash cannot be named. Without a signature the
/// names are all there is.
pub proof fn law_reconciled(
    attr: PyFunctionAttr,
    names: &[String],
    r: Result<(Vec<PyParam>, usize), MacroError>,
)
    requires
        call_ensures(reconcile, (&attr, names), r),
    ensures
        attr@ is None ==> (r matches Ok((params, n)) && n == 0 && params@.len() == names@.len()
            && forall|i: int|
            0 <= i < names@.len() ==> (#[trigger] params@[i])@.name == names@[i]@
                && params@[i]@.default is None),
        attr@ matches Some(entries) ==> {
            let listed = listed_params(entries);
            &&& r is Ok <==> {
                &&& forall|i: int, j: int|
                    0 <= i < j < entries.len() ==> !(#[trigger] entries[i] is PosOnlyMarker
                        && #[trigger] entries[j] is PosOnlyMarker)
                &&& listed.len() == names@.len()
                &&& forall|i: int|
                    0 <= i < listed.len() ==> (#[trigger] listed[i])->name == names@[i]@
            }
            &&& r matches Ok((params, n)) ==> {
                &&& params@.len() == listed.len()
                &&& forall|i: int|
                    0 <= i < listed.len() ==> (#[trigger] params@[i])@.name == listed[i]->name
                        && params@[i]@.default == listed[i]->default
                &&& forall|i: int|
                    0 <= i < entries.len() && #[trigger] entries[i] is PosOnlyMarker ==> n == i
            }
        },
{
    let asked = texts(names@);
    assert(forall|i: int| 0 <= i < names@.len() ==> asked[i] == names@[i]@);
    if let Ok((params, n)) = r {
        let shown = param_views(params@);
        assert(shown.len() == params@.len());
        assert(forall|i: int| 0 <= i < params@.len() ==> shown[i] == #[trigger] params@[i]@);
    }
    if let Some(entries) = attr@ {
        lemma_listed(entries);
        lemma_markers(entries, 0);
        let params = sig_params(entries);
        let listed = listed_params(entries);
        assert forall|i: int|
            0 <= i < entries.len() && #[trigger] entries[i] is PosOnlyMarker && markers(entries)
                <= 1 implies before_marker(entries) == i by {
            lemma_markers(entries, i);
        }
        if param_names(params) == asked {
            assert(param_names(params).len() == params.len());
            assert forall|i: int| 0 <= i < listed.len() implies (#[trigger] listed[i])->name
                == names@[i]@ by {
                assert(params[i].name == listed[i]->name);
                assert(param_names(params)[i] == asked[i]);
            }
        }
        if listed.len() == names@.len() && (forall|i: int|
            0 <= i < listed.len() ==> (#[trigger] listed[i])->name == names@[i]@) {
            assert(param_names(params) =~= asked) by {
                assert forall|i: int| 0 <= i < params.len() implies param_names(params)[i]
                    == asked[i] by {
                    assert(params[i].name == listed[i]->name);
                }
            }
        }
    }
}

} // verus!
