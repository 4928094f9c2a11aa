//! What an annotated function looks like from Python.

use vstd::prelude::*;
use vstd::string::*;
use crate::macros::signature::{
    entry_views, macro_error, opt_text, MacroError, PyFunctionAttr, SigEntry, SigEntryView,
};
use crate::text::{join, join_text, same_text, texts};

verus! {

/// The type of a parameter, as far as its shape matters.
#[derive(Debug)]
pub enum ArgType {
    Reference { mutable: bool, target: String },
    Other,
}

/// One input of a function. `name` is `None` where the pattern is not a plain
/// name.
#[derive(Debug)]
pub enum FnArg {
    Receiver { reference: bool, mutable: bool },
    Typed { name: Option<String>, ty: ArgType },
}

/// The name and the inputs of a function, and whether it asks its caller for the
/// lifetime `'static`.
#[derive(Debug)]
pub struct Signature {
    pub name: String,
    pub inputs: Vec<FnArg>,
    pub asks_static: bool,
}

/// What an [`ArgType`] is.
pub ghost enum ArgTypeView {
    Reference { mutable: bool, target: Seq<char> },
    Other,
}

/// What a typed input is.
pub ghost struct TypedView {
    pub name: Option<Seq<char>>,
    pub ty: ArgTypeView,
}

/// What a [`FnArg`] is.
pub ghost enum FnArgView {
    Receiver { reference: bool, mutable: bool },
    Typed(TypedView),
}

/// What a [`Signature`] is.
pub ghost struct SignatureView {
    pub name: Seq<char>,
    pub inputs: Seq<FnArgView>,
    pub asks_static: bool,
}

impl View for ArgType {
    type V = ArgTypeView;

    open spec fn view(&self) -> ArgTypeView {
        match self {
            ArgType::Reference { mutable, target } => ArgTypeView::Reference {
                mutable: *mutable,
                target: target@,
            },
            ArgType::Other => ArgTypeView::Other,
        }
    }
}

impl View for FnArg {
    type V = FnArgView;

    open spec fn view(&self) -> FnArgView {
        match self {
            FnArg::Receiver { reference, mutable } => FnArgView::Receiver {
                reference: *reference,
                mutable: *mutable,
            },
            FnArg::Typed { name, ty } => FnArgView::Typed(
                TypedView { name: opt_text(*name), ty: ty@ },
            ),
        }
    }
}

impl View for Signature {
    type V = SignatureView;

    open spec fn view(&self) -> SignatureView {
        SignatureView {
            name: self.name@,
            inputs: self.inputs@.map_values(|a: FnArg| a@),
            asks_static: self.asks_static,
        }
    }
}

/// Which special leading parameters a function carries.
#[derive(Clone, Copy, Debug, PartialEq, Eq, Structural)]
pub enum FnShape {
    /// `([&self,] ts, state, python-args...)`
    Regular,
    /// `(&self, ts)`
    Getter,
    /// `(ts, python-args...)`
    New,
}

/// A parameter that is visible from Python, with the expression that gives
/// its default.
#[derive(Debug)]
pub struct PyParam {
    pub name: String,
    pub default: Option<String>,
}

/// A function that can be called from Python.
#[derive(Debug)]
pub struct FnModel {
    pub rust_name: String,
    pub has_receiver: bool,
    /// The token was declared `&mut`, which detaching needs.
    pub ts_mut: bool,
    /// The type behind the state reference, for a regular function.
    pub state_ty: Option<String>,
    pub params: Vec<PyParam>,
    pub pos_only: usize,
}

/// What a [`PyParam`] is.
pub ghost struct PyParamView {
    pub name: Seq<char>,
    pub default: Option<Seq<char>>,
}

/// What a [`FnModel`] is.
pub ghost struct FnModelView {
    pub rust_name: Seq<char>,
    pub has_receiver: bool,
    pub ts_mut: bool,
    pub state_ty: Option<Seq<char>>,
    pub params: Seq<PyParamView>,
    pub pos_only: nat,
}

impl View for PyParam {
    type V = PyParamView;

    open spec fn view(&self) -> PyParamView {
        PyParamView { name: self.name@, default: opt_text(self.default) }
    }
}

/// What each parameter of a list is.
pub open spec fn param_views(params: Seq<PyParam>) -> Seq<PyParamView> {
    params.map_values(|p: PyParam| p@)
}

impl View for FnModel {
    type V = FnModelView;

    open spec fn view(&self) -> FnModelView {
        FnModelView {
            rust_name: self.rust_name@,
            has_receiver: self.has_receiver,
            ts_mut: self.ts_mut,
            state_ty: opt_text(self.state_ty),
            params: param_views(self.params@),
            pos_only: self.pos_only as nat,
        }
    }
}

pub const BAD_RECEIVER: &'static str =
    "methods must take `&self`; use interior mutability (e.g. Mutex) for state";

pub const BAD_TS: &'static str =
    "the first parameter must be the thread-state token (`ts: &ThreadState` or `ts: &mut ThreadState`)";

pub const STATE_WHAT: &'static str = "the module state (`state: &YourModuleState`)";

pub const MUST_BE: &'static str = "this parameter must be ";

pub const MUST_BE_SHARED: &'static str = "this parameter must be a shared reference: ";

pub const BAD_PATTERN: &'static str = "parameter patterns are not supported; use a plain name";

pub const NO_TS: &'static str =
    "a `ts: &ThreadState` parameter is required (first after `&self`)";

pub const NO_STATE: &'static str =
    "a module-state parameter is required after `ts` (`state: &YourModuleState`; name it `_state` if unused)";

pub const GETTER_ARGS: &'static str =
    "#[getter] methods must be `fn name(&self, ts: &ThreadState) -> T`";

pub const ASKS_STATIC: &'static str =
    "functions must not ask for the specific lifetime `'static`; leave the lifetime out or use `'_`";

pub const DUPLICATE_MARKER: &'static str = "duplicate `/` in signature";

pub const MISMATCH_SIG: &'static str = "signature parameters (";

pub const MISMATCH_FN: &'static str = ") do not match function parameters (";

pub const MISMATCH_END: &'static str = ")";

/// How many typed parameters of a shape are not visible from Python.
pub open spec fn specials(shape: FnShape) -> int {
    if shape is Regular {
        2
    } else {
        1
    }
}

/// The typed inputs, in order.
pub open spec fn typed_of(inputs: Seq<FnArgView>) -> Seq<TypedView>
    decreases inputs.len(),
{
    if inputs.len() == 0 {
        Seq::empty()
    } else {
        match inputs.last() {
            FnArgView::Receiver { .. } => typed_of(inputs.drop_last()),
            FnArgView::Typed(t) => typed_of(inputs.drop_last()).push(t),
        }
    }
}

/// The type behind a shared reference, or why `ty` is none.
pub open spec fn shared_target(ty: ArgTypeView, what: Seq<char>) -> Result<Seq<char>, Seq<char>> {
    match ty {
        ArgTypeView::Other => Err(MUST_BE@ + what),
        ArgTypeView::Reference { mutable, target } => if mutable {
            Err(MUST_BE_SHARED@ + what)
        } else {
            Ok(target)
        },
    }
}

/// What is wrong with typed parameter `k`: the first one has to be a
/// reference, the state a shared one, and the others plain names.
pub open spec fn typed_error(t: TypedView, k: int, shape: FnShape) -> Option<Seq<char>> {
    if k == 0 {
        if t.ty is Other {
            Some(BAD_TS@)
        } else {
            None
        }
    } else if k < specials(shape) {
        match shared_target(t.ty, STATE_WHAT@) {
            Err(m) => Some(m),
            Ok(_) => None,
        }
    } else if t.name is None {
        Some(BAD_PATTERN@)
    } else {
        None
    }
}

/// What is wrong with input `i`.
pub open spec fn input_error(inputs: Seq<FnArgView>, i: int, shape: FnShape) -> Option<Seq<char>> {
    match inputs[i] {
        FnArgView::Receiver { reference, mutable } => if mutable || !reference {
            Some(BAD_RECEIVER@)
        } else {
            None
        },
        FnArgView::Typed(t) => typed_error(t, typed_of(inputs.take(i)).len() as int, shape),
    }
}

/// What is wrong with the first bad input at or after `i`.
pub open spec fn first_error(inputs: Seq<FnArgView>, i: int, shape: FnShape) -> Option<Seq<char>>
    decreases inputs.len() - i,
{
    if i < 0 || i >= inputs.len() {
        None
    } else if input_error(inputs, i, shape) is Some {
        input_error(inputs, i, shape)
    } else {
        first_error(inputs, i + 1, shape)
    }
}

/// The names of the typed inputs that are visible from Python.
pub open spec fn visible_names(typed: Seq<TypedView>, shape: FnShape) -> Seq<Seq<char>> {
    if typed.len() < specials(shape) {
        Seq::empty()
    } else {
        typed.skip(specials(shape)).map_values(|t: TypedView| t.name->0)
    }
}

/// The parameters among the entries of a signature, in order.
pub open spec fn sig_params(entries: Seq<SigEntryView>) -> Seq<PyParamView>
    decreases entries.len(),
{
    if entries.len() == 0 {
        Seq::empty()
    } else {
        match entries.last() {
            SigEntryView::PosOnlyMarker => sig_params(entries.drop_last()),
            SigEntryView::Param { name, default } => sig_params(entries.drop_last()).push(
                PyParamView { name, default },
            ),
        }
    }
}

/// How many markers a signature holds.
pub open spec fn markers(entries: Seq<SigEntryView>) -> nat
    decreases entries.len(),
{
    if entries.len() == 0 {
        0
    } else {
        markers(entries.drop_last()) + if entries.last() is PosOnlyMarker {
            1nat
        } else {
            0
        }
    }
}

/// How many parameters come before the first marker, zero where there is none.
pub open spec fn before_marker(entries: Seq<SigEntryView>) -> nat
    decreases entries.len(),
{
    if entries.len() == 0 {
        0
    } else if markers(entries.drop_last()) > 0 {
        before_marker(entries.drop_last())
    } else if entries.last() is PosOnlyMarker {
        sig_params(entries.drop_last()).len()
    } else {
        0
    }
}

/// The names of some parameters.
pub open spec fn param_names(params: Seq<PyParamView>) -> Seq<Seq<char>> {
    params.map_values(|p: PyParamView| p.name)
}

/// The parameters of a function with the visible `names`, and how many of them
/// are positional-only. Without a signature all are required and can be named.
pub open spec fn reconciled(
    attr: Option<Seq<SigEntryView>>,
    names: Seq<Seq<char>>,
) -> Result<(Seq<PyParamView>, nat), Seq<char>> {
    match attr {
        None => Ok((names.map_values(|n: Seq<char>| PyParamView { name: n, default: None }), 0)),
        Some(entries) => if markers(entries) > 1 {
            Err(DUPLICATE_MARKER@)
        } else if param_names(sig_params(entries)) != names {
            Err(
                MISMATCH_SIG@ + join(param_names(sig_params(entries)), ", "@) + MISMATCH_FN@
                    + join(names, ", "@) + MISMATCH_END@,
            )
        } else {
            Ok((sig_params(entries), before_marker(entries)))
        },
    }
}

/// What a function with the given signature attribute looks like from Python,
/// or why it cannot be called from there.
pub open spec fn analyzed(
    sig: SignatureView,
    attr: Option<Seq<SigEntryView>>,
    shape: FnShape,
) -> Result<FnModelView, Seq<char>> {
    let typed = typed_of(sig.inputs);
    match first_error(sig.inputs, 0, shape) {
        Some(m) => Err(m),
        None => if typed.len() == 0 {
            Err(NO_TS@)
        } else if shape is Regular && typed.len() == 1 {
            Err(NO_STATE@)
        } else if shape is Getter && typed.len() > 1 {
            Err(GETTER_ARGS@)
        } else {
            match reconciled(attr, visible_names(typed, shape)) {
                Err(m) => Err(m),
                Ok(_) if sig.asks_static => Err(ASKS_STATIC@),
                Ok((params, pos_only)) => Ok(
                    FnModelView {
                        rust_name: sig.name,
                        has_receiver: exists|j: int|
                            0 <= j < sig.inputs.len() && sig.inputs[j] is Receiver,
                        ts_mut: typed[0].ty->mutable,
                        state_ty: if shape is Regular {
                            Some(typed[1].ty->target)
                        } else {
                            None
                        },
                        params,
                        pos_only,
                    },
                ),
            }
        },
    }
}

/// Require a shared reference and return the type behind it.
pub fn shared_ref_target(ty: &ArgType, what: &str) -> (r: Result<String, MacroError>)
    ensures
        match shared_target(ty@, what@) {
            Err(e) => r matches Err(m) && m@ == e,
            Ok(t) => r matches Ok(s) && s@ == t,
        },
{
    match ty {
        ArgType::Other => {
            let mut m = MUST_BE.to_owned();
            m.append(what);
            Err(MacroError { message: m })
        },
        ArgType::Reference { mutable, target } => if *mutable {
            let mut m = MUST_BE_SHARED.to_owned();
            m.append(what);
            Err(MacroError { message: m })
        } else {
            Ok(target.clone())
        },
    }
}

/// Whether two lists hold the same texts.
fn same_texts(a: &[String], b: &[String]) -> (r: bool)
    ensures
        r == (texts(a@) == texts(b@)),
{
    if a.len() != b.len() {
        assert(texts(a@).len() != texts(b@).len());
        return false;
    }
    let mut i: usize = 0;
    while i < a.len()
        invariant
            a@.len() == b@.len(),
            i <= a@.len(),
            forall|j: int| 0 <= j < i ==> a@[j]@ == b@[j]@,
        decreases a@.len() - i,
    {
        if !same_text(a[i].as_str(), b[i].as_str()) {
            assert(texts(a@)[i as int] != texts(b@)[i as int]);
            return false;
        }
        i = i + 1;
    }
    assert(texts(a@) =~= texts(b@));
    true
}

proof fn lemma_markers_grow(entries: Seq<SigEntryView>, k: int)
    requires
        0 <= k <= entries.len(),
    ensures
        markers(entries.take(k)) <= markers(entries),
    decreases entries.len(),
{
    if k == entries.len() {
        assert(entries.take(k) =~= entries);
    } else {
        assert(entries.drop_last().take(k) =~= entries.take(k));
        lemma_markers_grow(entries.drop_last(), k);
    }
}

/// Reconcile the visible parameters of a function with its signature
/// attribute.
pub fn reconcile(attr: &PyFunctionAttr, names: &[String]) -> (r: Result<
    (Vec<PyParam>, usize),
    MacroError,
>)
    ensures
        match reconciled(attr@, texts(names@)) {
            Err(e) => r matches Err(m) && m@ == e,
            Ok((params, pos_only)) => {
                &&& r matches Ok((p, n))
                &&& param_views(p@) == params
                &&& n == pos_only
            },
        },
{
    let mut params: Vec<PyParam> = Vec::new();
    match &attr.entries {
        None => {
            let mut i: usize = 0;
            while i < names.len()
                invariant
                    i <= names@.len(),
                    params@.len() == i,
                    forall|j: int|
                        0 <= j < i ==> #[trigger] params@[j]@ == (PyParamView {
                            name: names@[j]@,
                            default: None,
                        }),
                decreases names@.len() - i,
            {
                params.push(PyParam { name: names[i].clone(), default: None });
                i = i + 1;
            }
            assert(param_views(params@) =~= texts(names@).map_values(
                |n: Seq<char>| PyParamView { name: n, default: None },
            ));
            Ok((params, 0))
        },
        Some(entries) => {
            let ghost all = entry_views(entries@);
            let mut sig_names: Vec<String> = Vec::new();
            let mut pos_only: Option<usize> = None;
            let mut i: usize = 0;
            assert(param_views(params@) =~= sig_params(all.take(0)));
            assert(texts(sig_names@) =~= param_names(sig_params(all.take(0))));
            while i < entries.len()
                invariant
                    i <= entries@.len(),
                    all == entry_views(entries@),
                    attr@ == Some(all),
                    param_views(params@) == sig_params(all.take(i as int)),
                    texts(sig_names@) == param_names(sig_params(all.take(i as int))),
                    markers(all.take(i as int)) == if pos_only is Some {
                        1nat
                    } else {
                        0
                    },
                    before_marker(all.take(i as int)) == match pos_only {
                        Some(p) => p as nat,
                        None => 0,
                    },
                decreases entries@.len() - i,
            {
                proof {
                    let next = all.take(i + 1);
                    assert(next.drop_last() =~= all.take(i as int));
                    assert(next.last() == entries@[i as int]@);
                }
                let ghost before = params@;
                let ghost names_before = sig_names@;
                match &entries[i] {
                    SigEntry::PosOnlyMarker => {
                        if pos_only.is_some() {
                            proof {
                                lemma_markers_grow(all, i + 1);
                            }
                            return Err(macro_error(DUPLICATE_MARKER));
                        }
                        pos_only = Some(params.len());
                    },
                    SigEntry::Param { name, default } => {
                        sig_names.push(name.clone());
                        params.push(
                            PyParam {
                                name: name.clone(),
                                default: match default {
                                    Some(d) => Some(d.clone()),
                                    None => None,
                                },
                            },
                        );
                        assert(param_views(params@) =~= param_views(before).push(params@.last()@));
                        assert(texts(sig_names@) =~= texts(names_before).push(name@));
                        assert(texts(sig_names@) =~= param_names(param_views(params@)));
                    },
                }
                i = i + 1;
            }
            assert(all.take(i as int) =~= all);
            if !same_texts(sig_names.as_slice(), names) {
                let mut m = MISMATCH_SIG.to_owned();
                m.append(join_text(sig_names.as_slice(), ", ").as_str());
                m.append(MISMATCH_FN);
                m.append(join_text(names, ", ").as_str());
                m.append(MISMATCH_END);
                return Err(MacroError { message: m });
            }
            match pos_only {
                Some(n) => Ok((params, n)),
                None => Ok((params, 0)),
            }
        },
    }
}

/// Analyze a function signature and reconcile it with the signature attribute.
pub fn analyze_fn(sig: &Signature, attr: &PyFunctionAttr, shape: FnShape) -> (r: Result<
    FnModel,
    MacroError,
>)
    ensures
        match analyzed(sig@, attr@, shape) {
            Err(e) => r matches Err(m) && m@ == e,
            Ok(f) => r matches Ok(v) && v@ == f,
        },
{
    let ghost inputs = sig@.inputs;
    let mut has_receiver = false;
    let mut saw_ts = false;
    let mut ts_mut = false;
    let mut state_ty: Option<String> = None;
    let mut py_names: Vec<String> = Vec::new();
    let mut i: usize = 0;
    assert(texts(py_names@) =~= visible_names(typed_of(inputs.take(0)), shape));
    while i < sig.inputs.len()
        invariant
            i <= sig.inputs@.len(),
            inputs == sig@.inputs,
            inputs.len() == sig.inputs@.len(),
            first_error(inputs, 0, shape) == first_error(inputs, i as int, shape),
            has_receiver == exists|j: int| 0 <= j < i && inputs[j] is Receiver,
            ({
                let typed = typed_of(inputs.take(i as int));
                &&& saw_ts == (typed.len() > 0)
                &&& saw_ts ==> typed[0].ty is Reference && ts_mut == typed[0].ty->mutable
                &&& opt_text(state_ty) == if shape is Regular && typed.len() > 1 {
                    Some(typed[1].ty->target)
                } else {
                    None
                }
                &&& texts(py_names@) == visible_names(typed, shape)
            }),
        decreases sig.inputs@.len() - i,
    {
        let ghost before = typed_of(inputs.take(i as int));
        let ghost names_before = py_names@;
        proof {
            assert(inputs.take(i + 1).drop_last() =~= inputs.take(i as int));
            assert(inputs.take(i + 1).last() == sig.inputs@[i as int]@);
            assert(inputs[i as int] == sig.inputs@[i as int]@);
        }
        match &sig.inputs[i] {
            FnArg::Receiver { reference, mutable } => {
                if *mutable || !*reference {
                    return Err(macro_error(BAD_RECEIVER));
                }
                has_receiver = true;
            },
            FnArg::Typed { name, ty } => {
                if !saw_ts {
                    match ty {
                        ArgType::Other => {
                            return Err(macro_error(BAD_TS));
                        },
                        ArgType::Reference { mutable, .. } => {
                            ts_mut = *mutable;
                            saw_ts = true;
                        },
                    }
                    assert(texts(py_names@) =~= visible_names(
                        typed_of(inputs.take(i + 1)),
                        shape,
                    ));
                } else if shape == FnShape::Regular && state_ty.is_none() {
                    match shared_ref_target(ty, STATE_WHAT) {
                        Err(e) => {
                            return Err(e);
                        },
                        Ok(target) => {
                            state_ty = Some(target);
                        },
                    }
                    assert(texts(py_names@) =~= visible_names(
                        typed_of(inputs.take(i + 1)),
                        shape,
                    ));
                } else {
                    match name {
                        None => {
                            return Err(macro_error(BAD_PATTERN));
                        },
                        Some(n) => {
                            py_names.push(n.clone());
                            assert(texts(py_names@) =~= texts(names_before).push(n@));
                            assert(texts(py_names@) =~= visible_names(
                                typed_of(inputs.take(i + 1)),
                                shape,
                            ));
                        },
                    }
                }
            },
        }
        i = i + 1;
    }
    assert(inputs.take(i as int) =~= inputs);
    if !saw_ts {
        return Err(macro_error(NO_TS));
    }
    if shape == FnShape::Regular && state_ty.is_none() {
        return Err(macro_error(NO_STATE));
    }
    if shape == FnShape::Getter && py_names.len() > 0 {
        return Err(macro_error(GETTER_ARGS));
    }
    match reconcile(attr, py_names.as_slice()) {
        Err(e) => Err(e),
        Ok((params, pos_only)) => if sig.asks_static {
            Err(macro_error(ASKS_STATIC))
        } else {
            Ok(
                FnModel {
                    rust_name: sig.name.clone(),
                    has_receiver,
                    ts_mut,
                    state_ty,
                    params,
                    pos_only,
                },
            )
        },
    }
}

} // verus!
