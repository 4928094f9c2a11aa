//! The `pymethods` attribute.

use vstd::prelude::*;
use vstd::string::*;
use crate::macros::codegen::{
    cstr_lit, cstr_src, definition_src, gen_getter, gen_tp_new, gen_trampoline_and_def, getter_src,
    tp_new_src, TrampolineKind,
};
use crate::macros::functions::{
    error_src, error_tokens, parse_signature, signature_of, MOD_END, MOD_USE,
};
use crate::macros::items::{
    impl_block, impl_method, parse_impl_block, parse_impl_method, ImplBlock, ImplBlockView, Method,
    MethodView,
};
use crate::macros::model::{
    analyze_fn, analyzed, FnModel, FnModelView, FnShape,
};
use crate::macros::signature::{
    attr_text, macro_error, parse_attr, MacroError, PyFunctionAttr, SigEntryView,
};
use crate::macros::tokens::{
    accepts_ident, is_rust_ident, lex, lexed, string_literal, string_literal_text, tok_views,
    uppercase_text, uppercased, Tok, TokKind, TokView,
};
use crate::text::{decimal, decimal_text, join, join_text, same_text, texts};

verus! {

pub const INHERENT_ONLY: &'static str = "#[pymethods] only supports inherent impl blocks";

pub const BAD_SELF_TYPE: &'static str = "unsupported self type";

pub const METHOD_RECEIVER: &'static str =
    "#[pyfunction] methods must take &self (use #[new] for constructors)";

pub const GETTER_RECEIVER: &'static str = "#[getter] methods must take &self";

pub const NEW_RECEIVER: &'static str = "#[new] must not take a receiver; it returns PyResult<Self>";

pub const DUPLICATE_NEW: &'static str = "duplicate #[new]";

pub const MARKER_ARGS: &'static str = "expected parentheses: #[pyfunction(...)]";

pub const INNER_MARKER_ARGS: &'static str = "expected parentheses: #![pyfunction(...)]";

pub const NOT_AN_IDENT: &'static str = " is not a valid Ident";

pub const METHOD_MOD: &'static str =
    "#[doc(hidden)] #[allow(non_snake_case, non_upper_case_globals)] mod ";

pub const HIDDEN_MOD: &'static str = "#[doc(hidden)] #[allow(non_snake_case)] mod ";

pub const CPY: &'static str = "__cpy_";

pub const UNDERSCORE: &'static str = "_";

pub const DEF_PATH: &'static str = "::DEF";

pub const TP_NEW_PATH: &'static str = "::tp_new";

pub const GETSET_HEAD: &'static str =
    "::cpython_api::ffi::PyGetSetDef { name: ::cpython_api::const_cstr(";

pub const GETSET_GET: &'static str = ").as_ptr(), get: Some(";

pub const GETSET_END: &'static str =
    "::getter), set: None, doc: ::std::ptr::null(), closure: ::std::ptr::null_mut() }";

pub const STATIC: &'static str = " pub(crate) static ";

pub const METHODS_SUFFIX: &'static str = "_METHODS";

pub const METHODS_TYPE: &'static str = ": ::cpython_api::module::MethodDefs<";

pub const METHODS_VALUE: &'static str = "usize> = ::cpython_api::module::MethodDefs([";

pub const METHODS_TERMINATOR: &'static str = "::cpython_api::ffi::PyMethodDef::zeroed()";

pub const GETSETS_SUFFIX: &'static str = "_GETSETS";

pub const GETSETS_TYPE: &'static str = ": ::cpython_api::module::GetSetDefs<";

pub const GETSETS_VALUE: &'static str = "usize> = ::cpython_api::module::GetSetDefs([";

pub const GETSETS_TERMINATOR: &'static str =
    "::cpython_api::ffi::PyGetSetDef { name: ::std::ptr::null(), get: None, set: None, doc: ::std::ptr::null(), closure: ::std::ptr::null_mut() }";

pub const TABLE_END: &'static str = "]);";

pub const TP_NEW_HEAD: &'static str = " pub(crate) const ";

pub const TP_NEW_TYPE: &'static str = "_TP_NEW: ::cpython_api::class::NewFunc = ";

pub const SEMICOLON: &'static str = ";";

pub const RAW: &'static str = "r#";

pub const BODY_OPEN: &'static str = " { ";

pub const BODY_CLOSE: &'static str = " }";

pub const BLOCK_END: &'static str = " } ";

/// What a marked function of an impl block is for.
#[derive(Clone, Copy, Debug, PartialEq, Eq, Structural)]
pub enum MethodKind {
    Regular,
    Getter,
    New,
}

/// What the attributes of a method say, and those that are kept: the ones
/// before the function and the ones inside its body.
#[derive(Debug)]
pub struct Marks {
    pub is_py: bool,
    pub kind: MethodKind,
    pub attr: PyFunctionAttr,
    pub outer: Vec<String>,
    pub inner: Vec<String>,
}

/// What [`Marks`] are.
pub ghost struct MarksView {
    pub is_py: bool,
    pub kind: MethodKind,
    pub attr: Option<Seq<SigEntryView>>,
    pub outer: Seq<Seq<char>>,
    pub inner: Seq<Seq<char>>,
}

impl View for Marks {
    type V = MarksView;

    open spec fn view(&self) -> MarksView {
        MarksView {
            is_py: self.is_py,
            kind: self.kind,
            attr: self.attr@,
            outer: texts(self.outer@),
            inner: texts(self.inner@),
        }
    }
}

/// Whether an attribute stands inside the body, and its tokens.
pub open spec fn attr_parts(text: Seq<char>) -> (bool, Seq<TokView>) {
    match lexed(text) {
        None => (false, Seq::empty()),
        Some(toks) => {
            let inner = toks.len() > 1 && toks[1].is_punct("!"@);
            let at = if inner {
                2int
            } else {
                1
            };
            if at < toks.len() && toks[at].kind is Group {
                match lexed(toks[at].inner) {
                    Some(t) => (inner, t),
                    None => (inner, Seq::empty()),
                }
            } else {
                (inner, Seq::empty())
            }
        },
    }
}

/// Whether the tokens of an attribute name exactly `word`.
pub open spec fn names(toks: Seq<TokView>, word: Seq<char>) -> bool {
    &&& toks.len() > 0
    &&& toks[0].kind is Ident
    &&& toks[0].text == word
    &&& !(toks.len() > 1 && toks[1].is_punct(":"@))
}

/// The signature that a `pyfunction` marker gives.
pub open spec fn marker_attr(toks: Seq<TokView>, inner: bool) -> Result<
    Option<Seq<SigEntryView>>,
    Seq<char>,
> {
    if toks.len() == 1 {
        Ok(None)
    } else if toks[1].kind is Group {
        attr_text(toks[1].inner)
    } else if inner {
        Err(INNER_MARKER_ARGS@)
    } else {
        Err(MARKER_ARGS@)
    }
}

/// What the attributes of a method say. The last of several markers counts.
pub open spec fn marks_of(attrs: Seq<Seq<char>>) -> Result<MarksView, Seq<char>>
    decreases attrs.len(),
{
    if attrs.len() == 0 {
        Ok(
            MarksView {
                is_py: false,
                kind: MethodKind::Regular,
                attr: None,
                outer: Seq::empty(),
                inner: Seq::empty(),
            },
        )
    } else {
        match marks_of(attrs.drop_last()) {
            Err(m) => Err(m),
            Ok(marks) => {
                let (inner, toks) = attr_parts(attrs.last());
                if names(toks, "pyfunction"@) {
                    match marker_attr(toks, inner) {
                        Err(m) => Err(m),
                        Ok(attr) => Ok(MarksView { is_py: true, attr, ..marks }),
                    }
                } else if names(toks, "getter"@) {
                    Ok(MarksView { is_py: true, kind: MethodKind::Getter, ..marks })
                } else if names(toks, "new"@) {
                    Ok(MarksView { is_py: true, kind: MethodKind::New, ..marks })
                } else if inner {
                    Ok(MarksView { inner: marks.inner.push(attrs.last()), ..marks })
                } else {
                    Ok(MarksView { outer: marks.outer.push(attrs.last()), ..marks })
                }
            },
        }
    }
}

fn split_attr(text: &str) -> (r: (bool, Vec<Tok>))
    ensures
        r.0 == attr_parts(text@).0,
        tok_views(r.1@) == attr_parts(text@).1,
{
    let none: Vec<Tok> = Vec::new();
    assert(tok_views(none@) =~= Seq::empty());
    match lex(text) {
        None => (false, none),
        Some(toks) => {
            let inner = toks.len() > 1 && toks[1].is_punct("!");
            let at: usize = if inner {
                2
            } else {
                1
            };
            assert(tok_views(toks@).len() == toks@.len());
            if at < toks.len() {
                match toks[at].kind {
                    TokKind::Group => match lex(toks[at].inner.as_str()) {
                        Some(t) => (inner, t),
                        None => (inner, none),
                    },
                    _ => (inner, none),
                }
            } else {
                (inner, none)
            }
        },
    }
}

fn is_marker(toks: &[Tok], word: &str) -> (r: bool)
    ensures
        r == names(tok_views(toks@), word@),
{
    if toks.len() == 0 {
        return false;
    }
    match toks[0].kind {
        TokKind::Ident => same_text(toks[0].text.as_str(), word) && !(toks.len() > 1
            && toks[1].is_punct(":")),
        _ => false,
    }
}

fn read_marker_attr(toks: &[Tok], inner: bool) -> (r: Result<PyFunctionAttr, MacroError>)
    requires
        toks@.len() > 0,
    ensures
        match marker_attr(tok_views(toks@), inner) {
            Err(e) => r matches Err(m) && m@ == e,
            Ok(a) => r matches Ok(v) && v@ == a,
        },
{
    if toks.len() == 1 {
        return Ok(PyFunctionAttr { entries: None });
    }
    match toks[1].kind {
        TokKind::Group => parse_attr(toks[1].inner.as_str()),
        _ => Err(
            macro_error(
                if inner {
                    INNER_MARKER_ARGS
                } else {
                    MARKER_ARGS
                },
            ),
        ),
    }
}

/// Read the first `n` attributes of a method.
fn read_marks(attrs: &[String], n: usize) -> (r: Result<Marks, MacroError>)
    requires
        n <= attrs@.len(),
    ensures
        match marks_of(texts(attrs@).take(n as int)) {
            Err(e) => r matches Err(m) && m@ == e,
            Ok(marks) => r matches Ok(v) && v@ == marks,
        },
    decreases n,
{
    if n == 0 {
        let marks = Marks {
            is_py: false,
            kind: MethodKind::Regular,
            attr: PyFunctionAttr { entries: None },
            outer: Vec::new(),
            inner: Vec::new(),
        };
        assert(marks@.outer =~= Seq::empty());
        assert(marks@.inner =~= Seq::empty());
        return Ok(marks);
    }
    proof {
        let all = texts(attrs@).take(n as int);
        assert(all.drop_last() =~= texts(attrs@).take(n - 1));
        assert(all.last() == attrs@[n - 1]@);
    }
    let mut marks = match read_marks(attrs, n - 1) {
        Err(e) => {
            return Err(e);
        },
        Ok(m) => m,
    };
    let ghost before = marks@;
    let (inner, toks) = split_attr(attrs[n - 1].as_str());
    if is_marker(toks.as_slice(), "pyfunction") {
        match read_marker_attr(toks.as_slice(), inner) {
            Err(e) => {
                return Err(e);
            },
            Ok(attr) => {
                marks.attr = attr;
                marks.is_py = true;
            },
        }
    } else if is_marker(toks.as_slice(), "getter") {
        marks.is_py = true;
        marks.kind = MethodKind::Getter;
    } else if is_marker(toks.as_slice(), "new") {
        marks.is_py = true;
        marks.kind = MethodKind::New;
    } else if inner {
        marks.inner.push(attrs[n - 1].clone());
        assert(marks@.inner =~= before.inner.push(attrs@[n - 1]@));
    } else {
        marks.outer.push(attrs[n - 1].clone());
        assert(marks@.outer =~= before.outer.push(attrs@[n - 1]@));
    }
    Ok(marks)
}

/// Read the attributes of a method.
pub fn method_marks(attrs: &[String]) -> (r: Result<Marks, MacroError>)
    ensures
        match marks_of(texts(attrs@)) {
            Err(e) => r matches Err(m) && m@ == e,
            Ok(marks) => r matches Ok(v) && v@ == marks,
        },
{
    assert(texts(attrs@).take(attrs@.len() as int) =~= texts(attrs@));
    read_marks(attrs, attrs.len())
}

/// A method without the markers.
pub open spec fn method_src(marks: MarksView, f: MethodView) -> Seq<char> {
    join(marks.outer.push(f.vis).push(f.defaultness).push(f.sig), " "@) + BODY_OPEN@ + join(
        marks.inner + f.body,
        " "@,
    ) + BODY_CLOSE@
}

fn cloned_texts(items: &[String]) -> (r: Vec<String>)
    ensures
        texts(r@) == texts(items@),
{
    let mut v: Vec<String> = Vec::new();
    let mut i: usize = 0;
    while i < items.len()
        invariant
            i <= items@.len(),
            v@.len() == i,
            forall|j: int| 0 <= j < i ==> #[trigger] v@[j]@ == items@[j]@,
        decreases items@.len() - i,
    {
        v.push(items[i].clone());
        i = i + 1;
    }
    assert(texts(v@) =~= texts(items@));
    v
}

/// Write a method without the markers.
pub fn gen_method(marks: &Marks, f: &Method) -> (r: String)
    ensures
        r@ == method_src(marks@, f@),
{
    let mut head = cloned_texts(marks.outer.as_slice());
    let ghost outer = head@;
    head.push(f.vis.clone());
    head.push(f.defaultness.clone());
    head.push(f.sig.clone());
    assert(texts(head@) =~= texts(outer).push(f.vis@).push(f.defaultness@).push(f.sig@));
    let mut body = cloned_texts(marks.inner.as_slice());
    let ghost inner = body@;
    let mut rest = cloned_texts(f.body.as_slice());
    let ghost stmts = rest@;
    body.append(&mut rest);
    assert(texts(body@) =~= texts(inner) + texts(stmts));
    let mut s = join_text(head.as_slice(), " ");
    s.append(BODY_OPEN);
    s.append(join_text(body.as_slice(), " ").as_str());
    s.append(BODY_CLOSE);
    s
}

/// An identifier without the `r#` of a raw one.
pub open spec fn unraw(ident: Seq<char>) -> Seq<char> {
    if ident.len() >= 2 && ident.take(2) == RAW@ {
        ident.skip(2)
    } else {
        ident
    }
}

fn unraw_text(ident: &str) -> (r: String)
    ensures
        r@ == unraw(ident@),
{
    let n: usize = ident.unicode_len();
    if n >= 2 && same_text(ident.substring_char(0, 2), RAW) {
        assert(ident@.subrange(0, 2) =~= ident@.take(2));
        assert(ident@.subrange(2, n as int) =~= ident@.skip(2));
        ident.substring_char(2, n).to_owned()
    } else {
        assert(n >= 2 ==> ident@.subrange(0, 2) =~= ident@.take(2));
        ident.to_owned()
    }
}

/// The name of the module that is generated for a method.
pub open spec fn mod_name_src(type_ident: Seq<char>, rust_name: Seq<char>) -> Seq<char> {
    CPY@ + unraw(type_ident) + UNDERSCORE@ + unraw(rust_name)
}

fn gen_mod_name(type_ident: &str, rust_name: &str) -> (r: String)
    ensures
        r@ == mod_name_src(type_ident@, rust_name@),
{
    let mut s = CPY.to_owned();
    s.append(unraw_text(type_ident).as_str());
    s.append(UNDERSCORE);
    s.append(unraw_text(rust_name).as_str());
    s
}

/// A generated module.
pub open spec fn mod_src(head: Seq<char>, name: Seq<char>, content: Seq<char>) -> Seq<char> {
    head + name + MOD_USE@ + content + MOD_END@
}

fn gen_mod(head: &str, name: &str, content: &str) -> (r: String)
    ensures
        r@ == mod_src(head@, name@, content@),
{
    let mut s = head.to_owned();
    s.append(name);
    s.append(MOD_USE);
    s.append(content);
    s.append(MOD_END);
    s
}

/// The entry of a getter in the table of attributes.
pub open spec fn getset_src(rust_name: Seq<char>, mod_name: Seq<char>) -> Seq<char> {
    GETSET_HEAD@ + cstr_src(rust_name) + GETSET_GET@ + mod_name + GETSET_END@
}

fn gen_getset(rust_name: &str, mod_name: &str) -> (r: String)
    ensures
        r@ == getset_src(rust_name@, mod_name@),
{
    let mut s = GETSET_HEAD.to_owned();
    s.append(cstr_lit(rust_name).as_str());
    s.append(GETSET_GET);
    s.append(mod_name);
    s.append(GETSET_END);
    s
}

/// What has been generated for the items of an impl block: the items without
/// markers, the modules, the entries of the two tables, and the path of the
/// constructor function.
#[derive(Debug)]
pub struct Expansion {
    pub items: Vec<String>,
    pub mods: Vec<String>,
    pub methods: Vec<String>,
    pub getsets: Vec<String>,
    pub tp_new: Option<String>,
}

/// What an [`Expansion`] is.
pub ghost struct ExpansionView {
    pub items: Seq<Seq<char>>,
    pub mods: Seq<Seq<char>>,
    pub methods: Seq<Seq<char>>,
    pub getsets: Seq<Seq<char>>,
    pub tp_new: Option<Seq<char>>,
}

impl View for Expansion {
    type V = ExpansionView;

    open spec fn view(&self) -> ExpansionView {
        ExpansionView {
            items: texts(self.items@),
            mods: texts(self.mods@),
            methods: texts(self.methods@),
            getsets: texts(self.getsets@),
            tp_new: match self.tp_new {
                Some(p) => Some(p@),
                None => None,
            },
        }
    }
}

/// The shape of a marked function.
pub open spec fn shape_of(kind: MethodKind) -> FnShape {
    match kind {
        MethodKind::Regular => FnShape::Regular,
        MethodKind::Getter => FnShape::Getter,
        MethodKind::New => FnShape::New,
    }
}

fn method_shape(kind: MethodKind) -> (r: FnShape)
    ensures
        r == shape_of(kind),
{
    match kind {
        MethodKind::Regular => FnShape::Regular,
        MethodKind::Getter => FnShape::Getter,
        MethodKind::New => FnShape::New,
    }
}

/// `x` with what is generated for the marked function `m` of the type
/// `self_ty`.
pub open spec fn with_model(
    x: ExpansionView,
    kind: MethodKind,
    type_ident: Seq<char>,
    self_ty: Seq<char>,
    m: FnModelView,
) -> Result<ExpansionView, Seq<char>> {
    let name = mod_name_src(type_ident, m.rust_name);
    match kind {
        MethodKind::Regular => if !m.has_receiver {
            Err(METHOD_RECEIVER@)
        } else {
            Ok(
                ExpansionView {
                    mods: x.mods.push(
                        mod_src(METHOD_MOD@, name, definition_src(m, Some(self_ty))),
                    ),
                    methods: x.methods.push(name + DEF_PATH@),
                    ..x
                },
            )
        },
        MethodKind::Getter => if !m.has_receiver {
            Err(GETTER_RECEIVER@)
        } else {
            Ok(
                ExpansionView {
                    mods: x.mods.push(mod_src(HIDDEN_MOD@, name, getter_src(m, self_ty))),
                    getsets: x.getsets.push(getset_src(m.rust_name, name)),
                    ..x
                },
            )
        },
        MethodKind::New => if m.has_receiver {
            Err(NEW_RECEIVER@)
        } else if x.tp_new is Some {
            Err(DUPLICATE_NEW@)
        } else {
            Ok(
                ExpansionView {
                    mods: x.mods.push(mod_src(HIDDEN_MOD@, name, tp_new_src(m, self_ty))),
                    tp_new: Some(name + TP_NEW_PATH@),
                    ..x
                },
            )
        },
    }
}

/// Add what is generated for a marked function.
pub fn expand_method(
    x: &mut Expansion,
    kind: MethodKind,
    type_ident: &str,
    self_ty: &str,
    model: &FnModel,
) -> (r: Result<(), MacroError>)
    requires
        kind is Regular ==> model.state_ty is Some,
    ensures
        match with_model(old(x)@, kind, type_ident@, self_ty@, model@) {
            Err(e) => r matches Err(m) && m@ == e && final(x)@ == old(x)@,
            Ok(v) => r is Ok && final(x)@ == v,
        },
{
    let name = gen_mod_name(type_ident, model.rust_name.as_str());
    match kind {
        MethodKind::Regular => {
            if !model.has_receiver {
                return Err(macro_error(METHOD_RECEIVER));
            }
            let generated = gen_trampoline_and_def(model, TrampolineKind::Method { self_ty });
            x.mods.push(gen_mod(METHOD_MOD, name.as_str(), generated.as_str()));
            let mut def = name;
            def.append(DEF_PATH);
            x.methods.push(def);
            assert(x@.mods =~= old(x)@.mods.push(x.mods@.last()@));
            assert(x@.methods =~= old(x)@.methods.push(def@));
        },
        MethodKind::Getter => {
            if !model.has_receiver {
                return Err(macro_error(GETTER_RECEIVER));
            }
            let generated = gen_getter(model, self_ty);
            x.mods.push(gen_mod(HIDDEN_MOD, name.as_str(), generated.as_str()));
            x.getsets.push(gen_getset(model.rust_name.as_str(), name.as_str()));
            assert(x@.mods =~= old(x)@.mods.push(x.mods@.last()@));
            assert(x@.getsets =~= old(x)@.getsets.push(x.getsets@.last()@));
        },
        MethodKind::New => {
            if model.has_receiver {
                return Err(macro_error(NEW_RECEIVER));
            }
            if x.tp_new.is_some() {
                return Err(macro_error(DUPLICATE_NEW));
            }
            let generated = gen_tp_new(model, self_ty);
            x.mods.push(gen_mod(HIDDEN_MOD, name.as_str(), generated.as_str()));
            let mut path = name;
            path.append(TP_NEW_PATH);
            x.tp_new = Some(path);
            assert(x@.mods =~= old(x)@.mods.push(x.mods@.last()@));
        },
    }
    Ok(())
}

/// `x` with what one item of the impl block expands to. An item without a
/// marker stays as it is.
pub open spec fn with_item(
    x: ExpansionView,
    type_ident: Seq<char>,
    self_ty: Seq<char>,
    item: Seq<char>,
) -> Result<ExpansionView, Seq<char>> {
    match impl_method(item) {
        Err(m) => Err(m),
        Ok(None) => Ok(ExpansionView { items: x.items.push(item), ..x }),
        Ok(Some(f)) => match marks_of(f.attrs) {
            Err(m) => Err(m),
            Ok(marks) => {
                if !marks.is_py {
                    Ok(ExpansionView { items: x.items.push(item), ..x })
                } else {
                    let y = ExpansionView { items: x.items.push(method_src(marks, f)), ..x };
                    match signature_of(f.sig) {
                        Err(m) => Err(m),
                        Ok(sig) => match analyzed(sig, marks.attr, shape_of(marks.kind)) {
                            Err(m) => Err(m),
                            Ok(model) => with_model(y, marks.kind, type_ident, self_ty, model),
                        },
                    }
                }
            },
        },
    }
}

fn expand_item(x: &mut Expansion, type_ident: &str, self_ty: &str, item: &String) -> (r: Result<
    (),
    MacroError,
>)
    ensures
        match with_item(old(x)@, type_ident@, self_ty@, item@) {
            Err(e) => r matches Err(m) && m@ == e,
            Ok(v) => r is Ok && final(x)@ == v,
        },
{
    let f = match parse_impl_method(item.as_str()) {
        Err(message) => {
            return Err(MacroError { message });
        },
        Ok(None) => {
            x.items.push(item.clone());
            assert(x@.items =~= old(x)@.items.push(item@));
            return Ok(());
        },
        Ok(Some(f)) => f,
    };
    let marks = match method_marks(f.attrs.as_slice()) {
        Err(e) => {
            return Err(e);
        },
        Ok(m) => m,
    };
    if !marks.is_py {
        x.items.push(item.clone());
        assert(x@.items =~= old(x)@.items.push(item@));
        return Ok(());
    }
    x.items.push(gen_method(&marks, &f));
    assert(x@.items =~= old(x)@.items.push(x.items@.last()@));
    let sig = match parse_signature(f.sig.as_str()) {
        Err(e) => {
            return Err(e);
        },
        Ok(s) => s,
    };
    match analyze_fn(&sig, &marks.attr, method_shape(marks.kind)) {
        Err(e) => Err(e),
        Ok(model) => expand_method(x, marks.kind, type_ident, self_ty, &model),
    }
}

/// What the first items of an impl block expand to.
pub open spec fn with_items(type_ident: Seq<char>, self_ty: Seq<char>, items: Seq<Seq<char>>) -> Result<
    ExpansionView,
    Seq<char>,
>
    decreases items.len(),
{
    if items.len() == 0 {
        Ok(
            ExpansionView {
                items: Seq::empty(),
                mods: Seq::empty(),
                methods: Seq::empty(),
                getsets: Seq::empty(),
                tp_new: None,
            },
        )
    } else {
        match with_items(type_ident, self_ty, items.drop_last()) {
            Err(m) => Err(m),
            Ok(x) => with_item(x, type_ident, self_ty, items.last()),
        }
    }
}

fn expand_items(type_ident: &str, self_ty: &str, items: &[String], n: usize) -> (r: Result<
    Expansion,
    MacroError,
>)
    requires
        n <= items@.len(),
    ensures
        match with_items(type_ident@, self_ty@, texts(items@).take(n as int)) {
            Err(e) => r matches Err(m) && m@ == e,
            Ok(x) => r matches Ok(v) && v@ == x,
        },
    decreases n,
{
    if n == 0 {
        let x = Expansion {
            items: Vec::new(),
            mods: Vec::new(),
            methods: Vec::new(),
            getsets: Vec::new(),
            tp_new: None,
        };
        assert(x@.items =~= Seq::empty());
        assert(x@.mods =~= Seq::empty());
        assert(x@.methods =~= Seq::empty());
        assert(x@.getsets =~= Seq::empty());
        return Ok(x);
    }
    proof {
        let all = texts(items@).take(n as int);
        assert(all.drop_last() =~= texts(items@).take(n - 1));
        assert(all.last() == items@[n - 1]@);
    }
    let mut x = match expand_items(type_ident, self_ty, items, n - 1) {
        Err(e) => {
            return Err(e);
        },
        Ok(x) => x,
    };
    match expand_item(&mut x, type_ident, self_ty, &items[n - 1]) {
        Err(e) => Err(e),
        Ok(()) => Ok(x),
    }
}

/// A generated table, with the entry that ends it.
pub open spec fn table_src(
    prefix: Seq<char>,
    suffix: Seq<char>,
    ty: Seq<char>,
    value: Seq<char>,
    entries: Seq<Seq<char>>,
    terminator: Seq<char>,
) -> Seq<char> {
    STATIC@ + prefix + suffix + ty + decimal(entries.len() + 1) + value + join(
        entries.push(terminator),
        ", "@,
    ) + TABLE_END@
}

fn gen_table(
    prefix: &str,
    suffix: &str,
    ty: &str,
    value: &str,
    entries: Vec<String>,
    terminator: &str,
) -> (r: String)
    ensures
        r@ == table_src(prefix@, suffix@, ty@, value@, texts(entries@), terminator@),
{
    let mut all = entries;
    all.push(terminator.to_owned());
    assert(texts(all@) =~= texts(entries@).push(terminator@));
    let mut s = STATIC.to_owned();
    s.append(prefix);
    s.append(suffix);
    s.append(ty);
    s.append(decimal_text(all.len()).as_str());
    s.append(value);
    s.append(join_text(all.as_slice(), ", ").as_str());
    s.append(TABLE_END);
    s
}

/// What is put after the impl block: the modules, the two tables, and the
/// constructor if there is one.
pub open spec fn extra_src(prefix: Seq<char>, x: ExpansionView) -> Seq<char> {
    join(x.mods, " "@) + table_src(
        prefix,
        METHODS_SUFFIX@,
        METHODS_TYPE@,
        METHODS_VALUE@,
        x.methods,
        METHODS_TERMINATOR@,
    ) + table_src(
        prefix,
        GETSETS_SUFFIX@,
        GETSETS_TYPE@,
        GETSETS_VALUE@,
        x.getsets,
        GETSETS_TERMINATOR@,
    ) + match x.tp_new {
        None => Seq::empty(),
        Some(path) => TP_NEW_HEAD@ + prefix + TP_NEW_TYPE@ + path + SEMICOLON@,
    }
}

/// What an impl block expands to: its items without markers, and what is put
/// after it.
pub open spec fn block_src(b: ImplBlockView) -> Result<(Seq<Seq<char>>, Seq<char>), Seq<char>> {
    if b.is_trait {
        Err(INHERENT_ONLY@)
    } else {
        match b.type_ident {
            None => Err(BAD_SELF_TYPE@),
            Some(type_ident) => match with_items(type_ident, b.self_ty, b.items) {
                Err(m) => Err(m),
                Ok(x) => {
                    let prefix = uppercased(type_ident);
                    if !is_rust_ident(prefix + METHODS_SUFFIX@) {
                        Err(string_literal(prefix + METHODS_SUFFIX@) + NOT_AN_IDENT@)
                    } else {
                        Ok((x.items, extra_src(prefix, x)))
                    }
                },
            },
        }
    }
}

/// Expand an impl block: its items without markers, and what is put after it.
pub fn expand_pymethods(block: &ImplBlock) -> (r: Result<(Vec<String>, String), MacroError>)
    ensures
        match block_src(block@) {
            Err(e) => r matches Err(m) && m@ == e,
            Ok((items, extra)) => {
                &&& r matches Ok((i, e))
                &&& texts(i@) == items
                &&& e@ == extra
            },
        },
{
    if block.is_trait {
        return Err(macro_error(INHERENT_ONLY));
    }
    let type_ident: &str = match &block.type_ident {
        None => {
            return Err(macro_error(BAD_SELF_TYPE));
        },
        Some(t) => t.as_str(),
    };
    assert(texts(block.items@).take(block.items@.len() as int) =~= texts(block.items@));
    let x = match expand_items(
        type_ident,
        block.self_ty.as_str(),
        block.items.as_slice(),
        block.items.len(),
    ) {
        Err(e) => {
            return Err(e);
        },
        Ok(x) => x,
    };
    let prefix = uppercase_text(type_ident);
    let mut ident = prefix.clone();
    ident.append(METHODS_SUFFIX);
    if !accepts_ident(ident.as_str()) {
        let mut m = string_literal_text(ident.as_str());
        m.append(NOT_AN_IDENT);
        return Err(MacroError { message: m });
    }
    let mut extra = join_text(x.mods.as_slice(), " ");
    extra.append(
        gen_table(
            prefix.as_str(),
            METHODS_SUFFIX,
            METHODS_TYPE,
            METHODS_VALUE,
            x.methods,
            METHODS_TERMINATOR,
        ).as_str(),
    );
    extra.append(
        gen_table(
            prefix.as_str(),
            GETSETS_SUFFIX,
            GETSETS_TYPE,
            GETSETS_VALUE,
            x.getsets,
            GETSETS_TERMINATOR,
        ).as_str(),
    );
    match x.tp_new {
        None => {
            assert(extra@ =~= extra@ + Seq::<char>::empty());
        },
        Some(path) => {
            let mut item = TP_NEW_HEAD.to_owned();
            item.append(prefix.as_str());
            item.append(TP_NEW_TYPE);
            item.append(path.as_str());
            item.append(SEMICOLON);
            extra.append(item.as_str());
        },
    }
    Ok((x.items, extra))
}

/// What `#[pymethods] item` expands to. Where it cannot be expanded, it becomes
/// a compile error.
pub open spec fn pymethods_src(item: Seq<char>) -> Seq<char> {
    match impl_block(item) {
        Err(m) => error_src(m),
        Ok(b) => match block_src(b) {
            Err(m) => error_src(m),
            Ok((items, extra)) => b.shell.drop_last() + join(items, " "@) + BLOCK_END@ + extra,
        },
    }
}

/// Expand the `pymethods` attribute on an impl block.
pub fn pymethods(item: &str) -> (r: String)
    ensures
        r@ == pymethods_src(item@),
{
    let block = match parse_impl_block(item) {
        Err(m) => {
            return error_tokens(m.as_str());
        },
        Ok(b) => b,
    };
    match expand_pymethods(&block) {
        Err(e) => error_tokens(e.message.as_str()),
        Ok((items, extra)) => {
            let n: usize = block.shell.as_str().unicode_len();
            assert(block.shell@.subrange(0, n - 1) =~= block.shell@.drop_last());
            let mut s = block.shell.as_str().substring_char(0, n - 1).to_owned();
            s.append(join_text(items.as_slice(), " ").as_str());
            s.append(BLOCK_END);
            s.append(extra.as_str());
            s
        },
    }
}

} // verus!
