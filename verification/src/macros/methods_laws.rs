//! What the attributes of an impl block mean, and what it expands to.

use vstd::prelude::*;
use vstd::string::*;
use crate::macros::codegen::{definition_src, getter_src, tp_new_src};
use crate::macros::codegen_laws::{c_literal, lemma_c_literal};
use crate::macros::functions::signature_of;
use crate::macros::items::{impl_block, impl_method, ImplBlock, Method, MethodView};
use crate::macros::methods::{
    attr_parts, expand_method, expand_pymethods, gen_method, marks_of, method_marks, method_src,
    mod_name_src, names, pymethods, unraw, with_items, Expansion, Marks, MethodKind,
};
use crate::macros::model::{analyzed, FnModel, FnModelView, FnShape};
use crate::macros::signature::{attr_text, MacroError, SigEntryView};
use crate::macros::signature_laws::mark;
use crate::macros::tokens::{is_rust_ident, lexed, uppercased, TokKind, TokView};
use crate::text::{decimal, join, texts};

verus! {

/// The tokens between the brackets of an attribute.
pub open spec fn inside_brackets(text: Seq<char>) -> Option<Seq<TokView>> {
    match lexed(text) {
        None => None,
        Some(toks) => {
            let at = if toks.len() > 1 && mark(toks[1], "!"@) {
                2int
            } else {
                1
            };
            if at < toks.len() && toks[at].kind == TokKind::Group {
                lexed(toks[at].inner)
            } else {
                None
            }
        },
    }
}

/// Whether an attribute is the marker `word`: that word and no path.
pub open spec fn says(text: Seq<char>, word: Seq<char>) -> bool {
    &&& inside_brackets(text) matches Some(toks)
    &&& toks.len() > 0
    &&& toks[0].kind == TokKind::Ident
    &&& toks[0].text == word
    &&& !(toks.len() > 1 && mark(toks[1], ":"@))
}

/// Whether an attribute decides what a method is for.
pub open spec fn decides(text: Seq<char>) -> bool {
    says(text, "getter"@) || says(text, "new"@)
}

proof fn lemma_says(text: Seq<char>, word: Seq<char>)
    ensures
        says(text, word) <==> names(attr_parts(text).1, word),
        says(text, word) ==> inside_brackets(text) == Some(attr_parts(text).1),
{
    if let Some(toks) = lexed(text) {
        if toks.len() > 1 {
            assert(mark(toks[1], "!"@) <==> toks[1].is_punct("!"@));
        }
    }
    let inner = attr_parts(text).1;
    if inner.len() > 1 {
        assert(mark(inner[1], ":"@) <==> inner[1].is_punct(":"@));
    }
}

proof fn lemma_words()
    ensures
        "pyfunction"@ != "getter"@,
        "pyfunction"@ != "new"@,
        "getter"@ != "new"@,
{
    reveal_strlit("pyfunction");
    reveal_strlit("getter");
    reveal_strlit("new");
    assert("pyfunction"@.len() != "getter"@.len());
    assert("pyfunction"@.len() != "new"@.len());
    assert("getter"@.len() != "new"@.len());
}

/// The signature that the marker `pyfunction` gives: none without arguments, or
/// what its arguments say.
pub open spec fn marker_says(text: Seq<char>, attr: Option<Seq<SigEntryView>>) -> bool {
    let toks = inside_brackets(text)->0;
    if toks.len() == 1 {
        attr is None
    } else {
        toks[1].kind == TokKind::Group && attr_text(toks[1].inner) == Ok::<
            Option<Seq<SigEntryView>>,
            Seq<char>,
        >(attr)
    }
}

proof fn lemma_marks(attrs: Seq<Seq<char>>)
    requires
        marks_of(attrs) is Ok,
    ensures
        ({
            let m = marks_of(attrs)->Ok_0;
            &&& m.is_py <==> exists|i: int|
                0 <= i < attrs.len() && (says(#[trigger] attrs[i], "pyfunction"@) || decides(
                    attrs[i],
                ))
            &&& forall|i: int|
                0 <= i < attrs.len() && decides(#[trigger] attrs[i]) && (forall|j: int|
                    i < j < attrs.len() ==> !decides(#[trigger] attrs[j])) ==> m.kind == (
                if says(attrs[i], "getter"@) {
                    MethodKind::Getter
                } else {
                    MethodKind::New
                })
            &&& (forall|i: int| 0 <= i < attrs.len() ==> !decides(#[trigger] attrs[i])) ==> m.kind
                == MethodKind::Regular
            &&& forall|i: int|
                0 <= i < attrs.len() && says(#[trigger] attrs[i], "pyfunction"@) && (forall|j: int|
                    i < j < attrs.len() ==> !says(#[trigger] attrs[j], "pyfunction"@))
                    ==> marker_says(attrs[i], m.attr)
            &&& (forall|i: int|
                0 <= i < attrs.len() ==> !says(#[trigger] attrs[i], "pyfunction"@)) ==> m.attr
                is None
        }),
    decreases attrs.len(),
{
    lemma_words();
    if attrs.len() > 0 {
        let head = attrs.drop_last();
        let last = attrs.len() - 1;
        let text = attrs[last];
        lemma_marks(head);
        lemma_says(text, "pyfunction"@);
        lemma_says(text, "getter"@);
        lemma_says(text, "new"@);
        assert(forall|i: int| 0 <= i < last ==> head[i] == attrs[i]);
        let m = marks_of(attrs)->Ok_0;
        let before = marks_of(head)->Ok_0;
        if exists|i: int|
            0 <= i < head.len() && (says(#[trigger] head[i], "pyfunction"@) || decides(head[i])) {
            let i = choose|i: int|
                0 <= i < head.len() && (says(#[trigger] head[i], "pyfunction"@) || decides(head[i]));
            assert(attrs[i] == head[i]);
        }
        assert forall|i: int|
            0 <= i < attrs.len() && decides(#[trigger] attrs[i]) && (forall|j: int|
                i < j < attrs.len() ==> !decides(#[trigger] attrs[j])) implies m.kind == (if says(
            attrs[i],
            "getter"@,
        ) {
            MethodKind::Getter
        } else {
            MethodKind::New
        }) by {
            if i < last {
                assert(!decides(attrs[last]));
                assert(head[i] == attrs[i]);
                assert forall|j: int| i < j < head.len() implies !decides(#[trigger] head[j]) by {
                    assert(attrs[j] == head[j]);
                }
            }
        }
        if forall|i: int| 0 <= i < attrs.len() ==> !decides(#[trigger] attrs[i]) {
            assert(!decides(attrs[last]));
            assert forall|i: int| 0 <= i < head.len() implies !decides(#[trigger] head[i]) by {
                assert(attrs[i] == head[i]);
            }
        }
        assert forall|i: int|
            0 <= i < attrs.len() && says(#[trigger] attrs[i], "pyfunction"@) && (forall|j: int|
                i < j < attrs.len() ==> !says(#[trigger] attrs[j], "pyfunction"@)) implies marker_says(
            attrs[i],
            m.attr,
        ) by {
            if i < last {
                assert(!says(attrs[last], "pyfunction"@));
                assert(head[i] == attrs[i]);
                assert forall|j: int| i < j < head.len() implies !says(
                    #[trigger] head[j],
                    "pyfunction"@,
                ) by {
                    assert(attrs[j] == head[j]);
                }
            }
        }
        if forall|i: int| 0 <= i < attrs.len() ==> !says(#[trigger] attrs[i], "pyfunction"@) {
            assert(!says(attrs[last], "pyfunction"@));
            assert forall|i: int| 0 <= i < head.len() implies !says(
                #[trigger] head[i],
                "pyfunction"@,
            ) by {
                assert(attrs[i] == head[i]);
            }
        }
    }
}

/// A method is visible from Python exactly if it has a marker. The last of the
/// markers `getter` and `new` says what it is for; without one it is a regular
/// method. The last marker `pyfunction` gives its signature.
pub proof fn law_marks(attrs: &[String], r: Result<Marks, MacroError>)
    requires
        call_ensures(method_marks, (attrs,), r),
    ensures
        r matches Ok(m) ==> {
            let all = texts(attrs@);
            &&& m.is_py <==> exists|i: int|
                0 <= i < all.len() && (says(#[trigger] all[i], "pyfunction"@) || decides(all[i]))
            &&& forall|i: int|
                0 <= i < all.len() && decides(#[trigger] all[i]) && (forall|j: int|
                    i < j < all.len() ==> !decides(#[trigger] all[j])) ==> m.kind == (if says(
                    all[i],
                    "getter"@,
                ) {
                    MethodKind::Getter
                } else {
                    MethodKind::New
                })
            &&& (forall|i: int| 0 <= i < all.len() ==> !decides(#[trigger] all[i])) ==> m.kind
                == MethodKind::Regular
            &&& forall|i: int|
                0 <= i < all.len() && says(#[trigger] all[i], "pyfunction"@) && (forall|j: int|
                    i < j < all.len() ==> !says(#[trigger] all[j], "pyfunction"@)) ==> marker_says(
                    all[i],
                    m@.attr,
                )
            &&& (forall|i: int| 0 <= i < all.len() ==> !says(#[trigger] all[i], "pyfunction"@))
                ==> m@.attr is None
        },
{
    if marks_of(texts(attrs@)) is Ok {
        lemma_marks(texts(attrs@));
    }
}

/// A method without its markers has the attributes that are kept, then its
/// visibility, its `default` and its signature, and in its body the kept
/// attributes and then its statements, all in order.
pub proof fn law_method_written(marks: Marks, f: Method, r: String)
    requires
        call_ensures(gen_method, (&marks, &f), r),
    ensures
        r@ == join(marks@.outer + seq![f@.vis, f@.defaultness, f@.sig], " "@) + " { "@ + join(
            marks@.inner + f@.body,
            " "@,
        ) + " }"@,
{
    assert(marks@.outer.push(f@.vis).push(f@.defaultness).push(f@.sig) =~= marks@.outer + seq![
        f@.vis,
        f@.defaultness,
        f@.sig,
    ]);
}

/// A raw name is used without its `r#`, any other one as it is.
pub proof fn law_unraw(name: Seq<char>)
    ensures
        unraw("r#"@ + name) == name,
        !"r#"@.is_prefix_of(name) ==> unraw(name) == name,
{
    reveal_strlit("r#");
    assert(("r#"@ + name).take(2) =~= "r#"@);
    assert(("r#"@ + name).skip(2) =~= name);
    if name.len() >= 2 && name.take(2) == "r#"@ {
        assert("r#"@.is_prefix_of(name));
    }
}

/// The name of the module that is generated for a function of a type.
pub open spec fn module_name(type_ident: Seq<char>, rust_name: Seq<char>) -> Seq<char> {
    "__cpy_"@ + unraw(type_ident) + "_"@ + unraw(rust_name)
}

/// A generated module with what is inside.
pub open spec fn module_text(head: Seq<char>, name: Seq<char>, content: Seq<char>) -> Seq<char> {
    head + name + " { use super::*; "@ + content + " }"@
}

/// A marked function is expanded exactly if it has a receiver where it is a
/// method or a getter, and none where it is the constructor, of which there is
/// one at most. It gets one module of its own, and one entry that leads there: a
/// method in the method table, a getter in the attribute table under its name,
/// and the constructor as such. Nothing else changes.
pub proof fn law_expand_method(
    kind: MethodKind,
    type_ident: &str,
    self_ty: &str,
    model: FnModel,
    r: Result<(), MacroError>,
)
    ensures
        forall|x: &mut Expansion| #[trigger]
            call_ensures(expand_method, (x, kind, type_ident, self_ty, &model), r) ==> {
                let name = module_name(type_ident@, model@.rust_name);
                let (a, b) = (x@, final(x)@);
                &&& r is Ok <==> match kind {
                    MethodKind::New => !model.has_receiver && a.tp_new is None,
                    _ => model.has_receiver,
                }
                &&& r is Err ==> b == a
                &&& r is Ok ==> b.items == a.items
                &&& r is Ok && kind is Regular ==> {
                    &&& b.mods == a.mods.push(
                        module_text(
                            "#[doc(hidden)] #[allow(non_snake_case, non_upper_case_globals)] mod "@,
                            name,
                            definition_src(model@, Some(self_ty@)),
                        ),
                    )
                    &&& b.methods == a.methods.push(name + "::DEF"@)
                    &&& b.getsets == a.getsets && b.tp_new == a.tp_new
                }
                &&& r is Ok && kind is Getter ==> {
                    &&& b.mods == a.mods.push(
                        module_text(
                            "#[doc(hidden)] #[allow(non_snake_case)] mod "@,
                            name,
                            getter_src(model@, self_ty@),
                        ),
                    )
                    &&& b.getsets == a.getsets.push(
                        "::cpython_api::ffi::PyGetSetDef { name: ::cpython_api::const_cstr("@
                            + c_literal(model@.rust_name) + ").as_ptr(), get: Some("@ + name
                            + "::getter), set: None, doc: ::std::ptr::null(), closure: ::std::ptr::null_mut() }"@,
                    )
                    &&& b.methods == a.methods && b.tp_new == a.tp_new
                }
                &&& r is Ok && kind is New ==> {
                    &&& b.mods == a.mods.push(
                        module_text(
                            "#[doc(hidden)] #[allow(non_snake_case)] mod "@,
                            name,
                            tp_new_src(model@, self_ty@),
                        ),
                    )
                    &&& b.tp_new == Some(name + "::tp_new"@)
                    &&& b.methods == a.methods && b.getsets == a.getsets
                }
            },
{
    lemma_c_literal(model@.rust_name);
}

/// A table as it is written: its name and type, how many entries it has with the
/// one that ends it, and all of them in order.
pub open spec fn table_text(
    name: Seq<char>,
    ty: Seq<char>,
    value: Seq<char>,
    entries: Seq<Seq<char>>,
    end: Seq<char>,
) -> Seq<char> {
    " pub(crate) static "@ + name + ty + decimal(entries.len() + 1) + value + join(
        entries + seq![end],
        ", "@,
    ) + "]);"@
}

/// An impl block is expanded exactly if it is no impl of a trait, its type has a
/// name of which that of a table can be made, and all of its items can be
/// expanded. The items are what these became, in order. After them come the
/// generated modules, the method table, the attribute table, and the constructor
/// if there is one, each named after the type.
pub proof fn law_block(block: ImplBlock, r: Result<(Vec<String>, String), MacroError>)
    requires
        call_ensures(expand_pymethods, (&block,), r),
    ensures
        ({
            let b = block@;
            let prefix = uppercased(b.type_ident->0);
            let x = with_items(b.type_ident->0, b.self_ty, b.items);
            &&& r is Ok <==> !b.is_trait && b.type_ident is Some && x is Ok && is_rust_ident(
                prefix + "_METHODS"@,
            )
            &&& r matches Ok((items, extra)) ==> {
                &&& texts(items@) == x->Ok_0.items
                &&& extra@ == join(x->Ok_0.mods, " "@) + table_text(
                    prefix + "_METHODS"@,
                    ": ::cpython_api::module::MethodDefs<"@,
                    "usize> = ::cpython_api::module::MethodDefs(["@,
                    x->Ok_0.methods,
                    "::cpython_api::ffi::PyMethodDef::zeroed()"@,
                ) + table_text(
                    prefix + "_GETSETS"@,
                    ": ::cpython_api::module::GetSetDefs<"@,
                    "usize> = ::cpython_api::module::GetSetDefs(["@,
                    x->Ok_0.getsets,
                    "::cpython_api::ffi::PyGetSetDef { name: ::std::ptr::null(), get: None, set: None, doc: ::std::ptr::null(), closure: ::std::ptr::null_mut() }"@,
                ) + (match x->Ok_0.tp_new {
                    None => Seq::empty(),
                    Some(path) => " pub(crate) const "@ + prefix
                        + "_TP_NEW: ::cpython_api::class::NewFunc = "@ + path + ";"@,
                })
            }
        }),
{
    let b = block@;
    if !b.is_trait && b.type_ident is Some {
        if let Ok(x) = with_items(b.type_ident->0, b.self_ty, b.items) {
            let prefix = uppercased(b.type_ident->0);
            let zeroed = "::cpython_api::ffi::PyMethodDef::zeroed()"@;
            let empty = "::cpython_api::ffi::PyGetSetDef { name: ::std::ptr::null(), get: None, set: None, doc: ::std::ptr::null(), closure: ::std::ptr::null_mut() }"@;
            assert(x.methods.push(zeroed) =~= x.methods + seq![zeroed]);
            assert(x.getsets.push(empty) =~= x.getsets + seq![empty]);
            assert(" pub(crate) static "@ + prefix + "_METHODS"@ =~= " pub(crate) static "@ + (prefix
                + "_METHODS"@));
            assert(" pub(crate) static "@ + prefix + "_GETSETS"@ =~= " pub(crate) static "@ + (prefix
                + "_GETSETS"@));
        }
    }
}

/// Whether an item is a function with a marker for this purpose.
pub open spec fn marked(item: Seq<char>, kind: MethodKind) -> bool {
    &&& impl_method(item) matches Ok(Some(f))
    &&& marks_of(f.attrs) matches Ok(m)
    &&& m.is_py && m.kind == kind
}

/// The module that is generated for a marked item.
pub open spec fn module_of(type_ident: Seq<char>, item: Seq<char>) -> Seq<char> {
    module_name(type_ident, signature_of(impl_method(item)->Ok_0->0.sig)->Ok_0.name)
}

/// The entry of a getter in the attribute table: its name, and the function of
/// its module that reads it. It cannot be set.
pub open spec fn attribute_of(type_ident: Seq<char>, item: Seq<char>) -> Seq<char> {
    "::cpython_api::ffi::PyGetSetDef { name: ::cpython_api::const_cstr("@ + c_literal(
        signature_of(impl_method(item)->Ok_0->0.sig)->Ok_0.name,
    ) + ").as_ptr(), get: Some("@ + module_of(type_ident, item)
        + "::getter), set: None, doc: ::std::ptr::null(), closure: ::std::ptr::null_mut() }"@
}

/// The items that are marked for a purpose, in order.
pub open spec fn marked_items(items: Seq<Seq<char>>, kind: MethodKind) -> Seq<Seq<char>> {
    items.filter(|item: Seq<char>| marked(item, kind))
}

/// The method table has one entry for each marked method, in order, the
/// attribute table one for each getter, and there is a constructor exactly if one
/// is marked. Each item stays in its place: as it was, or without its markers.
pub proof fn law_tables_in_order(type_ident: Seq<char>, self_ty: Seq<char>, items: Seq<Seq<char>>)
    requires
        with_items(type_ident, self_ty, items) is Ok,
    ensures
        ({
            let x = with_items(type_ident, self_ty, items)->Ok_0;
            let regular = marked_items(items, MethodKind::Regular);
            let getters = marked_items(items, MethodKind::Getter);
            let new = marked_items(items, MethodKind::New);
            &&& x.methods.len() == regular.len()
            &&& forall|i: int|
                0 <= i < regular.len() ==> #[trigger] x.methods[i] == module_of(
                    type_ident,
                    regular[i],
                ) + "::DEF"@
            &&& x.getsets.len() == getters.len()
            &&& forall|i: int|
                0 <= i < getters.len() ==> #[trigger] x.getsets[i] == attribute_of(
                    type_ident,
                    getters[i],
                )
            &&& new.len() <= 1
            &&& x.tp_new is Some <==> new.len() == 1
            &&& x.tp_new matches Some(path) ==> path == module_of(type_ident, new[0]) + "::tp_new"@
            &&& x.items.len() == items.len()
            &&& forall|i: int|
                0 <= i < items.len() ==> #[trigger] x.items[i] == match impl_method(items[i]) {
                    Ok(Some(f)) => if marks_of(f.attrs)->Ok_0.is_py {
                        method_src(marks_of(f.attrs)->Ok_0, f)
                    } else {
                        items[i]
                    },
                    _ => items[i],
                }
        }),
    decreases items.len(),
{
    reveal(Seq::filter);
    if items.len() > 0 {
        let head = items.drop_last();
        let item = items.last();
        law_tables_in_order(type_ident, self_ty, head);
        let before = with_items(type_ident, self_ty, head)->Ok_0;
        let x = with_items(type_ident, self_ty, items)->Ok_0;
        assert(forall|i: int| 0 <= i < head.len() ==> head[i] == items[i]);
        assert forall|i: int| 0 <= i < items.len() implies #[trigger] x.items[i] == match impl_method(
            items[i],
        ) {
            Ok(Some(f)) => if marks_of(f.attrs)->Ok_0.is_py {
                method_src(marks_of(f.attrs)->Ok_0, f)
            } else {
                items[i]
            },
            _ => items[i],
        } by {
            if i < head.len() {
                assert(x.items[i] == before.items[i]);
            }
        }
        if let Ok(Some(f)) = impl_method(item) {
            if let Ok(m) = marks_of(f.attrs) {
                if m.is_py {
                    if let Ok(sig) = signature_of(f.sig) {
                        lemma_c_literal(sig.name);
                        assert(mod_name_src(type_ident, sig.name) == module_name(
                            type_ident,
                            sig.name,
                        ));
                    }
                }
            }
        }
    }
}

/// What `pymethods` makes of a text that is an impl block: the block without its
/// closing brace, then what its items became, then the brace, then what is
/// generated.
pub proof fn law_pymethods(item: &str, r: String, block: ImplBlock, x: (Vec<String>, String))
    requires
        call_ensures(pymethods, (item,), r),
        impl_block(item@) == Ok::<crate::macros::items::ImplBlockView, Seq<char>>(block@),
        call_ensures(expand_pymethods, (&block,), Ok(x)),
    ensures
        r@ == block@.shell.drop_last() + join(texts(x.0@), " "@) + " } "@ + x.1@,
{
}

/// The attributes of a method cannot be read exactly if the arguments of a
/// marker `pyfunction` cannot.
pub proof fn law_marks_refused(attrs: Seq<Seq<char>>)
    ensures
        marks_of(attrs) is Err <==> exists|i: int|
            0 <= i < attrs.len() && says(#[trigger] attrs[i], "pyfunction"@) && !readable(attrs[i]),
    decreases attrs.len(),
{
    if attrs.len() > 0 {
        let head = attrs.drop_last();
        let last = attrs.len() - 1;
        law_marks_refused(head);
        lemma_says(attrs[last], "pyfunction"@);
        assert(forall|i: int| 0 <= i < last ==> head[i] == attrs[i]);
        if marks_of(head) is Err {
            let i = choose|i: int|
                0 <= i < head.len() && says(#[trigger] head[i], "pyfunction"@) && !readable(head[i]);
            assert(attrs[i] == head[i]);
        }
        if exists|i: int|
            0 <= i < attrs.len() && says(#[trigger] attrs[i], "pyfunction"@) && !readable(attrs[i]) {
            let i = choose|i: int|
                0 <= i < attrs.len() && says(#[trigger] attrs[i], "pyfunction"@) && !readable(
                    attrs[i],
                );
            if i < last {
                assert(says(head[i], "pyfunction"@));
            }
        }
    }
}

/// Whether the arguments of a marker can be read.
pub open spec fn readable(text: Seq<char>) -> bool {
    let toks = inside_brackets(text)->0;
    toks.len() == 1 || (toks[1].kind == TokKind::Group && attr_text(toks[1].inner) is Ok)
}

/// What a marked function of a purpose looks like from Python.
pub open spec fn model_of(f: MethodView, attr: Option<Seq<SigEntryView>>, kind: MethodKind) -> Result<
    FnModelView,
    Seq<char>,
> {
    match signature_of(f.sig) {
        Err(m) => Err(m),
        Ok(sig) => analyzed(
            sig,
            attr,
            match kind {
                MethodKind::Regular => FnShape::Regular,
                MethodKind::Getter => FnShape::Getter,
                MethodKind::New => FnShape::New,
            },
        ),
    }
}

/// Whether an item of an impl block can be expanded by itself.
pub open spec fn expandable(item: Seq<char>) -> bool {
    match impl_method(item) {
        Err(_) => false,
        Ok(None) => true,
        Ok(Some(f)) => {
            &&& marks_of(f.attrs) matches Ok(m)
            &&& m.is_py ==> {
                &&& model_of(f, m.attr, m.kind) is Ok
                &&& model_of(f, m.attr, m.kind)->Ok_0.has_receiver <==> m.kind != MethodKind::New
            }
        },
    }
}

/// The items of an impl block can be expanded exactly if each of them can and at
/// most one is a constructor.
pub proof fn law_items_expandable(type_ident: Seq<char>, self_ty: Seq<char>, items: Seq<Seq<char>>)
    ensures
        with_items(type_ident, self_ty, items) is Ok <==> {
            &&& forall|i: int| 0 <= i < items.len() ==> expandable(#[trigger] items[i])
            &&& marked_items(items, MethodKind::New).len() <= 1
        },
    decreases items.len(),
{
    reveal(Seq::filter);
    if items.len() > 0 {
        let head = items.drop_last();
        let item = items.last();
        law_items_expandable(type_ident, self_ty, head);
        assert(forall|i: int| 0 <= i < head.len() ==> head[i] == items[i]);
        assert(items[items.len() - 1] == item);
        let all = forall|i: int| 0 <= i < items.len() ==> expandable(#[trigger] items[i]);
        let before = forall|i: int| 0 <= i < head.len() ==> expandable(#[trigger] head[i]);
        assert(all <==> before && expandable(item)) by {
            if all {
                assert forall|i: int| 0 <= i < head.len() implies expandable(#[trigger] head[i]) by {
                    assert(head[i] == items[i]);
                }
                assert(expandable(items[items.len() - 1]));
            }
            if before && expandable(item) {
                assert forall|i: int| 0 <= i < items.len() implies expandable(#[trigger] items[i]) by {
                    if i < head.len() {
                        assert(expandable(head[i]));
                    }
                }
            }
        }
        if with_items(type_ident, self_ty, head) is Ok {
            law_tables_in_order(type_ident, self_ty, head);
        }
    }
}

/// Whether an item is a function with a marker.
pub open spec fn is_marked(item: Seq<char>) -> bool {
    impl_method(item) matches Ok(Some(f)) && (marks_of(f.attrs) matches Ok(m) && m.is_py)
}

/// The items with a marker, in order.
pub open spec fn all_marked(items: Seq<Seq<char>>) -> Seq<Seq<char>> {
    items.filter(|item: Seq<char>| is_marked(item))
}

/// The module of a marked item: for a method, a getter or a constructor.
pub open spec fn generated(type_ident: Seq<char>, self_ty: Seq<char>, item: Seq<char>) -> Seq<char> {
    let f = impl_method(item)->Ok_0->0;
    let m = marks_of(f.attrs)->Ok_0;
    let model = model_of(f, m.attr, m.kind)->Ok_0;
    let name = module_of(type_ident, item);
    match m.kind {
        MethodKind::Regular => module_text(
            "#[doc(hidden)] #[allow(non_snake_case, non_upper_case_globals)] mod "@,
            name,
            definition_src(model, Some(self_ty)),
        ),
        MethodKind::Getter => module_text(
            "#[doc(hidden)] #[allow(non_snake_case)] mod "@,
            name,
            getter_src(model, self_ty),
        ),
        MethodKind::New => module_text(
            "#[doc(hidden)] #[allow(non_snake_case)] mod "@,
            name,
            tp_new_src(model, self_ty),
        ),
    }
}

/// There is one generated module for each marked item, in order, and it is the
/// one of that item.
pub proof fn law_modules_in_order(type_ident: Seq<char>, self_ty: Seq<char>, items: Seq<Seq<char>>)
    requires
        with_items(type_ident, self_ty, items) is Ok,
    ensures
        ({
            let x = with_items(type_ident, self_ty, items)->Ok_0;
            let all = all_marked(items);
            &&& x.mods.len() == all.len()
            &&& forall|i: int|
                0 <= i < all.len() ==> #[trigger] x.mods[i] == generated(type_ident, self_ty, all[i])
        }),
    decreases items.len(),
{
    reveal(Seq::filter);
    if items.len() > 0 {
        let head = items.drop_last();
        let item = items.last();
        law_modules_in_order(type_ident, self_ty, head);
        let before = with_items(type_ident, self_ty, head)->Ok_0;
        let x = with_items(type_ident, self_ty, items)->Ok_0;
        if is_marked(item) {
            let f = impl_method(item)->Ok_0->0;
            let sig = signature_of(f.sig)->Ok_0;
            assert(mod_name_src(type_ident, sig.name) == module_of(type_ident, item));
            assert(x.mods == before.mods.push(generated(type_ident, self_ty, item)));
            assert(all_marked(items) == all_marked(head).push(item));
        } else {
            assert(x.mods == before.mods);
            assert(all_marked(items) == all_marked(head));
        }
    }
}

/// A marked function with the wrong receiver, a second constructor, and a block
/// that cannot be expanded are each refused with their own message.
pub proof fn law_block_refused(block: ImplBlock, e: MacroError)
    requires
        call_ensures(expand_pymethods, (&block,), Err(e)),
    ensures
        block@.is_trait ==> e@ == "#[pymethods] only supports inherent impl blocks"@,
        !block@.is_trait && block@.type_ident is None ==> e@ == "unsupported self type"@,
        !block@.is_trait ==> (block@.type_ident matches Some(t) ==> (with_items(
            t,
            block@.self_ty,
            block@.items,
        ) matches Err(m) ==> e@ == m)),
{
}

/// The message that refuses a marked function.
pub proof fn law_method_refused(
    kind: MethodKind,
    type_ident: &str,
    self_ty: &str,
    model: FnModel,
    e: MacroError,
)
    ensures
        forall|x: &mut Expansion| #[trigger]
            call_ensures(expand_method, (x, kind, type_ident, self_ty, &model), Err(e)) ==> e@ == (
            match kind {
                MethodKind::Regular =>
                    "#[pyfunction] methods must take &self (use #[new] for constructors)"@,
                MethodKind::Getter => "#[getter] methods must take &self"@,
                MethodKind::New => if model.has_receiver {
                    "#[new] must not take a receiver; it returns PyResult<Self>"@
                } else {
                    "duplicate #[new]"@
                },
            }),
{
}

} // verus!
