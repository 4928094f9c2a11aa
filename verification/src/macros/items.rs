//! Functions and impl blocks as plain values.
//!
//! As in [`tokens`](crate::macros::tokens), each outside call is made after
//! `fallback::force`. Parts of what was read are printed with
//! `ToTokens::to_token_stream`.

use quote::ToTokens;
use vstd::prelude::*;
use vstd::string::*;
use crate::macros::model::{ArgType, FnArg, FnArgView};
use crate::text::texts;

verus! {

/// A free function: its tokens, its visibility, and the text of its signature.
#[derive(Debug)]
pub struct FnItem {
    pub tokens: String,
    pub vis: String,
    pub sig: String,
}

/// What a [`FnItem`] is.
pub ghost struct FnItemView {
    pub tokens: Seq<char>,
    pub vis: Seq<char>,
    pub sig: Seq<char>,
}

impl View for FnItem {
    type V = FnItemView;

    open spec fn view(&self) -> FnItemView {
        FnItemView { tokens: self.tokens@, vis: self.vis@, sig: self.sig@ }
    }
}

/// The name of a function, and the text of each of its inputs, of its generic
/// parameters and of its `where` clause.
#[derive(Debug)]
pub struct SigParts {
    pub name: String,
    pub inputs: Vec<String>,
    pub generics: String,
    pub bounds: String,
}

/// What [`SigParts`] are.
pub ghost struct SigPartsView {
    pub name: Seq<char>,
    pub inputs: Seq<Seq<char>>,
    pub generics: Seq<char>,
    pub bounds: Seq<char>,
}

impl View for SigParts {
    type V = SigPartsView;

    open spec fn view(&self) -> SigPartsView {
        SigPartsView {
            name: self.name@,
            inputs: texts(self.inputs@),
            generics: self.generics@,
            bounds: self.bounds@,
        }
    }
}

/// An impl block: whether it implements a trait, its self type, the last name
/// of that type's path if it is a path, the block without its items, and the
/// text of each item.
#[derive(Debug)]
pub struct ImplBlock {
    pub is_trait: bool,
    pub self_ty: String,
    pub type_ident: Option<String>,
    pub shell: String,
    pub items: Vec<String>,
}

/// What an [`ImplBlock`] is.
pub ghost struct ImplBlockView {
    pub is_trait: bool,
    pub self_ty: Seq<char>,
    pub type_ident: Option<Seq<char>>,
    pub shell: Seq<char>,
    pub items: Seq<Seq<char>>,
}

impl View for ImplBlock {
    type V = ImplBlockView;

    open spec fn view(&self) -> ImplBlockView {
        ImplBlockView {
            is_trait: self.is_trait,
            self_ty: self.self_ty@,
            type_ident: match self.type_ident {
                Some(n) => Some(n@),
                None => None,
            },
            shell: self.shell@,
            items: texts(self.items@),
        }
    }
}

/// A method of an impl block: the text of each of its attributes, of its
/// visibility, of its `default`, of its signature, and of each statement of its
/// body.
#[derive(Debug)]
pub struct Method {
    pub attrs: Vec<String>,
    pub vis: String,
    pub defaultness: String,
    pub sig: String,
    pub body: Vec<String>,
}

/// What a [`Method`] is.
pub ghost struct MethodView {
    pub attrs: Seq<Seq<char>>,
    pub vis: Seq<char>,
    pub defaultness: Seq<char>,
    pub sig: Seq<char>,
    pub body: Seq<Seq<char>>,
}

impl View for Method {
    type V = MethodView;

    open spec fn view(&self) -> MethodView {
        MethodView {
            attrs: texts(self.attrs@),
            vis: self.vis@,
            defaultness: self.defaultness@,
            sig: self.sig@,
            body: texts(self.body@),
        }
    }
}

/// The free function that a piece of text is, or why it is none.
pub uninterp spec fn fn_item(text: Seq<char>) -> Result<FnItemView, Seq<char>>;

/// Read text as a free function with `syn::parse_str`, whose result, its parts
/// printed again, has the name [`fn_item`].
#[verifier::external_body]
pub(crate) fn parse_fn_item(text: &str) -> (r: Result<FnItem, String>)
    ensures
        match fn_item(text@) {
            Ok(f) => r matches Ok(v) && v@ == f,
            Err(e) => r matches Err(m) && m@ == e,
        },
{
    proc_macro2::fallback::force();
    match syn::parse_str::<syn::ItemFn>(text) {
        Ok(f) => Ok(FnItem {
            tokens: f.to_token_stream().to_string(),
            vis: f.vis.to_token_stream().to_string(),
            sig: f.sig.to_token_stream().to_string(),
        }),
        Err(e) => Err(e.to_string()),
    }
}

/// The name, the inputs, the generic parameters and the `where` clause of the
/// signature that a piece of text is, or why it is none.
pub uninterp spec fn sig_parts(text: Seq<char>) -> Result<SigPartsView, Seq<char>>;

/// Read text as a signature with `syn::parse_str`, whose result, its parts
/// printed again, has the name [`sig_parts`].
#[verifier::external_body]
pub(crate) fn parse_sig_parts(text: &str) -> (r: Result<SigParts, String>)
    ensures
        match sig_parts(text@) {
            Ok(p) => r matches Ok(v) && v@ == p,
            Err(e) => r matches Err(m) && m@ == e,
        },
{
    proc_macro2::fallback::force();
    match syn::parse_str::<syn::Signature>(text) {
        Ok(s) => Ok(SigParts {
            name: s.ident.to_string(),
            inputs: s.inputs.iter().map(|a| a.to_token_stream().to_string()).collect(),
            generics: s.generics.to_token_stream().to_string(),
            bounds: s.generics.where_clause.to_token_stream().to_string(),
        }),
        Err(e) => Err(e.to_string()),
    }
}

/// The input that a piece of text is, or why it is none.
pub uninterp spec fn fn_arg(text: Seq<char>) -> Result<FnArgView, Seq<char>>;

/// Read text as one input of a function with `syn::parse_str`, whose result has
/// the name [`fn_arg`].
#[verifier::external_body]
pub(crate) fn parse_fn_arg(text: &str) -> (r: Result<FnArg, String>)
    ensures
        match fn_arg(text@) {
            Ok(a) => r matches Ok(v) && v@ == a,
            Err(e) => r matches Err(m) && m@ == e,
        },
{
    proc_macro2::fallback::force();
    match syn::parse_str::<syn::FnArg>(text) {
        Ok(syn::FnArg::Receiver(a)) => Ok(FnArg::Receiver { reference: a.reference.is_some(), mutable: a.mutability.is_some() }),
        Ok(syn::FnArg::Typed(a)) => Ok(FnArg::Typed {
            name: match *a.pat { syn::Pat::Ident(p) => Some(p.ident.to_string()), _ => None },
            ty: match *a.ty {
                syn::Type::Reference(t) => ArgType::Reference { mutable: t.mutability.is_some(), target: t.elem.to_token_stream().to_string() },
                _ => ArgType::Other,
            },
        }),
        Err(e) => Err(e.to_string()),
    }
}

/// The impl block that a piece of text is, or why it is none.
pub uninterp spec fn impl_block(text: Seq<char>) -> Result<ImplBlockView, Seq<char>>;

/// Read text as an impl block with `syn::parse_str`, whose result, its parts
/// printed again, has the name [`impl_block`]. The block without its items is
/// printed with the brace that closes it last.
#[verifier::external_body]
pub(crate) fn parse_impl_block(text: &str) -> (r: Result<ImplBlock, String>)
    ensures
        match impl_block(text@) {
            Ok(b) => r matches Ok(v) && v@ == b && b.shell.len() > 0 && b.shell.last() == '}',
            Err(e) => r matches Err(m) && m@ == e,
        },
{
    proc_macro2::fallback::force();
    let mut block: syn::ItemImpl = syn::parse_str(text).map_err(|e| e.to_string())?;
    let items = std::mem::take(&mut block.items);
    Ok(ImplBlock {
        is_trait: block.trait_.is_some(),
        self_ty: block.self_ty.to_token_stream().to_string(),
        type_ident: match &*block.self_ty { syn::Type::Path(p) => p.path.segments.last().map(|s| s.ident.to_string()), _ => None },
        shell: block.to_token_stream().to_string(),
        items: items.iter().map(|i| i.to_token_stream().to_string()).collect(),
    })
}

/// The method that a piece of text is, `None` for another item of an impl
/// block, or why it is none of them.
pub uninterp spec fn impl_method(text: Seq<char>) -> Result<Option<MethodView>, Seq<char>>;

/// Read text as an item of an impl block with `syn::parse_str`, whose result,
/// the parts of a method printed again, has the name [`impl_method`].
#[verifier::external_body]
pub(crate) fn parse_impl_method(text: &str) -> (r: Result<Option<Method>, String>)
    ensures
        match impl_method(text@) {
            Ok(Some(f)) => r matches Ok(Some(v)) && v@ == f,
            Ok(None) => r matches Ok(None),
            Err(e) => r matches Err(m) && m@ == e,
        },
{
    proc_macro2::fallback::force();
    match syn::parse_str::<syn::ImplItem>(text) {
        Ok(syn::ImplItem::Fn(f)) => Ok(Some(Method {
            attrs: f.attrs.iter().map(|a| a.to_token_stream().to_string()).collect(),
            vis: f.vis.to_token_stream().to_string(),
            defaultness: f.defaultness.to_token_stream().to_string(),
            sig: f.sig.to_token_stream().to_string(),
            body: f.block.stmts.iter().map(|s| s.to_token_stream().to_string()).collect(),
        })),
        Ok(_) => Ok(None),
        Err(e) => Err(e.to_string()),
    }
}

} // verus!
