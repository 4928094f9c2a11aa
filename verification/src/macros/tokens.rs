//! Rust tokens as plain values.
//!
//! The outside functions below work on `proc_macro2` streams. Each is called
//! after `fallback::force`, which makes that crate use its own implementation
//! and not the one of a surrounding compiler, so that a text always gives the
//! same result.

use proc_macro2::{Spacing, TokenStream, TokenTree};
use quote::ToTokens;
use vstd::prelude::*;
use vstd::string::*;
use crate::text::same_text;

verus! {

/// What a token is. A punctuation character is `Joint` where the next one
/// follows without a gap.
#[derive(Clone, Copy, Debug, PartialEq, Eq, Structural)]
pub enum TokKind {
    Ident,
    Joint,
    Alone,
    Literal,
    Group,
}

/// A token tree: its source text and, for a delimited group, the text between
/// the delimiters.
#[derive(Debug)]
pub struct Tok {
    pub kind: TokKind,
    pub text: String,
    pub inner: String,
}

/// What a [`Tok`] is.
pub ghost struct TokView {
    pub kind: TokKind,
    pub text: Seq<char>,
    pub inner: Seq<char>,
}

impl View for Tok {
    type V = TokView;

    open spec fn view(&self) -> TokView {
        TokView { kind: self.kind, text: self.text@, inner: self.inner@ }
    }
}

/// What each token of a list is.
pub open spec fn tok_views(toks: Seq<Tok>) -> Seq<TokView> {
    toks.map_values(|t: Tok| t@)
}

/// The token trees of a piece of source text, or `None` where it cannot be
/// split into tokens.
pub uninterp spec fn lexed(text: Seq<char>) -> Option<Seq<TokView>>;

/// Split source text into token trees with `proc_macro2`'s
/// `TokenStream::from_str`, whose result, tree by tree, has the name
/// [`lexed`].
#[verifier::external_body]
pub(crate) fn lex(text: &str) -> (r: Option<Vec<Tok>>)
    ensures
        match lexed(text@) {
            Some(toks) => r matches Some(v) && tok_views(v@) == toks,
            None => r is None,
        },
{
    proc_macro2::fallback::force();
    let stream: TokenStream = text.parse().ok()?;
    Some(stream.into_iter().map(|tree| {
        let (kind, inner) = match &tree {
            TokenTree::Ident(_) => (TokKind::Ident, String::new()),
            TokenTree::Literal(_) => (TokKind::Literal, String::new()),
            TokenTree::Group(g) => (TokKind::Group, g.stream().to_string()),
            TokenTree::Punct(p) => match p.spacing() {
                Spacing::Joint => (TokKind::Joint, String::new()),
                Spacing::Alone => (TokKind::Alone, String::new()),
            },
        };
        Tok { kind, text: tree.to_string(), inner }
    }).collect())
}

/// Whether a word is an identifier that is neither a keyword nor `_`.
pub uninterp spec fn is_rust_ident(word: Seq<char>) -> bool;

/// Try a word as an identifier with `syn::parse_str`, whose verdict has the
/// name [`is_rust_ident`].
#[verifier::external_body]
pub(crate) fn accepts_ident(word: &str) -> (r: bool)
    ensures
        r == is_rust_ident(word@),
{
    proc_macro2::fallback::force();
    syn::parse_str::<syn::Ident>(word).is_ok()
}

/// The tokens of a piece of text that is one whole expression, printed again,
/// or why it is none.
pub uninterp spec fn expression(text: Seq<char>) -> Result<Seq<char>, Seq<char>>;

/// Read text as one whole expression with `syn::parse_str`, whose result, the
/// expression printed again, has the name [`expression`].
#[verifier::external_body]
pub(crate) fn parse_expression(text: &str) -> (r: Result<String, String>)
    ensures
        match expression(text@) {
            Ok(e) => r matches Ok(s) && s@ == e,
            Err(e) => r matches Err(m) && m@ == e,
        },
{
    proc_macro2::fallback::force();
    match syn::parse_str::<syn::Expr>(text) {
        Ok(e) => Ok(e.to_token_stream().to_string()),
        Err(e) => Err(e.to_string()),
    }
}

/// The string literal that denotes a piece of text.
pub uninterp spec fn string_literal(text: Seq<char>) -> Seq<char>;

/// Write a string literal with `proc_macro2`'s `Literal::string`, whose result
/// has the name [`string_literal`].
#[verifier::external_body]
pub(crate) fn string_literal_text(text: &str) -> (r: String)
    ensures
        r@ == string_literal(text@),
{
    proc_macro2::fallback::force();
    proc_macro2::Literal::string(text).to_string()
}

/// The byte-string literal that denotes some bytes.
pub uninterp spec fn byte_string_literal(bytes: Seq<u8>) -> Seq<char>;

/// Write a byte-string literal with `proc_macro2`'s `Literal::byte_string`,
/// whose result has the name [`byte_string_literal`].
#[verifier::external_body]
pub(crate) fn byte_string_literal_text(bytes: &[u8]) -> (r: String)
    ensures
        r@ == byte_string_literal(bytes@),
{
    proc_macro2::fallback::force();
    proc_macro2::Literal::byte_string(bytes).to_string()
}

/// A piece of text in upper case.
pub uninterp spec fn uppercased(text: Seq<char>) -> Seq<char>;

/// Put text into upper case with `str::to_uppercase`, whose result has the
/// name [`uppercased`].
#[verifier::external_body]
pub(crate) fn uppercase_text(text: &str) -> (r: String)
    ensures
        r@ == uppercased(text@),
{
    text.to_uppercase()
}

/// Whether the tokens hold the lifetime `'static`, at the top or in groups up to
/// `depth` deep.
pub open spec fn names_static(toks: Seq<TokView>, depth: nat) -> bool
    decreases depth, 1nat,
{
    exists|i: int| 0 <= i < toks.len() && static_at(toks, #[trigger] toks[i], i, depth)
}

/// Whether `t`, the token at `i`, starts the lifetime `'static` or is a group
/// that holds it.
pub open spec fn static_at(toks: Seq<TokView>, t: TokView, i: int, depth: nat) -> bool
    decreases depth, 0nat,
{
    ||| t.is_punct("'"@) && i + 1 < toks.len() && toks[i + 1].kind is Ident && toks[i + 1].text
        == "static"@
    ||| depth > 0 && t.kind is Group && (lexed(t.inner) matches Some(inner) && names_static(
        inner,
        (depth - 1) as nat,
    ))
}

/// Whether source text holds the lifetime `'static`. No group is nested deeper
/// than the text is long.
pub open spec fn text_names_static(text: Seq<char>) -> bool {
    lexed(text) matches Some(toks) && names_static(toks, text.len())
}

impl TokView {
    /// Whether this is the punctuation `p`.
    pub open spec fn is_punct(self, p: Seq<char>) -> bool {
        (self.kind is Joint || self.kind is Alone) && self.text == p
    }

    /// Whether this is an identifier that is neither a keyword nor `_`.
    pub open spec fn is_name(self) -> bool {
        self.kind is Ident && is_rust_ident(self.text)
    }

    /// Whether this is a group in parentheses.
    pub open spec fn is_parens(self) -> bool {
        self.kind is Group && self.text.len() > 0 && self.text[0] == '('
    }
}

/// The text between a token and the next one.
pub open spec fn gap(t: TokView) -> Seq<char> {
    if t.kind is Joint {
        ""@
    } else {
        " "@
    }
}

/// The source text of a list of tokens.
pub open spec fn printed(toks: Seq<TokView>) -> Seq<char>
    decreases toks.len(),
{
    if toks.len() == 0 {
        Seq::empty()
    } else if toks.len() == 1 {
        toks[0].text
    } else {
        printed(toks.drop_last()) + gap(toks[toks.len() - 2]) + toks.last().text
    }
}

impl Tok {
    /// Whether this is the punctuation `p`.
    pub fn is_punct(&self, p: &str) -> (r: bool)
        ensures
            r == self@.is_punct(p@),
    {
        match self.kind {
            TokKind::Joint => same_text(self.text.as_str(), p),
            TokKind::Alone => same_text(self.text.as_str(), p),
            _ => false,
        }
    }

    /// Whether this is an identifier that is neither a keyword nor `_`.
    pub fn is_name(&self) -> (r: bool)
        ensures
            r == self@.is_name(),
    {
        match self.kind {
            TokKind::Ident => accepts_ident(self.text.as_str()),
            _ => false,
        }
    }

    /// Whether this is a group in parentheses.
    pub fn is_parens(&self) -> (r: bool)
        ensures
            r == self@.is_parens(),
    {
        match self.kind {
            TokKind::Group => {
                let n: usize = self.text.as_str().unicode_len();
                n > 0 && self.text.as_str().get_char(0) == '('
            },
            _ => false,
        }
    }
}

/// Look for the lifetime `'static` among some tokens.
fn find_static(toks: &[Tok], depth: usize) -> (r: bool)
    ensures
        r == names_static(tok_views(toks@), depth as nat),
    decreases depth,
{
    let ghost all = tok_views(toks@);
    let n: usize = toks.len();
    let mut i: usize = 0;
    while i < n
        invariant
            i <= n,
            n == toks@.len(),
            all == tok_views(toks@),
            forall|j: int| 0 <= j < i ==> !static_at(all, #[trigger] all[j], j, depth as nat),
        decreases n - i,
    {
        assert(all[i as int] == toks@[i as int]@);
        if toks[i].is_punct("'") && i + 1 < n {
            assert(all[i + 1] == toks@[i + 1]@);
            if toks[i + 1].kind == TokKind::Ident && same_text(
                toks[i + 1].text.as_str(),
                "static",
            ) {
                assert(static_at(all, all[i as int], i as int, depth as nat));
                return true;
            }
        }
        if depth > 0 && toks[i].kind == TokKind::Group {
            if let Some(inner) = lex(toks[i].inner.as_str()) {
                if find_static(inner.as_slice(), depth - 1) {
                    assert(static_at(all, all[i as int], i as int, depth as nat));
                    return true;
                }
            }
        }
        i = i + 1;
    }
    false
}

/// Look for the lifetime `'static` in source text.
pub fn holds_static(text: &str) -> (r: bool)
    ensures
        r == text_names_static(text@),
{
    match lex(text) {
        None => false,
        Some(toks) => find_static(toks.as_slice(), text.unicode_len()),
    }
}

/// Print the tokens from `start` up to `end`.
pub fn print_tokens(toks: &[Tok], start: usize, end: usize) -> (r: String)
    requires
        start <= end <= toks@.len(),
    ensures
        r@ == printed(tok_views(toks@).subrange(start as int, end as int)),
{
    let ghost all = tok_views(toks@);
    let mut s = String::new();
    let mut i: usize = start;
    while i < end
        invariant
            start <= i <= end <= toks@.len(),
            all == tok_views(toks@),
            s@ == printed(all.subrange(start as int, i as int)),
        decreases end - i,
    {
        let ghost head = s@;
        if i > start {
            s.append(match toks[i - 1].kind {
                TokKind::Joint => "",
                _ => " ",
            });
        }
        s.append(toks[i].text.as_str());
        proof {
            let now = all.subrange(start as int, i + 1);
            assert(now.drop_last() =~= all.subrange(start as int, i as int));
            assert(now.last() == toks@[i as int]@);
            if i == start {
                assert(head =~= Seq::<char>::empty());
                assert(s@ =~= now[0].text);
            } else {
                assert(now[now.len() - 2] == toks@[i - 1]@);
            }
        }
        i = i + 1;
    }
    s
}

} // verus!
