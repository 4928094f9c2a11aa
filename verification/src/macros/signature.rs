//! The `signature = (...)` argument of the attributes.

use vstd::prelude::*;
use vstd::string::*;
use crate::macros::tokens::{
    expression, lex, lexed, parse_expression, print_tokens, printed, tok_views, Tok, TokKind, TokView,
};
use crate::text::same_text;

verus! {

/// What the compiler shows for an attribute that cannot be expanded.
#[derive(Debug)]
pub struct MacroError {
    pub message: String,
}

impl View for MacroError {
    type V = Seq<char>;

    open spec fn view(&self) -> Seq<char> {
        self.message@
    }
}

/// An error with a fixed message.
pub(crate) fn macro_error(message: &str) -> (r: MacroError)
    ensures
        r@ == message@,
{
    MacroError { message: message.to_owned() }
}

/// One entry of a signature.
#[derive(Debug)]
pub enum SigEntry {
    Param { name: String, default: Option<String> },
    PosOnlyMarker,
}

/// What a [`SigEntry`] is.
pub ghost enum SigEntryView {
    Param { name: Seq<char>, default: Option<Seq<char>> },
    PosOnlyMarker,
}

/// The characters of an optional string.
pub open spec fn opt_text(s: Option<String>) -> Option<Seq<char>> {
    match s {
        Some(t) => Some(t@),
        None => None,
    }
}

impl View for SigEntry {
    type V = SigEntryView;

    open spec fn view(&self) -> SigEntryView {
        match self {
            SigEntry::Param { name, default } => SigEntryView::Param {
                name: name@,
                default: opt_text(*default),
            },
            SigEntry::PosOnlyMarker => SigEntryView::PosOnlyMarker,
        }
    }
}

/// What each entry of a list is.
pub open spec fn entry_views(entries: Seq<SigEntry>) -> Seq<SigEntryView> {
    entries.map_values(|e: SigEntry| e@)
}

/// The arguments of an attribute: the entries of its signature, if it gives
/// one.
#[derive(Debug)]
pub struct PyFunctionAttr {
    pub entries: Option<Vec<SigEntry>>,
}

impl View for PyFunctionAttr {
    type V = Option<Seq<SigEntryView>>;

    open spec fn view(&self) -> Option<Seq<SigEntryView>> {
        match self.entries {
            Some(v) => Some(entry_views(v@)),
            None => None,
        }
    }
}

pub const NOT_TOKENS: &'static str = "cannot parse string into token stream";

pub const EXPECTED_KEY: &'static str = "expected `signature = (...)`";

pub const EXPECTED_EQ: &'static str = "expected `=`";

pub const EXPECTED_COMMA: &'static str = "expected `,`";

pub const EXPECTED_PARENS: &'static str = "expected parentheses";

pub const EXPECTED_PARENS_AT_END: &'static str = "unexpected end of input, expected parentheses";

pub const UNEXPECTED_TOKEN: &'static str = "unexpected token";

pub const EXPECTED_IDENT: &'static str = "expected identifier";

pub const FOUND_KEYWORD: &'static str = "expected identifier, found keyword `";

pub const FOUND_KEYWORD_END: &'static str = "`";

/// The message where a token is not a name.
pub open spec fn not_a_name(t: TokView) -> Seq<char> {
    if t.kind is Ident {
        FOUND_KEYWORD@ + t.text + FOUND_KEYWORD_END@
    } else {
        EXPECTED_IDENT@
    }
}

/// Where the default that starts at `start` ends: at the first comma from `j`
/// on, or at the end of the list, before which it is a whole expression.
pub open spec fn default_end(toks: Seq<TokView>, start: int, j: int) -> Option<int>
    decreases toks.len() + 1 - j,
{
    if j > toks.len() {
        None
    } else if (j == toks.len() || toks[j].is_punct(","@)) && expression(
        printed(toks.subrange(start, j)),
    ) is Ok {
        Some(j)
    } else {
        default_end(toks, start, j + 1)
    }
}

/// Why no default starts at `start`: what is wrong with the expression there, or
/// that something other than a comma follows it.
pub open spec fn default_error(toks: Seq<TokView>, start: int) -> Seq<char> {
    match expression(printed(toks.subrange(start, toks.len() as int))) {
        Err(m) if m != UNEXPECTED_TOKEN@ => m,
        _ => EXPECTED_COMMA@,
    }
}

/// The entry that starts at token `i`, and the position after it.
pub open spec fn entry_at(toks: Seq<TokView>, i: int) -> Result<(SigEntryView, int), Seq<char>> {
    if toks[i].is_punct("/"@) {
        Ok((SigEntryView::PosOnlyMarker, i + 1))
    } else if !toks[i].is_name() {
        Err(not_a_name(toks[i]))
    } else if i + 1 < toks.len() && toks[i + 1].is_punct("="@) {
        match default_end(toks, i + 2, i + 2) {
            None => Err(default_error(toks, i + 2)),
            Some(j) => Ok(
                (
                    SigEntryView::Param {
                        name: toks[i].text,
                        default: Some(expression(printed(toks.subrange(i + 2, j)))->Ok_0),
                    },
                    j,
                ),
            ),
        }
    } else {
        Ok((SigEntryView::Param { name: toks[i].text, default: None }, i + 1))
    }
}

proof fn lemma_default_advances(toks: Seq<TokView>, start: int, j: int)
    ensures
        default_end(toks, start, j) matches Some(k) ==> j <= k <= toks.len(),
    decreases toks.len() + 1 - j,
{
    if j <= toks.len() {
        lemma_default_advances(toks, start, j + 1);
    }
}

/// An entry takes at least one token and stays within the list.
pub proof fn lemma_entry_advances(toks: Seq<TokView>, i: int)
    requires
        i < toks.len(),
    ensures
        entry_at(toks, i) matches Ok((_, j)) ==> i < j <= toks.len(),
{
    lemma_default_advances(toks, i + 2, i + 2);
}

/// The entries from token `i` on. They are separated by commas, and a comma
/// may follow the last one.
pub open spec fn entries_from(toks: Seq<TokView>, i: int) -> Result<
    Seq<SigEntryView>,
    Seq<char>,
>
    decreases toks.len() - i,
{
    if i >= toks.len() {
        Ok(Seq::empty())
    } else {
        match entry_at(toks, i) {
            Err(e) => Err(e),
            Ok((entry, j)) => if j >= toks.len() {
                Ok(seq![entry])
            } else if !toks[j].is_punct(","@) {
                Err(EXPECTED_COMMA@)
            } else {
                proof {
                    lemma_entry_advances(toks, i);
                }
                match entries_from(toks, j + 1) {
                    Err(e) => Err(e),
                    Ok(rest) => Ok(seq![entry] + rest),
                }
            },
        }
    }
}

/// The entries of a signature list in parentheses.
pub open spec fn signature_entries(inner: Seq<char>) -> Result<Seq<SigEntryView>, Seq<char>> {
    match lexed(inner) {
        None => Err(NOT_TOKENS@),
        Some(toks) => entries_from(toks, 0),
    }
}

/// What the tokens of an attribute's arguments say: nothing at all, or
/// `signature = (...)`.
pub open spec fn attr_of(toks: Seq<TokView>) -> Result<Option<Seq<SigEntryView>>, Seq<char>> {
    if toks.len() == 0 {
        Ok(None)
    } else if !toks[0].is_name() {
        Err(not_a_name(toks[0]))
    } else if toks[0].text != "signature"@ {
        Err(EXPECTED_KEY@)
    } else if toks.len() == 1 || !toks[1].is_punct("="@) {
        Err(EXPECTED_EQ@)
    } else if toks.len() == 2 {
        Err(EXPECTED_PARENS_AT_END@)
    } else if !toks[2].is_parens() {
        Err(EXPECTED_PARENS@)
    } else {
        match signature_entries(toks[2].inner) {
            Err(e) => Err(e),
            Ok(entries) => if toks.len() > 3 {
                Err(UNEXPECTED_TOKEN@)
            } else {
                Ok(Some(entries))
            },
        }
    }
}

/// What the arguments of an attribute say.
pub open spec fn attr_text(text: Seq<char>) -> Result<Option<Seq<SigEntryView>>, Seq<char>> {
    match lexed(text) {
        None => Err(NOT_TOKENS@),
        Some(toks) => attr_of(toks),
    }
}

fn name_error(t: &Tok) -> (r: MacroError)
    ensures
        r@ == not_a_name(t@),
{
    match t.kind {
        TokKind::Ident => {
            let mut m = FOUND_KEYWORD.to_owned();
            m.append(t.text.as_str());
            m.append(FOUND_KEYWORD_END);
            MacroError { message: m }
        },
        _ => macro_error(EXPECTED_IDENT),
    }
}

/// Read the default that starts at token `start`.
fn parse_default(toks: &[Tok], start: usize) -> (r: Result<(String, usize), MacroError>)
    requires
        start <= toks@.len(),
    ensures
        match default_end(tok_views(toks@), start as int, start as int) {
            None => r matches Err(m) && m@ == default_error(tok_views(toks@), start as int),
            Some(k) => {
                &&& r matches Ok((text, end))
                &&& end == k
                &&& start <= end <= toks@.len()
                &&& expression(printed(tok_views(toks@).subrange(start as int, k))) == Ok::<
                    Seq<char>,
                    Seq<char>,
                >(text@)
            },
        },
{
    let n: usize = toks.len();
    let mut j: usize = start;
    loop
        invariant
            n == toks@.len(),
            start <= j <= n,
            default_end(tok_views(toks@), start as int, start as int) == default_end(
                tok_views(toks@),
                start as int,
                j as int,
            ),
        decreases n - j,
    {
        if j == n || toks[j].is_punct(",") {
            match parse_expression(print_tokens(toks, start, j).as_str()) {
                Ok(text) => {
                    return Ok((text, j));
                },
                Err(message) => if j == n {
                    assert(default_end(tok_views(toks@), start as int, n + 1) is None);
                    if same_text(message.as_str(), UNEXPECTED_TOKEN) {
                        return Err(macro_error(EXPECTED_COMMA));
                    }
                    return Err(MacroError { message });
                },
            }
        }
        j = j + 1;
    }
}

/// Read the entry that starts at token `i`.
fn parse_entry(toks: &[Tok], i: usize) -> (r: Result<(SigEntry, usize), MacroError>)
    requires
        i < toks@.len(),
    ensures
        match entry_at(tok_views(toks@), i as int) {
            Err(e) => r matches Err(m) && m@ == e,
            Ok((entry, j)) => {
                &&& r matches Ok((e, k))
                &&& e@ == entry
                &&& k == j
                &&& i < k <= toks@.len()
            },
        },
{
    let n: usize = toks.len();
    let ghost views = tok_views(toks@);
    if toks[i].is_punct("/") {
        return Ok((SigEntry::PosOnlyMarker, i + 1));
    }
    if !toks[i].is_name() {
        return Err(name_error(&toks[i]));
    }
    let name = toks[i].text.clone();
    if i + 1 < n && toks[i + 1].is_punct("=") {
        match parse_default(toks, i + 2) {
            Err(e) => Err(e),
            Ok((text, j)) => Ok((SigEntry::Param { name, default: Some(text) }, j)),
        }
    } else {
        Ok((SigEntry::Param { name, default: None }, i + 1))
    }
}

/// Read the entries from token `i` on.
fn parse_entries(toks: &[Tok], i: usize) -> (r: Result<Vec<SigEntry>, MacroError>)
    requires
        i <= toks@.len(),
    ensures
        match entries_from(tok_views(toks@), i as int) {
            Err(e) => r matches Err(m) && m@ == e,
            Ok(entries) => r matches Ok(v) && entry_views(v@) == entries,
        },
    decreases toks@.len() - i,
{
    let n: usize = toks.len();
    if i == n {
        let v: Vec<SigEntry> = Vec::new();
        assert(entry_views(v@) =~= Seq::empty());
        return Ok(v);
    }
    let (entry, j) = match parse_entry(toks, i) {
        Err(e) => {
            return Err(e);
        },
        Ok(p) => p,
    };
    if j == n {
        let mut v: Vec<SigEntry> = Vec::new();
        v.push(entry);
        assert(entry_views(v@) =~= seq![entry@]);
        return Ok(v);
    }
    if !toks[j].is_punct(",") {
        return Err(macro_error(EXPECTED_COMMA));
    }
    match parse_entries(toks, j + 1) {
        Err(e) => Err(e),
        Ok(rest) => {
            let mut v = rest;
            let ghost tail = v@;
            v.insert(0, entry);
            assert(entry_views(v@) =~= seq![entry@] + entry_views(tail));
            Ok(v)
        },
    }
}

/// Read the arguments of an attribute.
pub fn parse_attr(text: &str) -> (r: Result<PyFunctionAttr, MacroError>)
    ensures
        match attr_text(text@) {
            Err(e) => r matches Err(m) && m@ == e,
            Ok(a) => r matches Ok(v) && v@ == a,
        },
{
    match lex(text) {
        None => Err(macro_error(NOT_TOKENS)),
        Some(toks) => attr_from_tokens(toks.as_slice()),
    }
}

/// Read the tokens of the arguments of an attribute.
pub fn attr_from_tokens(toks: &[Tok]) -> (r: Result<PyFunctionAttr, MacroError>)
    ensures
        match attr_of(tok_views(toks@)) {
            Err(e) => r matches Err(m) && m@ == e,
            Ok(a) => r matches Ok(v) && v@ == a,
        },
{
    let n: usize = toks.len();
    if n == 0 {
        return Ok(PyFunctionAttr { entries: None });
    }
    if !toks[0].is_name() {
        return Err(name_error(&toks[0]));
    }
    if !same_text(toks[0].text.as_str(), "signature") {
        return Err(macro_error(EXPECTED_KEY));
    }
    if n == 1 || !toks[1].is_punct("=") {
        return Err(macro_error(EXPECTED_EQ));
    }
    if n == 2 {
        return Err(macro_error(EXPECTED_PARENS_AT_END));
    }
    if !toks[2].is_parens() {
        return Err(macro_error(EXPECTED_PARENS));
    }
    let inner = match lex(toks[2].inner.as_str()) {
        None => {
            return Err(macro_error(NOT_TOKENS));
        },
        Some(v) => v,
    };
    match parse_entries(inner.as_slice(), 0) {
        Err(e) => Err(e),
        Ok(entries) => if n > 3 {
            Err(macro_error(UNEXPECTED_TOKEN))
        } else {
            Ok(PyFunctionAttr { entries: Some(entries) })
        },
    }
}

} // verus!
