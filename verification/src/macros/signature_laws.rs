//! What the `signature = (...)` argument is read as.

use vstd::prelude::*;
use vstd::string::*;
use crate::macros::signature::{
    attr_from_tokens, default_end, entries_from, entry_at, lemma_entry_advances, parse_attr,
    MacroError, PyFunctionAttr, SigEntryView,
};
use crate::macros::tokens::{
    expression, gap, holds_static, is_rust_ident, lexed, names_static, print_tokens, printed,
    static_at, tok_views, Tok, TokKind, TokView,
};

verus! {

/// Whether a token is this punctuation.
pub open spec fn mark(t: TokView, p: Seq<char>) -> bool {
    &&& t.kind == TokKind::Joint || t.kind == TokKind::Alone
    &&& t.text == p
}

/// Whether a token is a name: an identifier that is no keyword.
pub open spec fn named(t: TokView) -> bool {
    t.kind == TokKind::Ident && is_rust_ident(t.text)
}

/// Whether an entry may end at `j`: before a comma, or at the end of the list.
pub open spec fn closes(toks: Seq<TokView>, j: int) -> bool {
    j == toks.len() || (0 <= j < toks.len() && mark(toks[j], ","@))
}

/// Whether the tokens from `i` up to `j` are this entry: a slash, a name, or a
/// name with a default. A default is the whole expression between its `=` and
/// where the entry ends, which is as early as it can.
pub open spec fn spelled(toks: Seq<TokView>, i: int, entry: SigEntryView, j: int) -> bool {
    match entry {
        SigEntryView::PosOnlyMarker => mark(toks[i], "/"@) && j == i + 1,
        SigEntryView::Param { name, default } => {
            &&& named(toks[i])
            &&& name == toks[i].text
            &&& match default {
                None => j == i + 1 && !(i + 1 < toks.len() && mark(toks[i + 1], "="@)),
                Some(d) => {
                    &&& i + 2 <= j <= toks.len()
                    &&& mark(toks[i + 1], "="@)
                    &&& closes(toks, j)
                    &&& expression(printed(toks.subrange(i + 2, j))) == Ok::<Seq<char>, Seq<char>>(d)
                    &&& forall|k: int|
                        i + 2 <= k < j && #[trigger] closes(toks, k) ==> expression(
                            printed(toks.subrange(i + 2, k)),
                        ) is Err
                },
            }
        },
    }
}

proof fn lemma_default_end(toks: Seq<TokView>, start: int, from: int, j: int)
    requires
        0 <= start <= from,
    ensures
        default_end(toks, start, from) == Some(j) <==> {
            &&& from <= j <= toks.len()
            &&& closes(toks, j)
            &&& expression(printed(toks.subrange(start, j))) is Ok
            &&& forall|k: int|
                from <= k < j && #[trigger] closes(toks, k) ==> expression(
                    printed(toks.subrange(start, k)),
                ) is Err
        },
    decreases toks.len() + 1 - from,
{
    if from <= toks.len() {
        lemma_default_end(toks, start, from + 1, j);
        assert(closes(toks, from) <==> from == toks.len() || toks[from].is_punct(","@));
        let ok = closes(toks, from) && expression(printed(toks.subrange(start, from))) is Ok;
        if !ok {
            assert forall|k: int|
                from <= k < j && #[trigger] closes(toks, k) && (forall|l: int|
                    from + 1 <= l < j && #[trigger] closes(toks, l) ==> expression(
                        printed(toks.subrange(start, l)),
                    ) is Err) implies expression(printed(toks.subrange(start, k))) is Err by {
                if k > from {
                    assert(closes(toks, k));
                }
            }
        }
    }
}

/// An entry is read exactly where its tokens spell it, up to where they do. So
/// no token of a default is left out, and none that follows is taken in.
pub proof fn law_entry(toks: Seq<TokView>, i: int, entry: SigEntryView, j: int)
    requires
        0 <= i < toks.len(),
    ensures
        entry_at(toks, i) == Ok::<(SigEntryView, int), Seq<char>>((entry, j)) <==> spelled(
            toks,
            i,
            entry,
            j,
        ),
{
    assert(mark(toks[i], "/"@) <==> toks[i].is_punct("/"@));
    assert(named(toks[i]) <==> toks[i].is_name());
    if i + 1 < toks.len() {
        assert(mark(toks[i + 1], "="@) <==> toks[i + 1].is_punct("="@));
        lemma_default_end(toks, i + 2, i + 2, j);
        if let Some(k) = default_end(toks, i + 2, i + 2) {
            lemma_default_end(toks, i + 2, i + 2, k);
        }
    }
}

/// Whether the tokens from `i` on are these entries, with commas between them
/// and perhaps one after the last.
pub open spec fn listed(toks: Seq<TokView>, i: int, entries: Seq<SigEntryView>) -> bool
    decreases entries.len(),
{
    if entries.len() == 0 {
        i >= toks.len()
    } else {
        &&& i < toks.len()
        &&& exists|j: int|
            #[trigger] spelled(toks, i, entries[0], j) && if j >= toks.len() {
                entries.len() == 1
            } else {
                mark(toks[j], ","@) && listed(toks, j + 1, entries.skip(1))
            }
    }
}

/// A signature is read exactly as the entries that its tokens list.
pub proof fn law_entries(toks: Seq<TokView>, i: int, entries: Seq<SigEntryView>)
    requires
        0 <= i,
    ensures
        entries_from(toks, i) == Ok::<Seq<SigEntryView>, Seq<char>>(entries) <==> listed(
            toks,
            i,
            entries,
        ),
    decreases toks.len() - i,
{
    if i < toks.len() {
        lemma_entry_advances(toks, i);
        if let Ok((entry, j)) = entry_at(toks, i) {
            law_entry(toks, i, entry, j);
            if j < toks.len() {
                assert(mark(toks[j], ","@) <==> toks[j].is_punct(","@));
                law_entries(toks, j + 1, entries.skip(1));
                if let Ok(rest) = entries_from(toks, j + 1) {
                    assert((seq![entry] + rest).skip(1) =~= rest);
                    assert((seq![entry] + rest)[0] == entry);
                    law_entries(toks, j + 1, rest);
                    if entries == seq![entry] + rest && mark(toks[j], ","@) {
                        assert(spelled(toks, i, entries[0], j));
                        assert(listed(toks, i, entries));
                    }
                }
            } else {
                assert(seq![entry].skip(1) =~= Seq::empty());
                if entries == seq![entry] {
                    assert(spelled(toks, i, entries[0], j));
                }
            }
            if listed(toks, i, entries) {
                let k = choose|k: int|
                    #[trigger] spelled(toks, i, entries[0], k) && if k >= toks.len() {
                        entries.len() == 1
                    } else {
                        mark(toks[k], ","@) && listed(toks, k + 1, entries.skip(1))
                    };
                law_entry(toks, i, entries[0], k);
                assert(k == j && entries[0] == entry);
                if j >= toks.len() {
                    assert(entries =~= seq![entry]);
                } else {
                    assert(entries =~= seq![entry] + entries.skip(1));
                }
            }
        } else {
            if listed(toks, i, entries) {
                let k = choose|k: int|
                    #[trigger] spelled(toks, i, entries[0], k) && if k >= toks.len() {
                        entries.len() == 1
                    } else {
                        mark(toks[k], ","@) && listed(toks, k + 1, entries.skip(1))
                    };
                law_entry(toks, i, entries[0], k);
            }
        }
    } else {
        if entries.len() == 0 {
            assert(entries =~= Seq::empty());
        }
    }
}

/// The arguments of an attribute are read exactly as nothing, where there are
/// none, or as the entries that are listed in the parentheses of
/// `signature = (...)`.
pub proof fn law_parse_attr(text: &str, r: Result<PyFunctionAttr, MacroError>)
    requires
        call_ensures(parse_attr, (text,), r),
    ensures
        match lexed(text@) {
            None => r is Err,
            Some(toks) => {
                &&& (r matches Ok(a) && a@ is None) <==> toks.len() == 0
                &&& forall|entries: Seq<SigEntryView>|
                    (r matches Ok(a) && a@ == Some(entries)) <==> #[trigger] given(toks, entries)
            },
        },
{
    if let Some(toks) = lexed(text@) {
        if toks.len() > 1 {
            assert(mark(toks[1], "="@) <==> toks[1].is_punct("="@));
        }
        if toks.len() > 0 {
            assert(named(toks[0]) <==> toks[0].is_name());
        }
        assert forall|entries: Seq<SigEntryView>|
            (r matches Ok(a) && a@ == Some(entries)) <==> #[trigger] given(toks, entries) by {
            if toks.len() == 3 {
                if let Some(inner) = lexed(toks[2].inner) {
                    law_entries(inner, 0, entries);
                }
            }
        }
    }
}

/// Whether the tokens are `signature = (...)` with these entries.
pub open spec fn given(toks: Seq<TokView>, entries: Seq<SigEntryView>) -> bool {
    &&& toks.len() == 3
    &&& named(toks[0]) && toks[0].text == "signature"@
    &&& mark(toks[1], "="@)
    &&& toks[2].kind == TokKind::Group && toks[2].text.len() > 0 && toks[2].text[0] == '('
    &&& lexed(toks[2].inner) matches Some(inner) && listed(inner, 0, entries)
}

/// Printing goes token by token: a token prints as its text, and two lists print
/// as they do each, with a space between unless the first one ends in
/// punctuation that the next token follows without a gap.
pub proof fn law_printed(a: Seq<TokView>, b: Seq<TokView>, t: TokView)
    ensures
        printed(Seq::empty()) == Seq::<char>::empty(),
        printed(seq![t]) == t.text,
        a.len() > 0 && b.len() > 0 ==> printed(a + b) == printed(a) + (if a.last().kind
            == TokKind::Joint {
            Seq::empty()
        } else {
            seq![' ']
        }) + printed(b),
    decreases b.len(),
{
    reveal_strlit("");
    reveal_strlit(" ");
    assert(""@ =~= Seq::<char>::empty());
    assert(" "@ =~= seq![' ']);
    if a.len() > 0 && b.len() > 0 {
        let all = a + b;
        let sep = if a.last().kind == TokKind::Joint {
            Seq::empty()
        } else {
            seq![' ']
        };
        assert(all.drop_last() =~= a + b.drop_last());
        assert(all.last() == b.last());
        assert(gap(a.last()) == sep);
        if b.len() == 1 {
            assert(a + b.drop_last() =~= a);
            assert(all[all.len() - 2] == a.last());
        } else {
            law_printed(a, b.drop_last(), t);
            assert(all[all.len() - 2] == b[b.len() - 2]);
            let y = printed(b.drop_last());
            let g = gap(b[b.len() - 2]);
            assert((printed(a) + sep + y) + g + b.last().text =~= printed(a) + sep + (y + g
                + b.last().text));
        }
    }
}

/// Tokens name the lifetime `'static` exactly if a quote with the word stands
/// among them, or in a group of them, down to the depth that is looked at.
pub proof fn law_static_among(toks: Seq<TokView>, depth: nat)
    ensures
        names_static(toks, depth) <==> exists|i: int|
            0 <= i < toks.len() && #[trigger] lifetime_at(toks, i, depth),
{
    assert forall|i: int| 0 <= i < toks.len() implies (static_at(toks, toks[i], i, depth)
        <==> #[trigger] lifetime_at(toks, i, depth)) by {
        assert(mark(toks[i], "'"@) <==> toks[i].is_punct("'"@));
    }
    if names_static(toks, depth) {
        let i = choose|i: int|
            0 <= i < toks.len() && static_at(toks, #[trigger] toks[i], i, depth);
        assert(lifetime_at(toks, i, depth));
    }
    if exists|i: int| 0 <= i < toks.len() && #[trigger] lifetime_at(toks, i, depth) {
        let i = choose|i: int| 0 <= i < toks.len() && #[trigger] lifetime_at(toks, i, depth);
        assert(static_at(toks, toks[i], i, depth));
    }
}

/// A text names the lifetime `'static` exactly if its tokens do, looked at as
/// deep as the text is long, which is deeper than any group can be.
pub proof fn law_static_named(text: &str, r: bool)
    requires
        call_ensures(holds_static, (text,), r),
    ensures
        r <==> (lexed(text@) matches Some(toks) && exists|i: int|
            0 <= i < toks.len() && #[trigger] lifetime_at(toks, i, text@.len())),
{
    if let Some(toks) = lexed(text@) {
        law_static_among(toks, text@.len());
    }
}

/// Whether the lifetime starts at token `i`, or that is a group with it inside.
pub open spec fn lifetime_at(toks: Seq<TokView>, i: int, depth: nat) -> bool {
    ||| mark(toks[i], "'"@) && i + 1 < toks.len() && toks[i + 1].kind == TokKind::Ident && toks[i
        + 1].text == "static"@
    ||| depth > 0 && toks[i].kind == TokKind::Group && (lexed(toks[i].inner) matches Some(inner)
        && names_static(inner, (depth - 1) as nat))
}

/// What is asked about a token is what it is, and tokens are printed from the
/// first one asked for up to the last.
pub proof fn law_tokens_asked(t: Tok, p: &str, yes: bool, toks: &[Tok], a: usize, b: usize, text: String)
    ensures
        call_ensures(Tok::is_punct, (&t, p), yes) ==> (yes <==> mark(t@, p@)),
        call_ensures(Tok::is_name, (&t,), yes) ==> (yes <==> named(t@)),
        call_ensures(Tok::is_parens, (&t,), yes) ==> (yes <==> t.kind == TokKind::Group && t.text@.len()
            > 0 && t.text@[0] == '('),
        call_ensures(print_tokens, (toks, a, b), text) ==> text@ == printed(
            tok_views(toks@).subrange(a as int, b as int),
        ),
        t@.kind == t.kind && t@.text == t.text@ && t@.inner == t.inner@,
{
    assert(mark(t@, p@) <==> t@.is_punct(p@));
    assert(named(t@) <==> t@.is_name());
}

/// An entry that cannot be read is refused for what stands there: no name, or
/// no expression where the default should be. Where there is one with something
/// other than a comma after it, a comma is missing.
pub proof fn law_entry_refused(toks: Seq<TokView>, i: int, m: Seq<char>)
    requires
        0 <= i < toks.len(),
        entry_at(toks, i) == Err::<(SigEntryView, int), Seq<char>>(m),
    ensures
        !named(toks[i]) ==> m == if toks[i].kind == TokKind::Ident {
            "expected identifier, found keyword `"@ + toks[i].text + "`"@
        } else {
            "expected identifier"@
        },
        named(toks[i]) ==> {
            let rest = expression(printed(toks.subrange(i + 2, toks.len() as int)));
            &&& i + 1 < toks.len() && mark(toks[i + 1], "="@)
            &&& (rest matches Err(e) && e != "unexpected token"@) ==> rest == Err::<
                Seq<char>,
                Seq<char>,
            >(m)
            &&& rest == Err::<Seq<char>, Seq<char>>("unexpected token"@) ==> m == "expected `,`"@
            &&& forall|k: int|
                i + 2 <= k <= toks.len() && #[trigger] closes(toks, k) ==> expression(
                    printed(toks.subrange(i + 2, k)),
                ) is Err
        },
{
    assert(mark(toks[i], "/"@) <==> toks[i].is_punct("/"@));
    assert(named(toks[i]) <==> toks[i].is_name());
    if named(toks[i]) {
        assert(mark(toks[i + 1], "="@) <==> toks[i + 1].is_punct("="@));
        lemma_no_default(toks, i + 2, i + 2);
    }
}

proof fn lemma_no_default(toks: Seq<TokView>, start: int, from: int)
    requires
        0 <= start <= from,
        default_end(toks, start, from) is None,
    ensures
        forall|k: int|
            from <= k <= toks.len() && #[trigger] closes(toks, k) ==> expression(
                printed(toks.subrange(start, k)),
            ) is Err,
    decreases toks.len() + 1 - from,
{
    if from <= toks.len() {
        assert(closes(toks, from) <==> from == toks.len() || toks[from].is_punct(","@));
        lemma_no_default(toks, start, from + 1);
    }
}

/// The tokens of the arguments are read as the text that they come from is.
pub proof fn law_attr_from_tokens(toks: &[Tok], r: Result<PyFunctionAttr, MacroError>)
    requires
        call_ensures(attr_from_tokens, (toks,), r),
    ensures
        (r matches Ok(a) && a@ is None) <==> toks@.len() == 0,
        forall|entries: Seq<SigEntryView>|
            (r matches Ok(a) && a@ == Some(entries)) <==> #[trigger] given(
                tok_views(toks@),
                entries,
            ),
{
    let all = tok_views(toks@);
    assert(all.len() == toks@.len());
    if all.len() > 1 {
        assert(mark(all[1], "="@) <==> all[1].is_punct("="@));
    }
    if all.len() > 0 {
        assert(named(all[0]) <==> all[0].is_name());
    }
    assert forall|entries: Seq<SigEntryView>|
        (r matches Ok(a) && a@ == Some(entries)) <==> #[trigger] given(all, entries) by {
        if all.len() == 3 {
            if let Some(inner) = lexed(all[2].inner) {
                law_entries(inner, 0, entries);
            }
        }
    }
}

} // verus!
