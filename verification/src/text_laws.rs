//! What holds of the text helpers.

use vstd::prelude::*;
use vstd::string::*;
use crate::text::{
    begins_with, contains_text, cut_at_nul, decimal, decimal_text, digit, join, join_text,
    law_until_nul, occurs_in, same_text, text_in_order, text_le, texts,
};

verus! {

/// The number that a text of decimal digits denotes.
pub open spec fn number_read(s: Seq<char>) -> int
    decreases s.len(),
{
    if s.len() == 0 {
        0
    } else {
        number_read(s.drop_last()) * 10 + (s.last() as int - '0' as int)
    }
}

proof fn lemma_digit(d: nat)
    requires
        d < 10,
    ensures
        digit(d) as int == '0' as int + d,
        '0' <= digit(d) <= '9',
        digit(d) == '0' <==> d == 0,
{
    assert((48u32 + d) as u32 as char as int == 48 + d);
}

/// A number in decimal consists of digits, starts with a zero only if it is
/// zero, and can be read back.
pub proof fn law_decimal(n: nat)
    ensures
        number_read(decimal(n)) == n,
        decimal(n).len() > 0,
        decimal(n)[0] == '0' <==> n == 0,
        n == 0 ==> decimal(n).len() == 1,
        forall|i: int| 0 <= i < decimal(n).len() ==> '0' <= #[trigger] decimal(n)[i] <= '9',
    decreases n,
{
    if n < 10 {
        lemma_digit(n);
        assert(decimal(n).drop_last() =~= Seq::empty());
        assert(number_read(decimal(n).drop_last()) == 0);
    } else {
        law_decimal(n / 10);
        lemma_digit(n % 10);
        let head = decimal(n / 10);
        assert(decimal(n).drop_last() =~= head);
        assert forall|i: int| 0 <= i < decimal(n).len() implies '0' <= #[trigger] decimal(n)[i]
            <= '9' by {
            if i < head.len() {
                assert(decimal(n)[i] == head[i]);
            }
        }
    }
}

/// Different numbers are written differently.
pub proof fn law_decimal_injective(m: nat, n: nat)
    ensures
        decimal(m) == decimal(n) <==> m == n,
{
    law_decimal(m);
    law_decimal(n);
}

/// Joining goes piece by piece: no items give an empty text, one item gives
/// itself, and two lists are joined to what they are joined to each, the
/// separator between.
pub proof fn law_join(a: Seq<Seq<char>>, b: Seq<Seq<char>>, item: Seq<char>, sep: Seq<char>)
    ensures
        join(Seq::empty(), sep) == Seq::<char>::empty(),
        join(seq![item], sep) == item,
        a.len() > 0 && b.len() > 0 ==> join(a + b, sep) == join(a, sep) + sep + join(b, sep),
    decreases b.len(),
{
    if a.len() > 0 && b.len() > 0 {
        let all = a + b;
        assert(all.drop_last() =~= a + b.drop_last());
        assert(all.last() == b.last());
        if b.len() == 1 {
            assert(a + b.drop_last() =~= a);
        } else {
            law_join(a, b.drop_last(), item, sep);
            let (x, y) = (join(a, sep), join(b.drop_last(), sep));
            assert((x + sep + y) + sep + b.last() =~= x + sep + (y + sep + b.last()));
        }
    }
}

/// One text comes before another, or is equal to it, exactly if it is a prefix
/// of it or has the smaller character where they first differ.
pub proof fn law_text_order(a: Seq<char>, b: Seq<char>)
    ensures
        text_le(a, b) <==> exists|k: int| #[trigger] differs_at(a, b, k),
    decreases a.len(),
{
    if a.len() == 0 {
        assert(differs_at(a, b, 0));
    } else if b.len() > 0 && a[0] == b[0] {
        law_text_order(a.skip(1), b.skip(1));
        if exists|k: int| #[trigger] differs_at(a.skip(1), b.skip(1), k) {
            let k = choose|k: int| #[trigger] differs_at(a.skip(1), b.skip(1), k);
            assert forall|i: int| 0 <= i < k + 1 implies a[i] == b[i] by {
                if i > 0 {
                    assert(a.skip(1)[i - 1] == b.skip(1)[i - 1]);
                }
            }
            assert(differs_at(a, b, k + 1));
        }
        if exists|k: int| #[trigger] differs_at(a, b, k) {
            let k = choose|k: int| #[trigger] differs_at(a, b, k);
            assert(k > 0);
            assert(differs_at(a.skip(1), b.skip(1), k - 1));
        }
    } else {
        if b.len() > 0 && a[0] < b[0] {
            assert(differs_at(a, b, 0));
        }
        if exists|k: int| #[trigger] differs_at(a, b, k) {
            let k = choose|k: int| #[trigger] differs_at(a, b, k);
            if k > 0 {
                assert(a[0] == b[0]);
            }
        }
    }
}

/// Whether two texts agree before `k`, where the first one ends or has the
/// smaller character.
pub open spec fn differs_at(a: Seq<char>, b: Seq<char>, k: int) -> bool {
    &&& 0 <= k <= a.len()
    &&& k <= b.len()
    &&& forall|i: int| 0 <= i < k ==> a[i] == b[i]
    &&& k == a.len() || (k < b.len() && a[k] < b[k])
}

/// A text occurs in another exactly if something before it and something after
/// it make up the other one.
pub proof fn law_occurs(p: Seq<char>, s: Seq<char>)
    ensures
        occurs_in(p, s) <==> exists|before: Seq<char>, rest: Seq<char>|
            s == #[trigger] (before + p + rest),
{
    if occurs_in(p, s) {
        let i = choose|i: int|
            0 <= i <= s.len() - p.len() && #[trigger] s.subrange(i, i + p.len()) == p;
        assert(s =~= s.take(i) + p + s.skip(i + p.len())) by {
            assert forall|j: int| i <= j < i + p.len() implies s[j] == p[j - i] by {
                assert(s.subrange(i, i + p.len())[j - i] == s[j]);
            }
        }
    }
    if exists|before: Seq<char>, rest: Seq<char>| s == #[trigger] (before + p + rest) {
        let (before, rest) = choose|before: Seq<char>, rest: Seq<char>|
            s == #[trigger] (before + p + rest);
        let i = before.len() as int;
        assert(s.subrange(i, i + p.len()) =~= p);
    }
}

/// The helpers give what they are named after.
pub proof fn law_helpers(s: &str, p: &str, n: usize, items: &[String], text: String, yes: bool)
    ensures
        call_ensures(decimal_text, (n,), text) ==> number_read(text@) == n,
        call_ensures(join_text, (items, p), text) ==> text@ == join(texts(items@), p@),
        call_ensures(same_text, (s, p), yes) ==> (yes <==> s@ == p@),
        call_ensures(begins_with, (s, p), yes) ==> (yes <==> exists|rest: Seq<char>|
            s@ == #[trigger] (p@ + rest)),
        call_ensures(contains_text, (s, p), yes) ==> (yes <==> exists|
            before: Seq<char>,
            rest: Seq<char>,
        |
            s@ == #[trigger] (before + p@ + rest)),
        call_ensures(text_in_order, (s, p), yes) ==> (yes <==> exists|k: int| #[trigger]
            differs_at(s@, p@, k)),
        call_ensures(cut_at_nul, (s,), text) ==> text@.is_prefix_of(s@) && !text@.contains('\0') && (
        text@.len() == s@.len() || s@[text@.len() as int] == '\0'),
{
    law_decimal(n as nat);
    law_text_order(s@, p@);
    law_until_nul(s@);
    if p@.is_prefix_of(s@) {
        assert(s@ =~= p@ + s@.skip(p@.len() as int));
    }
    if exists|rest: Seq<char>| s@ == #[trigger] (p@ + rest) {
        let rest = choose|rest: Seq<char>| s@ == #[trigger] (p@ + rest);
        assert(p@.is_prefix_of(s@));
    }
    law_occurs(p@, s@);
}

} // verus!
