//! Text helpers shared by the error messages and the code generator.

use vstd::prelude::*;
use vstd::string::*;

verus! {

/// The characters of each string of a list.
pub open spec fn texts(v: Seq<String>) -> Seq<Seq<char>> {
    v.map_values(|s: String| s@)
}

/// Position of the first NUL of `s` at or after `i`, or the length of `s`.
pub open spec fn nul_at(s: Seq<char>, i: int) -> int
    decreases s.len() - i,
{
    if i < 0 || i >= s.len() || s[i] == '\0' {
        i
    } else {
        nul_at(s, i + 1)
    }
}

/// What is left of `s` when it is cut at its first NUL.
pub open spec fn until_nul(s: Seq<char>) -> Seq<char> {
    s.take(nul_at(s, 0))
}

pub proof fn lemma_nul_at(s: Seq<char>, i: int)
    requires
        0 <= i <= s.len(),
    ensures
        i <= nul_at(s, i) <= s.len(),
        forall|k: int| i <= k < nul_at(s, i) ==> s[k] != '\0',
        nul_at(s, i) < s.len() ==> s[nul_at(s, i)] == '\0',
    decreases s.len() - i,
{
    if i < s.len() && s[i] != '\0' {
        lemma_nul_at(s, i + 1);
    }
}

/// Text cut at its first NUL never holds a NUL, and text without one is kept
/// whole.
pub proof fn law_until_nul(s: Seq<char>)
    ensures
        !until_nul(s).contains('\0'),
        until_nul(s).is_prefix_of(s),
        !s.contains('\0') ==> until_nul(s) == s,
        s.contains('\0') ==> until_nul(s).len() < s.len() && s[until_nul(s).len() as int] == '\0',
{
    lemma_nul_at(s, 0);
    if s.contains('\0') {
        let k = choose|k: int| 0 <= k < s.len() && s[k] == '\0';
        assert(s[k] == '\0');
        assert(nul_at(s, 0) <= k);
    } else {
        assert(nul_at(s, 0) == s.len());
        assert(s.take(s.len() as int) =~= s);
    }
}

/// Cut `s` at its first NUL.
pub fn cut_at_nul(s: &str) -> (r: String)
    ensures
        r@ == until_nul(s@),
{
    let n: usize = s.unicode_len();
    let mut k: usize = 0;
    while k < n && s.get_char(k) != '\0'
        invariant
            k <= n,
            n == s@.len(),
            nul_at(s@, 0) == nul_at(s@, k as int),
        decreases n - k,
    {
        k = k + 1;
    }
    s.substring_char(0, k).to_owned()
}

/// Whether two pieces of text hold the same characters.
pub fn same_text(a: &str, b: &str) -> (r: bool)
    ensures
        r == (a@ == b@),
{
    a.to_owned() == b.to_owned()
}

/// The decimal digit `d`.
pub open spec fn digit(d: nat) -> char {
    (('0' as u32) + d) as u32 as char
}

/// `n` in decimal, without leading zeros.
pub open spec fn decimal(n: nat) -> Seq<char>
    decreases n,
{
    if n < 10 {
        seq![digit(n)]
    } else {
        decimal(n / 10).push(digit(n % 10))
    }
}

fn digit_text(d: usize) -> (r: &'static str)
    requires
        d < 10,
    ensures
        r@ == seq![digit(d as nat)],
{
    proof {
        reveal_strlit("0");
        reveal_strlit("1");
        reveal_strlit("2");
        reveal_strlit("3");
        reveal_strlit("4");
        reveal_strlit("5");
        reveal_strlit("6");
        reveal_strlit("7");
        reveal_strlit("8");
        reveal_strlit("9");
    }
    if d == 0 {
        "0"
    } else if d == 1 {
        "1"
    } else if d == 2 {
        "2"
    } else if d == 3 {
        "3"
    } else if d == 4 {
        "4"
    } else if d == 5 {
        "5"
    } else if d == 6 {
        "6"
    } else if d == 7 {
        "7"
    } else if d == 8 {
        "8"
    } else {
        "9"
    }
}

/// Write `n` in decimal.
pub fn decimal_text(n: usize) -> (r: String)
    ensures
        r@ == decimal(n as nat),
    decreases n,
{
    if n < 10 {
        digit_text(n).to_owned()
    } else {
        let mut s = decimal_text(n / 10);
        let ghost head = s@;
        s.append(digit_text(n % 10));
        assert(head + seq![digit((n % 10) as nat)] =~= head.push(digit((n % 10) as nat)));
        s
    }
}

/// The items of a list, `sep` between each two of them.
pub open spec fn join(items: Seq<Seq<char>>, sep: Seq<char>) -> Seq<char>
    decreases items.len(),
{
    if items.len() == 0 {
        Seq::empty()
    } else if items.len() == 1 {
        items[0]
    } else {
        join(items.drop_last(), sep) + sep + items.last()
    }
}

/// Join the strings of a list.
pub fn join_text(items: &[String], sep: &str) -> (r: String)
    ensures
        r@ == join(texts(items@), sep@),
{
    let mut s = String::new();
    let mut i: usize = 0;
    while i < items.len()
        invariant
            i <= items.len(),
            s@ == join(texts(items@.take(i as int)), sep@),
        decreases items.len() - i,
    {
        proof {
            let next = texts(items@.take(i + 1));
            assert(next.drop_last() =~= texts(items@.take(i as int)));
            assert(next.last() == items@[i as int]@);
        }
        let ghost head = s@;
        if i > 0 {
            s.append(sep);
        }
        s.append(items[i].as_str());
        proof {
            if i == 0 {
                assert(head =~= Seq::<char>::empty());
                assert(s@ =~= items@[0]@);
            }
        }
        i = i + 1;
    }
    assert(items@.take(i as int) =~= items@);
    s
}

/// Whether `s` begins with `p`.
pub fn begins_with(s: &str, p: &str) -> (r: bool)
    ensures
        r == p@.is_prefix_of(s@),
{
    let n: usize = p.unicode_len();
    if n > s.unicode_len() {
        return false;
    }
    let same = same_text(s.substring_char(0, n), p);
    proof {
        assert(s@.subrange(0, n as int).len() == n);
        if same {
            assert(p@.is_prefix_of(s@));
        }
    }
    same
}

/// Whether `p` occurs somewhere in `s`.
pub open spec fn occurs_in(p: Seq<char>, s: Seq<char>) -> bool {
    exists|i: int| 0 <= i <= s.len() - p.len() && #[trigger] s.subrange(i, i + p.len()) == p
}

/// Whether `p` occurs somewhere in `s`.
pub fn contains_text(s: &str, p: &str) -> (r: bool)
    ensures
        r == occurs_in(p@, s@),
{
    let n: usize = s.unicode_len();
    let m: usize = p.unicode_len();
    if m > n {
        return false;
    }
    let mut i: usize = 0;
    while i <= n - m
        invariant
            n == s@.len(),
            m == p@.len(),
            m <= n,
            i <= n - m + 1,
            forall|k: int| 0 <= k < i ==> #[trigger] s@.subrange(k, k + m) != p@,
        decreases n - m + 1 - i,
    {
        if same_text(s.substring_char(i, i + m), p) {
            return true;
        }
        if i == n - m {
            assert(!occurs_in(p@, s@));
            return false;
        }
        i = i + 1;
    }
    false
}

/// Whether `a` comes before `b` or is equal to it, character by character.
pub open spec fn text_le(a: Seq<char>, b: Seq<char>) -> bool
    decreases a.len(),
{
    if a.len() == 0 {
        true
    } else if b.len() == 0 {
        false
    } else if a[0] == b[0] {
        text_le(a.skip(1), b.skip(1))
    } else {
        a[0] < b[0]
    }
}

/// Whether `a` comes before `b` or is equal to it, character by character.
pub fn text_in_order(a: &str, b: &str) -> (r: bool)
    ensures
        r == text_le(a@, b@),
{
    let n: usize = a.unicode_len();
    let m: usize = b.unicode_len();
    let mut i: usize = 0;
    assert(a@.skip(0) =~= a@);
    assert(b@.skip(0) =~= b@);
    while i < n && i < m
        invariant
            n == a@.len(),
            m == b@.len(),
            i <= n,
            i <= m,
            text_le(a@, b@) == text_le(a@.skip(i as int), b@.skip(i as int)),
        decreases n - i,
    {
        let x: char = a.get_char(i);
        let y: char = b.get_char(i);
        if x != y {
            return x < y;
        }
        assert(a@.skip(i as int).skip(1) =~= a@.skip(i + 1));
        assert(b@.skip(i as int).skip(1) =~= b@.skip(i + 1));
        i = i + 1;
    }
    i == n
}

} // verus!
