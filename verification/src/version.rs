//! The order of library names: by the version in the name, then by the text.

use vstd::prelude::*;
use vstd::string::*;
use crate::text::{text_in_order, text_le};

verus! {

/// Whether a character is a decimal digit.
pub open spec fn is_digit(c: char) -> bool {
    '0' <= c <= '9'
}

/// Where the digits that start at `i` end.
pub open spec fn digits_end(s: Seq<char>, i: int) -> int
    decreases s.len() - i,
{
    if 0 <= i < s.len() && is_digit(s[i]) {
        digits_end(s, i + 1)
    } else {
        i
    }
}

/// The number that some digits denote. One that is too large for a `u64` counts
/// as the largest.
pub open spec fn number(digits: Seq<char>) -> int
    decreases digits.len(),
{
    if digits.len() == 0 {
        0
    } else {
        let n = number(digits.drop_last()) * 10 + (digits.last() as int - '0' as int);
        if n > u64::MAX {
            u64::MAX as int
        } else {
            n
        }
    }
}

/// The numbers from `i` on that are separated by dots.
pub open spec fn numbers_from(s: Seq<char>, i: int) -> Seq<int>
    decreases s.len() - i,
{
    let end = digits_end(s, i);
    if i < end {
        seq![number(s.subrange(i, end))] + if end < s.len() && s[end] == '.' {
            numbers_from(s, end + 1)
        } else {
            Seq::empty()
        }
    } else {
        Seq::empty()
    }
}

/// Whether the version `a` is older than `b`: the first number in which they
/// differ decides, and of two that agree the shorter one is older.
pub open spec fn older(a: Seq<int>, b: Seq<int>) -> bool
    decreases a.len(),
{
    if b.len() == 0 {
        false
    } else if a.len() == 0 {
        true
    } else if a[0] != b[0] {
        a[0] < b[0]
    } else {
        older(a.skip(1), b.skip(1))
    }
}

/// Whether the library `a` comes before `b` or is the same, where the version
/// starts at `at`: the older version comes first, and of one version the name
/// that comes first.
pub open spec fn library_le(a: Seq<char>, b: Seq<char>, at: int) -> bool {
    if numbers_from(a, at) == numbers_from(b, at) {
        text_le(a, b)
    } else {
        older(numbers_from(a, at), numbers_from(b, at))
    }
}

/// The numbers that some values are.
pub open spec fn as_ints(v: Seq<u64>) -> Seq<int> {
    v.map_values(|n: u64| n as int)
}

fn digit_at(s: &str, i: usize) -> (r: bool)
    requires
        i <= s@.len(),
    ensures
        r == (i < s@.len() && is_digit(s@[i as int])),
{
    if i < s.unicode_len() {
        let c: char = s.get_char(i);
        '0' <= c && c <= '9'
    } else {
        false
    }
}

/// Read the number that starts at `i`, and the position after it.
fn read_number(s: &str, i: usize) -> (r: (u64, usize))
    requires
        i <= s@.len(),
    ensures
        i <= r.1 <= s@.len(),
        r.1 == digits_end(s@, i as int),
        r.0 == number(s@.subrange(i as int, r.1 as int)),
{
    let len: usize = s.unicode_len();
    let mut n: u64 = 0;
    let mut j: usize = i;
    while digit_at(s, j)
        invariant
            len == s@.len(),
            i <= j <= len,
            digits_end(s@, i as int) == digits_end(s@, j as int),
            n == number(s@.subrange(i as int, j as int)),
        decreases s@.len() - j,
    {
        let d: u64 = (s.get_char(j) as u32 - '0' as u32) as u64;
        proof {
            let now = s@.subrange(i as int, j + 1);
            assert(now.drop_last() =~= s@.subrange(i as int, j as int));
            assert(now.last() == s@[j as int]);
        }
        n = if n > (u64::MAX - d) / 10 {
            u64::MAX
        } else {
            n * 10 + d
        };
        j = j + 1;
    }
    (n, j)
}

/// Read the numbers from `i` on that are separated by dots.
fn read_numbers(s: &str, i: usize) -> (r: Vec<u64>)
    requires
        i <= s@.len(),
    ensures
        as_ints(r@) == numbers_from(s@, i as int),
    decreases s@.len() - i,
{
    let (n, end) = read_number(s, i);
    let mut v: Vec<u64> = Vec::new();
    if i < end {
        v.push(n);
        assert(as_ints(v@) =~= seq![n as int]);
        if end < s.unicode_len() && s.get_char(end) == '.' {
            let mut rest = read_numbers(s, end + 1);
            let ghost head = v@;
            let ghost tail = rest@;
            v.append(&mut rest);
            assert(as_ints(v@) =~= as_ints(head) + as_ints(tail));
        } else {
            assert(as_ints(v@) =~= seq![n as int] + Seq::<int>::empty());
        }
    } else {
        assert(as_ints(v@) =~= Seq::empty());
    }
    v
}

/// Whether the library `a` comes before `b` or is the same.
pub fn libraries_in_order(a: &str, b: &str, at: usize) -> (r: bool)
    requires
        at <= a@.len(),
        at <= b@.len(),
    ensures
        r == library_le(a@, b@, at as int),
{
    let v = read_numbers(a, at);
    let w = read_numbers(b, at);
    let ghost x = as_ints(v@);
    let ghost y = as_ints(w@);
    assert(x.skip(0) =~= x && y.skip(0) =~= y);
    let mut i: usize = 0;
    while i < v.len() && i < w.len() && v[i] == w[i]
        invariant
            i <= v@.len(),
            i <= w@.len(),
            x == as_ints(v@),
            y == as_ints(w@),
            x.take(i as int) == y.take(i as int),
            older(x, y) == older(x.skip(i as int), y.skip(i as int)),
        decreases v@.len() - i,
    {
        proof {
            assert(x.skip(i as int).skip(1) =~= x.skip(i + 1));
            assert(y.skip(i as int).skip(1) =~= y.skip(i + 1));
            assert(x.take(i + 1) =~= x.take(i as int).push(x[i as int]));
            assert(y.take(i + 1) =~= y.take(i as int).push(y[i as int]));
        }
        i = i + 1;
    }
    proof {
        if i == v@.len() && i == w@.len() {
            assert(x.take(i as int) =~= x);
            assert(y.take(i as int) =~= y);
        } else if i < v@.len() && i < w@.len() {
            assert(x[i as int] != y[i as int]);
        } else {
            assert(x.len() != y.len());
        }
    }
    if i < v.len() && i < w.len() {
        v[i] < w[i]
    } else if i < w.len() {
        true
    } else if i < v.len() {
        false
    } else {
        text_in_order(a, b)
    }
}

proof fn lemma_older_irreflexive(a: Seq<int>)
    ensures
        !older(a, a),
    decreases a.len(),
{
    if a.len() > 0 {
        lemma_older_irreflexive(a.skip(1));
    }
}

proof fn lemma_older_total(a: Seq<int>, b: Seq<int>)
    requires
        a != b,
    ensures
        older(a, b) || older(b, a),
    decreases a.len(),
{
    if a.len() == 0 || b.len() == 0 {
        assert(a.len() != b.len() || a =~= b);
    } else if a[0] == b[0] {
        if a.skip(1) == b.skip(1) {
            assert(a =~= seq![a[0]] + a.skip(1));
            assert(b =~= seq![b[0]] + b.skip(1));
        }
        lemma_older_total(a.skip(1), b.skip(1));
    }
}

proof fn lemma_older_trans(a: Seq<int>, b: Seq<int>, c: Seq<int>)
    requires
        older(a, b),
        older(b, c),
    ensures
        older(a, c),
    decreases a.len(),
{
    if a.len() > 0 && a[0] == b[0] && b[0] == c[0] {
        lemma_older_trans(a.skip(1), b.skip(1), c.skip(1));
    }
}

proof fn lemma_text_le_refl(a: Seq<char>)
    ensures
        text_le(a, a),
    decreases a.len(),
{
    if a.len() > 0 {
        lemma_text_le_refl(a.skip(1));
    }
}

proof fn lemma_text_le_total(a: Seq<char>, b: Seq<char>)
    ensures
        text_le(a, b) || text_le(b, a),
    decreases a.len(),
{
    if a.len() > 0 && b.len() > 0 && a[0] == b[0] {
        lemma_text_le_total(a.skip(1), b.skip(1));
    }
}

proof fn lemma_text_le_trans(a: Seq<char>, b: Seq<char>, c: Seq<char>)
    requires
        text_le(a, b),
        text_le(b, c),
    ensures
        text_le(a, c),
    decreases a.len(),
{
    if a.len() > 0 && a[0] == b[0] && b[0] == c[0] {
        lemma_text_le_trans(a.skip(1), b.skip(1), c.skip(1));
    }
}

/// The order of libraries is a total one.
pub proof fn law_library_order(a: Seq<char>, b: Seq<char>, c: Seq<char>, at: int)
    ensures
        library_le(a, a, at),
        library_le(a, b, at) || library_le(b, a, at),
        library_le(a, b, at) && library_le(b, c, at) ==> library_le(a, c, at),
{
    let (x, y, z) = (numbers_from(a, at), numbers_from(b, at), numbers_from(c, at));
    lemma_text_le_refl(a);
    lemma_text_le_total(a, b);
    if x != y {
        lemma_older_total(x, y);
    }
    if library_le(a, b, at) && library_le(b, c, at) {
        if x == y && y == z {
            lemma_text_le_trans(a, b, c);
        } else if x != y && y != z {
            lemma_older_trans(x, y, z);
            lemma_older_irreflexive(x);
        }
    }
}

} // verus!
