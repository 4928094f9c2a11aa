//! What holds of every encoding.

use vstd::prelude::*;
use crate::base64::{
    encoded, encoded_len, group, group_digit, quad, symbol, LOWER_A, PAD_BYTE, PLUS, SLASH, UPPER_A,
    ZERO,
};

verus! {

/// Whether `c` is a symbol of the standard alphabet.
pub open spec fn in_alphabet(c: u8) -> bool {
    ||| UPPER_A <= c < UPPER_A + 26
    ||| LOWER_A <= c < LOWER_A + 26
    ||| ZERO <= c < ZERO + 10
    ||| c == PLUS
    ||| c == SLASH
}

/// The digit that a symbol stands for.
pub open spec fn digit_of(c: u8) -> int {
    if UPPER_A <= c < UPPER_A + 26 {
        c - UPPER_A
    } else if LOWER_A <= c < LOWER_A + 26 {
        c - LOWER_A + 26
    } else if ZERO <= c < ZERO + 10 {
        c - ZERO + 52
    } else if c == PLUS {
        62
    } else {
        63
    }
}

/// The bytes that an encoding stands for, block by block.
pub open spec fn decoded(s: Seq<u8>) -> Seq<u8>
    decreases s.len(),
{
    if s.len() < 4 {
        Seq::empty()
    } else {
        let a = digit_of(s[0]);
        let b = digit_of(s[1]);
        let c = digit_of(s[2]);
        let d = digit_of(s[3]);
        let first = (a * 4 + b / 16) as u8;
        let second = (b % 16 * 16 + c / 4) as u8;
        let third = (c % 4 * 64 + d) as u8;
        if s[2] == PAD_BYTE {
            seq![first]
        } else if s[3] == PAD_BYTE {
            seq![first, second]
        } else {
            seq![first, second, third] + decoded(s.skip(4))
        }
    }
}

proof fn lemma_symbol(d: int)
    requires
        0 <= d < 64,
    ensures
        in_alphabet(symbol(d)),
        digit_of(symbol(d)) == d,
        symbol(d) != PAD_BYTE,
{
}

proof fn lemma_digits(a: u8, b: u8, c: u8)
    ensures
        forall|k: int| 0 <= k < 4 ==> 0 <= #[trigger] group_digit(group(a, b, c), k) < 64,
        group_digit(group(a, b, c), 0) * 4 + group_digit(group(a, b, c), 1) / 16 == a,
        group_digit(group(a, b, c), 1) % 16 * 16 + group_digit(group(a, b, c), 2) / 4 == b,
        group_digit(group(a, b, c), 2) % 4 * 64 + group_digit(group(a, b, c), 3) == c,
{
    let (x, y, z) = (a as u32, b as u32, c as u32);
    let g = (x * 0x10000 + y * 0x100 + z) as u32;
    assert(g == group(a, b, c));
    assert({
        &&& g / 0x40000 < 64
        &&& (g / 0x40000) * 4 + (g / 0x1000 % 64) / 16 == x
        &&& (g / 0x1000 % 64) % 16 * 16 + (g / 0x40 % 64) / 4 == y
        &&& (g / 0x40 % 64) % 4 * 64 + g % 64 == z
    }) by (bit_vector)
        requires
            g == x * 0x10000 + y * 0x100 + z,
            x < 0x100,
            y < 0x100,
            z < 0x100,
    ;
}

proof fn lemma_quad(a: u8, b: u8, c: u8)
    ensures
        forall|k: int|
            0 <= k < 4 ==> {
                &&& in_alphabet(#[trigger] quad(group(a, b, c))[k])
                &&& digit_of(quad(group(a, b, c))[k]) == group_digit(group(a, b, c), k)
                &&& quad(group(a, b, c))[k] != PAD_BYTE
            },
{
    lemma_digits(a, b, c);
    assert forall|k: int| 0 <= k < 4 implies {
        &&& in_alphabet(#[trigger] quad(group(a, b, c))[k])
        &&& digit_of(quad(group(a, b, c))[k]) == group_digit(group(a, b, c), k)
        &&& quad(group(a, b, c))[k] != PAD_BYTE
    } by {
        lemma_symbol(group_digit(group(a, b, c), k));
    }
}

/// The encoding has four symbols for each started block of three bytes.
pub proof fn law_length(input: Seq<u8>)
    ensures
        encoded(input).len() == encoded_len(input.len()),
    decreases input.len(),
{
    if input.len() >= 3 {
        law_length(input.skip(3));
    }
}

/// What was encoded can be read back.
pub proof fn law_round_trip(input: Seq<u8>)
    ensures
        decoded(encoded(input)) == input,
    decreases input.len(),
{
    let e = encoded(input);
    if input.len() == 0 {
        assert(e =~= Seq::empty());
        assert(input =~= Seq::empty());
    } else if input.len() == 1 {
        lemma_quad(input[0], 0, 0);
        lemma_digits(input[0], 0, 0);
        assert(decoded(e) =~= input);
    } else if input.len() == 2 {
        lemma_quad(input[0], input[1], 0);
        lemma_digits(input[0], input[1], 0);
        assert(decoded(e) =~= input);
    } else {
        let q = quad(group(input[0], input[1], input[2]));
        lemma_quad(input[0], input[1], input[2]);
        lemma_digits(input[0], input[1], input[2]);
        law_round_trip(input.skip(3));
        assert(e.skip(4) =~= encoded(input.skip(3)));
        assert(e[0] == q[0] && e[1] == q[1] && e[2] == q[2] && e[3] == q[3]);
        assert(decoded(e) =~= input);
    }
}

/// Different inputs have different encodings.
pub proof fn law_injective(a: Seq<u8>, b: Seq<u8>)
    requires
        encoded(a) == encoded(b),
    ensures
        a == b,
{
    law_round_trip(a);
    law_round_trip(b);
}

/// How many padding bytes the encoding of `n` bytes ends with.
pub open spec fn padding(n: nat) -> int {
    (3 - n % 3) % 3
}

/// The encoding consists of symbols of the alphabet, and of padding exactly
/// where the last block is not full.
pub proof fn law_alphabet(input: Seq<u8>, i: int)
    requires
        0 <= i < encoded(input).len(),
    ensures
        i < encoded(input).len() - padding(input.len()) ==> in_alphabet(encoded(input)[i]),
        i >= encoded(input).len() - padding(input.len()) ==> encoded(input)[i] == PAD_BYTE,
    decreases input.len(),
{
    law_length(input);
    if input.len() == 1 {
        lemma_quad(input[0], 0, 0);
    } else if input.len() == 2 {
        lemma_quad(input[0], input[1], 0);
    } else if input.len() >= 3 {
        let q = quad(group(input[0], input[1], input[2]));
        lemma_quad(input[0], input[1], input[2]);
        law_length(input.skip(3));
        if i >= 4 {
            law_alphabet(input.skip(3), i - 4);
        } else {
            assert(encoded(input)[i] == q[i]);
        }
    }
}

} // verus!
