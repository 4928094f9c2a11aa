//! The `_base64` module.

use vstd::prelude::*;
use crate::buffer::PyBuffer;
use crate::err::{PyMemoryError, PyResult};
use crate::instance::{Borrowed, Bound};
use crate::module::state::{ModuleState, TraverseResult, Visit};
use crate::sys_calls::{SysQuery, SysQueryView};
use crate::text::until_nul;
use crate::threadstate::{ExcType, ThreadState};
use crate::types::bytes::TOO_LARGE;
use crate::types::{PyBytes, PyModule};

pub mod laws;

verus! {

/// State of the module, which has none.
pub struct Base64State;

impl ModuleState for Base64State {
    open spec fn edges(&self) -> Option<Seq<usize>> {
        Some(Seq::empty())
    }

    fn new<'py>(ts: &mut ThreadState<'py>, module: &Borrowed<'_, 'py, PyModule>) -> (r: PyResult<
        Base64State,
    >)
        ensures
            r is Ok,
            final(ts)@ == old(ts)@,
    {
        Ok(Base64State)
    }

    fn traverse<F: Fn(usize) -> i32>(&self, visit: &Visit<F>) -> (r: TraverseResult) {
        Ok(())
    }
}

/// The byte `=`.
pub const PAD_BYTE: u8 = 61;

/// The byte `A`.
pub const UPPER_A: u8 = 65;

/// The byte `a`.
pub const LOWER_A: u8 = 97;

/// The byte `0`.
pub const ZERO: u8 = 48;

/// The byte `+`.
pub const PLUS: u8 = 43;

/// The byte `/`.
pub const SLASH: u8 = 47;

/// The symbol of the digit `d`: letters, digits, `+` and `/`.
pub open spec fn symbol(d: int) -> u8 {
    if d < 26 {
        (UPPER_A + d) as u8
    } else if d < 52 {
        (LOWER_A + (d - 26)) as u8
    } else if d < 62 {
        (ZERO + (d - 52)) as u8
    } else if d == 62 {
        PLUS
    } else {
        SLASH
    }
}

/// The number that three bytes make.
pub open spec fn group(a: u8, b: u8, c: u8) -> int {
    a * 0x10000 + b * 0x100 + c
}

/// Digit `k` of the four base-64 digits of a group.
pub open spec fn group_digit(g: int, k: int) -> int {
    if k == 0 {
        g / 0x40000
    } else if k == 1 {
        g / 0x1000 % 64
    } else if k == 2 {
        g / 0x40 % 64
    } else {
        g % 64
    }
}

/// The four symbols of a group.
pub open spec fn quad(g: int) -> Seq<u8> {
    Seq::new(4, |k: int| symbol(group_digit(g, k)))
}

/// The encoding of `input`: four symbols for each three bytes. A rest of one or
/// two bytes is padded.
pub open spec fn encoded(input: Seq<u8>) -> Seq<u8>
    decreases input.len(),
{
    if input.len() == 0 {
        Seq::empty()
    } else if input.len() == 1 {
        quad(group(input[0], 0, 0)).take(2) + seq![PAD_BYTE, PAD_BYTE]
    } else if input.len() == 2 {
        quad(group(input[0], input[1], 0)).take(3) + seq![PAD_BYTE]
    } else {
        quad(group(input[0], input[1], input[2])) + encoded(input.skip(3))
    }
}

/// Four symbols for each started block of three bytes.
pub open spec fn encoded_len(n: nat) -> nat {
    (n + 2) / 3 * 4
}

/// The length of the encoding of `input_len` bytes, `None` where it does not
/// fit.
pub fn encoded_output_len(input_len: usize) -> (r: Option<usize>)
    ensures
        r == if encoded_len(input_len as nat) <= usize::MAX {
            Some(encoded_len(input_len as nat) as usize)
        } else {
            None
        },
{
    let rest: usize = input_len % 3;
    let blocks: usize = input_len / 3 + if rest == 0 {
        0
    } else {
        1
    };
    blocks.checked_mul(4)
}

fn encode_symbol(d: u32) -> (r: u8)
    requires
        d < 64,
    ensures
        r == symbol(d as int),
{
    if d < 26 {
        UPPER_A + d as u8
    } else if d < 52 {
        LOWER_A + (d as u8 - 26)
    } else if d < 62 {
        ZERO + (d as u8 - 52)
    } else if d == 62 {
        PLUS
    } else {
        SLASH
    }
}

/// The group of three bytes as a number, and its digits.
fn group_of(a: u8, b: u8, c: u8) -> (g: u32)
    ensures
        g == group(a, b, c),
        g < 0x100_0000,
        (g >> 18u32 & 0x3f) == group_digit(g as int, 0),
        (g >> 12u32 & 0x3f) == group_digit(g as int, 1),
        (g >> 6u32 & 0x3f) == group_digit(g as int, 2),
        (g & 0x3f) == group_digit(g as int, 3),
        (g >> 18u32 & 0x3f) < 64,
        (g >> 12u32 & 0x3f) < 64,
        (g >> 6u32 & 0x3f) < 64,
        (g & 0x3f) < 64,
{
    let (x, y, z): (u32, u32, u32) = (a as u32, b as u32, c as u32);
    let g: u32 = (x << 16u32) | (y << 8u32) | z;
    proof {
        assert(g == x * 0x10000 + y * 0x100 + z && g < 0x100_0000) by (bit_vector)
            requires
                g == (x << 16u32) | (y << 8u32) | z,
                x < 0x100,
                y < 0x100,
                z < 0x100,
        ;
        assert({
            &&& g >> 18u32 & 0x3f == g / 0x40000
            &&& g >> 12u32 & 0x3f == g / 0x1000 % 64
            &&& g >> 6u32 & 0x3f == g / 0x40 % 64
            &&& g & 0x3f == g % 64
            &&& g >> 18u32 & 0x3f < 64
            &&& g >> 12u32 & 0x3f < 64
            &&& g >> 6u32 & 0x3f < 64
            &&& g & 0x3f < 64
        }) by (bit_vector)
            requires
                g < 0x100_0000,
        ;
    }
    g
}

/// Write four bytes at `at`.
fn put_four(output: &mut [u8], at: usize, a: u8, b: u8, c: u8, d: u8)
    requires
        at + 4 <= old(output)@.len(),
    ensures
        final(output)@.len() == old(output)@.len(),
        final(output)@.take(at + 4) == old(output)@.take(at as int) + seq![a, b, c, d],
{
    output[at] = a;
    output[at + 1] = b;
    output[at + 2] = c;
    output[at + 3] = d;
    assert(output@.take(at + 4) =~= old(output)@.take(at as int) + seq![a, b, c, d]);
}

/// Write the symbols of three bytes at `at`.
fn put_block(output: &mut [u8], at: usize, a: u8, b: u8, c: u8)
    requires
        at + 4 <= old(output)@.len(),
    ensures
        final(output)@.len() == old(output)@.len(),
        final(output)@.take(at + 4) == old(output)@.take(at as int) + quad(group(a, b, c)),
{
    let g: u32 = group_of(a, b, c);
    put_four(
        output,
        at,
        encode_symbol(g >> 18u32 & 0x3f),
        encode_symbol(g >> 12u32 & 0x3f),
        encode_symbol(g >> 6u32 & 0x3f),
        encode_symbol(g & 0x3f),
    );
    proof {
        let q = quad(g as int);
        assert(seq![q[0], q[1], q[2], q[3]] =~= q);
    }
}

/// Write the symbols of the last one or two bytes at `at`, and the padding.
fn put_rest(output: &mut [u8], at: usize, rest: &[u8])
    requires
        1 <= rest@.len() <= 2,
        at + 4 <= old(output)@.len(),
    ensures
        final(output)@.len() == old(output)@.len(),
        final(output)@.take(at + 4) == old(output)@.take(at as int) + encoded(rest@),
{
    if rest.len() == 1 {
        let g: u32 = group_of(rest[0], 0, 0);
        put_four(
            output,
            at,
            encode_symbol(g >> 18u32 & 0x3f),
            encode_symbol(g >> 12u32 & 0x3f),
            PAD_BYTE,
            PAD_BYTE,
        );
        proof {
            let q = quad(g as int);
            assert(seq![q[0], q[1], PAD_BYTE, PAD_BYTE] =~= encoded(rest@));
        }
    } else {
        let g: u32 = group_of(rest[0], rest[1], 0);
        put_four(
            output,
            at,
            encode_symbol(g >> 18u32 & 0x3f),
            encode_symbol(g >> 12u32 & 0x3f),
            encode_symbol(g >> 6u32 & 0x3f),
            PAD_BYTE,
        );
        proof {
            let q = quad(g as int);
            assert(seq![q[0], q[1], q[2], PAD_BYTE] =~= encoded(rest@));
        }
    }
}

/// What is written of the encoding grows by a block.
proof fn lemma_block(written: Seq<u8>, next: Seq<u8>, input: Seq<u8>, i: int)
    requires
        0 <= i,
        i + 3 <= input.len(),
        written + encoded(input.skip(i)) == encoded(input),
        next == written + quad(group(input[i], input[i + 1], input[i + 2])),
    ensures
        next + encoded(input.skip(i + 3)) == encoded(input),
{
    let rest = input.skip(i);
    assert(rest.skip(3) =~= input.skip(i + 3));
    assert(next + encoded(input.skip(i + 3)) =~= written + encoded(rest));
}

/// Encode `input` into `output`, which has exactly the length of the encoding.
pub fn encode_into(input: &[u8], output: &mut [u8])
    requires
        old(output)@.len() == encoded_len(input@.len()),
    ensures
        final(output)@ == encoded(input@),
{
    let n: usize = input.len();
    let len: usize = output.len();
    let mut i: usize = 0;
    let mut o: usize = 0;
    proof {
        assert(input@.skip(0) =~= input@);
        assert(output@.take(0) + encoded(input@) =~= encoded(input@));
    }
    while n - i >= 3
        invariant
            n == input@.len(),
            i <= n,
            i % 3 == 0,
            o == i / 3 * 4,
            output@.len() == len,
            len == encoded_len(n as nat),
            output@.take(o as int) + encoded(input@.skip(i as int)) == encoded(input@),
        decreases n - i,
    {
        let ghost before = output@.take(o as int);
        put_block(output, o, input[i], input[i + 1], input[i + 2]);
        proof {
            lemma_block(before, output@.take(o + 4), input@, i as int);
        }
        i = i + 3;
        o = o + 4;
    }
    if i < n {
        let rest: &[u8] = vstd::slice::slice_subrange(input, i, n);
        assert(rest@ =~= input@.skip(i as int));
        put_rest(output, o, rest);
        assert(output@.take(o + 4) =~= output@);
    } else {
        assert(encoded(input@.skip(i as int)) =~= Seq::<u8>::empty());
        assert(output@.take(o as int) =~= output@);
        assert(output@ + Seq::<u8>::empty() =~= output@);
    }
}

pub const RESULT_TOO_LONG: &'static str = "encoded result too long";

/// What to ask to encode `data`: a bytes object for the result. A result that
/// cannot be counted raises `MemoryError`.
pub fn standard_b64encode_query(ts: &mut ThreadState<'_>, data: &PyBuffer<'_>) -> (r: PyResult<
    SysQuery<'static>,
>)
    ensures
        ({
            let n = encoded_len(data@.len());
            if n > usize::MAX {
                r is Err && final(ts)@ == old(ts)@.raised(
                    ExcType::MemoryError,
                    until_nul(RESULT_TOO_LONG@),
                )
            } else if n > isize::MAX {
                r is Err && final(ts)@ == old(ts)@.raised(
                    ExcType::MemoryError,
                    until_nul(TOO_LARGE@),
                )
            } else {
                &&& r matches Ok(q)
                &&& q@ == (SysQueryView::BytesFromStringAndSize { data: None, len: n as isize })
                &&& final(ts)@ == old(ts)@
            }
        }),
{
    match encoded_output_len(data.len()) {
        None => Err(PyMemoryError::raise(ts, RESULT_TOO_LONG)),
        Some(output_len) => PyBytes::new_with_query(ts, output_len),
    }
}

/// Encode a bytes-like object with the standard Base64 alphabet into the bytes
/// object that the interpreter made, whose memory is lent as `payload`.
pub fn standard_b64encode<'py>(
    ts: &mut ThreadState<'py>,
    _state: &Base64State,
    data: &PyBuffer<'py>,
    reply: usize,
    payload: &mut [u8],
) -> (r: PyResult<Bound<'py, PyBytes>>)
    requires
        reply == 0 ==> old(ts)@.pending is Some,
        reply != 0 ==> old(payload)@.len() == encoded_len(data@.len()),
    ensures
        final(ts)@ == old(ts)@,
        r is Ok <==> reply != 0,
        r matches Ok(b) ==> b.addr() == reply && final(payload)@ == encoded(data@),
{
    if reply != 0 {
        let input: &[u8] = data.as_bytes();
        let init = |t: &mut ThreadState<'py>, output: &mut [u8]| -> (out: PyResult<()>)
            requires
                output@.len() == encoded_len(input@.len()),
            ensures
                out is Ok,
                final(t)@ == old(t)@,
                final(output)@ == encoded(input@),
            {
                encode_into(input, output);
                Ok(())
            };
        PyBytes::new_with(ts, reply, payload, init)
    } else {
        PyBytes::new(ts, reply)
    }
}

/// The module's own exec function, which has nothing to do.
pub fn base64_exec<'py>(ts: &mut ThreadState<'py>, _module: &Borrowed<'_, 'py, PyModule>) -> (r:
    PyResult<()>)
    ensures
        r is Ok,
        final(ts)@ == old(ts)@,
{
    Ok(())
}

} // verus!
