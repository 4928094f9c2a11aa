//! Instance layout of classes.

use vstd::arithmetic::div_mod::{lemma_fundamental_div_mod, lemma_mod_multiples_basic};
use vstd::prelude::*;

verus! {

/// Where the payload of an instance starts: at the first offset at or after the
/// object header that is aligned for it.
pub fn payload_offset(header: usize, align: usize) -> (r: usize)
    requires
        align > 0,
        header + align <= usize::MAX,
    ensures
        header <= r < header + align,
        r % align == 0,
{
    let over: usize = header % align;
    let ghost a = align as int;
    let ghost q = header as int / a;
    proof {
        lemma_fundamental_div_mod(header as int, a);
        assert(a * q >= 0) by (nonlinear_arith)
            requires
                a > 0,
                q == header as int / a,
                header >= 0,
        ;
    }
    if over == 0 {
        header
    } else {
        let off: usize = header - over + align;
        proof {
            assert(a * q + a == (q + 1) * a) by (nonlinear_arith);
            lemma_mod_multiples_basic(q + 1, a);
        }
        off
    }
}

} // verus!
