//! NUL-terminated strings as plain bytes.

use vstd::prelude::*;
use vstd::utf8::*;

verus! {

/// Whether `bytes` ends in a NUL and holds no other.
pub open spec fn is_c_string(bytes: Seq<u8>) -> bool {
    &&& bytes.len() > 0
    &&& bytes.last() == 0
    &&& forall|i: int| 0 <= i < bytes.len() - 1 ==> bytes[i] != 0
}

/// The bytes of a C string, without the NUL that ends it.
#[derive(Debug)]
pub struct CStr {
    bytes: Vec<u8>,
}

impl View for CStr {
    type V = Seq<u8>;

    closed spec fn view(&self) -> Seq<u8> {
        self.bytes@
    }
}

/// Read `bytes` as UTF-8 with `std::str::from_utf8`: the text that they
/// encode, or `None` where they are not valid UTF-8.
#[verifier::external_body]
fn utf8_text(bytes: &[u8]) -> (r: Option<String>)
    ensures
        r is Some <==> valid_utf8(bytes@),
        r matches Some(s) ==> s@ == decode_utf8(bytes@),
{
    match std::str::from_utf8(bytes) {
        Ok(s) => Some(s.to_owned()),
        Err(_) => None,
    }
}

impl CStr {
    #[verifier::type_invariant]
    spec fn no_nul(self) -> bool {
        forall|i: int| 0 <= i < self.bytes@.len() ==> self.bytes@[i] != 0
    }

    /// Take the bytes of a C string, or `None` where the NUL that ends it is
    /// missing or another one comes before it.
    pub fn from_bytes_with_nul(bytes: &[u8]) -> (r: Option<CStr>)
        ensures
            r is Some <==> is_c_string(bytes@),
            r matches Some(c) ==> c@ == bytes@.drop_last(),
    {
        let n: usize = bytes.len();
        if n == 0 || bytes[n - 1] != 0 {
            return None;
        }
        let mut out: Vec<u8> = Vec::new();
        let mut i: usize = 0;
        while i < n - 1
            invariant
                n == bytes@.len(),
                0 < n,
                i <= n - 1,
                out@ == bytes@.take(i as int),
                forall|k: int| 0 <= k < i ==> bytes@[k] != 0,
            decreases n - i,
        {
            if bytes[i] == 0 {
                return None;
            }
            out.push(bytes[i]);
            assert(bytes@.take(i + 1) =~= bytes@.take(i as int).push(bytes@[i as int]));
            i = i + 1;
        }
        assert(bytes@.take(i as int) =~= bytes@.drop_last());
        Some(CStr { bytes: out })
    }

    /// The bytes, without the NUL.
    pub fn to_bytes(&self) -> (r: &[u8])
        ensures
            r@ == self@,
            forall|i: int| 0 <= i < r@.len() ==> r@[i] != 0,
    {
        proof {
            use_type_invariant(self);
        }
        self.bytes.as_slice()
    }

    /// The text that the bytes encode, or `None` where they are not UTF-8.
    pub fn to_str(&self) -> (r: Option<String>)
        ensures
            r is Some <==> valid_utf8(self@),
            r matches Some(s) ==> s@ == decode_utf8(self@),
    {
        utf8_text(self.bytes.as_slice())
    }
}

/// Build a C string from a byte string that is known to be one.
pub fn const_cstr(bytes: &[u8]) -> (r: CStr)
    requires
        is_c_string(bytes@),
    ensures
        r@ == bytes@.drop_last(),
{
    CStr::from_bytes_with_nul(bytes).unwrap()
}

} // verus!
