//! Fixed-width integer codecs: big-endian byte order for the 32-bit kind
//! that the wire carries most-significant byte first. The little-endian
//! codecs come from `vstd::bytes`.
use vstd::prelude::*;
use vstd::bytes::*;

verus! {

/// The four big-endian bytes of a 32-bit integer.
pub open spec fn spec_u32_to_be_bytes(x: u32) -> Seq<u8> {
    spec_u32_to_le_bytes(x).reverse()
}

/// The 32-bit integer read from four big-endian bytes.
pub open spec fn spec_u32_from_be_bytes(s: Seq<u8>) -> u32
    recommends
        s.len() == 4,
{
    spec_u32_from_le_bytes(s.reverse())
}

/// Writing a 32-bit integer big-endian and reading the bytes back is the
/// identity, and the encoding is four bytes long.
pub proof fn lemma_u32_be_round_trip(x: u32)
    ensures
        spec_u32_to_be_bytes(x).len() == 4,
        spec_u32_from_be_bytes(spec_u32_to_be_bytes(x)) == x,
{
    lemma_auto_spec_u32_to_from_le_bytes();
    assert(spec_u32_to_le_bytes(x).reverse().reverse() =~= spec_u32_to_le_bytes(x));
}

/// Emits the four bytes of `x`, most significant first.
pub fn u32_to_be_bytes(x: u32) -> (s: Vec<u8>)
    ensures
        s@ == spec_u32_to_be_bytes(x),
        s@.len() == 4,
{
    proof {
        lemma_auto_spec_u32_to_from_le_bytes();
    }
    let le = u32_to_le_bytes(x);
    let mut s: Vec<u8> = Vec::new();
    s.push(le[3]);
    s.push(le[2]);
    s.push(le[1]);
    s.push(le[0]);
    proof {
        assert(s@ =~= spec_u32_to_le_bytes(x).reverse());
    }
    s
}

/// Reads a 32-bit integer from four bytes, most significant first.
pub fn u32_from_be_bytes(s: &[u8]) -> (x: u32)
    requires
        s@.len() == 4,
    ensures
        x == spec_u32_from_be_bytes(s@),
{
    let mut le: Vec<u8> = Vec::new();
    le.push(s[3]);
    le.push(s[2]);
    le.push(s[1]);
    le.push(s[0]);
    proof {
        assert(le@ =~= s@.reverse());
    }
    u32_from_le_bytes(le.as_slice())
}

} // verus!
