use vstd::bytes::{
    lemma_auto_spec_u128_to_from_le_bytes, lemma_auto_spec_u64_to_from_le_bytes,
    spec_u128_from_le_bytes, spec_u128_to_le_bytes, spec_u64_from_le_bytes, spec_u64_to_le_bytes,
    u128_to_le_bytes, u64_to_le_bytes,
};
use vstd::prelude::*;

verus! {

/// The eight big-endian bytes of a 64-bit value.
pub open spec fn spec_u64_to_be_bytes(x: u64) -> Seq<u8> {
    spec_u64_to_le_bytes(x).reverse()
}

/// The sixteen big-endian bytes of a 128-bit value.
pub open spec fn spec_u128_to_be_bytes(x: u128) -> Seq<u8> {
    spec_u128_to_le_bytes(x).reverse()
}

pub fn u64_to_be_bytes(x: u64) -> (r: Vec<u8>)
    ensures
        r@ == spec_u64_to_be_bytes(x),
        r@.len() == 8,
{
    proof {
        lemma_auto_spec_u64_to_from_le_bytes();
    }
    let le = u64_to_le_bytes(x);
    let mut out: Vec<u8> = Vec::new();
    let mut i: usize = 0;
    while i < 8
        invariant
            le@ == spec_u64_to_le_bytes(x),
            le@.len() == 8,
            i <= 8,
            out@.len() == i,
            forall|k: int| 0 <= k < i ==> out@[k] == le@[7 - k],
        decreases 8 - i,
    {
        let b = le[7 - i];
        out.push(b);
        i = i + 1;
    }
    proof {
        assert(out@ =~= spec_u64_to_be_bytes(x));
    }
    out
}

pub fn u128_to_be_bytes(x: u128) -> (r: Vec<u8>)
    ensures
        r@ == spec_u128_to_be_bytes(x),
        r@.len() == 16,
{
    proof {
        lemma_auto_spec_u128_to_from_le_bytes();
    }
    let le = u128_to_le_bytes(x);
    let mut out: Vec<u8> = Vec::new();
    let mut i: usize = 0;
    while i < 16
        invariant
            le@ == spec_u128_to_le_bytes(x),
            le@.len() == 16,
            i <= 16,
            out@.len() == i,
            forall|k: int| 0 <= k < i ==> out@[k] == le@[15 - k],
        decreases 16 - i,
    {
        let b = le[15 - i];
        out.push(b);
        i = i + 1;
    }
    proof {
        assert(out@ =~= spec_u128_to_be_bytes(x));
    }
    out
}

/// Two distinct 64-bit values never share a big-endian encoding.
pub proof fn lemma_u64_be_bytes_injective(a: u64, b: u64)
    requires
        spec_u64_to_be_bytes(a) == spec_u64_to_be_bytes(b),
    ensures
        a == b,
{
    lemma_auto_spec_u64_to_from_le_bytes();
    let la = spec_u64_to_le_bytes(a);
    let lb = spec_u64_to_le_bytes(b);
    assert forall|k: int| 0 <= k < 8 implies la[k] == lb[k] by {
        assert(la.reverse()[7 - k] == la[k]);
        assert(lb.reverse()[7 - k] == lb[k]);
    }
    assert(la =~= lb);
    assert(spec_u64_from_le_bytes(la) == spec_u64_from_le_bytes(lb));
}

/// Two distinct 128-bit values never share a big-endian encoding.
pub proof fn lemma_u128_be_bytes_injective(a: u128, b: u128)
    requires
        spec_u128_to_be_bytes(a) == spec_u128_to_be_bytes(b),
    ensures
        a == b,
{
    lemma_auto_spec_u128_to_from_le_bytes();
    let la = spec_u128_to_le_bytes(a);
    let lb = spec_u128_to_le_bytes(b);
    assert forall|k: int| 0 <= k < 16 implies la[k] == lb[k] by {
        assert(la.reverse()[15 - k] == la[k]);
        assert(lb.reverse()[15 - k] == lb[k]);
    }
    assert(la =~= lb);
    assert(spec_u128_from_le_bytes(la) == spec_u128_from_le_bytes(lb));
}

} // verus!
