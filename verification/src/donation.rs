use crate::encode::{
    lemma_u128_be_bytes_injective, lemma_u64_be_bytes_injective, spec_u128_to_be_bytes,
    spec_u64_to_be_bytes, u128_to_be_bytes, u64_to_be_bytes,
};
use crate::ident::Ident;
use sha2::Digest;
use vstd::bytes::{lemma_auto_spec_u128_to_from_le_bytes, lemma_auto_spec_u64_to_from_le_bytes};
use vstd::prelude::*;

verus! {

/// The 32-byte digest of a byte sequence under the host's collision-resistant
/// 256-bit hash. Donation identifiers are content-derived: they are this
/// digest over a canonical preimage, nothing more is assumed of its value.
pub uninterp spec fn sha256_of(bytes: Seq<u8>) -> Seq<u8>;

/// Relies on `sha2::Sha256` (`Digest::digest`): the digest is a pure function
/// of the input bytes alone, and is exactly 32 bytes long.
#[verifier::external_body]
fn sha256(bytes: &Vec<u8>) -> (r: Vec<u8>)
    ensures
        r@ == sha256_of(bytes@),
        r@.len() == 32,
{
    sha2::Sha256::digest(bytes.as_slice()).to_vec()
}

/// Canonical donation preimage: the payer's serialization (8 bytes,
/// big-endian), the timestamp widened to 128 bits (16 bytes, big-endian),
/// the amount (16 bytes, big-endian), then the asset's serialization
/// (8 bytes, big-endian). Every field has a fixed width, so the
/// concatenation determines the fields.
pub open spec fn spec_donation_preimage(
    payer: Ident,
    timestamp: u64,
    amount: i128,
    asset: Ident,
) -> Seq<u8>
    recommends
        amount > 0,
{
    spec_u64_to_be_bytes(payer.id) + spec_u128_to_be_bytes(timestamp as u128)
        + spec_u128_to_be_bytes(amount as u128) + spec_u64_to_be_bytes(asset.id)
}

/// The donation identifier: the 256-bit digest of the canonical preimage.
pub open spec fn spec_donation_id(
    payer: Ident,
    timestamp: u64,
    amount: i128,
    asset: Ident,
) -> Seq<u8>
    recommends
        amount > 0,
{
    sha256_of(spec_donation_preimage(payer, timestamp, amount, asset))
}

/// Builds the canonical 48-byte preimage for a donation identifier.
pub fn donation_preimage(payer: Ident, timestamp: u64, amount: i128, asset: Ident) -> (r: Vec<
    u8,
>)
    requires
        amount > 0,
    ensures
        r@ == spec_donation_preimage(payer, timestamp, amount, asset),
        r@.len() == 48,
{
    proof {
        lemma_auto_spec_u64_to_from_le_bytes();
        lemma_auto_spec_u128_to_from_le_bytes();
    }
    let mut out = u64_to_be_bytes(payer.id);
    let mut ts = u128_to_be_bytes(timestamp as u128);
    out.append(&mut ts);
    let mut amt = u128_to_be_bytes(amount as u128);
    out.append(&mut amt);
    let mut ast = u64_to_be_bytes(asset.id);
    out.append(&mut ast);
    out
}

/// Derives the donation identifier for one tip: hash of the canonical
/// serialization of (payer, timestamp, amount, asset).
pub fn make_donation_id(payer: Ident, timestamp: u64, amount: i128, asset: Ident) -> (r: Vec<
    u8,
>)
    requires
        amount > 0,
    ensures
        r@ == spec_donation_id(payer, timestamp, amount, asset),
        r@.len() == 32,
{
    let preimage = donation_preimage(payer, timestamp, amount, asset);
    sha256(&preimage)
}

/// Donation-identifier determinism: two derivations over the same payer,
/// timestamp, amount and asset give the same identifier.
pub proof fn lemma_donation_id_deterministic(
    p1: Ident,
    t1: u64,
    a1: i128,
    s1: Ident,
    p2: Ident,
    t2: u64,
    a2: i128,
    s2: Ident,
)
    requires
        p1 == p2,
        t1 == t2,
        a1 == a2,
        s1 == s2,
    ensures
        spec_donation_id(p1, t1, a1, s1) == spec_donation_id(p2, t2, a2, s2),
{
}

/// Distinct donation inputs give distinct preimages: the canonical
/// serialization is injective, so identifiers of different donations can
/// collide only through the hash itself.
pub proof fn lemma_donation_preimage_injective(
    p1: Ident,
    t1: u64,
    a1: i128,
    s1: Ident,
    p2: Ident,
    t2: u64,
    a2: i128,
    s2: Ident,
)
    requires
        a1 > 0,
        a2 > 0,
        spec_donation_preimage(p1, t1, a1, s1) == spec_donation_preimage(p2, t2, a2, s2),
    ensures
        p1 == p2,
        t1 == t2,
        a1 == a2,
        s1 == s2,
{
    lemma_auto_spec_u64_to_from_le_bytes();
    lemma_auto_spec_u128_to_from_le_bytes();
    let x = spec_donation_preimage(p1, t1, a1, s1);
    let y = spec_donation_preimage(p2, t2, a2, s2);
    assert(spec_u64_to_be_bytes(p1.id) =~= x.subrange(0, 8));
    assert(spec_u128_to_be_bytes(t1 as u128) =~= x.subrange(8, 24));
    assert(spec_u128_to_be_bytes(a1 as u128) =~= x.subrange(24, 40));
    assert(spec_u64_to_be_bytes(s1.id) =~= x.subrange(40, 48));
    assert(spec_u64_to_be_bytes(p2.id) =~= y.subrange(0, 8));
    assert(spec_u128_to_be_bytes(t2 as u128) =~= y.subrange(8, 24));
    assert(spec_u128_to_be_bytes(a2 as u128) =~= y.subrange(24, 40));
    assert(spec_u64_to_be_bytes(s2.id) =~= y.subrange(40, 48));
    lemma_u64_be_bytes_injective(p1.id, p2.id);
    lemma_u128_be_bytes_injective(t1 as u128, t2 as u128);
    lemma_u128_be_bytes_injective(a1 as u128, a2 as u128);
    lemma_u64_be_bytes_injective(s1.id, s2.id);
}

} // verus!
