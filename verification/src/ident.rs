use vstd::prelude::*;

verus! {

/// A participant or asset identifier.
///
/// The host ledger addresses participants and asset contracts by opaque
/// addresses; the core only ever compares them for equality and feeds their
/// canonical serialization into the donation-identifier digest. Both uses are
/// captured by a plain integer key: equality is key equality, and the
/// canonical serialization is the key's eight big-endian bytes.
#[derive(Clone, Copy, PartialEq, Eq, Structural, Debug)]
pub struct Ident {
    pub id: u64,
}

impl Ident {
    pub fn new(id: u64) -> (r: Ident)
        ensures
            r.id == id,
    {
        Ident { id }
    }
}

} // verus!
