use vstd::prelude::*;

verus! {

/// Failure taxonomy. Every error aborts the whole operation: a function that
/// returns `Err` leaves the profile state exactly as it found it.
#[derive(Clone, Copy, PartialEq, Eq, Structural, Debug)]
pub enum Error {
    /// Fee rate above 10000 basis points, or a computed fee outside
    /// `0 ..= amount`.
    BadFee,
    /// Donation amount not strictly positive.
    ZeroAmount,
    /// Asset absent from the whitelist, whitelist empty at initialization,
    /// or removal target absent.
    AssetNotAllowed,
    /// Added asset is already a whitelist member.
    AssetAlreadyExists,
    /// Second initialization of the same instance.
    AlreadyInitialized,
    /// Read or mutation before the profile was initialized.
    NotInitialized,
    /// Caller is not the identity the operation requires authorization from.
    NotAuthorized,
}

} // verus!
