//! The failures of the contract's operations. Each aborts the whole call,
//! leaving the state as it was.
use vstd::prelude::*;

verus! {

#[derive(Clone, Copy, Debug, PartialEq, Eq, Structural)]
pub enum Errors {
    /// The caller (or signer) lacks the privilege the operation needs.
    Unauthorized,
    /// The contract already has an owner.
    AlreadyInitialized,
    /// The zero address was offered as owner.
    InvalidInitialize,
    /// The signature is malformed or the signer could not be recovered.
    EcRecoverError,
    /// The caller does not own the platform.
    NotPlatformOwner,
    /// A platform with that origin is already registered.
    PlatformAlreadyExists,
    /// No platform is registered under that id.
    PlatformDoesNotExist,
    /// An empty name or a zero owner address.
    InvalidMetadata,
    /// The recovered signer does not satisfy the authorization policy.
    InvalidPlatformSignature,
    /// The same (user, platform) pair was updated less than a minute ago.
    TooFrequentUpdate,
}

} // verus!
