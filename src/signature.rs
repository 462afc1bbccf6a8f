//! Recovery of the account that signed a 32-byte digest.
use vstd::prelude::*;

use crate::bytes::{Address, B256};
use crate::errors::Errors;

verus! {

/// The address that secp256k1 public-key recovery yields for a prehashed
/// digest, a y-parity and the signature scalars `r` and `s`; `None` where
/// recovery fails.
pub uninterp spec fn ecrecover_of(digest: Seq<u8>, odd_y: bool, r: Seq<u8>, s: Seq<u8>) -> Option<
    Seq<u8>,
>;

/// Relies on `alloy_primitives::Signature::from_scalars_and_parity` and
/// `Signature::recover_address_from_prehash`: build the signature from its
/// scalars and parity, then recover the signer's address from the digest.
#[verifier::external_body]
fn recover_from_prehash(digest: &[u8; 32], odd_y: bool, r: &[u8; 32], s: &[u8; 32]) -> (res:
    Option<[u8; 20]>)
    ensures
        match res {
            Some(a) => ecrecover_of(digest@, odd_y, r@, s@) == Some(a@),
            None => ecrecover_of(digest@, odd_y, r@, s@).is_none(),
        },
{
    let sig = match alloy_primitives::Signature::from_scalars_and_parity(
        alloy_primitives::B256::from(*r),
        alloy_primitives::B256::from(*s),
        odd_y,
    ) {
        Ok(sig) => sig,
        Err(_) => return None,
    };
    match sig.recover_address_from_prehash(&alloy_primitives::B256::from(*digest)) {
        Ok(a) => Some(a.0.0),
        Err(_) => None,
    }
}

/// Signature recovery as the chain's `ecrecover` primitive offers it.
pub struct PrecompileEcRecover;

impl PrecompileEcRecover {
    /// The y-parity that a recovery id stands for: 0 and 27 for even, 1 and
    /// 28 for odd; any other value is malformed.
    pub open spec fn parity_of(v: u8) -> Option<bool> {
        if v == 0 || v == 27 {
            Some(false)
        } else if v == 1 || v == 28 {
            Some(true)
        } else {
            None
        }
    }

    /// The signer of `digest` under `(v, r, s)`, if there is one.
    pub open spec fn recovered(digest: Seq<u8>, v: u8, r: Seq<u8>, s: Seq<u8>) -> Option<Seq<u8>> {
        match Self::parity_of(v) {
            Some(odd_y) => ecrecover_of(digest, odd_y, r, s),
            None => None,
        }
    }

    /// Recovers the address that signed `digest`; fails with `EcRecoverError`
    /// on a malformed recovery id or where recovery fails.
    pub fn ecrecover(digest: &B256, v: u8, r: &B256, s: &B256) -> (res: Result<Address, Errors>)
        ensures
            match res {
                Ok(a) => Self::recovered(digest@, v, r@, s@) == Some(a@),
                Err(e) => e == Errors::EcRecoverError && Self::recovered(
                    digest@,
                    v,
                    r@,
                    s@,
                ).is_none(),
            },
    {
        let odd_y = if v == 0 || v == 27 {
            false
        } else if v == 1 || v == 28 {
            true
        } else {
            return Err(Errors::EcRecoverError);
        };
        match recover_from_prehash(&digest.bytes, odd_y, &r.bytes, &s.bytes) {
            Some(bytes) => Ok(Address { bytes }),
            None => Err(Errors::EcRecoverError),
        }
    }
}

} // verus!
