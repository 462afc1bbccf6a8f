//! Single-owner access control: set once, then transferable by the owner.
use vstd::prelude::*;

use crate::bytes::{all_zero, Address};
use crate::errors::Errors;

verus! {

/// Announces the account that now owns the contract.
#[derive(Clone, Copy, Debug, PartialEq, Eq)]
pub struct OwnershipTransferred {
    pub owner: Address,
}

pub struct Owned {
    owner: Address,
}

impl Owned {
    /// The owner's address; all zero until the contract is initialized.
    pub closed spec fn owner(&self) -> Seq<u8> {
        self.owner@
    }

    /// Whether `caller` passes the owner-only check.
    pub open spec fn is_owner(&self, caller: Seq<u8>) -> bool {
        !all_zero(self.owner()) && caller == self.owner()
    }

    /// Not yet initialized: no owner.
    pub fn new() -> (r: Owned)
        ensures
            all_zero(r.owner()),
            r.owner().len() == 20,
    {
        Owned { owner: Address::zero() }
    }

    /// Sets the first owner. Fails with `AlreadyInitialized` once an owner is
    /// set, and with `InvalidInitialize` for the zero address.
    pub fn initialize(&mut self, owner: Address) -> (r: Result<OwnershipTransferred, Errors>)
        ensures
            !all_zero(old(self).owner()) ==> r == Err::<OwnershipTransferred, Errors>(
                Errors::AlreadyInitialized,
            ),
            all_zero(old(self).owner()) && all_zero(owner@) ==> r == Err::<
                OwnershipTransferred,
                Errors,
            >(Errors::InvalidInitialize),
            r is Ok <==> all_zero(old(self).owner()) && !all_zero(owner@),
            r is Ok ==> final(self).owner() == owner@ && r.unwrap().owner == owner,
            r is Err ==> final(self).owner() == old(self).owner(),
    {
        if !self.owner.is_zero() {
            return Err(Errors::AlreadyInitialized);
        }
        if owner.is_zero() {
            return Err(Errors::InvalidInitialize);
        }
        self.owner = owner;
        Ok(OwnershipTransferred { owner })
    }

    pub fn get_owner(&self) -> (r: Address)
        ensures
            r@ == self.owner(),
    {
        self.owner
    }

    /// Succeeds exactly when `caller` is the (set) owner; else `Unauthorized`.
    pub fn only_owner(&self, caller: &Address) -> (r: Result<(), Errors>)
        ensures
            r is Ok <==> self.is_owner(caller@),
            r is Err ==> r == Err::<(), Errors>(Errors::Unauthorized),
    {
        if self.owner.is_zero() || !caller.same_as(&self.owner) {
            Err(Errors::Unauthorized)
        } else {
            Ok(())
        }
    }

    /// Hands the contract to `new_owner`. Only the owner may do so
    /// (`Unauthorized`), and never to the zero address (`InvalidInitialize`),
    /// so that the contract cannot fall back to its uninitialized state.
    pub fn transfer_ownership(&mut self, caller: &Address, new_owner: Address) -> (r: Result<
        OwnershipTransferred,
        Errors,
    >)
        ensures
            !old(self).is_owner(caller@) ==> r == Err::<OwnershipTransferred, Errors>(
                Errors::Unauthorized,
            ),
            old(self).is_owner(caller@) && all_zero(new_owner@) ==> r == Err::<
                OwnershipTransferred,
                Errors,
            >(Errors::InvalidInitialize),
            r is Ok <==> old(self).is_owner(caller@) && !all_zero(new_owner@),
            r is Ok ==> final(self).owner() == new_owner@ && r.unwrap().owner == new_owner,
            r is Err ==> final(self).owner() == old(self).owner(),
    {
        match self.only_owner(caller) {
            Ok(()) => {},
            Err(e) => return Err(e),
        }
        if new_owner.is_zero() {
            return Err(Errors::InvalidInitialize);
        }
        self.owner = new_owner;
        Ok(OwnershipTransferred { owner: new_owner })
    }
}

} // verus!
