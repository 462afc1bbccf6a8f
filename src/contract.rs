//! The content-consumption contract: platforms registered on the owner's
//! signature, and consumption pushed on the signature of an allowed
//! validator or of the platform's owner, each (user, platform) pair with its
//! own nonce against replay.
//!
//! The `deadline` of a signed message is covered by the signature but not
//! compared with chain time, as in the deployed contract.
use vstd::prelude::*;

use crate::bytes::{all_zero, append_bytes, be_value, keccak, keccak_of, word_modulus, Address, B256, U256};
use crate::consumption::{pair_key, pair_key_bytes, record_in, record_view, CcuPushed, UserConsumption};
use crate::eip712::{
    consumption_encoding, consumption_struct_hash, platform_encoding, platform_struct_hash,
    typed_digest, Eip712,
};
use crate::errors::Errors;
use crate::owned::{OwnershipTransferred, Owned};
use crate::platform::{
    create_outcome, metadata_in, registered_in, update_outcome, PlatformContract,
    PlatformMetadata, PlatformMetadataView, PlatformRegistered,
};
use crate::signature::PrecompileEcRecover;
use crate::store::ByteMap;

verus! {

/// The EIP-712 domain name of the contract.
pub const DOMAIN_NAME: &'static str = "ContentConsumption";

/// The EIP-712 domain version of the contract.
pub const DOMAIN_VERSION: &'static str = "0.0.1";

/// The key of a (user, platform) pair's nonce: the hash of the address
/// followed by the platform id.
pub open spec fn nonce_key(user: Seq<u8>, platform_id: Seq<u8>) -> Seq<u8> {
    keccak_of(user + platform_id)
}

/// The nonce stored under `key`, as its 32-byte word; zero if none is.
pub open spec fn nonce_word_in(nonces: Map<Seq<u8>, Seq<u8>>, key: Seq<u8>) -> Seq<u8> {
    if nonces.contains_key(key) {
        nonces[key]
    } else {
        Seq::new(32, |i: int| 0u8)
    }
}

/// Whether `a` is on the allow-list.
pub open spec fn is_validator_in(validators: Map<Seq<u8>, bool>, a: Seq<u8>) -> bool {
    validators.contains_key(a) && validators[a]
}

/// Whether `signer` may attest consumption on `platform_id`: it is an allowed
/// validator, or the platform's (non-zero) owner.
pub open spec fn authorized_in(
    validators: Map<Seq<u8>, bool>,
    platforms: Map<Seq<u8>, PlatformMetadataView>,
    platform_id: Seq<u8>,
    signer: Seq<u8>,
) -> bool {
    is_validator_in(validators, signer) || (registered_in(platforms, platform_id) && metadata_in(
        platforms,
        platform_id,
    ).owner == signer)
}

pub struct ContentConsumptionContract {
    user_consumptions: ByteMap<UserConsumption>,
    consumption_nonce: ByteMap<U256>,
    allowed_validators: ByteMap<bool>,
    platform: PlatformContract,
    eip712: Eip712,
    owned: Owned,
}

impl ContentConsumptionContract {
    pub closed spec fn wf(&self) -> bool {
        &&& self.user_consumptions.wf()
        &&& self.consumption_nonce.wf()
        &&& self.allowed_validators.wf()
        &&& self.platform.wf()
        &&& self.eip712.wf()
    }

    /// The contract owner; all zero before initialization.
    pub closed spec fn owner(&self) -> Seq<u8> {
        self.owned.owner()
    }

    /// Whether `caller` passes the owner-only check.
    pub open spec fn is_owner(&self, caller: Seq<u8>) -> bool {
        !all_zero(self.owner()) && caller == self.owner()
    }

    pub closed spec fn domain(&self) -> Eip712 {
        self.eip712
    }

    pub closed spec fn platforms(&self) -> Map<Seq<u8>, PlatformMetadataView> {
        self.platform.platforms()
    }

    /// Consumption records by pair key, as (total, last update time).
    pub closed spec fn records(&self) -> Map<Seq<u8>, (nat, u64)> {
        self.user_consumptions.view().map_values(|c: UserConsumption| record_view(c))
    }

    /// Nonces by nonce key, as 32-byte words.
    pub closed spec fn nonces(&self) -> Map<Seq<u8>, Seq<u8>> {
        self.consumption_nonce.view().map_values(|n: U256| n@)
    }

    pub closed spec fn validators(&self) -> Map<Seq<u8>, bool> {
        self.allowed_validators.view()
    }

    /// The domain separator that signatures are checked against on `chain_id`.
    pub open spec fn separator_on(&self, chain_id: u64) -> Seq<u8> {
        self.domain().separator_on(chain_id)
    }

    /// The current nonce word of a (user, platform) pair.
    pub open spec fn nonce_word(&self, user: Seq<u8>, platform_id: Seq<u8>) -> Seq<u8> {
        nonce_word_in(self.nonces(), nonce_key(user, platform_id))
    }

    /// Every nonce is a 32-byte word.
    pub proof fn lemma_nonce_word_len(&self, user: Seq<u8>, platform_id: Seq<u8>)
        ensures
            self.nonce_word(user, platform_id).len() == 32,
    {
    }

    /// The signer of a consumption attestation, checked against the pair's
    /// current nonce.
    pub open spec fn push_signer(
        &self,
        chain_id: u64,
        user: Seq<u8>,
        platform_id: Seq<u8>,
        added_consumption: Seq<u8>,
        deadline: Seq<u8>,
        v: u8,
        r: Seq<u8>,
        s: Seq<u8>,
    ) -> Option<Seq<u8>> {
        let struct_hash = keccak_of(
            consumption_encoding(
                user,
                platform_id,
                added_consumption,
                self.nonce_word(user, platform_id),
                deadline,
            ),
        );
        PrecompileEcRecover::recovered(typed_digest(self.separator_on(chain_id), struct_hash), v, r, s)
    }

    /// The signer of a platform registration.
    pub open spec fn register_signer(
        &self,
        chain_id: u64,
        name: Seq<char>,
        origin: Seq<char>,
        owner: Seq<u8>,
        deadline: Seq<u8>,
        v: u8,
        r: Seq<u8>,
        s: Seq<u8>,
    ) -> Option<Seq<u8>> {
        let struct_hash = keccak_of(platform_encoding(owner, name, origin, deadline));
        PrecompileEcRecover::recovered(typed_digest(self.separator_on(chain_id), struct_hash), v, r, s)
    }

    /// `post` holds what `self` holds, its domain-separator cache aside.
    pub open spec fn same_state(&self, post: &Self) -> bool {
        &&& post.owner() == self.owner()
        &&& post.domain().same_domain(&self.domain())
        &&& post.platforms() == self.platforms()
        &&& post.records() == self.records()
        &&& post.nonces() == self.nonces()
        &&& post.validators() == self.validators()
    }

    /// What a consumption push does: `pre` is the state before it, `post` the
    /// state after it, `res` its result.
    pub open spec fn push_ccu_post(
        pre: &Self,
        post: &Self,
        chain_id: u64,
        now: u64,
        user: Seq<u8>,
        platform_id: Seq<u8>,
        added_consumption: U256,
        deadline: Seq<u8>,
        v: u8,
        r: Seq<u8>,
        s: Seq<u8>,
        res: Result<CcuPushed, Errors>,
    ) -> bool {
        let key = nonce_key(user, platform_id);
        let pk = pair_key(user, platform_id);
        let total = record_in(pre.records(), pk).0 + added_consumption.value();
        match pre.push_signer(chain_id, user, platform_id, added_consumption@, deadline, v, r, s) {
            None => res == Err::<CcuPushed, Errors>(Errors::EcRecoverError) && pre.same_state(post),
            Some(a) => if !authorized_in(pre.validators(), pre.platforms(), platform_id, a) {
                res == Err::<CcuPushed, Errors>(Errors::InvalidPlatformSignature) && pre.same_state(
                    post,
                )
            } else {
                &&& res is Ok
                &&& res.unwrap().platform_id@ == platform_id
                &&& res.unwrap().user@ == user
                &&& res.unwrap().total_consumption.value() == total
                &&& post.owner() == pre.owner()
                &&& post.domain().same_domain(&pre.domain())
                &&& post.platforms() == pre.platforms()
                &&& post.validators() == if is_validator_in(pre.validators(), a) {
                    pre.validators()
                } else {
                    pre.validators().insert(a, true)
                }
                &&& post.nonces().contains_key(key)
                &&& post.nonces()[key].len() == 32
                &&& be_value(post.nonces()[key]) as int == (be_value(
                    nonce_word_in(pre.nonces(), key),
                ) + 1) as int % (word_modulus() as int)
                &&& post.nonces().remove(key) == pre.nonces().remove(key)
                &&& post.records() == pre.records().insert(pk, (total, now))
            },
        }
    }

    /// A contract deployed at `contract` on chain `chain_id`, not yet initialized.
    pub fn new(contract: Address, chain_id: u64) -> (r: ContentConsumptionContract)
        ensures
            r.wf(),
            all_zero(r.owner()),
            r.platforms() == Map::<Seq<u8>, PlatformMetadataView>::empty(),
            r.records() == Map::<Seq<u8>, (nat, u64)>::empty(),
            r.nonces() == Map::<Seq<u8>, Seq<u8>>::empty(),
            r.validators() == Map::<Seq<u8>, bool>::empty(),
            r.domain().verifying_contract() == contract@,
    {
        let r = ContentConsumptionContract {
            user_consumptions: ByteMap::new(),
            consumption_nonce: ByteMap::new(),
            allowed_validators: ByteMap::new(),
            platform: PlatformContract::new(),
            eip712: Eip712::new(DOMAIN_NAME, DOMAIN_VERSION, contract, chain_id),
            owned: Owned::new(),
        };
        assert(r.records() =~= Map::<Seq<u8>, (nat, u64)>::empty());
        assert(r.nonces() =~= Map::<Seq<u8>, Seq<u8>>::empty());
        r
    }

    /// The key under which a (user, platform) pair's nonce is stored.
    pub fn user_to_platform_nonce_key(user: &Address, platform_id: &B256) -> (r: B256)
        ensures
            r@ == nonce_key(user@, platform_id@),
    {
        let mut data: Vec<u8> = Vec::new();
        append_bytes(&mut data, &user.bytes);
        append_bytes(&mut data, &platform_id.bytes);
        B256 { bytes: keccak(data.as_slice()) }
    }

    /// Sets the owner, who also becomes an allowed validator, and caches the
    /// domain separator of `chain_id`. Fails as `Owned::initialize` does.
    pub fn initialize(&mut self, chain_id: u64, owner: Address) -> (r: Result<
        OwnershipTransferred,
        Errors,
    >)
        requires
            old(self).wf(),
        ensures
            final(self).wf(),
            !all_zero(old(self).owner()) ==> r == Err::<OwnershipTransferred, Errors>(
                Errors::AlreadyInitialized,
            ),
            all_zero(old(self).owner()) && all_zero(owner@) ==> r == Err::<
                OwnershipTransferred,
                Errors,
            >(Errors::InvalidInitialize),
            r is Ok <==> all_zero(old(self).owner()) && !all_zero(owner@),
            r is Ok ==> {
                &&& r.unwrap().owner == owner
                &&& final(self).owner() == owner@
                &&& final(self).validators() == old(self).validators().insert(owner@, true)
                &&& final(self).domain().cached_chain_id() == chain_id
                &&& final(self).domain().same_domain(&old(self).domain())
                &&& final(self).platforms() == old(self).platforms()
                &&& final(self).records() == old(self).records()
                &&& final(self).nonces() == old(self).nonces()
            },
            r is Err ==> old(self).same_state(final(self)),
    {
        let event = match self.owned.initialize(owner) {
            Ok(ev) => ev,
            Err(e) => return Err(e),
        };
        self.eip712.initialize(chain_id);
        self.allowed_validators.insert(&owner.bytes, true);
        Ok(event)
    }

    /// The current nonce of a (user, platform) pair.
    pub fn get_nonce_for_platform(&self, user: &Address, platform_id: &B256) -> (r: U256)
        requires
            self.wf(),
        ensures
            r@ == self.nonce_word(user@, platform_id@),
    {
        let key = Self::user_to_platform_nonce_key(user, platform_id);
        self.nonce_of(&key)
    }

    fn nonce_of(&self, key: &B256) -> (r: U256)
        requires
            self.wf(),
        ensures
            r@ == nonce_word_in(self.nonces(), key@),
    {
        match self.consumption_nonce.get(&key.bytes) {
            Some(n) => *n,
            None => {
                let z = U256::zero();
                assert(z@ =~= Seq::new(32, |i: int| 0u8));
                z
            },
        }
    }

    fn is_allowed_validator(&self, a: &Address) -> (r: bool)
        requires
            self.wf(),
        ensures
            r == is_validator_in(self.validators(), a@),
    {
        match self.allowed_validators.get(&a.bytes) {
            Some(b) => *b,
            None => false,
        }
    }

    /// Adds `added_consumption` to `user`'s total on `platform_id`, on the
    /// signature `(v, r, s)` of the typed message
    /// `ValidateConsumption{user, platformId, addedConsumption, nonce, deadline}`
    /// where `nonce` is the pair's current nonce.
    ///
    /// The signer must be an allowed validator or the platform's owner; an
    /// owner accepted this way joins the allow-list. On success the pair's
    /// nonce moves on by one and its record takes the new total and `now`.
    /// Fails with `EcRecoverError` where no signer can be recovered and with
    /// `InvalidPlatformSignature` where the signer is not authorized, leaving
    /// the state as it was.
    pub fn push_ccu(
        &mut self,
        chain_id: u64,
        now: u64,
        user: &Address,
        platform_id: &B256,
        added_consumption: &U256,
        deadline: &U256,
        v: u8,
        r: &B256,
        s: &B256,
    ) -> (res: Result<CcuPushed, Errors>)
        requires
            old(self).wf(),
            record_in(old(self).records(), pair_key(user@, platform_id@)).0
                + added_consumption.value() < word_modulus(),
        ensures
            final(self).wf(),
            final(self).domain().cached_chain_id() == chain_id,
            Self::push_ccu_post(
                old(self),
                final(self),
                chain_id,
                now,
                user@,
                platform_id@,
                *added_consumption,
                deadline@,
                v,
                r@,
                s@,
                res,
            ),
    {
        let nonce_key = Self::user_to_platform_nonce_key(user, platform_id);
        let current_nonce = self.nonce_of(&nonce_key);
        let struct_hash = consumption_struct_hash(
            user,
            platform_id,
            added_consumption,
            &current_nonce,
            deadline,
        );
        let recovered = match self.eip712.recover_typed_data_signer(chain_id, &struct_hash, v, r, s) {
            Ok(a) => a,
            Err(e) => return Err(e),
        };
        if !self.is_allowed_validator(&recovered) {
            let platform_owner = self.platform.get_platform_owner(platform_id);
            if platform_owner.is_zero() || !platform_owner.same_as(&recovered) {
                return Err(Errors::InvalidPlatformSignature);
            }
            self.allowed_validators.insert(&platform_owner.bytes, true);
        }
        let next_nonce = current_nonce.wrapping_add(&U256::one());
        self.consumption_nonce.insert(&nonce_key.bytes, next_nonce);
        let key = pair_key_bytes(user, platform_id);
        let last_ccu = match self.user_consumptions.get(key.as_slice()) {
            Some(c) => c.ccu,
            None => U256::zero(),
        };
        let total = last_ccu.checked_add(added_consumption).unwrap();
        let updated = UserConsumption { ccu: total, update_timestamp: now };
        self.user_consumptions.insert(key.as_slice(), updated);
        proof {
            assert(self.records() =~= old(self).records().insert(key@, record_view(updated)));
            assert(self.nonces().remove(nonce_key@) =~= old(self).nonces().remove(nonce_key@));
        }
        Ok(CcuPushed { platform_id: *platform_id, user: *user, total_consumption: total })
    }

    /// Sets whether `validator` is allowed; only the owner may.
    pub fn set_allowed_validator(&mut self, caller: &Address, validator: &Address, allowed: bool) -> (r:
        Result<(), Errors>)
        requires
            old(self).wf(),
        ensures
            final(self).wf(),
            r is Ok <==> old(self).is_owner(caller@),
            r is Ok ==> final(self).validators() == old(self).validators().insert(
                validator@,
                allowed,
            ) && final(self).owner() == old(self).owner() && final(self).platforms() == old(self).platforms() && final(self).records() == old(self).records() && final(self).nonces()
                == old(self).nonces(),
            r is Err ==> r == Err::<(), Errors>(Errors::Unauthorized) && *final(self) == *old(self),
    {
        match self.owned.only_owner(caller) {
            Ok(()) => {},
            Err(e) => return Err(e),
        }
        self.allowed_validators.insert(&validator.bytes, allowed);
        Ok(())
    }

    /// Registers a platform on the contract owner's signature `(v, r, s)` of
    /// `CreateNewPlatform{owner, name, origin, deadline}`. Fails with
    /// `EcRecoverError` where no signer can be recovered, with `Unauthorized`
    /// where the signer is not the (set) contract owner, and otherwise as
    /// `PlatformContract::create_platform` does.
    pub fn register_platform(
        &mut self,
        chain_id: u64,
        name: String,
        origin: String,
        owner: Address,
        content_type: [u8; 4],
        deadline: &U256,
        v: u8,
        r: &B256,
        s: &B256,
    ) -> (res: Result<PlatformRegistered, Errors>)
        requires
            old(self).wf(),
        ensures
            final(self).wf(),
            final(self).domain().cached_chain_id() == chain_id,
            final(self).owner() == old(self).owner(),
            final(self).domain().same_domain(&old(self).domain()),
            final(self).records() == old(self).records(),
            final(self).nonces() == old(self).nonces(),
            final(self).validators() == old(self).validators(),
            match old(self).register_signer(chain_id, name@, origin@, owner@, deadline@, v, r@, s@) {
                None => res == Err::<PlatformRegistered, Errors>(Errors::EcRecoverError)
                    && final(self).platforms() == old(self).platforms(),
                Some(a) => if !old(self).is_owner(a) {
                    res == Err::<PlatformRegistered, Errors>(Errors::Unauthorized) && final(self).platforms() == old(self).platforms()
                } else {
                    match create_outcome(old(self).platforms(), name@, origin@, owner@, content_type@) {
                        Ok(m) => res is Ok && final(self).platforms() == m && res.unwrap().owner
                            == owner && res.unwrap().content_type == content_type
                            && res.unwrap().platform_id@ == crate::platform::platform_id_of(
                            origin@,
                        ),
                        Err(e) => res == Err::<PlatformRegistered, Errors>(e) && final(self).platforms() == old(self).platforms(),
                    }
                },
            },
    {
        let struct_hash = platform_struct_hash(&owner, name.as_str(), origin.as_str(), deadline);
        let recovered = match self.eip712.recover_typed_data_signer(chain_id, &struct_hash, v, r, s) {
            Ok(a) => a,
            Err(e) => return Err(e),
        };
        let contract_owner = self.owned.get_owner();
        if recovered.is_zero() || !recovered.same_as(&contract_owner) {
            return Err(Errors::Unauthorized);
        }
        self.platform.create_platform(name, origin, owner, content_type)
    }

    /// The user's (total, last update time) on the platform; zeros if never pushed.
    pub fn get_user_consumption(&self, user: &Address, platform_id: &B256) -> (r: Result<
        (U256, u64),
        Errors,
    >)
        requires
            self.wf(),
        ensures
            r is Ok,
            (r.unwrap().0.value(), r.unwrap().1) == record_in(
                self.records(),
                pair_key(user@, platform_id@),
            ),
    {
        let key = pair_key_bytes(user, platform_id);
        match self.user_consumptions.get(key.as_slice()) {
            Some(c) => Ok((c.ccu, c.update_timestamp)),
            None => Ok((U256::zero(), 0)),
        }
    }

    /// Hands the contract to `new_owner`; see `Owned::transfer_ownership`.
    pub fn transfer_ownership(&mut self, caller: &Address, new_owner: Address) -> (r: Result<
        OwnershipTransferred,
        Errors,
    >)
        requires
            old(self).wf(),
        ensures
            final(self).wf(),
            r is Ok <==> old(self).is_owner(caller@) && !all_zero(new_owner@),
            r is Ok ==> final(self).owner() == new_owner@,
            r is Err ==> final(self).owner() == old(self).owner(),
            final(self).platforms() == old(self).platforms(),
            final(self).validators() == old(self).validators(),
    {
        self.owned.transfer_ownership(caller, new_owner)
    }

    /// Lets a platform's owner rename it and name its owner; see
    /// `PlatformContract::update_metadata`.
    pub fn update_platform_metadata(
        &mut self,
        caller: &Address,
        platform_id: &B256,
        name: String,
        owner: Address,
    ) -> (r: Result<(), Errors>)
        requires
            old(self).wf(),
        ensures
            final(self).wf(),
            match update_outcome(old(self).platforms(), caller@, platform_id@, name@, owner@) {
                Ok(m) => r is Ok && final(self).platforms() == m,
                Err(e) => r == Err::<(), Errors>(e) && final(self).platforms() == old(self).platforms(),
            },
            final(self).owner() == old(self).owner(),
            final(self).validators() == old(self).validators(),
    {
        self.platform.update_metadata(caller, platform_id, name, owner)
    }

    /// Everything stored for a platform; the empty record where none is registered.
    pub fn get_platform_metadata(&self, platform_id: &B256) -> (r: Result<PlatformMetadata, Errors>)
        requires
            self.wf(),
        ensures
            r is Ok,
            r.unwrap()@ == metadata_in(self.platforms(), platform_id@),
    {
        self.platform.get_platform_metadata(platform_id)
    }

    /// The platform's owner; the zero address where none is registered.
    pub fn get_platform_owner(&self, platform_id: &B256) -> (r: Address)
        requires
            self.wf(),
        ensures
            r@ == metadata_in(self.platforms(), platform_id@).owner,
    {
        self.platform.get_platform_owner(platform_id)
    }

    pub fn get_owner(&self) -> (r: Address)
        ensures
            r@ == self.owner(),
    {
        self.owned.get_owner()
    }

    /// The domain separator on `chain_id`, built from scratch; the cache is
    /// left alone.
    pub fn domain_separator(&self, chain_id: u64) -> (r: Result<B256, Errors>)
        ensures
            r is Ok,
            r.unwrap()@ == self.separator_on(chain_id),
    {
        self.eip712.read_domain_separator(chain_id)
    }
}

} // verus!
