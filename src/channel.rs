//! The single-tenant channel variant: consumption that the caller pushes for
//! itself, on the signature of a validator that an outside content registry
//! vouches for, with a running total over all users.
//!
//! Asking the registry is a call to another contract, which the host makes:
//! `registry_call` says what to send, and `push_ccu` takes the raw reply
//! (`None` where the call failed or reverted).
//!
//! As in the other contract, the signed `deadline` is not compared with
//! chain time.
use vstd::prelude::*;
use vstd::string::StringSliceAdditionalSpecFns;

use crate::bytes::{
    address_word, all_zero, append_address_word, append_bytes, bytes_all_zero, keccak, keccak_of,
    word_modulus, Address, B256, U256,
};
use crate::consumption::{pair_key, pair_key_bytes, record_in, record_view, CcuPushed, UserConsumption};
use crate::eip712::{hash_str, typed_digest, Eip712};
use crate::errors::Errors;
use crate::owned::{OwnershipTransferred, Owned};
use crate::signature::PrecompileEcRecover;
use crate::store::ByteMap;

verus! {

/// The EIP-712 domain name of the channel contract.
pub const CHANNEL_DOMAIN_NAME: &'static str = "ChannelConsumption";

/// The EIP-712 domain version of the channel contract.
pub const CHANNEL_DOMAIN_VERSION: &'static str = "0.0.1";

pub const VALIDATE_CHANNEL_CONSUMPTION_TYPE: &'static str =
    "ValidateConsumption(address user,bytes32 channelId,uint256 addedConsumption,uint256 deadline)";

/// The registry's query: is `caller` authorized for content `contentId`?
pub const IS_AUTHORIZED_SIGNATURE: &'static str = "isAuthorized(uint256,address)";

/// The bytes hashed for a channel `ValidateConsumption` struct hash.
pub open spec fn channel_encoding(
    user: Seq<u8>,
    channel_id: Seq<u8>,
    added_consumption: Seq<u8>,
    deadline: Seq<u8>,
) -> Seq<u8> {
    keccak_of(VALIDATE_CHANNEL_CONSUMPTION_TYPE.spec_bytes()) + address_word(user) + channel_id
        + added_consumption + deadline
}

/// The call data of `isAuthorized(content_id, caller)`: the function
/// selector, then the two arguments as words.
pub open spec fn is_authorized_calldata(content_id: Seq<u8>, caller: Seq<u8>) -> Seq<u8> {
    keccak_of(IS_AUTHORIZED_SIGNATURE.spec_bytes()).subrange(0, 4) + content_id + address_word(caller)
}

/// Whether the registry's reply reads as `true`: a returned word that is
/// not zero. A failed call, or a reply shorter than a word, reads as no.
pub open spec fn registry_approves(reply: Option<Seq<u8>>) -> bool {
    match reply {
        Some(data) => data.len() >= 32 && !all_zero(data.subrange(0, 32)),
        None => false,
    }
}

/// A static call that the host is to make.
pub struct RegistryCall {
    /// The contract to call.
    pub target: Address,
    /// What to send it.
    pub calldata: Vec<u8>,
}

/// The struct hash of a channel `ValidateConsumption{user, channelId, addedConsumption, deadline}`.
pub fn channel_struct_hash(user: &Address, channel_id: &B256, added_consumption: &U256, deadline: &U256) -> (r:
    B256)
    ensures
        r@ == keccak_of(channel_encoding(user@, channel_id@, added_consumption@, deadline@)),
{
    let type_hash = hash_str(VALIDATE_CHANNEL_CONSUMPTION_TYPE);
    let mut data: Vec<u8> = Vec::new();
    append_bytes(&mut data, &type_hash.bytes);
    append_address_word(&mut data, user);
    append_bytes(&mut data, &channel_id.bytes);
    append_bytes(&mut data, &added_consumption.bytes);
    append_bytes(&mut data, &deadline.bytes);
    proof {
        assert(type_hash@ == keccak_of(VALIDATE_CHANNEL_CONSUMPTION_TYPE.spec_bytes()));
        assert(data@ =~= channel_encoding(user@, channel_id@, added_consumption@, deadline@));
    }
    B256 { bytes: keccak(data.as_slice()) }
}

/// Builds the call data of `isAuthorized(content_id, caller)`.
pub fn encode_is_authorized(content_id: &U256, caller: &Address) -> (r: Vec<u8>)
    ensures
        r@ == is_authorized_calldata(content_id@, caller@),
{
    let selector = hash_str(IS_AUTHORIZED_SIGNATURE);
    let mut data: Vec<u8> = Vec::new();
    let mut i: usize = 0;
    while i < 4
        invariant
            0 <= i <= 4,
            data@ == selector@.subrange(0, i as int),
        decreases 4 - i,
    {
        data.push(selector.bytes[i]);
        i = i + 1;
        assert(selector@.subrange(0, i as int) =~= selector@.subrange(0, (i - 1) as int).push(
            selector@[i - 1],
        ));
    }
    append_bytes(&mut data, &content_id.bytes);
    append_address_word(&mut data, caller);
    assert(data@ =~= is_authorized_calldata(content_id@, caller@));
    data
}

/// Reads the registry's reply as the boolean it returns.
pub fn decode_registry_reply(reply: Option<&[u8]>) -> (r: bool)
    ensures
        r == registry_approves(
            match reply {
                Some(d) => Some(d@),
                None => None,
            },
        ),
{
    match reply {
        Some(data) => {
            if data.len() < 32 {
                return false;
            }
            let mut word: Vec<u8> = Vec::new();
            let mut i: usize = 0;
            while i < 32
                invariant
                    0 <= i <= 32,
                    data@.len() >= 32,
                    word@ == data@.subrange(0, i as int),
                decreases 32 - i,
            {
                word.push(data[i]);
                i = i + 1;
                assert(data@.subrange(0, i as int) =~= data@.subrange(0, (i - 1) as int).push(
                    data@[i - 1],
                ));
            }
            !bytes_all_zero(word.as_slice())
        },
        None => false,
    }
}

pub struct ChannelConsumptionContract {
    user_consumptions: ByteMap<UserConsumption>,
    frak_content_id: U256,
    content_registry: Address,
    total_consumption: U256,
    owned: Owned,
    eip712: Eip712,
}

impl ChannelConsumptionContract {
    pub closed spec fn wf(&self) -> bool {
        &&& self.user_consumptions.wf()
        &&& self.eip712.wf()
    }

    pub closed spec fn owner(&self) -> Seq<u8> {
        self.owned.owner()
    }

    pub closed spec fn domain(&self) -> Eip712 {
        self.eip712
    }

    /// The content id that validators must be authorized for.
    pub closed spec fn content_id(&self) -> Seq<u8> {
        self.frak_content_id@
    }

    /// The registry contract that is asked.
    pub closed spec fn registry(&self) -> Seq<u8> {
        self.content_registry@
    }

    /// Records by pair key, as (total, last update time).
    pub closed spec fn records(&self) -> Map<Seq<u8>, (nat, u64)> {
        self.user_consumptions.view().map_values(|c: UserConsumption| record_view(c))
    }

    /// The sum of every accepted push.
    pub closed spec fn total(&self) -> nat {
        self.total_consumption.value()
    }

    pub open spec fn separator_on(&self, chain_id: u64) -> Seq<u8> {
        self.domain().separator_on(chain_id)
    }

    /// The validator that signed a push.
    pub open spec fn push_signer(
        &self,
        chain_id: u64,
        user: Seq<u8>,
        channel_id: Seq<u8>,
        added_consumption: Seq<u8>,
        deadline: Seq<u8>,
        v: u8,
        r: Seq<u8>,
        s: Seq<u8>,
    ) -> Option<Seq<u8>> {
        let struct_hash = keccak_of(channel_encoding(user, channel_id, added_consumption, deadline));
        PrecompileEcRecover::recovered(typed_digest(self.separator_on(chain_id), struct_hash), v, r, s)
    }

    /// `post` holds what `self` holds, the domain-separator cache aside.
    pub open spec fn same_state(&self, post: &Self) -> bool {
        &&& post.owner() == self.owner()
        &&& post.domain().same_domain(&self.domain())
        &&& post.content_id() == self.content_id()
        &&& post.registry() == self.registry()
        &&& post.records() == self.records()
        &&& post.total() == self.total()
    }

    /// A channel contract deployed at `contract` on chain `chain_id`, not yet initialized.
    pub fn new(contract: Address, chain_id: u64) -> (r: ChannelConsumptionContract)
        ensures
            r.wf(),
            all_zero(r.owner()),
            r.records() == Map::<Seq<u8>, (nat, u64)>::empty(),
            r.total() == 0,
            r.domain().verifying_contract() == contract@,
    {
        let r = ChannelConsumptionContract {
            user_consumptions: ByteMap::new(),
            frak_content_id: U256::zero(),
            content_registry: Address::zero(),
            total_consumption: U256::zero(),
            owned: Owned::new(),
            eip712: Eip712::new(CHANNEL_DOMAIN_NAME, CHANNEL_DOMAIN_VERSION, contract, chain_id),
        };
        assert(r.records() =~= Map::<Seq<u8>, (nat, u64)>::empty());
        r
    }

    /// Sets the owner, the content id and the registry, once. Fails with
    /// `AlreadyInitialized` once an owner is set and with
    /// `InvalidInitialize` for the zero address.
    pub fn initialize(
        &mut self,
        owner: Address,
        frak_content_id: U256,
        content_registry: Address,
    ) -> (r: Result<OwnershipTransferred, Errors>)
        requires
            old(self).wf(),
        ensures
            final(self).wf(),
            !all_zero(old(self).owner()) ==> r == Err::<OwnershipTransferred, Errors>(
                Errors::AlreadyInitialized,
            ),
            all_zero(old(self).owner()) && all_zero(owner@) ==> r == Err::<
                OwnershipTransferred,
                Errors,
            >(Errors::InvalidInitialize),
            r is Ok <==> all_zero(old(self).owner()) && !all_zero(owner@),
            r is Ok ==> {
                &&& final(self).owner() == owner@
                &&& final(self).content_id() == frak_content_id@
                &&& final(self).registry() == content_registry@
                &&& final(self).records() == old(self).records()
                &&& final(self).total() == old(self).total()
                &&& final(self).domain() == old(self).domain()
            },
            r is Err ==> old(self).same_state(final(self)),
    {
        let event = match self.owned.initialize(owner) {
            Ok(ev) => ev,
            Err(e) => return Err(e),
        };
        self.frak_content_id = frak_content_id;
        self.content_registry = content_registry;
        Ok(event)
    }

    /// The registry query that authorizes a push: the recovered signer goes
    /// to `isAuthorized` with the contract's content id. Fails with
    /// `EcRecoverError` where no signer can be recovered.
    pub fn registry_call(
        &mut self,
        chain_id: u64,
        caller: &Address,
        channel_id: &B256,
        added_consumption: &U256,
        deadline: &U256,
        v: u8,
        r: &B256,
        s: &B256,
    ) -> (res: Result<RegistryCall, Errors>)
        requires
            old(self).wf(),
        ensures
            final(self).wf(),
            old(self).same_state(final(self)),
            final(self).domain().cached_chain_id() == chain_id,
            match old(self).push_signer(
                chain_id,
                caller@,
                channel_id@,
                added_consumption@,
                deadline@,
                v,
                r@,
                s@,
            ) {
                None => res == Err::<RegistryCall, Errors>(Errors::EcRecoverError),
                Some(a) => res is Ok && res.unwrap().target@ == old(self).registry()
                    && res.unwrap().calldata@ == is_authorized_calldata(old(self).content_id(), a),
            },
    {
        let struct_hash = channel_struct_hash(caller, channel_id, added_consumption, deadline);
        let signer = match self.eip712.recover_typed_data_signer(chain_id, &struct_hash, v, r, s) {
            Ok(a) => a,
            Err(e) => return Err(e),
        };
        Ok(
            RegistryCall {
                target: self.content_registry,
                calldata: encode_is_authorized(&self.frak_content_id, &signer),
            },
        )
    }

    /// Adds `added_consumption` to the caller's total on `channel_id`, on a
    /// validator's signature `(v, r, s)` of
    /// `ValidateConsumption{user, channelId, addedConsumption, deadline}`
    /// with the caller as `user`. `registry_reply` is what the registry
    /// answered to `registry_call` for the same arguments (`None` where the
    /// call failed). Fails with `EcRecoverError` where no signer can be
    /// recovered and with `InvalidPlatformSignature` unless the reply reads
    /// as `true`, leaving the state as it was. On success the caller's record
    /// takes the new total and `now`, and the running total grows by the amount.
    pub fn push_ccu(
        &mut self,
        chain_id: u64,
        now: u64,
        caller: &Address,
        channel_id: &B256,
        added_consumption: &U256,
        deadline: &U256,
        v: u8,
        r: &B256,
        s: &B256,
        registry_reply: Option<&[u8]>,
    ) -> (res: Result<CcuPushed, Errors>)
        requires
            old(self).wf(),
            record_in(old(self).records(), pair_key(caller@, channel_id@)).0
                + added_consumption.value() < word_modulus(),
            old(self).total() + added_consumption.value() < word_modulus(),
        ensures
            final(self).wf(),
            final(self).domain().cached_chain_id() == chain_id,
            ({
                let pk = pair_key(caller@, channel_id@);
                let sum = record_in(old(self).records(), pk).0 + added_consumption.value();
                let reply = match registry_reply {
                    Some(d) => Some(d@),
                    None => None,
                };
                match old(self).push_signer(
                    chain_id,
                    caller@,
                    channel_id@,
                    added_consumption@,
                    deadline@,
                    v,
                    r@,
                    s@,
                ) {
                    None => res == Err::<CcuPushed, Errors>(Errors::EcRecoverError) && old(
                        self,
                    ).same_state(final(self)),
                    Some(a) => if !registry_approves(reply) {
                        res == Err::<CcuPushed, Errors>(Errors::InvalidPlatformSignature) && old(
                            self,
                        ).same_state(final(self))
                    } else {
                        &&& res is Ok
                        &&& res.unwrap().platform_id == *channel_id
                        &&& res.unwrap().user == *caller
                        &&& res.unwrap().total_consumption.value() == sum
                        &&& final(self).records() == old(self).records().insert(pk, (sum, now))
                        &&& final(self).total() == old(self).total() + added_consumption.value()
                        &&& final(self).owner() == old(self).owner()
                        &&& final(self).content_id() == old(self).content_id()
                        &&& final(self).registry() == old(self).registry()
                        &&& final(self).domain().same_domain(&old(self).domain())
                    },
                }
            }),
    {
        let struct_hash = channel_struct_hash(caller, channel_id, added_consumption, deadline);
        let _signer = match self.eip712.recover_typed_data_signer(chain_id, &struct_hash, v, r, s) {
            Ok(a) => a,
            Err(e) => return Err(e),
        };
        if !decode_registry_reply(registry_reply) {
            return Err(Errors::InvalidPlatformSignature);
        }
        let key = pair_key_bytes(caller, channel_id);
        let last_ccu = match self.user_consumptions.get(key.as_slice()) {
            Some(c) => c.ccu,
            None => U256::zero(),
        };
        let total = last_ccu.checked_add(added_consumption).unwrap();
        let updated = UserConsumption { ccu: total, update_timestamp: now };
        self.user_consumptions.insert(key.as_slice(), updated);
        self.total_consumption = self.total_consumption.checked_add(added_consumption).unwrap();
        proof {
            assert(self.records() =~= old(self).records().insert(key@, record_view(updated)));
        }
        Ok(CcuPushed { platform_id: *channel_id, user: *caller, total_consumption: total })
    }

    /// The user's total on the channel; zero if never pushed.
    pub fn get_user_consumption(&self, user: &Address, channel_id: &B256) -> (r: Result<U256, Errors>)
        requires
            self.wf(),
        ensures
            r is Ok,
            r.unwrap().value() == record_in(self.records(), pair_key(user@, channel_id@)).0,
    {
        let key = pair_key_bytes(user, channel_id);
        match self.user_consumptions.get(key.as_slice()) {
            Some(c) => Ok(c.ccu),
            None => Ok(U256::zero()),
        }
    }

    /// The sum of every accepted push.
    pub fn get_total_consumption(&self) -> (r: Result<U256, Errors>)
        ensures
            r is Ok,
            r.unwrap().value() == self.total(),
    {
        Ok(self.total_consumption)
    }

    /// The domain separator on `chain_id`, built from scratch.
    pub fn domain_separator(&self, chain_id: u64) -> (r: Result<B256, Errors>)
        ensures
            r is Ok,
            r.unwrap()@ == self.separator_on(chain_id),
    {
        self.eip712.read_domain_separator(chain_id)
    }
}

} // verus!
