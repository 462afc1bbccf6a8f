//! EIP-712 typed-data hashing: the domain separator (cached per chain id),
//! the struct hashes of the two signed messages, and recovery of the signer
//! of a typed-data digest.
use vstd::prelude::*;
use vstd::string::StringSliceAdditionalSpecFns;
use vstd::utf8::encode_utf8;

use crate::bytes::{
    address_word, append_address_word, append_bytes, append_u64_word, keccak, keccak_of,
    u64_word, Address, B256, U256,
};
use crate::errors::Errors;
use crate::signature::PrecompileEcRecover;

verus! {

pub const DOMAIN_TYPE: &'static str =
    "EIP712Domain(string name,string version,uint256 chainId,address verifyingContract)";

pub const VALIDATE_CONSUMPTION_TYPE: &'static str =
    "ValidateConsumption(address user,bytes32 platformId,uint256 addedConsumption,uint256 nonce,uint256 deadline)";

pub const CREATE_NEW_PLATFORM_TYPE: &'static str =
    "CreateNewPlatform(address owner,bytes32 name,bytes32 origin,uint256 deadline)";

/// The bytes that are hashed for the domain separator.
pub open spec fn domain_encoding(name: Seq<u8>, version: Seq<u8>, chain_id: u64, contract: Seq<u8>) -> Seq<u8> {
    keccak_of(DOMAIN_TYPE.spec_bytes()) + keccak_of(name) + keccak_of(version) + u64_word(chain_id)
        + address_word(contract)
}

/// The domain separator of the contract at `contract` on chain `chain_id`.
pub open spec fn domain_separator_of(
    name: Seq<u8>,
    version: Seq<u8>,
    chain_id: u64,
    contract: Seq<u8>,
) -> Seq<u8> {
    keccak_of(domain_encoding(name, version, chain_id, contract))
}

/// The bytes that are hashed for a `ValidateConsumption` struct hash: the
/// type hash, then each field as a 32-byte word in declared order.
pub open spec fn consumption_encoding(
    user: Seq<u8>,
    platform_id: Seq<u8>,
    added_consumption: Seq<u8>,
    nonce: Seq<u8>,
    deadline: Seq<u8>,
) -> Seq<u8> {
    keccak_of(VALIDATE_CONSUMPTION_TYPE.spec_bytes()) + address_word(user) + platform_id
        + added_consumption + nonce + deadline
}

/// The bytes that are hashed for a `CreateNewPlatform` struct hash; the two
/// strings stand there as their hashes.
pub open spec fn platform_encoding(
    owner: Seq<u8>,
    name: Seq<char>,
    origin: Seq<char>,
    deadline: Seq<u8>,
) -> Seq<u8> {
    keccak_of(CREATE_NEW_PLATFORM_TYPE.spec_bytes()) + address_word(owner) + keccak_of(
        encode_utf8(name),
    ) + keccak_of(encode_utf8(origin)) + deadline
}

/// The digest that is signed: `keccak256(0x19 0x01 || domain separator || struct hash)`.
pub open spec fn typed_digest(domain_separator: Seq<u8>, struct_hash: Seq<u8>) -> Seq<u8> {
    keccak_of(seq![0x19u8, 0x01u8] + domain_separator + struct_hash)
}

/// Hashes the UTF-8 bytes of a string.
pub fn hash_str(s: &str) -> (r: B256)
    ensures
        r@ == keccak_of(encode_utf8(s@)),
{
    B256 { bytes: keccak(s.as_bytes()) }
}

/// The struct hash of `ValidateConsumption{user, platformId, addedConsumption, nonce, deadline}`.
pub fn consumption_struct_hash(
    user: &Address,
    platform_id: &B256,
    added_consumption: &U256,
    nonce: &U256,
    deadline: &U256,
) -> (r: B256)
    ensures
        r@ == keccak_of(
            consumption_encoding(user@, platform_id@, added_consumption@, nonce@, deadline@),
        ),
{
    let type_hash = hash_str(VALIDATE_CONSUMPTION_TYPE);
    let mut data: Vec<u8> = Vec::new();
    append_bytes(&mut data, &type_hash.bytes);
    append_address_word(&mut data, user);
    append_bytes(&mut data, &platform_id.bytes);
    append_bytes(&mut data, &added_consumption.bytes);
    append_bytes(&mut data, &nonce.bytes);
    append_bytes(&mut data, &deadline.bytes);
    proof {
        assert(type_hash@ == keccak_of(VALIDATE_CONSUMPTION_TYPE.spec_bytes()));
        assert(data@ =~= consumption_encoding(
            user@,
            platform_id@,
            added_consumption@,
            nonce@,
            deadline@,
        ));
    }
    B256 { bytes: keccak(data.as_slice()) }
}

/// The struct hash of `CreateNewPlatform{owner, name, origin, deadline}`.
pub fn platform_struct_hash(owner: &Address, name: &str, origin: &str, deadline: &U256) -> (r: B256)
    ensures
        r@ == keccak_of(platform_encoding(owner@, name@, origin@, deadline@)),
{
    let type_hash = hash_str(CREATE_NEW_PLATFORM_TYPE);
    let name_hash = hash_str(name);
    let origin_hash = hash_str(origin);
    let mut data: Vec<u8> = Vec::new();
    append_bytes(&mut data, &type_hash.bytes);
    append_address_word(&mut data, owner);
    append_bytes(&mut data, &name_hash.bytes);
    append_bytes(&mut data, &origin_hash.bytes);
    append_bytes(&mut data, &deadline.bytes);
    proof {
        assert(type_hash@ == keccak_of(CREATE_NEW_PLATFORM_TYPE.spec_bytes()));
        assert(data@ =~= platform_encoding(owner@, name@, origin@, deadline@));
    }
    B256 { bytes: keccak(data.as_slice()) }
}

/// Combines a domain separator and a struct hash into the digest that is signed.
pub fn typed_data_digest(domain_separator: &B256, struct_hash: &B256) -> (r: B256)
    ensures
        r@ == typed_digest(domain_separator@, struct_hash@),
{
    let mut data: Vec<u8> = Vec::new();
    data.push(0x19u8);
    data.push(0x01u8);
    append_bytes(&mut data, &domain_separator.bytes);
    append_bytes(&mut data, &struct_hash.bytes);
    assert(data@ =~= seq![0x19u8, 0x01u8] + domain_separator@ + struct_hash@);
    B256 { bytes: keccak(data.as_slice()) }
}

/// The EIP-712 domain of one deployed contract: its name and version, its
/// address, and the domain separator cached for the chain it last saw.
pub struct Eip712 {
    name: Vec<u8>,
    version: Vec<u8>,
    verifying_contract: Address,
    cached_chain_id: u64,
    cached_domain_separator: B256,
}

impl Eip712 {
    pub closed spec fn name(&self) -> Seq<u8> {
        self.name@
    }

    pub closed spec fn version(&self) -> Seq<u8> {
        self.version@
    }

    pub closed spec fn verifying_contract(&self) -> Seq<u8> {
        self.verifying_contract@
    }

    pub closed spec fn cached_chain_id(&self) -> u64 {
        self.cached_chain_id
    }

    /// The domain separator of this domain on `chain_id`.
    pub open spec fn separator_on(&self, chain_id: u64) -> Seq<u8> {
        domain_separator_of(self.name(), self.version(), chain_id, self.verifying_contract())
    }

    /// The cache holds the separator of the chain it names.
    pub closed spec fn wf(&self) -> bool {
        self.cached_domain_separator@ == self.separator_on(self.cached_chain_id)
    }

    /// Whether two values are the same domain (the cache aside).
    pub open spec fn same_domain(&self, other: &Eip712) -> bool {
        &&& self.name() == other.name()
        &&& self.version() == other.version()
        &&& self.verifying_contract() == other.verifying_contract()
    }

    /// The domain named `name`, version `version`, of the contract at
    /// `verifying_contract`, with its separator cached for `chain_id`.
    pub fn new(name: &str, version: &str, verifying_contract: Address, chain_id: u64) -> (r: Eip712)
        ensures
            r.wf(),
            r.name() == encode_utf8(name@),
            r.version() == encode_utf8(version@),
            r.verifying_contract() == verifying_contract@,
            r.cached_chain_id() == chain_id,
    {
        let mut n: Vec<u8> = Vec::new();
        append_bytes(&mut n, name.as_bytes());
        let mut v: Vec<u8> = Vec::new();
        append_bytes(&mut v, version.as_bytes());
        let mut r = Eip712 {
            name: n,
            version: v,
            verifying_contract,
            cached_chain_id: chain_id,
            cached_domain_separator: B256::zero(),
        };
        r.initialize(chain_id);
        r
    }

    /// Builds the domain separator for `chain_id` from scratch.
    pub fn compute_domain_separator(&self, chain_id: u64) -> (r: B256)
        ensures
            r@ == self.separator_on(chain_id),
    {
        let type_hash = hash_str(DOMAIN_TYPE);
        let name_hash = B256 { bytes: keccak(self.name.as_slice()) };
        let version_hash = B256 { bytes: keccak(self.version.as_slice()) };
        let mut data: Vec<u8> = Vec::new();
        append_bytes(&mut data, &type_hash.bytes);
        append_bytes(&mut data, &name_hash.bytes);
        append_bytes(&mut data, &version_hash.bytes);
        append_u64_word(&mut data, chain_id);
        append_address_word(&mut data, &self.verifying_contract);
        proof {
            assert(type_hash@ == keccak_of(DOMAIN_TYPE.spec_bytes()));
            assert(data@ =~= domain_encoding(
                self.name(),
                self.version(),
                chain_id,
                self.verifying_contract(),
            ));
        }
        B256 { bytes: keccak(data.as_slice()) }
    }

    /// Caches the separator of `chain_id`.
    pub fn initialize(&mut self, chain_id: u64)
        ensures
            final(self).wf(),
            final(self).same_domain(old(self)),
            final(self).cached_chain_id() == chain_id,
    {
        let separator = self.compute_domain_separator(chain_id);
        self.cached_chain_id = chain_id;
        self.cached_domain_separator = separator;
    }

    /// The separator of `chain_id`: the cached one while the chain id is the
    /// cached one, else freshly built, and then cached in its place.
    pub fn domain_separator(&mut self, chain_id: u64) -> (r: Result<B256, Errors>)
        requires
            old(self).wf(),
        ensures
            final(self).wf(),
            final(self).same_domain(old(self)),
            final(self).cached_chain_id() == chain_id,
            r is Ok,
            r.unwrap()@ == old(self).separator_on(chain_id),
    {
        if chain_id == self.cached_chain_id {
            Ok(self.cached_domain_separator)
        } else {
            let separator = self.compute_domain_separator(chain_id);
            self.cached_chain_id = chain_id;
            self.cached_domain_separator = separator;
            Ok(separator)
        }
    }

    /// The separator of `chain_id`, built from scratch without touching the cache.
    pub fn read_domain_separator(&self, chain_id: u64) -> (r: Result<B256, Errors>)
        ensures
            r is Ok,
            r.unwrap()@ == self.separator_on(chain_id),
    {
        Ok(self.compute_domain_separator(chain_id))
    }

    /// The signer of the typed-data digest of `struct_hash` under this domain
    /// on `chain_id`. A zero address may come back; callers reject it.
    pub fn recover_typed_data_signer(
        &mut self,
        chain_id: u64,
        struct_hash: &B256,
        v: u8,
        r: &B256,
        s: &B256,
    ) -> (res: Result<Address, Errors>)
        requires
            old(self).wf(),
        ensures
            final(self).wf(),
            final(self).same_domain(old(self)),
            final(self).cached_chain_id() == chain_id,
            ({
                let digest = typed_digest(old(self).separator_on(chain_id), struct_hash@);
                match res {
                    Ok(a) => PrecompileEcRecover::recovered(digest, v, r@, s@) == Some(a@),
                    Err(e) => e == Errors::EcRecoverError && PrecompileEcRecover::recovered(
                        digest,
                        v,
                        r@,
                        s@,
                    ).is_none(),
                }
            }),
    {
        let separator = match self.domain_separator(chain_id) {
            Ok(d) => d,
            Err(e) => return Err(e),
        };
        let digest = typed_data_digest(&separator, struct_hash);
        PrecompileEcRecover::ecrecover(&digest, v, r, s)
    }
}

} // verus!
