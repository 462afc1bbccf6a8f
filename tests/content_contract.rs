use content_consumption::bytes::{Address, B256, U256};
use content_consumption::contract::ContentConsumptionContract;
use content_consumption::eip712::{
    consumption_struct_hash, platform_struct_hash, typed_data_digest, Eip712,
};
use content_consumption::errors::Errors;
use content_consumption::signature::PrecompileEcRecover;
use k256::ecdsa::SigningKey;

const CHAIN_ID: u64 = 42161;
const NOW: u64 = 1_700_000_000;

fn signing_key(seed: u8) -> SigningKey {
    SigningKey::from_slice(&[seed; 32]).unwrap()
}

fn address_of(key: &SigningKey) -> Address {
    Address { bytes: alloy_primitives::Address::from_private_key(key).0 .0 }
}

fn plain_address(byte: u8) -> Address {
    Address { bytes: [byte; 20] }
}

fn u256(n: u64) -> U256 {
    let mut bytes = [0u8; 32];
    bytes[24..].copy_from_slice(&n.to_be_bytes());
    U256 { bytes }
}

fn u256_value(x: &U256) -> u128 {
    assert!(x.bytes[..16].iter().all(|b| *b == 0));
    u128::from_be_bytes(x.bytes[16..].try_into().unwrap())
}

fn sign(key: &SigningKey, digest: &B256) -> (u8, B256, B256) {
    let (sig, recid) = key.sign_prehash_recoverable(&digest.bytes).unwrap();
    let bytes = sig.to_bytes();
    let mut r = [0u8; 32];
    let mut s = [0u8; 32];
    r.copy_from_slice(&bytes[..32]);
    s.copy_from_slice(&bytes[32..]);
    (27 + recid.to_byte(), B256 { bytes: r }, B256 { bytes: s })
}

fn contract_address() -> Address {
    plain_address(0xCC)
}

/// A deployed contract initialized with the owner `signing_key(1)`.
fn deployed() -> (ContentConsumptionContract, SigningKey) {
    let owner = signing_key(1);
    let mut c = ContentConsumptionContract::new(contract_address(), CHAIN_ID);
    c.initialize(CHAIN_ID, address_of(&owner)).unwrap();
    (c, owner)
}

fn sign_registration(
    c: &ContentConsumptionContract,
    signer: &SigningKey,
    name: &str,
    origin: &str,
    owner: &Address,
    deadline: &U256,
) -> (u8, B256, B256) {
    let sep = c.domain_separator(CHAIN_ID).unwrap();
    let sh = platform_struct_hash(owner, name, origin, deadline);
    sign(signer, &typed_data_digest(&sep, &sh))
}

fn register(
    c: &mut ContentConsumptionContract,
    signer: &SigningKey,
    name: &str,
    origin: &str,
    owner: &Address,
    content_type: [u8; 4],
) -> Result<B256, Errors> {
    let deadline = U256::max_value();
    let (v, r, s) = sign_registration(c, signer, name, origin, owner, &deadline);
    c.register_platform(
        CHAIN_ID,
        name.to_string(),
        origin.to_string(),
        *owner,
        content_type,
        &deadline,
        v,
        &r,
        &s,
    )
    .map(|ev| ev.platform_id)
}

fn sign_push(
    c: &ContentConsumptionContract,
    signer: &SigningKey,
    user: &Address,
    platform_id: &B256,
    added: &U256,
    nonce: &U256,
    deadline: &U256,
) -> (u8, B256, B256) {
    let sep = c.domain_separator(CHAIN_ID).unwrap();
    let sh = consumption_struct_hash(user, platform_id, added, nonce, deadline);
    sign(signer, &typed_data_digest(&sep, &sh))
}

fn push_signed_by(
    c: &mut ContentConsumptionContract,
    signer: &SigningKey,
    now: u64,
    user: &Address,
    platform_id: &B256,
    added: u64,
) -> Result<U256, Errors> {
    let added = u256(added);
    let deadline = U256::max_value();
    let nonce = c.get_nonce_for_platform(user, platform_id);
    let (v, r, s) = sign_push(c, signer, user, platform_id, &added, &nonce, &deadline);
    c.push_ccu(CHAIN_ID, now, user, platform_id, &added, &deadline, v, &r, &s)
        .map(|ev| ev.total_consumption)
}

#[test]
fn example_scenario_register_then_push() {
    let (mut c, owner) = deployed();
    let platform_owner = signing_key(0xAA);
    let user = plain_address(0xBB);
    let id = register(
        &mut c,
        &owner,
        "Example",
        "https://example.com",
        &address_of(&platform_owner),
        [0, 0, 0, 1],
    )
    .unwrap();
    assert_eq!(id.bytes, alloy_primitives::keccak256("https://example.com").0);
    let total = push_signed_by(&mut c, &platform_owner, NOW, &user, &id, 100).unwrap();
    assert_eq!(u256_value(&total), 100);
    let (ccu, updated) = c.get_user_consumption(&user, &id).unwrap();
    assert_eq!(u256_value(&ccu), 100);
    assert_eq!(updated, NOW);
    assert_eq!(u256_value(&c.get_nonce_for_platform(&user, &id)), 1);
}

#[test]
fn registration_reads_back_submitted_metadata() {
    let (mut c, owner) = deployed();
    let platform_owner = plain_address(0x11);
    let id = register(&mut c, &owner, "My platform", "https://videos.test", &platform_owner, [9, 8, 7, 6])
        .unwrap();
    let m = c.get_platform_metadata(&id).unwrap();
    assert_eq!(m.name, "My platform");
    assert_eq!(m.origin, "https://videos.test");
    assert_eq!(m.owner, platform_owner);
    assert_eq!(m.content_type, [9, 8, 7, 6]);
    assert_eq!(c.get_platform_owner(&id), platform_owner);
}

#[test]
fn unknown_platform_reads_as_empty() {
    let (c, _) = deployed();
    let id = B256 { bytes: [5u8; 32] };
    let m = c.get_platform_metadata(&id).unwrap();
    assert_eq!(m.name, "");
    assert_eq!(m.origin, "");
    assert_eq!(m.owner, Address::zero());
    assert_eq!(m.content_type, [0u8; 4]);
}

#[test]
fn same_origin_registered_twice_fails() {
    let (mut c, owner) = deployed();
    let o = plain_address(0x11);
    register(&mut c, &owner, "First", "https://same.test", &o, [0, 0, 0, 1]).unwrap();
    let second = register(&mut c, &owner, "Second", "https://same.test", &plain_address(0x22), [0, 0, 0, 2]);
    assert_eq!(second, Err(Errors::PlatformAlreadyExists));
    let m = c.get_platform_metadata(&B256 { bytes: alloy_primitives::keccak256("https://same.test").0 })
        .unwrap();
    assert_eq!(m.name, "First");
}

#[test]
fn empty_name_fails_with_invalid_metadata() {
    let (mut c, owner) = deployed();
    let r = register(&mut c, &owner, "", "https://empty.test", &plain_address(0x11), [0, 0, 0, 1]);
    assert_eq!(r, Err(Errors::InvalidMetadata));
}

#[test]
fn zero_owner_fails_with_invalid_metadata() {
    let (mut c, owner) = deployed();
    let r = register(&mut c, &owner, "Name", "https://zero.test", &Address::zero(), [0, 0, 0, 1]);
    assert_eq!(r, Err(Errors::InvalidMetadata));
}

#[test]
fn registration_signed_by_stranger_is_unauthorized() {
    let (mut c, _) = deployed();
    let stranger = signing_key(7);
    let r = register(&mut c, &stranger, "Name", "https://x.test", &plain_address(0x11), [0, 0, 0, 1]);
    assert_eq!(r, Err(Errors::Unauthorized));
}

#[test]
fn registration_with_malformed_recovery_id_fails() {
    let (mut c, owner) = deployed();
    let deadline = U256::max_value();
    let o = plain_address(0x11);
    let (_, r, s) = sign_registration(&c, &owner, "Name", "https://x.test", &o, &deadline);
    let res = c.register_platform(
        CHAIN_ID,
        "Name".to_string(),
        "https://x.test".to_string(),
        o,
        [0, 0, 0, 1],
        &deadline,
        5,
        &r,
        &s,
    );
    assert!(matches!(res, Err(Errors::EcRecoverError)));
}

#[test]
fn signature_round_trip_recovers_signer() {
    let key = signing_key(3);
    let user = plain_address(0x44);
    let id = B256 { bytes: [1u8; 32] };
    let sep = Eip712::new("ContentConsumption", "0.0.1", contract_address(), CHAIN_ID)
        .read_domain_separator(CHAIN_ID)
        .unwrap();
    let digest = typed_data_digest(
        &sep,
        &consumption_struct_hash(&user, &id, &u256(10), &U256::zero(), &U256::max_value()),
    );
    let (v, r, s) = sign(&key, &digest);
    let again = typed_data_digest(
        &sep,
        &consumption_struct_hash(&user, &id, &u256(10), &U256::zero(), &U256::max_value()),
    );
    assert_eq!(again, digest);
    assert_eq!(PrecompileEcRecover::ecrecover(&again, v, &r, &s), Ok(address_of(&key)));
    assert_eq!(PrecompileEcRecover::ecrecover(&again, v - 27, &r, &s), Ok(address_of(&key)));
    assert_eq!(PrecompileEcRecover::ecrecover(&again, 2, &r, &s), Err(Errors::EcRecoverError));
    assert_eq!(PrecompileEcRecover::ecrecover(&again, 26, &r, &s), Err(Errors::EcRecoverError));
}

#[test]
fn zero_scalars_fail_recovery() {
    let digest = B256 { bytes: [7u8; 32] };
    let zero = B256::zero();
    assert_eq!(PrecompileEcRecover::ecrecover(&digest, 27, &zero, &zero), Err(Errors::EcRecoverError));
}

#[test]
fn tampered_consumption_fields_are_rejected() {
    let (mut c, owner) = deployed();
    let po = signing_key(0xAA);
    let user = plain_address(0xBB);
    let id = register(&mut c, &owner, "P", "https://p.test", &address_of(&po), [0, 0, 0, 1]).unwrap();
    // The platform owner is not yet an allowed validator, so a changed field
    // recovers some other address, which is refused.
    let deadline = U256::max_value();
    let nonce = c.get_nonce_for_platform(&user, &id);
    let (v, r, s) = sign_push(&c, &po, &user, &id, &u256(100), &nonce, &deadline);
    let tampered = [
        (user, id, u256(101), deadline),
        (plain_address(0xBC), id, u256(100), deadline),
        (user, B256 { bytes: [3u8; 32] }, u256(100), deadline),
        (user, id, u256(100), u256(5)),
    ];
    for (u, p, a, d) in tampered.iter() {
        let res = c.push_ccu(CHAIN_ID, NOW, u, p, a, d, v, &r, &s);
        assert!(matches!(res, Err(Errors::InvalidPlatformSignature) | Err(Errors::EcRecoverError)));
    }
    let (ccu, _) = c.get_user_consumption(&user, &id).unwrap();
    assert_eq!(u256_value(&ccu), 0);
    // The untouched message goes through.
    assert!(c.push_ccu(CHAIN_ID, NOW, &user, &id, &u256(100), &deadline, v, &r, &s).is_ok());
}

#[test]
fn replayed_nonce_is_rejected() {
    let (mut c, owner) = deployed();
    let po = signing_key(0xAA);
    let user = plain_address(0xBB);
    let id = register(&mut c, &owner, "P", "https://p.test", &address_of(&po), [0, 0, 0, 1]).unwrap();
    let deadline = U256::max_value();
    let added = u256(5);
    let nonce = c.get_nonce_for_platform(&user, &id);
    assert_eq!(nonce, U256::zero());
    let (v, r, s) = sign_push(&c, &po, &user, &id, &added, &nonce, &deadline);
    c.push_ccu(CHAIN_ID, NOW, &user, &id, &added, &deadline, v, &r, &s).unwrap();
    assert_eq!(u256_value(&c.get_nonce_for_platform(&user, &id)), 1);
    let replay = c.push_ccu(CHAIN_ID, NOW + 1, &user, &id, &added, &deadline, v, &r, &s);
    assert!(matches!(replay, Err(Errors::InvalidPlatformSignature) | Err(Errors::EcRecoverError)));
    assert_eq!(u256_value(&c.get_nonce_for_platform(&user, &id)), 1);
    let (ccu, _) = c.get_user_consumption(&user, &id).unwrap();
    assert_eq!(u256_value(&ccu), 5);
}

#[test]
fn nonces_count_up_from_zero_per_pair() {
    let (mut c, owner) = deployed();
    let po = signing_key(0xAA);
    let user = plain_address(0xBB);
    let other = plain_address(0xBD);
    let id = register(&mut c, &owner, "P", "https://p.test", &address_of(&po), [0, 0, 0, 1]).unwrap();
    for i in 0..3u64 {
        assert_eq!(u256_value(&c.get_nonce_for_platform(&user, &id)), i as u128);
        push_signed_by(&mut c, &po, NOW + i, &user, &id, 2).unwrap();
    }
    assert_eq!(u256_value(&c.get_nonce_for_platform(&user, &id)), 3);
    assert_eq!(u256_value(&c.get_nonce_for_platform(&other, &id)), 0);
    let (ccu, updated) = c.get_user_consumption(&user, &id).unwrap();
    assert_eq!(u256_value(&ccu), 6);
    assert_eq!(updated, NOW + 2);
}

#[test]
fn owner_signature_bootstraps_allow_list() {
    let (mut c, owner) = deployed();
    let po = signing_key(0xAA);
    let user = plain_address(0xBB);
    let id = register(&mut c, &owner, "P", "https://p.test", &address_of(&po), [0, 0, 0, 1]).unwrap();
    let other_id = register(&mut c, &owner, "Q", "https://q.test", &plain_address(0x99), [0, 0, 0, 1])
        .unwrap();
    // Before any push, the platform owner may not attest for another platform.
    assert_eq!(
        push_signed_by(&mut c, &po, NOW, &user, &other_id, 1),
        Err(Errors::InvalidPlatformSignature)
    );
    push_signed_by(&mut c, &po, NOW, &user, &id, 1).unwrap();
    // Now an allowed validator: accepted on another platform, and after
    // handing its own platform over.
    push_signed_by(&mut c, &po, NOW, &user, &other_id, 1).unwrap();
    c.update_platform_metadata(&address_of(&po), &id, "P".to_string(), plain_address(0x77))
        .unwrap();
    push_signed_by(&mut c, &po, NOW, &user, &id, 1).unwrap();
    let (ccu, _) = c.get_user_consumption(&user, &id).unwrap();
    assert_eq!(u256_value(&ccu), 2);
}

#[test]
fn contract_owner_is_an_allowed_validator() {
    let (mut c, owner) = deployed();
    let user = plain_address(0xBB);
    let id = register(&mut c, &owner, "P", "https://p.test", &plain_address(0x99), [0, 0, 0, 1]).unwrap();
    push_signed_by(&mut c, &owner, NOW, &user, &id, 4).unwrap();
}

#[test]
fn unregistered_platform_push_is_refused() {
    let (mut c, _) = deployed();
    let stranger = signing_key(9);
    let r = push_signed_by(&mut c, &stranger, NOW, &plain_address(0xBB), &B256 { bytes: [2u8; 32] }, 1);
    assert_eq!(r, Err(Errors::InvalidPlatformSignature));
}

#[test]
fn removed_validator_is_refused() {
    let (mut c, owner) = deployed();
    let validator = signing_key(0x55);
    let user = plain_address(0xBB);
    let id = register(&mut c, &owner, "P", "https://p.test", &plain_address(0x99), [0, 0, 0, 1]).unwrap();
    let owner_addr = address_of(&owner);
    c.set_allowed_validator(&owner_addr, &address_of(&validator), true).unwrap();
    push_signed_by(&mut c, &validator, NOW, &user, &id, 1).unwrap();
    c.set_allowed_validator(&owner_addr, &address_of(&validator), false).unwrap();
    assert_eq!(
        push_signed_by(&mut c, &validator, NOW, &user, &id, 1),
        Err(Errors::InvalidPlatformSignature)
    );
    assert_eq!(
        c.set_allowed_validator(&address_of(&validator), &address_of(&validator), true),
        Err(Errors::Unauthorized)
    );
}

#[test]
fn initialize_only_once_and_not_to_zero() {
    let mut c = ContentConsumptionContract::new(contract_address(), CHAIN_ID);
    assert_eq!(c.initialize(CHAIN_ID, Address::zero()), Err(Errors::InvalidInitialize));
    let ev = c.initialize(CHAIN_ID, plain_address(1)).unwrap();
    assert_eq!(ev.owner, plain_address(1));
    assert_eq!(c.initialize(CHAIN_ID, plain_address(2)), Err(Errors::AlreadyInitialized));
    assert_eq!(c.get_owner(), plain_address(1));
}

#[test]
fn ownership_transfer_rules() {
    let mut c = ContentConsumptionContract::new(contract_address(), CHAIN_ID);
    assert_eq!(c.transfer_ownership(&Address::zero(), plain_address(3)), Err(Errors::Unauthorized));
    c.initialize(CHAIN_ID, plain_address(1)).unwrap();
    assert_eq!(c.transfer_ownership(&plain_address(2), plain_address(3)), Err(Errors::Unauthorized));
    assert_eq!(c.transfer_ownership(&plain_address(1), Address::zero()), Err(Errors::InvalidInitialize));
    assert_eq!(c.transfer_ownership(&plain_address(1), plain_address(3)).unwrap().owner, plain_address(3));
    assert_eq!(c.get_owner(), plain_address(3));
}

#[test]
fn platform_metadata_update_rules() {
    let (mut c, owner) = deployed();
    let po = plain_address(0x11);
    let id = register(&mut c, &owner, "P", "https://p.test", &po, [0, 0, 0, 1]).unwrap();
    let missing = B256 { bytes: [8u8; 32] };
    assert_eq!(
        c.update_platform_metadata(&po, &missing, "N".to_string(), po),
        Err(Errors::PlatformDoesNotExist)
    );
    assert_eq!(
        c.update_platform_metadata(&plain_address(0x12), &id, "N".to_string(), po),
        Err(Errors::NotPlatformOwner)
    );
    assert_eq!(
        c.update_platform_metadata(&po, &id, String::new(), po),
        Err(Errors::InvalidMetadata)
    );
    assert_eq!(
        c.update_platform_metadata(&po, &id, "N".to_string(), Address::zero()),
        Err(Errors::InvalidMetadata)
    );
    c.update_platform_metadata(&po, &id, "Renamed".to_string(), plain_address(0x13)).unwrap();
    let m = c.get_platform_metadata(&id).unwrap();
    assert_eq!(m.name, "Renamed");
    assert_eq!(m.owner, plain_address(0x13));
    assert_eq!(m.origin, "https://p.test");
    assert_eq!(m.content_type, [0, 0, 0, 1]);
}

#[test]
fn signatures_for_another_chain_are_not_accepted() {
    let (mut c, owner) = deployed();
    let po = signing_key(0xAA);
    let user = plain_address(0xBB);
    let id = register(&mut c, &owner, "P", "https://p.test", &address_of(&po), [0, 0, 0, 1]).unwrap();
    let added = u256(1);
    let deadline = U256::max_value();
    let nonce = c.get_nonce_for_platform(&user, &id);
    let (v, r, s) = sign_push(&c, &po, &user, &id, &added, &nonce, &deadline);
    let res = c.push_ccu(CHAIN_ID + 1, NOW, &user, &id, &added, &deadline, v, &r, &s);
    assert!(matches!(res, Err(Errors::InvalidPlatformSignature) | Err(Errors::EcRecoverError)));
    assert!(c.push_ccu(CHAIN_ID, NOW, &user, &id, &added, &deadline, v, &r, &s).is_ok());
}
