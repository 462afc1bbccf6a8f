use content_consumption::bytes::{Address, B256, U256};
use content_consumption::channel::{channel_struct_hash, decode_registry_reply, ChannelConsumptionContract};
use content_consumption::eip712::typed_data_digest;
use content_consumption::errors::Errors;
use k256::ecdsa::SigningKey;

const CHAIN_ID: u64 = 421614;
const NOW: u64 = 1_700_000_000;

fn u256(n: u64) -> U256 {
    let mut bytes = [0u8; 32];
    bytes[24..].copy_from_slice(&n.to_be_bytes());
    U256 { bytes }
}

fn validator() -> SigningKey {
    SigningKey::from_slice(&[0x42; 32]).unwrap()
}

fn validator_address() -> Address {
    Address { bytes: alloy_primitives::Address::from_private_key(&validator()).0 .0 }
}

fn registry() -> Address {
    Address { bytes: [0xDD; 20] }
}

fn deployed() -> ChannelConsumptionContract {
    let mut c = ChannelConsumptionContract::new(Address { bytes: [0xCC; 20] }, CHAIN_ID);
    c.initialize(Address { bytes: [1; 20] }, u256(7), registry()).unwrap();
    c
}

fn signed(c: &ChannelConsumptionContract, user: &Address, channel: &B256, added: &U256) -> (u8, B256, B256) {
    let sep = c.domain_separator(CHAIN_ID).unwrap();
    let digest = typed_data_digest(&sep, &channel_struct_hash(user, channel, added, &U256::max_value()));
    let (sig, recid) = validator().sign_prehash_recoverable(&digest.bytes).unwrap();
    let bytes = sig.to_bytes();
    let mut r = [0u8; 32];
    let mut s = [0u8; 32];
    r.copy_from_slice(&bytes[..32]);
    s.copy_from_slice(&bytes[32..]);
    (27 + recid.to_byte(), B256 { bytes: r }, B256 { bytes: s })
}

fn true_word() -> Vec<u8> {
    let mut w = vec![0u8; 32];
    w[31] = 1;
    w
}

#[test]
fn registry_call_asks_about_the_signer() {
    let mut c = deployed();
    let user = Address { bytes: [0xBB; 20] };
    let channel = B256 { bytes: [3; 32] };
    let (v, r, s) = signed(&c, &user, &channel, &u256(1));
    let call = c
        .registry_call(CHAIN_ID, &user, &channel, &u256(1), &U256::max_value(), v, &r, &s)
        .unwrap();
    assert_eq!(call.target, registry());
    let mut expected = alloy_primitives::keccak256("isAuthorized(uint256,address)").0[..4].to_vec();
    expected.extend_from_slice(&u256(7).bytes);
    expected.extend_from_slice(&[0u8; 12]);
    expected.extend_from_slice(&validator_address().bytes);
    assert_eq!(call.calldata, expected);
}

#[test]
fn approved_push_updates_user_and_total() {
    let mut c = deployed();
    let alice = Address { bytes: [0xBB; 20] };
    let bob = Address { bytes: [0xBC; 20] };
    let channel = B256 { bytes: [3; 32] };
    let reply = true_word();
    let (v, r, s) = signed(&c, &alice, &channel, &u256(10));
    let ev = c
        .push_ccu(CHAIN_ID, NOW, &alice, &channel, &u256(10), &U256::max_value(), v, &r, &s, Some(&reply))
        .unwrap();
    assert_eq!(ev.total_consumption, u256(10));
    let (v, r, s) = signed(&c, &bob, &channel, &u256(5));
    c.push_ccu(CHAIN_ID, NOW, &bob, &channel, &u256(5), &U256::max_value(), v, &r, &s, Some(&reply))
        .unwrap();
    assert_eq!(c.get_user_consumption(&alice, &channel).unwrap(), u256(10));
    assert_eq!(c.get_user_consumption(&bob, &channel).unwrap(), u256(5));
    assert_eq!(c.get_total_consumption().unwrap(), u256(15));
}

#[test]
fn refused_or_failed_registry_call_rejects_push() {
    let mut c = deployed();
    let user = Address { bytes: [0xBB; 20] };
    let channel = B256 { bytes: [3; 32] };
    let (v, r, s) = signed(&c, &user, &channel, &u256(10));
    let zero = vec![0u8; 32];
    let short = vec![1u8; 31];
    for reply in [None, Some(zero.as_slice()), Some(short.as_slice())] {
        let res = c.push_ccu(CHAIN_ID, NOW, &user, &channel, &u256(10), &U256::max_value(), v, &r, &s, reply);
        assert!(matches!(res, Err(Errors::InvalidPlatformSignature)));
    }
    assert_eq!(c.get_total_consumption().unwrap(), U256::zero());
    let res = c.push_ccu(CHAIN_ID, NOW, &user, &channel, &u256(10), &U256::max_value(), 9, &r, &s, None);
    assert!(matches!(res, Err(Errors::EcRecoverError)));
}

#[test]
fn registry_reply_decoding() {
    let mut long = vec![0u8; 64];
    long[40] = 1;
    assert!(!decode_registry_reply(Some(&long)));
    long[0] = 1;
    assert!(decode_registry_reply(Some(&long)));
    assert!(!decode_registry_reply(None));
    assert!(!decode_registry_reply(Some(&[])));
}

#[test]
fn channel_initialize_only_once() {
    let mut c = ChannelConsumptionContract::new(Address { bytes: [0xCC; 20] }, CHAIN_ID);
    assert!(matches!(c.initialize(Address::zero(), u256(7), registry()), Err(Errors::InvalidInitialize)));
    c.initialize(Address { bytes: [1; 20] }, u256(7), registry()).unwrap();
    assert!(matches!(
        c.initialize(Address { bytes: [2; 20] }, u256(8), registry()),
        Err(Errors::AlreadyInitialized)
    ));
}
