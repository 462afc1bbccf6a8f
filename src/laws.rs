//! Properties of the registry, the ledger and the signing scheme, proved over
//! the spec functions that the operations' contracts are stated in.
use vstd::prelude::*;

use crate::bytes::{address_word, all_zero, be_value, u64_word, lemma_u64_word_injective, word_modulus};
use crate::consumption::{cooldown_outcome, record_in, UPDATE_COOLDOWN};
use crate::contract::{is_validator_in, ContentConsumptionContract};
use crate::eip712::{consumption_encoding, domain_encoding};
use crate::errors::Errors;
use crate::platform::{
    create_outcome, metadata_in, platform_id_of, registered_in, PlatformMetadataView,
};
use crate::bytes::U256;
use crate::consumption::CcuPushed;
use vstd::string::StringSliceAdditionalSpecFns;

verus! {

/// A successful registration reads back exactly: the metadata under the id of
/// the origin is the submitted name, origin, owner and content type.
pub proof fn lemma_registration_reads_back(
    m: Map<Seq<u8>, PlatformMetadataView>,
    name: Seq<char>,
    origin: Seq<char>,
    owner: Seq<u8>,
    content_type: Seq<u8>,
)
    requires
        create_outcome(m, name, origin, owner, content_type) is Ok,
    ensures
        metadata_in(
            create_outcome(m, name, origin, owner, content_type).unwrap(),
            platform_id_of(origin),
        ) == (PlatformMetadataView { name, origin, owner, content_type }),
{
}

/// Once a platform is registered from an origin, registering the same origin
/// again fails with `PlatformAlreadyExists`, whatever the other fields.
pub proof fn lemma_same_origin_twice_fails(
    m: Map<Seq<u8>, PlatformMetadataView>,
    origin: Seq<char>,
    name1: Seq<char>,
    owner1: Seq<u8>,
    content_type1: Seq<u8>,
    name2: Seq<char>,
    owner2: Seq<u8>,
    content_type2: Seq<u8>,
)
    requires
        create_outcome(m, name1, origin, owner1, content_type1) is Ok,
    ensures
        create_outcome(
            create_outcome(m, name1, origin, owner1, content_type1).unwrap(),
            name2,
            origin,
            owner2,
            content_type2,
        ) == Err::<Map<Seq<u8>, PlatformMetadataView>, Errors>(Errors::PlatformAlreadyExists),
{
}

/// Registering a free origin with an empty name or a zero owner fails with
/// `InvalidMetadata`.
pub proof fn lemma_invalid_metadata_fails(
    m: Map<Seq<u8>, PlatformMetadataView>,
    name: Seq<char>,
    origin: Seq<char>,
    owner: Seq<u8>,
    content_type: Seq<u8>,
)
    requires
        name.len() == 0 || all_zero(owner),
        !registered_in(m, platform_id_of(origin)),
    ensures
        create_outcome(m, name, origin, owner, content_type) == Err::<
            Map<Seq<u8>, PlatformMetadataView>,
            Errors,
        >(Errors::InvalidMetadata),
{
}

/// The signer that a consumption push checks is determined by the domain,
/// the message fields, the pair's nonce and the signature: rebuilding the
/// struct hash from the same fields recovers the same address.
pub proof fn lemma_push_signer_determined(
    c1: ContentConsumptionContract,
    c2: ContentConsumptionContract,
    chain_id: u64,
    user: Seq<u8>,
    platform_id: Seq<u8>,
    added_consumption: Seq<u8>,
    deadline: Seq<u8>,
    v: u8,
    r: Seq<u8>,
    s: Seq<u8>,
)
    requires
        c1.separator_on(chain_id) == c2.separator_on(chain_id),
        c1.nonce_word(user, platform_id) == c2.nonce_word(user, platform_id),
    ensures
        c1.push_signer(chain_id, user, platform_id, added_consumption, deadline, v, r, s)
            == c2.push_signer(chain_id, user, platform_id, added_consumption, deadline, v, r, s),
{
}

/// The signed consumption message determines every field: two messages that
/// differ in user, platform id, amount, nonce or deadline are encoded (and so
/// hashed and signed) from different bytes.
pub proof fn lemma_consumption_encoding_injective(
    user1: Seq<u8>,
    platform_id1: Seq<u8>,
    added1: Seq<u8>,
    nonce1: Seq<u8>,
    deadline1: Seq<u8>,
    user2: Seq<u8>,
    platform_id2: Seq<u8>,
    added2: Seq<u8>,
    nonce2: Seq<u8>,
    deadline2: Seq<u8>,
)
    requires
        user1.len() == 20 && user2.len() == 20,
        platform_id1.len() == 32 && platform_id2.len() == 32,
        added1.len() == 32 && added2.len() == 32,
        nonce1.len() == 32 && nonce2.len() == 32,
        deadline1.len() == 32 && deadline2.len() == 32,
        consumption_encoding(user1, platform_id1, added1, nonce1, deadline1) == consumption_encoding(
            user2,
            platform_id2,
            added2,
            nonce2,
            deadline2,
        ),
    ensures
        user1 == user2,
        platform_id1 == platform_id2,
        added1 == added2,
        nonce1 == nonce2,
        deadline1 == deadline2,
{
    let e1 = consumption_encoding(user1, platform_id1, added1, nonce1, deadline1);
    let e2 = consumption_encoding(user2, platform_id2, added2, nonce2, deadline2);
    let h = crate::bytes::keccak_of(crate::eip712::VALIDATE_CONSUMPTION_TYPE.spec_bytes());
    assert(e1.len() == h.len() + 32 + 32 + 32 + 32 + 32);
    let o = h.len() as int;
    assert(e1.subrange(o + 12, o + 32) =~= user1);
    assert(e2.subrange(o + 12, o + 32) =~= user2);
    assert(e1.subrange(o + 32, o + 64) =~= platform_id1);
    assert(e2.subrange(o + 32, o + 64) =~= platform_id2);
    assert(e1.subrange(o + 64, o + 96) =~= added1);
    assert(e2.subrange(o + 64, o + 96) =~= added2);
    assert(e1.subrange(o + 96, o + 128) =~= nonce1);
    assert(e2.subrange(o + 96, o + 128) =~= nonce2);
    assert(e1.subrange(o + 128, o + 160) =~= deadline1);
    assert(e2.subrange(o + 128, o + 160) =~= deadline2);
}

/// Two updates of the same pair: the second fails with `TooFrequentUpdate`
/// when it comes less than a minute after the first, and otherwise succeeds
/// with a total that adds both amounts.
pub proof fn lemma_cooldown_between_updates(
    m: Map<Seq<u8>, (nat, u64)>,
    key: Seq<u8>,
    t1: u64,
    added1: nat,
    t2: u64,
    added2: nat,
)
    requires
        cooldown_outcome(m, t1, key, added1) is Ok,
    ensures
        t2 < t1 + UPDATE_COOLDOWN ==> cooldown_outcome(
            cooldown_outcome(m, t1, key, added1).unwrap(),
            t2,
            key,
            added2,
        ) == Err::<Map<Seq<u8>, (nat, u64)>, Errors>(Errors::TooFrequentUpdate),
        t2 >= t1 + UPDATE_COOLDOWN ==> {
            let after = cooldown_outcome(cooldown_outcome(m, t1, key, added1).unwrap(), t2, key, added2);
            &&& after is Ok
            &&& record_in(after.unwrap(), key) == (record_in(m, key).0 + added1 + added2, t2)
        },
{
}

/// Nonces start at zero: a contract that has stored none reads every pair's
/// nonce as zero.
pub proof fn lemma_nonces_start_at_zero(
    c: ContentConsumptionContract,
    user: Seq<u8>,
    platform_id: Seq<u8>,
)
    requires
        c.nonces() == Map::<Seq<u8>, Seq<u8>>::empty(),
    ensures
        be_value(c.nonce_word(user, platform_id)) == 0,
{
    let w = c.nonce_word(user, platform_id);
    assert(w == Seq::new(32, |i: int| 0u8));
    crate::bytes::lemma_be_value_all_zero(w);
}

/// An accepted push consumes the pair's nonce: the nonce goes up by one, so
/// the message that was signed no longer matches the one that the next push
/// rebuilds, and a replay is checked against a different digest.
pub proof fn lemma_push_consumes_nonce(
    pre: ContentConsumptionContract,
    post: ContentConsumptionContract,
    chain_id: u64,
    now: u64,
    user: Seq<u8>,
    platform_id: Seq<u8>,
    added_consumption: U256,
    deadline: Seq<u8>,
    v: u8,
    r: Seq<u8>,
    s: Seq<u8>,
    res: Result<CcuPushed, Errors>,
)
    requires
        ContentConsumptionContract::push_ccu_post(
            &pre,
            &post,
            chain_id,
            now,
            user,
            platform_id,
            added_consumption,
            deadline,
            v,
            r,
            s,
            res,
        ),
        res is Ok,
        be_value(pre.nonce_word(user, platform_id)) + 1 < word_modulus(),
    ensures
        be_value(post.nonce_word(user, platform_id)) == be_value(pre.nonce_word(user, platform_id))
            + 1,
        consumption_encoding(
            user,
            platform_id,
            added_consumption@,
            post.nonce_word(user, platform_id),
            deadline,
        ) != consumption_encoding(
            user,
            platform_id,
            added_consumption@,
            pre.nonce_word(user, platform_id),
            deadline,
        ),
{
    let n = be_value(pre.nonce_word(user, platform_id)) + 1;
    vstd::arithmetic::div_mod::lemma_small_mod(n as nat, word_modulus());
    let e_post = consumption_encoding(
        user,
        platform_id,
        added_consumption@,
        post.nonce_word(user, platform_id),
        deadline,
    );
    let e_pre = consumption_encoding(
        user,
        platform_id,
        added_consumption@,
        pre.nonce_word(user, platform_id),
        deadline,
    );
    pre.lemma_nonce_word_len(user, platform_id);
    post.lemma_nonce_word_len(user, platform_id);
    if e_post == e_pre {
        let prefix = crate::bytes::keccak_of(crate::eip712::VALIDATE_CONSUMPTION_TYPE.spec_bytes())
            + address_word(user) + platform_id + added_consumption@;
        let o = prefix.len() as int;
        assert(e_post == prefix + post.nonce_word(user, platform_id) + deadline);
        assert(e_pre == prefix + pre.nonce_word(user, platform_id) + deadline);
        assert(e_post.subrange(o, o + 32) =~= post.nonce_word(user, platform_id));
        assert(e_pre.subrange(o, o + 32) =~= pre.nonce_word(user, platform_id));
    }
}

/// The first accepted push that a platform owner signs puts the owner on the
/// allow-list, and from then on a push that the same signer signs is
/// accepted, on any platform, without its ownership being checked again.
pub proof fn lemma_owner_bootstrap(
    s0: ContentConsumptionContract,
    s1: ContentConsumptionContract,
    s2: ContentConsumptionContract,
    signer: Seq<u8>,
    chain_id: u64,
    now1: u64,
    user1: Seq<u8>,
    platform_id1: Seq<u8>,
    added1: U256,
    deadline1: Seq<u8>,
    v1: u8,
    r1: Seq<u8>,
    s1_sig: Seq<u8>,
    res1: Result<CcuPushed, Errors>,
    now2: u64,
    user2: Seq<u8>,
    platform_id2: Seq<u8>,
    added2: U256,
    deadline2: Seq<u8>,
    v2: u8,
    r2: Seq<u8>,
    s2_sig: Seq<u8>,
    res2: Result<CcuPushed, Errors>,
)
    requires
        ContentConsumptionContract::push_ccu_post(
            &s0,
            &s1,
            chain_id,
            now1,
            user1,
            platform_id1,
            added1,
            deadline1,
            v1,
            r1,
            s1_sig,
            res1,
        ),
        s0.push_signer(chain_id, user1, platform_id1, added1@, deadline1, v1, r1, s1_sig) == Some(
            signer,
        ),
        res1 is Ok,
        ContentConsumptionContract::push_ccu_post(
            &s1,
            &s2,
            chain_id,
            now2,
            user2,
            platform_id2,
            added2,
            deadline2,
            v2,
            r2,
            s2_sig,
            res2,
        ),
        s1.push_signer(chain_id, user2, platform_id2, added2@, deadline2, v2, r2, s2_sig) == Some(
            signer,
        ),
    ensures
        is_validator_in(s1.validators(), signer),
        res2 is Ok,
{
}

/// Domain separation across chains: the domain separator is hashed from
/// different bytes on different chain ids.
pub proof fn lemma_domain_differs_across_chains(
    name: Seq<u8>,
    version: Seq<u8>,
    chain_a: u64,
    chain_b: u64,
    contract: Seq<u8>,
)
    requires
        chain_a != chain_b,
    ensures
        domain_encoding(name, version, chain_a, contract) != domain_encoding(
            name,
            version,
            chain_b,
            contract,
        ),
{
    let ea = domain_encoding(name, version, chain_a, contract);
    let eb = domain_encoding(name, version, chain_b, contract);
    if ea == eb {
        let o = ea.len() - address_word(contract).len() - 32;
        assert(ea.subrange(o, o + 32) =~= u64_word(chain_a));
        assert(eb.subrange(o, o + 32) =~= u64_word(chain_b));
        lemma_u64_word_injective(chain_a, chain_b);
    }
}

} // verus!
