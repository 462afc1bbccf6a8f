//! Per-(user, platform) consumption counters, with the one-minute cooldown
//! between two updates of the same pair.
use vstd::prelude::*;

use crate::bytes::{append_bytes, word_modulus, Address, B256, U256};
use crate::errors::Errors;
use crate::store::ByteMap;

verus! {

/// Seconds that must pass between two updates of the same (user, platform) pair.
pub const UPDATE_COOLDOWN: u64 = 60;

/// Announces a user's new consumption total on a platform.
#[derive(Clone, Copy, Debug, PartialEq, Eq)]
pub struct CcuPushed {
    pub platform_id: B256,
    pub user: Address,
    pub total_consumption: U256,
}

/// A user's consumption on one platform.
#[derive(Clone, Copy, Debug, PartialEq, Eq)]
pub struct UserConsumption {
    /// Cumulative consumption units.
    pub ccu: U256,
    /// Chain time of the last accepted update.
    pub update_timestamp: u64,
}

/// The storage key of a (user, platform) pair: the address, then the id.
pub open spec fn pair_key(user: Seq<u8>, platform_id: Seq<u8>) -> Seq<u8> {
    user + platform_id
}

/// The (total, last update) record under `key`; zeros for a pair never updated.
pub open spec fn record_in(m: Map<Seq<u8>, (nat, u64)>, key: Seq<u8>) -> (nat, u64) {
    if m.contains_key(key) {
        m[key]
    } else {
        (0, 0)
    }
}

/// The records after adding `added` to the pair under `key` at chain time
/// `now`, or `TooFrequentUpdate` where the last update is less than a
/// minute old.
pub open spec fn cooldown_outcome(m: Map<Seq<u8>, (nat, u64)>, now: u64, key: Seq<u8>, added: nat) -> Result<
    Map<Seq<u8>, (nat, u64)>,
    Errors,
> {
    let (ccu, last) = record_in(m, key);
    if last + UPDATE_COOLDOWN > now {
        Err(Errors::TooFrequentUpdate)
    } else {
        Ok(m.insert(key, (ccu + added, now)))
    }
}

/// The view of a consumption record.
pub open spec fn record_view(c: UserConsumption) -> (nat, u64) {
    (c.ccu.value(), c.update_timestamp)
}

/// Builds the storage key of a (user, platform) pair.
pub fn pair_key_bytes(user: &Address, platform_id: &B256) -> (r: Vec<u8>)
    ensures
        r@ == pair_key(user@, platform_id@),
{
    let mut key: Vec<u8> = Vec::new();
    append_bytes(&mut key, &user.bytes);
    append_bytes(&mut key, &platform_id.bytes);
    assert(key@ =~= pair_key(user@, platform_id@));
    key
}

/// Consumption records keyed by (user, platform).
pub struct ConsumptionContract {
    user_consumptions: ByteMap<UserConsumption>,
}

impl ConsumptionContract {
    /// The records by pair key, as (total, last update).
    pub closed spec fn records(&self) -> Map<Seq<u8>, (nat, u64)> {
        self.user_consumptions.view().map_values(|c: UserConsumption| record_view(c))
    }

    pub closed spec fn wf(&self) -> bool {
        self.user_consumptions.wf()
    }

    pub fn new() -> (r: ConsumptionContract)
        ensures
            r.wf(),
            r.records() == Map::<Seq<u8>, (nat, u64)>::empty(),
    {
        let r = ConsumptionContract { user_consumptions: ByteMap::new() };
        assert(r.records() =~= Map::<Seq<u8>, (nat, u64)>::empty());
        r
    }

    fn record(&self, key: &Vec<u8>) -> (r: UserConsumption)
        requires
            self.wf(),
        ensures
            record_view(r) == record_in(self.records(), key@),
    {
        match self.user_consumptions.get(key.as_slice()) {
            Some(c) => *c,
            None => UserConsumption { ccu: U256::zero(), update_timestamp: 0 },
        }
    }

    /// Adds `added_consumption` to the user's total on the platform at chain
    /// time `now`. Fails with `TooFrequentUpdate` when the pair's last update
    /// is less than a minute before `now`.
    pub fn update_user_consumption(
        &mut self,
        now: u64,
        user: &Address,
        platform_id: &B256,
        added_consumption: &U256,
    ) -> (r: Result<CcuPushed, Errors>)
        requires
            old(self).wf(),
            record_in(old(self).records(), pair_key(user@, platform_id@)).0
                + added_consumption.value() < word_modulus(),
        ensures
            final(self).wf(),
            match cooldown_outcome(
                old(self).records(),
                now,
                pair_key(user@, platform_id@),
                added_consumption.value(),
            ) {
                Ok(m) => r is Ok && final(self).records() == m && r.unwrap().platform_id
                    == *platform_id && r.unwrap().user == *user
                    && r.unwrap().total_consumption.value() == m[pair_key(
                    user@,
                    platform_id@,
                )].0,
                Err(e) => r == Err::<CcuPushed, Errors>(e) && final(self).records() == old(self).records(),
            },
    {
        let key = pair_key_bytes(user, platform_id);
        let current = self.record(&key);
        if (current.update_timestamp as u128) + (UPDATE_COOLDOWN as u128) > now as u128 {
            return Err(Errors::TooFrequentUpdate);
        }
        let total = current.ccu.checked_add(added_consumption).unwrap();
        let updated = UserConsumption { ccu: total, update_timestamp: now };
        self.user_consumptions.insert(key.as_slice(), updated);
        proof {
            assert(self.records() =~= old(self).records().insert(key@, record_view(updated)));
        }
        Ok(CcuPushed { platform_id: *platform_id, user: *user, total_consumption: total })
    }

    /// The user's (total, last update time) on the platform; zeros if never updated.
    pub fn get_user_consumption(&self, user: &Address, platform_id: &B256) -> (r: Result<
        (U256, u64),
        Errors,
    >)
        requires
            self.wf(),
        ensures
            r is Ok,
            (r.unwrap().0.value(), r.unwrap().1) == record_in(
                self.records(),
                pair_key(user@, platform_id@),
            ),
    {
        let key = pair_key_bytes(user, platform_id);
        let c = self.record(&key);
        Ok((c.ccu, c.update_timestamp))
    }
}

} // verus!
