//! A keyed store for contract state: byte-string keys, any value, read as a
//! `Map`. Unknown keys read as absent; a write replaces the earlier value.
use vstd::prelude::*;

use crate::bytes::{append_bytes, bytes_eq};

verus! {

/// The map spelled by parallel key and value lists; a later entry for a key
/// overrides an earlier one.
pub open spec fn map_of<V>(ks: Seq<Seq<u8>>, vs: Seq<V>) -> Map<Seq<u8>, V>
    decreases ks.len(),
{
    if ks.len() == 0 {
        Map::empty()
    } else {
        map_of(ks.drop_last(), vs.drop_last()).insert(ks.last(), vs.last())
    }
}

proof fn lemma_map_of_absent<V>(ks: Seq<Seq<u8>>, vs: Seq<V>, k: Seq<u8>)
    requires
        ks.len() == vs.len(),
        forall|j: int| 0 <= j < ks.len() ==> ks[j] != k,
    ensures
        !map_of(ks, vs).contains_key(k),
    decreases ks.len(),
{
    if ks.len() > 0 {
        lemma_map_of_absent(ks.drop_last(), vs.drop_last(), k);
    }
}

proof fn lemma_map_of_last<V>(ks: Seq<Seq<u8>>, vs: Seq<V>, i: int)
    requires
        ks.len() == vs.len(),
        0 <= i < ks.len(),
        forall|j: int| i < j < ks.len() ==> ks[j] != ks[i],
    ensures
        map_of(ks, vs).contains_key(ks[i]),
        map_of(ks, vs)[ks[i]] == vs[i],
    decreases ks.len(),
{
    if i < ks.len() - 1 {
        let k = ks[i];
        assert(ks.drop_last()[i] == k);
        lemma_map_of_last(ks.drop_last(), vs.drop_last(), i);
    }
}

proof fn lemma_map_of_update<V>(ks: Seq<Seq<u8>>, vs: Seq<V>, i: int, v: V)
    requires
        ks.len() == vs.len(),
        0 <= i < ks.len(),
        forall|j: int| i < j < ks.len() ==> ks[j] != ks[i],
    ensures
        map_of(ks, vs.update(i, v)) =~= map_of(ks, vs).insert(ks[i], v),
    decreases ks.len(),
{
    let vs2 = vs.update(i, v);
    if i == ks.len() - 1 {
        assert(vs2.drop_last() =~= vs.drop_last());
    } else {
        assert(vs2.drop_last() =~= vs.drop_last().update(i, v));
        assert(ks.drop_last()[i] == ks[i]);
        lemma_map_of_update(ks.drop_last(), vs.drop_last(), i, v);
    }
}

/// Key-value storage with byte-string keys.
pub struct ByteMap<V> {
    keys: Vec<Vec<u8>>,
    vals: Vec<V>,
}

impl<V> ByteMap<V> {
    pub closed spec fn key_seqs(&self) -> Seq<Seq<u8>> {
        self.keys@.map_values(|k: Vec<u8>| k@)
    }

    /// The lists line up.
    pub closed spec fn wf(&self) -> bool {
        self.keys@.len() == self.vals@.len()
    }

    /// What the store holds.
    pub closed spec fn view(&self) -> Map<Seq<u8>, V> {
        map_of(self.key_seqs(), self.vals@)
    }

    pub fn new() -> (r: ByteMap<V>)
        ensures
            r.wf(),
            r.view() == Map::<Seq<u8>, V>::empty(),
    {
        let r = ByteMap { keys: Vec::new(), vals: Vec::new() };
        assert(r.key_seqs().len() == 0);
        r
    }

    /// The position of the last entry for `k`.
    fn find(&self, k: &[u8]) -> (r: Option<usize>)
        requires
            self.wf(),
        ensures
            match r {
                Some(i) => i < self.keys@.len() && self.key_seqs()[i as int] == k@ && forall|j: int|
                    i < j < self.keys@.len() ==> self.key_seqs()[j] != k@,
                None => forall|j: int| 0 <= j < self.keys@.len() ==> self.key_seqs()[j] != k@,
            },
    {
        let mut n: usize = self.keys.len();
        while n > 0
            invariant
                0 <= n <= self.keys@.len(),
                forall|j: int| n <= j < self.keys@.len() ==> self.key_seqs()[j] != k@,
            decreases n,
        {
            let i = n - 1;
            if bytes_eq(self.keys[i].as_slice(), k) {
                return Some(i);
            }
            n = i;
        }
        None
    }

    /// The value stored under `k`, if any.
    pub fn get(&self, k: &[u8]) -> (r: Option<&V>)
        requires
            self.wf(),
        ensures
            r.is_some() == self.view().contains_key(k@),
            r.is_some() ==> *r.unwrap() == self.view()[k@],
    {
        match self.find(k) {
            Some(i) => {
                proof {
                    lemma_map_of_last(self.key_seqs(), self.vals@, i as int);
                }
                Some(&self.vals[i])
            },
            None => {
                proof {
                    lemma_map_of_absent(self.key_seqs(), self.vals@, k@);
                }
                None
            },
        }
    }

    /// Stores `v` under `k`, replacing what was there.
    pub fn insert(&mut self, k: &[u8], v: V)
        requires
            old(self).wf(),
        ensures
            final(self).wf(),
            final(self).view() == old(self).view().insert(k@, v),
    {
        match self.find(k) {
            Some(i) => {
                proof {
                    lemma_map_of_update(self.key_seqs(), self.vals@, i as int, v);
                }
                self.vals.set(i, v);
            },
            None => {
                let mut key: Vec<u8> = Vec::new();
                append_bytes(&mut key, k);
                self.keys.push(key);
                self.vals.push(v);
                proof {
                    assert(self.key_seqs().drop_last() =~= old(self).key_seqs());
                    assert(self.vals@.drop_last() =~= old(self).vals@);
                }
            },
        }
    }
}

} // verus!
