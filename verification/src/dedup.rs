//! The duplicate cache: the last payload seen from each sensor.

use crate::sensor_id::{lemma_key_injective, SensorId};
use std::collections::HashMap;
use vstd::prelude::*;
use vstd::slice::slice_to_vec;

verus! {

broadcast use vstd::std_specs::hash::group_hash_axioms;

/// Remembers, for each sensor, the payload it sent last. Entries are never dropped.
#[derive(Debug)]
pub struct DedupCache {
    last: HashMap<u64, Vec<u8>>,
}

impl View for DedupCache {
    type V = Map<SensorId, Seq<u8>>;

    closed spec fn view(&self) -> Map<SensorId, Seq<u8>> {
        Map::new(
            |id: SensorId| self.last@.contains_key(id.spec_key() as u64),
            |id: SensorId| self.last@[id.spec_key() as u64]@,
        )
    }
}

/// Whether `payload` is, byte for byte, what the cache holds for `id`.
pub open spec fn is_duplicate(cache: Map<SensorId, Seq<u8>>, id: SensorId, payload: Seq<u8>) -> bool {
    cache.contains_key(id) && cache[id] == payload
}

/// The cache after `payload` from `id` was looked at: unchanged on a duplicate,
/// else with `payload` as the last one seen from `id`.
pub open spec fn recorded(cache: Map<SensorId, Seq<u8>>, id: SensorId, payload: Seq<u8>) -> Map<
    SensorId,
    Seq<u8>,
> {
    if is_duplicate(cache, id, payload) {
        cache
    } else {
        cache.insert(id, payload)
    }
}

/// Whether two byte strings are equal.
pub fn same_bytes(a: &[u8], b: &[u8]) -> (same: bool)
    ensures
        same == (a@ == b@),
{
    if a.len() != b.len() {
        return false;
    }
    let mut i: usize = 0;
    while i < a.len()
        invariant
            a@.len() == b@.len(),
            i <= a@.len(),
            forall|j: int| 0 <= j < i ==> a@[j] == b@[j],
        decreases a@.len() - i,
    {
        if a[i] != b[i] {
            return false;
        }
        i += 1;
    }
    assert(a@ =~= b@);
    true
}

impl DedupCache {
    /// A cache that has seen nothing.
    pub fn new() -> (cache: DedupCache)
        ensures
            cache@ == Map::<SensorId, Seq<u8>>::empty(),
    {
        let cache = DedupCache { last: HashMap::new() };
        assert(cache@ =~= Map::<SensorId, Seq<u8>>::empty());
        cache
    }

    /// Looks `payload` up and records it unless it is a duplicate.
    ///
    /// Returns `true`, and leaves the cache as it is, iff `payload` equals the last
    /// payload recorded for `id`. Otherwise `payload` becomes the last one recorded
    /// for `id`, no other entry changes, and the result is `false`.
    pub fn is_duplicate_and_record(&mut self, id: &SensorId, payload: &[u8]) -> (duplicate: bool)
        ensures
            duplicate == is_duplicate(old(self)@, *id, payload@),
            final(self)@ == recorded(old(self)@, *id, payload@),
    {
        let key = id.key();
        let duplicate = match self.last.get(&key) {
            Some(previous) => same_bytes(previous.as_slice(), payload),
            None => false,
        };
        if !duplicate {
            self.last.insert(key, slice_to_vec(payload));
            proof {
                let after = old(self)@.insert(*id, payload@);
                assert forall|other: SensorId|
                    self@.contains_key(other) == after.contains_key(other) by {
                    lemma_key_injective(*id, other);
                }
                assert forall|other: SensorId| self@.contains_key(other) implies self@[other]
                    == after[other] by {
                    lemma_key_injective(*id, other);
                }
                assert(self@ =~= after);
            }
        }
        duplicate
    }
}

/// The same payload from the same sensor twice in a row: the second is a duplicate
/// and changes nothing, and the first is one only if the cache held that payload
/// already, so never on a cache that has no entry for the sensor.
pub proof fn lemma_repeat_is_duplicate(cache: Map<SensorId, Seq<u8>>, id: SensorId, payload: Seq<u8>)
    ensures
        is_duplicate(recorded(cache, id, payload), id, payload),
        recorded(recorded(cache, id, payload), id, payload) == recorded(cache, id, payload),
        !cache.contains_key(id) ==> !is_duplicate(cache, id, payload),
{
}

/// After a payload was recorded for a sensor, a different payload from that sensor
/// is no duplicate, however often the first one was repeated in between.
pub proof fn lemma_change_is_no_duplicate(
    cache: Map<SensorId, Seq<u8>>,
    id: SensorId,
    payload: Seq<u8>,
    other: Seq<u8>,
)
    requires
        other != payload,
    ensures
        !is_duplicate(recorded(cache, id, payload), id, other),
        !is_duplicate(recorded(recorded(cache, id, payload), id, payload), id, other),
        recorded(recorded(cache, id, payload), id, other)[id] == other,
{
}

/// What one sensor sends leaves the entries of every other sensor alone.
pub proof fn lemma_record_keeps_others(
    cache: Map<SensorId, Seq<u8>>,
    id: SensorId,
    payload: Seq<u8>,
    other: SensorId,
)
    requires
        other != id,
    ensures
        recorded(cache, id, payload).contains_key(other) == cache.contains_key(other),
        cache.contains_key(other) ==> recorded(cache, id, payload)[other] == cache[other],
{
}

} // verus!
