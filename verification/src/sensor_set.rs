//! A set of sensor identifiers, as the allow-list, the deny-list and the record of
//! sensors already announced use it.

use crate::sensor_id::{lemma_key_injective, SensorId};
use std::collections::HashSet;
use vstd::prelude::*;
use vstd::relations::injective_on;
use vstd::set_lib::lemma_map_size;

verus! {

broadcast use vstd::std_specs::hash::group_hash_axioms;

/// The sensor that is filed under `k`.
pub open spec fn sensor_of_key(k: u64) -> SensorId {
    SensorId {
        bytes: [
            (k / 0x100_0000_0000 % 256) as u8,
            (k / 0x1_0000_0000 % 256) as u8,
            (k / 0x100_0000 % 256) as u8,
            (k / 0x1_0000 % 256) as u8,
            (k / 0x100 % 256) as u8,
            (k % 256) as u8,
        ],
    }
}

/// Every number below 2^48 is the key of the sensor it is read back as.
pub proof fn lemma_sensor_of_key(k: u64)
    requires
        k < 0x1_0000_0000_0000,
    ensures
        sensor_of_key(k).spec_key() == k,
{
}

/// A finite set of sensors. Members are filed under `SensorId::key`.
#[derive(Debug)]
pub struct SensorSet {
    keys: HashSet<u64>,
}

impl View for SensorSet {
    type V = Set<SensorId>;

    closed spec fn view(&self) -> Set<SensorId> {
        Set::new(|id: SensorId| self.keys@.contains(id.spec_key() as u64))
    }
}

impl SensorSet {
    #[verifier::type_invariant]
    spec fn keys_are_addresses(self) -> bool {
        &&& self.keys@.finite()
        &&& forall|k: u64| self.keys@.contains(k) ==> k < 0x1_0000_0000_0000
    }

    proof fn lemma_view_is_image(self)
        requires
            self.keys_are_addresses(),
        ensures
            self@ == self.keys@.map(|k: u64| sensor_of_key(k)),
            injective_on(|k: u64| sensor_of_key(k), self.keys@),
            self@.finite(),
            self@.len() == self.keys@.len(),
    {
        let f = |k: u64| sensor_of_key(k);
        let image = self.keys@.map(f);
        assert forall|id: SensorId| self@.contains(id) == image.contains(id) by {
            if self@.contains(id) {
                let k = id.spec_key() as u64;
                lemma_sensor_of_key(k);
                lemma_key_injective(id, sensor_of_key(k));
                assert(self.keys@.contains(k) && f(k) == id);
            }
            if image.contains(id) {
                let k = choose|k: u64| self.keys@.contains(k) && f(k) == id;
                lemma_sensor_of_key(k);
            }
        }
        assert(self@ =~= image);
        assert forall|a: u64, b: u64|
            self.keys@.contains(a) && self.keys@.contains(b) && #[trigger] f(a) == #[trigger] f(
                b,
            ) implies a == b by {
            lemma_sensor_of_key(a);
            lemma_sensor_of_key(b);
        }
        lemma_map_size(self.keys@, image, f);
    }

    /// The empty set.
    pub fn new() -> (s: SensorSet)
        ensures
            s@ == Set::<SensorId>::empty(),
    {
        let s = SensorSet { keys: HashSet::new() };
        assert(s@ =~= Set::<SensorId>::empty());
        s
    }

    /// Adds `id`. Returns whether it was absent before.
    pub fn insert(&mut self, id: SensorId) -> (fresh: bool)
        ensures
            final(self)@ == old(self)@.insert(id),
            fresh == !old(self)@.contains(id),
    {
        proof {
            use_type_invariant(&*self);
        }
        let mut keys = HashSet::new();
        std::mem::swap(&mut keys, &mut self.keys);
        let fresh = keys.insert(id.key());
        self.keys = keys;
        proof {
            assert forall|other: SensorId|
                self@.contains(other) == old(self)@.insert(id).contains(other) by {
                lemma_key_injective(id, other);
            }
            assert(self@ =~= old(self)@.insert(id));
        }
        fresh
    }

    /// Whether `id` is a member.
    pub fn contains(&self, id: &SensorId) -> (found: bool)
        ensures
            found == self@.contains(*id),
    {
        let k = id.key();
        self.keys.contains(&k)
    }

    /// The number of members.
    pub fn len(&self) -> (n: usize)
        ensures
            self@.finite(),
            n == self@.len(),
    {
        proof {
            use_type_invariant(self);
            self.lemma_view_is_image();
        }
        self.keys.len()
    }

    /// Whether the set has no member.
    pub fn is_empty(&self) -> (empty: bool)
        ensures
            empty == (self@ == Set::<SensorId>::empty()),
    {
        proof {
            use_type_invariant(self);
            self.lemma_view_is_image();
            if self@.len() == 0 {
                assert(self@ =~= Set::<SensorId>::empty());
            }
        }
        self.keys.len() == 0
    }
}

} // verus!
