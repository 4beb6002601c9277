//! Who stands in base contact with whom.

use vstd::prelude::*;
use crate::simulator::fighter::Fighter;
use crate::simulator::fighter::Group;

verus! {

/// A fighter of the left group and one of the right, by their ids.
pub type Pair = (u16, u16);

/// Whether `pair` has the fighter with id `id` in it.
pub open spec fn involves(id: u16) -> spec_fn(Pair) -> bool {
    |pair: Pair| pair.0 == id || pair.1 == id
}

/// The relation "stands in base contact with", between the fighters of the
/// two groups of one fight. It also hands out the fighters' ids.
pub struct DistanceMap {
    next_id: u16,
    engaged: Vec<Pair>,
}

impl DistanceMap {
    #[verifier::type_invariant]
    spec fn wf(self) -> bool {
        self.engaged@.no_duplicates()
    }

    /// The pairs in base contact.
    pub closed spec fn pairs(&self) -> Seq<Pair> {
        self.engaged@
    }

    /// The id that the next fighter to register gets.
    pub closed spec fn next_id(&self) -> u16 {
        self.next_id
    }

    /// The pair that a fighter and an opponent make: the id of the one in
    /// the left group comes first.
    pub open spec fn key(fighter_group: Group, fighter_id: u16, opponent_id: u16) -> Pair {
        match fighter_group {
            Group::Left => (fighter_id, opponent_id),
            Group::Right => (opponent_id, fighter_id),
        }
    }

    /// Whether `fighter` and `opponent` stand in base contact.
    pub open spec fn in_contact(&self, fighter: Fighter, opponent: Fighter) -> bool {
        self.pairs().contains(Self::key(fighter.group, fighter.distance_id, opponent.distance_id))
    }

    /// Base contact is mutual: between fighters of the two groups it reads
    /// the same from either side.
    pub proof fn lemma_contact_is_mutual(&self, fighter: Fighter, opponent: Fighter)
        requires
            fighter.group != opponent.group,
        ensures
            self.in_contact(fighter, opponent) == self.in_contact(opponent, fighter),
    {
    }

    /// With how many others the fighter with id `id` stands in base contact.
    pub open spec fn contacts(&self, id: u16) -> nat {
        self.pairs().filter(involves(id)).len()
    }

    /// A map without fighters.
    pub fn new() -> (r: Self)
        ensures
            r.pairs() == Seq::<Pair>::empty(),
            r.next_id() == 0,
    {
        DistanceMap { next_id: 0, engaged: Vec::new() }
    }

    pub fn get_key(fighter_group: Group, fighter_id: u16, opponent_id: u16) -> (r: Pair)
        ensures
            r == Self::key(fighter_group, fighter_id, opponent_id),
    {
        match fighter_group {
            Group::Left => (fighter_id, opponent_id),
            Group::Right => (opponent_id, fighter_id),
        }
    }

    /// Whether another fighter can register: ids run from 0 to 65534.
    pub fn has_room(&self) -> (r: bool)
        ensures
            r == (self.next_id() < u16::MAX),
    {
        self.next_id < u16::MAX
    }

    /// Gives a new fighter its id. It stands in base contact with nobody.
    pub fn register_fighter(&mut self, group: Group) -> (id: u16)
        requires
            old(self).next_id() < u16::MAX,
        ensures
            id == old(self).next_id(),
            final(self).next_id() == id + 1,
            final(self).pairs() == old(self).pairs(),
    {
        proof {
            use_type_invariant(&*self);
        }
        let fighter_id = self.next_id;
        self.next_id = self.next_id + 1;
        fighter_id
    }

    fn position(&self, key: Pair) -> (r: Option<usize>)
        ensures
            match r {
                Some(at) => at < self.pairs().len() && self.pairs()[at as int] == key,
                None => !self.pairs().contains(key),
            },
    {
        let mut i: usize = 0;
        while i < self.engaged.len()
            invariant
                i <= self.engaged.len(),
                forall|k: int| 0 <= k < i ==> self.engaged[k] != key,
            decreases self.engaged.len() - i,
        {
            let pair = self.engaged[i];
            if pair.0 == key.0 && pair.1 == key.1 {
                return Some(i);
            }
            i = i + 1;
        }
        None
    }

    pub fn base_contact(&self, fighter: &Fighter, opponent: &Fighter) -> (r: bool)
        ensures
            r == self.in_contact(*fighter, *opponent),
    {
        let key = Self::get_key(fighter.group, fighter.distance_id, opponent.distance_id);
        self.position(key).is_some()
    }

    /// Puts `fighter` and `opponent` into base contact or takes them out of
    /// it. No other pair is touched.
    pub fn set_base_contact(&mut self, fighter: &Fighter, opponent: &Fighter, value: bool)
        ensures
            final(self).in_contact(*fighter, *opponent) == value,
            forall|pair: Pair|
                pair != Self::key(fighter.group, fighter.distance_id, opponent.distance_id) ==> (
                #[trigger] final(self).pairs().contains(pair)) == old(self).pairs().contains(pair),
            final(self).next_id() == old(self).next_id(),
    {
        proof {
            use_type_invariant(&*self);
        }
        let key = Self::get_key(fighter.group, fighter.distance_id, opponent.distance_id);
        let ghost before = self.engaged@;
        let found = self.position(key);
        let mut engaged: Vec<Pair> = Vec::new();
        core::mem::swap(&mut self.engaged, &mut engaged);
        match found {
            Some(at) => {
                if !value {
                    engaged.remove(at);
                    proof {
                        let after = engaged@;
                        assert(after == before.remove(at as int));
                        assert forall|pair: Pair| pair != key implies after.contains(pair)
                            == before.contains(pair) by {
                            if before.contains(pair) {
                                let k = choose|k: int| 0 <= k < before.len() && before[k] == pair;
                                if k < at {
                                    assert(after[k] == pair);
                                } else {
                                    assert(after[k - 1] == pair);
                                }
                            }
                            if after.contains(pair) {
                                let k = choose|k: int| 0 <= k < after.len() && after[k] == pair;
                                if k < at {
                                    assert(before[k] == pair);
                                } else {
                                    assert(before[k + 1] == pair);
                                }
                            }
                        }
                        assert(!after.contains(key)) by {
                            if after.contains(key) {
                                let k = choose|k: int| 0 <= k < after.len() && after[k] == key;
                                if k < at {
                                    assert(before[k] == key);
                                } else {
                                    assert(before[k + 1] == key);
                                }
                            }
                        }
                        assert(after.no_duplicates()) by {
                            assert forall|i: int, j: int|
                                0 <= i < after.len() && 0 <= j < after.len() && i != j implies after[i]
                                != after[j] by {
                                let bi = if i < at { i } else { i + 1 };
                                let bj = if j < at { j } else { j + 1 };
                                assert(after[i] == before[bi]);
                                assert(after[j] == before[bj]);
                            }
                        }
                    }
                }
            },
            None => {
                if value {
                    engaged.push(key);
                    proof {
                        let after = engaged@;
                        assert(after == before.push(key));
                        assert(after[before.len() as int] == key);
                        assert forall|pair: Pair| pair != key implies after.contains(pair)
                            == before.contains(pair) by {
                            if before.contains(pair) {
                                let k = choose|k: int| 0 <= k < before.len() && before[k] == pair;
                                assert(after[k] == pair);
                            }
                        }
                    }
                }
            },
        }
        self.engaged = engaged;
    }

    /// With how many others `fighter` stands in base contact.
    pub fn all_base_contacts(&self, fighter: &Fighter) -> (r: usize)
        ensures
            r == self.contacts(fighter.distance_id),
    {
        let id = fighter.distance_id;
        let ghost pred = involves(id);
        let ghost all = self.engaged@;
        let mut count: usize = 0;
        let mut i: usize = 0;
        proof {
            reveal(Seq::filter);
            assert(all.take(0) =~= Seq::<Pair>::empty());
        }
        while i < self.engaged.len()
            invariant
                i <= self.engaged.len(),
                all == self.engaged@,
                pred == involves(id),
                count == all.take(i as int).filter(pred).len(),
                count <= i,
            decreases self.engaged.len() - i,
        {
            let pair = self.engaged[i];
            proof {
                reveal(Seq::filter);
                let next = all.take(i as int + 1);
                assert(next.drop_last() =~= all.take(i as int));
                assert(next.last() == pair);
                assert(next.filter(pred) == if pred(pair) {
                    all.take(i as int).filter(pred).push(pair)
                } else {
                    all.take(i as int).filter(pred)
                });
            }
            if pair.0 == id || pair.1 == id {
                count = count + 1;
            }
            i = i + 1;
        }
        proof {
            assert(all.take(all.len() as int) =~= all);
        }
        count
    }
}

impl Default for DistanceMap {
    fn default() -> (r: Self)
        ensures
            r.pairs() == Seq::<Pair>::empty(),
            r.next_id() == 0,
    {
        DistanceMap::new()
    }
}

} // verus!
