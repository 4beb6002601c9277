//! A fighter's turn: the attacks with each weapon, the sweep, the steps
//! forward and back.

use vstd::prelude::*;
use crate::character::edges::Edge3;
use crate::simulator::distance::DistanceMap;
use crate::simulator::distance::Pair;
use crate::simulator::fight_report::capped_sum;
use crate::simulator::fight_report::FightStats;
use crate::simulator::fighter::all_follow;
use crate::simulator::course::Scene;
use crate::simulator::fighter::is_hit;
use crate::simulator::fighter::no_results;
use crate::simulator::fighter::AttackResult;
use crate::simulator::fighter::Battlefield;
use crate::simulator::fighter::CriticalFailResult;
use crate::simulator::fighter::CriticalMiss;
use crate::simulator::fighter::Fighter;
use crate::simulator::fighter::NoOpponentLeft;
use crate::simulator::roller::Roll;
use crate::simulator::roller::RollError;

verus! {

/// Whether an entry of a sweep is a hit or a raise.
pub open spec fn sweep_hit(result: Option<AttackResult>) -> bool {
    result is Some && is_hit(result->Some_0)
}

/// How many of the first `n` entries of a sweep are hits or raises.
pub open spec fn sweep_hits(results: Seq<Option<AttackResult>>, n: nat) -> nat
    decreases n,
{
    if n == 0 {
        0
    } else {
        sweep_hits(results, (n - 1) as nat) + if sweep_hit(results[n - 1]) {
            1nat
        } else {
            0nat
        }
    }
}

/// How many of the first `n` entries of a sweep are hits or raises on an
/// opponent whose hits are counted.
pub open spec fn sweep_hits_counted(
    opponents: Seq<Fighter>,
    results: Seq<Option<AttackResult>>,
    n: nat,
) -> nat
    decreases n,
{
    if n == 0 {
        0
    } else {
        sweep_hits_counted(opponents, results, (n - 1) as nat) + if sweep_hit(results[n - 1])
            && opponents[n - 1].counted {
            1nat
        } else {
            0nat
        }
    }
}

impl Fighter {
    /// How many dice the main weapon attacks with, and what the attack
    /// roll and the damage gain or lose: two dice with the lightning-blow
    /// edge, at 2 less without its improved tier; 2 more on both for a wild
    /// attack; 2 less for a second weapon in use without the edge for it.
    pub open spec fn primary_attack(&self) -> (usize, i8, i8) {
        let (num_rolls, blitz): (usize, i8) = match self.character.edges.blitzhieb {
            Edge3::Off => (1, 0),
            Edge3::Normal => (2, -2i8),
            Edge3::Improved => (2, 0),
        };
        let wild: i8 = if self.character.passive_modifiers.attack_wild.0 {
            2
        } else {
            0
        };
        let off_hand: i8 = if self.character.secondary_weapon.active
            && !self.character.edges.beidhandiger_kampf.0 {
            -2i8
        } else {
            0
        };
        (num_rolls, (blitz + wild + off_hand) as i8, wild)
    }

    /// What the attack roll and the damage of the second weapon gain or
    /// lose: 2 more on both for a wild attack; 2 less for one who is not
    /// ambidextrous, and 2 less for a main weapon in use without the edge
    /// for fighting with two.
    pub open spec fn secondary_attack(&self) -> (i8, i8) {
        let wild: i8 = if self.character.passive_modifiers.attack_wild.0 {
            2
        } else {
            0
        };
        let wrong_hand: i8 = if !self.character.edges.beidhandig.0 {
            -2i8
        } else {
            0
        };
        let main_hand: i8 = if self.character.weapon.active
            && !self.character.edges.beidhandiger_kampf.0 {
            -2i8
        } else {
            0
        };
        ((wild + wrong_hand + main_hand) as i8, wild)
    }

    /// What the one roll of a sweep and its damage gain or lose: 2 more on
    /// both for a wild attack; 2 less for a second weapon in use without
    /// the edge for it.
    pub open spec fn sweep_attack(&self) -> (i8, i8) {
        let wild: i8 = if self.character.passive_modifiers.attack_wild.0 {
            2
        } else {
            0
        };
        let off_hand: i8 = if self.character.secondary_weapon.active
            && !self.character.edges.beidhandiger_kampf.0 {
            -2i8
        } else {
            0
        };
        ((wild + off_hand) as i8, wild)
    }

    pub fn primary_attack_modifiers(&self) -> (r: (usize, i8, i8))
        ensures
            r == self.primary_attack(),
    {
        let mut dmg_modifier: i8 = 0;
        let (num_rolls, mut attack_modifier): (usize, i8) = match self.character.edges.blitzhieb {
            Edge3::Off => (1, 0),
            Edge3::Normal => (2, -2),
            Edge3::Improved => (2, 0),
        };
        if self.character.passive_modifiers.attack_wild.is_set() {
            attack_modifier = attack_modifier + 2;
            dmg_modifier = dmg_modifier + 2;
        }
        if self.character.secondary_weapon.active
            && !self.character.edges.beidhandiger_kampf.is_set() {
            attack_modifier = attack_modifier - 2;
        }
        (num_rolls, attack_modifier, dmg_modifier)
    }

    pub fn secondary_attack_modifiers(&self) -> (r: (i8, i8))
        ensures
            r == self.secondary_attack(),
    {
        let mut attack_modifier: i8 = 0;
        let mut dmg_modifier: i8 = 0;
        if self.character.passive_modifiers.attack_wild.is_set() {
            attack_modifier = attack_modifier + 2;
            dmg_modifier = dmg_modifier + 2;
        }
        if !self.character.edges.beidhandig.is_set() {
            attack_modifier = attack_modifier - 2;
        }
        if self.character.weapon.active && !self.character.edges.beidhandiger_kampf.is_set() {
            attack_modifier = attack_modifier - 2;
        }
        (attack_modifier, dmg_modifier)
    }

    pub fn sweep_attack_modifiers(&self) -> (r: (i8, i8))
        ensures
            r == self.sweep_attack(),
    {
        let mut attack_modifier: i8 = 0;
        let mut dmg_modifier: i8 = 0;
        if self.character.passive_modifiers.attack_wild.is_set() {
            attack_modifier = attack_modifier + 2;
            dmg_modifier = dmg_modifier + 2;
        }
        if self.character.secondary_weapon.active
            && !self.character.edges.beidhandiger_kampf.is_set() {
            attack_modifier = attack_modifier - 2;
        }
        (attack_modifier, dmg_modifier)
    }

    /// The fighter as it goes into an attack of its turn: marked as
    /// attacking wildly where the sheet says to attack so.
    pub open spec fn set_wild(self) -> Fighter {
        if self.character.passive_modifiers.attack_wild.0 {
            Fighter { attacked_wild: true, ..self }
        } else {
            self
        }
    }

    /// Attacks `opponent` with the main weapon and follows up on every die.
    /// The attack is marked as wild where the sheet says to attack wildly,
    /// and leaves what `attack_outcome` says of the attacker so marked.
    pub fn attack_with_primary_weapon(&mut self, opponent: &mut Fighter, field: &mut Battlefield)
        ensures
            final(self).follows(*old(self)),
            final(opponent).follows(*old(opponent)),
            final(field).keeps_places(*old(field)),
            final(self).attacked_wild == (old(self).attacked_wild || old(self).character.passive_modifiers.attack_wild.0),
            final(opponent).keeps_wild(*old(opponent)),
            Self::attack_outcome(
                old(self).set_wild(),
                *old(opponent),
                old(field).stats,
                old(field).distance_map.contacts(old(opponent).distance_id),
                old(self).primary_attack().1,
                old(self).primary_attack().2,
                old(self).primary_attack().0 as nat,
                *final(self),
                *final(opponent),
                final(field).stats,
            ),
    {
        let (num_rolls, attack_modifier, dmg_modifier) = self.primary_attack_modifiers();
        if self.character.passive_modifiers.attack_wild.is_set() {
            self.attacked_wild = true;
        }
        self.attack_with(true, opponent, num_rolls, (attack_modifier, dmg_modifier), field);
    }

    /// Attacks `opponent` with the second weapon. The attack is marked as
    /// wild where the sheet says to attack wildly, and leaves what
    /// `attack_outcome` says of the attacker so marked.
    pub fn attack_with_second_weapon(&mut self, opponent: &mut Fighter, field: &mut Battlefield)
        ensures
            final(self).follows(*old(self)),
            final(opponent).follows(*old(opponent)),
            final(field).keeps_places(*old(field)),
            final(self).attacked_wild == (old(self).attacked_wild || old(self).character.passive_modifiers.attack_wild.0),
            final(opponent).keeps_wild(*old(opponent)),
            Self::attack_outcome(
                old(self).set_wild(),
                *old(opponent),
                old(field).stats,
                old(field).distance_map.contacts(old(opponent).distance_id),
                old(self).secondary_attack().0,
                old(self).secondary_attack().1,
                1,
                *final(self),
                *final(opponent),
                final(field).stats,
            ),
    {
        let (attack_modifier, dmg_modifier) = self.secondary_attack_modifiers();
        if self.character.passive_modifiers.attack_wild.is_set() {
            self.attacked_wild = true;
        }
        self.attack_with(false, opponent, 1, (attack_modifier, dmg_modifier), field);
    }

    /// With how many of `opponents` the fighter stands in base contact.
    pub open spec fn engaged_with(&self, opponents: Seq<Fighter>, distance_map: DistanceMap) -> nat
        decreases opponents.len(),
    {
        if opponents.len() == 0 {
            0
        } else {
            self.engaged_with(opponents.drop_last(), distance_map) + if distance_map.in_contact(
                *self,
                opponents.last(),
            ) {
                1nat
            } else {
                0nat
            }
        }
    }

    /// Whether a sweep pays: the fighter has the edge and stands in base
    /// contact with at least two opponents.
    pub fn wanna_do_rundumschlag(&self, opponents: &Vec<Fighter>, distance_map: &DistanceMap) -> (r:
        bool)
        ensures
            r == (self.character.edges.rundumschlag.0 && self.engaged_with(
                opponents@,
                *distance_map,
            ) >= 2),
    {
        if !self.character.edges.rundumschlag.is_set() {
            return false;
        }
        let mut count_attackable: usize = 0;
        let mut i: usize = 0;
        proof {
            assert(opponents@.take(0) =~= Seq::<Fighter>::empty());
        }
        while i < opponents.len()
            invariant
                i <= opponents.len(),
                count_attackable <= i,
                count_attackable == self.engaged_with(opponents@.take(i as int), *distance_map),
            decreases opponents.len() - i,
        {
            proof {
                assert(opponents@.take(i as int + 1).drop_last() =~= opponents@.take(i as int));
            }
            if distance_map.base_contact(self, &opponents[i]) {
                count_attackable = count_attackable + 1;
            }
            i = i + 1;
        }
        proof {
            assert(opponents@.take(opponents.len() as int) =~= opponents@);
        }
        count_attackable >= 2
    }

    /// Holds one attack roll against every opponent in base contact.
    /// Opponents out of contact get no entry.
    pub fn sweep_results(
        &self,
        opponents: &Vec<Fighter>,
        distance_map: &DistanceMap,
        roll: Roll,
        modifier: i8,
    ) -> (r: Vec<Option<AttackResult>>)
        ensures
            r.len() == opponents.len(),
            forall|k: int|
                0 <= k < opponents.len() ==> #[trigger] r[k] == if distance_map.in_contact(
                    *self,
                    opponents[k],
                ) {
                    Some(
                        self.attack_result(
                            opponents[k],
                            distance_map.contacts(opponents[k].distance_id),
                            roll,
                            modifier,
                        ),
                    )
                } else {
                    None
                },
    {
        let mut results: Vec<Option<AttackResult>> = Vec::new();
        let mut i: usize = 0;
        while i < opponents.len()
            invariant
                i <= opponents.len(),
                results.len() == i,
                forall|k: int|
                    0 <= k < i ==> #[trigger] results[k] == if distance_map.in_contact(
                        *self,
                        opponents[k],
                    ) {
                        Some(
                            self.attack_result(
                                opponents[k],
                                distance_map.contacts(opponents[k].distance_id),
                                roll,
                                modifier,
                            ),
                        )
                    } else {
                        None
                    },
            decreases opponents.len() - i,
        {
            let opponent = opponents[i];
            if distance_map.base_contact(self, &opponent) {
                results.push(
                    Some(self.try_to_hit_without_bennie(&opponent, distance_map, roll, modifier)),
                );
            } else {
                results.push(None);
            }
            i = i + 1;
        }
        results
    }

    /// The counters after a sweep of `attacker` with `results`: the hits,
    /// up to 255, for an attacker who is counted, and one for each hit on
    /// an opponent who is.
    pub open spec fn stats_after_sweep(
        stats: FightStats,
        attacker: Fighter,
        opponents: Seq<Fighter>,
        results: Seq<Option<AttackResult>>,
    ) -> FightStats {
        let all = sweep_hits(results, results.len());
        let dealt: int = if all > 255 {
            255
        } else {
            all as int
        };
        FightStats {
            hits_dealt: if attacker.counted {
                capped_sum(stats.hits_dealt, dealt)
            } else {
                stats.hits_dealt
            },
            hits_received: capped_sum(
                stats.hits_received,
                sweep_hits_counted(opponents, results, results.len()) as int,
            ),
            ..stats
        }
    }

    /// Counts the hits of a sweep: all of them for the attacker, each one
    /// for the opponent it hit.
    pub fn count_sweep(
        &self,
        opponents: &Vec<Fighter>,
        results: &Vec<Option<AttackResult>>,
        stats: &mut FightStats,
    ) -> (hits: u8)
        requires
            results.len() == opponents.len(),
        ensures
            hits as nat == if sweep_hits(results@, results.len() as nat) > 255 {
                255
            } else {
                sweep_hits(results@, results.len() as nat)
            },
            *final(stats) == Self::stats_after_sweep(*old(stats), *self, opponents@, results@),
            final(stats).extends(*old(stats)),
            final(stats).rounds == old(stats).rounds,
            hits == 0 <==> forall|k: int|
                0 <= k < results.len() ==> !(#[trigger] results[k] is Some && is_hit(
                    results[k]->Some_0,
                )),
    {
        let mut hits: u8 = 0;
        let mut i: usize = 0;
        while i < results.len()
            invariant
                i <= results.len(),
                results.len() == opponents.len(),
                hits as nat == if sweep_hits(results@, i as nat) > 255 {
                    255
                } else {
                    sweep_hits(results@, i as nat)
                },
                *stats == (FightStats {
                    hits_received: capped_sum(
                        old(stats).hits_received,
                        sweep_hits_counted(opponents@, results@, i as nat) as int,
                    ),
                    ..*old(stats)
                }),
                hits == 0 <==> forall|k: int|
                    0 <= k < i ==> !(#[trigger] results[k] is Some && is_hit(results[k]->Some_0)),
            decreases results.len() - i,
        {
            let hit = match results[i] {
                Some(attack) => attack != AttackResult::Miss,
                None => false,
            };
            proof {
                assert(hit == sweep_hit(results@[i as int]));
                assert(sweep_hits(results@, (i + 1) as nat) == sweep_hits(results@, i as nat) + if hit {
                    1nat
                } else {
                    0nat
                });
                assert(sweep_hits_counted(opponents@, results@, (i + 1) as nat) == sweep_hits_counted(
                    opponents@,
                    results@,
                    i as nat,
                ) + if hit && opponents@[i as int].counted {
                    1nat
                } else {
                    0nat
                });
            }
            if hit {
                if hits < 255 {
                    hits = hits + 1;
                }
                if opponents[i].counted {
                    stats.add_hits_received(1);
                }
            }
            i = i + 1;
        }
        if self.counted {
            stats.add_hits_dealt(hits);
        }
        hits
    }

    /// Whether one of the results of a sweep is a hit or a raise.
    pub fn sweep_hit_any(results: &Vec<Option<AttackResult>>) -> (r: bool)
        ensures
            r <==> exists|k: int|
                0 <= k < results.len() && #[trigger] results[k] is Some && is_hit(
                    results[k]->Some_0,
                ),
    {
        let mut i: usize = 0;
        while i < results.len()
            invariant
                i <= results.len(),
                forall|k: int|
                    0 <= k < i ==> !(#[trigger] results[k] is Some && is_hit(results[k]->Some_0)),
            decreases results.len() - i,
        {
            let hit = match results[i] {
                Some(attack) => attack != AttackResult::Miss,
                None => false,
            };
            if hit {
                return true;
            }
            i = i + 1;
        }
        false
    }

    /// Whether `results` is how `roll` fares against each of `opponents`
    /// in base contact, with no entry for the others.
    pub open spec fn sweep_of(
        self,
        opponents: Seq<Fighter>,
        distance_map: DistanceMap,
        roll: Roll,
        modifier: i8,
        results: Seq<Option<AttackResult>>,
    ) -> bool {
        &&& results.len() == opponents.len()
        &&& forall|k: int|
            0 <= k < opponents.len() ==> #[trigger] results[k] == if distance_map.in_contact(
                self,
                opponents[k],
            ) {
                Some(
                    self.attack_result(
                        opponents[k],
                        distance_map.contacts(opponents[k].distance_id),
                        roll,
                        modifier,
                    ),
                )
            } else {
                None
            }
    }

    /// Whether `results` can come of one roll of a sweep: it is how some
    /// roll of the fighting die fares, or, for a berserker whose roll
    /// failed on a one, it has no entry at all.
    pub open spec fn sweep_rolled(
        self,
        opponents: Seq<Fighter>,
        distance_map: DistanceMap,
        modifier: i8,
        results: Seq<Option<AttackResult>>,
    ) -> bool {
        ||| self.berserker && results.len() == opponents.len() && forall|k: int|
            0 <= k < results.len() ==> #[trigger] results[k] is None
        ||| exists|roll: Roll|
            roll@ >= 1 + self.character.skills.kampfen.spec_die().1 && #[trigger] self.sweep_of(
                opponents,
                distance_map,
                roll,
                modifier,
                results,
            )
    }

    /// Whether `mid` and `results` are what the roll of a sweep can leave
    /// of `before`: bennies went for new rolls only and where the sheet
    /// allows, and an attacker who settles for no hit has none left to
    /// spend.
    pub open spec fn swept(
        before: Fighter,
        opponents: Seq<Fighter>,
        distance_map: DistanceMap,
        modifier: i8,
        mid: Fighter,
        results: Seq<Option<AttackResult>>,
    ) -> bool {
        &&& Self::spent(before, mid)
        &&& !before.character.bennies.use_for_attack.0 ==> mid == before
        &&& before.sweep_rolled(opponents, distance_map, modifier, results)
        &&& sweep_hits(results, results.len()) == 0 ==> !mid.rerolls_attack()
    }

    /// What following up on entry `k` of a sweep leaves: nothing new
    /// without an entry, else what `damage_outcome` says of the attacker
    /// and opponent `k`, the other opponents as they were.
    pub open spec fn sweep_step(
        before: (Fighter, Seq<Fighter>, FightStats),
        result: Option<AttackResult>,
        modifier: i8,
        k: int,
        after: (Fighter, Seq<Fighter>, FightStats),
    ) -> bool {
        match result {
            None => after == before,
            Some(attack) => after.1 == before.1.update(k, after.1[k]) && Self::damage_outcome(
                before.0,
                before.1[k],
                before.2,
                attack,
                modifier,
                false,
                after.0,
                after.1[k],
                after.2,
            ),
        }
    }

    /// What following up on the first `n` entries of a sweep, one after
    /// the other, leaves of attacker, opponents and counters.
    #[verifier::opaque]
    pub open spec fn sweep_damages(
        before: (Fighter, Seq<Fighter>, FightStats),
        results: Seq<Option<AttackResult>>,
        modifier: i8,
        n: nat,
        after: (Fighter, Seq<Fighter>, FightStats),
    ) -> bool
        decreases n,
    {
        if n == 0 {
            after == before
        } else {
            exists|mid: (Fighter, Seq<Fighter>, FightStats)|
                Self::sweep_damages(before, results, modifier, (n - 1) as nat, mid)
                    && #[trigger] Self::sweep_step(mid, results[n - 1], modifier, n - 1, after)
        }
    }

    /// What a sweep leaves of the attacker `before`, of `opponents` and of
    /// the counters. Either the roll was a critical failure: the opponents
    /// are untouched, and the attacker, some bennies spent, suffers a
    /// mishap of the table. Or a roll stands: its hits are counted once,
    /// and each of its entries is followed up on in turn.
    #[verifier::opaque]
    pub open spec fn sweep_outcome(
        before: Fighter,
        opponents: Seq<Fighter>,
        distance_map: DistanceMap,
        stats: FightStats,
        modifiers: (i8, i8),
        after: (Fighter, Seq<Fighter>, FightStats),
    ) -> bool {
        ||| after.1 == opponents && exists|mid: Fighter, sum: u8| #[trigger]
            Self::misstep(before, mid, sum) && Self::mishap_outcome(
                mid,
                stats,
                CriticalFailResult::short_range_table(sum),
                after.0,
                after.2,
            )
        ||| exists|mid: Fighter, results: Seq<Option<AttackResult>>| #[trigger]
            Self::swept(before, opponents, distance_map, modifiers.0, mid, results)
                && Self::sweep_damages(
                (mid, opponents, Self::stats_after_sweep(stats, before, opponents, results)),
                results,
                modifiers.1,
                results.len(),
                after,
            )
    }

    /// Before any entry is followed up on, all is as it was.
    pub proof fn lemma_sweep_none(
        before: (Fighter, Seq<Fighter>, FightStats),
        results: Seq<Option<AttackResult>>,
        modifier: i8,
    )
        ensures
            Self::sweep_damages(before, results, modifier, 0, before),
    {
        reveal(Fighter::sweep_damages);
    }

    /// Following up on one more entry extends what was followed up on.
    pub proof fn lemma_sweep_more(
        before: (Fighter, Seq<Fighter>, FightStats),
        results: Seq<Option<AttackResult>>,
        modifier: i8,
        n: nat,
        mid: (Fighter, Seq<Fighter>, FightStats),
        after: (Fighter, Seq<Fighter>, FightStats),
    )
        requires
            Self::sweep_damages(before, results, modifier, n, mid),
            Self::sweep_step(mid, results[n as int], modifier, n as int, after),
        ensures
            Self::sweep_damages(before, results, modifier, n + 1, after),
    {
        reveal(Fighter::sweep_damages);
        assert(((n + 1) - 1) as nat == n);
        assert(Self::sweep_step(mid, results[(n + 1) - 1], modifier, (n + 1) - 1, after));
    }

    /// A critical failure and its mishap make the outcome of a sweep.
    pub proof fn lemma_sweep_fails(
        before: Fighter,
        opponents: Seq<Fighter>,
        distance_map: DistanceMap,
        stats: FightStats,
        modifiers: (i8, i8),
        mid: Fighter,
        sum: u8,
        after: (Fighter, FightStats),
    )
        requires
            Self::misstep(before, mid, sum),
            Self::mishap_outcome(
                mid,
                stats,
                CriticalFailResult::short_range_table(sum),
                after.0,
                after.1,
            ),
        ensures
            Self::sweep_outcome(
                before,
                opponents,
                distance_map,
                stats,
                modifiers,
                (after.0, opponents, after.1),
            ),
    {
        reveal(Fighter::sweep_outcome);
    }

    /// A roll that stands and is followed up on makes the outcome of a
    /// sweep.
    pub proof fn lemma_sweep_stands(
        before: Fighter,
        opponents: Seq<Fighter>,
        distance_map: DistanceMap,
        stats: FightStats,
        modifiers: (i8, i8),
        mid: Fighter,
        results: Seq<Option<AttackResult>>,
        after: (Fighter, Seq<Fighter>, FightStats),
    )
        requires
            Self::swept(before, opponents, distance_map, modifiers.0, mid, results),
            Self::sweep_damages(
                (mid, opponents, Self::stats_after_sweep(stats, before, opponents, results)),
                results,
                modifiers.1,
                results.len(),
                after,
            ),
        ensures
            Self::sweep_outcome(before, opponents, distance_map, stats, modifiers, after),
    {
        reveal(Fighter::sweep_outcome);
    }

    /// Whether a benny buys a new roll of a sweep: none of `results` is a
    /// hit, the sheet allows it, and one of `bennies` is left.
    pub fn sweeps_again(&self, results: &Vec<Option<AttackResult>>, bennies: u8) -> (r: bool)
        ensures
            r == (!(exists|k: int|
                0 <= k < results.len() && #[trigger] results[k] is Some && is_hit(
                    results[k]->Some_0,
                )) && self.character.bennies.use_for_attack.0 && bennies > 0),
    {
        !Self::sweep_hit_any(results) && self.character.bennies.use_for_attack.is_set() && bennies > 0
    }

    /// Rolls a sweep against `opponents`. If the roll hits nobody, a benny
    /// buys a new one, as long as the sheet allows and bennies are left.
    /// The hits of the roll that stands are counted. A critical failure
    /// counts nothing.
    #[verifier::spinoff_prover]
    pub fn roll_sweep(&mut self, opponents: &Vec<Fighter>, modifier: i8, field: &mut Battlefield) -> (r:
        Result<Vec<Option<AttackResult>>, CriticalMiss>)
        ensures
            Self::spent(*old(self), *final(self)),
            final(field).keeps_places(*old(field)),
            match r {
                Ok(results) => {
                    &&& results.len() == opponents.len()
                    &&& Self::swept(
                        *old(self),
                        opponents@,
                        old(field).distance_map,
                        modifier,
                        *final(self),
                        results@,
                    )
                    &&& final(field).stats == Self::stats_after_sweep(
                        old(field).stats,
                        *old(self),
                        opponents@,
                        results@,
                    )
                    &&& forall|k: int|
                        0 <= k < opponents.len() && !old(field).distance_map.in_contact(
                            *old(self),
                            opponents[k],
                        ) ==> #[trigger] results[k] is None
                },
                Err(_) => final(field).stats == old(field).stats,
            },
    {
        let mut bennies = self.bennies;
        let mut outcome: Result<Vec<Option<AttackResult>>, CriticalMiss> = Err(CriticalMiss);
        loop
            invariant_except_break
                *self == *old(self),
                bennies <= self.bennies,
                !self.character.bennies.use_for_attack.0 ==> bennies == self.bennies,
                field.keeps_places(*old(field)),
                field.stats == old(field).stats,
            ensures
                *self == *old(self),
                bennies <= self.bennies,
                !self.character.bennies.use_for_attack.0 ==> bennies == self.bennies,
                field.keeps_places(*old(field)),
                match outcome {
                    Ok(results) => {
                        &&& results.len() == opponents.len()
                        &&& self.sweep_rolled(opponents@, old(field).distance_map, modifier, results@)
                        &&& sweep_hits(results@, results.len() as nat) == 0 ==> !(
                        self.character.bennies.use_for_attack.0 && bennies > 0)
                        &&& field.stats == Self::stats_after_sweep(
                            old(field).stats,
                            *self,
                            opponents@,
                            results@,
                        )
                        &&& forall|k: int|
                            0 <= k < opponents.len() && !old(field).distance_map.in_contact(
                                *self,
                                opponents[k],
                            ) ==> #[trigger] results[k] is None
                    },
                    Err(_) => field.stats == old(field).stats,
                },
            decreases bennies,
        {
            let roll = match self.roll_attack_dice(&mut field.roller, 1) {
                Ok(rolls) => Some(rolls[0]),
                Err(RollError::CriticalFail) => {
                    outcome = Err(CriticalMiss);
                    break ;
                },
                Err(RollError::Fail) => None,
            };
            let results = match roll {
                Some(roll) => {
                    let rolled = self.sweep_results(opponents, &field.distance_map, roll, modifier);
                    assert(self.sweep_of(opponents@, old(field).distance_map, roll, modifier, rolled@));
                    rolled
                },
                None => no_results(opponents.len()),
            };
            if self.sweeps_again(&results, bennies) {
                bennies = bennies - 1;
            } else {
                let _ = self.count_sweep(opponents, &results, &mut field.stats);
                outcome = Ok(results);
                break ;
            }
        }
        self.bennies = bennies;
        outcome
    }

    /// Follows up on each entry of a sweep in turn. The damage of a hit is
    /// rolled with the dice of the second weapon.
    #[verifier::spinoff_prover]
    pub fn follow_sweep(
        &mut self,
        opponents: &mut Vec<Fighter>,
        results: &Vec<Option<AttackResult>>,
        modifier: i8,
        field: &mut Battlefield,
    )
        requires
            results.len() == old(opponents).len(),
        ensures
            final(self).follows(*old(self)),
            final(self).keeps_wild(*old(self)),
            all_follow(final(opponents)@, old(opponents)@),
            final(field).keeps_places(*old(field)),
            forall|k: int|
                0 <= k < results.len() && results[k] is None ==> #[trigger] final(opponents)[k]
                    == old(opponents)[k],
            Self::sweep_damages(
                (*old(self), old(opponents)@, old(field).stats),
                results@,
                modifier,
                results.len() as nat,
                (*final(self), final(opponents)@, final(field).stats),
            ),
    {
        proof {
            Self::lemma_sweep_none((*self, opponents@, field.stats), results@, modifier);
        }
        let mut i: usize = 0;
        while i < results.len()
            invariant
                i <= results.len(),
                results.len() == opponents.len(),
                opponents.len() == old(opponents).len(),
                self.follows(*old(self)),
                self.keeps_wild(*old(self)),
                all_follow(opponents@, old(opponents)@),
                field.keeps_places(*old(field)),
                forall|k: int|
                    0 <= k < results.len() && results[k] is None ==> #[trigger] opponents[k] == old(opponents)[k],
                Self::sweep_damages(
                    (*old(self), old(opponents)@, old(field).stats),
                    results@,
                    modifier,
                    i as nat,
                    (*self, opponents@, field.stats),
                ),
            decreases results.len() - i,
        {
            let ghost prev = (*self, opponents@, field.stats);
            match results[i] {
                Some(attack) => {
                    let mut opponent = opponents[i];
                    self.do_damage(false, &mut opponent, attack, modifier, false, field);
                    opponents.set(i, opponent);
                    assert(opponents@ =~= prev.1.update(i as int, opponents@[i as int]));
                },
                None => {},
            }
            proof {
                assert(Self::sweep_step(
                    prev,
                    results@[i as int],
                    modifier,
                    i as int,
                    (*self, opponents@, field.stats),
                ));
                Self::lemma_sweep_more(
                    (*old(self), old(opponents)@, old(field).stats),
                    results@,
                    modifier,
                    i as nat,
                    prev,
                    (*self, opponents@, field.stats),
                );
            }
            i = i + 1;
        }
    }

    /// One sweep: the roll, then either the mishap of a critical failure
    /// or the damage of each entry in turn.
    #[verifier::spinoff_prover]
    pub fn sweep_with(
        &mut self,
        opponents: &mut Vec<Fighter>,
        modifiers: (i8, i8),
        field: &mut Battlefield,
    )
        ensures
            final(self).follows(*old(self)),
            final(self).keeps_wild(*old(self)),
            all_follow(final(opponents)@, old(opponents)@),
            final(field).keeps_places(*old(field)),
            forall|k: int|
                0 <= k < old(opponents).len() && !old(field).distance_map.in_contact(
                    *old(self),
                    old(opponents)[k],
                ) ==> #[trigger] final(opponents)[k] == old(opponents)[k],
            Self::sweep_outcome(
                *old(self),
                old(opponents)@,
                old(field).distance_map,
                old(field).stats,
                modifiers,
                (*final(self), final(opponents)@, final(field).stats),
            ),
    {
        let results = match self.roll_sweep(opponents, modifiers.0, field) {
            Ok(results) => results,
            Err(CriticalMiss) => {
                let ghost mid = *self;
                self.critical_fail(true, field);
                proof {
                    let sum = choose|sum: u8|
                        2 <= sum <= 12 && Self::mishap_outcome(
                            mid,
                            old(field).stats,
                            #[trigger] CriticalFailResult::short_range_table(sum),
                            *self,
                            field.stats,
                        );
                    Self::lemma_sweep_fails(
                        *old(self),
                        old(opponents)@,
                        old(field).distance_map,
                        old(field).stats,
                        modifiers,
                        mid,
                        sum,
                        (*self, field.stats),
                    );
                }
                return ;
            },
        };
        let ghost mid = *self;
        self.follow_sweep(opponents, &results, modifiers.1, field);
        proof {
            Self::lemma_sweep_stands(
                *old(self),
                old(opponents)@,
                old(field).distance_map,
                old(field).stats,
                modifiers,
                mid,
                results@,
                (*self, opponents@, field.stats),
            );
        }
    }

    /// Attacks every opponent in base contact with one roll of the main
    /// weapon. Opponents out of contact are left alone. The attack is
    /// marked as wild where the sheet says to attack wildly, and leaves
    /// what `sweep_outcome` says of the attacker so marked.
    pub fn do_rundumschlag(&mut self, opponents: &mut Vec<Fighter>, field: &mut Battlefield)
        ensures
            final(self).follows(*old(self)),
            final(self).attacked_wild == (old(self).attacked_wild || old(self).character.passive_modifiers.attack_wild.0),
            all_follow(final(opponents)@, old(opponents)@),
            final(field).keeps_places(*old(field)),
            forall|k: int|
                0 <= k < old(opponents).len() && !old(field).distance_map.in_contact(
                    *old(self),
                    old(opponents)[k],
                ) ==> #[trigger] final(opponents)[k] == old(opponents)[k],
            Self::sweep_outcome(
                old(self).set_wild(),
                old(opponents)@,
                old(field).distance_map,
                old(field).stats,
                old(self).sweep_attack(),
                (*final(self), final(opponents)@, final(field).stats),
            ),
    {
        let modifiers = self.sweep_attack_modifiers();
        if self.character.passive_modifiers.attack_wild.is_set() {
            self.attacked_wild = true;
        }
        self.sweep_with(opponents, modifiers, field);
    }

    /// The opponent that attacks go to: the first one, unless it is out of
    /// the fight.
    pub fn pick_opponent(opponents: &Vec<Fighter>) -> (r: Result<usize, NoOpponentLeft>)
        requires
            opponents.len() > 0,
        ensures
            match r {
                Ok(at) => at == 0 && !opponents[0].spec_is_dead(),
                Err(_) => opponents[0].spec_is_dead(),
            },
    {
        if opponents[0].is_dead() {
            return Err(NoOpponentLeft);
        }
        Ok(0)
    }

    /// Whether the fighter sweeps: it has the edge and stands in base
    /// contact with at least two of the opponents.
    pub open spec fn sweeps(self, opponents: Seq<Fighter>, distance_map: DistanceMap) -> bool {
        self.character.edges.rundumschlag.0 && self.engaged_with(opponents, distance_map) >= 2
    }

    /// The attack with the main weapon: a sweep where that pays, else at
    /// the first opponent. Without a sweep there is no attack if the first
    /// opponent is out of the fight, and nobody but the first opponent is
    /// touched. What the attack leaves is what `sweep_outcome` or
    /// `attack_outcome` says.
    pub fn do_main_attack(&mut self, opponents: &mut Vec<Fighter>, field: &mut Battlefield) -> (r:
        Result<(), NoOpponentLeft>)
        requires
            old(opponents).len() > 0,
        ensures
            final(self).follows(*old(self)),
            all_follow(final(opponents)@, old(opponents)@),
            final(field).keeps_places(*old(field)),
            r is Err <==> !old(self).sweeps(old(opponents)@, old(field).distance_map) && old(opponents)[0].spec_is_dead(),
            r is Err ==> *final(self) == *old(self) && *final(opponents) == *old(opponents)
                && final(field).stats == old(field).stats,
            r is Ok ==> final(self).attacked_wild == (old(self).attacked_wild || old(self).character.passive_modifiers.attack_wild.0),
            !old(self).sweeps(old(opponents)@, old(field).distance_map) ==> final(opponents)@
                == old(opponents)@.update(0, final(opponents)[0]),
            old(self).sweeps(old(opponents)@, old(field).distance_map) ==> Self::sweep_outcome(
                old(self).set_wild(),
                old(opponents)@,
                old(field).distance_map,
                old(field).stats,
                old(self).sweep_attack(),
                (*final(self), final(opponents)@, final(field).stats),
            ),
            r is Ok && !old(self).sweeps(old(opponents)@, old(field).distance_map)
                ==> Self::attack_outcome(
                old(self).set_wild(),
                old(opponents)[0],
                old(field).stats,
                old(field).distance_map.contacts(old(opponents)[0].distance_id),
                old(self).primary_attack().1,
                old(self).primary_attack().2,
                old(self).primary_attack().0 as nat,
                *final(self),
                final(opponents)[0],
                final(field).stats,
            ),
            Self::main_attacked(
                (*old(self), old(opponents)@, *old(field)),
                r is Err,
                (*final(self), final(opponents)@, *final(field)),
            ),
    {
        reveal(Fighter::main_attacked);
        if self.wanna_do_rundumschlag(opponents, &field.distance_map) {
            self.do_rundumschlag(opponents, field);
        } else {
            let at = match Self::pick_opponent(opponents) {
                Ok(at) => at,
                Err(e) => {
                    assert(opponents@ =~= old(opponents)@);
                    return Err(e);
                },
            };
            let mut opponent = opponents[at];
            self.attack_with_primary_weapon(&mut opponent, field);
            opponents.set(at, opponent);
        }
        Ok(())
    }

    /// The attack with the second weapon, at the first opponent. There is
    /// none if the first opponent is out of the fight, and nobody but the
    /// first opponent is touched. What the attack leaves is what
    /// `attack_outcome` says.
    pub fn do_second_attack(&mut self, opponents: &mut Vec<Fighter>, field: &mut Battlefield) -> (r:
        Result<(), NoOpponentLeft>)
        requires
            old(opponents).len() > 0,
        ensures
            final(self).follows(*old(self)),
            all_follow(final(opponents)@, old(opponents)@),
            final(field).keeps_places(*old(field)),
            r is Err <==> old(opponents)[0].spec_is_dead(),
            r is Err ==> *final(self) == *old(self) && *final(opponents) == *old(opponents)
                && final(field).stats == old(field).stats,
            r is Ok ==> final(self).attacked_wild == (old(self).attacked_wild || old(self).character.passive_modifiers.attack_wild.0),
            final(opponents)@ == old(opponents)@.update(0, final(opponents)[0]),
            r is Ok ==> Self::attack_outcome(
                old(self).set_wild(),
                old(opponents)[0],
                old(field).stats,
                old(field).distance_map.contacts(old(opponents)[0].distance_id),
                old(self).secondary_attack().0,
                old(self).secondary_attack().1,
                1,
                *final(self),
                final(opponents)[0],
                final(field).stats,
            ),
            Self::second_attacked(
                (*old(self), old(opponents)@, *old(field)),
                r is Err,
                (*final(self), final(opponents)@, *final(field)),
            ),
    {
        reveal(Fighter::second_attacked);
        let at = match Self::pick_opponent(opponents) {
            Ok(at) => at,
            Err(e) => {
                assert(opponents@ =~= old(opponents)@.update(0, opponents[0]));
                return Err(e);
            },
        };
        let mut opponent = opponents[at];
        self.attack_with_second_weapon(&mut opponent, field);
        opponents.set(at, opponent);
        Ok(())
    }

    /// The attacks of a turn, one after the other, as `full_attacked`
    /// says.
    pub fn attack_in_turn(&mut self, opponents: &mut Vec<Fighter>, field: &mut Battlefield) -> (r:
        Result<(), NoOpponentLeft>)
        requires
            old(opponents).len() > 0,
        ensures
            final(opponents).len() == old(opponents).len(),
            Self::full_attacked(
                (*old(self), old(opponents)@, *old(field)),
                r is Err,
                (*final(self), final(opponents)@, *final(field)),
            ),
    {
        let ghost before: Scene = (*self, opponents@, *field);
        let active = self.character.weapon.active;
        if active {
            match self.do_main_attack(opponents, field) {
                Ok(_) => {},
                Err(e) => {
                    proof {
                        let mid: Scene = (*self, opponents@, *field);
                        Self::lemma_attacks_with_main(before, mid, true, true, mid);
                    }
                    return Err(e);
                },
            }
        }
        let ghost mid: Scene = (*self, opponents@, *field);
        if self.character.bennies.use_for_unshake.is_set() {
            self.unshake_with_bennie();
        }
        let ghost roused: Scene = (*self, opponents@, *field);
        assert(roused == Self::roused_in_turn(mid));
        let r = if !self.shaken && self.character.secondary_weapon.active {
            self.do_second_attack(opponents, field)
        } else {
            Ok(())
        };
        proof {
            let after: Scene = (*self, opponents@, *field);
            assert(Self::after_main(mid, false, r is Err, after));
            if active {
                Self::lemma_attacks_with_main(before, mid, false, r is Err, after);
            } else {
                Self::lemma_attacks_without_main(before, r is Err, after);
            }
        }
        r
    }

    /// The attacks of a turn: the main weapon, as a sweep where that pays,
    /// and then the second weapon, unless the fighter was shaken in
    /// between and no benny helps. The attacks end early only when the
    /// first opponent is out of the fight. One who attacks wildly is marked
    /// so as soon as a weapon is used. What they leave is what
    /// `full_attacked` says.
    pub fn do_full_attack(&mut self, opponents: &mut Vec<Fighter>, field: &mut Battlefield) -> (r:
        Result<(), NoOpponentLeft>)
        requires
            old(opponents).len() > 0,
        ensures
            final(self).follows(*old(self)),
            all_follow(final(opponents)@, old(opponents)@),
            final(field).keeps_places(*old(field)),
            r is Err ==> final(opponents)[0].spec_is_dead(),
            old(self).character.weapon.active && !old(self).sweeps(
                old(opponents)@,
                old(field).distance_map,
            ) && old(opponents)[0].spec_is_dead() ==> r is Err && *final(self) == *old(self)
                && final(opponents)@ == old(opponents)@ && final(field).stats == old(field).stats,
            final(self).attacked_wild ==> old(self).attacked_wild || old(self).character.passive_modifiers.attack_wild.0,
            old(self).attacked_wild ==> final(self).attacked_wild,
            old(self).character.weapon.active && old(self).character.passive_modifiers.attack_wild.0 && (old(self).sweeps(
                old(opponents)@,
                old(field).distance_map,
            ) || !old(opponents)[0].spec_is_dead()) ==> final(self).attacked_wild,
            !old(self).character.weapon.active && !old(self).character.secondary_weapon.active
                ==> r is Ok && *final(self) == (if old(self).character.bennies.use_for_unshake.0 {
                old(self).with_benny_spent()
            } else {
                *old(self)
            }) && final(opponents)@ == old(opponents)@ && final(field).stats == old(field).stats,
            Self::full_attacked(
                (*old(self), old(opponents)@, *old(field)),
                r is Err,
                (*final(self), final(opponents)@, *final(field)),
            ),
    {
        let r = self.attack_in_turn(opponents, field);
        proof {
            Self::lemma_full_attacked(
                (*old(self), old(opponents)@, *old(field)),
                r is Err,
                (*self, opponents@, *field),
            );
        }
        r
    }

    /// Closes in on the first opponent, unless the weapon reaches it or
    /// the two stand together already. Closing in invites the opponent's
    /// first strike.
    pub fn step_forward(&mut self, opponents: &mut Vec<Fighter>, field: &mut Battlefield) -> (r:
        Result<(), NoOpponentLeft>)
        requires
            old(opponents).len() > 0,
        ensures
            final(self).follows(*old(self)),
            all_follow(final(opponents)@, old(opponents)@),
            final(field).keeps_ids(*old(field)),
            r is Err <==> old(opponents)[0].spec_is_dead(),
            r is Err ==> *final(self) == *old(self) && *final(opponents) == *old(opponents)
                && final(field).keeps_places(*old(field)) && final(field).stats == old(field).stats,
            r is Ok ==> old(self).spec_weapon_has_reach() || final(field).distance_map.in_contact(
                *old(self),
                old(opponents)[0],
            ),
            r is Ok && !old(opponents)[0].character.edges.erstschlag.0 ==> *final(self) == *old(self) && final(opponents)@ == old(opponents)@,
            forall|pair: Pair|
                pair != DistanceMap::key(
                    old(self).group,
                    old(self).distance_id,
                    old(opponents)[0].distance_id,
                ) ==> (#[trigger] final(field).distance_map.pairs().contains(pair)) == old(field).distance_map.pairs().contains(pair),
            Self::stepped_forward(
                (*old(self), old(opponents)@, *old(field)),
                r is Err,
                (*final(self), final(opponents)@, *final(field)),
            ),
    {
        reveal(Fighter::stepped_forward);
        let at = match Self::pick_opponent(opponents) {
            Ok(at) => at,
            Err(e) => {
                assert(opponents@ =~= old(opponents)@.update(0, opponents@[0]));
                return Err(e);
            },
        };
        let mut opponent = opponents[at];
        let base_contact_to_target = field.distance_map.base_contact(self, &opponent);
        if self.weapon_has_reach() || base_contact_to_target {
            assert(opponents@ =~= old(opponents)@.update(0, opponents@[0]));
            return Ok(());
        }
        field.distance_map.set_base_contact(self, &opponent, true);
        opponent.trigger_erstschlag(self, true, field);
        opponents.set(at, opponent);
        proof {
            if !old(opponents)[0].strikes_first(*old(self), true) {
                assert(opponents@ =~= old(opponents)@);
            }
            assert(opponents@ =~= old(opponents)@.update(0, opponents@[0]));
        }
        Ok(())
    }

    /// An opponent after its chance to follow a step back: one still in the
    /// fight spends a benny against being shaken, where the sheet says so.
    pub open spec fn given_chance(opponent: Fighter) -> Fighter {
        if opponent.spec_is_dead() || !opponent.character.bennies.use_against_step_back.0 {
            opponent
        } else {
            opponent.with_benny_spent()
        }
    }

    /// Whether `opponent` cannot follow a step back: it is out of the fight
    /// or stays shaken after its chance.
    pub open spec fn held_back(opponent: Fighter) -> bool {
        opponent.spec_is_dead() || Self::given_chance(opponent).shaken
    }

    /// The opponents after the first `n` of them had their chance to
    /// follow, one after the other up to the first who can; and whether
    /// none of them can.
    pub open spec fn asked(opponents: Seq<Fighter>, n: nat) -> (Seq<Fighter>, bool)
        decreases n,
    {
        if n == 0 {
            (opponents, true)
        } else {
            let before = Self::asked(opponents, (n - 1) as nat);
            if !before.1 {
                before
            } else {
                (
                    before.0.update(n - 1, Self::given_chance(opponents[n - 1])),
                    Self::held_back(opponents[n - 1]),
                )
            }
        }
    }

    /// Whether `pair` joins the fighter with one of the first `n`
    /// opponents that is still in the fight.
    pub open spec fn faces(self, opponents: Seq<Fighter>, n: nat, pair: Pair) -> bool
        decreases n,
    {
        n > 0 && (self.faces(opponents, (n - 1) as nat, pair) || (!opponents[n
            - 1].spec_is_dead() && pair == DistanceMap::key(
            self.group,
            self.distance_id,
            opponents[n - 1].distance_id,
        )))
    }

    /// Whether the fighter steps back from `opponents`: it has the
    /// first-strike edge, and its weapon has reach or none of the opponents
    /// can follow.
    pub open spec fn retreats(self, opponents: Seq<Fighter>) -> bool {
        self.character.edges.erstschlag.0 && (self.spec_weapon_has_reach() || Self::asked(
            opponents,
            opponents.len(),
        ).1)
    }

    proof fn lemma_asked_stops(opponents: Seq<Fighter>, at: nat, n: nat)
        requires
            at <= n,
            !Self::asked(opponents, at).1,
        ensures
            Self::asked(opponents, n) == Self::asked(opponents, at),
        decreases n,
    {
        if n > at {
            Self::lemma_asked_stops(opponents, at, (n - 1) as nat);
        }
    }

    /// Gives `opponent` its chance to follow a step back, and says whether
    /// it cannot.
    pub fn cannot_follow(opponent: &mut Fighter) -> (r: bool)
        ensures
            final(opponent).follows(*old(opponent)),
            *final(opponent) == Self::given_chance(*old(opponent)),
            r == Self::held_back(*old(opponent)),
            old(opponent).spec_is_dead() ==> r && *final(opponent) == *old(opponent),
            !old(opponent).spec_is_dead() ==> r == final(opponent).shaken,
    {
        if opponent.is_dead() {
            return true;
        }
        opponent.unshake_against_step_back();
        opponent.shaken
    }

    /// Steps back from every opponent, to strike first again when they
    /// close in: only with the first-strike edge, and only if the weapon
    /// has reach or every opponent still in the fight is shaken. Without
    /// reach the opponents get their chance to follow by a benny, one after
    /// the other up to the first who does. A step back ends the base
    /// contact with every opponent still in the fight, and no other.
    pub fn step_back(&mut self, opponents: &mut Vec<Fighter>, field: &mut Battlefield)
        ensures
            *final(self) == *old(self),
            all_follow(final(opponents)@, old(opponents)@),
            final(field).keeps_ids(*old(field)),
            final(field).stats == old(field).stats,
            !old(self).character.edges.erstschlag.0 ==> *final(opponents) == *old(opponents)
                && final(field).keeps_places(*old(field)),
            final(opponents)@ == (if old(self).character.edges.erstschlag.0 && !old(self).spec_weapon_has_reach() {
                Self::asked(old(opponents)@, old(opponents)@.len()).0
            } else {
                old(opponents)@
            }),
            forall|pair: Pair| #[trigger]
                final(field).distance_map.pairs().contains(pair) == (old(field).distance_map.pairs().contains(pair) && !(old(self).retreats(old(opponents)@)
                    && old(self).faces(final(opponents)@, final(opponents)@.len(), pair))),
            Self::stepped_back(
                (*old(self), old(opponents)@, *old(field)),
                (*final(self), final(opponents)@, *final(field)),
            ),
    {
        reveal(Fighter::stepped_back);
        if !self.character.edges.erstschlag.is_set() {
            return ;
        }
        let mut opponents_cant_attack = true;
        if !self.weapon_has_reach() {
            let mut i: usize = 0;
            while i < opponents.len() && opponents_cant_attack
                invariant
                    i <= opponents.len(),
                    opponents.len() == old(opponents).len(),
                    all_follow(opponents@, old(opponents)@),
                    forall|k: int| i <= k < opponents.len() ==> opponents[k] == old(opponents)[k],
                    (opponents@, opponents_cant_attack) == Self::asked(old(opponents)@, i as nat),
                decreases opponents.len() - i,
            {
                let mut opponent = opponents[i];
                opponents_cant_attack = Self::cannot_follow(&mut opponent);
                opponents.set(i, opponent);
                i = i + 1;
                proof {
                    let before = Self::asked(old(opponents)@, (i - 1) as nat);
                    assert(opponents@ =~= before.0.update(
                        i - 1,
                        Self::given_chance(old(opponents)[i - 1]),
                    ));
                }
            }
            proof {
                if !opponents_cant_attack {
                    Self::lemma_asked_stops(old(opponents)@, i as nat, old(opponents)@.len());
                }
            }
        }
        if !opponents_cant_attack {
            return ;
        }
        let mut i: usize = 0;
        while i < opponents.len()
            invariant
                i <= opponents.len(),
                field.keeps_ids(*old(field)),
                field.stats == old(field).stats,
                forall|pair: Pair| #[trigger]
                    field.distance_map.pairs().contains(pair) == (old(field).distance_map.pairs().contains(pair) && !self.faces(
                        opponents@,
                        i as nat,
                        pair,
                    )),
            decreases opponents.len() - i,
        {
            let opponent = opponents[i];
            if !opponent.is_dead() {
                field.distance_map.set_base_contact(self, &opponent, false);
            }
            i = i + 1;
        }
    }

    /// The part of a turn that deals with the opponents: close in, attack,
    /// step back. It ends early when the first opponent is out of the
    /// fight or the fighter is shaken. Nothing happens at all if the first
    /// opponent is out of the fight from the start. One without reach and
    /// without the first-strike edge ends in base contact with the first
    /// opponent. One who is not shaken and meets an opponent without first
    /// strike gets to use the main weapon. What it leaves is what
    /// `engaged` says.
    pub fn engage(&mut self, opponents: &mut Vec<Fighter>, field: &mut Battlefield)
        requires
            old(opponents).len() > 0,
        ensures
            final(self).follows(*old(self)),
            all_follow(final(opponents)@, old(opponents)@),
            final(field).keeps_ids(*old(field)),
            old(opponents)[0].spec_is_dead() ==> *final(self) == *old(self) && *final(opponents)
                == *old(opponents) && final(field).keeps_places(*old(field)) && final(field).stats
                == old(field).stats,
            !old(opponents)[0].spec_is_dead() && !old(self).spec_weapon_has_reach() && !old(self).character.edges.erstschlag.0 ==> final(field).distance_map.in_contact(
                *old(self),
                old(opponents)[0],
            ),
            !old(opponents)[0].spec_is_dead() && !old(opponents)[0].character.edges.erstschlag.0
                && !old(self).shaken && old(self).character.weapon.active && old(self).character.passive_modifiers.attack_wild.0 ==> final(self).attacked_wild,
            Self::engaged(
                (*old(self), old(opponents)@, *old(field)),
                (*final(self), final(opponents)@, *final(field)),
            ),
    {
        let ghost before: Scene = (*self, opponents@, *field);
        match self.step_forward(opponents, field) {
            Ok(_) => {},
            Err(_) => {
                proof {
                    let near: Scene = (*self, opponents@, *field);
                    Self::lemma_engaged(before, near, true, near);
                }
                return ;
            },
        }
        let ghost near: Scene = (*self, opponents@, *field);
        if self.character.bennies.use_against_step_back.is_set() {
            self.unshake_with_bennie();
        }
        let ghost ready: Scene = (*self, opponents@, *field);
        assert(ready == Self::roused_to_attack(near));
        if self.shaken {
            proof {
                Self::lemma_engaged(before, near, false, ready);
            }
            return ;
        }
        match self.do_full_attack(opponents, field) {
            Ok(_) => {},
            Err(_) => {
                proof {
                    let fought: Scene = (*self, opponents@, *field);
                    Self::lemma_after_step(near, fought, true, fought);
                    Self::lemma_engaged(before, near, false, fought);
                }
                return ;
            },
        }
        let ghost fought: Scene = (*self, opponents@, *field);
        self.step_back(opponents, field);
        proof {
            let after: Scene = (*self, opponents@, *field);
            Self::lemma_after_step(near, fought, false, after);
            Self::lemma_engaged(before, near, false, after);
        }
    }

    /// What a turn leaves of a fighter that came to act as `start`: one
    /// who lost the weapon takes it up and does nothing else; one whose
    /// first opponent is out of the fight does nothing; one without reach
    /// or first strike ends in base contact with the first opponent. One
    /// who holds its weapon closes in, attacks and steps back as
    /// `turn_outcome` says.
    pub open spec fn acted(
        start: Fighter,
        opponents: Seq<Fighter>,
        field: Battlefield,
        after: (Fighter, Seq<Fighter>, Battlefield),
    ) -> bool {
        &&& start.weapon_lost ==> after.0 == (Fighter { weapon_lost: false, ..start }) && after.1
            == opponents && after.2.keeps_places(field) && after.2.stats == field.stats
        &&& !start.weapon_lost && opponents[0].spec_is_dead() ==> after.0 == start && after.1
            == opponents && after.2.keeps_places(field) && after.2.stats == field.stats
        &&& !start.weapon_lost && !opponents[0].spec_is_dead() && !start.spec_weapon_has_reach()
            && !start.character.edges.erstschlag.0 ==> after.2.distance_map.in_contact(
            start,
            opponents[0],
        )
        &&& !start.weapon_lost ==> Self::turn_outcome(start, opponents, field, after)
    }

    /// What a turn leaves of a fighter that did not come to act: the
    /// opponents and the field are as they were, and of the fighter `start`
    /// at most the shaken state went.
    pub open spec fn sat_out(
        start: Fighter,
        opponents: Seq<Fighter>,
        field: Battlefield,
        after: (Fighter, Seq<Fighter>, Battlefield),
    ) -> bool {
        &&& after.0 == (Fighter { shaken: after.0.shaken, ..start })
        &&& start.character.bennies.use_for_unshake.0 ==> after.0.shaken && start.bennies == 0
        &&& after.1 == opponents
        &&& after.2.keeps_places(field)
        &&& after.2.stats == field.stats
    }

    /// The fighter as its turn begins: on its feet and without the mark of
    /// a wild attack.
    pub open spec fn at_turn(self) -> Fighter {
        Fighter { fell: false, attacked_wild: false, ..self }
    }

    /// One turn: shake off being shaken, or lose the turn; sit out a turn
    /// after losing the weapon; then deal with the opponents. The turn
    /// begins with the fighter on its feet and without the mark of a wild
    /// attack. An interrupted fighter without a benny for it, and one who
    /// lost the weapon, do nothing else. A shaken fighter sits the turn
    /// out, or acts as one who shook it off, by its roll or by a benny.
    /// One who comes to act and holds its weapon closes in, attacks and
    /// steps back as `turn_outcome` says; `turned` says all of this at
    /// once.
    #[verifier::spinoff_prover]
    #[verifier::rlimit(40)]
    pub fn action(&mut self, opponents: &mut Vec<Fighter>, field: &mut Battlefield)
        requires
            old(opponents).len() > 0,
        ensures
            final(self).follows(*old(self)),
            all_follow(final(opponents)@, old(opponents)@),
            final(field).keeps_ids(*old(field)),
            old(self).interrupted && !old(self).character.bennies.use_for_unshake.0 ==> *final(self) == (Fighter { fell: false, attacked_wild: false, interrupted: false, ..*old(self) })
                && *final(opponents) == *old(opponents) && final(field).keeps_places(*old(field))
                && final(field).stats == old(field).stats,
            !old(self).interrupted && !old(self).shaken && old(self).weapon_lost ==> *final(self)
                == (Fighter { fell: false, attacked_wild: false, weapon_lost: false, ..*old(self) })
                && *final(opponents) == *old(opponents) && final(field).keeps_places(*old(field))
                && final(field).stats == old(field).stats,
            !old(self).interrupted && !old(self).shaken && !old(self).weapon_lost && old(opponents)[0].spec_is_dead() ==> *final(self) == (Fighter {
                fell: false,
                attacked_wild: false,
                ..*old(self)
            }) && *final(opponents) == *old(opponents) && final(field).keeps_places(*old(field))
                && final(field).stats == old(field).stats,
            !old(self).interrupted && !old(self).shaken && !old(self).weapon_lost && !old(opponents)[0].spec_is_dead() && !old(self).spec_weapon_has_reach() && !old(self).character.edges.erstschlag.0 ==> final(field).distance_map.in_contact(
                *old(self),
                old(opponents)[0],
            ),
            !old(self).interrupted && old(self).shaken ==> {
                let after = (*final(self), final(opponents)@, *final(field));
                ||| Self::sat_out(old(self).at_turn(), old(opponents)@, *old(field), after)
                ||| Self::acted(
                    Fighter { shaken: false, ..old(self).at_turn() },
                    old(opponents)@,
                    *old(field),
                    after,
                )
                ||| old(self).character.bennies.use_for_unshake.0 && old(self).bennies > 0
                    && Self::acted(old(self).at_turn().with_benny_spent(), old(opponents)@, *old(field), after)
            },
            !old(self).interrupted && !old(self).shaken ==> Self::acted(
                old(self).at_turn(),
                old(opponents)@,
                *old(field),
                (*final(self), final(opponents)@, *final(field)),
            ),
            Self::turned(
                *old(self),
                old(opponents)@,
                *old(field),
                (*final(self), final(opponents)@, *final(field)),
            ),
    {
        reveal(Fighter::turned);
        self.fell = false;
        self.attacked_wild = false;
        let ghost start = *self;
        if !self.unshake(&mut field.roller) {
            assert(field.keeps_places(*old(field)));
            return ;
        }
        let ghost acting = *self;
        if self.weapon_lost {
            self.weapon_lost = false;
            assert(field.keeps_places(*old(field)));
            return ;
        }
        let ghost dice = *field;
        self.engage(opponents, field);
        proof {
            let after: Scene = (*self, opponents@, *field);
            assert(Self::engaged((acting, old(opponents)@, dice), after));
            assert(Self::turn_outcome(acting, old(opponents)@, *old(field), after));
            assert(Self::acted(acting, old(opponents)@, *old(field), after));
        }
    }
}

} // verus!
