//! How a fighter attacks and is hurt: attack rolls, damage, ripostes and
//! mishaps.

use vstd::prelude::*;
use crate::character::edges::Edge3;
use crate::character::PassiveStats;
use crate::simulator::fight_report::FightStats;
use crate::simulator::fighter::all_miss;
use crate::simulator::fighter::count_hits;
use crate::simulator::fighter::hits;
use crate::simulator::fighter::is_hit;
use crate::simulator::fighter::AttackResult;
use crate::simulator::fighter::Battlefield;
use crate::simulator::fighter::CriticalFailResult;
use crate::simulator::fighter::CriticalMiss;
use crate::simulator::fighter::Fighter;
use crate::simulator::roller::capped;
use crate::simulator::roller::lowered;
use crate::simulator::roller::may_show;
use crate::simulator::roller::Roll;
use crate::simulator::roller::RollError;
use crate::simulator::roller::Roller;

verus! {

impl Fighter {
    pub fn roll_attack_dice(&self, roller: &mut Roller, num_skill_dice: usize) -> (r: Result<
        Vec<Roll>,
        RollError,
    >)
        requires
            num_skill_dice > 0,
        ensures
            r is Ok ==> r->Ok_0.len() == num_skill_dice,
            r == Err::<Vec<Roll>, RollError>(RollError::Fail) ==> self.berserker,
            r is Ok ==> forall|k: int|
                0 <= k < num_skill_dice ==> (#[trigger] r->Ok_0[k])@ >= 1
                    + self.character.skills.kampfen.spec_die().1,
    {
        roller.roll_skill_with_n_dice(self.character.skills.kampfen, num_skill_dice, self.berserker)
    }

    /// Whether the fighter would spend a benny on an attack without a hit.
    pub open spec fn rerolls_attack(&self) -> bool {
        self.character.bennies.use_for_attack.0 && self.bennies > 0
    }

    /// The counters after an attack of `attacker` on `victim` with `count`
    /// hits.
    pub open spec fn stats_after_hits(
        stats: FightStats,
        attacker: Fighter,
        victim: Fighter,
        count: nat,
    ) -> FightStats {
        let counted: int = if count > 255 {
            255
        } else {
            count as int
        };
        let dealt = if attacker.counted {
            FightStats {
                hits_dealt: crate::simulator::fight_report::capped_sum(stats.hits_dealt, counted),
                ..stats
            }
        } else {
            stats
        };
        if victim.counted {
            FightStats {
                hits_received: crate::simulator::fight_report::capped_sum(
                    dealt.hits_received,
                    counted,
                ),
                ..dealt
            }
        } else {
            dealt
        }
    }

    /// Whether `attack` is how some roll that the fighting die can give
    /// fares against `opponent`.
    #[verifier::opaque]
    pub open spec fn fares(
        self,
        opponent: Fighter,
        contacts: nat,
        modifier: i8,
        attack: AttackResult,
    ) -> bool {
        exists|roll: Roll|
            roll@ >= 1 + self.character.skills.kampfen.spec_die().1 && #[trigger] self.attack_result(
                opponent,
                contacts,
                roll,
                modifier,
            ) == attack
    }

    /// Whether `attacks` can come of one roll of attacks against
    /// `opponent`: each is how some roll of the fighting die fares, or,
    /// for a berserker whose roll failed on a one, all are misses.
    pub open spec fn rolled_attacks(
        self,
        opponent: Fighter,
        contacts: nat,
        modifier: i8,
        attacks: Seq<AttackResult>,
    ) -> bool {
        ||| self.berserker && hits(attacks) == 0
        ||| forall|k: int|
            0 <= k < attacks.len() ==> self.fares(opponent, contacts, modifier, #[trigger] attacks[k])
    }

    /// Whether a benny buys a new roll of attacks: none of `attacks` hit,
    /// the sheet allows it, and one of `bennies` is left.
    pub fn rolls_attack_again(&self, attacks: &Vec<AttackResult>, bennies: u8) -> (r: bool)
        ensures
            r == (hits(attacks@) == 0 && self.character.bennies.use_for_attack.0 && bennies > 0),
    {
        count_hits(attacks) == 0 && self.character.bennies.use_for_attack.is_set() && bennies > 0
    }

    /// Whether a benny buys a new roll of damage: `damage` does not beat
    /// the robustness of `opponent`, the fighter does not hit itself, the
    /// sheet allows it, and one of `bennies` is left.
    pub fn rolls_damage_again(
        &self,
        opponent: &Fighter,
        damage: Roll,
        self_damage: bool,
        bennies: u8,
    ) -> (r: bool)
        ensures
            r == (damage.unsigned() < opponent.passive_stats.robustness && !self_damage
                && self.character.bennies.use_for_damage.0 && bennies > 0),
    {
        damage.as_u8() < opponent.passive_stats.robustness && !self_damage
            && self.character.bennies.use_for_damage.is_set() && bennies > 0
    }

    /// Rolls `num_skill_dice` attacks against `opponent`. If none hits, a
    /// benny buys a new roll, as long as the sheet allows and bennies are
    /// left. The hits of the roll that stands are counted. A critical
    /// failure counts nothing.
    #[verifier::spinoff_prover]
    pub fn try_to_hit_with_bennie(
        &mut self,
        opponent: &Fighter,
        field: &mut Battlefield,
        num_skill_dice: usize,
        modifier: i8,
    ) -> (r: Result<Vec<AttackResult>, CriticalMiss>)
        requires
            num_skill_dice > 0,
        ensures
            *final(self) == (Fighter { bennies: final(self).bennies, ..*old(self) }),
            final(self).bennies <= old(self).bennies,
            !old(self).character.bennies.use_for_attack.0 ==> final(self).bennies == old(self).bennies,
            final(field).keeps_places(*old(field)),
            match r {
                Ok(attacks) => {
                    &&& attacks.len() == num_skill_dice
                    &&& final(field).stats == Self::stats_after_hits(
                        old(field).stats,
                        *old(self),
                        *opponent,
                        hits(attacks@),
                    )
                    &&& hits(attacks@) == 0 && !old(self).berserker ==> !final(self).rerolls_attack()
                    &&& old(self).rolled_attacks(
                        *opponent,
                        old(field).distance_map.contacts(opponent.distance_id),
                        modifier,
                        attacks@,
                    )
                },
                Err(_) => final(field).stats == old(field).stats,
            },
    {
        let mut bennies = self.bennies;
        let mut outcome: Result<Vec<AttackResult>, CriticalMiss> = Err(CriticalMiss);
        let ghost contacts = field.distance_map.contacts(opponent.distance_id);
        loop
            invariant_except_break
                num_skill_dice > 0,
                *self == *old(self),
                bennies <= self.bennies,
                !self.character.bennies.use_for_attack.0 ==> bennies == self.bennies,
                field.keeps_places(*old(field)),
                field.stats == old(field).stats,
                contacts == old(field).distance_map.contacts(opponent.distance_id),
            ensures
                *self == *old(self),
                bennies <= self.bennies,
                !self.character.bennies.use_for_attack.0 ==> bennies == self.bennies,
                field.keeps_places(*old(field)),
                match outcome {
                    Ok(attacks) => {
                        &&& attacks.len() == num_skill_dice
                        &&& field.stats == Self::stats_after_hits(
                            old(field).stats,
                            *self,
                            *opponent,
                            hits(attacks@),
                        )
                        &&& hits(attacks@) == 0 && !self.berserker ==> !(
                        self.character.bennies.use_for_attack.0 && bennies > 0)
                        &&& self.rolled_attacks(*opponent, contacts, modifier, attacks@)
                    },
                    Err(_) => field.stats == old(field).stats,
                },
            decreases bennies,
        {
            let rolls = match self.roll_attack_dice(&mut field.roller, num_skill_dice) {
                Ok(rolls) => rolls,
                Err(RollError::CriticalFail) => {
                    outcome = Err(CriticalMiss);
                    break ;
                },
                Err(RollError::Fail) => {
                    let attacks = all_miss(num_skill_dice);
                    proof {
                        assert(attacks@.all(|a: AttackResult| !is_hit(a)));
                        attacks@.lemma_all_neg_filter_empty(|a: AttackResult| is_hit(a));
                    }
                    outcome = Ok(attacks);
                    break ;
                },
            };
            let mut attacks: Vec<AttackResult> = Vec::new();
            let mut i: usize = 0;
            while i < rolls.len()
                invariant
                    i <= rolls.len(),
                    attacks.len() == i,
                    contacts == field.distance_map.contacts(opponent.distance_id),
                    forall|k: int|
                        0 <= k < rolls.len() ==> (#[trigger] rolls[k])@ >= 1
                            + self.character.skills.kampfen.spec_die().1,
                    forall|k: int|
                        0 <= k < i ==> self.fares(*opponent, contacts, modifier, #[trigger] attacks[k]),
                decreases rolls.len() - i,
            {
                let attack = self.try_to_hit_without_bennie(
                    opponent,
                    &field.distance_map,
                    rolls[i],
                    modifier,
                );
                assert(self.fares(*opponent, contacts, modifier, attack)) by {
                    reveal(Fighter::fares);
                }
                attacks.push(attack);
                i = i + 1;
            }
            let hits = count_hits(&attacks);
            if self.rolls_attack_again(&attacks, bennies) {
                bennies = bennies - 1;
            } else {
                if self.counted {
                    field.stats.add_hits_dealt(hits);
                }
                if opponent.counted {
                    field.stats.add_hits_received(hits);
                }
                outcome = Ok(attacks);
                break ;
            }
        }
        self.bennies = bennies;
        outcome
    }

    /// What three dice come to together, within `i8`.
    pub open spec fn dice_sum(weapon: Roll, strength: Roll, extra: Roll) -> Roll {
        weapon.plus(strength@).plus(extra@)
    }

    /// Whether `rolled` is what the dice of a hit can show together: the
    /// die of the weapon in use with its bonus, no larger than the
    /// strength die; the strength die; and on a raise one die more, a
    /// ten-sided one for a weapon that wounds more on a raise and else a
    /// six-sided one.
    pub open spec fn damage_dice(self, primary_weapon: bool, raise: bool, rolled: Roll) -> bool {
        let sta = self.character.attributes.sta;
        let (sides, bonus, more_crit) = if primary_weapon {
            (
                Roller::damage_sides(self.character.weapon, sta),
                self.character.weapon.bonus_damage.value() as i8,
                self.character.weapon.more_crit.0,
            )
        } else {
            (
                Roller::damage_sides(self.character.secondary_weapon, sta),
                self.character.secondary_weapon.bonus_damage.value() as i8,
                self.character.secondary_weapon.more_crit.0,
            )
        };
        exists|weapon: Roll, strength: Roll, extra: Roll|
            {
                &&& #[trigger] Self::dice_sum(weapon, strength, extra) == rolled
                &&& may_show(sides, bonus, weapon@)
                &&& may_show(sta.spec_die().0, sta.spec_die().1, strength@)
                &&& if raise {
                    may_show(if more_crit { 10u8 } else { 6u8 }, 0, extra@)
                } else {
                    extra@ == 0
                }
            }
    }

    /// Rolls the dice of a hit: the weapon's, the strength die, and on a
    /// raise one die more.
    pub fn roll_damage_dice(&self, roller: &mut Roller, primary_weapon: bool, raise: bool) -> (r:
        Roll)
        ensures
            r@ >= 0,
            raise ==> r@ >= 1,
            self.damage_dice(primary_weapon, raise, r),
    {
        let mut damage = if primary_weapon {
            roller.roll_weapon_damage(&self.character.weapon, self.character.attributes.sta)
        } else {
            roller.roll_weapon_damage(
                &self.character.secondary_weapon,
                self.character.attributes.sta,
            )
        };
        let ghost weapon = damage;
        let strength = roller.roll_attribute_without_wild_die(self.character.attributes.sta);
        damage = damage + strength;
        if raise {
            let more_crit = primary_weapon && self.character.weapon.more_crit.is_set()
                || !primary_weapon && self.character.secondary_weapon.more_crit.is_set();
            let extra = if more_crit {
                roller.roll_raise_d10()
            } else {
                roller.roll_raise()
            };
            damage = damage + extra;
            assert(Self::dice_sum(weapon, strength, extra) == damage);
        } else {
            assert(Self::dice_sum(weapon, strength, Roll(0)) == damage);
        }
        damage
    }

    /// What dice showing `rolled` come to as damage against `opponent`:
    /// piercing and rage are added, 4 for catching a shaken opponent off
    /// guard, the modifier of the attack, 6 for a blow at the head, and
    /// last what a joker adds.
    #[verifier::opaque]
    pub open spec fn damage_total(&self, opponent: Fighter, rolled: Roll, modifier: i8) -> Roll {
        let base = rolled.plus(self.pierced(opponent)).plus(self.berserker_bonus());
        let surprised = if self.character.edges.ubertolpeln.0 && opponent.shaken {
            base.plus(4)
        } else {
            base
        };
        let modified = surprised.plus(modifier as int);
        let at_head = if self.character.passive_modifiers.attack_head.0 {
            modified.plus(6)
        } else {
            modified
        };
        self.with_joker_damage(at_head)
    }

    pub fn total_damage(&self, opponent: &Fighter, rolled: Roll, modifier: i8) -> (r: Roll)
        ensures
            r == self.damage_total(*opponent, rolled, modifier),
    {
        reveal(Fighter::damage_total);
        let mut damage = rolled;
        self.apply_piercing(opponent, &mut damage);
        self.apply_berserker_damage(&mut damage);
        if self.character.edges.ubertolpeln.is_set() && opponent.shaken {
            damage = damage + 4_u8;
        }
        damage = damage + modifier;
        if self.character.passive_modifiers.attack_head.is_set() {
            damage = damage + 6_u8;
        }
        self.apply_joker_to_damage(&mut damage);
        damage
    }

    /// What of `damage` goes through to `opponent`: its robustness, its
    /// armor and what its rage absorbs are taken off.
    pub open spec fn wound_of(&self, opponent: Fighter, damage: Roll) -> Roll {
        damage.minus(capped(opponent.passive_stats.robustness)).minus(
            self.armor_against(opponent),
        ).minus(opponent.berserker_bonus())
    }

    /// The opponent after damage that beat its robustness: it loses life,
    /// is shaken, flies into a rage if that is in it, and is interrupted if
    /// the attacker holds a joker and it does not.
    #[verifier::opaque]
    pub open spec fn wounded(&self, opponent: Fighter, damage: Roll) -> Fighter {
        Fighter {
            passive_stats: PassiveStats {
                life: lowered(opponent.passive_stats.life, self.wound_of(opponent, damage)@),
                ..opponent.passive_stats
            },
            shaken: true,
            berserker: opponent.berserker || opponent.character.edges.berserker != Edge3::Off,
            interrupted: opponent.interrupted || (self.joker && !opponent.joker),
            ..opponent
        }
    }

    /// The counters after a wound of `wound` that `attacker` dealt to
    /// `victim`.
    #[verifier::opaque]
    pub open spec fn stats_after_wound(
        stats: FightStats,
        attacker: Fighter,
        victim: Fighter,
        wound: Roll,
    ) -> FightStats {
        let dealt = if attacker.counted {
            FightStats {
                damaging_hits_dealt: crate::simulator::fight_report::capped_sum(
                    stats.damaging_hits_dealt,
                    1,
                ),
                damage_dealt: crate::simulator::fight_report::capped_sum(
                    stats.damage_dealt,
                    wound.unsigned() as int,
                ),
                ..stats
            }
        } else {
            stats
        };
        if victim.counted {
            FightStats {
                damaging_hits_received: crate::simulator::fight_report::capped_sum(
                    dealt.damaging_hits_received,
                    1,
                ),
                damage_received: crate::simulator::fight_report::capped_sum(
                    dealt.damage_received,
                    wound.unsigned() as int,
                ),
                ..dealt
            }
        } else {
            dealt
        }
    }

    /// Wounds `opponent` with `damage`, and counts the wound.
    #[verifier::spinoff_prover]
    pub fn wound(&self, opponent: &mut Fighter, damage: Roll, stats: &mut FightStats)
        ensures
            *final(opponent) == self.wounded(*old(opponent), damage),
            *final(stats) == Self::stats_after_wound(
                *old(stats),
                *self,
                *old(opponent),
                self.wound_of(*old(opponent), damage),
            ),
            final(opponent).follows(*old(opponent)),
            final(opponent).riposte_done == old(opponent).riposte_done,
            final(opponent).bennies == old(opponent).bennies,
            final(opponent).attacked_wild == old(opponent).attacked_wild,
            final(opponent).shaken,
            final(stats).extends(*old(stats)),
            final(stats).rounds == old(stats).rounds,
    {
        reveal(Fighter::wounded);
        reveal(Fighter::stats_after_wound);
        let mut damage = damage;
        damage = damage - opponent.passive_stats.robustness;
        self.apply_opponents_armor(opponent, &mut damage);
        self.apply_opponent_berserker_rob(opponent, &mut damage);
        opponent.passive_stats.life = opponent.passive_stats.life - damage;
        opponent.shaken = true;
        opponent.enable_berserker();
        if self.counted {
            stats.add_damage_dealt(damage.as_u8());
        }
        if opponent.counted {
            stats.add_damage_received(damage.as_u8());
        }
        if self.joker && !opponent.joker {
            opponent.interrupted = true;
        }
    }

    /// The least that the dice of a hit can show: nothing, or 1 on a raise.
    pub open spec fn least_dice(raise: bool) -> Roll {
        Roll(if raise { 1i8 } else { 0i8 })
    }

    /// Better dice make no less damage.
    pub proof fn lemma_damage_grows(
        self,
        opponent: Fighter,
        low: Roll,
        high: Roll,
        modifier: i8,
    )
        requires
            low@ <= high@,
        ensures
            self.damage_total(opponent, low, modifier)@ <= self.damage_total(
                opponent,
                high,
                modifier,
            )@,
    {
        reveal(Fighter::damage_total);
    }

    /// Whether the fighter would spend a benny on damage that does not
    /// beat the opponent's robustness.
    pub open spec fn rerolls_damage(&self) -> bool {
        self.character.bennies.use_for_damage.0 && self.bennies > 0
    }

    /// Whether `victim_after` and `stats_after` are what a wound by
    /// `attacker` leaves of `victim` and `stats`, for some damage that beat
    /// the victim's robustness.
    pub open spec fn struck(
        attacker: Fighter,
        victim: Fighter,
        stats: FightStats,
        victim_after: Fighter,
        stats_after: FightStats,
    ) -> bool {
        exists|damage: Roll|
            {
                &&& damage.unsigned() >= victim.passive_stats.robustness
                &&& victim_after == #[trigger] attacker.wounded(victim, damage)
                &&& stats_after == Self::stats_after_wound(
                    stats,
                    attacker,
                    victim,
                    attacker.wound_of(victim, damage),
                )
            }
    }

    /// Whether even the least dice of a hit beat the victim's robustness.
    pub open spec fn sure_to_wound(self, victim: Fighter, raise: bool, modifier: i8) -> bool {
        self.damage_total(victim, Self::least_dice(raise), modifier).unsigned()
            >= victim.passive_stats.robustness
    }

    /// What a hit leaves. The attacker is as before but for bennies spent,
    /// and spends none on damage to itself, nor where the sheet keeps them
    /// from damage. The victim is wounded by some
    /// damage that beat its robustness, and then shaken; or it is
    /// untouched, and then the attacker has no benny left to spend on
    /// damage. Damage that is sure to wound does.
    #[verifier::opaque]
    pub open spec fn strike_outcome(
        attacker: Fighter,
        victim: Fighter,
        stats: FightStats,
        raise: bool,
        modifier: i8,
        self_damage: bool,
        attacker_after: Fighter,
        victim_after: Fighter,
        stats_after: FightStats,
    ) -> bool {
        &&& attacker_after == (Fighter { bennies: attacker_after.bennies, ..attacker })
        &&& attacker_after.bennies <= attacker.bennies
        &&& self_damage || !attacker.character.bennies.use_for_damage.0 ==> attacker_after
            == attacker
        &&& {
            ||| victim_after == victim && stats_after == stats && (!self_damage
                ==> !attacker_after.rerolls_damage())
            ||| victim_after.shaken && Self::struck(attacker, victim, stats, victim_after, stats_after)
        }
        &&& attacker.sure_to_wound(victim, raise, modifier) ==> victim_after.shaken
            && Self::struck(attacker, victim, stats, victim_after, stats_after)
    }

    /// Whether `damage` is what dice showing `rolled` come to against
    /// `opponent`, and the dice of a hit can show that together.
    pub open spec fn dealt_by(
        self,
        opponent: Fighter,
        primary_weapon: bool,
        raise: bool,
        modifier: i8,
        rolled: Roll,
        damage: Roll,
    ) -> bool {
        self.damage_dice(primary_weapon, raise, rolled) && damage == self.damage_total(
            opponent,
            rolled,
            modifier,
        )
    }

    /// Whether `damage` is what some roll of the dice of a hit comes to
    /// against `opponent`.
    #[verifier::opaque]
    pub open spec fn deals(
        self,
        opponent: Fighter,
        primary_weapon: bool,
        raise: bool,
        modifier: i8,
        damage: Roll,
    ) -> bool {
        exists|rolled: Roll| #[trigger]
            self.dealt_by(opponent, primary_weapon, raise, modifier, rolled, damage)
    }

    /// Rolls the damage of a hit until it beats the robustness of
    /// `opponent` or no benny buys another roll. Hands back the damage
    /// that beat the robustness, if any did, and the bennies that are
    /// left. The damage is what the last roll of the dice comes to.
    pub fn roll_to_wound(
        &self,
        primary_weapon: bool,
        opponent: &Fighter,
        raise: bool,
        modifier: i8,
        self_damage: bool,
        field: &mut Battlefield,
    ) -> (r: (Option<Roll>, u8))
        ensures
            r.1 <= self.bennies,
            self_damage || !self.character.bennies.use_for_damage.0 ==> r.1 == self.bennies,
            final(field).distance_map == old(field).distance_map,
            final(field).stats == old(field).stats,
            r.0 is Some ==> r.0->Some_0.unsigned() >= opponent.passive_stats.robustness,
            r.0 is None && !self_damage ==> !(self.character.bennies.use_for_damage.0 && r.1 > 0),
            self.sure_to_wound(*opponent, raise, modifier) ==> r.0 is Some,
            r.0 is Some ==> self.deals(*opponent, primary_weapon, raise, modifier, r.0->Some_0),
    {
        let mut bennies = self.bennies;
        let mut dealt: Option<Roll> = None;
        loop
            invariant_except_break
                bennies <= self.bennies,
                self_damage || !self.character.bennies.use_for_damage.0 ==> bennies
                    == self.bennies,
                field.distance_map == old(field).distance_map,
                field.stats == old(field).stats,
                dealt is None,
            ensures
                bennies <= self.bennies,
                self_damage || !self.character.bennies.use_for_damage.0 ==> bennies
                    == self.bennies,
                field.distance_map == old(field).distance_map,
                field.stats == old(field).stats,
                dealt is Some ==> dealt->Some_0.unsigned() >= opponent.passive_stats.robustness,
                dealt is None && !self_damage ==> !(self.character.bennies.use_for_damage.0
                    && bennies > 0),
                self.sure_to_wound(*opponent, raise, modifier) ==> dealt is Some,
                dealt is Some ==> self.deals(
                    *opponent,
                    primary_weapon,
                    raise,
                    modifier,
                    dealt->Some_0,
                ),
            decreases bennies,
        {
            let rolled = self.roll_damage_dice(&mut field.roller, primary_weapon, raise);
            let damage = self.total_damage(opponent, rolled, modifier);
            proof {
                self.lemma_damage_grows(*opponent, Self::least_dice(raise), rolled, modifier);
                assert(self.deals(*opponent, primary_weapon, raise, modifier, damage)) by {
                    reveal(Fighter::deals);
                    assert(self.dealt_by(
                        *opponent,
                        primary_weapon,
                        raise,
                        modifier,
                        rolled,
                        damage,
                    ));
                }
            }
            if self.rolls_damage_again(opponent, damage, self_damage, bennies) {
                bennies = bennies - 1;
            } else if damage.as_u8() < opponent.passive_stats.robustness {
                break ;
            } else {
                dealt = Some(damage);
                break ;
            }
        }
        (dealt, bennies)
    }

    /// A hit that wounded with `dealt`, or did not wound, leaves what
    /// `strike_outcome` says.
    pub proof fn lemma_strike_outcome(
        attacker: Fighter,
        victim: Fighter,
        stats: FightStats,
        hit: (bool, i8, bool),
        dealt: Option<Roll>,
        after: (Fighter, Fighter, FightStats),
    )
        requires
            after.0 == (Fighter { bennies: after.0.bennies, ..attacker }),
            after.0.bennies <= attacker.bennies,
            hit.2 || !attacker.character.bennies.use_for_damage.0 ==> after.0 == attacker,
            attacker.sure_to_wound(victim, hit.0, hit.1) ==> dealt is Some,
            match dealt {
                Some(damage) => {
                    &&& damage.unsigned() >= victim.passive_stats.robustness
                    &&& after.1 == attacker.wounded(victim, damage)
                    &&& after.1.shaken
                    &&& after.2 == Self::stats_after_wound(
                        stats,
                        attacker,
                        victim,
                        attacker.wound_of(victim, damage),
                    )
                },
                None => {
                    &&& after.1 == victim
                    &&& after.2 == stats
                    &&& !hit.2 ==> !after.0.rerolls_damage()
                },
            },
        ensures
            Self::strike_outcome(
                attacker,
                victim,
                stats,
                hit.0,
                hit.1,
                hit.2,
                after.0,
                after.1,
                after.2,
            ),
    {
        reveal(Fighter::strike_outcome);
    }

    /// Rolls the damage of a hit, with new rolls where a benny buys them,
    /// and wounds `opponent` if it beats the opponent's robustness. Hands
    /// back the damage that wounded, if any did.
    #[verifier::spinoff_prover]
    #[verifier::rlimit(20)]
    pub fn roll_and_wound(
        &mut self,
        primary_weapon: bool,
        opponent: &mut Fighter,
        raise: bool,
        modifier: i8,
        self_damage: bool,
        field: &mut Battlefield,
    ) -> (dealt: Option<Roll>)
        ensures
            *final(self) == (Fighter { bennies: final(self).bennies, ..*old(self) }),
            final(self).bennies <= old(self).bennies,
            self_damage || !old(self).character.bennies.use_for_damage.0 ==> *final(self)
                == *old(self),
            final(opponent).follows(*old(opponent)),
            final(opponent).riposte_done == old(opponent).riposte_done,
            final(opponent).bennies == old(opponent).bennies,
            final(opponent).attacked_wild == old(opponent).attacked_wild,
            final(field).keeps_places(*old(field)),
            old(self).sure_to_wound(*old(opponent), raise, modifier) ==> dealt is Some,
            dealt is Some ==> old(self).deals(
                *old(opponent),
                primary_weapon,
                raise,
                modifier,
                dealt->Some_0,
            ),
            match dealt {
                Some(damage) => {
                    &&& damage.unsigned() >= old(opponent).passive_stats.robustness
                    &&& *final(opponent) == old(self).wounded(*old(opponent), damage)
                    &&& final(opponent).shaken
                    &&& final(field).stats == Self::stats_after_wound(
                        old(field).stats,
                        *old(self),
                        *old(opponent),
                        old(self).wound_of(*old(opponent), damage),
                    )
                },
                None => {
                    &&& *final(opponent) == *old(opponent)
                    &&& final(field).stats == old(field).stats
                    &&& !self_damage ==> !final(self).rerolls_damage()
                },
            },
    {
        let (dealt, bennies) = self.roll_to_wound(
            primary_weapon,
            opponent,
            raise,
            modifier,
            self_damage,
            field,
        );
        match dealt {
            Some(damage) => {
                self.wound(opponent, damage, &mut field.stats);
            },
            None => {},
        }
        self.bennies = bennies;
        dealt
    }

    /// Rolls the damage of a hit and wounds `opponent` if it beats the
    /// opponent's robustness. If it does not, a benny buys a new roll, as
    /// long as the sheet allows and bennies are left; never for damage that
    /// a fighter does to itself. Hands back the damage that wounded, if any
    /// did. Where even the least dice beat the robustness, the opponent is
    /// wounded.
    #[verifier::spinoff_prover]
    pub fn strike(
        &mut self,
        primary_weapon: bool,
        opponent: &mut Fighter,
        raise: bool,
        modifier: i8,
        self_damage: bool,
        field: &mut Battlefield,
    ) -> (dealt: Option<Roll>)
        ensures
            *final(self) == (Fighter { bennies: final(self).bennies, ..*old(self) }),
            final(self).bennies <= old(self).bennies,
            self_damage || !old(self).character.bennies.use_for_damage.0 ==> *final(self)
                == *old(self),
            final(opponent).follows(*old(opponent)),
            final(opponent).riposte_done == old(opponent).riposte_done,
            final(opponent).bennies == old(opponent).bennies,
            final(opponent).attacked_wild == old(opponent).attacked_wild,
            final(field).keeps_places(*old(field)),
            old(self).sure_to_wound(*old(opponent), raise, modifier) ==> dealt is Some,
            dealt is Some ==> old(self).deals(
                *old(opponent),
                primary_weapon,
                raise,
                modifier,
                dealt->Some_0,
            ),
            match dealt {
                Some(damage) => {
                    &&& damage.unsigned() >= old(opponent).passive_stats.robustness
                    &&& *final(opponent) == old(self).wounded(*old(opponent), damage)
                    &&& final(opponent).shaken
                    &&& final(field).stats == Self::stats_after_wound(
                        old(field).stats,
                        *old(self),
                        *old(opponent),
                        old(self).wound_of(*old(opponent), damage),
                    )
                },
                None => {
                    &&& *final(opponent) == *old(opponent)
                    &&& final(field).stats == old(field).stats
                    &&& !self_damage ==> !final(self).rerolls_damage()
                },
            },
            Self::strike_outcome(
                *old(self),
                *old(opponent),
                old(field).stats,
                raise,
                modifier,
                self_damage,
                *final(self),
                *final(opponent),
                final(field).stats,
            ),
    {
        let dealt = self.roll_and_wound(primary_weapon, opponent, raise, modifier, self_damage, field);
        proof {
            Self::lemma_strike_outcome(
                *old(self),
                *old(opponent),
                old(field).stats,
                (raise, modifier, self_damage),
                dealt,
                (*self, *opponent, field.stats),
            );
        }
        dealt
    }

    /// Whether an attack out of turn is a wild one: the main weapon is in
    /// use, and the fighter is merciless and set on attacking wildly.
    pub open spec fn special_wild(self) -> bool {
        self.character.weapon.active && self.character.edges.erbarmungslos.0
            && self.character.passive_modifiers.attack_wild.0
    }

    /// What reactions do to the mark of a wild attack: it stays once set,
    /// and it is set only by a wild attack out of turn.
    pub open spec fn keeps_wild(self, earlier: Fighter) -> bool {
        &&& earlier.attacked_wild ==> self.attacked_wild
        &&& self.attacked_wild ==> earlier.attacked_wild || earlier.special_wild()
    }

    /// Whether the fighter strikes back at a missed attack: it has the
    /// improved riposte edge and has not used it this round, and it is not
    /// shaken or has a benny to spend against that.
    pub open spec fn ripostes(self) -> bool {
        &&& !self.riposte_done
        &&& self.character.edges.riposte == Edge3::Improved
        &&& !self.shaken || (self.character.bennies.use_for_special_attacks.0 && self.bennies > 0)
    }

    /// Whether the fighter strikes first at `opponent`: it has the
    /// first-strike edge, the opponent comes into contact or has reach, and
    /// the fighter is not shaken or has a benny to spend against that.
    pub open spec fn strikes_first(self, opponent: Fighter, base_contact: bool) -> bool {
        &&& self.character.edges.erstschlag.0
        &&& opponent.character.weapon.reach.value() != 0 || base_contact
        &&& !self.shaken || (self.character.bennies.use_for_special_attacks.0 && self.bennies > 0)
    }

    /// How many ripostes the two can still make this round.
    pub open spec fn ripostes_left(a: Fighter, b: Fighter) -> nat {
        (if a.riposte_done { 0nat } else { 1nat }) + (if b.riposte_done { 0nat } else { 1nat })
    }

    /// What following up on an attack leaves of attacker, victim and
    /// counters. Both keep what a fight cannot change. A shaken attacker
    /// does nothing. A hit or a raise leaves what `strike_outcome` says. A
    /// miss against one who does not riposte changes nothing; after any
    /// miss the victim has made its riposte for the round, if it is one to
    /// make it.
    #[verifier::opaque]
    pub open spec fn damage_outcome(
        attacker: Fighter,
        victim: Fighter,
        stats: FightStats,
        attack: AttackResult,
        modifier: i8,
        self_damage: bool,
        attacker_after: Fighter,
        victim_after: Fighter,
        stats_after: FightStats,
    ) -> bool {
        &&& attacker_after.follows(attacker)
        &&& victim_after.follows(victim)
        &&& attacker_after.keeps_wild(attacker)
        &&& victim_after.keeps_wild(victim)
        &&& stats_after.extends(stats)
        &&& stats_after.rounds == stats.rounds
        &&& attacker.shaken ==> attacker_after == attacker && victim_after == victim && stats_after
            == stats
        &&& !attacker.shaken && attack != AttackResult::Miss ==> Self::strike_outcome(
            attacker,
            victim,
            stats,
            attack == AttackResult::Raise,
            modifier,
            self_damage,
            attacker_after,
            victim_after,
            stats_after,
        )
        &&& attack == AttackResult::Miss && !victim.ripostes() ==> attacker_after == attacker
            && victim_after == victim && stats_after == stats
        &&& !attacker.shaken && attack == AttackResult::Miss ==> victim_after.riposte_done == (
        victim.riposte_done || victim.ripostes())
    }

    /// What following up on `attacks`, one after the other, leaves of
    /// attacker, victim and counters. An attack has one die or two.
    pub open spec fn damages(
        attacker: Fighter,
        victim: Fighter,
        stats: FightStats,
        attacks: Seq<AttackResult>,
        modifier: i8,
        attacker_after: Fighter,
        victim_after: Fighter,
        stats_after: FightStats,
    ) -> bool {
        if attacks.len() == 1 {
            Self::damage_outcome(
                attacker,
                victim,
                stats,
                attacks[0],
                modifier,
                false,
                attacker_after,
                victim_after,
                stats_after,
            )
        } else {
            attacks.len() == 2 && exists|a: Fighter, v: Fighter, s: FightStats| #[trigger]
                Self::damage_outcome(attacker, victim, stats, attacks[0], modifier, false, a, v, s)
                    && Self::damage_outcome(
                    a,
                    v,
                    s,
                    attacks[1],
                    modifier,
                    false,
                    attacker_after,
                    victim_after,
                    stats_after,
                )
        }
    }

    /// Whether `mid` is `before` with some bennies spent.
    pub open spec fn spent(before: Fighter, mid: Fighter) -> bool {
        mid == (Fighter { bennies: mid.bennies, ..before }) && mid.bennies <= before.bennies
    }

    /// Whether `mid` and `attacks` are what a roll of `dice` attacks
    /// against `victim` can leave of `before`: bennies went for new rolls
    /// only and where the sheet allows, and an attacker who settles for no
    /// hit has none left to spend.
    pub open spec fn attack_step(
        before: Fighter,
        victim: Fighter,
        contacts: nat,
        modifier: i8,
        dice: nat,
        mid: Fighter,
        attacks: Seq<AttackResult>,
    ) -> bool {
        &&& Self::spent(before, mid)
        &&& !before.character.bennies.use_for_attack.0 ==> mid == before
        &&& attacks.len() == dice
        &&& before.rolled_attacks(victim, contacts, modifier, attacks)
        &&& hits(attacks) == 0 && !before.berserker ==> !mid.rerolls_attack()
    }

    /// Whether `mid` is `before` with some bennies spent, and `sum` a sum
    /// of two dice.
    pub open spec fn misstep(before: Fighter, mid: Fighter, sum: u8) -> bool {
        Self::spent(before, mid) && 2 <= sum <= 12
    }

    /// What an attack with `dice` dice leaves of the attacker `before`, of
    /// `victim` and of the counters. Either the roll was a critical
    /// failure: the victim is untouched, and the attacker, some bennies
    /// spent, suffers a mishap of the table. Or a roll stands: its hits are
    /// counted, and each of its dice is followed up on in turn.
    #[verifier::opaque]
    pub open spec fn attack_outcome(
        before: Fighter,
        victim: Fighter,
        stats: FightStats,
        contacts: nat,
        attack_modifier: i8,
        dmg_modifier: i8,
        dice: nat,
        after: Fighter,
        victim_after: Fighter,
        stats_after: FightStats,
    ) -> bool {
        ||| victim_after == victim && exists|mid: Fighter, sum: u8| #[trigger]
            Self::misstep(before, mid, sum) && Self::mishap_outcome(
                mid,
                stats,
                CriticalFailResult::short_range_table(sum),
                after,
                stats_after,
            )
        ||| exists|mid: Fighter, attacks: Seq<AttackResult>| #[trigger]
            Self::attack_step(before, victim, contacts, attack_modifier, dice, mid, attacks)
                && Self::damages(
                mid,
                victim,
                Self::stats_after_hits(stats, before, victim, hits(attacks)),
                attacks,
                dmg_modifier,
                after,
                victim_after,
                stats_after,
            )
    }

    /// A roll that stands and is followed up on makes the outcome of an
    /// attack.
    pub proof fn lemma_attack_stands(
        before: Fighter,
        victim: Fighter,
        stats: FightStats,
        contacts: nat,
        modifiers: (i8, i8),
        mid: Fighter,
        attacks: Seq<AttackResult>,
        after: (Fighter, Fighter, FightStats),
    )
        requires
            Self::attack_step(before, victim, contacts, modifiers.0, attacks.len(), mid, attacks),
            Self::damages(
                mid,
                victim,
                Self::stats_after_hits(stats, before, victim, hits(attacks)),
                attacks,
                modifiers.1,
                after.0,
                after.1,
                after.2,
            ),
        ensures
            Self::attack_outcome(
                before,
                victim,
                stats,
                contacts,
                modifiers.0,
                modifiers.1,
                attacks.len(),
                after.0,
                after.1,
                after.2,
            ),
    {
        reveal(Fighter::attack_outcome);
    }

    /// A critical failure and its mishap make the outcome of an attack.
    pub proof fn lemma_attack_fails(
        before: Fighter,
        victim: Fighter,
        stats: FightStats,
        contacts: nat,
        modifiers: (i8, i8),
        dice: nat,
        mid: Fighter,
        sum: u8,
        after: (Fighter, FightStats),
    )
        requires
            Self::misstep(before, mid, sum),
            Self::mishap_outcome(
                mid,
                stats,
                CriticalFailResult::short_range_table(sum),
                after.0,
                after.1,
            ),
        ensures
            Self::attack_outcome(
                before,
                victim,
                stats,
                contacts,
                modifiers.0,
                modifiers.1,
                dice,
                after.0,
                victim,
                after.1,
            ),
    {
        reveal(Fighter::attack_outcome);
    }

    /// What a missed attack leaves where `victim` strikes back at
    /// `attacker` with its main weapon: what `attack_outcome` says of the
    /// riposte, an attack out of turn by the victim, roused and with its
    /// riposte of the round made.
    #[verifier::opaque]
    pub open spec fn riposted(
        victim: Fighter,
        attacker: Fighter,
        stats: FightStats,
        contacts: nat,
        after: (Fighter, Fighter, FightStats),
    ) -> bool {
        victim.ripostes() && victim.character.weapon.active ==> Self::attack_outcome(
            victim.roused().riposting().marked_wild(),
            attacker,
            stats,
            contacts,
            victim.special_modifier(),
            victim.special_modifier(),
            1,
            after.0,
            after.1,
            after.2,
        )
    }

    /// Follows up on an attack: a miss invites the opponent's riposte, a
    /// hit or a raise deals damage. A fighter that was shaken in the
    /// meantime does neither. After a miss the opponent has made its
    /// riposte for the round, if it is one to make it, and the riposte
    /// leaves what `riposted` says. A hit or a raise leaves what
    /// `strike_outcome` says.
    #[verifier::spinoff_prover]
    pub fn do_damage(
        &mut self,
        primary_weapon: bool,
        opponent: &mut Fighter,
        attack_result: AttackResult,
        modifier: i8,
        self_damage: bool,
        field: &mut Battlefield,
    )
        ensures
            final(self).follows(*old(self)),
            final(opponent).follows(*old(opponent)),
            final(field).keeps_places(*old(field)),
            old(self).shaken ==> *final(self) == *old(self) && *final(opponent) == *old(opponent)
                && final(field).stats == old(field).stats,
            !old(self).shaken && attack_result != AttackResult::Miss ==> *final(self) == (Fighter {
                bennies: final(self).bennies,
                ..*old(self)
            }) && final(opponent).riposte_done == old(opponent).riposte_done && final(opponent).bennies == old(opponent).bennies,
            attack_result == AttackResult::Miss && !old(opponent).ripostes() ==> *final(self)
                == *old(self) && *final(opponent) == *old(opponent) && final(field).stats == old(field).stats,
            !old(self).shaken && attack_result == AttackResult::Miss ==> final(opponent).riposte_done == (old(opponent).riposte_done || old(opponent).ripostes()),
            final(self).keeps_wild(*old(self)),
            final(opponent).keeps_wild(*old(opponent)),
            Self::damage_outcome(
                *old(self),
                *old(opponent),
                old(field).stats,
                attack_result,
                modifier,
                self_damage,
                *final(self),
                *final(opponent),
                final(field).stats,
            ),
            !old(self).shaken && attack_result == AttackResult::Miss ==> Self::riposted(
                *old(opponent),
                *old(self),
                old(field).stats,
                old(field).distance_map.contacts(old(self).distance_id),
                (*final(opponent), *final(self), final(field).stats),
            ),
        decreases Self::ripostes_left(*old(self), *old(opponent)), 2int,
    {
        reveal(Fighter::damage_outcome);
        reveal(Fighter::riposted);
        if self.shaken {
            return ;
        }
        let raise = match attack_result {
            AttackResult::Miss => {
                opponent.trigger_riposte(self, field);
                return ;
            },
            AttackResult::Hit => false,
            AttackResult::Raise => true,
        };
        let _ = self.strike(primary_weapon, opponent, raise, modifier, self_damage, field);
    }

    /// The fighter as it strikes back: its riposte of the round is made.
    pub open spec fn riposting(self) -> Fighter {
        Fighter { riposte_done: true, ..self }
    }

    /// The riposte itself: it is made for the round, and it is an attack
    /// out of turn.
    #[verifier::spinoff_prover]
    pub fn riposte(&mut self, opponent: &mut Fighter, field: &mut Battlefield)
        requires
            !old(self).riposte_done,
        ensures
            final(self).follows(*old(self)),
            final(opponent).follows(*old(opponent)),
            final(field).keeps_places(*old(field)),
            final(self).riposte_done,
            final(self).attacked_wild == (old(self).attacked_wild || old(self).special_wild()),
            final(self).keeps_wild(*old(self)),
            final(opponent).keeps_wild(*old(opponent)),
            old(self).character.weapon.active ==> Self::attack_outcome(
                old(self).riposting().marked_wild(),
                *old(opponent),
                old(field).stats,
                old(field).distance_map.contacts(old(opponent).distance_id),
                old(self).special_modifier(),
                old(self).special_modifier(),
                1,
                *final(self),
                *final(opponent),
                final(field).stats,
            ),
        decreases Self::ripostes_left(*old(self), *old(opponent)), 0int,
    {
        self.riposte_done = true;
        self.do_special_attack(opponent, field);
    }

    /// Strikes back at an opponent whose attack missed: once a round, with
    /// the improved riposte edge, and not while shaken. A shaken fighter
    /// spends a benny to strike back, where the sheet allows. With the
    /// main weapon in use, the riposte leaves what `attack_outcome` says.
    #[verifier::spinoff_prover]
    #[verifier::rlimit(30)]
    pub fn trigger_riposte(&mut self, opponent: &mut Fighter, field: &mut Battlefield)
        ensures
            final(self).follows(*old(self)),
            final(opponent).follows(*old(opponent)),
            final(field).keeps_places(*old(field)),
            !old(self).ripostes() ==> *final(self) == *old(self) && *final(opponent) == *old(opponent) && final(field).stats == old(field).stats,
            final(self).riposte_done == (old(self).riposte_done || old(self).ripostes()),
            old(self).ripostes() ==> final(self).attacked_wild == (old(self).attacked_wild || old(self).special_wild()),
            old(self).ripostes() && old(self).shaken ==> final(self).bennies < old(self).bennies,
            final(self).keeps_wild(*old(self)),
            final(opponent).keeps_wild(*old(opponent)),
            old(self).ripostes() && old(self).character.weapon.active ==> Self::attack_outcome(
                old(self).roused().riposting().marked_wild(),
                *old(opponent),
                old(field).stats,
                old(field).distance_map.contacts(old(opponent).distance_id),
                old(self).special_modifier(),
                old(self).special_modifier(),
                1,
                *final(self),
                *final(opponent),
                final(field).stats,
            ),
        decreases Self::ripostes_left(*old(self), *old(opponent)), 1int,
    {
        if self.riposte_done || self.character.edges.riposte != Edge3::Improved {
            return ;
        }
        if self.character.bennies.use_for_special_attacks.is_set() {
            self.unshake_with_bennie();
        }
        assert(*self == old(self).roused());
        if self.shaken {
            return ;
        }
        assert(old(self).ripostes());
        self.riposte(opponent, field);
    }

    /// The fighter as it goes into an attack out of turn: marked as
    /// attacking wildly where such an attack is wild.
    pub open spec fn marked_wild(self) -> Fighter {
        if self.character.edges.erbarmungslos.0 && self.character.passive_modifiers.attack_wild.0 {
            Fighter { attacked_wild: true, ..self }
        } else {
            self
        }
    }

    /// What a wild attack out of turn adds to the attack roll and to the
    /// damage.
    pub open spec fn special_modifier(self) -> i8 {
        if self.character.edges.erbarmungslos.0 && self.character.passive_modifiers.attack_wild.0 {
            2
        } else {
            0
        }
    }

    /// Follows up on each die of an attack in turn, as `damages` says.
    #[verifier::spinoff_prover]
    pub fn follow_attacks(
        &mut self,
        primary_weapon: bool,
        opponent: &mut Fighter,
        attacks: &Vec<AttackResult>,
        modifier: i8,
        field: &mut Battlefield,
    )
        requires
            1 <= attacks.len() <= 2,
        ensures
            final(self).follows(*old(self)),
            final(opponent).follows(*old(opponent)),
            final(field).keeps_places(*old(field)),
            final(self).keeps_wild(*old(self)),
            final(opponent).keeps_wild(*old(opponent)),
            Self::damages(
                *old(self),
                *old(opponent),
                old(field).stats,
                attacks@,
                modifier,
                *final(self),
                *final(opponent),
                final(field).stats,
            ),
        decreases Self::ripostes_left(*old(self), *old(opponent)), 3int,
    {
        self.do_damage(primary_weapon, opponent, attacks[0], modifier, false, field);
        if attacks.len() > 1 {
            let ghost first = (*self, *opponent, field.stats);
            self.do_damage(primary_weapon, opponent, attacks[1], modifier, false, field);
            assert(Self::damage_outcome(
                *old(self),
                *old(opponent),
                old(field).stats,
                attacks@[0],
                modifier,
                false,
                first.0,
                first.1,
                first.2,
            ));
        }
    }

    /// One attack with one die or two: the roll, then either the mishap of
    /// a critical failure or the damage of each die in turn.
    #[verifier::spinoff_prover]
    pub fn attack_with(
        &mut self,
        primary_weapon: bool,
        opponent: &mut Fighter,
        dice: usize,
        modifiers: (i8, i8),
        field: &mut Battlefield,
    )
        requires
            1 <= dice <= 2,
        ensures
            final(self).follows(*old(self)),
            final(opponent).follows(*old(opponent)),
            final(field).keeps_places(*old(field)),
            final(self).keeps_wild(*old(self)),
            final(opponent).keeps_wild(*old(opponent)),
            Self::attack_outcome(
                *old(self),
                *old(opponent),
                old(field).stats,
                old(field).distance_map.contacts(old(opponent).distance_id),
                modifiers.0,
                modifiers.1,
                dice as nat,
                *final(self),
                *final(opponent),
                final(field).stats,
            ),
        decreases Self::ripostes_left(*old(self), *old(opponent)), 4int,
    {
        let ghost contacts = field.distance_map.contacts(opponent.distance_id);
        let attacks = match self.try_to_hit_with_bennie(opponent, field, dice, modifiers.0) {
            Ok(results) => results,
            Err(CriticalMiss) => {
                let ghost mid = *self;
                self.critical_fail(primary_weapon, field);
                proof {
                    let sum = choose|sum: u8|
                        2 <= sum <= 12 && Self::mishap_outcome(
                            mid,
                            old(field).stats,
                            #[trigger] CriticalFailResult::short_range_table(sum),
                            *self,
                            field.stats,
                        );
                    Self::lemma_attack_fails(
                        *old(self),
                        *old(opponent),
                        old(field).stats,
                        contacts,
                        modifiers,
                        dice as nat,
                        mid,
                        sum,
                        (*self, field.stats),
                    );
                }
                return ;
            },
        };
        let ghost mid = *self;
        self.follow_attacks(primary_weapon, opponent, &attacks, modifiers.1, field);
        proof {
            Self::lemma_attack_stands(
                *old(self),
                *old(opponent),
                old(field).stats,
                contacts,
                modifiers,
                mid,
                attacks@,
                (*self, *opponent, field.stats),
            );
        }
    }

    /// An attack out of turn, with one die of the main weapon. It is wild
    /// only for one who is merciless. With the main weapon in use, it
    /// leaves what `attack_outcome` says of the attacker that
    /// `marked_wild` gives.
    #[verifier::spinoff_prover]
    pub fn do_special_attack(&mut self, opponent: &mut Fighter, field: &mut Battlefield)
        ensures
            final(self).follows(*old(self)),
            final(opponent).follows(*old(opponent)),
            final(field).keeps_places(*old(field)),
            !old(self).character.weapon.active ==> *final(self) == *old(self) && *final(opponent)
                == *old(opponent) && final(field).stats == old(field).stats,
            final(self).attacked_wild == (old(self).attacked_wild || old(self).special_wild()),
            final(opponent).keeps_wild(*old(opponent)),
            old(self).character.weapon.active ==> Self::attack_outcome(
                old(self).marked_wild(),
                *old(opponent),
                old(field).stats,
                old(field).distance_map.contacts(old(opponent).distance_id),
                old(self).special_modifier(),
                old(self).special_modifier(),
                1,
                *final(self),
                *final(opponent),
                final(field).stats,
            ),
        decreases Self::ripostes_left(*old(self), *old(opponent)), 5int,
    {
        if !self.character.weapon.active {
            return ;
        }
        let mut modifier: i8 = 0;
        if self.character.edges.erbarmungslos.is_set()
            && self.character.passive_modifiers.attack_wild.is_set() {
            self.attacked_wild = true;
            modifier = 2;
        }
        self.attack_with(true, opponent, 1, (modifier, modifier), field);
    }

    /// The fighter as it rouses itself for an attack out of turn: a benny
    /// goes against being shaken, where the sheet allows.
    pub open spec fn roused(self) -> Fighter {
        if self.character.bennies.use_for_special_attacks.0 {
            self.with_benny_spent()
        } else {
            self
        }
    }

    /// Strikes first at an opponent who closes in or has the longer
    /// weapon, with the first-strike edge and not while shaken. A shaken
    /// fighter spends a benny to strike, where the sheet allows. With the
    /// main weapon in use, the strike leaves what `attack_outcome` says.
    #[verifier::spinoff_prover]
    pub fn trigger_erstschlag(
        &mut self,
        opponent: &mut Fighter,
        base_contact_to_target: bool,
        field: &mut Battlefield,
    )
        ensures
            final(self).follows(*old(self)),
            final(opponent).follows(*old(opponent)),
            final(field).keeps_places(*old(field)),
            !old(self).strikes_first(*old(opponent), base_contact_to_target) ==> *final(self)
                == *old(self) && *final(opponent) == *old(opponent) && final(field).stats == old(field).stats,
            old(self).strikes_first(*old(opponent), base_contact_to_target) ==> final(self).attacked_wild == (old(self).attacked_wild || old(self).special_wild()),
            old(self).strikes_first(*old(opponent), base_contact_to_target) && old(self).shaken
                ==> final(self).bennies < old(self).bennies,
            final(self).keeps_wild(*old(self)),
            final(opponent).keeps_wild(*old(opponent)),
            old(self).strikes_first(*old(opponent), base_contact_to_target)
                && old(self).character.weapon.active ==> Self::attack_outcome(
                old(self).roused().marked_wild(),
                *old(opponent),
                old(field).stats,
                old(field).distance_map.contacts(old(opponent).distance_id),
                old(self).special_modifier(),
                old(self).special_modifier(),
                1,
                *final(self),
                *final(opponent),
                final(field).stats,
            ),
    {
        if !self.character.edges.erstschlag.is_set() {
            return ;
        }
        if opponent.character.weapon.reach.get() == 0 && !base_contact_to_target {
            return ;
        }
        if self.character.bennies.use_for_special_attacks.is_set() {
            self.unshake_with_bennie();
        }
        if self.shaken {
            return ;
        }
        self.do_special_attack(opponent, field);
    }

    /// What an injury leaves: nothing, if the fighter was shaken or the
    /// damage did not beat its robustness; else the wound of some damage
    /// that did, dealt by the fighter to itself and counted so.
    pub open spec fn injured_outcome(
        before: Fighter,
        stats: FightStats,
        after: Fighter,
        stats_after: FightStats,
    ) -> bool {
        ||| after == before && stats_after == stats
        ||| !before.shaken && exists|damage: Roll|
            {
                &&& damage.unsigned() >= before.passive_stats.robustness
                &&& after == #[trigger] before.wounded(before, damage)
                &&& stats_after == Self::stats_after_wound(
                    stats,
                    before,
                    before,
                    before.wound_of(before, damage),
                )
            }
    }

    /// What a mishap leaves: what `after_mishap` says, where no die
    /// decides; else what an injury leaves.
    pub open spec fn mishap_outcome(
        before: Fighter,
        stats: FightStats,
        mishap: CriticalFailResult,
        after: Fighter,
        stats_after: FightStats,
    ) -> bool {
        if mishap == CriticalFailResult::Injured || mishap == CriticalFailResult::HeavilyInjured {
            Self::injured_outcome(before, stats, after, stats_after)
        } else {
            after == before.after_mishap(mishap) && stats_after == stats
        }
    }

    /// Hits itself with its own weapon, as hard as a wild attack would; a
    /// shaken fighter does not. Where even the least dice beat its
    /// robustness, the fighter is wounded and so shaken.
    #[verifier::spinoff_prover]
    pub fn injure_self(&mut self, primary_weapon: bool, raise: bool, field: &mut Battlefield)
        ensures
            final(self).follows(*old(self)),
            final(field).keeps_places(*old(field)),
            final(self).riposte_done == old(self).riposte_done,
            final(self).bennies == old(self).bennies,
            final(self).attacked_wild == old(self).attacked_wild,
            old(self).shaken ==> *final(self) == *old(self),
            Self::injured_outcome(*old(self), old(field).stats, *final(self), final(field).stats),
            !old(self).shaken && old(self).damage_total(
                *old(self),
                Self::least_dice(raise),
                if old(self).attacked_wild {
                    2i8
                } else {
                    0i8
                },
            ).unsigned() >= old(self).passive_stats.robustness ==> final(self).shaken,
    {
        let mut tmp = *self;
        let modifier: i8 = if self.attacked_wild {
            2
        } else {
            0
        };
        if !tmp.shaken {
            match tmp.strike(primary_weapon, self, raise, modifier, true, field) {
                Some(damage) => {
                    assert(*self == old(self).wounded(*old(self), damage));
                    assert(self.shaken) by {
                        reveal(Fighter::wounded);
                    }
                },
                None => {},
            }
        }
    }

    /// The fighter after a mishap that no die decides: a destroyed weapon
    /// counts as defeat and a lost weapon costs the next turn, neither for
    /// a martial artist; a fall leaves the fighter shaken on the ground.
    pub open spec fn after_mishap(self, mishap: CriticalFailResult) -> Fighter {
        match mishap {
            CriticalFailResult::WeaponDestroyed => if self.character.edges.kampfkunstler.0 {
                self
            } else {
                Fighter { passive_stats: PassiveStats { life: 0, ..self.passive_stats }, ..self }
            },
            CriticalFailResult::Fell => Fighter { shaken: true, fell: true, ..self },
            CriticalFailResult::Tripped => Fighter { shaken: true, fell: true, ..self },
            CriticalFailResult::WeaponLost => Fighter {
                weapon_lost: !self.character.edges.kampfkunstler.0,
                ..self
            },
            CriticalFailResult::Injured => self,
            CriticalFailResult::HeavilyInjured => self,
        }
    }

    /// Suffers a mishap that no die decides.
    pub fn suffer_plainly(&mut self, mishap: CriticalFailResult)
        requires
            mishap != CriticalFailResult::Injured,
            mishap != CriticalFailResult::HeavilyInjured,
        ensures
            *final(self) == old(self).after_mishap(mishap),
    {
        match mishap {
            CriticalFailResult::WeaponDestroyed => {
                if !self.character.edges.kampfkunstler.is_set() {
                    self.passive_stats.life = 0;
                }
            },
            CriticalFailResult::Fell => {
                self.shaken = true;
                self.fell = true;
            },
            CriticalFailResult::Tripped => {
                self.shaken = true;
                self.fell = true;
            },
            CriticalFailResult::WeaponLost => {
                self.weapon_lost = !self.character.edges.kampfkunstler.is_set();
            },
            _ => {},
        }
    }

    /// What a mishap does to the fighter. An injury is a hit with the
    /// fighter's own weapon, a heavy injury a raise.
    #[verifier::spinoff_prover]
    pub fn suffer(&mut self, mishap: CriticalFailResult, primary_weapon: bool, field: &mut Battlefield)
        ensures
            final(self).follows(*old(self)),
            final(field).keeps_places(*old(field)),
            final(self).riposte_done == old(self).riposte_done,
            final(self).bennies == old(self).bennies,
            final(self).attacked_wild == old(self).attacked_wild,
            mishap != CriticalFailResult::Injured && mishap != CriticalFailResult::HeavilyInjured
                ==> *final(self) == old(self).after_mishap(mishap),
            old(self).shaken && (mishap == CriticalFailResult::Injured || mishap
                == CriticalFailResult::HeavilyInjured) ==> *final(self) == *old(self),
            Self::mishap_outcome(
                *old(self),
                old(field).stats,
                mishap,
                *final(self),
                final(field).stats,
            ),
    {
        match mishap {
            CriticalFailResult::Injured => {
                self.injure_self(primary_weapon, false, field);
            },
            CriticalFailResult::HeavilyInjured => {
                self.injure_self(primary_weapon, true, field);
            },
            _ => {
                self.suffer_plainly(mishap);
            },
        }
    }

    /// A critical failure of an attack: rolls on the mishap table of close
    /// combat and suffers what comes up. What it leaves is what one of the
    /// mishaps of that table leaves.
    #[verifier::spinoff_prover]
    pub fn critical_fail(&mut self, primary_weapon: bool, field: &mut Battlefield)
        ensures
            final(self).follows(*old(self)),
            final(field).keeps_places(*old(field)),
            final(self).riposte_done == old(self).riposte_done,
            final(self).bennies == old(self).bennies,
            final(self).attacked_wild == old(self).attacked_wild,
            exists|sum: u8|
                2 <= sum <= 12 && Self::mishap_outcome(
                    *old(self),
                    old(field).stats,
                    #[trigger] CriticalFailResult::short_range_table(sum),
                    *final(self),
                    final(field).stats,
                ),
    {
        let fail_result = CriticalFailResult::short_range(&mut field.roller);
        let ghost sum = choose|sum: u8|
            2 <= sum <= 12 && fail_result == CriticalFailResult::short_range_table(sum);
        self.suffer(fail_result, primary_weapon, field);
        assert(Self::mishap_outcome(
            *old(self),
            old(field).stats,
            CriticalFailResult::short_range_table(sum),
            *self,
            field.stats,
        ));
    }
}

} // verus!
