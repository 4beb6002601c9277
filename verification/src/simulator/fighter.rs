//! A combatant during a fight: its state, and how it acts and reacts.

use vstd::prelude::*;
use crate::character::edges::Edge3;
use crate::character::PassiveStats;
use crate::character::Sheet;
use crate::simulator::cards::Card;
use crate::simulator::cards::CardDeck;
use crate::simulator::roller::RollError;
use crate::simulator::roller::RollResult;
use crate::simulator::distance::DistanceMap;
use crate::simulator::distance::Pair;
use crate::simulator::fight_report::FightStats;
use crate::simulator::roller::capped;
use crate::simulator::roller::lowered;
use crate::simulator::roller::Roll;
use crate::simulator::roller::Roller;

verus! {

/// The side a fighter is on.
#[derive(Debug, Clone, Copy, PartialEq, Eq, Structural)]
pub enum Group {
    Left,
    Right,
}

/// The state of one combatant during one fight.
#[derive(Debug, Clone, Copy)]
pub struct Fighter {
    pub group: Group,
    /// Whether the counters of the fight are kept from this fighter's side.
    pub counted: bool,
    pub drawn_card: Option<Card>,
    pub character: Sheet,
    pub passive_stats: PassiveStats,
    pub bennies: u8,
    pub shaken: bool,
    pub interrupted: bool,
    pub fell: bool,
    pub joker: bool,
    pub weapon_lost: bool,
    pub berserker: bool,
    pub riposte_done: bool,
    pub attacked_wild: bool,
    pub distance_id: u16,
}

impl Fighter {
    /// The fighter that `character` is when the fight begins.
    pub open spec fn fresh(character: Sheet, group: Group, counted: bool, id: u16) -> Fighter {
        Fighter {
            group,
            counted,
            drawn_card: None,
            character,
            passive_stats: PassiveStats::spec_of(character),
            bennies: character.bennies.count.value() as u8,
            shaken: false,
            interrupted: false,
            fell: false,
            joker: false,
            weapon_lost: false,
            berserker: character.edges.berserker == Edge3::Improved,
            riposte_done: false,
            attacked_wild: false,
            distance_id: id,
        }
    }

    /// Seats `character` in `group` and registers it with the distance map.
    pub fn new(
        character: Sheet,
        group: Group,
        distance_map: &mut DistanceMap,
        counted: bool,
    ) -> (r: Self)
        requires
            old(distance_map).next_id() < u16::MAX,
        ensures
            r == Self::fresh(character, group, counted, old(distance_map).next_id()),
            final(distance_map).next_id() == old(distance_map).next_id() + 1,
            final(distance_map).pairs() == old(distance_map).pairs(),
            r.passive_stats.life >= 12,
            !r.spec_is_dead(),
    {
        let passive_stats = PassiveStats::of(&character);
        let berserker = character.edges.berserker == Edge3::Improved;
        let bennies = character.bennies.count.get() as u8;
        let distance_id = distance_map.register_fighter(group);
        Fighter {
            group,
            counted,
            drawn_card: None,
            character,
            passive_stats,
            bennies,
            shaken: false,
            interrupted: false,
            fell: false,
            joker: false,
            weapon_lost: false,
            berserker,
            riposte_done: false,
            attacked_wild: false,
            distance_id,
        }
    }

    pub fn group(&self) -> (r: Group)
        ensures
            r == self.group,
    {
        self.group
    }

    /// The initiative card of the round. There is one once the fighter has
    /// begun a round.
    pub fn drawn_card(&self) -> (r: Card)
        requires
            self.drawn_card is Some,
        ensures
            Some(r) == self.drawn_card,
    {
        self.drawn_card.unwrap()
    }

    pub open spec fn spec_weapon_has_reach(&self) -> bool {
        self.character.weapon.reach.value() > 0
    }

    #[verifier::when_used_as_spec(spec_weapon_has_reach)]
    pub fn weapon_has_reach(&self) -> (r: bool)
        ensures
            r == self.spec_weapon_has_reach(),
    {
        self.character.weapon.reach.get() > 0
    }

    /// A fighter is out of the fight at 5 life or less; a berserker holds
    /// out until 0.
    pub open spec fn spec_is_dead(&self) -> bool {
        self.passive_stats.life <= (if self.berserker { 0u8 } else { 5u8 })
    }

    #[verifier::when_used_as_spec(spec_is_dead)]
    pub fn is_dead(&self) -> (r: bool)
        ensures
            r == self.spec_is_dead(),
    {
        let threshold: u8 = if self.berserker {
            0
        } else {
            5
        };
        self.passive_stats.life <= threshold
    }

    /// What wounds take off a roll: 3 at 10 life or less, 1 up to 20,
    /// nothing above; nothing for a berserker or one who ignores wounds.
    pub open spec fn wound_penalty(&self) -> int {
        if self.berserker || self.character.passive_modifiers.no_wound_penalty.0 {
            0
        } else if self.passive_stats.life <= 10 {
            3
        } else if self.passive_stats.life <= 20 {
            1
        } else {
            0
        }
    }

    pub fn apply_wound_penalty(&self, roll: &mut Roll)
        ensures
            *final(roll) == old(roll).minus(self.wound_penalty()),
    {
        if self.berserker || self.character.passive_modifiers.no_wound_penalty.is_set() {
            return ;
        }
        let wound_penalty: i8 = if self.passive_stats.life <= 10 {
            3
        } else if self.passive_stats.life <= 20 {
            1
        } else {
            0
        };
        *roll = *roll - wound_penalty;
    }

    /// Whether the fighter fights with two weapons, or is a martial artist.
    pub open spec fn has_two_weapons(&self) -> bool {
        self.character.edges.kampfkunstler.0 || (self.character.weapon.active
            && self.character.secondary_weapon.active)
    }

    /// What attackers gain on a roll against `opponent` who stands in base
    /// contact with `contacts` fighters: one for each of them beyond the
    /// first, up to 4; nothing against one who fences with two weapons.
    pub open spec fn gangup(opponent: Fighter, contacts: nat) -> int {
        if opponent.character.edges.fechten_m2w.0 && opponent.has_two_weapons() {
            0
        } else if contacts == 0 {
            0
        } else if contacts - 1 > 4 {
            4
        } else {
            contacts - 1
        }
    }

    pub fn apply_gangup(opponent: &Fighter, distance_map: &DistanceMap, roll: &mut Roll)
        ensures
            *final(roll) == old(roll).plus(
                Self::gangup(*opponent, distance_map.contacts(opponent.distance_id)),
            ),
    {
        let opponent_has_two_weapons = opponent.character.edges.kampfkunstler.is_set() || (
        opponent.character.weapon.active && opponent.character.secondary_weapon.active);
        if opponent.character.edges.fechten_m2w.is_set() && opponent_has_two_weapons {
            return ;
        }
        let count_attackers = distance_map.all_base_contacts(opponent);
        let others = if count_attackers == 0 {
            0
        } else {
            count_attackers - 1
        };
        let gangup: u8 = if others > 4 {
            4
        } else {
            others as u8
        };
        *roll = *roll + gangup;
    }

    /// What holding a joker adds to a roll.
    pub open spec fn joker_bonus(&self) -> int {
        if self.joker {
            2
        } else {
            0
        }
    }

    pub fn apply_joker(&self, roll: &mut Roll)
        ensures
            *final(roll) == old(roll).plus(self.joker_bonus()),
    {
        if self.joker {
            *roll = *roll + 2_u8;
        }
    }

    /// Damage in the hands of one who holds a joker: 2 more, and doubled
    /// after that with the mighty-blow edge.
    pub open spec fn with_joker_damage(&self, roll: Roll) -> Roll {
        if !self.joker {
            roll
        } else if !self.character.edges.machtiger_hieb.0 {
            roll.plus(2)
        } else {
            roll.plus(2).times(2)
        }
    }

    pub fn apply_joker_to_damage(&self, roll: &mut Roll)
        ensures
            *final(roll) == self.with_joker_damage(*old(roll)),
    {
        if !self.joker {
            return ;
        }
        *roll = *roll + 2_u8;
        if !self.character.edges.machtiger_hieb.is_set() {
            return ;
        }
        *roll = *roll * 2_u8;
    }

    /// Enrages the fighter, if it has the berserker edge at all.
    pub fn enable_berserker(&mut self)
        ensures
            *final(self) == (Fighter {
                berserker: old(self).berserker || old(self).character.edges.berserker
                    != Edge3::Off,
                ..*old(self)
            }),
    {
        if self.character.edges.berserker != Edge3::Off {
            self.berserker = true;
        }
    }

    /// What rage adds to an attack and to damage.
    pub open spec fn berserker_bonus(&self) -> int {
        if self.berserker {
            2
        } else {
            0
        }
    }

    pub fn apply_berserker_attack(&self, roll: &mut Roll)
        ensures
            *final(roll) == old(roll).plus(self.berserker_bonus()),
    {
        if self.berserker {
            *roll = *roll + 2_u8;
        }
    }

    pub fn apply_berserker_damage(&self, roll: &mut Roll)
        ensures
            *final(roll) == old(roll).plus(self.berserker_bonus()),
    {
        if self.berserker {
            *roll = *roll + 2_u8;
        }
    }

    pub fn apply_kampfreflexe(&self, roll: &mut Roll)
        ensures
            *final(roll) == old(roll).plus(
                if self.character.edges.kampfreflexe.0 {
                    2int
                } else {
                    0int
                },
            ),
    {
        if self.character.edges.kampfreflexe.is_set() {
            *roll = *roll + 2_u8;
        }
    }

    /// How much of the opponent's armor the main weapon goes through: its
    /// piercing, but no more than the armor on the torso.
    pub open spec fn pierced(&self, opponent: Fighter) -> int {
        let piercing = self.character.weapon.piercing.value();
        let armor = opponent.character.armor.torso.value();
        if piercing <= armor {
            piercing
        } else {
            armor
        }
    }

    pub fn apply_piercing(&self, opponent: &Fighter, roll: &mut Roll)
        ensures
            *final(roll) == old(roll).plus(self.pierced(*opponent)),
    {
        let piercing = self.character.weapon.piercing.get();
        let armor = opponent.character.armor.torso.get();
        let pierced = if piercing <= armor {
            piercing
        } else {
            armor
        };
        *roll = *roll + pierced;
    }

    /// What the improved close-quarters edge adds to an attack: 1 and the
    /// reach of the opponent's weapon.
    pub open spec fn tuchfuhlung_attack(&self, opponent: Fighter) -> int {
        if self.character.edges.tuchfuhlung == Edge3::Improved {
            1 + opponent.character.weapon.reach.value()
        } else {
            0
        }
    }

    pub fn apply_tuchfuhlung_to_attack(&self, opponent: &Fighter, roll: &mut Roll)
        ensures
            *final(roll) == old(roll).plus(self.tuchfuhlung_attack(*opponent)),
    {
        if self.character.edges.tuchfuhlung == Edge3::Improved {
            let reach = opponent.character.weapon.reach.get();
            *roll = *roll + (1 + reach);
        }
    }

    /// The parry of one with the close-quarters edge: 1 and the reach of
    /// the opponent's weapon more. A parry stops at `u8::MAX`.
    pub open spec fn with_tuchfuhlung_parry(&self, opponent: Fighter, parry: u8) -> u8 {
        if self.character.edges.tuchfuhlung != Edge3::Off {
            let raised = parry + 1 + opponent.character.weapon.reach.value();
            if raised > 255 {
                255u8
            } else {
                raised as u8
            }
        } else {
            parry
        }
    }

    pub fn apply_tuchfuhlung_to_parry(&self, opponent: &Fighter, parry: &mut u8)
        ensures
            *final(parry) == self.with_tuchfuhlung_parry(*opponent, *old(parry)),
    {
        if self.character.edges.tuchfuhlung != Edge3::Off {
            let reach = opponent.character.weapon.reach.get();
            let raised: i16 = *parry as i16 + 1 + reach as i16;
            *parry = if raised > 255 {
                255
            } else {
                raised as u8
            };
        }
    }

    /// Spends a benny to shake off being shaken, if there is one and a need.
    pub fn unshake_with_bennie(&mut self)
        ensures
            *final(self) == if old(self).shaken && old(self).bennies > 0 {
                Fighter { shaken: false, bennies: (old(self).bennies - 1) as u8, ..*old(self) }
            } else {
                *old(self)
            },
    {
        if !self.shaken || self.bennies == 0 {
            return ;
        }
        self.bennies = self.bennies - 1;
        self.shaken = false;
    }

    /// Spends a benny against an opponent who steps back, where the sheet
    /// says so.
    pub fn unshake_against_step_back(&mut self)
        ensures
            *final(self) == if old(self).character.bennies.use_against_step_back.0 && old(self).shaken && old(self).bennies > 0 {
                Fighter { shaken: false, bennies: (old(self).bennies - 1) as u8, ..*old(self) }
            } else {
                *old(self)
            },
    {
        if !self.character.bennies.use_against_step_back.is_set() {
            return ;
        }
        self.unshake_with_bennie();
    }

    /// Whether the fighter counts as unarmed against `opponent`: it lost
    /// its weapon, or fights bare-handed against one who holds a weapon. A
    /// martial artist never does.
    pub open spec fn spec_unarmed(&self, opponent: Fighter) -> bool {
        if self.character.edges.kampfkunstler.0 {
            false
        } else if self.weapon_lost {
            true
        } else {
            self.character.weapon.spec_unarmed() && !opponent.character.weapon.spec_unarmed()
                && !opponent.weapon_lost
        }
    }

    pub fn unarmed(&self, opponent: &Fighter) -> (r: bool)
        ensures
            r == self.spec_unarmed(*opponent),
    {
        if self.character.edges.kampfkunstler.is_set() {
            return false;
        }
        if self.weapon_lost {
            return true;
        }
        self.character.weapon.unarmed() && !opponent.character.weapon.unarmed()
            && !opponent.weapon_lost
    }

    /// The parry that `attacker` has to beat: 2 less for each of lying on
    /// the ground, raging, having attacked wildly and being unarmed, and
    /// then what the close-quarters edge adds.
    pub open spec fn effective_parry(&self, attacker: Fighter) -> u8 {
        let after_fall = lowered(self.passive_stats.parry, if self.fell { 2int } else { 0int });
        let after_rage = lowered(after_fall, if self.berserker { 2int } else { 0int });
        let after_wild = lowered(after_rage, if self.attacked_wild { 2int } else { 0int });
        let after_weapon = lowered(
            after_wild,
            if self.spec_unarmed(attacker) {
                2int
            } else {
                0int
            },
        );
        self.with_tuchfuhlung_parry(attacker, after_weapon)
    }

    /// What an attack roll comes to against `opponent`, who stands in base
    /// contact with `contacts` fighters, before the parry is taken off.
    pub open spec fn attack_total(&self, opponent: Fighter, contacts: nat, roll: Roll, modifier: i8)
        -> Roll {
        let aimed = roll.plus(modifier as int).plus(
            self.character.passive_modifiers.attack.value(),
        ).minus(self.wound_penalty()).plus(Self::gangup(opponent, contacts)).plus(
            self.joker_bonus(),
        ).plus(self.berserker_bonus());
        let at_head = if self.character.passive_modifiers.attack_head.0 {
            aimed.minus(4)
        } else {
            aimed
        };
        at_head.plus(self.tuchfuhlung_attack(opponent))
    }

    /// How an attack roll fares: it misses below the opponent's parry, and
    /// is a raise from 4 above it.
    pub open spec fn attack_result(&self, opponent: Fighter, contacts: nat, roll: Roll, modifier: i8)
        -> AttackResult {
        let margin = self.attack_total(opponent, contacts, roll, modifier).minus(
            capped(opponent.effective_parry(*self)),
        );
        if margin@ < 0 {
            AttackResult::Miss
        } else if margin@ < 4 {
            AttackResult::Hit
        } else {
            AttackResult::Raise
        }
    }

    /// Holds one attack roll against the opponent's parry.
    pub fn try_to_hit_without_bennie(
        &self,
        opponent: &Fighter,
        distance_map: &DistanceMap,
        roll: Roll,
        modifier: i8,
    ) -> (r: AttackResult)
        ensures
            r == self.attack_result(
                *opponent,
                distance_map.contacts(opponent.distance_id),
                roll,
                modifier,
            ),
    {
        let opponent_fell_modifier: u8 = if opponent.fell {
            2
        } else {
            0
        };
        let opponent_berserker_modifier: u8 = if opponent.berserker {
            2
        } else {
            0
        };
        let opponent_wild_modifier: u8 = if opponent.attacked_wild {
            2
        } else {
            0
        };
        let opponent_weapon_lost_modifier: u8 = if opponent.unarmed(self) {
            2
        } else {
            0
        };
        let mut opponent_parry = opponent.passive_stats.parry;
        opponent_parry = lower(opponent_parry, opponent_fell_modifier);
        opponent_parry = lower(opponent_parry, opponent_berserker_modifier);
        opponent_parry = lower(opponent_parry, opponent_wild_modifier);
        opponent_parry = lower(opponent_parry, opponent_weapon_lost_modifier);
        opponent.apply_tuchfuhlung_to_parry(self, &mut opponent_parry);

        let mut roll = roll;
        roll = roll + modifier;
        roll = roll + self.character.passive_modifiers.attack.get();
        self.apply_wound_penalty(&mut roll);
        Self::apply_gangup(opponent, distance_map, &mut roll);
        self.apply_joker(&mut roll);
        self.apply_berserker_attack(&mut roll);
        if self.character.passive_modifiers.attack_head.is_set() {
            roll = roll - 4_u8;
        }
        self.apply_tuchfuhlung_to_attack(opponent, &mut roll);
        roll = roll - opponent_parry;

        if roll.as_i8() < 0 {
            AttackResult::Miss
        } else if roll.as_i8() < 4 {
            AttackResult::Hit
        } else {
            AttackResult::Raise
        }
    }

    /// What armor takes off damage: the armor on the head where the
    /// attacker aims there, else the armor on the torso.
    pub open spec fn armor_against(&self, opponent: Fighter) -> int {
        if self.character.passive_modifiers.attack_head.0 {
            opponent.character.armor.head.value()
        } else {
            opponent.character.armor.torso.value()
        }
    }

    pub fn apply_opponents_armor(&self, opponent: &Fighter, damage: &mut Roll)
        ensures
            *final(damage) == old(damage).minus(self.armor_against(*opponent)),
    {
        let armor = if self.character.passive_modifiers.attack_head.is_set() {
            opponent.character.armor.head
        } else {
            opponent.character.armor.torso
        };
        *damage = *damage - armor.get();
    }

    pub fn apply_opponent_berserker_rob(&self, opponent: &Fighter, damage: &mut Roll)
        ensures
            *final(damage) == old(damage).minus(opponent.berserker_bonus()),
    {
        if !opponent.berserker {
            return ;
        }
        *damage = *damage - 2i8;
    }

    /// What stays as it is through a round, and what only goes one way: a
    /// fighter keeps its group, sheet, id, card, parry and robustness;
    /// life and bennies never grow; rage and a riposte once made stay.
    pub open spec fn follows(self, earlier: Fighter) -> bool {
        &&& self.group == earlier.group
        &&& self.counted == earlier.counted
        &&& self.character == earlier.character
        &&& self.distance_id == earlier.distance_id
        &&& self.drawn_card == earlier.drawn_card
        &&& self.joker == earlier.joker
        &&& self.passive_stats.parry == earlier.passive_stats.parry
        &&& self.passive_stats.robustness == earlier.passive_stats.robustness
        &&& self.passive_stats.life <= earlier.passive_stats.life
        &&& self.bennies <= earlier.bennies
        &&& earlier.berserker ==> self.berserker
        &&& earlier.riposte_done ==> self.riposte_done
    }

    /// How many cards the fighter draws for initiative.
    pub open spec fn spec_cards_to_draw(&self) -> u8 {
        match self.character.edges.kuhler_kopf {
            Edge3::Off => 1,
            Edge3::Normal => 2,
            Edge3::Improved => 3,
        }
    }

    #[verifier::when_used_as_spec(spec_cards_to_draw)]
    pub fn cards_to_draw(&self) -> (r: u8)
        ensures
            r == self.spec_cards_to_draw(),
    {
        match self.character.edges.kuhler_kopf {
            Edge3::Off => 1,
            Edge3::Normal => 2,
            Edge3::Improved => 3,
        }
    }

    /// The best of the `n` cards on top of `deck`.
    pub open spec fn best_of_top(deck: Seq<Card>, n: nat) -> Card
        decreases n,
    {
        if n <= 1 {
            deck.last()
        } else {
            let best = Self::best_of_top(deck, (n - 1) as nat);
            let next = deck[deck.len() - n];
            if next@ > best@ {
                next
            } else {
                best
            }
        }
    }

    /// Whether the fighter's card is the best of those on top of `deck`:
    /// the deck holds as many cards as the fighter draws, and the fighter
    /// is not quick or the best of them is no lower than a seven.
    pub open spec fn draws_best(self, deck: Seq<Card>) -> bool {
        deck.len() >= self.spec_cards_to_draw() && (!self.character.edges.schnell.0
            || Card::suit_of(
            Self::best_of_top(deck, self.spec_cards_to_draw() as nat)@,
        ).spec_value() >= 7)
    }

    /// The best of `cards`; of several equal ones, the first.
    pub open spec fn best_among(cards: Seq<Card>) -> Card
        decreases cards.len(),
    {
        if cards.len() <= 1 {
            cards.last()
        } else {
            let best = Self::best_among(cards.drop_last());
            if cards.last()@ > best@ {
                cards.last()
            } else {
                best
            }
        }
    }

    /// The last `n` cards that `dealt` records.
    pub open spec fn last_dealt(dealt: Seq<Card>, n: nat) -> Seq<Card> {
        dealt.subrange(dealt.len() - n, dealt.len() as int)
    }

    /// Draws `n` cards and hands back the best. Where the deck holds as
    /// many, they come off its top. The card handed back is the best of
    /// the last `n` that the deck records as dealt; it records fewer only
    /// where it ran out of cards in between with all of them dealt.
    pub fn draw_best(cards: &mut CardDeck, n: u8) -> (best: Card)
        requires
            1 <= n,
        ensures
            old(cards).cards().len() >= n ==> best == Self::best_of_top(
                old(cards).cards(),
                n as nat,
            ) && final(cards).cards() == old(cards).cards().take(old(cards).cards().len() - n),
            final(cards).drawn().len() >= n ==> best == Self::best_among(
                Self::last_dealt(final(cards).drawn(), n as nat),
            ),
            final(cards).drawn().len() > 0,
    {
        let ghost deck = cards.cards();
        let mut card = cards.draw();
        let ghost mut dealt = seq![card];
        proof {
            assert(cards.drawn().last() == card);
            assert(Self::last_dealt(cards.drawn(), 1) =~= dealt);
        }
        let mut drawn: u8 = 1;
        while drawn < n
            invariant
                1 <= drawn <= n,
                deck == old(cards).cards(),
                deck.len() >= n ==> card == Self::best_of_top(deck, drawn as nat) && cards.cards()
                    == deck.take(deck.len() - drawn),
                dealt.len() == drawn,
                card == Self::best_among(dealt),
                cards.drawn().len() > 0,
                cards.drawn().len() >= drawn ==> Self::last_dealt(cards.drawn(), drawn as nat)
                    == dealt,
            decreases n - drawn,
        {
            let ghost record = cards.drawn();
            let next = cards.draw();
            proof {
                let grown = dealt.push(next);
                assert(grown.drop_last() =~= dealt);
                if cards.drawn().len() >= drawn + 1 {
                    assert(cards.drawn() == record.push(next));
                    assert(Self::last_dealt(cards.drawn(), (drawn + 1) as nat) =~= grown);
                }
                dealt = grown;
            }
            proof {
                if deck.len() >= n {
                    assert(deck.take(deck.len() - drawn).last() == deck[deck.len() - drawn - 1]);
                    assert(deck.take(deck.len() - drawn).drop_last() =~= deck.take(
                        deck.len() - drawn - 1,
                    ));
                }
            }
            if next.number() > card.number() {
                card = next;
            }
            drawn = drawn + 1;
        }
        card
    }

    /// Whether `kept` is the card that the fighter keeps of those that
    /// `dealt` records: the best of as many as it draws, or, for a quick
    /// fighter that drew again, the card dealt last. The record holds
    /// fewer cards than the fighter draws only where the deck ran out in
    /// between with all of them dealt.
    pub open spec fn keeps_card(self, dealt: Seq<Card>, kept: Card) -> bool {
        let n = self.spec_cards_to_draw() as nat;
        ||| dealt.len() < n
        ||| kept == Self::best_among(Self::last_dealt(dealt, n))
        ||| self.character.edges.schnell.0 && dealt.len() > 0 && kept == dealt.last()
    }

    /// Draws the initiative card: the best of as many cards as the
    /// cool-head edge grants. A quick fighter then draws again while the
    /// card is below a seven, up to `MAX_REDRAWS` times.
    pub fn draw_card(&mut self, cards: &mut CardDeck)
        ensures
            final(self).drawn_card is Some,
            *final(self) == (Fighter { drawn_card: final(self).drawn_card, ..*old(self) }),
            ({
                let deck = old(cards).cards();
                let n = old(self).spec_cards_to_draw();
                let best = Self::best_of_top(deck, n as nat);
                deck.len() >= n && (!old(self).character.edges.schnell.0 || Card::suit_of(
                    best@,
                ).spec_value() >= 7) ==> final(self).drawn_card == Some(best) && final(cards).cards() == deck.take(deck.len() - n)
            }),
            old(self).keeps_card(final(cards).drawn(), final(self).drawn_card->Some_0),
    {
        let num_cards = self.cards_to_draw();
        let mut card = Self::draw_best(cards, num_cards);
        if self.character.edges.schnell.is_set() {
            let mut redraws: u8 = 0;
            let ghost first = card;
            let ghost left = cards.cards();
            let ghost record = cards.drawn();
            while card.suit().value() < 7 && redraws < MAX_REDRAWS
                invariant
                    redraws <= MAX_REDRAWS,
                    Card::suit_of(first@).spec_value() >= 7 ==> card == first && cards.cards()
                        == left,
                    cards.drawn().len() > 0,
                    redraws == 0 ==> card == first && cards.drawn() == record,
                    redraws > 0 ==> card == cards.drawn().last(),
                decreases MAX_REDRAWS - redraws,
            {
                card = cards.draw();
                redraws = redraws + 1;
                assert(cards.drawn().last() == card);
            }
        }
        self.drawn_card = Some(card);
    }

    /// Begins a round: a new card, and the riposte is free again.
    pub fn new_round(&mut self, cards: &mut CardDeck)
        ensures
            final(self).drawn_card is Some,
            *final(self) == (Fighter {
                drawn_card: final(self).drawn_card,
                joker: final(self).drawn_card->Some_0.spec_is_joker(),
                riposte_done: false,
                ..*old(self)
            }),
            old(self).draws_best(old(cards).cards()) ==> final(self).drawn_card == Some(
                Self::best_of_top(old(cards).cards(), old(self).spec_cards_to_draw() as nat),
            ) && final(cards).cards() == old(cards).cards().take(
                old(cards).cards().len() - old(self).spec_cards_to_draw(),
            ),
            old(self).keeps_card(final(cards).drawn(), final(self).drawn_card->Some_0),
            crate::simulator::rounds::began(*old(self), *old(cards), *final(self), *final(cards)),
    {
        self.draw_card(cards);
        self.joker = self.drawn_card.unwrap().is_joker();
        self.riposte_done = false;
    }

    /// What an agility roll of `rolled` comes to for this fighter.
    pub open spec fn dex_total(&self, rolled: Roll) -> Roll {
        rolled.plus(self.joker_bonus()).minus(self.wound_penalty())
    }

    /// Makes of an agility die what it counts for: a joker helps, wounds
    /// weigh on it.
    pub fn settle_dex(&self, rolled: Roll) -> (r: Roll)
        ensures
            r == self.dex_total(rolled),
    {
        let mut roll = rolled;
        self.apply_joker(&mut roll);
        self.apply_wound_penalty(&mut roll);
        roll
    }

    /// Rolls agility, as for breaking a tie in initiative.
    pub fn dex_roll(&self, roller: &mut Roller) -> (r: Result<Roll, RollError>)
        ensures
            r is Err ==> r == Err::<Roll, RollError>(RollError::CriticalFail),
            r is Ok ==> r->Ok_0@ >= self.dex_total(Roll(2))@,
    {
        match roller.roll_attribute(self.character.attributes.ges) {
            Ok(roll) => Ok(self.settle_dex(roll)),
            Err(e) => Err(e),
        }
    }

    /// What a will roll of `rolled` comes to when shaking off being shaken.
    pub open spec fn unshake_total(&self, rolled: Roll) -> Roll {
        rolled.minus(self.wound_penalty()).plus(self.joker_bonus()).plus(
            if self.character.edges.kampfreflexe.0 {
                2int
            } else {
                0int
            },
        )
    }

    /// What a shaken fighter makes of its will roll: a success ends being
    /// shaken but costs the action, a raise ends it and leaves the action,
    /// anything else changes nothing.
    pub fn settle_unshake(&mut self, rolled: Result<Roll, RollError>) -> (has_action: bool)
        ensures
            match rolled {
                Ok(roll) => match Roll::spec_eval_against(old(self).unshake_total(roll)@, 4) {
                    RollResult::Fail => !has_action && *final(self) == *old(self),
                    RollResult::Success => !has_action && *final(self) == (Fighter {
                        shaken: false,
                        ..*old(self)
                    }),
                    RollResult::Raise => has_action && *final(self) == (Fighter {
                        shaken: false,
                        ..*old(self)
                    }),
                },
                Err(_) => !has_action && *final(self) == *old(self),
            },
    {
        let mut roll = match rolled {
            Ok(roll) => roll,
            Err(_) => { return false; },
        };
        self.apply_wound_penalty(&mut roll);
        self.apply_joker(&mut roll);
        self.apply_kampfreflexe(&mut roll);
        match roll.eval() {
            RollResult::Fail => false,
            RollResult::Success => {
                self.shaken = false;
                false
            },
            RollResult::Raise => {
                self.shaken = false;
                true
            },
        }
    }

    /// Tries to act without spending a benny. An interrupted fighter loses
    /// the action; a shaken one rolls will. Says whether the fighter can
    /// still act this turn.
    pub fn unshake_without_bennie(&mut self, roller: &mut Roller) -> (has_action: bool)
        ensures
            old(self).interrupted ==> !has_action && *final(self) == (Fighter {
                interrupted: false,
                ..*old(self)
            }),
            !old(self).interrupted && !old(self).shaken ==> has_action && *final(self) == *old(self),
            !old(self).interrupted && old(self).shaken ==> *final(self) == *old(self) || (*final(self) == Fighter { shaken: false, ..*old(self) }),
            has_action ==> !final(self).shaken,
    {
        if self.interrupted {
            self.interrupted = false;
            return false;
        }
        if !self.shaken {
            return true;
        }
        let rolled = roller.roll_attribute(self.character.attributes.wil);
        self.settle_unshake(rolled)
    }

    /// The fighter after spending a benny to shake off being shaken, if
    /// there is one and a need.
    pub open spec fn with_benny_spent(self) -> Fighter {
        if self.shaken && self.bennies > 0 {
            Fighter { shaken: false, bennies: (self.bennies - 1) as u8, ..self }
        } else {
            self
        }
    }

    /// Tries to act, with a benny where the sheet allows one for it. Says
    /// whether the fighter can still act this turn. An interruption is
    /// over after it and costs the turn, unless a benny is at hand for
    /// shaking off; one who is neither interrupted nor shaken acts; a
    /// shaken one with a benny to spend on it always comes to act. A
    /// shaken one either shakes it off by its own roll, or is left to the
    /// benny: spent where the sheet allows and one is there.
    #[verifier::rlimit(60)]
    pub fn unshake(&mut self, roller: &mut Roller) -> (has_action: bool)
        ensures
            final(self).follows(*old(self)),
            has_action ==> !final(self).shaken,
            final(self).fell == old(self).fell,
            final(self).weapon_lost == old(self).weapon_lost,
            final(self).attacked_wild == old(self).attacked_wild,
            !final(self).interrupted,
            !old(self).interrupted && !old(self).shaken ==> has_action && *final(self) == *old(self),
            old(self).interrupted ==> *final(self) == (if old(self).character.bennies.use_for_unshake.0 {
                (Fighter { interrupted: false, ..*old(self) }).with_benny_spent()
            } else {
                Fighter { interrupted: false, ..*old(self) }
            }) && has_action == (old(self).character.bennies.use_for_unshake.0 && !final(self).shaken),
            !old(self).interrupted && old(self).shaken && old(self).character.bennies.use_for_unshake.0 && old(self).bennies > 0 ==> has_action,
            !old(self).interrupted && old(self).shaken ==> {
                ||| *final(self) == (Fighter { shaken: false, ..*old(self) }) && (has_action
                    || !old(self).character.bennies.use_for_unshake.0)
                ||| *final(self) == (if old(self).character.bennies.use_for_unshake.0 {
                    old(self).with_benny_spent()
                } else {
                    *old(self)
                }) && has_action == !final(self).shaken
            },
    {
        let has_action = self.unshake_without_bennie(roller);
        if has_action {
            return true;
        }
        if self.character.bennies.use_for_unshake.is_set() {
            self.unshake_with_bennie();
            return !self.shaken;
        }
        false
    }
}

/// How an attack fared.
#[derive(Debug, Clone, Copy, PartialEq, Eq, Structural)]
pub enum AttackResult {
    Miss,
    Hit,
    Raise,
}

fn lower(value: u8, amount: u8) -> (r: u8)
    ensures
        r == lowered(value, amount as int),
{
    if amount >= value {
        0
    } else {
        value - amount
    }
}

/// What a fight shares among its fighters: who stands with whom, the
/// counters, and the dice.
pub struct Battlefield {
    pub distance_map: DistanceMap,
    pub stats: FightStats,
    pub roller: Roller,
}

/// How many redraws a quick fighter gets at most. A deck holds 20 cards
/// below the sevens.
pub const MAX_REDRAWS: u8 = 54;

/// An attack roll failed so badly that a mishap follows.
#[derive(Debug, Clone, Copy, PartialEq, Eq, Structural)]
pub struct CriticalMiss;

/// The first opponent is out of the fight.
#[derive(Debug, Clone, Copy, PartialEq, Eq, Structural)]
pub struct NoOpponentLeft;

/// What a mishap can be.
#[derive(Debug, Clone, Copy, PartialEq, Eq, Structural)]
pub enum CriticalFailResult {
    WeaponDestroyed,
    Fell,
    Tripped,
    WeaponLost,
    Injured,
    HeavilyInjured,
}

impl CriticalFailResult {
    /// The mishap table of close combat, by the sum of two dice.
    pub open spec fn short_range_table(sum: u8) -> CriticalFailResult {
        if sum <= 2 {
            CriticalFailResult::WeaponDestroyed
        } else if sum <= 5 {
            CriticalFailResult::Fell
        } else if sum <= 8 {
            CriticalFailResult::Tripped
        } else if sum <= 10 {
            CriticalFailResult::WeaponLost
        } else if sum == 11 {
            CriticalFailResult::Injured
        } else {
            CriticalFailResult::HeavilyInjured
        }
    }

    /// The mishap table of ranged combat, by the sum of two dice.
    pub open spec fn long_range_table(sum: u8) -> CriticalFailResult {
        if sum <= 3 {
            CriticalFailResult::WeaponDestroyed
        } else if sum <= 10 {
            CriticalFailResult::WeaponLost
        } else {
            CriticalFailResult::Injured
        }
    }

    /// Looks `sum` up in the table of close combat.
    pub fn of_short_range(sum: u8) -> (r: Self)
        requires
            2 <= sum <= 12,
        ensures
            r == Self::short_range_table(sum),
    {
        if sum <= 2 {
            CriticalFailResult::WeaponDestroyed
        } else if sum <= 5 {
            CriticalFailResult::Fell
        } else if sum <= 8 {
            CriticalFailResult::Tripped
        } else if sum <= 10 {
            CriticalFailResult::WeaponLost
        } else if sum == 11 {
            CriticalFailResult::Injured
        } else {
            CriticalFailResult::HeavilyInjured
        }
    }

    /// Looks `sum` up in the table of ranged combat.
    pub fn of_long_range(sum: u8) -> (r: Self)
        requires
            2 <= sum <= 12,
        ensures
            r == Self::long_range_table(sum),
    {
        if sum <= 3 {
            CriticalFailResult::WeaponDestroyed
        } else if sum <= 10 {
            CriticalFailResult::WeaponLost
        } else {
            CriticalFailResult::Injured
        }
    }

    /// Rolls a mishap of close combat.
    pub fn short_range(roller: &mut Roller) -> (r: Self)
        ensures
            exists|sum: u8| 2 <= sum <= 12 && r == #[trigger] Self::short_range_table(sum),
    {
        let sum = roller.roll_critical_fail_result().as_u8();
        Self::of_short_range(sum)
    }

    /// Rolls a mishap of ranged combat.
    pub fn long_range(roller: &mut Roller) -> (r: Self)
        ensures
            exists|sum: u8| 2 <= sum <= 12 && r == #[trigger] Self::long_range_table(sum),
    {
        let sum = roller.roll_critical_fail_result().as_u8();
        Self::of_long_range(sum)
    }
}

/// Whether `attack` is a hit or a raise.
pub open spec fn is_hit(attack: AttackResult) -> bool {
    attack != AttackResult::Miss
}

/// How many of `attacks` hit.
pub open spec fn hits(attacks: Seq<AttackResult>) -> nat {
    attacks.filter(|a: AttackResult| is_hit(a)).len()
}

/// Counts the attacks that hit, up to `u8::MAX`.
pub fn count_hits(attacks: &Vec<AttackResult>) -> (r: u8)
    ensures
        r as nat == if hits(attacks@) > 255 { 255 } else { hits(attacks@) },
{
    let ghost pred = |a: AttackResult| is_hit(a);
    let mut count: u8 = 0;
    let mut i: usize = 0;
    proof {
        reveal(Seq::filter);
        assert(attacks@.take(0) =~= Seq::<AttackResult>::empty());
    }
    while i < attacks.len()
        invariant
            i <= attacks.len(),
            pred == |a: AttackResult| is_hit(a),
            count as nat == if attacks@.take(i as int).filter(pred).len() > 255 {
                255
            } else {
                attacks@.take(i as int).filter(pred).len()
            },
        decreases attacks.len() - i,
    {
        proof {
            reveal(Seq::filter);
            let next = attacks@.take(i as int + 1);
            assert(next.drop_last() =~= attacks@.take(i as int));
            assert(next.last() == attacks[i as int]);
            assert(next.filter(pred) == if pred(attacks[i as int]) {
                attacks@.take(i as int).filter(pred).push(attacks[i as int])
            } else {
                attacks@.take(i as int).filter(pred)
            });
        }
        if attacks[i] != AttackResult::Miss && count < 255 {
            count = count + 1;
        }
        i = i + 1;
    }
    proof {
        assert(attacks@.take(attacks.len() as int) =~= attacks@);
    }
    count
}

/// `n` attacks that all missed.
pub fn all_miss(n: usize) -> (r: Vec<AttackResult>)
    ensures
        r.len() == n,
        forall|k: int| 0 <= k < n ==> #[trigger] r[k] == AttackResult::Miss,
{
    let mut attacks: Vec<AttackResult> = Vec::new();
    let mut i: usize = 0;
    while i < n
        invariant
            i <= n,
            attacks.len() == i,
            forall|k: int| 0 <= k < i ==> #[trigger] attacks[k] == AttackResult::Miss,
        decreases n - i,
    {
        attacks.push(AttackResult::Miss);
        i = i + 1;
    }
    attacks
}

impl Battlefield {
    /// Whether the field differs from `earlier` at most in its dice and in
    /// counters of hits and damage that went up.
    pub open spec fn keeps_places(self, earlier: Battlefield) -> bool {
        &&& self.stats.extends(earlier.stats)
        &&& self.stats.rounds == earlier.stats.rounds
        &&& self.distance_map.pairs() == earlier.distance_map.pairs()
        &&& self.distance_map.next_id() == earlier.distance_map.next_id()
    }

    /// Whether the field differs from `earlier` at most in its dice, in
    /// counters of hits and damage that went up, and in who stands with
    /// whom.
    pub open spec fn keeps_ids(self, earlier: Battlefield) -> bool {
        &&& self.stats.extends(earlier.stats)
        &&& self.stats.rounds == earlier.stats.rounds
        &&& self.distance_map.next_id() == earlier.distance_map.next_id()
    }
}

/// Whether each fighter of `later` is what the fighter in the same place of
/// `earlier` has become.
pub open spec fn all_follow(later: Seq<Fighter>, earlier: Seq<Fighter>) -> bool {
    &&& later.len() == earlier.len()
    &&& forall|k: int| 0 <= k < later.len() ==> (#[trigger] later[k]).follows(earlier[k])
}

/// The results of a sweep that reached nobody.
pub fn no_results(n: usize) -> (r: Vec<Option<AttackResult>>)
    ensures
        r.len() == n,
        forall|k: int| 0 <= k < n ==> #[trigger] r[k] is None,
{
    let mut results: Vec<Option<AttackResult>> = Vec::new();
    let mut i: usize = 0;
    while i < n
        invariant
            i <= n,
            results.len() == i,
            forall|k: int| 0 <= k < i ==> #[trigger] results[k] is None,
        decreases n - i,
    {
        results.push(None);
        i = i + 1;
    }
    results
}

} // verus!
