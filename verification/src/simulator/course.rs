//! The course of a turn: what each of its steps leaves, and how the steps
//! follow one another.

use vstd::prelude::*;
use crate::simulator::distance::DistanceMap;
use crate::simulator::distance::Pair;
use crate::simulator::fighter::all_follow;
use crate::simulator::fighter::Battlefield;
use crate::simulator::fighter::Fighter;

verus! {

/// A fighter, its opponents and the field at one moment of a turn.
pub type Scene = (Fighter, Seq<Fighter>, Battlefield);

impl Fighter {
    /// Whether nothing but the dice differs between two moments.
    pub open spec fn rests(before: Scene, after: Scene) -> bool {
        &&& after.0 == before.0
        &&& after.1 == before.1
        &&& after.2.keeps_places(before.2)
        &&& after.2.stats == before.2.stats
    }

    /// The fighter after a benny went against being shaken, where the
    /// sheet allows that.
    pub open spec fn with_benny_if(self, allowed: bool) -> Fighter {
        if allowed {
            self.with_benny_spent()
        } else {
            self
        }
    }

    /// What closing in leaves. It fails, with nothing changed, exactly
    /// when the first opponent is out of the fight. One who has reach or
    /// stands with the opponent already stays as it is. Else the two come
    /// into base contact, and no other pair changes; an opponent that
    /// strikes first then attacks out of turn, as `attack_outcome` says,
    /// and one that does not leaves all else as it was.
    #[verifier::opaque]
    pub open spec fn stepped_forward(before: Scene, failed: bool, after: Scene) -> bool {
        let target = before.1[0];
        let moved = !failed && !before.0.spec_weapon_has_reach() && !before.2.distance_map.in_contact(
            before.0,
            target,
        );
        &&& after.0.follows(before.0)
        &&& all_follow(after.1, before.1)
        &&& after.2.keeps_ids(before.2)
        &&& failed == target.spec_is_dead()
        &&& failed ==> Self::rests(before, after)
        &&& !failed && !moved ==> Self::rests(before, after)
        &&& after.1 == before.1.update(0, after.1[0])
        &&& moved ==> after.2.distance_map.in_contact(before.0, target)
        &&& forall|pair: Pair|
            pair != DistanceMap::key(before.0.group, before.0.distance_id, target.distance_id) ==> (
            #[trigger] after.2.distance_map.pairs().contains(pair))
                == before.2.distance_map.pairs().contains(pair)
        &&& moved && !target.strikes_first(before.0, true) ==> after.0 == before.0 && after.1
            == before.1 && after.2.stats == before.2.stats
        &&& moved && target.strikes_first(before.0, true) && target.character.weapon.active
            ==> Self::attack_outcome(
            target.roused().marked_wild(),
            before.0,
            before.2.stats,
            after.2.distance_map.contacts(before.0.distance_id),
            target.special_modifier(),
            target.special_modifier(),
            1,
            after.1[0],
            after.0,
            after.2.stats,
        )
    }

    /// What the attack with the main weapon leaves. It fails, with nothing
    /// changed, exactly when there is no sweep and the first opponent is
    /// out of the fight. Else it leaves what `sweep_outcome` says, or what
    /// `attack_outcome` says of the first opponent, the others untouched.
    #[verifier::opaque]
    pub open spec fn main_attacked(before: Scene, failed: bool, after: Scene) -> bool {
        let sweeps = before.0.sweeps(before.1, before.2.distance_map);
        &&& after.0.follows(before.0)
        &&& all_follow(after.1, before.1)
        &&& after.2.keeps_places(before.2)
        &&& failed == (!sweeps && before.1[0].spec_is_dead())
        &&& failed ==> Self::rests(before, after)
        &&& !failed ==> after.0.attacked_wild == (before.0.attacked_wild
            || before.0.character.passive_modifiers.attack_wild.0)
        &&& sweeps ==> Self::sweep_outcome(
            before.0.set_wild(),
            before.1,
            before.2.distance_map,
            before.2.stats,
            before.0.sweep_attack(),
            (after.0, after.1, after.2.stats),
        )
        &&& !failed && !sweeps ==> after.1 == before.1.update(0, after.1[0])
            && Self::attack_outcome(
            before.0.set_wild(),
            before.1[0],
            before.2.stats,
            before.2.distance_map.contacts(before.1[0].distance_id),
            before.0.primary_attack().1,
            before.0.primary_attack().2,
            before.0.primary_attack().0 as nat,
            after.0,
            after.1[0],
            after.2.stats,
        )
    }

    /// What the attack with the second weapon leaves. It fails, with
    /// nothing changed, exactly when the first opponent is out of the
    /// fight. Else it leaves what `attack_outcome` says of the first
    /// opponent, the others untouched.
    #[verifier::opaque]
    pub open spec fn second_attacked(before: Scene, failed: bool, after: Scene) -> bool {
        &&& after.0.follows(before.0)
        &&& all_follow(after.1, before.1)
        &&& after.2.keeps_places(before.2)
        &&& failed == before.1[0].spec_is_dead()
        &&& failed ==> Self::rests(before, after)
        &&& !failed ==> after.0.attacked_wild == (before.0.attacked_wild
            || before.0.character.passive_modifiers.attack_wild.0)
        &&& after.1 == before.1.update(0, after.1[0])
        &&& !failed ==> Self::attack_outcome(
            before.0.set_wild(),
            before.1[0],
            before.2.stats,
            before.2.distance_map.contacts(before.1[0].distance_id),
            before.0.secondary_attack().0,
            before.0.secondary_attack().1,
            1,
            after.0,
            after.1[0],
            after.2.stats,
        )
    }

    /// What stepping back leaves: the fighter and the counters as they
    /// were; the opponents after their chance to follow; and base contact
    /// broken with every opponent still in the fight, where the fighter
    /// retreats, and with no other.
    #[verifier::opaque]
    pub open spec fn stepped_back(before: Scene, after: Scene) -> bool {
        &&& after.0 == before.0
        &&& after.2.keeps_ids(before.2)
        &&& after.2.stats == before.2.stats
        &&& after.1 == (if before.0.character.edges.erstschlag.0 && !before.0.spec_weapon_has_reach() {
            Self::asked(before.1, before.1.len()).0
        } else {
            before.1
        })
        &&& forall|pair: Pair| #[trigger]
            after.2.distance_map.pairs().contains(pair) == (before.2.distance_map.pairs().contains(
                pair,
            ) && !(before.0.retreats(before.1) && before.0.faces(after.1, after.1.len(), pair)))
    }

    /// What is left after the attack with the main weapon, which `stopped`
    /// if it failed: then the attacks are over. Else a benny goes against
    /// being shaken, where the sheet allows; and one who is not shaken and
    /// uses a second weapon attacks with it.
    pub open spec fn after_main(mid: Scene, stopped: bool, failed: bool, after: Scene) -> bool {
        if stopped {
            failed && after == mid
        } else {
            let roused = Self::roused_in_turn(mid);
            if roused.0.shaken || !roused.0.character.secondary_weapon.active {
                !failed && after == roused
            } else {
                Self::second_attacked(roused, failed, after)
            }
        }
    }

    /// What the attacks of a turn leave: the attack with the main weapon,
    /// if that is in use, and then what `after_main` says. They fail when
    /// one of the attacks finds the first opponent out of the fight.
    #[verifier::opaque]
    pub open spec fn full_attacked(before: Scene, failed: bool, after: Scene) -> bool {
        if before.0.character.weapon.active {
            exists|mid: Scene, stopped: bool| #[trigger]
                Self::main_attacked(before, stopped, mid) && Self::after_main(
                    mid,
                    stopped,
                    failed,
                    after,
                )
        } else {
            Self::after_main(before, false, failed, after)
        }
    }

    /// The fighter as it goes on after the main weapon's attack: a benny
    /// went against being shaken, where the sheet allows.
    pub open spec fn roused_in_turn(mid: Scene) -> Scene {
        (mid.0.with_benny_if(mid.0.character.bennies.use_for_unshake.0), mid.1, mid.2)
    }

    /// The attacks of one who uses the main weapon are that weapon's
    /// attack and what comes after it.
    pub proof fn lemma_attacks_with_main(
        before: Scene,
        mid: Scene,
        stopped: bool,
        failed: bool,
        after: Scene,
    )
        requires
            before.0.character.weapon.active,
            Self::main_attacked(before, stopped, mid),
            Self::after_main(mid, stopped, failed, after),
        ensures
            Self::full_attacked(before, failed, after),
    {
        reveal(Fighter::full_attacked);
    }

    /// The attacks of one who does not use the main weapon are what comes
    /// after it.
    pub proof fn lemma_attacks_without_main(before: Scene, failed: bool, after: Scene)
        requires
            !before.0.character.weapon.active,
            Self::after_main(before, false, failed, after),
        ensures
            Self::full_attacked(before, failed, after),
    {
        reveal(Fighter::full_attacked);
    }

    /// What follows of the attacks of a turn for what stays, for the mark
    /// of a wild attack, and for a fighter without a weapon in use.
    pub proof fn lemma_full_attacked(before: Scene, failed: bool, after: Scene)
        requires
            Self::full_attacked(before, failed, after),
            before.1.len() > 0,
        ensures
            after.0.follows(before.0),
            all_follow(after.1, before.1),
            after.2.keeps_places(before.2),
            failed ==> after.1[0].spec_is_dead(),
            before.0.character.weapon.active && !before.0.sweeps(before.1, before.2.distance_map)
                && before.1[0].spec_is_dead() ==> failed && Self::rests(before, after),
            after.0.attacked_wild ==> before.0.attacked_wild
                || before.0.character.passive_modifiers.attack_wild.0,
            before.0.attacked_wild ==> after.0.attacked_wild,
            before.0.character.weapon.active && before.0.character.passive_modifiers.attack_wild.0
                && (before.0.sweeps(before.1, before.2.distance_map)
                || !before.1[0].spec_is_dead()) ==> after.0.attacked_wild,
            !before.0.character.weapon.active && !before.0.character.secondary_weapon.active
                ==> !failed && after.0 == before.0.with_benny_if(
                before.0.character.bennies.use_for_unshake.0,
            ) && after.1 == before.1 && after.2 == before.2,
    {
        reveal(Fighter::full_attacked);
        reveal(Fighter::main_attacked);
        reveal(Fighter::second_attacked);
        if before.0.character.weapon.active {
            let (mid, stopped) = choose|mid: Scene, stopped: bool| #[trigger]
                Self::main_attacked(before, stopped, mid) && Self::after_main(
                    mid,
                    stopped,
                    failed,
                    after,
                );
            Self::lemma_after_main(mid, stopped, failed, after);
            assert forall|k: int| 0 <= k < after.1.len() implies (#[trigger] after.1[k]).follows(
                before.1[k],
            ) by {
                assert(mid.1[k].follows(before.1[k]));
            }
        } else {
            Self::lemma_after_main(before, false, failed, after);
        }
    }

    /// What follows of the second half of the attacks for what stays and
    /// for the mark of a wild attack.
    pub proof fn lemma_after_main(mid: Scene, stopped: bool, failed: bool, after: Scene)
        requires
            Self::after_main(mid, stopped, failed, after),
            mid.1.len() > 0,
            stopped ==> mid.1[0].spec_is_dead(),
        ensures
            after.0.follows(mid.0),
            all_follow(after.1, mid.1),
            after.2.keeps_places(mid.2),
            failed ==> after.1[0].spec_is_dead(),
            stopped ==> failed && after == mid,
            after.0.attacked_wild ==> mid.0.attacked_wild
                || mid.0.character.passive_modifiers.attack_wild.0,
            mid.0.attacked_wild ==> after.0.attacked_wild,
            !stopped && !mid.0.character.secondary_weapon.active ==> !failed && after.0
                == mid.0.with_benny_if(mid.0.character.bennies.use_for_unshake.0) && after.1
                == mid.1 && after.2 == mid.2,
    {
        reveal(Fighter::second_attacked);
    }

    /// What is left after the attacks, which `failed` or not: a fighter
    /// whose attacks failed does nothing more, another steps back.
    pub open spec fn after_attacks(fought: Scene, failed: bool, after: Scene) -> bool {
        if failed {
            after == fought
        } else {
            Self::stepped_back(fought, after)
        }
    }

    /// The fighter as it goes on after closing in: a benny went against
    /// being shaken, where the sheet allows it against a step back.
    pub open spec fn roused_to_attack(near: Scene) -> Scene {
        (near.0.with_benny_if(near.0.character.bennies.use_against_step_back.0), near.1, near.2)
    }

    /// Closing in and what comes after it make what dealing with the
    /// opponents leaves.
    pub proof fn lemma_engaged(before: Scene, near: Scene, stopped: bool, after: Scene)
        requires
            Self::stepped_forward(before, stopped, near),
            Self::after_step(near, stopped, after),
        ensures
            Self::engaged(before, after),
    {
        reveal(Fighter::engaged);
    }

    /// The attacks and what comes after them make what is left after
    /// closing in, for one who is not shaken then.
    pub proof fn lemma_after_step(near: Scene, fought: Scene, failed: bool, after: Scene)
        requires
            !Self::roused_to_attack(near).0.shaken,
            Self::full_attacked(Self::roused_to_attack(near), failed, fought),
            Self::after_attacks(fought, failed, after),
        ensures
            Self::after_step(near, false, after),
    {
    }

    /// What is left after closing in, which `stopped` if it failed: then
    /// nothing more happens. Else a benny goes against being shaken, where
    /// the sheet allows it against a step back; one who is still shaken
    /// does nothing more; another attacks and then steps back.
    pub open spec fn after_step(near: Scene, stopped: bool, after: Scene) -> bool {
        if stopped {
            after == near
        } else {
            let ready = Self::roused_to_attack(near);
            if ready.0.shaken {
                after == ready
            } else {
                exists|fought: Scene, failed: bool| #[trigger]
                    Self::full_attacked(ready, failed, fought) && Self::after_attacks(
                        fought,
                        failed,
                        after,
                    )
            }
        }
    }

    /// What dealing with the opponents leaves: the step forward, and then
    /// what `after_step` says.
    #[verifier::opaque]
    pub open spec fn engaged(before: Scene, after: Scene) -> bool {
        exists|near: Scene, stopped: bool| #[trigger]
            Self::stepped_forward(before, stopped, near) && Self::after_step(near, stopped, after)
    }

    /// What a turn leaves of the fighter `before`. All keep what a fight
    /// cannot change. An interrupted fighter is so no more and spends a
    /// benny against being shaken, where the sheet allows: it acts if that
    /// is allowed and it is not shaken then, and does nothing else if not.
    /// A shaken one sits the turn out, or acts as one who shook it off, by
    /// its roll or by a benny. Any other acts.
    #[verifier::opaque]
    pub open spec fn turned(
        before: Fighter,
        opponents: Seq<Fighter>,
        field: Battlefield,
        after: Scene,
    ) -> bool {
        let start = before.at_turn();
        let allowed = before.character.bennies.use_for_unshake.0;
        &&& after.0.follows(before)
        &&& all_follow(after.1, opponents)
        &&& after.2.keeps_ids(field)
        &&& if before.interrupted {
            let roused = (Fighter { interrupted: false, ..start }).with_benny_if(allowed);
            if allowed && !roused.shaken {
                Self::acted(roused, opponents, field, after)
            } else {
                after.0 == roused && after.1 == opponents && after.2.keeps_places(field)
                    && after.2.stats == field.stats
            }
        } else if before.shaken {
            ||| Self::sat_out(start, opponents, field, after)
            ||| Self::acted(Fighter { shaken: false, ..start }, opponents, field, after)
            ||| allowed && before.bennies > 0 && Self::acted(
                start.with_benny_spent(),
                opponents,
                field,
                after,
            )
        } else {
            Self::acted(start, opponents, field, after)
        }
    }

    /// What the turn of a fighter leaves that came to act as `start` and
    /// holds its weapon: what `engaged` says, with the dice as they were
    /// left by the roll against being shaken.
    pub open spec fn turn_outcome(
        start: Fighter,
        opponents: Seq<Fighter>,
        field: Battlefield,
        after: Scene,
    ) -> bool {
        exists|dice: Battlefield| #[trigger]
            Self::engaged((start, opponents, dice), after) && dice.distance_map
                == field.distance_map && dice.stats == field.stats
    }
}

} // verus!
