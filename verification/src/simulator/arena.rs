//! One fight from the first round to its end, and many fights in a row.

use vstd::prelude::*;
use vstd::seq_lib::to_multiset_insert;
use crate::character::Sheet;
use crate::simulator::cards::CardDeck;
use crate::simulator::distance::DistanceMap;
use crate::simulator::distance::Pair;
use crate::simulator::fight_report::FightOutcome;
use crate::simulator::fight_report::FightReport;
use crate::simulator::fight_report::FightStats;
use crate::simulator::fight_report::ReportBuilder;
use crate::simulator::fight_report::Tally;
use crate::simulator::fighter::all_follow;
use crate::simulator::fighter::Battlefield;
use crate::simulator::fighter::Fighter;
use crate::simulator::fighter::Group;
use crate::simulator::roller::Roll;
use crate::simulator::roller::RollError;
use crate::simulator::roller::Roller;
use crate::simulator::rounds::dealt_to;
use crate::simulator::rounds::in_order;
use crate::simulator::rounds::lemma_dealt_more;
use crate::simulator::rounds::lemma_dealt_none;
use crate::simulator::rounds::lemma_dealt_same;
use crate::simulator::GroupData;

verus! {

/// A side has nobody left to fight.
#[derive(Debug, Clone, Copy, PartialEq, Eq, Structural)]
pub struct FightIsOver;

/// A fighter's place in the order of a round: the number of its card, and
/// its id.
pub type Seat = (u8, u16);

/// How often two jokers roll off against each other at most.
pub const MAX_ROLL_OFFS: u8 = 100;

/// What a roll-off between the holders of two jokers decides.
#[derive(Debug, Clone, Copy, PartialEq, Eq, Structural)]
pub enum RollOff {
    /// The first keeps the first place.
    Keep,
    /// The second takes the first place.
    Swap,
    /// A tie: they roll again.
    Again,
}

/// The seat that a fighter takes with the card it drew.
pub open spec fn seat_of(fighter: Fighter) -> Seat {
    (fighter.drawn_card->Some_0@ as u8, fighter.distance_id)
}

/// The seats of all fighters, the left group first, each group in its
/// order.
pub open spec fn all_seats(left: Seq<Fighter>, right: Seq<Fighter>) -> Seq<Seat> {
    left.map_values(|f: Fighter| seat_of(f)) + right.map_values(|f: Fighter| seat_of(f))
}

/// The ids of the fighters on the seats, in the order of the seats.
pub open spec fn ids(seats: Seq<Seat>) -> Seq<u16> {
    seats.map_values(|seat: Seat| seat.1)
}

/// Whether the two best seats both hold a joker.
pub open spec fn jokers_on_top(seats: Seq<Seat>) -> bool {
    seats.len() >= 2 && seats[0].0 == 52 && seats[1].0 == 52
}

/// The seats with the first two in each other's place.
pub open spec fn swapped_top(seats: Seq<Seat>) -> Seq<Seat> {
    seats.update(0, seats[1]).update(1, seats[0])
}

/// Whether the seats stand in the order of their cards, best card first.
pub open spec fn best_first(seats: Seq<Seat>) -> bool {
    forall|i: int, j: int| 0 <= i < j < seats.len() ==> seats[i].0 >= seats[j].0
}

/// What an agility roll counts for in a roll-off; a critical failure
/// counts for less than any roll.
pub open spec fn roll_off_value(roll: Result<Roll, RollError>) -> int {
    match roll {
        Ok(roll) => roll@,
        Err(_) => -129,
    }
}

/// Decides a roll-off: the higher roll goes first.
pub fn roll_off(first: Result<Roll, RollError>, second: Result<Roll, RollError>) -> (r: RollOff)
    ensures
        r == if roll_off_value(first) < roll_off_value(second) {
            RollOff::Swap
        } else if roll_off_value(first) > roll_off_value(second) {
            RollOff::Keep
        } else {
            RollOff::Again
        },
{
    let a: i16 = match first {
        Ok(roll) => roll.as_i8() as i16,
        Err(_) => -129,
    };
    let b: i16 = match second {
        Ok(roll) => roll.as_i8() as i16,
        Err(_) => -129,
    };
    if a < b {
        RollOff::Swap
    } else if a > b {
        RollOff::Keep
    } else {
        RollOff::Again
    }
}

/// Puts the seats in the order of their cards, best card first. Seats with
/// equal cards keep their order.
pub fn sort_seats(seats: &Vec<Seat>) -> (r: Vec<Seat>)
    ensures
        best_first(r@),
        r@.to_multiset() == seats@.to_multiset(),
{
    let mut sorted: Vec<Seat> = Vec::new();
    let mut i: usize = 0;
    proof {
        assert(seats@.take(0) =~= Seq::<Seat>::empty());
    }
    while i < seats.len()
        invariant
            i <= seats.len(),
            best_first(sorted@),
            sorted@.to_multiset() == seats@.take(i as int).to_multiset(),
        decreases seats.len() - i,
    {
        let seat = seats[i];
        let mut at: usize = 0;
        while at < sorted.len() && sorted[at].0 >= seat.0
            invariant
                at <= sorted.len(),
                forall|k: int| 0 <= k < at ==> sorted[k].0 >= seat.0,
            decreases sorted.len() - at,
        {
            at = at + 1;
        }
        let ghost before = sorted@;
        sorted.insert(at, seat);
        proof {
            to_multiset_insert(before, at as int, seat);
            assert(seats@.take(i as int + 1) =~= seats@.take(i as int).push(seat));
            vstd::seq_lib::to_multiset_build(seats@.take(i as int), seat);
            assert forall|a: int, b: int| 0 <= a < b < sorted@.len() implies sorted@[a].0
                >= sorted@[b].0 by {
                let x = if a < at { a } else { a - 1 };
                let y = if b < at { b } else { b - 1 };
                if a != at && b != at {
                    assert(sorted@[a] == before[x]);
                    assert(sorted@[b] == before[y]);
                } else if a == at {
                    assert(sorted@[b] == before[y]);
                } else {
                    assert(sorted@[a] == before[x]);
                }
            }
        }
        i = i + 1;
    }
    proof {
        assert(seats@.take(seats.len() as int) =~= seats@);
    }
    sorted
}

/// The fighters of `group` that are still in the fight, in their order.
pub open spec fn living(group: Seq<Fighter>) -> Seq<Fighter> {
    group.filter(|f: Fighter| !f.spec_is_dead())
}

/// Whether every fighter of the group is still in the fight.
pub open spec fn all_alive(group: Seq<Fighter>) -> bool {
    forall|k: int| 0 <= k < group.len() ==> !(#[trigger] group[k]).spec_is_dead()
}

/// Whether some fighter of the two groups has the id `id`.
pub open spec fn seated(left: Seq<Fighter>, right: Seq<Fighter>, id: u16) -> bool {
    ||| exists|k: int| 0 <= k < left.len() && (#[trigger] left[k]).distance_id == id
    ||| exists|k: int| 0 <= k < right.len() && (#[trigger] right[k]).distance_id == id
}

/// A group of fighters that are all in the fight is its own living part.
pub proof fn lemma_living_all(group: Seq<Fighter>)
    requires
        all_alive(group),
    ensures
        living(group) == group,
    decreases group.len(),
{
    reveal(Seq::filter);
    if group.len() > 0 {
        lemma_living_all(group.drop_last());
        assert(group.drop_last().push(group.last()) =~= group);
    }
}

/// Takes the fighters that are out of the fight out of `group`.
pub fn retain_living(group: &mut Vec<Fighter>)
    ensures
        final(group)@ == living(old(group)@),
        final(group).len() <= old(group).len(),
        all_alive(final(group)@),
        all_seated(old(group)@) ==> all_seated(final(group)@),
{
    let ghost pred = |f: Fighter| !f.spec_is_dead();
    let mut kept: Vec<Fighter> = Vec::new();
    let mut i: usize = 0;
    proof {
        reveal(Seq::filter);
        assert(group@.take(0) =~= Seq::<Fighter>::empty());
    }
    while i < group.len()
        invariant
            i <= group.len(),
            *group == *old(group),
            pred == |f: Fighter| !f.spec_is_dead(),
            kept@ == group@.take(i as int).filter(pred),
            kept.len() <= i,
            forall|k: int| 0 <= k < kept.len() ==> !(#[trigger] kept[k]).spec_is_dead(),
            all_seated(group@) ==> all_seated(kept@),
        decreases group.len() - i,
    {
        let fighter = group[i];
        proof {
            reveal(Seq::filter);
            let next = group@.take(i as int + 1);
            assert(next.drop_last() =~= group@.take(i as int));
            assert(next.last() == fighter);
            assert(next.filter(pred) == if pred(fighter) {
                group@.take(i as int).filter(pred).push(fighter)
            } else {
                group@.take(i as int).filter(pred)
            });
        }
        if !fighter.is_dead() {
            kept.push(fighter);
        }
        i = i + 1;
    }
    proof {
        assert(group@.take(group.len() as int) =~= group@);
    }
    *group = kept;
}

/// Where the fighter with id `id` stands in `group`.
pub fn position_of(group: &Vec<Fighter>, id: u16) -> (r: Option<usize>)
    ensures
        match r {
            Some(at) => at < group.len() && group[at as int].distance_id == id,
            None => forall|k: int| 0 <= k < group.len() ==> (#[trigger] group[k]).distance_id != id,
        },
{
    let mut i: usize = 0;
    while i < group.len()
        invariant
            i <= group.len(),
            forall|k: int| 0 <= k < i ==> (#[trigger] group[k]).distance_id != id,
        decreases group.len() - i,
    {
        if group[i].distance_id == id {
            return Some(i);
        }
        i = i + 1;
    }
    None
}

/// Whether every fighter of the group has drawn a card.
pub open spec fn all_seated(group: Seq<Fighter>) -> bool {
    forall|k: int| 0 <= k < group.len() ==> (#[trigger] group[k]).drawn_card is Some
}

/// Lets every fighter of `group` begin a round, one after the other, as
/// `dealt_to` says.
pub fn begin_round(group: &mut Vec<Fighter>, cards: &mut CardDeck)
    ensures
        final(group).len() == old(group).len(),
        all_seated(final(group)@),
        forall|k: int|
            0 <= k < final(group).len() ==> #[trigger] final(group)[k] == (Fighter {
                drawn_card: final(group)[k].drawn_card,
                joker: final(group)[k].drawn_card->Some_0.spec_is_joker(),
                riposte_done: false,
                ..old(group)[k]
            }),
        all_alive(old(group)@) ==> all_alive(final(group)@),
        old(group).len() > 0 && old(group)[0].draws_best(old(cards).cards()) ==> final(group)[0].drawn_card == Some(
            Fighter::best_of_top(old(cards).cards(), old(group)[0].spec_cards_to_draw() as nat),
        ),
        old(group).len() == 0 ==> final(cards).cards() == old(cards).cards() && final(cards).drawn() == old(cards).drawn(),
        dealt_to(old(group)@, *old(cards), old(group)@.len(), final(group)@, *final(cards)),
{
    proof {
        lemma_dealt_none(group@, *cards, group@);
    }
    let mut i: usize = 0;
    while i < group.len()
        invariant
            i <= group.len(),
            group.len() == old(group).len(),
            dealt_to(old(group)@, *old(cards), i as nat, group@, *cards),
            forall|k: int| i <= k < group.len() ==> #[trigger] group[k] == old(group)[k],
            forall|k: int| 0 <= k < i ==> (#[trigger] group[k]).drawn_card is Some,
            i == 0 ==> cards.cards() == old(cards).cards() && cards.drawn() == old(cards).drawn(),
            i > 0 && old(group)[0].draws_best(old(cards).cards()) ==> group[0].drawn_card == Some(
                Fighter::best_of_top(
                    old(cards).cards(),
                    old(group)[0].spec_cards_to_draw() as nat,
                ),
            ),
            forall|k: int|
                0 <= k < i ==> #[trigger] group[k] == (Fighter {
                    drawn_card: group[k].drawn_card,
                    joker: group[k].drawn_card->Some_0.spec_is_joker(),
                    riposte_done: false,
                    ..old(group)[k]
                }),
        decreases group.len() - i,
    {
        let ghost seated = group@;
        let ghost mid = *cards;
        let mut fighter = group[i];
        fighter.new_round(cards);
        group.set(i, fighter);
        proof {
            lemma_dealt_same(old(group)@, *old(cards), i as nat, seated, group@, mid);
            lemma_dealt_more(old(group)@, *old(cards), i as nat, group@, mid, *cards);
        }
        i = i + 1;
    }
}

/// Adds the seats of `group` to `seats`, in the group's order.
pub fn take_seats(group: &Vec<Fighter>, seats: &mut Vec<Seat>)
    requires
        all_seated(group@),
    ensures
        final(seats).len() == old(seats).len() + group.len(),
        forall|k: int| 0 <= k < old(seats).len() ==> #[trigger] final(seats)[k] == old(seats)[k],
        forall|j: int|
            old(seats).len() <= j < final(seats).len() ==> #[trigger] final(seats)[j] == seat_of(
                group[j - old(seats).len()],
            ),
{
    let mut i: usize = 0;
    while i < group.len()
        invariant
            i <= group.len(),
            all_seated(group@),
            seats.len() == old(seats).len() + i,
            forall|k: int| 0 <= k < old(seats).len() ==> #[trigger] seats[k] == old(seats)[k],
            forall|j: int|
                old(seats).len() <= j < seats.len() ==> #[trigger] seats[j] == seat_of(
                    group[j - old(seats).len()],
                ),
        decreases group.len() - i,
    {
        let fighter = group[i];
        seats.push((fighter.drawn_card().number(), fighter.distance_id));
        i = i + 1;
    }
}

/// One fight: the deck, what the fighters share, and the fighters of both
/// groups that are still in it.
pub struct Arena {
    pub cards: CardDeck,
    pub field: Battlefield,
    pub group_left: Vec<Fighter>,
    pub group_right: Vec<Fighter>,
}

/// Seats the characters of one side.
fn seat_group(sheets: &Vec<Sheet>, group: Group, counted: bool, distance_map: &mut DistanceMap) -> (r:
    Vec<Fighter>)
    requires
        old(distance_map).next_id() + sheets.len() <= u16::MAX,
    ensures
        r.len() == sheets.len(),
        final(distance_map).next_id() == old(distance_map).next_id() + sheets.len(),
        final(distance_map).pairs() == old(distance_map).pairs(),
        forall|k: int|
            0 <= k < r.len() ==> #[trigger] r[k] == Fighter::fresh(
                sheets[k],
                group,
                counted,
                (old(distance_map).next_id() + k) as u16,
            ),
        all_alive(r@),
{
    let mut fighters: Vec<Fighter> = Vec::new();
    let mut i: usize = 0;
    while i < sheets.len()
        invariant
            i <= sheets.len(),
            fighters.len() == i,
            old(distance_map).next_id() + sheets.len() <= u16::MAX,
            distance_map.next_id() == old(distance_map).next_id() + i,
            distance_map.pairs() == old(distance_map).pairs(),
            all_alive(fighters@),
            forall|k: int|
                0 <= k < i ==> #[trigger] fighters[k] == Fighter::fresh(
                    sheets[k],
                    group,
                    counted,
                    (old(distance_map).next_id() + k) as u16,
                ),
        decreases sheets.len() - i,
    {
        fighters.push(Fighter::new(sheets[i], group, distance_map, counted));
        i = i + 1;
    }
    fighters
}

impl Arena {
    /// The arena before the first round: every character of `group_data`
    /// seated, nobody in base contact, nothing counted. The counters are
    /// kept from the left group's side.
    pub fn new(group_data: &GroupData, cards: CardDeck, roller: Roller) -> (r: Self)
        requires
            group_data.group_left.len() + group_data.group_right.len() <= u16::MAX,
        ensures
            r.group_left.len() == group_data.group_left.len(),
            r.group_right.len() == group_data.group_right.len(),
            forall|k: int|
                0 <= k < r.group_left.len() ==> #[trigger] r.group_left[k] == Fighter::fresh(
                    group_data.group_left[k],
                    Group::Left,
                    true,
                    k as u16,
                ),
            forall|k: int|
                0 <= k < r.group_right.len() ==> #[trigger] r.group_right[k] == Fighter::fresh(
                    group_data.group_right[k],
                    Group::Right,
                    false,
                    (group_data.group_left.len() + k) as u16,
                ),
            r.field.stats == FightStats::empty(),
            r.field.distance_map.pairs() == Seq::<Pair>::empty(),
            r.field.distance_map.next_id() == group_data.group_left.len()
                + group_data.group_right.len(),
            r.cards.cards() == cards.cards(),
            r.cards.drawn() == cards.drawn(),
            r.cards.dealt_joker() == cards.dealt_joker(),
            all_alive(r.group_left@),
            all_alive(r.group_right@),
    {
        let mut distance_map = DistanceMap::new();
        let group_left = seat_group(&group_data.group_left, Group::Left, true, &mut distance_map);
        let group_right = seat_group(
            &group_data.group_right,
            Group::Right,
            false,
            &mut distance_map,
        );
        Arena {
            cards,
            field: Battlefield { distance_map, stats: FightStats::new(), roller },
            group_left,
            group_right,
        }
    }

    /// What a round or a turn leaves as it was: no fighter joins, and the
    /// counters only go up.
    pub open spec fn continues(self, earlier: Arena) -> bool {
        &&& self.group_left.len() <= earlier.group_left.len()
        &&& self.group_right.len() <= earlier.group_right.len()
        &&& self.field.stats.extends(earlier.field.stats)
        &&& self.field.distance_map.next_id() == earlier.field.distance_map.next_id()
    }

    /// Lets the fighter at place `at` of `group` take its turn. The fight
    /// is over if nobody is left to attack. What the turn leaves is what
    /// `turn_taken` says.
    pub fn do_fighter_action(&mut self, group: Group, at: usize) -> (r: Result<(), FightIsOver>)
        requires
            match group {
                Group::Left => at < old(self).group_left.len(),
                Group::Right => at < old(self).group_right.len(),
            },
        ensures
            final(self).group_left.len() == old(self).group_left.len(),
            final(self).group_right.len() == old(self).group_right.len(),
            final(self).field.keeps_ids(old(self).field),
            all_follow(final(self).group_left@, old(self).group_left@),
            all_follow(final(self).group_right@, old(self).group_right@),
            r is Err <==> match group {
                Group::Left => old(self).group_right.len() == 0,
                Group::Right => old(self).group_left.len() == 0,
            },
            r is Err ==> final(self).group_left@ == old(self).group_left@ && final(self).group_right@ == old(self).group_right@,
            all_seated(old(self).group_left@) ==> all_seated(final(self).group_left@),
            all_seated(old(self).group_right@) ==> all_seated(final(self).group_right@),
            Self::turn_taken(*old(self), group, at as int, r is Err, *final(self)),
    {
        reveal(Arena::turn_taken);
        match group {
            Group::Left => {
                if self.group_right.len() == 0 {
                    return Err(FightIsOver);
                }
                let mut fighter = self.group_left[at];
                fighter.action(&mut self.group_right, &mut self.field);
                self.group_left.set(at, fighter);
                assert(self.group_left@ =~= old(self).group_left@.update(
                    at as int,
                    self.group_left@[at as int],
                ));
            },
            Group::Right => {
                if self.group_left.len() == 0 {
                    return Err(FightIsOver);
                }
                let mut fighter = self.group_right[at];
                fighter.action(&mut self.group_left, &mut self.field);
                self.group_right.set(at, fighter);
                assert(self.group_right@ =~= old(self).group_right@.update(
                    at as int,
                    self.group_right@[at as int],
                ));
            },
        }
        Ok(())
    }

    /// Takes the fighters that are out of the fight out of both groups.
    pub fn filter_out_dead_fighters(&mut self)
        ensures
            final(self).group_left@ == living(old(self).group_left@),
            final(self).group_right@ == living(old(self).group_right@),
            final(self).continues(*old(self)),
            final(self).field.keeps_places(old(self).field),
            final(self).field.stats == old(self).field.stats,
            all_alive(final(self).group_left@),
            all_alive(final(self).group_right@),
            all_seated(old(self).group_left@) ==> all_seated(final(self).group_left@),
            all_seated(old(self).group_right@) ==> all_seated(final(self).group_right@),
            Self::cleared(*old(self), *final(self)),
    {
        retain_living(&mut self.group_left);
        retain_living(&mut self.group_right);
    }

    /// The fighter with id `id`, if it is still in one of the groups: its
    /// group and its place there. The left group is searched first. Nothing
    /// is found only if no fighter of either group has the id.
    pub fn find(&self, id: u16) -> (r: Option<(Group, usize)>)
        ensures
            match r {
                Some((Group::Left, at)) => at < self.group_left.len() && self.group_left[at as int].distance_id
                    == id,
                Some((Group::Right, at)) => {
                    &&& at < self.group_right.len()
                    &&& self.group_right[at as int].distance_id == id
                    &&& forall|k: int|
                        0 <= k < self.group_left.len() ==> (#[trigger] self.group_left[k]).distance_id
                            != id
                },
                None => {
                    &&& forall|k: int|
                        0 <= k < self.group_left.len() ==> (#[trigger] self.group_left[k]).distance_id
                            != id
                    &&& forall|k: int|
                        0 <= k < self.group_right.len() ==> (
                        #[trigger] self.group_right[k]).distance_id != id
                },
            },
            self.found_at(id, r),
    {
        match position_of(&self.group_left, id) {
            Some(at) => Some((Group::Left, at)),
            None => match position_of(&self.group_right, id) {
                Some(at) => Some((Group::Right, at)),
                None => None,
            },
        }
    }

    /// Rolls off between the holders of two jokers until one of them rolls
    /// higher, at most `MAX_ROLL_OFFS` times. Says whether the second goes
    /// first; after as many ties as that the order stands.
    pub fn joker_roll_off(&mut self, first: &Fighter, second: &Fighter) -> (swap: bool)
        ensures
            final(self).group_left@ == old(self).group_left@,
            final(self).group_right@ == old(self).group_right@,
            final(self).field.keeps_places(old(self).field),
            final(self).field.stats == old(self).field.stats,
            final(self).cards == old(self).cards,
    {
        let mut tries: u8 = 0;
        while tries < MAX_ROLL_OFFS
            invariant
                tries <= MAX_ROLL_OFFS,
                self.group_left@ == old(self).group_left@,
                self.group_right@ == old(self).group_right@,
                self.field.keeps_places(old(self).field),
                self.field.stats == old(self).field.stats,
                self.cards == old(self).cards,
            decreases MAX_ROLL_OFFS - tries,
        {
            let a = first.dex_roll(&mut self.field.roller);
            let b = second.dex_roll(&mut self.field.roller);
            match roll_off(a, b) {
                RollOff::Swap => { return true; },
                RollOff::Keep => { return false; },
                RollOff::Again => {},
            }
            tries = tries + 1;
        }
        false
    }

    /// The order of the round: the ids of all fighters, best card first.
    /// Where the two best cards are both jokers, their holders roll off for
    /// the first place.
    pub fn initiative(&mut self) -> (r: Vec<u16>)
        requires
            all_seated(old(self).group_left@),
            all_seated(old(self).group_right@),
        ensures
            r.len() == old(self).group_left.len() + old(self).group_right.len(),
            final(self).group_left@ == old(self).group_left@,
            final(self).group_right@ == old(self).group_right@,
            final(self).field.keeps_places(old(self).field),
            final(self).field.stats == old(self).field.stats,
            final(self).cards == old(self).cards,
            in_order(old(self).group_left@, old(self).group_right@, r@),
            exists|sorted: Seq<Seat>|
                {
                    &&& #[trigger] best_first(sorted)
                    &&& sorted.to_multiset() == all_seats(
                        old(self).group_left@,
                        old(self).group_right@,
                    ).to_multiset()
                    &&& r@ == ids(sorted) || (jokers_on_top(sorted) && r@ == ids(
                        swapped_top(sorted),
                    ))
                },
            forall|j: int|
                0 <= j < r.len() ==> seated(
                    old(self).group_left@,
                    old(self).group_right@,
                    #[trigger] r[j],
                ),
    {
        let mut seats: Vec<Seat> = Vec::new();
        take_seats(&self.group_left, &mut seats);
        take_seats(&self.group_right, &mut seats);
        assert(seats@ =~= all_seats(self.group_left@, self.group_right@));
        let mut sorted = sort_seats(&seats);
        let ghost in_order = sorted@;
        proof {
            vstd::seq_lib::to_multiset_len(sorted@);
            vstd::seq_lib::to_multiset_len(seats@);
        }
        if sorted.len() >= 2 && sorted[0].0 == 52 && sorted[1].0 == 52 {
            let first = self.find(sorted[0].1);
            let second = self.find(sorted[1].1);
            let swap = match (first, second) {
                (Some((group_a, at_a)), Some((group_b, at_b))) => {
                    let a = match group_a {
                        Group::Left => self.group_left[at_a],
                        Group::Right => self.group_right[at_a],
                    };
                    let b = match group_b {
                        Group::Left => self.group_left[at_b],
                        Group::Right => self.group_right[at_b],
                    };
                    self.joker_roll_off(&a, &b)
                },
                _ => false,
            };
            if swap {
                let first_seat = sorted[0];
                let second_seat = sorted[1];
                sorted.set(0, second_seat);
                sorted.set(1, first_seat);
            }
        }
        assert(sorted@ == in_order || (jokers_on_top(in_order) && sorted@ =~= swapped_top(in_order)));
        proof {
            let left = self.group_left@;
            let right = self.group_right@;
            assert forall|j: int| 0 <= j < in_order.len() implies seated(
                left,
                right,
                (#[trigger] in_order[j]).1,
            ) by {
                vstd::seq_lib::to_multiset_contains(in_order, in_order[j]);
                vstd::seq_lib::to_multiset_contains(seats@, in_order[j]);
                assert(in_order.contains(in_order[j]));
                let m = choose|m: int| 0 <= m < seats@.len() && seats@[m] == in_order[j];
                if m < left.len() {
                    assert(left[m].distance_id == in_order[j].1);
                } else {
                    assert(right[m - left.len()].distance_id == in_order[j].1);
                }
            }
            assert forall|j: int| 0 <= j < sorted@.len() implies seated(
                left,
                right,
                (#[trigger] sorted@[j]).1,
            ) by {
                if sorted@ == in_order {
                } else if j == 0 {
                    assert(sorted@[0] == in_order[1]);
                } else if j == 1 {
                    assert(sorted@[1] == in_order[0]);
                } else {
                    assert(sorted@[j] == in_order[j]);
                }
            }
        }
        let mut order: Vec<u16> = Vec::new();
        let mut i: usize = 0;
        while i < sorted.len()
            invariant
                i <= sorted.len(),
                order.len() == i,
                forall|k: int| 0 <= k < i ==> order[k] == sorted[k].1,
                forall|j: int|
                    0 <= j < sorted.len() ==> seated(
                        self.group_left@,
                        self.group_right@,
                        (#[trigger] sorted[j]).1,
                    ),
            decreases sorted.len() - i,
        {
            order.push(sorted[i].1);
            i = i + 1;
        }
        assert(order@ =~= ids(sorted@));
        assert(best_first(in_order));
        order
    }

    /// Whether one group has a fighter and the other has none.
    pub open spec fn one_sided(left: int, right: int) -> bool {
        (left == 0 && right > 0) || (right == 0 && left > 0)
    }

    /// One round: every fighter draws a card, and then each one still in
    /// the fight takes its turn, best card first. Whoever is out of the
    /// fight leaves after the turn that put it out. The round ends early
    /// when a fighter finds nobody left to attack; it does so at the first
    /// turn if one side has nobody from the start. Whoever is left after
    /// the round has a card, and is in the fight if all were before. What
    /// the round leaves is what `round_outcome` says.
    pub fn round(&mut self) -> (r: Result<(), FightIsOver>)
        ensures
            final(self).continues(*old(self)),
            final(self).field.stats.rounds == crate::simulator::fight_report::capped_sum(
                old(self).field.stats.rounds,
                1,
            ),
            r is Err ==> Self::one_sided(final(self).group_left.len() as int, final(self).group_right.len() as int),
            Self::one_sided(old(self).group_left.len() as int, old(self).group_right.len() as int) && all_alive(
                old(self).group_left@,
            ) && all_alive(old(self).group_right@) ==> r is Err && final(self).group_left.len()
                == old(self).group_left.len() && final(self).group_right.len() == old(self).group_right.len(),
            all_seated(final(self).group_left@),
            all_seated(final(self).group_right@),
            all_alive(old(self).group_left@) && all_alive(old(self).group_right@) ==> all_alive(
                final(self).group_left@,
            ) && all_alive(final(self).group_right@),
            Self::round_outcome(*old(self), r is Err, *final(self)),
    {
        self.field.stats.add_round();
        self.cards.new_round();
        let ghost fresh = self.cards;
        begin_round(&mut self.group_left, &mut self.cards);
        let ghost half = self.cards;
        begin_round(&mut self.group_right, &mut self.cards);
        let ghost dealt = *self;
        let initiative_list = self.initiative();
        proof {
            Self::lemma_cards_dealt(*old(self), fresh, half, dealt);
            assert(Self::cards_dealt(*old(self), *self)) by {
                reveal(Arena::cards_dealt);
            }
        }
        let ghost owed = Self::one_sided(old(self).group_left.len() as int, old(self).group_right.len() as int)
            && all_alive(old(self).group_left@) && all_alive(old(self).group_right@);
        let ghost begun_left = self.group_left@;
        let ghost begun_right = self.group_right@;
        let ghost start = *self;
        proof {
            Self::lemma_steps_none(start, initiative_list@);
        }
        let mut i: usize = 0;
        while i < initiative_list.len()
            invariant
                i <= initiative_list.len(),
                Self::begun(*old(self), start, initiative_list@),
                Self::round_steps(start, initiative_list@, i as nat, false, *self),
                initiative_list.len() == begun_left.len() + begun_right.len(),
                begun_left.len() == old(self).group_left.len(),
                begun_right.len() == old(self).group_right.len(),
                self.continues(*old(self)),
                self.field.stats.rounds == crate::simulator::fight_report::capped_sum(
                    old(self).field.stats.rounds,
                    1,
                ),
                all_seated(self.group_left@),
                all_seated(self.group_right@),
                all_alive(old(self).group_left@) && all_alive(old(self).group_right@) ==> all_alive(
                    self.group_left@,
                ) && all_alive(self.group_right@),
                owed == (Self::one_sided(old(self).group_left.len() as int, old(self).group_right.len() as int)
                    && all_alive(old(self).group_left@) && all_alive(old(self).group_right@)),
                owed ==> i == 0 && self.group_left@ == begun_left && self.group_right@
                    == begun_right,
                forall|j: int|
                    0 <= j < initiative_list.len() ==> seated(
                        begun_left,
                        begun_right,
                        #[trigger] initiative_list[j],
                    ),
            decreases initiative_list.len() - i,
        {
            let id = initiative_list[i];
            let ghost gone = i as nat;
            let ghost here = *self;
            i = i + 1;
            proof {
                assert(seated(begun_left, begun_right, id));
            }
            let (group, at) = match self.find(id) {
                Some(found) => found,
                None => {
                    proof {
                        Self::lemma_step_skipped(here, id, None);
                        Self::lemma_steps_more(start, initiative_list@, gone, here, false, here);
                    }
                    continue ;
                },
            };
            let fighter = match group {
                Group::Left => self.group_left[at],
                Group::Right => self.group_right[at],
            };
            if fighter.is_dead() {
                proof {
                    Self::lemma_step_skipped(here, id, Some((group, at)));
                    Self::lemma_steps_more(start, initiative_list@, gone, here, false, here);
                }
                continue ;
            }
            match self.do_fighter_action(group, at) {
                Ok(_) => {},
                Err(e) => {
                    proof {
                        Self::lemma_step_taken(here, id, (group, at), true, *self, *self);
                        Self::lemma_steps_more(start, initiative_list@, gone, here, true, *self);
                        Self::lemma_round(
                            *old(self),
                            start,
                            initiative_list@,
                            gone + 1,
                            true,
                            *self,
                        );
                    }
                    return Err(e);
                },
            }
            let ghost mid = *self;
            self.filter_out_dead_fighters();
            proof {
                Self::lemma_step_taken(here, id, (group, at), false, mid, *self);
                Self::lemma_steps_more(start, initiative_list@, gone, here, false, *self);
            }
        }
        proof {
            Self::lemma_round(
                *old(self),
                start,
                initiative_list@,
                initiative_list@.len(),
                false,
                *self,
            );
        }
        Ok(())
    }

    /// How a fight with these fighters left standing ends: a side wins if
    /// it alone has somebody left.
    pub open spec fn outcome_of(left: Seq<Fighter>, right: Seq<Fighter>, stats: FightStats)
        -> FightOutcome {
        if living(left).len() > 0 && living(right).len() == 0 {
            FightOutcome::LeftWon(stats)
        } else if living(left).len() == 0 && living(right).len() > 0 {
            FightOutcome::RightWon(stats)
        } else {
            FightOutcome::Draw(stats)
        }
    }

    /// Ends the fight and says how it went. The dice go back to the
    /// caller.
    pub fn finish(self) -> (r: (FightOutcome, Roller))
        ensures
            r.0 == Self::outcome_of(self.group_left@, self.group_right@, self.field.stats),
    {
        let mut arena = self;
        arena.filter_out_dead_fighters();
        let left_dead = arena.group_left.len() == 0;
        let right_dead = arena.group_right.len() == 0;
        let stats = arena.field.stats;
        let outcome = match (left_dead, right_dead) {
            (true, true) => FightOutcome::Draw(stats),
            (true, false) => FightOutcome::RightWon(stats),
            (false, true) => FightOutcome::LeftWon(stats),
            (false, false) => FightOutcome::Draw(stats),
        };
        (outcome, arena.field.roller)
    }
}

/// How a fight between these groups ends if one of them has nobody: the
/// side that has a fighter wins.
pub open spec fn walkover(char_data: GroupData, outcome: FightOutcome) -> bool {
    &&& char_data.group_right.len() == 0 && char_data.group_left.len() > 0 ==> outcome is LeftWon
    &&& char_data.group_left.len() == 0 && char_data.group_right.len() > 0 ==> outcome is RightWon
}

/// Plays one fight of at most `max_rounds` rounds with the given deck and
/// dice. A side without fighters cannot win, and loses at once to a side
/// that has one. A round is counted for every round begun, and no more are
/// begun than allowed. The fight ends as `fight_outcome` says. At most
/// 65535 fighters can be seated.
pub fn calc_fight_with(char_data: &GroupData, max_rounds: u32, cards: CardDeck, roller: Roller) -> (r:
    (FightOutcome, Roller))
    requires
        char_data.group_left.len() + char_data.group_right.len() <= u16::MAX,
    ensures
        r.0.stats().rounds <= max_rounds,
        max_rounds >= 1 ==> r.0.stats().rounds >= 1,
        r.0 is LeftWon ==> char_data.group_left.len() > 0,
        r.0 is RightWon ==> char_data.group_right.len() > 0,
        walkover(*char_data, r.0),
        Arena::one_sided(char_data.group_left.len() as int, char_data.group_right.len() as int) ==> r.0.stats().rounds
            == (if max_rounds >= 1 { 1u32 } else { 0u32 }),
        Arena::fight_outcome(*char_data, max_rounds, r.0),
{
    let mut arena = Arena::new(char_data, cards, roller);
    let ghost first = arena;
    let ghost mut stopped = false;
    proof {
        Arena::lemma_rounds_none(first);
    }
    let mut round: u32 = 0;
    while round < max_rounds
        invariant_except_break
            Arena::one_sided(char_data.group_left.len() as int, char_data.group_right.len() as int) ==> round == 0,
            !stopped,
            Arena::rounds_played(first, round as nat, false, arena),
        invariant
            round <= max_rounds,
            arena.group_left.len() <= char_data.group_left.len(),
            arena.group_right.len() <= char_data.group_right.len(),
            arena.field.stats.rounds == round,
            all_alive(arena.group_left@),
            all_alive(arena.group_right@),
            Arena::one_sided(char_data.group_left.len() as int, char_data.group_right.len() as int) ==> round <= 1
                && arena.group_left.len() == char_data.group_left.len() && arena.group_right.len()
                == char_data.group_right.len(),
        ensures
            max_rounds >= 1 ==> round >= 1,
            Arena::rounds_played(first, round as nat, stopped, arena),
            !stopped ==> round == max_rounds,
        decreases max_rounds - round,
    {
        let ghost played = round as nat;
        let ghost mid = arena;
        round = round + 1;
        match arena.round() {
            Ok(_) => {
                proof {
                    Arena::lemma_rounds_more(first, played, mid, false, arena);
                }
            },
            Err(_) => {
                proof {
                    Arena::lemma_rounds_more(first, played, mid, true, arena);
                    stopped = true;
                }
                break ;
            },
        }
    }
    proof {
        Arena::lemma_fight(*char_data, max_rounds, first, round as nat, stopped, arena);
        arena.group_left@.lemma_filter_len(|f: Fighter| !f.spec_is_dead());
        arena.group_right@.lemma_filter_len(|f: Fighter| !f.spec_is_dead());
        lemma_living_all(arena.group_left@);
        lemma_living_all(arena.group_right@);
    }
    arena.finish()
}

/// Plays one fight of at most `max_rounds` rounds with a deck shuffled at
/// random.
pub fn calc_fight(char_data: &GroupData, max_rounds: u32, roller: Roller) -> (r: (
    FightOutcome,
    Roller,
))
    requires
        char_data.group_left.len() + char_data.group_right.len() <= u16::MAX,
    ensures
        r.0.stats().rounds <= max_rounds,
        max_rounds >= 1 ==> r.0.stats().rounds >= 1,
        r.0 is LeftWon ==> char_data.group_left.len() > 0,
        r.0 is RightWon ==> char_data.group_right.len() > 0,
        walkover(*char_data, r.0),
        Arena::one_sided(char_data.group_left.len() as int, char_data.group_right.len() as int) ==> r.0.stats().rounds
            == (if max_rounds >= 1 { 1u32 } else { 0u32 }),
        Arena::fight_outcome(*char_data, max_rounds, r.0),
{
    calc_fight_with(char_data, max_rounds, CardDeck::new(), roller)
}

/// What is known of the tally of `count_fights` fights of at most
/// `max_rounds` rounds between the groups of `char_data`: every fight is
/// counted, with at least one round if any is allowed, and none with more
/// than allowed; a side without fighters wins no fight and loses every
/// fight to a side that has one; and each fight that is counted ended as
/// `fight_outcome` says a fight can.
pub open spec fn fought(char_data: GroupData, count_fights: u32, max_rounds: u32, tally: Tally)
    -> bool {
    &&& tally.consistent()
    &&& tally.fights == count_fights
    &&& tally.rounds <= count_fights * max_rounds
    &&& max_rounds >= 1 ==> tally.rounds >= count_fights
    &&& char_data.group_left.len() == 0 ==> tally.wins == 0
    &&& char_data.group_right.len() == 0 ==> tally.losses == 0
    &&& char_data.group_right.len() == 0 && char_data.group_left.len() > 0 ==> tally.wins
        == count_fights
    &&& char_data.group_left.len() == 0 && char_data.group_right.len() > 0 ==> tally.losses
        == count_fights
    &&& Arena::counted(char_data, max_rounds, count_fights as nat, tally)
}

/// Plays `count_fights` fights with dice and decks that follow from
/// `seed`, and reports on them.
pub fn simulate_fights_seeded(char_data: &GroupData, count_fights: u32, max_rounds: u32, seed: u64)
    -> (r: FightReport)
    requires
        char_data.group_left.len() + char_data.group_right.len() <= u16::MAX,
    ensures
        exists|tally: Tally| #[trigger] fought(*char_data, count_fights, max_rounds, tally) && r@
            == tally.report(),
{
    let mut roller = Roller::from_seed(seed);
    let mut report = ReportBuilder::new();
    proof {
        Arena::lemma_counted_none(*char_data, max_rounds);
    }
    let mut i: u32 = 0;
    while i < count_fights
        invariant
            i <= count_fights,
            char_data.group_left.len() + char_data.group_right.len() <= u16::MAX,
            fought(*char_data, i, max_rounds, report@),
        decreases count_fights - i,
    {
        let cards = CardDeck::from_seed(seed.wrapping_add(i as u64));
        let (outcome, used) = calc_fight_with(char_data, max_rounds, cards, roller);
        roller = used;
        proof {
            assert((i + 1) * max_rounds == i * max_rounds + max_rounds) by (nonlinear_arith);
            Arena::lemma_counted_more(*char_data, max_rounds, i as nat, report@, outcome);
        }
        report.add_fight(outcome);
        i = i + 1;
    }
    report.build()
}

/// Plays `count_fights` fights with dice that follow from a seed taken at
/// random, and reports on them.
pub fn simulate_fights(char_data: &GroupData, count_fights: u32, max_rounds: u32) -> (r:
    FightReport)
    requires
        char_data.group_left.len() + char_data.group_right.len() <= u16::MAX,
    ensures
        exists|tally: Tally| #[trigger] fought(*char_data, count_fights, max_rounds, tally) && r@
            == tally.report(),
{
    simulate_fights_seeded(char_data, count_fights, max_rounds, crate::simulator::random::fresh_seed())
}

} // verus!
