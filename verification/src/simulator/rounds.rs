//! The course of a round and of a fight: what each turn leaves, and how
//! turns, rounds and fights follow one another.

use vstd::prelude::*;
use crate::simulator::arena::all_seated;
use crate::simulator::arena::all_seats;
use crate::simulator::arena::best_first;
use crate::simulator::arena::ids;
use crate::simulator::arena::jokers_on_top;
use crate::simulator::arena::living;
use crate::simulator::arena::swapped_top;
use crate::simulator::arena::Arena;
use crate::simulator::arena::Seat;
use crate::simulator::cards::Card;
use crate::simulator::cards::CardDeck;
use crate::simulator::distance::Pair;
use crate::simulator::fight_report::capped_sum;
use crate::simulator::fight_report::FightOutcome;
use crate::simulator::fight_report::FightStats;
use crate::simulator::fight_report::Tally;
use crate::simulator::fighter::Fighter;
use crate::simulator::fighter::Group;
use crate::simulator::GroupData;

verus! {

/// Whether `after` is `before` with every fighter at the start of a round:
/// each has a card, holds a joker or not as the card says, and may riposte
/// again; nothing else differs.
pub open spec fn dealt_in(before: Seq<Fighter>, after: Seq<Fighter>) -> bool {
    &&& after.len() == before.len()
    &&& all_seated(after)
    &&& forall|k: int|
        0 <= k < after.len() ==> #[trigger] after[k] == (Fighter {
            drawn_card: after[k].drawn_card,
            joker: after[k].drawn_card->Some_0.spec_is_joker(),
            riposte_done: false,
            ..before[k]
        })
}

/// What the start of a round leaves of the deck: nothing is recorded as
/// dealt; after a round in which a joker was dealt the deck is full again,
/// and after any other it holds what it held.
pub open spec fn round_started(deck: CardDeck, fresh: CardDeck) -> bool {
    &&& fresh.drawn() == Seq::<Card>::empty()
    &&& !fresh.dealt_joker()
    &&& deck.dealt_joker() ==> fresh.is_full() && fresh.cards().len() == 54
    &&& !deck.dealt_joker() ==> fresh.cards() == deck.cards()
}

/// What the start of a round leaves of a fighter and of the deck. The
/// fighter has a card, holds a joker or not as the card says, and may
/// riposte again; nothing else of it differs. The card is the one that
/// `keeps_card` says, of those that the deck records as dealt; where the
/// deck held as many cards as the fighter draws and the fighter draws but
/// once, it is the best of those on top, which are gone from the deck.
pub open spec fn began(before: Fighter, deck: CardDeck, after: Fighter, left: CardDeck) -> bool {
    &&& after.drawn_card is Some
    &&& after == (Fighter {
        drawn_card: after.drawn_card,
        joker: after.drawn_card->Some_0.spec_is_joker(),
        riposte_done: false,
        ..before
    })
    &&& before.draws_best(deck.cards()) ==> after.drawn_card == Some(
        Fighter::best_of_top(deck.cards(), before.spec_cards_to_draw() as nat),
    ) && left.cards() == deck.cards().take(deck.cards().len() - before.spec_cards_to_draw())
    &&& before.keeps_card(left.drawn(), after.drawn_card->Some_0)
}

/// What dealing to the first `n` fighters of a group leaves, one after the
/// other: each of them and the deck as `began` says.
#[verifier::opaque]
pub open spec fn dealt_to(
    before: Seq<Fighter>,
    deck: CardDeck,
    n: nat,
    after: Seq<Fighter>,
    left: CardDeck,
) -> bool
    decreases n,
{
    if n == 0 {
        left == deck
    } else {
        exists|mid: CardDeck|
            dealt_to(before, deck, (n - 1) as nat, after, mid) && #[trigger] began(
                before[n - 1],
                mid,
                after[n - 1],
                left,
            )
    }
}

/// Before anybody is dealt to, the deck is as it was.
pub proof fn lemma_dealt_none(before: Seq<Fighter>, deck: CardDeck, after: Seq<Fighter>)
    ensures
        dealt_to(before, deck, 0, after, deck),
{
    reveal(dealt_to);
}

/// Dealing to one more fighter extends what was dealt.
pub proof fn lemma_dealt_more(
    before: Seq<Fighter>,
    deck: CardDeck,
    n: nat,
    after: Seq<Fighter>,
    mid: CardDeck,
    left: CardDeck,
)
    requires
        dealt_to(before, deck, n, after, mid),
        began(before[n as int], mid, after[n as int], left),
    ensures
        dealt_to(before, deck, n + 1, after, left),
{
    reveal(dealt_to);
    assert(((n + 1) - 1) as nat == n);
    assert(began(before[(n + 1) - 1], mid, after[(n + 1) - 1], left));
}

/// What was dealt to the first `n` fighters does not depend on the others.
pub proof fn lemma_dealt_same(
    before: Seq<Fighter>,
    deck: CardDeck,
    n: nat,
    after: Seq<Fighter>,
    other: Seq<Fighter>,
    left: CardDeck,
)
    requires
        dealt_to(before, deck, n, after, left),
        forall|k: int| 0 <= k < n ==> after[k] == other[k],
    ensures
        dealt_to(before, deck, n, other, left),
    decreases n,
{
    reveal(dealt_to);
    if n > 0 {
        let mid = choose|mid: CardDeck|
            dealt_to(before, deck, (n - 1) as nat, after, mid) && #[trigger] began(
                before[n - 1],
                mid,
                after[n - 1],
                left,
            );
        lemma_dealt_same(before, deck, (n - 1) as nat, after, other, mid);
        assert(began(before[n - 1], mid, other[n - 1], left));
    }
}

/// Whether `order` is an order of a round for these fighters: their ids,
/// best card first, the holders of two jokers on top in either order.
pub open spec fn in_order(left: Seq<Fighter>, right: Seq<Fighter>, order: Seq<u16>) -> bool {
    exists|sorted: Seq<Seat>|
        {
            &&& #[trigger] best_first(sorted)
            &&& sorted.to_multiset() == all_seats(left, right).to_multiset()
            &&& order == ids(sorted) || (jokers_on_top(sorted) && order == ids(swapped_top(sorted)))
        }
}

/// The tally of the fights that ended as `outcomes` say, one after the
/// other.
pub open spec fn tally_of(outcomes: Seq<FightOutcome>) -> Tally
    decreases outcomes.len(),
{
    if outcomes.len() == 0 {
        Tally::empty()
    } else {
        tally_of(outcomes.drop_last()).with(outcomes.last())
    }
}

impl Arena {
    /// The fighter at place `at` of `group`.
    pub open spec fn fighter_at(self, group: Group, at: int) -> Fighter {
        match group {
            Group::Left => self.group_left[at],
            Group::Right => self.group_right[at],
        }
    }

    /// Whether `found` says where the fighter with id `id` stands: in the
    /// left group, else in the right one, or nowhere if neither has it.
    pub open spec fn found_at(self, id: u16, found: Option<(Group, usize)>) -> bool {
        match found {
            Some((Group::Left, at)) => at < self.group_left.len() && self.group_left[at as int].distance_id
                == id,
            Some((Group::Right, at)) => {
                &&& at < self.group_right.len()
                &&& self.group_right[at as int].distance_id == id
                &&& forall|k: int|
                    0 <= k < self.group_left.len() ==> (#[trigger] self.group_left[k]).distance_id
                        != id
            },
            None => {
                &&& forall|k: int|
                    0 <= k < self.group_left.len() ==> (#[trigger] self.group_left[k]).distance_id
                        != id
                &&& forall|k: int|
                    0 <= k < self.group_right.len() ==> (#[trigger] self.group_right[k]).distance_id
                        != id
            },
        }
    }

    /// What the turn of the fighter at place `at` of `group` leaves. It
    /// fails, with nothing changed, exactly when the other group has
    /// nobody. Else the fighter, the other group and the field are what
    /// `Fighter::turned` says; the rest of its own group and the deck are
    /// as they were.
    #[verifier::opaque]
    pub open spec fn turn_taken(before: Arena, group: Group, at: int, failed: bool, after: Arena)
        -> bool {
        let (own, others) = match group {
            Group::Left => (before.group_left@, before.group_right@),
            Group::Right => (before.group_right@, before.group_left@),
        };
        let (own_after, others_after) = match group {
            Group::Left => (after.group_left@, after.group_right@),
            Group::Right => (after.group_right@, after.group_left@),
        };
        &&& failed == (others.len() == 0)
        &&& failed ==> after == before
        &&& after.cards == before.cards
        &&& !failed ==> own_after == own.update(at, own_after[at]) && Fighter::turned(
            own[at],
            others,
            before.field,
            (own_after[at], others_after, after.field),
        )
    }

    /// Whether `after` is `before` without the fighters that are out of
    /// the fight.
    pub open spec fn cleared(before: Arena, after: Arena) -> bool {
        &&& after.group_left@ == living(before.group_left@)
        &&& after.group_right@ == living(before.group_right@)
        &&& after.field == before.field
        &&& after.cards == before.cards
    }

    /// What the place of the fighter with id `id` in the order of a round
    /// leaves. Nothing happens if the fighter is gone or out of the fight.
    /// Else it takes its turn; if that fails, the round is over, and else
    /// whoever is out of the fight leaves.
    #[verifier::opaque]
    pub open spec fn round_step(before: Arena, id: u16, failed: bool, after: Arena) -> bool {
        exists|found: Option<(Group, usize)>| #[trigger]
            before.found_at(id, found) && match found {
                None => !failed && after == before,
                Some((group, at)) => if before.fighter_at(group, at as int).spec_is_dead() {
                    !failed && after == before
                } else {
                    exists|mid: Arena| #[trigger]
                        Self::turn_taken(before, group, at as int, failed, mid) && if failed {
                            after == mid
                        } else {
                            Self::cleared(mid, after)
                        }
                },
            }
    }

    /// A fighter that is gone or out of the fight does nothing at its
    /// place in the order.
    pub proof fn lemma_step_skipped(before: Arena, id: u16, found: Option<(Group, usize)>)
        requires
            before.found_at(id, found),
            found is Some ==> before.fighter_at(found->Some_0.0, found->Some_0.1 as int).spec_is_dead(),
        ensures
            Self::round_step(before, id, false, before),
    {
        reveal(Arena::round_step);
    }

    /// A fighter in the fight takes its turn at its place in the order.
    pub proof fn lemma_step_taken(
        before: Arena,
        id: u16,
        place: (Group, usize),
        failed: bool,
        mid: Arena,
        after: Arena,
    )
        requires
            before.found_at(id, Some(place)),
            !before.fighter_at(place.0, place.1 as int).spec_is_dead(),
            Self::turn_taken(before, place.0, place.1 as int, failed, mid),
            if failed {
                after == mid
            } else {
                Self::cleared(mid, after)
            },
        ensures
            Self::round_step(before, id, failed, after),
    {
        reveal(Arena::round_step);
        assert(before.found_at(id, Some(place)));
    }

    /// What the first `n` places of `order` leave of the arena `begun`,
    /// one after the other; the last of them `failed` or not, and none
    /// before it did.
    #[verifier::opaque]
    pub open spec fn round_steps(begun: Arena, order: Seq<u16>, n: nat, failed: bool, after: Arena)
        -> bool
        decreases n,
    {
        if n == 0 {
            !failed && after == begun
        } else {
            exists|mid: Arena|
                Self::round_steps(begun, order, (n - 1) as nat, false, mid) && #[trigger]
                Self::round_step(mid, order[n - 1], failed, after)
        }
    }

    /// Before the first place of the order, the arena is as it began.
    pub proof fn lemma_steps_none(begun: Arena, order: Seq<u16>)
        ensures
            Self::round_steps(begun, order, 0, false, begun),
    {
        reveal(Arena::round_steps);
    }

    /// One more place of the order extends the places gone through.
    pub proof fn lemma_steps_more(
        begun: Arena,
        order: Seq<u16>,
        n: nat,
        mid: Arena,
        failed: bool,
        after: Arena,
    )
        requires
            Self::round_steps(begun, order, n, false, mid),
            Self::round_step(mid, order[n as int], failed, after),
        ensures
            Self::round_steps(begun, order, n + 1, failed, after),
    {
        reveal(Arena::round_steps);
        assert(((n + 1) - 1) as nat == n);
        assert(Self::round_step(mid, order[(n + 1) - 1], failed, after));
    }

    /// Whether `after` is the arena `before` at the start of a round, with
    /// `order` as the order of the round: the round is counted, every
    /// fighter has its card from the deck as `cards_dealt` says, and the
    /// order goes by the cards.
    pub open spec fn begun(before: Arena, after: Arena, order: Seq<u16>) -> bool {
        &&& after.field.stats == (FightStats {
            rounds: capped_sum(before.field.stats.rounds, 1),
            ..before.field.stats
        })
        &&& after.field.distance_map.pairs() == before.field.distance_map.pairs()
        &&& after.field.distance_map.next_id() == before.field.distance_map.next_id()
        &&& dealt_in(before.group_left@, after.group_left@)
        &&& dealt_in(before.group_right@, after.group_right@)
        &&& order.len() == after.group_left.len() + after.group_right.len()
        &&& in_order(after.group_left@, after.group_right@, order)
        &&& Self::cards_dealt(before, after)
    }

    /// What the start of a round leaves of the deck and of the cards of
    /// the fighters: the deck begins its round, and then the left group is
    /// dealt to and after it the right one.
    #[verifier::opaque]
    pub open spec fn cards_dealt(before: Arena, after: Arena) -> bool {
        exists|fresh: CardDeck, half: CardDeck| #[trigger]
            dealt_to(
                before.group_left@,
                fresh,
                before.group_left@.len(),
                after.group_left@,
                half,
            ) && round_started(before.cards, fresh) && dealt_to(
                before.group_right@,
                half,
                before.group_right@.len(),
                after.group_right@,
                after.cards,
            )
    }

    /// A deck that began its round and was dealt from to both groups
    /// makes the cards of a round.
    pub proof fn lemma_cards_dealt(before: Arena, fresh: CardDeck, half: CardDeck, after: Arena)
        requires
            round_started(before.cards, fresh),
            dealt_to(
                before.group_left@,
                fresh,
                before.group_left@.len(),
                after.group_left@,
                half,
            ),
            dealt_to(
                before.group_right@,
                half,
                before.group_right@.len(),
                after.group_right@,
                after.cards,
            ),
        ensures
            Self::cards_dealt(before, after),
    {
        reveal(Arena::cards_dealt);
    }

    /// What a round leaves. It begins as `begun` says; then the places of
    /// the order are gone through as `round_steps` says: all of them,
    /// unless the round `failed` at one, where a fighter found nobody to
    /// attack.
    #[verifier::opaque]
    pub open spec fn round_outcome(before: Arena, failed: bool, after: Arena) -> bool {
        exists|start: Arena, order: Seq<u16>, n: nat| #[trigger]
            Self::round_steps(start, order, n, failed, after) && Self::begun(before, start, order)
                && n <= order.len() && (!failed ==> n == order.len())
    }

    /// A round that began and went through its places is a round.
    pub proof fn lemma_round(
        before: Arena,
        start: Arena,
        order: Seq<u16>,
        n: nat,
        failed: bool,
        after: Arena,
    )
        requires
            Self::begun(before, start, order),
            Self::round_steps(start, order, n, failed, after),
            n <= order.len(),
            !failed ==> n == order.len(),
        ensures
            Self::round_outcome(before, failed, after),
    {
        reveal(Arena::round_outcome);
    }

    /// What `n` rounds leave of the arena `first`, one after the other;
    /// the last of them `stopped` the fight or not, and none before it
    /// did.
    #[verifier::opaque]
    pub open spec fn rounds_played(first: Arena, n: nat, stopped: bool, last: Arena) -> bool
        decreases n,
    {
        if n == 0 {
            !stopped && last == first
        } else {
            exists|mid: Arena|
                Self::rounds_played(first, (n - 1) as nat, false, mid) && #[trigger]
                Self::round_outcome(mid, stopped, last)
        }
    }

    /// Before the first round, the arena is as it was set up.
    pub proof fn lemma_rounds_none(first: Arena)
        ensures
            Self::rounds_played(first, 0, false, first),
    {
        reveal(Arena::rounds_played);
    }

    /// One more round extends the rounds played.
    pub proof fn lemma_rounds_more(first: Arena, n: nat, mid: Arena, stopped: bool, last: Arena)
        requires
            Self::rounds_played(first, n, false, mid),
            Self::round_outcome(mid, stopped, last),
        ensures
            Self::rounds_played(first, n + 1, stopped, last),
    {
        reveal(Arena::rounds_played);
        assert(((n + 1) - 1) as nat == n);
    }

    /// Whether `first` is the arena set up for the groups of `char_data`:
    /// every character seated as a fresh fighter, the left group counted,
    /// nobody in base contact, nothing counted yet.
    pub open spec fn opened(char_data: GroupData, first: Arena) -> bool {
        &&& first.group_left.len() == char_data.group_left.len()
        &&& first.group_right.len() == char_data.group_right.len()
        &&& forall|k: int|
            0 <= k < first.group_left.len() ==> #[trigger] first.group_left[k] == Fighter::fresh(
                char_data.group_left[k],
                Group::Left,
                true,
                k as u16,
            )
        &&& forall|k: int|
            0 <= k < first.group_right.len() ==> #[trigger] first.group_right[k] == Fighter::fresh(
                char_data.group_right[k],
                Group::Right,
                false,
                (char_data.group_left.len() + k) as u16,
            )
        &&& first.field.stats == FightStats::empty()
        &&& first.field.distance_map.pairs() == Seq::<Pair>::empty()
        &&& first.field.distance_map.next_id() == char_data.group_left.len()
            + char_data.group_right.len()
    }

    /// Whether `outcome` is how a fight of at most `max_rounds` rounds
    /// between the groups of `char_data` can end: the arena is set up,
    /// rounds are played until one stops the fight or as many are played
    /// as allowed, and the fighters left standing decide.
    #[verifier::opaque]
    pub open spec fn fight_outcome(char_data: GroupData, max_rounds: u32, outcome: FightOutcome)
        -> bool {
        exists|first: Arena, n: nat, stopped: bool, last: Arena| #[trigger]
            Self::rounds_played(first, n, stopped, last) && Self::opened(char_data, first) && n
                <= max_rounds && (!stopped ==> n == max_rounds) && outcome == Self::outcome_of(
                last.group_left@,
                last.group_right@,
                last.field.stats,
            )
    }

    /// A fight that was set up and played is a fight.
    pub proof fn lemma_fight(
        char_data: GroupData,
        max_rounds: u32,
        first: Arena,
        n: nat,
        stopped: bool,
        last: Arena,
    )
        requires
            Self::opened(char_data, first),
            Self::rounds_played(first, n, stopped, last),
            n <= max_rounds,
            !stopped ==> n == max_rounds,
        ensures
            Self::fight_outcome(
                char_data,
                max_rounds,
                Self::outcome_of(last.group_left@, last.group_right@, last.field.stats),
            ),
    {
        reveal(Arena::fight_outcome);
    }

    /// Whether `tally` counts `n` fights between the groups of
    /// `char_data`, each of which ended as such a fight can.
    #[verifier::opaque]
    pub open spec fn counted(char_data: GroupData, max_rounds: u32, n: nat, tally: Tally) -> bool {
        exists|outcomes: Seq<FightOutcome>|
            {
                &&& #[trigger] tally_of(outcomes) == tally
                &&& outcomes.len() == n
                &&& forall|k: int|
                    0 <= k < outcomes.len() ==> Self::fight_outcome(
                        char_data,
                        max_rounds,
                        #[trigger] outcomes[k],
                    )
            }
    }

    /// Before the first fight, nothing is counted.
    pub proof fn lemma_counted_none(char_data: GroupData, max_rounds: u32)
        ensures
            Self::counted(char_data, max_rounds, 0, Tally::empty()),
    {
        reveal(Arena::counted);
        assert(tally_of(Seq::<FightOutcome>::empty()) == Tally::empty());
    }

    /// One more fight extends what is counted.
    pub proof fn lemma_counted_more(
        char_data: GroupData,
        max_rounds: u32,
        n: nat,
        tally: Tally,
        outcome: FightOutcome,
    )
        requires
            Self::counted(char_data, max_rounds, n, tally),
            Self::fight_outcome(char_data, max_rounds, outcome),
        ensures
            Self::counted(char_data, max_rounds, n + 1, tally.with(outcome)),
    {
        reveal(Arena::counted);
        let outcomes = choose|outcomes: Seq<FightOutcome>|
            {
                &&& #[trigger] tally_of(outcomes) == tally
                &&& outcomes.len() == n
                &&& forall|k: int|
                    0 <= k < outcomes.len() ==> Self::fight_outcome(
                        char_data,
                        max_rounds,
                        #[trigger] outcomes[k],
                    )
            };
        let more = outcomes.push(outcome);
        assert(more.drop_last() =~= outcomes);
        assert(tally_of(more) == tally.with(outcome));
    }
}

} // verus!
