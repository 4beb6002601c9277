//! Initiative cards: a deck of 52 ranked cards and two jokers.

use vstd::prelude::*;
use crate::simulator::random::deck_rng;
use crate::simulator::random::fresh_seed;
use crate::simulator::random::shuffle;

verus! {

/// The rank of a card. Later variants beat earlier ones.
#[derive(Debug, Clone, Copy, PartialEq, Eq, PartialOrd, Ord, Structural)]
pub enum Suit {
    Two,
    Three,
    Four,
    Five,
    Six,
    Seven,
    Eight,
    Nine,
    Ten,
    Jack,
    Queen,
    King,
    Ace,
    Joker,
}

impl Suit {
    /// The rank as a number: 2 for a two up to 14 for an ace, 15 for a joker.
    pub open spec fn spec_value(self) -> u8 {
        match self {
            Suit::Two => 2,
            Suit::Three => 3,
            Suit::Four => 4,
            Suit::Five => 5,
            Suit::Six => 6,
            Suit::Seven => 7,
            Suit::Eight => 8,
            Suit::Nine => 9,
            Suit::Ten => 10,
            Suit::Jack => 11,
            Suit::Queen => 12,
            Suit::King => 13,
            Suit::Ace => 14,
            Suit::Joker => 15,
        }
    }

    #[verifier::when_used_as_spec(spec_value)]
    pub fn value(self) -> (r: u8)
        ensures
            r == self.spec_value(),
    {
        match self {
            Suit::Two => 2,
            Suit::Three => 3,
            Suit::Four => 4,
            Suit::Five => 5,
            Suit::Six => 6,
            Suit::Seven => 7,
            Suit::Eight => 8,
            Suit::Nine => 9,
            Suit::Ten => 10,
            Suit::Jack => 11,
            Suit::Queen => 12,
            Suit::King => 13,
            Suit::Ace => 14,
            Suit::Joker => 15,
        }
    }
}

/// One card of the deck: 0..=51 are the ranked cards, four to a rank from
/// the twos up to the aces, and 52 is a joker. A higher card is better.
#[derive(Debug, Clone, Copy, PartialEq, Eq, PartialOrd, Ord, Structural)]
pub struct Card(u8);

impl View for Card {
    type V = int;

    closed spec fn view(&self) -> int {
        self.0 as int
    }
}

/// The card with number `n`.
pub closed spec fn card(n: int) -> Card {
    Card(n as u8)
}

/// The joker.
pub open spec fn joker() -> Card {
    card(52)
}

/// The 54 cards of a fresh deck, lowest first: the ranked cards and two
/// jokers.
pub open spec fn full_deck() -> Seq<Card> {
    Seq::new(54, |i: int| card(if i < 53 { i } else { 52 }))
}

/// Whether `card` is none of `drawn`.
pub open spec fn not_among(drawn: Seq<Card>) -> spec_fn(Card) -> bool {
    |card: Card| !drawn.contains(card)
}

impl Card {
    /// The joker.
    pub fn joker() -> (r: Card)
        ensures
            r == joker(),
    {
        Card(52)
    }

    #[verifier::type_invariant]
    spec fn is_card(self) -> bool {
        self.0 <= 52
    }

    /// The number of the card made from `n`.
    pub proof fn lemma_card(n: int)
        requires
            0 <= n <= 255,
        ensures
            card(n)@ == n,
    {
    }

    /// The card with number `i`.
    pub fn new(i: u8) -> (r: Card)
        requires
            i < 53,
        ensures
            r == card(i as int),
            r@ == i,
    {
        Card(i)
    }

    /// The card's number.
    pub fn number(self) -> (r: u8)
        ensures
            r as int == self@,
            r <= 52,
    {
        proof {
            use_type_invariant(&self);
        }
        self.0
    }

    /// A fresh deck in order, lowest card first.
    pub fn deck_iter() -> (r: Vec<Card>)
        ensures
            r@ == full_deck(),
    {
        let mut deck: Vec<Card> = Vec::new();
        let mut i: u8 = 0;
        while i < 53
            invariant
                i <= 53,
                deck.len() == i,
                forall|k: int| 0 <= k < i ==> #[trigger] deck[k] == card(k),
            decreases 53 - i,
        {
            deck.push(Card::new(i));
            i = i + 1;
        }
        deck.push(Card(52));
        assert(deck@ =~= full_deck());
        deck
    }

    pub open spec fn spec_is_joker(self) -> bool {
        self == joker()
    }

    #[verifier::when_used_as_spec(spec_is_joker)]
    pub fn is_joker(self) -> (r: bool)
        ensures
            r == self.spec_is_joker(),
            r == (self@ == 52),
            r == (Self::suit_of(self@) == Suit::Joker),
    {
        proof {
            use_type_invariant(&self);
        }
        self.0 == 52
    }

    /// The rank of the card with number `n`: four cards to a rank.
    pub open spec fn suit_of(n: int) -> Suit {
        if n < 4 {
            Suit::Two
        } else if n < 8 {
            Suit::Three
        } else if n < 12 {
            Suit::Four
        } else if n < 16 {
            Suit::Five
        } else if n < 20 {
            Suit::Six
        } else if n < 24 {
            Suit::Seven
        } else if n < 28 {
            Suit::Eight
        } else if n < 32 {
            Suit::Nine
        } else if n < 36 {
            Suit::Ten
        } else if n < 40 {
            Suit::Jack
        } else if n < 44 {
            Suit::Queen
        } else if n < 48 {
            Suit::King
        } else if n < 52 {
            Suit::Ace
        } else {
            Suit::Joker
        }
    }

    pub fn suit(self) -> (r: Suit)
        ensures
            r == Self::suit_of(self@),
    {
        let n = self.0;
        if n < 4 {
            Suit::Two
        } else if n < 8 {
            Suit::Three
        } else if n < 12 {
            Suit::Four
        } else if n < 16 {
            Suit::Five
        } else if n < 20 {
            Suit::Six
        } else if n < 24 {
            Suit::Seven
        } else if n < 28 {
            Suit::Eight
        } else if n < 32 {
            Suit::Nine
        } else if n < 36 {
            Suit::Ten
        } else if n < 40 {
            Suit::Jack
        } else if n < 44 {
            Suit::Queen
        } else if n < 48 {
            Suit::King
        } else if n < 52 {
            Suit::Ace
        } else {
            Suit::Joker
        }
    }
}

/// Whether `card` is one of `cards`.
pub fn holds(cards: &Vec<Card>, card: Card) -> (r: bool)
    ensures
        r == cards@.contains(card),
{
    let mut i: usize = 0;
    while i < cards.len()
        invariant
            i <= cards.len(),
            forall|k: int| 0 <= k < i ==> #[trigger] cards[k] != card,
        decreases cards.len() - i,
    {
        if cards[i] == card {
            return true;
        }
        i = i + 1;
    }
    false
}

/// The cards of a fresh deck that are none of `drawn`, lowest first.
pub fn remaining_cards(drawn: &Vec<Card>) -> (r: Vec<Card>)
    ensures
        r@ == full_deck().filter(not_among(drawn@)),
{
    let deck = Card::deck_iter();
    let mut out: Vec<Card> = Vec::new();
    let ghost full = full_deck();
    let ghost pred = not_among(drawn@);
    let mut i: usize = 0;
    proof {
        reveal(Seq::filter);
        assert(full.take(0) =~= Seq::<Card>::empty());
    }
    while i < deck.len()
        invariant
            i <= deck.len(),
            deck.len() == 54,
            deck@ == full,
            full == full_deck(),
            pred == not_among(drawn@),
            out@ == full.take(i as int).filter(pred),
        decreases deck.len() - i,
    {
        let card = deck[i];
        let keep = !holds(drawn, card);
        proof {
            reveal(Seq::filter);
            let next = full.take(i as int + 1);
            assert(next.drop_last() =~= full.take(i as int));
            assert(next.last() == card);
            assert(keep == pred(card));
            assert(next.filter(pred) == if pred(card) {
                full.take(i as int).filter(pred).push(card)
            } else {
                full.take(i as int).filter(pred)
            });
        }
        if keep {
            out.push(card);
        }
        i = i + 1;
    }
    assert(full.take(54) =~= full);
    out
}

/// A shuffled deck that deals initiative cards and remembers what it dealt
/// in the current round, and whether a joker was among it.
pub struct CardDeck {
    cards: Vec<Card>,
    last_drawn: Vec<Card>,
    joker_dealt: bool,
    rng: rand_xoshiro::Xoshiro256PlusPlus,
}

impl CardDeck {
    /// The numbers of the cards still in the deck; the last one is dealt
    /// next.
    pub closed spec fn cards(&self) -> Seq<Card> {
        self.cards@
    }

    /// The numbers of the cards dealt since the round began, oldest first.
    pub closed spec fn drawn(&self) -> Seq<Card> {
        self.last_drawn@
    }

    /// Whether a joker was dealt since the round began.
    pub closed spec fn dealt_joker(&self) -> bool {
        self.joker_dealt || self.last_drawn@.contains(joker())
    }

    /// Whether the deck holds exactly the cards of a fresh deck.
    pub open spec fn is_full(&self) -> bool {
        self.cards().to_multiset() == full_deck().to_multiset()
    }

    /// Whether the deck holds exactly the cards of a fresh deck that are
    /// none of `drawn`.
    pub open spec fn holds_all_but(&self, drawn: Seq<Card>) -> bool {
        self.cards().to_multiset() == full_deck().filter(not_among(drawn)).to_multiset()
    }

    /// A full, shuffled deck whose shuffles follow from a seed taken at
    /// random.
    pub fn new() -> (r: Self)
        ensures
            r.is_full(),
            r.cards().len() == 54,
            r.cards().to_multiset().count(joker()) == 2,
            r.drawn() == Seq::<Card>::empty(),
            !r.dealt_joker(),
    {
        Self::from_seed(fresh_seed())
    }

    /// A full, shuffled deck whose shuffles follow from `seed`.
    pub fn from_seed(seed: u64) -> (r: Self)
        ensures
            r.is_full(),
            r.cards().len() == 54,
            r.cards().to_multiset().count(joker()) == 2,
            r.drawn() == Seq::<Card>::empty(),
            !r.dealt_joker(),
    {
        let mut deck = CardDeck {
            cards: Vec::new(),
            last_drawn: Vec::new(),
            joker_dealt: false,
            rng: deck_rng(seed),
        };
        deck.refill();
        proof {
            lemma_nothing_drawn_keeps_all();
            lemma_shuffled_deck(deck.cards());
        }
        deck
    }

    /// A deck that deals the given cards, last one first, before it
    /// refills; its shuffles follow from `seed`.
    pub fn stacked(cards: Vec<Card>, seed: u64) -> (r: Self)
        ensures
            r.cards() == cards@,
            r.drawn() == Seq::<Card>::empty(),
            !r.dealt_joker(),
    {
        CardDeck { cards, last_drawn: Vec::new(), joker_dealt: false, rng: deck_rng(seed) }
    }

    /// The cards still in the deck; the last one is dealt next.
    pub fn remaining(&self) -> (r: &Vec<Card>)
        ensures
            r@ == self.cards(),
    {
        &self.cards
    }

    /// Puts every card that was not dealt this round back, shuffled.
    fn refill(&mut self)
        ensures
            final(self).holds_all_but(old(self).drawn()),
            final(self).drawn() == old(self).drawn(),
            final(self).joker_dealt == old(self).joker_dealt,
    {
        let mut cards = remaining_cards(&self.last_drawn);
        shuffle(&mut cards, &mut self.rng);
        self.cards = cards;
    }

    /// Starts a round: the deck forgets what it dealt. If a joker was
    /// dealt in the round that ends, the whole deck is shuffled afresh, all
    /// 54 cards with both jokers.
    pub fn new_round(&mut self)
        ensures
            final(self).drawn() == Seq::<Card>::empty(),
            !final(self).dealt_joker(),
            old(self).dealt_joker() ==> final(self).is_full() && final(self).cards().len() == 54
                && final(self).cards().to_multiset().count(joker()) == 2,
            !old(self).dealt_joker() ==> final(self).cards() == old(self).cards(),
            old(self).drawn().contains(joker()) ==> old(self).dealt_joker(),
    {
        let refill = self.joker_dealt || holds(&self.last_drawn, Card::joker());
        self.last_drawn = Vec::new();
        self.joker_dealt = false;
        if refill {
            self.refill();
            proof {
                lemma_nothing_drawn_keeps_all();
                lemma_shuffled_deck(self.cards());
            }
        }
    }

    /// Deals the top card. An empty deck first takes back, shuffled, the
    /// cards that were not dealt this round; if every card was dealt, it
    /// takes back all of them and begins its record anew. A joker that was
    /// dealt is remembered until the next round all the same.
    pub fn draw(&mut self) -> (card: Card)
        ensures
            0 <= card@ <= 52,
            final(self).drawn().contains(card),
            final(self).dealt_joker() == (old(self).dealt_joker() || card == joker()),
            old(self).cards().len() > 0 ==> {
                &&& card == old(self).cards().last()
                &&& final(self).cards() == old(self).cards().drop_last()
                &&& final(self).drawn() == old(self).drawn().push(card)
            },
            old(self).cards().len() == 0 ==> {
                let left = full_deck().filter(not_among(old(self).drawn()));
                if left.len() > 0 {
                    &&& final(self).cards().push(card).to_multiset() == left.to_multiset()
                    &&& final(self).drawn() == old(self).drawn().push(card)
                } else {
                    &&& final(self).cards().push(card).to_multiset() == full_deck().to_multiset()
                    &&& final(self).drawn() == seq![card]
                }
            },
    {
        if self.cards.len() == 0 {
            self.refill();
            proof {
                let left = full_deck().filter(not_among(old(self).drawn()));
                left.to_multiset_ensures();
                self.cards().to_multiset_ensures();
            }
            if self.cards.len() == 0 {
                self.joker_dealt = self.joker_dealt || holds(&self.last_drawn, Card::joker());
                self.last_drawn = Vec::new();
                self.refill();
                proof {
                    lemma_nothing_drawn_keeps_all();
                    full_deck().to_multiset_ensures();
                    self.cards().to_multiset_ensures();
                }
            }
        }
        let ghost before = self.cards@;
        let ghost record = self.last_drawn@;
        assert(self.dealt_joker() == old(self).dealt_joker());
        let card = self.cards.pop().unwrap();
        self.last_drawn.push(card);
        proof {
            let grown = record.push(card);
            if record.contains(joker()) {
                let at = choose|at: int| 0 <= at < record.len() && record[at] == joker();
                assert(grown[at] == joker());
            }
            if card == joker() {
                assert(grown[record.len() as int] == joker());
            }
            if grown.contains(joker()) {
                let at = choose|at: int| 0 <= at < grown.len() && grown[at] == joker();
                if at < record.len() {
                    assert(record[at] == joker());
                }
            }
            assert(before =~= self.cards@.push(card));
            assert(self.cards@ =~= before.drop_last());
            use_type_invariant(&card);
            assert(self.drawn().last() == card);
        }
        card
    }
}

/// A fresh deck has 54 cards, two of them jokers, and every other card
/// once.
pub proof fn lemma_full_deck()
    ensures
        full_deck().len() == 54,
        full_deck().to_multiset().count(joker()) == 2,
        forall|n: int| 0 <= n < 52 ==> #[trigger] full_deck().to_multiset().count(card(n)) == 1,
{
    let ranked = Seq::new(52, |i: int| card(i));
    let with_one = ranked.push(joker());
    assert(full_deck() =~= with_one.push(joker()));
    vstd::seq_lib::to_multiset_build(ranked, joker());
    vstd::seq_lib::to_multiset_build(with_one, joker());
    assert(!ranked.contains(joker())) by {
        if ranked.contains(joker()) {
            let k = choose|k: int| 0 <= k < ranked.len() && ranked[k] == joker();
            Card::lemma_card(k);
            Card::lemma_card(52);
        }
    }
    vstd::seq_lib::to_multiset_contains(ranked, joker());
    assert forall|n: int| 0 <= n < 52 implies #[trigger] full_deck().to_multiset().count(card(n))
        == 1 by {
        Card::lemma_card(n);
        Card::lemma_card(52);
        lemma_ranked_once(52, n);
    }
}

/// Among the first `len` ranked cards, the card with number `n` comes once
/// if `n` is below `len`, and not at all otherwise.
proof fn lemma_ranked_once(len: int, n: int)
    requires
        0 <= len <= 52,
        0 <= n < 52,
    ensures
        Seq::new(len as nat, |i: int| card(i)).to_multiset().count(card(n)) == if n < len {
            1nat
        } else {
            0nat
        },
    decreases len,
{
    let ranked = Seq::new(len as nat, |i: int| card(i));
    if len == 0 {
        vstd::seq_lib::to_multiset_contains(ranked, card(n));
    } else {
        let shorter = Seq::new((len - 1) as nat, |i: int| card(i));
        lemma_ranked_once(len - 1, n);
        assert(ranked =~= shorter.push(card(len - 1)));
        vstd::seq_lib::to_multiset_build(shorter, card(len - 1));
        Card::lemma_card(n);
        Card::lemma_card(len - 1);
    }
}

/// Cards that are a reordering of a fresh deck are 54, two of them jokers.
pub proof fn lemma_shuffled_deck(cards: Seq<Card>)
    requires
        cards.to_multiset() == full_deck().to_multiset(),
    ensures
        cards.len() == 54,
        cards.to_multiset().count(joker()) == 2,
{
    lemma_full_deck();
    vstd::seq_lib::to_multiset_len(cards);
    vstd::seq_lib::to_multiset_len(full_deck());
}

/// With nothing dealt, the cards to take back are the whole deck.
pub proof fn lemma_nothing_drawn_keeps_all()
    ensures
        full_deck().filter(not_among(Seq::<Card>::empty())) == full_deck(),
{
    let full = full_deck();
    let pred = not_among(Seq::<Card>::empty());
    assert forall|i: int| 0 <= i < full.len() implies pred(#[trigger] full[i]) by {}
    lemma_filter_keeps_all(full, pred);
}

/// A filter that every element passes changes nothing.
pub proof fn lemma_filter_keeps_all(s: Seq<Card>, pred: spec_fn(Card) -> bool)
    requires
        forall|i: int| 0 <= i < s.len() ==> pred(#[trigger] s[i]),
    ensures
        s.filter(pred) == s,
    decreases s.len(),
{
    reveal(Seq::filter);
    if s.len() > 0 {
        lemma_filter_keeps_all(s.drop_last(), pred);
        assert(s.drop_last().push(s.last()) =~= s);
    }
}

} // verus!
