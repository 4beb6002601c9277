use fightsim::simulator::cards::Card;
use fightsim::simulator::cards::CardDeck;
use fightsim::simulator::cards::Suit;

fn sorted_deck(seed: u64) -> CardDeck {
    let mut cards = CardDeck::from_seed(seed).remaining().clone();
    cards.sort();
    CardDeck::stacked(cards, seed)
}

#[test]
fn test_generated_cards_are_sorted() {
    // this test is just needed to enable us to use is_sorted() later to ensure something is shuffled
    let cards: Vec<_> = Card::deck_iter();
    assert!(cards.is_sorted());
}

#[test]
fn test_carddeck_starts_shuffled() {
    let deck = CardDeck::new();
    assert!(!deck.remaining().is_sorted());
}

#[test]
fn test_carddeck_is_shuffled_on_refill() {
    let mut deck = CardDeck::stacked(Vec::new(), 7);
    deck.draw();
    assert!(!deck.remaining().is_empty());
    assert!(!deck.remaining().is_sorted());
}

#[test]
fn test_carddeck_contains_two_jokers() {
    let deck = CardDeck::new();
    let num_jokers = deck.remaining().iter().filter(|card| card.is_joker()).count();
    assert_eq!(num_jokers, 2);
}

#[test]
fn test_carddeck_containts_54_cards() {
    let deck = CardDeck::new();
    assert_eq!(deck.remaining().len(), 54);
}

#[test]
fn test_carddeck_refills_after_joker() {
    let mut deck = sorted_deck(11);

    assert_eq!(deck.draw(), Card::joker());
    assert_eq!(deck.draw(), Card::joker());

    deck.new_round();

    let num_cards = deck.remaining().len();
    let num_jokers = deck.remaining().iter().filter(|card| card.is_joker()).count();
    assert_eq!(num_cards, 54);
    assert_eq!(num_jokers, 2);
}

#[test]
fn test_carddeck_refills_after_empty() {
    let mut deck = CardDeck::stacked(Vec::new(), 3);
    deck.draw();
    let num_cards = deck.remaining().len();
    assert_eq!(num_cards, 53);
}

#[test]
fn test_carddeck_new_round_does_not_alter_initial_state() {
    let mut deck = CardDeck::new();
    let cards = deck.remaining().clone();

    deck.new_round();
    assert_eq!(deck.remaining(), &cards);
}

#[test]
fn test_suit() {
    assert!(Suit::Three < Suit::Four);
    assert!(Suit::Four < Suit::Ten);
    assert!(Suit::Ten < Suit::Jack);
    assert!(Suit::Jack < Suit::Ace);
    assert!(Suit::King < Suit::Joker);
    assert_eq!(Card::joker().suit(), Suit::Joker);
}

#[test]
fn a_round_without_a_joker_keeps_the_deck() {
    let mut cards = CardDeck::from_seed(5).remaining().clone();
    cards.sort();
    // the jokers are the best cards: put them at the bottom
    cards.reverse();
    let mut deck = CardDeck::stacked(cards, 5);
    let first = deck.draw();
    let second = deck.draw();
    assert!(!first.is_joker() && !second.is_joker());
    let left = deck.remaining().clone();
    assert_eq!(left.len(), 52);

    deck.new_round();
    assert_eq!(deck.remaining(), &left);
    assert_eq!(deck.remaining().iter().filter(|card| card.is_joker()).count(), 2);
}

#[test]
fn one_joker_is_enough_to_refill() {
    let mut deck = sorted_deck(23);
    assert!(deck.draw().is_joker());
    assert_eq!(deck.remaining().len(), 53);
    deck.new_round();
    assert_eq!(deck.remaining().len(), 54);
    assert_eq!(deck.remaining().iter().filter(|card| card.is_joker()).count(), 2);
    // the round is forgotten: another one changes nothing
    let cards = deck.remaining().clone();
    deck.new_round();
    assert_eq!(deck.remaining(), &cards);
}

#[test]
fn a_joker_is_remembered_when_the_deck_runs_out() {
    let mut deck = sorted_deck(29);
    let mut jokers = 0;
    for _ in 0..54 {
        if deck.draw().is_joker() {
            jokers += 1;
        }
    }
    assert_eq!(jokers, 2);
    assert!(deck.remaining().is_empty());
    // every card was dealt this round: the deck takes all of them back
    deck.draw();
    assert_eq!(deck.remaining().len(), 53);
    deck.new_round();
    assert_eq!(deck.remaining().len(), 54);
    assert_eq!(deck.remaining().iter().filter(|card| card.is_joker()).count(), 2);
}
