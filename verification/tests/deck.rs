use game_session::poker::{get_all_cards, Card, Rank, Suit};

#[test]
fn full_deck_has_fifty_two_cards() {
    assert_eq!(get_all_cards().len(), 52);
}

#[test]
fn deck_is_suit_major_with_ranks_cycling() {
    let deck = get_all_cards();
    assert_eq!(deck[0], Card { suit: Suit::Spades, rank: Rank::Ace });
    assert_eq!(deck[12], Card { suit: Suit::Spades, rank: Rank::King });
    assert_eq!(deck[13], Card { suit: Suit::Hearts, rank: Rank::Ace });
    assert_eq!(deck[26], Card { suit: Suit::Clubs, rank: Rank::Ace });
    assert_eq!(deck[39], Card { suit: Suit::Diamonds, rank: Rank::Ace });
    assert_eq!(deck[51], Card { suit: Suit::Diamonds, rank: Rank::King });
}

#[test]
fn deck_has_no_duplicate_cards() {
    let deck = get_all_cards();
    for i in 0..deck.len() {
        for j in 0..i {
            assert_ne!(deck[i], deck[j]);
        }
    }
}

#[test]
fn card_new_sets_both_fields() {
    let card = Card::new(Suit::Hearts, Rank::Queen);
    assert_eq!(card.suit, Suit::Hearts);
    assert_eq!(card.rank, Rank::Queen);
}
