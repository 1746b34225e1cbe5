use vstd::prelude::*;

verus! {

use crate::game_item::GameItem;
use vstd::arithmetic::div_mod::lemma_fundamental_div_mod_converse_div;
use vstd::arithmetic::div_mod::lemma_fundamental_div_mod_converse_mod;

#[derive(Debug, Clone, Copy, PartialEq, Eq, Structural)]
pub enum Suit {
    Spades,
    Hearts,
    Clubs,
    Diamonds,
}

#[derive(Debug, Clone, Copy, PartialEq, Eq, Structural)]
pub enum Rank {
    Ace,
    Two,
    Three,
    Four,
    Five,
    Six,
    Seven,
    Eight,
    Nine,
    Ten,
    Jack,
    Queen,
    King,
}

/// One playing card.
#[derive(Debug, Clone, Copy, PartialEq, Eq, Structural)]
pub struct Card {
    pub suit: Suit,
    pub rank: Rank,
}

impl GameItem for Card {
}

impl Card {
    pub fn new(suit: Suit, rank: Rank) -> (c: Card)
        ensures
            c == (Card { suit, rank }),
    {
        Card { suit, rank }
    }
}

/// The suit at a given position of the fixed suit order.
pub open spec fn suit_at(i: int) -> Suit {
    if i == 0 {
        Suit::Spades
    } else if i == 1 {
        Suit::Hearts
    } else if i == 2 {
        Suit::Clubs
    } else {
        Suit::Diamonds
    }
}

/// The rank at a given position of the fixed rank order.
pub open spec fn rank_at(i: int) -> Rank {
    if i == 0 {
        Rank::Ace
    } else if i == 1 {
        Rank::Two
    } else if i == 2 {
        Rank::Three
    } else if i == 3 {
        Rank::Four
    } else if i == 4 {
        Rank::Five
    } else if i == 5 {
        Rank::Six
    } else if i == 6 {
        Rank::Seven
    } else if i == 7 {
        Rank::Eight
    } else if i == 8 {
        Rank::Nine
    } else if i == 9 {
        Rank::Ten
    } else if i == 10 {
        Rank::Jack
    } else if i == 11 {
        Rank::Queen
    } else {
        Rank::King
    }
}

/// The card a full deck holds at a given position: suits in blocks of
/// thirteen, ranks cycling inside each block.
pub open spec fn deck_card_at(i: int) -> Card {
    Card { suit: suit_at(i / 13), rank: rank_at(i % 13) }
}

fn suit_from_index(i: usize) -> (s: Suit)
    requires
        i < 4,
    ensures
        s == suit_at(i as int),
{
    if i == 0 {
        Suit::Spades
    } else if i == 1 {
        Suit::Hearts
    } else if i == 2 {
        Suit::Clubs
    } else {
        Suit::Diamonds
    }
}

fn rank_from_index(i: usize) -> (r: Rank)
    requires
        i < 13,
    ensures
        r == rank_at(i as int),
{
    if i == 0 {
        Rank::Ace
    } else if i == 1 {
        Rank::Two
    } else if i == 2 {
        Rank::Three
    } else if i == 3 {
        Rank::Four
    } else if i == 4 {
        Rank::Five
    } else if i == 5 {
        Rank::Six
    } else if i == 6 {
        Rank::Seven
    } else if i == 7 {
        Rank::Eight
    } else if i == 8 {
        Rank::Nine
    } else if i == 9 {
        Rank::Ten
    } else if i == 10 {
        Rank::Jack
    } else if i == 11 {
        Rank::Queen
    } else {
        Rank::King
    }
}

/// The complete deck: fifty-two cards, one for every suit and rank pairing,
/// in the fixed suit-major order described by [`deck_card_at`].
pub fn get_all_cards() -> (deck: Vec<Card>)
    ensures
        deck@.len() == 52,
        forall|i: int| 0 <= i < 52 ==> deck@[i] == deck_card_at(i),
{
    let mut deck: Vec<Card> = Vec::new();
    let mut s: usize = 0;
    while s < 4
        invariant
            s <= 4,
            deck@.len() == s * 13,
            forall|i: int| 0 <= i < deck@.len() ==> deck@[i] == deck_card_at(i),
        decreases 4 - s,
    {
        let suit = suit_from_index(s);
        let mut r: usize = 0;
        while r < 13
            invariant
                s < 4,
                r <= 13,
                suit == suit_at(s as int),
                deck@.len() == s * 13 + r,
                forall|i: int| 0 <= i < deck@.len() ==> deck@[i] == deck_card_at(i),
            decreases 13 - r,
        {
            let rank = rank_from_index(r);
            proof {
                lemma_fundamental_div_mod_converse_div(
                    (s * 13 + r) as int,
                    13,
                    s as int,
                    r as int,
                );
                lemma_fundamental_div_mod_converse_mod(
                    (s * 13 + r) as int,
                    13,
                    s as int,
                    r as int,
                );
            }
            deck.push(Card { suit, rank });
            r = r + 1;
        }
        s = s + 1;
    }
    deck
}

} // verus!
