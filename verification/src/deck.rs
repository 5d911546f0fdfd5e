//! Cards, their point values, and the draw table.
//!
//! A draw is an index into a 52-entry table of rank/suit combinations,
//! laid out in groups of four suits per rank. The rank order of the table
//! puts the ace between the ten and the face cards.

use vstd::prelude::*;

verus! {

/// Rank of a playing card, in the order of the draw table:
/// two through ten, then ace, then the face cards.
#[derive(Clone, Copy, Debug, PartialEq, Eq, Structural)]
pub enum Rank {
    Two,
    Three,
    Four,
    Five,
    Six,
    Seven,
    Eight,
    Nine,
    Ten,
    Ace,
    Jack,
    Queen,
    King,
}

/// Suit of a playing card. Suits are cosmetic: they never affect a score.
#[derive(Clone, Copy, Debug, PartialEq, Eq, Structural)]
pub enum Suit {
    Clubs,
    Hearts,
    Spades,
    Diamonds,
}

/// One playing card.
#[derive(Clone, Copy, Debug, PartialEq, Eq, Structural)]
pub struct Card {
    pub rank: Rank,
    pub suit: Suit,
}

/// Number of entries in the draw table: thirteen ranks times four suits.
pub const DECK_SIZE: u8 = 52;

/// Point value of a rank: two through ten count face value,
/// jack, queen and king count ten, and an ace counts eleven.
pub open spec fn rank_value(r: Rank) -> int {
    match r {
        Rank::Two => 2,
        Rank::Three => 3,
        Rank::Four => 4,
        Rank::Five => 5,
        Rank::Six => 6,
        Rank::Seven => 7,
        Rank::Eight => 8,
        Rank::Nine => 9,
        Rank::Ten => 10,
        Rank::Ace => 11,
        Rank::Jack => 10,
        Rank::Queen => 10,
        Rank::King => 10,
    }
}

/// Point value of a card: the value of its rank, whatever its suit.
pub open spec fn card_value_spec(c: Card) -> int {
    rank_value(c.rank)
}

/// Rank of the draw-table group `g`, where group `g` covers
/// table indices `4 * g` to `4 * g + 3`.
pub open spec fn rank_of_group(g: int) -> Rank {
    if g == 0 {
        Rank::Two
    } else if g == 1 {
        Rank::Three
    } else if g == 2 {
        Rank::Four
    } else if g == 3 {
        Rank::Five
    } else if g == 4 {
        Rank::Six
    } else if g == 5 {
        Rank::Seven
    } else if g == 6 {
        Rank::Eight
    } else if g == 7 {
        Rank::Nine
    } else if g == 8 {
        Rank::Ten
    } else if g == 9 {
        Rank::Ace
    } else if g == 10 {
        Rank::Jack
    } else if g == 11 {
        Rank::Queen
    } else {
        Rank::King
    }
}

/// Suit of slot `s` within a draw-table group of four.
pub open spec fn suit_of_slot(s: int) -> Suit {
    if s == 0 {
        Suit::Clubs
    } else if s == 1 {
        Suit::Hearts
    } else if s == 2 {
        Suit::Spades
    } else {
        Suit::Diamonds
    }
}

/// The card at index `i` of the draw table.
pub open spec fn card_of_index(i: int) -> Card {
    Card { rank: rank_of_group(i / 4), suit: suit_of_slot(i % 4) }
}

/// Point value of one card.
pub fn card_value(c: Card) -> (v: u32)
    ensures
        v == card_value_spec(c),
        2 <= v <= 11,
{
    match c.rank {
        Rank::Two => 2,
        Rank::Three => 3,
        Rank::Four => 4,
        Rank::Five => 5,
        Rank::Six => 6,
        Rank::Seven => 7,
        Rank::Eight => 8,
        Rank::Nine => 9,
        Rank::Ten => 10,
        Rank::Ace => 11,
        Rank::Jack => 10,
        Rank::Queen => 10,
        Rank::King => 10,
    }
}

/// The card at index `i` of the draw table.
pub fn card_from_index(i: u8) -> (c: Card)
    requires
        i < DECK_SIZE,
    ensures
        c == card_of_index(i as int),
{
    let g: u8 = i / 4;
    let rank = if g == 0 {
        Rank::Two
    } else if g == 1 {
        Rank::Three
    } else if g == 2 {
        Rank::Four
    } else if g == 3 {
        Rank::Five
    } else if g == 4 {
        Rank::Six
    } else if g == 5 {
        Rank::Seven
    } else if g == 6 {
        Rank::Eight
    } else if g == 7 {
        Rank::Nine
    } else if g == 8 {
        Rank::Ten
    } else if g == 9 {
        Rank::Ace
    } else if g == 10 {
        Rank::Jack
    } else if g == 11 {
        Rank::Queen
    } else {
        Rank::King
    };
    let s: u8 = i % 4;
    let suit = if s == 0 {
        Suit::Clubs
    } else if s == 1 {
        Suit::Hearts
    } else if s == 2 {
        Suit::Spades
    } else {
        Suit::Diamonds
    };
    Card { rank, suit }
}

/// Relies on quad_rand::gen_range: a pseudo-random sample in the half-open
/// range it is given. Nothing is assumed of the result beyond its range.
#[verifier::external_body]
fn random_index() -> (i: u8)
    ensures
        i < DECK_SIZE,
{
    quad_rand::gen_range(0u8, DECK_SIZE)
}

/// Draw one card: an independent uniform sample from the draw table,
/// with replacement. Any card can come back.
pub(crate) fn draw_card() -> Card {
    let i: u8 = random_index();
    card_from_index(i)
}

/// A card's value depends on its rank alone: both suits give the same value.
pub proof fn lemma_value_ignores_suit(r: Rank, s1: Suit, s2: Suit)
    ensures
        card_value_spec(Card { rank: r, suit: s1 }) == card_value_spec(Card { rank: r, suit: s2 }),
{
}

} // verus!
