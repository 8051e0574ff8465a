//! Card identity: suits, ranks, and the mapping between a card and its
//! index in a standard 52-card deck (index = suit block * 13 + rank offset).

use vstd::prelude::*;
use vstd::string::StringExecFns;

verus! {

#[derive(Debug, Clone, Copy, PartialEq, Eq, Hash, Structural)]
pub enum Suite {
    Hearts,
    Diamonds,
    Clubs,
    Spades,
}

#[derive(Debug, Clone, Copy, PartialEq, Eq, PartialOrd, Ord, Hash, Structural)]
pub enum Rank {
    Ace,
    Two,
    Three,
    Four,
    Five,
    Six,
    Seven,
    Eight,
    Nine,
    Ten,
    Jack,
    Queen,
    King,
}

#[derive(Debug, Clone, Copy, PartialEq, Eq, Structural)]
pub enum PlayingCard {
    Standard(Suite, Rank),
    Joker(i32),
}

/// Deck-index block of a suit: Spades occupy indices 0..13, Hearts 13..26,
/// Diamonds 26..39, Clubs 39..52.
pub open spec fn spec_suite_num(s: Suite) -> int {
    match s {
        Suite::Spades => 0,
        Suite::Hearts => 1,
        Suite::Diamonds => 2,
        Suite::Clubs => 3,
    }
}

/// Offset of a rank within its suit block, Ace first.
pub open spec fn spec_rank_num(r: Rank) -> int {
    match r {
        Rank::Ace => 0,
        Rank::Two => 1,
        Rank::Three => 2,
        Rank::Four => 3,
        Rank::Five => 4,
        Rank::Six => 5,
        Rank::Seven => 6,
        Rank::Eight => 7,
        Rank::Nine => 8,
        Rank::Ten => 9,
        Rank::Jack => 10,
        Rank::Queen => 11,
        Rank::King => 12,
    }
}

pub open spec fn spec_suite_of_index(v: int) -> Suite {
    if v / 13 == 1 {
        Suite::Hearts
    } else if v / 13 == 2 {
        Suite::Diamonds
    } else if v / 13 == 3 {
        Suite::Clubs
    } else {
        Suite::Spades
    }
}

pub open spec fn spec_rank_of_index(v: int) -> Rank {
    if v % 13 == 0 {
        Rank::Ace
    } else if v % 13 == 1 {
        Rank::Two
    } else if v % 13 == 2 {
        Rank::Three
    } else if v % 13 == 3 {
        Rank::Four
    } else if v % 13 == 4 {
        Rank::Five
    } else if v % 13 == 5 {
        Rank::Six
    } else if v % 13 == 6 {
        Rank::Seven
    } else if v % 13 == 7 {
        Rank::Eight
    } else if v % 13 == 8 {
        Rank::Nine
    } else if v % 13 == 9 {
        Rank::Ten
    } else if v % 13 == 10 {
        Rank::Jack
    } else if v % 13 == 11 {
        Rank::Queen
    } else {
        Rank::King
    }
}

/// Deck index of a standard card: the inverse of the two functions above
/// on indices 0..52.
pub open spec fn spec_card_index(s: Suite, r: Rank) -> int {
    spec_suite_num(s) * 13 + spec_rank_num(r)
}

/// The card denoted by a deck index. Indices 0..52 denote the standard
/// cards; 52 and above denote jokers. A negative index denotes no card of
/// the deck; it is mapped to a joker token carrying the index itself.
pub open spec fn spec_card_of_index(v: int) -> PlayingCard {
    if 0 <= v < 52 {
        PlayingCard::Standard(spec_suite_of_index(v), spec_rank_of_index(v))
    } else if v >= 52 {
        PlayingCard::Joker((v - 52) as i32)
    } else {
        PlayingCard::Joker(v as i32)
    }
}

impl From<i32> for PlayingCard {
    /// Decode a deck index into a card.
    fn from(value: i32) -> (r: Self) {
        if 0 <= value && value < 52 {
            let suite = match value / 13 {
                1 => Suite::Hearts,
                2 => Suite::Diamonds,
                3 => Suite::Clubs,
                _ => Suite::Spades,
            };
            let rank = match value % 13 {
                0 => Rank::Ace,
                1 => Rank::Two,
                2 => Rank::Three,
                3 => Rank::Four,
                4 => Rank::Five,
                5 => Rank::Six,
                6 => Rank::Seven,
                7 => Rank::Eight,
                8 => Rank::Nine,
                9 => Rank::Ten,
                10 => Rank::Jack,
                11 => Rank::Queen,
                _ => Rank::King,
            };
            PlayingCard::Standard(suite, rank)
        } else if value >= 52 {
            PlayingCard::Joker(value - 52)
        } else {
            PlayingCard::Joker(value)
        }
    }
}

impl vstd::std_specs::convert::FromSpecImpl<i32> for PlayingCard {
    open spec fn obeys_from_spec() -> bool {
        true
    }

    open spec fn from_spec(v: i32) -> PlayingCard {
        spec_card_of_index(v as int)
    }
}

impl PlayingCard {
    /// Numeric token of this card, with ranks counted from 1 (Ace) to 13
    /// (King) within each suit block, and jokers from 52 up.
    pub fn to_index(&self) -> (r: i32)
        requires
            (self matches PlayingCard::Joker(n) ==> n <= i32::MAX - 52),
        ensures
            *self matches PlayingCard::Standard(s, rk) ==> r == spec_suite_num(s) * 13
                + spec_rank_num(rk) + 1,
            *self matches PlayingCard::Joker(n) ==> r == n + 52,
    {
        match self {
            PlayingCard::Standard(suite, rank) => {
                let suite_value: i32 = match suite {
                    Suite::Hearts => 1,
                    Suite::Diamonds => 2,
                    Suite::Clubs => 3,
                    Suite::Spades => 0,
                };
                let rank_value: i32 = match rank {
                    Rank::Ace => 1,
                    Rank::Two => 2,
                    Rank::Three => 3,
                    Rank::Four => 4,
                    Rank::Five => 5,
                    Rank::Six => 6,
                    Rank::Seven => 7,
                    Rank::Eight => 8,
                    Rank::Nine => 9,
                    Rank::Ten => 10,
                    Rank::Jack => 11,
                    Rank::Queen => 12,
                    Rank::King => 13,
                };
                suite_value * 13 + rank_value
            },
            PlayingCard::Joker(num) => 52 + *num,
        }
    }
}

/// Texture file name fragment of a suit.
pub open spec fn spec_suite_str(s: Suite) -> Seq<char> {
    match s {
        Suite::Hearts => "heart"@,
        Suite::Diamonds => "diamond"@,
        Suite::Clubs => "club"@,
        Suite::Spades => "spade"@,
    }
}

/// Texture file name fragment of a rank: two digits, Ace first.
pub open spec fn spec_rank_str(r: Rank) -> Seq<char> {
    match r {
        Rank::Ace => "01"@,
        Rank::Two => "02"@,
        Rank::Three => "03"@,
        Rank::Four => "04"@,
        Rank::Five => "05"@,
        Rank::Six => "06"@,
        Rank::Seven => "07"@,
        Rank::Eight => "08"@,
        Rank::Nine => "09"@,
        Rank::Ten => "10"@,
        Rank::Jack => "11"@,
        Rank::Queen => "12"@,
        Rank::King => "13"@,
    }
}

pub open spec fn spec_front_texture_path(card: PlayingCard) -> Seq<char> {
    match card {
        PlayingCard::Standard(s, r) => "textures/playing_cards/card_"@ + spec_suite_str(s) + "_"@
            + spec_rank_str(r) + ".png"@,
        PlayingCard::Joker(_) => "textures/playing_cards/card_joker.png"@,
    }
}

/// Path of the texture showing a card's face.
pub fn front_texture_path(card: &PlayingCard) -> (r: String)
    ensures
        r@ == spec_front_texture_path(*card),
{
    match card {
        PlayingCard::Standard(suite, rank) => {
            let suite_str: &str = match suite {
                Suite::Hearts => "heart",
                Suite::Diamonds => "diamond",
                Suite::Clubs => "club",
                Suite::Spades => "spade",
            };
            let rank_str: &str = match rank {
                Rank::Ace => "01",
                Rank::Two => "02",
                Rank::Three => "03",
                Rank::Four => "04",
                Rank::Five => "05",
                Rank::Six => "06",
                Rank::Seven => "07",
                Rank::Eight => "08",
                Rank::Nine => "09",
                Rank::Ten => "10",
                Rank::Jack => "11",
                Rank::Queen => "12",
                Rank::King => "13",
            };
            let mut out = String::from_str("textures/playing_cards/card_");
            out.append(suite_str);
            out.append("_");
            out.append(rank_str);
            out.append(".png");
            out
        },
        PlayingCard::Joker(_) => String::from_str("textures/playing_cards/card_joker.png"),
    }
}

/// Path of the shared card back texture.
pub fn back_texture_path() -> (r: String)
    ensures
        r@ == "textures/playing_cards/card_back.png"@,
{
    String::from_str("textures/playing_cards/card_back.png")
}

pub open spec fn spec_suite_name(s: Suite) -> Seq<char> {
    match s {
        Suite::Hearts => "Hearts"@,
        Suite::Diamonds => "Diamonds"@,
        Suite::Clubs => "Clubs"@,
        Suite::Spades => "Spades"@,
    }
}

pub open spec fn spec_rank_name(r: Rank) -> Seq<char> {
    match r {
        Rank::Ace => "Ace"@,
        Rank::Two => "Two"@,
        Rank::Three => "Three"@,
        Rank::Four => "Four"@,
        Rank::Five => "Five"@,
        Rank::Six => "Six"@,
        Rank::Seven => "Seven"@,
        Rank::Eight => "Eight"@,
        Rank::Nine => "Nine"@,
        Rank::Ten => "Ten"@,
        Rank::Jack => "Jack"@,
        Rank::Queen => "Queen"@,
        Rank::King => "King"@,
    }
}

pub open spec fn spec_digit_str(d: int) -> Seq<char> {
    if d == 0 {
        "0"@
    } else if d == 1 {
        "1"@
    } else if d == 2 {
        "2"@
    } else if d == 3 {
        "3"@
    } else if d == 4 {
        "4"@
    } else if d == 5 {
        "5"@
    } else if d == 6 {
        "6"@
    } else if d == 7 {
        "7"@
    } else if d == 8 {
        "8"@
    } else {
        "9"@
    }
}

/// Decimal notation of a non-negative number, most significant digit
/// first, without leading zeroes (a lone zero for 0).
pub open spec fn spec_decimal(n: int) -> Seq<char>
    decreases n,
{
    if n < 10 {
        spec_digit_str(n)
    } else {
        spec_decimal(n / 10) + spec_digit_str(n % 10)
    }
}

/// Decimal notation of a signed number: a minus sign before the digits
/// of its magnitude.
pub open spec fn spec_signed_decimal(v: int) -> Seq<char> {
    if v < 0 {
        "-"@ + spec_decimal(-v)
    } else {
        spec_decimal(v)
    }
}

fn digit_str(d: u32) -> (r: &'static str)
    requires
        d < 10,
    ensures
        r@ == spec_digit_str(d as int),
{
    match d {
        0 => "0",
        1 => "1",
        2 => "2",
        3 => "3",
        4 => "4",
        5 => "5",
        6 => "6",
        7 => "7",
        8 => "8",
        _ => "9",
    }
}

fn push_decimal(out: &mut String, n: u32)
    ensures
        final(out)@ == old(out)@ + spec_decimal(n as int),
    decreases n,
{
    if n >= 10 {
        push_decimal(out, n / 10);
    }
    out.append(digit_str(n % 10));
    proof {
        assert(out@ =~= old(out)@ + spec_decimal(n as int));
    }
}

pub open spec fn spec_display(card: PlayingCard) -> Seq<char> {
    match card {
        PlayingCard::Standard(s, r) => spec_rank_name(r) + " of "@ + spec_suite_name(s),
        PlayingCard::Joker(n) => "Joker "@ + spec_signed_decimal(n as int),
    }
}

impl PlayingCard {
    /// A human-readable name: rank and suit for a standard card, the
    /// joker's number otherwise.
    pub fn display(&self) -> (r: String)
        ensures
            r@ == spec_display(*self),
    {
        match self {
            PlayingCard::Standard(suite, rank) => {
                let rank_str: &str = match rank {
                    Rank::Ace => "Ace",
                    Rank::Two => "Two",
                    Rank::Three => "Three",
                    Rank::Four => "Four",
                    Rank::Five => "Five",
                    Rank::Six => "Six",
                    Rank::Seven => "Seven",
                    Rank::Eight => "Eight",
                    Rank::Nine => "Nine",
                    Rank::Ten => "Ten",
                    Rank::Jack => "Jack",
                    Rank::Queen => "Queen",
                    Rank::King => "King",
                };
                let suite_str: &str = match suite {
                    Suite::Hearts => "Hearts",
                    Suite::Diamonds => "Diamonds",
                    Suite::Clubs => "Clubs",
                    Suite::Spades => "Spades",
                };
                let mut out = String::from_str(rank_str);
                out.append(" of ");
                out.append(suite_str);
                out
            },
            PlayingCard::Joker(num) => {
                let n = *num;
                let mut out = String::from_str("Joker ");
                if n < 0 {
                    out.append("-");
                    let magnitude: u32 = (-(n as i64)) as u32;
                    proof {
                        assert(magnitude == -(n as int));
                    }
                    push_decimal(&mut out, magnitude);
                    proof {
                        assert(out@ =~= "Joker "@ + spec_signed_decimal(n as int));
                    }
                } else {
                    push_decimal(&mut out, n as u32);
                }
                out
            },
        }
    }
}

} // verus!
